use modio::auth::Credentials;
use modio::client::Modio;
use modio::error::{self, ErrorKind};
use modio::filter::ListOptions;
use modio::form::{Form, PartValue};
use modio::mods::{
    AddMediaOptions, AddModOptions, DeleteMediaOptions, EditDepencenciesOptions, EditModOptions,
    EditTagsOptions, ModRef, Mods, MyMods, Rating,
};
use modio::request::{Body, RequestBuilder, Route};
use modio::stream::Stream;

fn client() -> Modio {
    Modio::new(String::from("https://api.mod.io/v1"), Credentials::Token(String::from("t"), None))
}

fn route_path(r: &RequestBuilder) -> (&'static str, String) {
    match r.route() {
        Route::Get(p) => ("GET", p.clone()),
        Route::Post(p) => ("POST", p.clone()),
        Route::Put(p) => ("PUT", p.clone()),
        Route::Delete(p) => ("DELETE", p.clone()),
        _ => panic!("not a resource route"),
    }
}

fn form_body(r: &RequestBuilder) -> String {
    match r.request_body() {
        Some(Body::Form(s)) => s.clone(),
        _ => panic!("expected a form body"),
    }
}

/// The parts of a form as (name, text or file name).
fn parts(form: Form) -> Vec<(String, String)> {
    form.into_parts()
        .into_iter()
        .map(|p| match p.value {
            PartValue::Text(t) => (p.name, t),
            PartValue::File(f) => (p.name, format!("file:{}:{}:{}", f.path(), f.filename(), f.mime())),
        })
        .collect()
}

fn pairs(v: &[(&str, &str)]) -> Vec<(String, String)> {
    v.iter().map(|(a, b)| (a.to_string(), b.to_string())).collect()
}

fn strings(v: &[&str]) -> Vec<String> {
    v.iter().map(|s| s.to_string()).collect()
}

#[test]
fn my_mods_list() {
    let m = MyMods::new(client());
    let r = m.list(&ListOptions::new());
    assert_eq!(route_path(&r), ("GET", String::from("/me/mods")));
    let mut opts = ListOptions::new();
    opts.param("_sort", "-id");
    let r = m.iter(&opts).page(0);
    assert_eq!(route_path(&r), ("GET", String::from("/me/mods?_sort=-id")));
}

#[test]
fn mods_paths() {
    let mods = Mods::new(client(), 5);
    assert_eq!(route_path(&mods.list(&ListOptions::new())), ("GET", String::from("/games/5/mods")));
    let mut opts = ListOptions::new();
    opts.param("id-in", "1,2");
    assert_eq!(route_path(&mods.iter(&opts).page(0)), ("GET", String::from("/games/5/mods?id-in=1%2C2")));
    assert_eq!(route_path(&mods.statistics(&ListOptions::new()).page(0)), ("GET", String::from("/games/5/mods/stats")));
    assert_eq!(route_path(&mods.events(&opts).page(0)), ("GET", String::from("/games/5/mods/events?id-in=1%2C2")));
}

#[test]
fn mod_ref_paths() {
    let m = Mods::new(client(), 5).get(77);
    assert_eq!(route_path(&m.get()), ("GET", String::from("/games/5/mods/77")));
    assert_eq!(route_path(&m.statistics()), ("GET", String::from("/games/5/mods/77/stats")));
    assert_eq!(route_path(&m.events(&ListOptions::new()).page(0)), ("GET", String::from("/games/5/mods/77/events")));
    assert_eq!(m.tags().path(), "/games/5/mods/77/tags");
    assert_eq!(m.dependencies().path(), "/games/5/mods/77/dependencies");
    assert_eq!(route_path(&m.subscribe()), ("POST", String::from("/games/5/mods/77/subscribe")));
    assert!(m.subscribe().request_body().is_none());
    assert_eq!(route_path(&m.unsubscribe()), ("DELETE", String::from("/games/5/mods/77/subscribe")));
    let _ = (m.files(), m.file(3), m.metadata(), m.comments(), m.members());
}

#[test]
fn rating_params() {
    assert_eq!(Rating::Positive.to_query_params(), "rating=1");
    assert_eq!(Rating::Negative.to_query_params(), "rating=-1");
    let m = ModRef::new(client(), 1, 2);
    let r = m.rate(Rating::Negative);
    assert_eq!(route_path(&r), ("POST", String::from("/games/1/mods/2/ratings")));
    assert_eq!(form_body(&r), "rating=-1");
}

#[test]
fn bad_request_counts_as_success() {
    assert!(ModRef::accept_bad_request(Ok(())).is_ok());
    assert!(ModRef::accept_bad_request(Err(error::error_for_status(400, String::from("already")))).is_ok());
    match ModRef::accept_bad_request(Err(error::error_for_status(401, String::from("no")))) {
        Err(e) => assert!(matches!(e.kind(), ErrorKind::Fault { code: 401, .. })),
        Ok(()) => panic!("expected the error"),
    }
    assert!(ModRef::accept_bad_request(Err(error::decode())).is_err());
}

#[test]
fn edit_mod_options_query() {
    let mut b = EditModOptions::builder();
    b.status(1).visible(false).name(String::from("My Mod")).stock(10).maturity_option(3);
    b.metadata_blob(String::from("x=y")).homepage_url(String::from("https://example.com/"));
    let opts = b.build();
    assert_eq!(
        opts.to_query_params(),
        "status=1&visible=0&name=My+Mod&homepage_url=https%3A%2F%2Fexample.com%2F&stock=10&maturity_option=3&metadata_blob=x%3Dy"
    );
    let mut b = EditModOptions::builder();
    b.summary(String::from("s")).description(String::from("d")).name_id(String::from("n"));
    assert_eq!(b.build().to_query_params(), "name_id=n&summary=s&description=d");
    assert_eq!(EditModOptions::builder().build().to_query_params(), "");
}

#[test]
fn edit_request() {
    let mut b = EditModOptions::builder();
    b.visible(true);
    let r = ModRef::new(client(), 1, 2).edit(&b.build());
    assert_eq!(route_path(&r), ("PUT", String::from("/games/1/mods/2")));
    assert_eq!(form_body(&r), "visible=1");
}

#[test]
fn dependencies_query() {
    assert_eq!(EditDepencenciesOptions::new(&[1, 22, 333]).to_query_params(), "dependencies%5B%5D=1&dependencies%5B%5D=22&dependencies%5B%5D=333");
    assert_eq!(EditDepencenciesOptions::one(9).to_query_params(), "dependencies%5B%5D=9");
    assert_eq!(EditDepencenciesOptions::new(&[]).to_query_params(), "");
}

#[test]
fn tags_query() {
    let tags = strings(&["a b", "c"]);
    assert_eq!(EditTagsOptions::new(&tags).to_query_params(), "tags%5B%5D=a+b&tags%5B%5D=c");
}

#[test]
fn delete_media_query() {
    let mut b = DeleteMediaOptions::builder();
    b.sketchfab(&strings(&["s1"])).images(&strings(&["i1.png", "i2.png"])).youtube(&strings(&["y"]));
    let opts = b.build();
    assert_eq!(opts.to_query_params(), "images%5B%5D=i1.png&images%5B%5D=i2.png&youtube%5B%5D=y&sketchfab%5B%5D=s1");
    let r = ModRef::new(client(), 1, 2).delete_media(&opts);
    assert_eq!(route_path(&r), ("DELETE", String::from("/games/1/mods/2/media")));
    assert_eq!(DeleteMediaOptions::builder().build().to_query_params(), "");
}

#[test]
fn add_mod_form() {
    let mut b = AddModOptions::builder(String::from("Name"), "/tmp/dir/logo.png", String::from("Sum"));
    b.visible(true).stock(4).tags(&strings(&["t1", "t2"])).description(String::from("D"));
    b.name_id(String::from("nid")).maturity_option(2).metadata_blob(String::from("m")).homepage_url(String::from("https://h/"));
    let form = b.build().into_form();
    assert_eq!(
        parts(form),
        pairs(&[
            ("name", "Name"),
            ("summary", "Sum"),
            ("visible", "1"),
            ("name_id", "nid"),
            ("description", "D"),
            ("homepage_url", "https://h/"),
            ("stock", "4"),
            ("maturity_option", "2"),
            ("metadata_blob", "m"),
            ("tags[]", "t1"),
            ("tags[]", "t2"),
            ("logo", "file:/tmp/dir/logo.png:logo.png:image/*"),
        ])
    );
}

#[test]
fn add_mod_request() {
    let b = AddModOptions::builder(String::from("N"), "logo.png", String::from("S"));
    let r = Mods::new(client(), 8).add(b.build());
    assert_eq!(route_path(&r), ("POST", String::from("/games/8/mods")));
    match r.request_body() {
        Some(Body::Multipart(_)) => {},
        _ => panic!("expected a multipart body"),
    }
}

#[test]
fn logo_without_file_name() {
    let b = AddModOptions::builder(String::from("N"), "..", String::from("S"));
    let form = b.build().into_form();
    assert_eq!(parts(form).last().unwrap().1, "file:..::image/*");
}

#[test]
fn add_media_form() {
    let mut b = AddMediaOptions::builder();
    b.youtube(&strings(&["y1", "y2"]))
        .images(&strings(&["a/x.png", "b/y.jpg"]))
        .logo("l/logo.png")
        .images_zip("z/imgs.zip")
        .sketchfab(&strings(&["s"]));
    let form = b.build().into_form();
    assert_eq!(
        parts(form),
        pairs(&[
            ("logo", "file:l/logo.png:logo.png:image/*"),
            ("images", "file:z/imgs.zip:images.zip:application/octet-stream"),
            ("image0", "file:a/x.png:x.png:image/*"),
            ("image1", "file:b/y.jpg:y.jpg:image/*"),
            ("youtube[]", "y1"),
            ("youtube[]", "y2"),
            ("sketchfab[]", "s"),
        ])
    );
}

#[test]
fn add_media_request() {
    let r = ModRef::new(client(), 3, 4).add_media(AddMediaOptions::builder().build());
    assert_eq!(route_path(&r), ("POST", String::from("/games/3/mods/4/media")));
    match r.request_body() {
        Some(Body::Multipart(f)) => assert!(f.parts().is_empty()),
        _ => panic!("expected a multipart body"),
    }
}

#[test]
fn stream_pages_add_offset() {
    let mods = Mods::new(client(), 5);
    let all = mods.iter(&ListOptions::new());
    assert_eq!(route_path(&all.page(0)), ("GET", String::from("/games/5/mods")));
    assert_eq!(route_path(&all.page(100)), ("GET", String::from("/games/5/mods?_offset=100")));
    let mut opts = ListOptions::new();
    opts.param("_limit", "10");
    let some = mods.events(&opts);
    assert_eq!(route_path(&some.page(20)), ("GET", String::from("/games/5/mods/events?_limit=10&_offset=20")));
}

#[test]
fn stream_next_offset() {
    assert_eq!(Stream::next_offset(0, 100, 250), Some(100));
    assert_eq!(Stream::next_offset(100, 100, 250), Some(200));
    assert_eq!(Stream::next_offset(200, 50, 250), None);
    assert_eq!(Stream::next_offset(0, 0, 250), None);
    assert_eq!(Stream::next_offset(0, 10, 10), None);
    assert_eq!(Stream::next_offset(u64::MAX - 1, 5, u64::MAX), None);
    assert_eq!(Stream::next_offset(300, 1, 250), None);
}

#[test]
fn paths_without_file_name() {
    for p in ["/", "..", "a/..", "/tmp/.."] {
        let b = AddModOptions::builder(String::from("N"), p, String::from("S"));
        let form = b.build().into_form();
        assert_eq!(parts(form).last().unwrap().1, format!("file:{}::image/*", p));
    }
}

#[test]
fn plain_paths_send_their_final_component() {
    let mut b = AddMediaOptions::builder();
    b.images(&strings(&["x.png", "/abs/dir/y.jpg", "./rel/z.gif"]));
    let names: Vec<String> = parts(b.build().into_form()).into_iter().map(|p| p.1).collect();
    assert_eq!(names, vec![
        String::from("file:x.png:x.png:image/*"),
        String::from("file:/abs/dir/y.jpg:y.jpg:image/*"),
        String::from("file:./rel/z.gif:z.gif:image/*"),
    ]);
}
