use modio::auth::{self, Credentials};
use modio::client::Modio;
use modio::error::{self, ErrorKind};
use modio::form::Form;
use modio::request::{AuthMethod, Body, Method, RequestBuilder, ResponseStep, Route};

fn api_key() -> Modio {
    Modio::new(String::from("https://api.mod.io/v1"), Credentials::ApiKey(String::from("KEY")))
}

fn token() -> Modio {
    Modio::new(String::from("https://api.mod.io/v1"), Credentials::Token(String::from("TOK"), Some(9)))
}

#[test]
fn route_pieces() {
    let (m, a, p) = Route::AuthEmailRequest.pieces();
    assert_eq!((m, a, p.as_str()), (Method::Post, AuthMethod::ApiKey, "/oauth/emailrequest"));
    let (m, a, p) = Route::LinkAccount.pieces();
    assert_eq!((m, a, p.as_str()), (Method::Post, AuthMethod::Token, "/external/link"));
    let (m, a, p) = Route::Get(String::from("/games")).pieces();
    assert_eq!((m, a, p.as_str()), (Method::Get, AuthMethod::Any, "/games"));
    let (m, a, _) = Route::Delete(String::from("/x")).pieces();
    assert_eq!((m, a), (Method::Delete, AuthMethod::Token));
    let (m, a, _) = Route::Put(String::from("/x")).pieces();
    assert_eq!((m, a), (Method::Put, AuthMethod::Token));
}

#[test]
fn api_key_route_refuses_token() {
    let r = RequestBuilder::new(token(), Route::AuthEmailRequest);
    match r.prepare() {
        Err(e) => assert!(matches!(e.kind(), ErrorKind::Auth(auth::Error::ApiKeyRequired))),
        Ok(_) => panic!("expected a refusal"),
    }
}

#[test]
fn token_route_refuses_api_key() {
    let r = RequestBuilder::new(api_key(), Route::Post(String::from("/games/1/mods")));
    match r.prepare() {
        Err(e) => assert!(matches!(e.kind(), ErrorKind::Auth(auth::Error::TokenRequired))),
        Ok(_) => panic!("expected a refusal"),
    }
}

#[test]
fn api_key_goes_into_the_url() {
    let p = RequestBuilder::new(api_key(), Route::Get(String::from("/games/5/mods"))).prepare().ok().unwrap();
    assert_eq!(p.method, Method::Get);
    assert_eq!(p.url, "https://api.mod.io/v1/games/5/mods?api_key=KEY");
    assert!(p.bearer.is_none());
    assert!(p.form_content_type);
    assert!(p.body.is_none());
}

#[test]
fn api_key_follows_the_query() {
    let p = RequestBuilder::new(api_key(), Route::Get(String::from("/games")))
        .query(String::from("a=1"))
        .prepare()
        .ok()
        .unwrap();
    assert_eq!(p.url, "https://api.mod.io/v1/games?a=1&api_key=KEY");
}

#[test]
fn token_goes_as_bearer() {
    let p = RequestBuilder::new(token(), Route::Get(String::from("/me"))).prepare().ok().unwrap();
    assert_eq!(p.url, "https://api.mod.io/v1/me");
    assert_eq!(p.bearer.as_deref(), Some("TOK"));
}

#[test]
fn empty_query_leaves_no_question_mark() {
    let p = RequestBuilder::new(token(), Route::Get(String::from("/me")))
        .query(String::new())
        .prepare()
        .ok()
        .unwrap();
    assert_eq!(p.url, "https://api.mod.io/v1/me");
}

#[test]
fn bad_host_is_a_builder_error() {
    let m = Modio::new(String::from("not a url"), Credentials::Token(String::from("t"), None));
    match RequestBuilder::new(m, Route::Get(String::from("/x"))).prepare() {
        Err(e) => assert!(matches!(e.kind(), ErrorKind::Builder)),
        Ok(_) => panic!("expected a builder error"),
    }
}

#[test]
fn multipart_body_has_no_form_content_type() {
    let p = RequestBuilder::new(token(), Route::Post(String::from("/x")))
        .body(Body::Multipart(Form::new()))
        .prepare()
        .ok()
        .unwrap();
    assert!(!p.form_content_type);
    let p = RequestBuilder::new(token(), Route::Post(String::from("/x")))
        .body(Body::Form(String::from("a=b")))
        .prepare()
        .ok()
        .unwrap();
    assert!(p.form_content_type);
    assert!(matches!(p.body, Some(Body::Form(ref s)) if s == "a=b"));
}

#[test]
fn success_decodes_body() {
    assert_eq!(RequestBuilder::response_step(200, None, None), ResponseStep::DecodeBody);
    assert_eq!(RequestBuilder::response_step(204, Some("0"), Some("60")), ResponseStep::DecodeBody);
    assert_eq!(RequestBuilder::response_step(299, None, None), ResponseStep::DecodeBody);
}

#[test]
fn rate_limit_needs_zero_remaining_and_reset() {
    assert_eq!(RequestBuilder::response_step(429, Some("0"), Some("60")), ResponseStep::RateLimited { reset: 60 });
    assert_eq!(RequestBuilder::response_step(429, Some("1"), Some("60")), ResponseStep::DecodeErrorBody);
    assert_eq!(RequestBuilder::response_step(429, Some("0"), None), ResponseStep::DecodeErrorBody);
    assert_eq!(RequestBuilder::response_step(429, None, Some("60")), ResponseStep::DecodeErrorBody);
    assert_eq!(RequestBuilder::response_step(429, Some("0"), Some("soon")), ResponseStep::DecodeErrorBody);
    assert_eq!(RequestBuilder::response_step(300, None, None), ResponseStep::DecodeErrorBody);
    assert_eq!(RequestBuilder::response_step(199, None, None), ResponseStep::DecodeErrorBody);
}

#[test]
fn delete_accepts_undecodable_body() {
    assert!(RequestBuilder::delete_outcome(Ok(())).is_ok());
    assert!(RequestBuilder::delete_outcome(Err(error::decode())).is_ok());
    match RequestBuilder::delete_outcome(Err(error::ratelimit(5))) {
        Err(e) => assert!(matches!(e.kind(), ErrorKind::RateLimit { reset: 5 })),
        Ok(()) => panic!("expected the error"),
    }
    match RequestBuilder::delete_outcome(Err(error::error_for_status(404, String::from("gone")))) {
        Err(e) => assert!(matches!(e.kind(), ErrorKind::Fault { code: 404, .. })),
        Ok(()) => panic!("expected the error"),
    }
}

#[test]
fn request_accessors() {
    let r = RequestBuilder::new(api_key(), Route::Get(String::from("/p"))).query(String::from("q=1"));
    assert_eq!(r.query_params().as_deref(), Some("q=1"));
    assert!(r.request_body().is_none());
    assert_eq!(r.client().host(), "https://api.mod.io/v1");
}

#[test]
fn error_constructors() {
    assert!(matches!(error::apikey_required().kind(), ErrorKind::Auth(auth::Error::ApiKeyRequired)));
    assert!(matches!(error::token_required().kind(), ErrorKind::Auth(auth::Error::TokenRequired)));
    assert!(matches!(error::builder().kind(), ErrorKind::Builder));
    assert!(matches!(error::request().kind(), ErrorKind::Request));
    match error::error_for_status(403, String::from("no")).into_kind() {
        ErrorKind::Fault { code, message } => {
            assert_eq!(code, 403);
            assert_eq!(message, "no");
        },
        _ => panic!("expected a fault"),
    }
}

#[test]
fn url_is_normalised_by_parsing() {
    let m = Modio::new(String::from("HTTPS://API.Mod.io:443/v1"), Credentials::Token(String::from("t"), None));
    let p = RequestBuilder::new(m, Route::Get(String::from("/a/../b"))).prepare().ok().unwrap();
    assert_eq!(p.url, "https://api.mod.io/v1/b");
}
