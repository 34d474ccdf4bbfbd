//! Mods: the interfaces of a game's mods and of one mod, and the options of
//! the requests that create and change them.

use vstd::prelude::*;
use crate::auth::str_pair;
use crate::client::{Modio, ModioView};
use crate::error::{Error, ErrorKind, ErrorKindView};
use crate::filter::{EventListOptions, ModsListOptions, StatsListOptions};
use crate::request::{Body, BodyView, RequestBuilder, RequestView, Route, RouteView};
use crate::stream::{Stream, StreamView};
use crate::encoding::{decimal, decimal_string, form_urlencode, form_urlencoded};
use crate::form::{
    after_last_slash, file_source, has_no_file_name, has_plain_file_name, mime_application_octet_stream, mime_image_star, FileSource,
    FileSourceView, Form, PartView,
};

verus! {

/// `/games/{game}/mods`.
pub open spec fn mods_root(game: u32) -> Seq<char> {
    "/games/"@ + decimal(game as nat) + "/mods"@
}

/// `/games/{game}/mods/{id}`.
pub open spec fn mod_root(game: u32, id: u32) -> Seq<char> {
    "/games/"@ + decimal(game as nat) + "/mods/"@ + decimal(id as nat)
}

/// The path, and the query after a `?` where the query is not empty.
pub open spec fn with_query(path: Seq<char>, query: Seq<char>) -> Seq<char> {
    if query.len() == 0 {
        path
    } else {
        path + "?"@ + query
    }
}

/// A request to `route` with the given body and no query.
pub open spec fn request_to(modio: ModioView, route: RouteView, body: Option<BodyView>) -> RequestView {
    RequestView { modio, route, query: None, body }
}

fn join_query(path: String, query: String) -> (r: String)
    ensures
        r@ == with_query(path@, query@),
{
    if query.as_str().is_empty() {
        path
    } else {
        let mut r = path;
        r.append("?");
        r.append(query.as_str());
        r
    }
}

/// Interface for mods the authenticated user added or is team member of.
pub struct MyMods {
    modio: Modio,
}

impl View for MyMods {
    type V = ModioView;

    closed spec fn view(&self) -> ModioView {
        self.modio@
    }
}

impl MyMods {
    pub fn new(modio: Modio) -> (r: MyMods)
        ensures
            r@ == modio@,
    {
        MyMods { modio }
    }

    /// List all mods the authenticated user added or is team member of:
    /// a `GET` of `/me/mods` with the options as query.
    pub fn list(&self, options: &ModsListOptions) -> (r: RequestBuilder)
        ensures
            r@ == request_to(self@, RouteView::Get(with_query("/me/mods"@, form_urlencoded(options@))), None),
    {
        let uri = join_query(String::from_str("/me/mods"), options.to_query_params());
        RequestBuilder::new(self.modio.duplicate(), Route::Get(uri))
    }

    /// A stream over all pages of the mods listed by [`MyMods::list`].
    pub fn iter(&self, options: &ModsListOptions) -> (r: Stream)
        ensures
            r@ == (StreamView { modio: self@, path: "/me/mods"@, query: form_urlencoded(options@) }),
    {
        Stream::new(self.modio.duplicate(), String::from_str("/me/mods"), options.to_query_params())
    }
}

/// Interface for mods of a game.
pub struct Mods {
    modio: Modio,
    game: u32,
}

pub struct ModsView {
    pub modio: ModioView,
    pub game: u32,
}

impl View for Mods {
    type V = ModsView;

    closed spec fn view(&self) -> ModsView {
        ModsView { modio: self.modio@, game: self.game }
    }
}

/// A reference to one mod of a game.
pub struct ModRefView {
    pub modio: ModioView,
    pub game: u32,
    pub id: u32,
}

impl Mods {
    pub fn new(modio: Modio, game: u32) -> (r: Mods)
        ensures
            r@ == (ModsView { modio: modio@, game }),
    {
        Mods { modio, game }
    }

    fn path(&self, more: &str) -> (r: String)
        ensures
            r@ == mods_root(self.game) + more@,
    {
        let mut r = String::from_str("/games/");
        let number = decimal_string(self.game as u64);
        r.append(number.as_str());
        r.append("/mods");
        r.append(more);
        r
    }

    fn path_with_query(&self, more: &str, query: String) -> (r: String)
        ensures
            r@ == with_query(mods_root(self.game) + more@, query@),
    {
        join_query(self.path(more), query)
    }

    /// Return a reference to a mod.
    pub fn get(&self, id: u32) -> (r: ModRef)
        ensures
            r@ == (ModRefView { modio: self@.modio, game: self@.game, id }),
    {
        ModRef::new(self.modio.duplicate(), self.game, id)
    }

    /// List all mods: a `GET` of `/games/{game}/mods` with the options as query.
    pub fn list(&self, options: &ModsListOptions) -> (r: RequestBuilder)
        ensures
            r@ == request_to(self@.modio, RouteView::Get(with_query(mods_root(self@.game), form_urlencoded(options@))), None),
    {
        proof {
            reveal_strlit("");
        }
        let uri = self.path_with_query("", options.to_query_params());
        assert(mods_root(self.game) + ""@ =~= mods_root(self.game));
        RequestBuilder::new(self.modio.duplicate(), Route::Get(uri))
    }

    /// A stream over all pages of the mods listed by [`Mods::list`].
    pub fn iter(&self, options: &ModsListOptions) -> (r: Stream)
        ensures
            r@ == (StreamView { modio: self@.modio, path: mods_root(self@.game), query: form_urlencoded(options@) }),
    {
        proof {
            reveal_strlit("");
        }
        let path = self.path("");
        assert(mods_root(self.game) + ""@ =~= mods_root(self.game));
        Stream::new(self.modio.duplicate(), path, options.to_query_params())
    }

    /// Add a mod: a `POST` of the options as a multipart form.
    pub fn add(&self, options: AddModOptions) -> (r: RequestBuilder)
        ensures
            r@ == request_to(self@.modio, RouteView::Post(mods_root(self@.game)), Some(BodyView::Multipart(options@.form()))),
    {
        proof {
            reveal_strlit("");
        }
        let path = self.path("");
        assert(mods_root(self.game) + ""@ =~= mods_root(self.game));
        RequestBuilder::new(self.modio.duplicate(), Route::Post(path)).body(Body::Multipart(options.into_form()))
    }

    /// A stream over the statistics of all mods of the game: the listing
    /// `/games/{game}/mods/stats` with the options as query.
    pub fn statistics(&self, options: &StatsListOptions) -> (r: Stream)
        ensures
            r@ == (StreamView { modio: self@.modio, path: mods_root(self@.game) + "/stats"@, query: form_urlencoded(options@) }),
    {
        Stream::new(self.modio.duplicate(), self.path("/stats"), options.to_query_params())
    }

    /// A stream over the event log of all mods of the game, latest first:
    /// the listing `/games/{game}/mods/events` with the options as query.
    pub fn events(&self, options: &EventListOptions) -> (r: Stream)
        ensures
            r@ == (StreamView { modio: self@.modio, path: mods_root(self@.game) + "/events"@, query: form_urlencoded(options@) }),
    {
        Stream::new(self.modio.duplicate(), self.path("/events"), options.to_query_params())
    }
}

/// Reference interface of a mod.
pub struct ModRef {
    modio: Modio,
    game: u32,
    id: u32,
}

impl View for ModRef {
    type V = ModRefView;

    closed spec fn view(&self) -> ModRefView {
        ModRefView { modio: self.modio@, game: self.game, id: self.id }
    }
}

/// A positive or negative rating of a mod.
#[derive(PartialEq, Eq, Structural, Clone, Copy, Debug)]
pub enum Rating {
    Positive,
    Negative,
}

impl Rating {
    pub open spec fn spec_query(self) -> Seq<char> {
        match self {
            Rating::Positive => "rating=1"@,
            Rating::Negative => "rating=-1"@,
        }
    }

    /// `rating=1` or `rating=-1`.
    pub fn to_query_params(&self) -> (r: String)
        ensures
            r@ == self.spec_query(),
    {
        match self {
            Rating::Positive => String::from_str("rating=1"),
            Rating::Negative => String::from_str("rating=-1"),
        }
    }
}

/// Reference to the files of a mod.
pub struct Files {
    modio: Modio,
    game: u32,
    mod_id: u32,
}

/// Reference to one file of a mod.
pub struct FileRef {
    modio: Modio,
    game: u32,
    mod_id: u32,
    id: u32,
}

/// Reference to the metadata key/value pairs of a mod.
pub struct Metadata {
    modio: Modio,
    game: u32,
    mod_id: u32,
}

/// Reference to the comments of a mod.
pub struct Comments {
    modio: Modio,
    game: u32,
    mod_id: u32,
}

/// Reference to the team members of a mod.
pub struct Members {
    modio: Modio,
    game: u32,
    mod_id: u32,
}

/// A list endpoint of the API at a path.
pub struct Endpoint {
    modio: Modio,
    path: String,
}

impl View for Files {
    type V = ModRefView;

    closed spec fn view(&self) -> ModRefView {
        ModRefView { modio: self.modio@, game: self.game, id: self.mod_id }
    }
}

impl View for Metadata {
    type V = ModRefView;

    closed spec fn view(&self) -> ModRefView {
        ModRefView { modio: self.modio@, game: self.game, id: self.mod_id }
    }
}

impl View for Comments {
    type V = ModRefView;

    closed spec fn view(&self) -> ModRefView {
        ModRefView { modio: self.modio@, game: self.game, id: self.mod_id }
    }
}

impl View for Members {
    type V = ModRefView;

    closed spec fn view(&self) -> ModRefView {
        ModRefView { modio: self.modio@, game: self.game, id: self.mod_id }
    }
}

impl View for FileRef {
    type V = (ModRefView, u32);

    closed spec fn view(&self) -> (ModRefView, u32) {
        (ModRefView { modio: self.modio@, game: self.game, id: self.mod_id }, self.id)
    }
}

impl View for Endpoint {
    type V = (ModioView, Seq<char>);

    closed spec fn view(&self) -> (ModioView, Seq<char>) {
        (self.modio@, self.path@)
    }
}

impl Files {
    pub fn new(modio: Modio, game: u32, mod_id: u32) -> (r: Files)
        ensures
            r@ == (ModRefView { modio: modio@, game, id: mod_id }),
    {
        Files { modio, game, mod_id }
    }
}

impl FileRef {
    pub fn new(modio: Modio, game: u32, mod_id: u32, id: u32) -> (r: FileRef)
        ensures
            r@ == (ModRefView { modio: modio@, game, id: mod_id }, id),
    {
        FileRef { modio, game, mod_id, id }
    }
}

impl Metadata {
    pub fn new(modio: Modio, game: u32, mod_id: u32) -> (r: Metadata)
        ensures
            r@ == (ModRefView { modio: modio@, game, id: mod_id }),
    {
        Metadata { modio, game, mod_id }
    }
}

impl Comments {
    pub fn new(modio: Modio, game: u32, mod_id: u32) -> (r: Comments)
        ensures
            r@ == (ModRefView { modio: modio@, game, id: mod_id }),
    {
        Comments { modio, game, mod_id }
    }
}

impl Members {
    pub fn new(modio: Modio, game: u32, mod_id: u32) -> (r: Members)
        ensures
            r@ == (ModRefView { modio: modio@, game, id: mod_id }),
    {
        Members { modio, game, mod_id }
    }
}

impl Endpoint {
    pub fn new(modio: Modio, path: String) -> (r: Endpoint)
        ensures
            r@ == (modio@, path@),
    {
        Endpoint { modio, path }
    }

    /// The path of the endpoint.
    pub fn path(&self) -> (r: &String)
        ensures
            r@ == self@.1,
    {
        &self.path
    }
}

impl ModRef {
    pub fn new(modio: Modio, game: u32, id: u32) -> (r: ModRef)
        ensures
            r@ == (ModRefView { modio: modio@, game, id }),
    {
        ModRef { modio, game, id }
    }

    fn path(&self, more: &str) -> (r: String)
        ensures
            r@ == mod_root(self.game, self.id) + more@,
    {
        let mut r = String::from_str("/games/");
        let game = decimal_string(self.game as u64);
        r.append(game.as_str());
        r.append("/mods/");
        let id = decimal_string(self.id as u64);
        r.append(id.as_str());
        r.append(more);
        r
    }

    fn root(&self) -> (r: String)
        ensures
            r@ == mod_root(self.game, self.id),
    {
        proof {
            reveal_strlit("");
        }
        let r = self.path("");
        assert(mod_root(self.game, self.id) + ""@ =~= mod_root(self.game, self.id));
        r
    }

    /// Get the mod: a `GET` of `/games/{game}/mods/{id}`.
    pub fn get(&self) -> (r: RequestBuilder)
        ensures
            r@ == request_to(self@.modio, RouteView::Get(mod_root(self@.game, self@.id)), None),
    {
        RequestBuilder::new(self.modio.duplicate(), Route::Get(self.root()))
    }

    /// The files of the mod.
    pub fn files(&self) -> (r: Files)
        ensures
            r@ == self@,
    {
        Files::new(self.modio.duplicate(), self.game, self.id)
    }

    /// A file of the mod.
    pub fn file(&self, id: u32) -> (r: FileRef)
        ensures
            r@ == (self@, id),
    {
        FileRef::new(self.modio.duplicate(), self.game, self.id, id)
    }

    /// The metadata key/value pairs of the mod.
    pub fn metadata(&self) -> (r: Metadata)
        ensures
            r@ == self@,
    {
        Metadata::new(self.modio.duplicate(), self.game, self.id)
    }

    /// The tags of the mod: the endpoint `/games/{game}/mods/{id}/tags`.
    pub fn tags(&self) -> (r: Endpoint)
        ensures
            r@ == (self@.modio, mod_root(self@.game, self@.id) + "/tags"@),
    {
        Endpoint::new(self.modio.duplicate(), self.path("/tags"))
    }

    /// The comments of the mod.
    pub fn comments(&self) -> (r: Comments)
        ensures
            r@ == self@,
    {
        Comments::new(self.modio.duplicate(), self.game, self.id)
    }

    /// The dependencies of the mod: the endpoint
    /// `/games/{game}/mods/{id}/dependencies`.
    pub fn dependencies(&self) -> (r: Endpoint)
        ensures
            r@ == (self@.modio, mod_root(self@.game, self@.id) + "/dependencies"@),
    {
        Endpoint::new(self.modio.duplicate(), self.path("/dependencies"))
    }

    /// The statistics of the mod: a `GET` of `/games/{game}/mods/{id}/stats`.
    pub fn statistics(&self) -> (r: RequestBuilder)
        ensures
            r@ == request_to(self@.modio, RouteView::Get(mod_root(self@.game, self@.id) + "/stats"@), None),
    {
        RequestBuilder::new(self.modio.duplicate(), Route::Get(self.path("/stats")))
    }

    /// A stream over the event log of the mod, latest first: the listing
    /// `/games/{game}/mods/{id}/events` with the options as query.
    pub fn events(&self, options: &EventListOptions) -> (r: Stream)
        ensures
            r@ == (StreamView { modio: self@.modio, path: mod_root(self@.game, self@.id) + "/events"@, query: form_urlencoded(options@) }),
    {
        Stream::new(self.modio.duplicate(), self.path("/events"), options.to_query_params())
    }

    /// The team members of the mod.
    pub fn members(&self) -> (r: Members)
        ensures
            r@ == self@,
    {
        Members::new(self.modio.duplicate(), self.game, self.id)
    }

    /// Edit the mod: a `PUT` of the set fields as a form.
    pub fn edit(&self, options: &EditModOptions) -> (r: RequestBuilder)
        ensures
            r@ == request_to(self@.modio, RouteView::Put(mod_root(self@.game, self@.id)), Some(BodyView::Form(form_urlencoded(options@.params())))),
    {
        let params = options.to_query_params();
        RequestBuilder::new(self.modio.duplicate(), Route::Put(self.root())).body(Body::Form(params))
    }

    /// Add media to the mod: a `POST` to `/media` of the media as a
    /// multipart form.
    pub fn add_media(&self, options: AddMediaOptions) -> (r: RequestBuilder)
        ensures
            r@ == request_to(self@.modio, RouteView::Post(mod_root(self@.game, self@.id) + "/media"@), Some(BodyView::Multipart(options@.form()))),
    {
        RequestBuilder::new(self.modio.duplicate(), Route::Post(self.path("/media"))).body(Body::Multipart(options.into_form()))
    }

    /// Delete media of the mod: a `DELETE` of `/media` with the media as a form.
    pub fn delete_media(&self, options: &DeleteMediaOptions) -> (r: RequestBuilder)
        ensures
            r@ == request_to(self@.modio, RouteView::Delete(mod_root(self@.game, self@.id) + "/media"@), Some(BodyView::Form(form_urlencoded(options@.params())))),
    {
        RequestBuilder::new(self.modio.duplicate(), Route::Delete(self.path("/media"))).body(Body::Form(options.to_query_params()))
    }

    /// Rate the mod: a `POST` of the rating to `/ratings`. A `400 Bad
    /// Request` answer counts as success, see [`ModRef::accept_bad_request`].
    pub fn rate(&self, rating: Rating) -> (r: RequestBuilder)
        ensures
            r@ == request_to(self@.modio, RouteView::Post(mod_root(self@.game, self@.id) + "/ratings"@), Some(BodyView::Form(rating.spec_query()))),
    {
        RequestBuilder::new(self.modio.duplicate(), Route::Post(self.path("/ratings"))).body(Body::Form(rating.to_query_params()))
    }

    /// Subscribe the authenticated user to the mod: a `POST` to
    /// `/subscribe` with no body. A `400 Bad Request` answer counts as success.
    pub fn subscribe(&self) -> (r: RequestBuilder)
        ensures
            r@ == request_to(self@.modio, RouteView::Post(mod_root(self@.game, self@.id) + "/subscribe"@), None),
    {
        RequestBuilder::new(self.modio.duplicate(), Route::Post(self.path("/subscribe")))
    }

    /// Unsubscribe the authenticated user from the mod: a `DELETE` of
    /// `/subscribe` with no body. A `400 Bad Request` answer counts as success.
    pub fn unsubscribe(&self) -> (r: RequestBuilder)
        ensures
            r@ == request_to(self@.modio, RouteView::Delete(mod_root(self@.game, self@.id) + "/subscribe"@), None),
    {
        RequestBuilder::new(self.modio.duplicate(), Route::Delete(self.path("/subscribe")))
    }

    /// The outcome of a rating or a (un)subscription: an API error with
    /// status `400 Bad Request` counts as success; any other result stays
    /// as it is.
    pub fn accept_bad_request(r: Result<(), Error>) -> (o: Result<(), Error>)
        ensures
            match r {
                Ok(()) => o is Ok,
                Err(e) => if e@ matches ErrorKindView::Fault { code, .. } && code == 400 {
                    o is Ok
                } else {
                    o matches Err(e2) && e2@ == e@
                },
            },
    {
        match r {
            Ok(()) => Ok(()),
            Err(e) => {
                let bad_request = match e.kind() {
                    ErrorKind::Fault { code, .. } => *code == 400,
                    _ => false,
                };
                if bad_request {
                    Ok(())
                } else {
                    Err(e)
                }
            },
        }
    }
}

/// Options used to edit a mod; only the fields that are set are sent.
#[derive(Debug)]
pub struct EditModOptions {
    status: Option<u32>,
    visible: Option<u32>,
    name: Option<String>,
    name_id: Option<String>,
    summary: Option<String>,
    description: Option<String>,
    homepage_url: Option<String>,
    stock: Option<u32>,
    maturity_option: Option<u8>,
    metadata_blob: Option<String>,
}

pub struct EditModOptionsView {
    pub status: Option<u32>,
    pub visible: Option<u32>,
    pub name: Option<Seq<char>>,
    pub name_id: Option<Seq<char>>,
    pub summary: Option<Seq<char>>,
    pub description: Option<Seq<char>>,
    pub homepage_url: Option<Seq<char>>,
    pub stock: Option<u32>,
    pub maturity_option: Option<u8>,
    pub metadata_blob: Option<Seq<char>>,
}

impl View for EditModOptions {
    type V = EditModOptionsView;

    closed spec fn view(&self) -> EditModOptionsView {
        EditModOptionsView {
            status: self.status,
            visible: self.visible,
            name: self.name.deep_view(),
            name_id: self.name_id.deep_view(),
            summary: self.summary.deep_view(),
            description: self.description.deep_view(),
            homepage_url: self.homepage_url.deep_view(),
            stock: self.stock,
            maturity_option: self.maturity_option,
            metadata_blob: self.metadata_blob.deep_view(),
        }
    }
}

/// The pair `name=value` where a text value is set, none where it is not.
pub open spec fn opt_pair(name: Seq<char>, value: Option<Seq<char>>) -> Seq<(Seq<char>, Seq<char>)> {
    match value {
        Some(v) => seq![(name, v)],
        None => Seq::empty(),
    }
}

/// The pair `name=value`, the value in decimal, where a number is set.
pub open spec fn opt_num_pair(name: Seq<char>, value: Option<u64>) -> Seq<(Seq<char>, Seq<char>)> {
    match value {
        Some(v) => seq![(name, decimal(v as nat))],
        None => Seq::empty(),
    }
}

pub open spec fn widen32(v: Option<u32>) -> Option<u64> {
    match v {
        Some(x) => Some(x as u64),
        None => None,
    }
}

pub open spec fn widen8(v: Option<u8>) -> Option<u64> {
    match v {
        Some(x) => Some(x as u64),
        None => None,
    }
}

impl EditModOptionsView {
    /// The parameters sent, in this order: status, visible, name, name_id,
    /// summary, description, homepage_url, stock, maturity_option,
    /// metadata_blob.
    pub open spec fn params(self) -> Seq<(Seq<char>, Seq<char>)> {
        opt_num_pair("status"@, widen32(self.status))
            + opt_num_pair("visible"@, widen32(self.visible))
            + opt_pair("name"@, self.name)
            + opt_pair("name_id"@, self.name_id)
            + opt_pair("summary"@, self.summary)
            + opt_pair("description"@, self.description)
            + opt_pair("homepage_url"@, self.homepage_url)
            + opt_num_pair("stock"@, widen32(self.stock))
            + opt_num_pair("maturity_option"@, widen8(self.maturity_option))
            + opt_pair("metadata_blob"@, self.metadata_blob)
    }

    /// No field set.
    pub open spec fn empty() -> EditModOptionsView {
        EditModOptionsView {
            status: None,
            visible: None,
            name: None,
            name_id: None,
            summary: None,
            description: None,
            homepage_url: None,
            stock: None,
            maturity_option: None,
            metadata_blob: None,
        }
    }
}

fn push_opt(pairs: &mut Vec<(String, String)>, name: &str, value: &Option<String>)
    ensures
        final(pairs).deep_view() == old(pairs).deep_view() + opt_pair(name@, value.deep_view()),
{
    match value {
        Some(v) => {
            let ghost before = pairs.deep_view();
            pairs.push(str_pair(name, v.as_str()));
            assert(pairs.deep_view() =~= before + opt_pair(name@, value.deep_view()));
        },
        None => {
            assert(pairs.deep_view() =~= old(pairs).deep_view() + opt_pair(name@, value.deep_view()));
        },
    }
}

fn push_opt_num(pairs: &mut Vec<(String, String)>, name: &str, value: Option<u64>)
    ensures
        final(pairs).deep_view() == old(pairs).deep_view() + opt_num_pair(name@, value),
{
    match value {
        Some(v) => {
            let ghost before = pairs.deep_view();
            let text = decimal_string(v);
            pairs.push((String::from_str(name), text));
            assert(pairs.deep_view() =~= before + opt_num_pair(name@, value));
        },
        None => {
            assert(pairs.deep_view() =~= old(pairs).deep_view() + opt_num_pair(name@, value));
        },
    }
}

fn widen32_exec(v: Option<u32>) -> (r: Option<u64>)
    ensures
        r == widen32(v),
{
    match v {
        Some(x) => Some(x as u64),
        None => None,
    }
}

fn widen8_exec(v: Option<u8>) -> (r: Option<u64>)
    ensures
        r == widen8(v),
{
    match v {
        Some(x) => Some(x as u64),
        None => None,
    }
}

fn clone_opt(v: &Option<String>) -> (r: Option<String>)
    ensures
        r.deep_view() == v.deep_view(),
{
    match v {
        Some(s) => Some(s.clone()),
        None => None,
    }
}

impl EditModOptions {
    pub fn builder() -> (r: EditModOptionsBuilder)
        ensures
            r@ == EditModOptionsView::empty(),
    {
        EditModOptionsBuilder::new()
    }

    /// The fields that are set, as a form.
    pub fn to_query_params(&self) -> (r: String)
        ensures
            r@ == form_urlencoded(self@.params()),
    {
        let mut pairs: Vec<(String, String)> = Vec::new();
        push_opt_num(&mut pairs, "status", widen32_exec(self.status));
        push_opt_num(&mut pairs, "visible", widen32_exec(self.visible));
        push_opt(&mut pairs, "name", &self.name);
        push_opt(&mut pairs, "name_id", &self.name_id);
        push_opt(&mut pairs, "summary", &self.summary);
        push_opt(&mut pairs, "description", &self.description);
        push_opt(&mut pairs, "homepage_url", &self.homepage_url);
        push_opt_num(&mut pairs, "stock", widen32_exec(self.stock));
        push_opt_num(&mut pairs, "maturity_option", widen8_exec(self.maturity_option));
        push_opt(&mut pairs, "metadata_blob", &self.metadata_blob);
        assert(pairs.deep_view() =~= self@.params());
        form_urlencode(&pairs)
    }
}

/// Builder of [`EditModOptions`].
pub struct EditModOptionsBuilder(EditModOptions);

impl Default for EditModOptions {
    fn default() -> (r: EditModOptions)
        ensures
            r@ == EditModOptionsView::empty(),
    {
        EditModOptions::builder().build()
    }
}

impl Default for EditModOptionsBuilder {
    fn default() -> (r: EditModOptionsBuilder)
        ensures
            r@ == EditModOptionsView::empty(),
    {
        EditModOptionsBuilder::new()
    }
}

impl View for EditModOptionsBuilder {
    type V = EditModOptionsView;

    closed spec fn view(&self) -> EditModOptionsView {
        self.0@
    }
}

impl EditModOptionsBuilder {
    pub fn new() -> (r: EditModOptionsBuilder)
        ensures
            r@ == EditModOptionsView::empty(),
    {
        EditModOptionsBuilder(EditModOptions {
            status: None,
            visible: None,
            name: None,
            name_id: None,
            summary: None,
            description: None,
            homepage_url: None,
            stock: None,
            maturity_option: None,
            metadata_blob: None,
        })
    }

    pub fn status(&mut self, status: u32) -> (r: &mut Self)
        ensures
            r@ == (EditModOptionsView { status: Some(status), ..old(self)@ }),
            final(self)@ == final(r)@,
    {
        self.0.status = Some(status);
        self
    }

    /// Whether the mod is visible: sent as `1` or `0`.
    pub fn visible(&mut self, visible: bool) -> (r: &mut Self)
        ensures
            r@ == (EditModOptionsView { visible: Some(if visible { 1u32 } else { 0u32 }), ..old(self)@ }),
            final(self)@ == final(r)@,
    {
        self.0.visible = if visible { Some(1) } else { Some(0) };
        self
    }

    pub fn name(&mut self, name: String) -> (r: &mut Self)
        ensures
            r@ == (EditModOptionsView { name: Some(name@), ..old(self)@ }),
            final(self)@ == final(r)@,
    {
        self.0.name = Some(name);
        self
    }

    pub fn name_id(&mut self, name_id: String) -> (r: &mut Self)
        ensures
            r@ == (EditModOptionsView { name_id: Some(name_id@), ..old(self)@ }),
            final(self)@ == final(r)@,
    {
        self.0.name_id = Some(name_id);
        self
    }

    pub fn summary(&mut self, summary: String) -> (r: &mut Self)
        ensures
            r@ == (EditModOptionsView { summary: Some(summary@), ..old(self)@ }),
            final(self)@ == final(r)@,
    {
        self.0.summary = Some(summary);
        self
    }

    pub fn description(&mut self, description: String) -> (r: &mut Self)
        ensures
            r@ == (EditModOptionsView { description: Some(description@), ..old(self)@ }),
            final(self)@ == final(r)@,
    {
        self.0.description = Some(description);
        self
    }

    /// The homepage, given as the serialization of a parsed URL.
    pub fn homepage_url(&mut self, url: String) -> (r: &mut Self)
        ensures
            r@ == (EditModOptionsView { homepage_url: Some(url@), ..old(self)@ }),
            final(self)@ == final(r)@,
    {
        self.0.homepage_url = Some(url);
        self
    }

    pub fn stock(&mut self, stock: u32) -> (r: &mut Self)
        ensures
            r@ == (EditModOptionsView { stock: Some(stock), ..old(self)@ }),
            final(self)@ == final(r)@,
    {
        self.0.stock = Some(stock);
        self
    }

    pub fn maturity_option(&mut self, options: u8) -> (r: &mut Self)
        ensures
            r@ == (EditModOptionsView { maturity_option: Some(options), ..old(self)@ }),
            final(self)@ == final(r)@,
    {
        self.0.maturity_option = Some(options);
        self
    }

    pub fn metadata_blob(&mut self, blob: String) -> (r: &mut Self)
        ensures
            r@ == (EditModOptionsView { metadata_blob: Some(blob@), ..old(self)@ }),
            final(self)@ == final(r)@,
    {
        self.0.metadata_blob = Some(blob);
        self
    }

    pub fn build(&self) -> (r: EditModOptions)
        ensures
            r@ == self@,
    {
        EditModOptions {
            status: self.0.status,
            visible: self.0.visible,
            name: clone_opt(&self.0.name),
            name_id: clone_opt(&self.0.name_id),
            summary: clone_opt(&self.0.summary),
            description: clone_opt(&self.0.description),
            homepage_url: clone_opt(&self.0.homepage_url),
            stock: self.0.stock,
            maturity_option: self.0.maturity_option,
            metadata_blob: clone_opt(&self.0.metadata_blob),
        }
    }
}

/// The pairs `name=v` for each value `v`, in order.
pub open spec fn list_pairs(name: Seq<char>, values: Seq<Seq<char>>) -> Seq<(Seq<char>, Seq<char>)> {
    values.map_values(|v: Seq<char>| (name, v))
}

/// The same where the list is set, none where it is not.
pub open spec fn opt_list_pairs(name: Seq<char>, values: Option<Seq<Seq<char>>>) -> Seq<(Seq<char>, Seq<char>)> {
    match values {
        Some(v) => list_pairs(name, v),
        None => Seq::empty(),
    }
}

fn push_list(pairs: &mut Vec<(String, String)>, name: &str, values: &Vec<String>)
    ensures
        final(pairs).deep_view() == old(pairs).deep_view() + list_pairs(name@, values.deep_view()),
{
    let ghost before = pairs.deep_view();
    let mut i: usize = 0;
    while i < values.len()
        invariant
            0 <= i <= values.len(),
            pairs.deep_view() =~= before + list_pairs(name@, values.deep_view().take(i as int)),
        decreases values.len() - i,
    {
        let ghost prev = pairs.deep_view();
        pairs.push(str_pair(name, values[i].as_str()));
        assert(values.deep_view().take(i + 1) =~= values.deep_view().take(i as int).push(values[i as int]@));
        assert(pairs.deep_view() =~= prev.push((name@, values[i as int]@)));
        i = i + 1;
    }
    assert(values.deep_view().take(i as int) =~= values.deep_view());
}

fn push_opt_list(pairs: &mut Vec<(String, String)>, name: &str, values: &Option<Vec<String>>)
    ensures
        final(pairs).deep_view() == old(pairs).deep_view() + opt_list_pairs(name@, values.deep_view()),
{
    match values {
        Some(v) => push_list(pairs, name, v),
        None => {
            assert(pairs.deep_view() =~= old(pairs).deep_view() + opt_list_pairs(name@, values.deep_view()));
        },
    }
}

/// A copy of a list of texts.
pub fn strings_to_vec(values: &[String]) -> (r: Vec<String>)
    ensures
        r.deep_view() == values.deep_view(),
{
    let mut r: Vec<String> = Vec::new();
    let mut i: usize = 0;
    while i < values.len()
        invariant
            0 <= i <= values.len(),
            r.deep_view() =~= values.deep_view().take(i as int),
        decreases values.len() - i,
    {
        r.push(values[i].clone());
        assert(values.deep_view().take(i + 1) =~= values.deep_view().take(i as int).push(values[i as int]@));
        i = i + 1;
    }
    assert(values.deep_view().take(i as int) =~= values.deep_view());
    r
}

fn clone_opt_list(v: &Option<Vec<String>>) -> (r: Option<Vec<String>>)
    ensures
        r.deep_view() == v.deep_view(),
{
    match v {
        Some(list) => Some(strings_to_vec(list.as_slice())),
        None => None,
    }
}

/// Options that an endpoint's add request takes.
pub trait AddOptions {}

/// Options that an endpoint's delete request takes.
pub trait DeleteOptions {}

impl AddOptions for EditDepencenciesOptions {}

impl DeleteOptions for EditDepencenciesOptions {}

impl AddOptions for EditTagsOptions {}

impl DeleteOptions for EditTagsOptions {}

/// The mods a mod depends on, to add or to remove.
pub struct EditDepencenciesOptions {
    dependencies: Vec<u32>,
}

impl View for EditDepencenciesOptions {
    type V = Seq<u32>;

    closed spec fn view(&self) -> Seq<u32> {
        self.dependencies@
    }
}

/// The pairs `dependencies[]=id`, each id in decimal, in order.
pub open spec fn dependency_pairs(ids: Seq<u32>) -> Seq<(Seq<char>, Seq<char>)> {
    ids.map_values(|d: u32| ("dependencies[]"@, decimal(d as nat)))
}

impl EditDepencenciesOptions {
    pub fn new(dependencies: &[u32]) -> (r: EditDepencenciesOptions)
        ensures
            r@ == dependencies@,
    {
        EditDepencenciesOptions { dependencies: vstd::slice::slice_to_vec(dependencies) }
    }

    pub fn one(dependency: u32) -> (r: EditDepencenciesOptions)
        ensures
            r@ == seq![dependency],
    {
        let mut dependencies: Vec<u32> = Vec::new();
        dependencies.push(dependency);
        let r = EditDepencenciesOptions { dependencies };
        assert(r@ =~= seq![dependency]);
        r
    }

    pub fn to_query_params(&self) -> (r: String)
        ensures
            r@ == form_urlencoded(dependency_pairs(self@)),
    {
        let mut pairs: Vec<(String, String)> = Vec::new();
        let mut i: usize = 0;
        while i < self.dependencies.len()
            invariant
                0 <= i <= self.dependencies.len(),
                pairs.deep_view() =~= dependency_pairs(self.dependencies@.take(i as int)),
            decreases self.dependencies.len() - i,
        {
            let ghost prev = pairs.deep_view();
            let d = self.dependencies[i];
            pairs.push((String::from_str("dependencies[]"), decimal_string(d as u64)));
            assert(self.dependencies@.take(i + 1) =~= self.dependencies@.take(i as int).push(d));
            assert(pairs.deep_view() =~= prev.push(("dependencies[]"@, decimal(d as nat))));
            i = i + 1;
        }
        assert(self.dependencies@.take(i as int) =~= self.dependencies@);
        form_urlencode(&pairs)
    }
}

/// The tags of a mod, to add or to remove.
pub struct EditTagsOptions {
    tags: Vec<String>,
}

impl View for EditTagsOptions {
    type V = Seq<Seq<char>>;

    closed spec fn view(&self) -> Seq<Seq<char>> {
        self.tags.deep_view()
    }
}

impl EditTagsOptions {
    pub fn new(tags: &[String]) -> (r: EditTagsOptions)
        ensures
            r@ == tags.deep_view(),
    {
        EditTagsOptions { tags: strings_to_vec(tags) }
    }

    /// The pairs `tags[]=tag`, in order, as a form.
    pub fn to_query_params(&self) -> (r: String)
        ensures
            r@ == form_urlencoded(list_pairs("tags[]"@, self@)),
    {
        let mut pairs: Vec<(String, String)> = Vec::new();
        push_list(&mut pairs, "tags[]", &self.tags);
        assert(pairs.deep_view() =~= list_pairs("tags[]"@, self@));
        form_urlencode(&pairs)
    }
}

/// Media of a mod to delete: images by file name, YouTube and Sketchfab
/// links.
pub struct DeleteMediaOptions {
    images: Option<Vec<String>>,
    youtube: Option<Vec<String>>,
    sketchfab: Option<Vec<String>>,
}

pub struct DeleteMediaOptionsView {
    pub images: Option<Seq<Seq<char>>>,
    pub youtube: Option<Seq<Seq<char>>>,
    pub sketchfab: Option<Seq<Seq<char>>>,
}

impl View for DeleteMediaOptions {
    type V = DeleteMediaOptionsView;

    closed spec fn view(&self) -> DeleteMediaOptionsView {
        DeleteMediaOptionsView {
            images: self.images.deep_view(),
            youtube: self.youtube.deep_view(),
            sketchfab: self.sketchfab.deep_view(),
        }
    }
}

impl DeleteMediaOptionsView {
    /// `images[]`, then `youtube[]`, then `sketchfab[]` pairs, each list in order.
    pub open spec fn params(self) -> Seq<(Seq<char>, Seq<char>)> {
        opt_list_pairs("images[]"@, self.images)
            + opt_list_pairs("youtube[]"@, self.youtube)
            + opt_list_pairs("sketchfab[]"@, self.sketchfab)
    }

    pub open spec fn empty() -> DeleteMediaOptionsView {
        DeleteMediaOptionsView { images: None, youtube: None, sketchfab: None }
    }
}

impl DeleteMediaOptions {
    pub fn builder() -> (r: DeleteMediaOptionsBuilder)
        ensures
            r@ == DeleteMediaOptionsView::empty(),
    {
        DeleteMediaOptionsBuilder::new()
    }

    pub fn to_query_params(&self) -> (r: String)
        ensures
            r@ == form_urlencoded(self@.params()),
    {
        let mut pairs: Vec<(String, String)> = Vec::new();
        push_opt_list(&mut pairs, "images[]", &self.images);
        push_opt_list(&mut pairs, "youtube[]", &self.youtube);
        push_opt_list(&mut pairs, "sketchfab[]", &self.sketchfab);
        assert(pairs.deep_view() =~= self@.params());
        form_urlencode(&pairs)
    }
}

/// Builder of [`DeleteMediaOptions`].
pub struct DeleteMediaOptionsBuilder(DeleteMediaOptions);

impl Default for DeleteMediaOptions {
    fn default() -> (r: DeleteMediaOptions)
        ensures
            r@ == DeleteMediaOptionsView::empty(),
    {
        DeleteMediaOptions { images: None, youtube: None, sketchfab: None }
    }
}

impl Default for DeleteMediaOptionsBuilder {
    fn default() -> (r: DeleteMediaOptionsBuilder)
        ensures
            r@ == DeleteMediaOptionsView::empty(),
    {
        DeleteMediaOptionsBuilder::new()
    }
}

impl View for DeleteMediaOptionsBuilder {
    type V = DeleteMediaOptionsView;

    closed spec fn view(&self) -> DeleteMediaOptionsView {
        self.0@
    }
}

impl DeleteMediaOptionsBuilder {
    pub fn new() -> (r: DeleteMediaOptionsBuilder)
        ensures
            r@ == DeleteMediaOptionsView::empty(),
    {
        DeleteMediaOptionsBuilder(DeleteMediaOptions { images: None, youtube: None, sketchfab: None })
    }

    pub fn images(&mut self, images: &[String]) -> (r: &mut Self)
        ensures
            r@ == (DeleteMediaOptionsView { images: Some(images.deep_view()), ..old(self)@ }),
            final(self)@ == final(r)@,
    {
        self.0.images = Some(strings_to_vec(images));
        self
    }

    pub fn youtube(&mut self, urls: &[String]) -> (r: &mut Self)
        ensures
            r@ == (DeleteMediaOptionsView { youtube: Some(urls.deep_view()), ..old(self)@ }),
            final(self)@ == final(r)@,
    {
        self.0.youtube = Some(strings_to_vec(urls));
        self
    }

    pub fn sketchfab(&mut self, urls: &[String]) -> (r: &mut Self)
        ensures
            r@ == (DeleteMediaOptionsView { sketchfab: Some(urls.deep_view()), ..old(self)@ }),
            final(self)@ == final(r)@,
    {
        self.0.sketchfab = Some(strings_to_vec(urls));
        self
    }

    pub fn build(&self) -> (r: DeleteMediaOptions)
        ensures
            r@ == self@,
    {
        DeleteMediaOptions {
            images: clone_opt_list(&self.0.images),
            youtube: clone_opt_list(&self.0.youtube),
            sketchfab: clone_opt_list(&self.0.sketchfab),
        }
    }
}

/// A text part.
pub open spec fn text_part(name: Seq<char>, value: Seq<char>) -> (Seq<char>, PartView) {
    (name, PartView::Text(value))
}

pub open spec fn opt_text_parts(name: Seq<char>, value: Option<Seq<char>>) -> Seq<(Seq<char>, PartView)> {
    match value {
        Some(v) => seq![text_part(name, v)],
        None => Seq::empty(),
    }
}

pub open spec fn opt_num_parts(name: Seq<char>, value: Option<u64>) -> Seq<(Seq<char>, PartView)> {
    match value {
        Some(v) => seq![text_part(name, decimal(v as nat))],
        None => Seq::empty(),
    }
}

/// A text part named `name` for each value, in order.
pub open spec fn list_text_parts(name: Seq<char>, values: Option<Seq<Seq<char>>>) -> Seq<(Seq<char>, PartView)> {
    match values {
        Some(v) => v.map_values(|t: Seq<char>| text_part(name, t)),
        None => Seq::empty(),
    }
}

pub open spec fn opt_file_parts(name: Seq<char>, file: Option<FileSourceView>) -> Seq<(Seq<char>, PartView)> {
    match file {
        Some(f) => seq![(name, PartView::File(f))],
        None => Seq::empty(),
    }
}

fn form_opt_text(form: Form, name: &str, value: Option<String>) -> (r: Form)
    ensures
        r@ == form@ + opt_text_parts(name@, value.deep_view()),
{
    match value {
        Some(v) => {
            let ghost vv = v@;
            let r = form.text(String::from_str(name), v);
            assert(r@ =~= form@ + opt_text_parts(name@, Some(vv)));
            r
        },
        None => {
            assert(form@ =~= form@ + opt_text_parts(name@, None));
            form
        },
    }
}

fn form_opt_num(form: Form, name: &str, value: Option<u64>) -> (r: Form)
    ensures
        r@ == form@ + opt_num_parts(name@, value),
{
    match value {
        Some(v) => {
            let r = form.text(String::from_str(name), decimal_string(v));
            assert(r@ =~= form@ + opt_num_parts(name@, value));
            r
        },
        None => {
            assert(form@ =~= form@ + opt_num_parts(name@, value));
            form
        },
    }
}

fn form_opt_file(form: Form, name: &str, file: Option<FileSource>) -> (r: Form)
    ensures
        r@ == form@ + opt_file_parts(name@, match file { Some(f) => Some(f@), None => None }),
{
    match file {
        Some(f) => {
            let ghost fv = f@;
            let r = form.part(String::from_str(name), f);
            assert(r@ =~= form@ + opt_file_parts(name@, Some(fv)));
            r
        },
        None => {
            assert(form@ =~= form@ + opt_file_parts(name@, None));
            form
        },
    }
}

fn form_text_list(form: Form, name: &str, values: Option<Vec<String>>) -> (r: Form)
    ensures
        r@ == form@ + list_text_parts(name@, values.deep_view()),
{
    match values {
        Some(values) => {
            let ghost start = form@;
            let ghost vs = values.deep_view();
            let mut form = form;
            let mut i: usize = 0;
            while i < values.len()
                invariant
                    0 <= i <= values.len(),
                    vs == values.deep_view(),
                    form@ =~= start + vs.take(i as int).map_values(|t: Seq<char>| text_part(name@, t)),
                decreases values.len() - i,
            {
                let ghost prev = form@;
                form = form.text(String::from_str(name), values[i].clone());
                assert(vs.take(i + 1) =~= vs.take(i as int).push(vs[i as int]));
                assert(vs.take(i + 1).map_values(|t: Seq<char>| text_part(name@, t))
                    =~= vs.take(i as int).map_values(|t: Seq<char>| text_part(name@, t)).push(text_part(name@, vs[i as int])));
                i = i + 1;
            }
            assert(vs.take(i as int) =~= vs);
            form
        },
        None => {
            assert(form@ =~= form@ + list_text_parts(name@, None));
            form
        },
    }
}

/// Options used to add a mod: its name, logo and summary, and the optional
/// fields that are set.
pub struct AddModOptions {
    visible: Option<u32>,
    logo: FileSource,
    name: String,
    name_id: Option<String>,
    summary: String,
    description: Option<String>,
    homepage_url: Option<String>,
    stock: Option<u32>,
    maturity_option: Option<u8>,
    metadata_blob: Option<String>,
    tags: Option<Vec<String>>,
}

pub struct AddModOptionsView {
    pub visible: Option<u32>,
    pub logo: FileSourceView,
    pub name: Seq<char>,
    pub name_id: Option<Seq<char>>,
    pub summary: Seq<char>,
    pub description: Option<Seq<char>>,
    pub homepage_url: Option<Seq<char>>,
    pub stock: Option<u32>,
    pub maturity_option: Option<u8>,
    pub metadata_blob: Option<Seq<char>>,
    pub tags: Option<Seq<Seq<char>>>,
}

impl View for AddModOptions {
    type V = AddModOptionsView;

    closed spec fn view(&self) -> AddModOptionsView {
        AddModOptionsView {
            visible: self.visible,
            logo: self.logo@,
            name: self.name@,
            name_id: self.name_id.deep_view(),
            summary: self.summary@,
            description: self.description.deep_view(),
            homepage_url: self.homepage_url.deep_view(),
            stock: self.stock,
            maturity_option: self.maturity_option,
            metadata_blob: self.metadata_blob.deep_view(),
            tags: self.tags.deep_view(),
        }
    }
}

impl AddModOptionsView {
    /// The parts of the form, in this order: name, summary, visible,
    /// name_id, description, homepage_url, stock, maturity_option,
    /// metadata_blob, one `tags[]` part per tag, and the logo file.
    pub open spec fn form(self) -> Seq<(Seq<char>, PartView)> {
        seq![text_part("name"@, self.name), text_part("summary"@, self.summary)]
            + opt_num_parts("visible"@, widen32(self.visible))
            + opt_text_parts("name_id"@, self.name_id)
            + opt_text_parts("description"@, self.description)
            + opt_text_parts("homepage_url"@, self.homepage_url)
            + opt_num_parts("stock"@, widen32(self.stock))
            + opt_num_parts("maturity_option"@, widen8(self.maturity_option))
            + opt_text_parts("metadata_blob"@, self.metadata_blob)
            + list_text_parts("tags[]"@, self.tags)
            + seq![("logo"@, PartView::File(self.logo))]
    }

    /// The options a builder starts from: the given name, logo and summary.
    pub open spec fn initial(name: Seq<char>, logo: FileSourceView, summary: Seq<char>) -> AddModOptionsView {
        AddModOptionsView {
            visible: None,
            logo,
            name,
            name_id: None,
            summary,
            description: None,
            homepage_url: None,
            stock: None,
            maturity_option: None,
            metadata_blob: None,
            tags: None,
        }
    }
}

impl AddModOptions {
    /// A builder for a mod named `name`, with the image at path `logo` as
    /// its logo (sent as `image/*` under the path's file name), and
    /// `summary` as its summary.
    pub fn builder(name: String, logo: &str, summary: String) -> (r: AddModOptionsBuilder)
        ensures
            r@ == AddModOptionsView::initial(name@, r@.logo, summary@),
            r@.logo.path == logo@,
            r@.logo.mime == "image/*"@,
            has_plain_file_name(logo@) ==> r@.logo.filename == after_last_slash(logo@),
            has_no_file_name(logo@) ==> r@.logo.filename == Seq::<char>::empty(),
    {
        let source = file_source(logo, mime_image_star());
        AddModOptionsBuilder::new(name, source, summary)
    }

    /// The options as a `multipart/form-data` form.
    pub fn into_form(self) -> (r: Form)
        ensures
            r@ == self@.form(),
    {
        let ghost v = self@;
        let mut form = Form::new();
        form = form.text(String::from_str("name"), self.name);
        form = form.text(String::from_str("summary"), self.summary);
        assert(form@ =~= seq![text_part("name"@, v.name), text_part("summary"@, v.summary)]);
        form = form_opt_num(form, "visible", widen32_exec(self.visible));
        form = form_opt_text(form, "name_id", self.name_id);
        form = form_opt_text(form, "description", self.description);
        form = form_opt_text(form, "homepage_url", self.homepage_url);
        form = form_opt_num(form, "stock", widen32_exec(self.stock));
        form = form_opt_num(form, "maturity_option", widen8_exec(self.maturity_option));
        form = form_opt_text(form, "metadata_blob", self.metadata_blob);
        form = form_text_list(form, "tags[]", self.tags);
        form = form.part(String::from_str("logo"), self.logo);
        assert(form@ =~= v.form());
        form
    }
}

/// Builder of [`AddModOptions`].
pub struct AddModOptionsBuilder(AddModOptions);

impl View for AddModOptionsBuilder {
    type V = AddModOptionsView;

    closed spec fn view(&self) -> AddModOptionsView {
        self.0@
    }
}

impl AddModOptionsBuilder {
    fn new(name: String, logo: FileSource, summary: String) -> (r: AddModOptionsBuilder)
        ensures
            r@ == AddModOptionsView::initial(name@, logo@, summary@),
    {
        AddModOptionsBuilder(AddModOptions {
            name,
            logo,
            summary,
            visible: None,
            name_id: None,
            description: None,
            homepage_url: None,
            stock: None,
            maturity_option: None,
            metadata_blob: None,
            tags: None,
        })
    }

    /// Whether the mod is visible: sent as `1` or `0`.
    pub fn visible(&mut self, v: bool) -> (r: &mut Self)
        ensures
            r@ == (AddModOptionsView { visible: Some(if v { 1u32 } else { 0u32 }), ..old(self)@ }),
            final(self)@ == final(r)@,
    {
        self.0.visible = if v { Some(1) } else { Some(0) };
        self
    }

    pub fn name_id(&mut self, name_id: String) -> (r: &mut Self)
        ensures
            r@ == (AddModOptionsView { name_id: Some(name_id@), ..old(self)@ }),
            final(self)@ == final(r)@,
    {
        self.0.name_id = Some(name_id);
        self
    }

    pub fn description(&mut self, description: String) -> (r: &mut Self)
        ensures
            r@ == (AddModOptionsView { description: Some(description@), ..old(self)@ }),
            final(self)@ == final(r)@,
    {
        self.0.description = Some(description);
        self
    }

    /// The homepage, given as the serialization of a parsed URL.
    pub fn homepage_url(&mut self, url: String) -> (r: &mut Self)
        ensures
            r@ == (AddModOptionsView { homepage_url: Some(url@), ..old(self)@ }),
            final(self)@ == final(r)@,
    {
        self.0.homepage_url = Some(url);
        self
    }

    pub fn stock(&mut self, stock: u32) -> (r: &mut Self)
        ensures
            r@ == (AddModOptionsView { stock: Some(stock), ..old(self)@ }),
            final(self)@ == final(r)@,
    {
        self.0.stock = Some(stock);
        self
    }

    pub fn maturity_option(&mut self, options: u8) -> (r: &mut Self)
        ensures
            r@ == (AddModOptionsView { maturity_option: Some(options), ..old(self)@ }),
            final(self)@ == final(r)@,
    {
        self.0.maturity_option = Some(options);
        self
    }

    pub fn metadata_blob(&mut self, metadata_blob: String) -> (r: &mut Self)
        ensures
            r@ == (AddModOptionsView { metadata_blob: Some(metadata_blob@), ..old(self)@ }),
            final(self)@ == final(r)@,
    {
        self.0.metadata_blob = Some(metadata_blob);
        self
    }

    pub fn tags(&mut self, tags: &[String]) -> (r: &mut Self)
        ensures
            r@ == (AddModOptionsView { tags: Some(tags.deep_view()), ..old(self)@ }),
            final(self)@ == final(r)@,
    {
        self.0.tags = Some(strings_to_vec(tags));
        self
    }

    pub fn build(self) -> (r: AddModOptions)
        ensures
            r@ == self@,
    {
        AddModOptions {
            visible: self.0.visible,
            logo: self.0.logo,
            name: self.0.name,
            name_id: self.0.name_id,
            summary: self.0.summary,
            description: self.0.description,
            homepage_url: self.0.homepage_url,
            stock: self.0.stock,
            maturity_option: self.0.maturity_option,
            metadata_blob: self.0.metadata_blob,
            tags: self.0.tags,
        }
    }
}

/// The parts `image0`, `image1`, ... for the images, in order.
pub open spec fn image_parts(images: Option<Seq<FileSourceView>>) -> Seq<(Seq<char>, PartView)> {
    match images {
        Some(imgs) => Seq::new(imgs.len(), |i: int| ("image"@ + decimal(i as nat), PartView::File(imgs[i]))),
        None => Seq::empty(),
    }
}

/// A file source of the image at `path`: sent as `image/*`, under the final
/// component `n` of a plain path `n` or `d/n`, and under the empty name where
/// the path ends in no file name.
pub open spec fn is_image_source(f: FileSourceView, path: Seq<char>) -> bool {
    &&& f.path == path
    &&& f.mime == "image/*"@
    &&& has_plain_file_name(path) ==> f.filename == after_last_slash(path)
    &&& has_no_file_name(path) ==> f.filename == Seq::<char>::empty()
}

pub open spec fn opt_source_view(f: Option<FileSource>) -> Option<FileSourceView> {
    match f {
        Some(f) => Some(f@),
        None => None,
    }
}

pub open spec fn opt_sources_view(v: Option<Vec<FileSource>>) -> Option<Seq<FileSourceView>> {
    match v {
        Some(v) => Some(v@.map_values(|f: FileSource| f@)),
        None => None,
    }
}

fn form_images(form: Form, images: Option<Vec<FileSource>>) -> (r: Form)
    ensures
        r@ == form@ + image_parts(opt_sources_view(images)),
{
    match images {
        Some(images) => {
            let ghost start = form@;
            let ghost all = images@.map_values(|f: FileSource| f@);
            let n = images.len();
            let mut images = images;
            let mut form = form;
            let mut i: usize = 0;
            while i < n
                invariant
                    0 <= i <= n,
                    n == all.len(),
                    images@.len() == n - i,
                    images@.map_values(|f: FileSource| f@) =~= all.subrange(i as int, n as int),
                    form@ =~= start + image_parts(Some(all.take(i as int))),
                decreases n - i,
            {
                let ghost rest = images@;
                let image = images.remove(0);
                assert(image@ == all[i as int]) by {
                    assert(rest.map_values(|f: FileSource| f@)[0] == all[i as int]);
                }
                assert(images@.map_values(|f: FileSource| f@) =~= all.subrange(i + 1, n as int)) by {
                    assert(images@ =~= rest.remove(0));
                    assert forall|j: int| 0 <= j < images@.len() implies
                        #[trigger] images@[j]@ == all[i + 1 + j] by {
                        assert(images@[j] == rest[j + 1]);
                        assert(rest.map_values(|f: FileSource| f@)[j + 1] == all.subrange(i as int, n as int)[j + 1]);
                    }
                }
                let mut name = String::from_str("image");
                let number = decimal_string(i as u64);
                name.append(number.as_str());
                proof {
                    reveal_strlit("image");
                }
                form = form.part(name, image);
                assert(image_parts(Some(all.take(i + 1))) =~= image_parts(Some(all.take(i as int))).push(
                    ("image"@ + decimal(i as nat), PartView::File(all[i as int])),
                ));
                i = i + 1;
            }
            assert(all.take(n as int) =~= all);
            form
        },
        None => {
            assert(form@ =~= form@ + image_parts(None));
            form
        },
    }
}

/// Media to add to a mod: a logo, a zip of images, images, YouTube and
/// Sketchfab links.
pub struct AddMediaOptions {
    logo: Option<FileSource>,
    images_zip: Option<FileSource>,
    images: Option<Vec<FileSource>>,
    youtube: Option<Vec<String>>,
    sketchfab: Option<Vec<String>>,
}

pub struct AddMediaOptionsView {
    pub logo: Option<FileSourceView>,
    pub images_zip: Option<FileSourceView>,
    pub images: Option<Seq<FileSourceView>>,
    pub youtube: Option<Seq<Seq<char>>>,
    pub sketchfab: Option<Seq<Seq<char>>>,
}

impl View for AddMediaOptions {
    type V = AddMediaOptionsView;

    closed spec fn view(&self) -> AddMediaOptionsView {
        AddMediaOptionsView {
            logo: opt_source_view(self.logo),
            images_zip: opt_source_view(self.images_zip),
            images: opt_sources_view(self.images),
            youtube: self.youtube.deep_view(),
            sketchfab: self.sketchfab.deep_view(),
        }
    }
}

impl AddMediaOptionsView {
    /// The parts of the form, in this order: `logo`, `images` (the zip),
    /// `image0`, `image1`, ..., one `youtube[]` part per link, one
    /// `sketchfab[]` part per link.
    pub open spec fn form(self) -> Seq<(Seq<char>, PartView)> {
        opt_file_parts("logo"@, self.logo)
            + opt_file_parts("images"@, self.images_zip)
            + image_parts(self.images)
            + list_text_parts("youtube[]"@, self.youtube)
            + list_text_parts("sketchfab[]"@, self.sketchfab)
    }

    pub open spec fn empty() -> AddMediaOptionsView {
        AddMediaOptionsView { logo: None, images_zip: None, images: None, youtube: None, sketchfab: None }
    }
}

impl AddMediaOptions {
    pub fn builder() -> (r: AddMediaOptionsBuilder)
        ensures
            r@ == AddMediaOptionsView::empty(),
    {
        AddMediaOptionsBuilder::new()
    }

    /// The media as a `multipart/form-data` form.
    pub fn into_form(self) -> (r: Form)
        ensures
            r@ == self@.form(),
    {
        let ghost v = self@;
        let mut form = Form::new();
        form = form_opt_file(form, "logo", self.logo);
        form = form_opt_file(form, "images", self.images_zip);
        form = form_images(form, self.images);
        form = form_text_list(form, "youtube[]", self.youtube);
        form = form_text_list(form, "sketchfab[]", self.sketchfab);
        assert(form@ =~= v.form());
        form
    }
}

/// Builder of [`AddMediaOptions`].
pub struct AddMediaOptionsBuilder(AddMediaOptions);

impl View for AddMediaOptionsBuilder {
    type V = AddMediaOptionsView;

    closed spec fn view(&self) -> AddMediaOptionsView {
        self.0@
    }
}

impl AddMediaOptionsBuilder {
    fn new() -> (r: AddMediaOptionsBuilder)
        ensures
            r@ == AddMediaOptionsView::empty(),
    {
        AddMediaOptionsBuilder(AddMediaOptions {
            logo: None,
            images_zip: None,
            images: None,
            youtube: None,
            sketchfab: None,
        })
    }

    /// The logo: the image at `logo`, sent as `image/*` under the path's
    /// file name.
    pub fn logo(&mut self, logo: &str) -> (r: &mut Self)
        ensures
            r@ == (AddMediaOptionsView { logo: r@.logo, ..old(self)@ }),
            r@.logo matches Some(f) && is_image_source(f, logo@),
            final(self)@ == final(r)@,
    {
        self.0.logo = Some(file_source(logo, mime_image_star()));
        self
    }

    /// A zip archive of images at `images`, sent as
    /// `application/octet-stream` under the name `images.zip`.
    pub fn images_zip(&mut self, images: &str) -> (r: &mut Self)
        ensures
            r@ == (AddMediaOptionsView {
                images_zip: Some(FileSourceView {
                    path: images@,
                    filename: "images.zip"@,
                    mime: "application/octet-stream"@,
                }),
                ..old(self)@
            }),
            final(self)@ == final(r)@,
    {
        self.0.images_zip = Some(FileSource::new(
            images.to_owned(),
            String::from_str("images.zip"),
            mime_application_octet_stream(),
        ));
        self
    }

    /// Images at the given paths, each sent as `image/*` under its file name.
    pub fn images(&mut self, images: &[String]) -> (r: &mut Self)
        ensures
            r@ == (AddMediaOptionsView { images: r@.images, ..old(self)@ }),
            r@.images matches Some(v) && v.len() == images@.len() && forall|i: int|
                0 <= i < v.len() ==> is_image_source(#[trigger] v[i], images@[i]@),
            final(self)@ == final(r)@,
    {
        let mut sources: Vec<FileSource> = Vec::new();
        let mut i: usize = 0;
        while i < images.len()
            invariant
                0 <= i <= images.len(),
                sources@.len() == i,
                forall|j: int| 0 <= j < i ==> is_image_source(#[trigger] sources@[j]@, images@[j]@),
            decreases images.len() - i,
        {
            let source = file_source(images[i].as_str(), mime_image_star());
            sources.push(source);
            i = i + 1;
        }
        let ghost v = sources@.map_values(|f: FileSource| f@);
        assert forall|j: int| 0 <= j < v.len() implies is_image_source(#[trigger] v[j], images@[j]@) by {
            assert(v[j] == sources@[j]@);
        }
        self.0.images = Some(sources);
        self
    }

    pub fn youtube(&mut self, urls: &[String]) -> (r: &mut Self)
        ensures
            r@ == (AddMediaOptionsView { youtube: Some(urls.deep_view()), ..old(self)@ }),
            final(self)@ == final(r)@,
    {
        self.0.youtube = Some(strings_to_vec(urls));
        self
    }

    pub fn sketchfab(&mut self, urls: &[String]) -> (r: &mut Self)
        ensures
            r@ == (AddMediaOptionsView { sketchfab: Some(urls.deep_view()), ..old(self)@ }),
            final(self)@ == final(r)@,
    {
        self.0.sketchfab = Some(strings_to_vec(urls));
        self
    }

    pub fn build(self) -> (r: AddMediaOptions)
        ensures
            r@ == self@,
    {
        AddMediaOptions {
            logo: self.0.logo,
            images_zip: self.0.images_zip,
            images: self.0.images,
            youtube: self.0.youtube,
            sketchfab: self.0.sketchfab,
        }
    }
}

/// One where an optional value is set, none where it is not.
pub open spec fn count_set<T>(v: Option<T>) -> nat {
    if v is Some { 1 } else { 0 }
}

/// The number of values in an optional list.
pub open spec fn count_listed<T>(v: Option<Seq<T>>) -> nat {
    match v {
        Some(s) => s.len(),
        None => 0,
    }
}

/// The form that adds a mod always starts with the name part and then the
/// summary part, whatever optional fields are set, and always ends with the
/// logo file. Each optional field that is set has its part, independently
/// of the others (a number in decimal), and each tag its `tags[]` part;
/// there is no part beyond these.
pub proof fn lemma_add_mod_form(o: AddModOptionsView)
    ensures
        o.form().len() == 3 + count_set(o.visible) + count_set(o.name_id) + count_set(o.description)
            + count_set(o.homepage_url) + count_set(o.stock) + count_set(o.maturity_option)
            + count_set(o.metadata_blob) + count_listed(o.tags),
        o.form()[0] == ("name"@, PartView::Text(o.name)),
        o.form()[1] == ("summary"@, PartView::Text(o.summary)),
        o.form()[o.form().len() - 1] == ("logo"@, PartView::File(o.logo)),
        o.visible matches Some(v) ==> o.form().contains(("visible"@, PartView::Text(decimal(v as nat)))),
        o.name_id matches Some(n) ==> o.form().contains(("name_id"@, PartView::Text(n))),
        o.description matches Some(d) ==> o.form().contains(("description"@, PartView::Text(d))),
        o.homepage_url matches Some(u) ==> o.form().contains(("homepage_url"@, PartView::Text(u))),
        o.stock matches Some(n) ==> o.form().contains(("stock"@, PartView::Text(decimal(n as nat)))),
        o.maturity_option matches Some(m) ==> o.form().contains(("maturity_option"@, PartView::Text(decimal(m as nat)))),
        o.metadata_blob matches Some(b) ==> o.form().contains(("metadata_blob"@, PartView::Text(b))),
        o.tags matches Some(ts) ==> forall|i: int| 0 <= i < ts.len()
            ==> #[trigger] o.form().contains(("tags[]"@, PartView::Text(ts[i]))),
{
    broadcast use vstd::seq_lib::lemma_seq_concat_contains_all_elements;

    let tail = seq![("logo"@, PartView::File(o.logo))];
    assert(o.form() == add_mod_fields(o) + tail);
    lemma_add_mod_fields(o);
}

/// The parts of the form that adds a mod, but the logo.
spec fn add_mod_fields(o: AddModOptionsView) -> Seq<(Seq<char>, PartView)> {
    seq![text_part("name"@, o.name), text_part("summary"@, o.summary)]
        + opt_num_parts("visible"@, widen32(o.visible))
        + opt_text_parts("name_id"@, o.name_id)
        + opt_text_parts("description"@, o.description)
        + opt_text_parts("homepage_url"@, o.homepage_url)
        + opt_num_parts("stock"@, widen32(o.stock))
        + opt_num_parts("maturity_option"@, widen8(o.maturity_option))
        + opt_text_parts("metadata_blob"@, o.metadata_blob)
        + list_text_parts("tags[]"@, o.tags)
}

#[verifier::rlimit(40)]
proof fn lemma_add_mod_fields(o: AddModOptionsView)
    ensures
        add_mod_fields(o).len() == 2 + count_set(o.visible) + count_set(o.name_id) + count_set(o.description)
            + count_set(o.homepage_url) + count_set(o.stock) + count_set(o.maturity_option)
            + count_set(o.metadata_blob) + count_listed(o.tags),
        add_mod_fields(o)[0] == ("name"@, PartView::Text(o.name)),
        add_mod_fields(o)[1] == ("summary"@, PartView::Text(o.summary)),
        o.visible matches Some(v) ==> add_mod_fields(o).contains(("visible"@, PartView::Text(decimal(v as nat)))),
        o.name_id matches Some(n) ==> add_mod_fields(o).contains(("name_id"@, PartView::Text(n))),
        o.description matches Some(d) ==> add_mod_fields(o).contains(("description"@, PartView::Text(d))),
        o.homepage_url matches Some(u) ==> add_mod_fields(o).contains(("homepage_url"@, PartView::Text(u))),
        o.stock matches Some(n) ==> add_mod_fields(o).contains(("stock"@, PartView::Text(decimal(n as nat)))),
        o.maturity_option matches Some(m) ==> add_mod_fields(o).contains(("maturity_option"@, PartView::Text(decimal(m as nat)))),
        o.metadata_blob matches Some(b) ==> add_mod_fields(o).contains(("metadata_blob"@, PartView::Text(b))),
        o.tags matches Some(ts) ==> forall|i: int| 0 <= i < ts.len()
            ==> #[trigger] add_mod_fields(o).contains(("tags[]"@, PartView::Text(ts[i]))),
{
    broadcast use vstd::seq_lib::lemma_seq_concat_contains_all_elements;

    lemma_singleton_parts_contain(o);
    if let Some(ts) = o.tags {
        assert forall|i: int| 0 <= i < ts.len() implies #[trigger] add_mod_fields(o).contains(("tags[]"@, PartView::Text(ts[i]))) by {
            let parts = list_text_parts("tags[]"@, o.tags);
            assert(parts[i] == text_part("tags[]"@, ts[i]));
            assert(parts.contains(("tags[]"@, PartView::Text(ts[i]))));
        }
    }
}

proof fn lemma_singleton_parts_contain(o: AddModOptionsView)
    ensures
        o.visible matches Some(v) ==> opt_num_parts("visible"@, widen32(o.visible)).contains(("visible"@, PartView::Text(decimal(v as nat)))),
        o.name_id matches Some(n) ==> opt_text_parts("name_id"@, o.name_id).contains(("name_id"@, PartView::Text(n))),
        o.description matches Some(d) ==> opt_text_parts("description"@, o.description).contains(("description"@, PartView::Text(d))),
        o.homepage_url matches Some(u) ==> opt_text_parts("homepage_url"@, o.homepage_url).contains(("homepage_url"@, PartView::Text(u))),
        o.stock matches Some(n) ==> opt_num_parts("stock"@, widen32(o.stock)).contains(("stock"@, PartView::Text(decimal(n as nat)))),
        o.maturity_option matches Some(m) ==> opt_num_parts("maturity_option"@, widen8(o.maturity_option)).contains(("maturity_option"@, PartView::Text(decimal(m as nat)))),
        o.metadata_blob matches Some(b) ==> opt_text_parts("metadata_blob"@, o.metadata_blob).contains(("metadata_blob"@, PartView::Text(b))),
{
    if let Some(v) = o.visible {
        assert(opt_num_parts("visible"@, widen32(o.visible))[0] == ("visible"@, PartView::Text(decimal(v as nat))));
    }
    if let Some(n) = o.name_id {
        assert(opt_text_parts("name_id"@, o.name_id)[0] == ("name_id"@, PartView::Text(n)));
    }
    if let Some(d) = o.description {
        assert(opt_text_parts("description"@, o.description)[0] == ("description"@, PartView::Text(d)));
    }
    if let Some(u) = o.homepage_url {
        assert(opt_text_parts("homepage_url"@, o.homepage_url)[0] == ("homepage_url"@, PartView::Text(u)));
    }
    if let Some(n) = o.stock {
        assert(opt_num_parts("stock"@, widen32(o.stock))[0] == ("stock"@, PartView::Text(decimal(n as nat))));
    }
    if let Some(m) = o.maturity_option {
        assert(opt_num_parts("maturity_option"@, widen8(o.maturity_option))[0] == ("maturity_option"@, PartView::Text(decimal(m as nat))));
    }
    if let Some(b) = o.metadata_blob {
        assert(opt_text_parts("metadata_blob"@, o.metadata_blob)[0] == ("metadata_blob"@, PartView::Text(b)));
    }
}

/// The form that adds media holds the logo file as `logo` whenever a logo is
/// set, and then as its first part, whatever else is set; the zip of images
/// as `images` whenever it is set; each image as `image0`, `image1`, ...; and
/// each YouTube and Sketchfab link as a `youtube[]` or `sketchfab[]` part.
/// There is no part beyond these.
pub proof fn lemma_add_media_form(o: AddMediaOptionsView)
    ensures
        o.form().len() == count_set(o.logo) + count_set(o.images_zip) + count_listed(o.images)
            + count_listed(o.youtube) + count_listed(o.sketchfab),
        o.logo matches Some(f) ==> o.form()[0] == ("logo"@, PartView::File(f)),
        o.logo matches Some(f) ==> o.form().contains(("logo"@, PartView::File(f))),
        o.images_zip matches Some(z) ==> o.form().contains(("images"@, PartView::File(z))),
        o.images matches Some(imgs) ==> forall|i: int| 0 <= i < imgs.len()
            ==> #[trigger] o.form().contains(("image"@ + decimal(i as nat), PartView::File(imgs[i]))),
        o.youtube matches Some(ys) ==> forall|i: int| 0 <= i < ys.len()
            ==> #[trigger] o.form().contains(("youtube[]"@, PartView::Text(ys[i]))),
        o.sketchfab matches Some(ss) ==> forall|i: int| 0 <= i < ss.len()
            ==> #[trigger] o.form().contains(("sketchfab[]"@, PartView::Text(ss[i]))),
{
    broadcast use vstd::seq_lib::lemma_seq_concat_contains_all_elements;

    if let Some(f) = o.logo {
        assert(opt_file_parts("logo"@, o.logo)[0] == ("logo"@, PartView::File(f)));
        assert(o.form()[0] == ("logo"@, PartView::File(f)));
    }
    if let Some(z) = o.images_zip {
        assert(opt_file_parts("images"@, o.images_zip)[0] == ("images"@, PartView::File(z)));
    }
    if let Some(imgs) = o.images {
        assert forall|i: int| 0 <= i < imgs.len() implies
            #[trigger] o.form().contains(("image"@ + decimal(i as nat), PartView::File(imgs[i]))) by {
            assert(image_parts(o.images)[i] == ("image"@ + decimal(i as nat), PartView::File(imgs[i])));
        }
    }
    if let Some(ys) = o.youtube {
        assert forall|i: int| 0 <= i < ys.len() implies #[trigger] o.form().contains(("youtube[]"@, PartView::Text(ys[i]))) by {
            assert(list_text_parts("youtube[]"@, o.youtube)[i] == text_part("youtube[]"@, ys[i]));
        }
    }
    if let Some(ss) = o.sketchfab {
        assert forall|i: int| 0 <= i < ss.len() implies #[trigger] o.form().contains(("sketchfab[]"@, PartView::Text(ss[i]))) by {
            assert(list_text_parts("sketchfab[]"@, o.sketchfab)[i] == text_part("sketchfab[]"@, ss[i]));
        }
    }
}

/// The parameters of a mod edit hold one pair per field that is set, and no
/// other: each set field is sent on its own, whatever else is set (a number
/// in decimal).
#[verifier::rlimit(40)]
pub proof fn lemma_edit_mod_params(o: EditModOptionsView)
    ensures
        o.params().len() == count_set(o.status) + count_set(o.visible) + count_set(o.name) + count_set(o.name_id)
            + count_set(o.summary) + count_set(o.description) + count_set(o.homepage_url) + count_set(o.stock)
            + count_set(o.maturity_option) + count_set(o.metadata_blob),
        o.status matches Some(v) ==> o.params().contains(("status"@, decimal(v as nat))),
        o.visible matches Some(v) ==> o.params().contains(("visible"@, decimal(v as nat))),
        o.name matches Some(n) ==> o.params().contains(("name"@, n)),
        o.name_id matches Some(n) ==> o.params().contains(("name_id"@, n)),
        o.summary matches Some(t) ==> o.params().contains(("summary"@, t)),
        o.description matches Some(d) ==> o.params().contains(("description"@, d)),
        o.homepage_url matches Some(u) ==> o.params().contains(("homepage_url"@, u)),
        o.stock matches Some(n) ==> o.params().contains(("stock"@, decimal(n as nat))),
        o.maturity_option matches Some(m) ==> o.params().contains(("maturity_option"@, decimal(m as nat))),
        o.metadata_blob matches Some(b) ==> o.params().contains(("metadata_blob"@, b)),
{
    broadcast use vstd::seq_lib::lemma_seq_concat_contains_all_elements;

    if let Some(v) = o.status {
        assert(opt_num_pair("status"@, widen32(o.status))[0] == ("status"@, decimal(v as nat)));
    }
    if let Some(v) = o.visible {
        assert(opt_num_pair("visible"@, widen32(o.visible))[0] == ("visible"@, decimal(v as nat)));
    }
    if let Some(n) = o.name {
        assert(opt_pair("name"@, o.name)[0] == ("name"@, n));
    }
    if let Some(n) = o.name_id {
        assert(opt_pair("name_id"@, o.name_id)[0] == ("name_id"@, n));
    }
    if let Some(t) = o.summary {
        assert(opt_pair("summary"@, o.summary)[0] == ("summary"@, t));
    }
    if let Some(d) = o.description {
        assert(opt_pair("description"@, o.description)[0] == ("description"@, d));
    }
    if let Some(u) = o.homepage_url {
        assert(opt_pair("homepage_url"@, o.homepage_url)[0] == ("homepage_url"@, u));
    }
    if let Some(n) = o.stock {
        assert(opt_num_pair("stock"@, widen32(o.stock))[0] == ("stock"@, decimal(n as nat)));
    }
    if let Some(m) = o.maturity_option {
        assert(opt_num_pair("maturity_option"@, widen8(o.maturity_option))[0] == ("maturity_option"@, decimal(m as nat)));
    }
    if let Some(b) = o.metadata_blob {
        assert(opt_pair("metadata_blob"@, o.metadata_blob)[0] == ("metadata_blob"@, b));
    }
}

} // verus!
