//! Requests: routes, bodies, and the decisions taken before a request goes
//! out (authorisation, URL) and after its answer comes back (status, rate
//! limit).

use vstd::prelude::*;
use crate::auth::{self, CredentialsView};
use crate::client::{Modio, ModioView};
use crate::encoding::{parse_u64, parse_u64_spec};
use crate::error::{self, Error, ErrorKindView};
use crate::form::{Form, PartView};

verus! {

/// The HTTP method of a request.
#[derive(PartialEq, Eq, Structural, Clone, Copy, Debug)]
pub enum Method {
    Get,
    Post,
    Put,
    Delete,
}

/// Which credentials a route accepts.
#[derive(PartialEq, Eq, Structural, Clone, Copy, Debug)]
pub enum AuthMethod {
    /// An API key or an access token.
    Any,
    /// An API key only.
    ApiKey,
    /// An access token only.
    Token,
}

/// An endpoint of the API.
pub enum Route {
    /// Request a security code by email.
    AuthEmailRequest,
    /// Exchange a security code for an access token.
    AuthEmailExchange,
    /// Authenticate with an encrypted GOG Galaxy app ticket.
    AuthGog,
    /// Authenticate as an Oculus user.
    AuthOculus,
    /// Authenticate with an encrypted Steam app ticket.
    AuthSteam,
    /// Link an external account.
    LinkAccount,
    /// Read a resource (any credentials).
    Get(String),
    /// Create a resource (access token).
    Post(String),
    /// Change a resource (access token).
    Put(String),
    /// Remove a resource (access token).
    Delete(String),
}

pub enum RouteView {
    AuthEmailRequest,
    AuthEmailExchange,
    AuthGog,
    AuthOculus,
    AuthSteam,
    LinkAccount,
    Get(Seq<char>),
    Post(Seq<char>),
    Put(Seq<char>),
    Delete(Seq<char>),
}

impl View for Route {
    type V = RouteView;

    open spec fn view(&self) -> RouteView {
        match self {
            Route::AuthEmailRequest => RouteView::AuthEmailRequest,
            Route::AuthEmailExchange => RouteView::AuthEmailExchange,
            Route::AuthGog => RouteView::AuthGog,
            Route::AuthOculus => RouteView::AuthOculus,
            Route::AuthSteam => RouteView::AuthSteam,
            Route::LinkAccount => RouteView::LinkAccount,
            Route::Get(p) => RouteView::Get(p@),
            Route::Post(p) => RouteView::Post(p@),
            Route::Put(p) => RouteView::Put(p@),
            Route::Delete(p) => RouteView::Delete(p@),
        }
    }
}

impl RouteView {
    pub open spec fn method(self) -> Method {
        match self {
            RouteView::Get(_) => Method::Get,
            RouteView::Put(_) => Method::Put,
            RouteView::Delete(_) => Method::Delete,
            _ => Method::Post,
        }
    }

    pub open spec fn auth(self) -> AuthMethod {
        match self {
            RouteView::LinkAccount => AuthMethod::Token,
            RouteView::Get(_) => AuthMethod::Any,
            RouteView::Post(_) => AuthMethod::Token,
            RouteView::Put(_) => AuthMethod::Token,
            RouteView::Delete(_) => AuthMethod::Token,
            _ => AuthMethod::ApiKey,
        }
    }

    pub open spec fn path(self) -> Seq<char> {
        match self {
            RouteView::AuthEmailRequest => "/oauth/emailrequest"@,
            RouteView::AuthEmailExchange => "/oauth/emailexchange"@,
            RouteView::AuthGog => "/external/galaxyauth"@,
            RouteView::AuthOculus => "/external/oculusauth"@,
            RouteView::AuthSteam => "/external/steamauth"@,
            RouteView::LinkAccount => "/external/link"@,
            RouteView::Get(p) => p,
            RouteView::Post(p) => p,
            RouteView::Put(p) => p,
            RouteView::Delete(p) => p,
        }
    }
}

impl Route {
    /// The method, the accepted credentials and the path of the route.
    pub fn pieces(&self) -> (r: (Method, AuthMethod, String))
        ensures
            r.0 == self@.method(),
            r.1 == self@.auth(),
            r.2@ == self@.path(),
    {
        match self {
            Route::AuthEmailRequest => (Method::Post, AuthMethod::ApiKey, String::from_str("/oauth/emailrequest")),
            Route::AuthEmailExchange => (Method::Post, AuthMethod::ApiKey, String::from_str("/oauth/emailexchange")),
            Route::AuthGog => (Method::Post, AuthMethod::ApiKey, String::from_str("/external/galaxyauth")),
            Route::AuthOculus => (Method::Post, AuthMethod::ApiKey, String::from_str("/external/oculusauth")),
            Route::AuthSteam => (Method::Post, AuthMethod::ApiKey, String::from_str("/external/steamauth")),
            Route::LinkAccount => (Method::Post, AuthMethod::Token, String::from_str("/external/link")),
            Route::Get(p) => (Method::Get, AuthMethod::Any, p.clone()),
            Route::Post(p) => (Method::Post, AuthMethod::Token, p.clone()),
            Route::Put(p) => (Method::Put, AuthMethod::Token, p.clone()),
            Route::Delete(p) => (Method::Delete, AuthMethod::Token, p.clone()),
        }
    }
}

/// The body of a request.
pub enum Body {
    /// An `application/x-www-form-urlencoded` body.
    Form(String),
    /// A `multipart/form-data` body.
    Multipart(Form),
}

pub enum BodyView {
    Form(Seq<char>),
    Multipart(Seq<(Seq<char>, PartView)>),
}

impl View for Body {
    type V = BodyView;

    open spec fn view(&self) -> BodyView {
        match self {
            Body::Form(s) => BodyView::Form(s@),
            Body::Multipart(f) => BodyView::Multipart(f@),
        }
    }
}

impl From<String> for Body {
    fn from(s: String) -> (r: Body) {
        Body::Form(s)
    }
}

impl vstd::std_specs::convert::FromSpecImpl<String> for Body {
    open spec fn obeys_from_spec() -> bool {
        true
    }

    open spec fn from_spec(s: String) -> Body {
        Body::Form(s)
    }
}

impl From<Form> for Body {
    fn from(form: Form) -> (r: Body) {
        Body::Multipart(form)
    }
}

impl vstd::std_specs::convert::FromSpecImpl<Form> for Body {
    open spec fn obeys_from_spec() -> bool {
        true
    }

    open spec fn from_spec(form: Form) -> Body {
        Body::Multipart(form)
    }
}

pub open spec fn option_body_view(b: Option<Body>) -> Option<BodyView> {
    match b {
        Some(b) => Some(b@),
        None => None,
    }
}

/// A request to the API, not yet sent.
pub struct RequestBuilder {
    modio: Modio,
    route: Route,
    query: Option<String>,
    body: Option<Body>,
}

/// What a request holds, as plain values.
pub struct RequestView {
    pub modio: ModioView,
    pub route: RouteView,
    pub query: Option<Seq<char>>,
    pub body: Option<BodyView>,
}

impl View for RequestBuilder {
    type V = RequestView;

    closed spec fn view(&self) -> RequestView {
        RequestView {
            modio: self.modio@,
            route: self.route@,
            query: self.query.deep_view(),
            body: option_body_view(self.body),
        }
    }
}

/// The refusal, if any, of credentials `c` on a route that accepts `auth`.
pub open spec fn auth_refusal(auth: AuthMethod, c: CredentialsView) -> Option<auth::Error> {
    match (auth, c) {
        (AuthMethod::ApiKey, CredentialsView::Token(_, _)) => Some(auth::Error::ApiKeyRequired),
        (AuthMethod::Token, CredentialsView::ApiKey(_)) => Some(auth::Error::TokenRequired),
        _ => None,
    }
}

/// The URL text of a request before parsing: host, path, and `?query` if any.
pub open spec fn request_url(host: Seq<char>, path: Seq<char>, query: Option<Seq<char>>) -> Seq<char> {
    match query {
        Some(q) => host + path + seq!['?'] + q,
        None => host + path,
    }
}

/// What `url::Url::parse` makes of a text: the URL's serialization, its
/// query, and the serialization it has once its query is removed; `None`
/// where the text does not parse.
pub uninterp spec fn url_parse(input: Seq<char>) -> Option<(Seq<char>, Option<Seq<char>>, Seq<char>)>;

/// The same for `url::Url::parse_with_params` with one name/value pair.
pub uninterp spec fn url_parse_with_param(input: Seq<char>, name: Seq<char>, value: Seq<char>) -> Option<(Seq<char>, Option<Seq<char>>, Seq<char>)>;

/// A parsed URL as plain values.
struct UrlParts {
    href: String,
    query: Option<String>,
    href_without_query: String,
}

spec fn url_parts_view(u: Option<UrlParts>) -> Option<(Seq<char>, Option<Seq<char>>, Seq<char>)> {
    match u {
        Some(u) => Some((u.href@, u.query.deep_view(), u.href_without_query@)),
        None => None,
    }
}

/// Parses a URL with `url::Url::parse`.
///
/// Trusted: the result is named `url_parse` of the input; the body only
/// reads the parsed URL's serialization and query, and the serialization
/// after `set_query(None)`.
#[verifier::external_body]
fn parse_url(input: &str) -> (r: Option<UrlParts>)
    ensures
        url_parts_view(r) == url_parse(input@),
{
    let url = url::Url::parse(input).ok()?;
    let mut without = url.clone();
    without.set_query(None);
    Some(UrlParts {
        href: url.as_str().to_string(),
        query: url.query().map(|q| q.to_string()),
        href_without_query: without.as_str().to_string(),
    })
}

/// Parses a URL with `url::Url::parse_with_params`, adding one pair.
///
/// Trusted: the result is named `url_parse_with_param` of the arguments;
/// the body reads the parsed URL as `parse_url` does.
#[verifier::external_body]
fn parse_url_with_param(input: &str, name: &str, value: &str) -> (r: Option<UrlParts>)
    ensures
        url_parts_view(r) == url_parse_with_param(input@, name@, value@),
{
    let url = url::Url::parse_with_params(input, Some((name, value))).ok()?;
    let mut without = url.clone();
    without.set_query(None);
    Some(UrlParts {
        href: url.as_str().to_string(),
        query: url.query().map(|q| q.to_string()),
        href_without_query: without.as_str().to_string(),
    })
}

/// The parsed URL of a request: with the API key as the `api_key` parameter
/// where the credentials are an API key.
pub open spec fn parsed_url(r: RequestView) -> Option<(Seq<char>, Option<Seq<char>>, Seq<char>)> {
    let text = request_url(r.modio.host, r.route.path(), r.query);
    match r.modio.credentials {
        CredentialsView::ApiKey(key) => url_parse_with_param(text, "api_key"@, key),
        CredentialsView::Token(_, _) => url_parse(text),
    }
}

/// The URL a request goes to: the parsed URL, without its `?` where its
/// query is empty.
pub open spec fn final_url(r: RequestView) -> Option<Seq<char>> {
    match parsed_url(r) {
        Some((href, query, without)) => if query == Some(Seq::<char>::empty()) {
            Some(without)
        } else {
            Some(href)
        },
        None => None,
    }
}

/// A request ready for the network.
pub struct PreparedRequest {
    pub method: Method,
    pub url: String,
    /// The access token to send as a bearer token, if any.
    pub bearer: Option<String>,
    /// Whether the `Content-Type: application/x-www-form-urlencoded` header is set.
    pub form_content_type: bool,
    pub body: Option<Body>,
}

pub struct PreparedView {
    pub method: Method,
    pub url: Seq<char>,
    pub bearer: Option<Seq<char>>,
    pub form_content_type: bool,
    pub body: Option<BodyView>,
}

impl View for PreparedRequest {
    type V = PreparedView;

    open spec fn view(&self) -> PreparedView {
        PreparedView {
            method: self.method,
            url: self.url@,
            bearer: self.bearer.deep_view(),
            form_content_type: self.form_content_type,
            body: option_body_view(self.body),
        }
    }
}

/// What preparing a request gives: the refusal of the credentials, a URL
/// that does not parse, or the request ready to send.
pub open spec fn prepare_spec(r: RequestView) -> Result<PreparedView, ErrorKindView> {
    match auth_refusal(r.route.auth(), r.modio.credentials) {
        Some(e) => Err(ErrorKindView::Auth(e)),
        None => match final_url(r) {
            None => Err(ErrorKindView::Builder),
            Some(url) => Ok(PreparedView {
                method: r.route.method(),
                url,
                bearer: match r.modio.credentials {
                    CredentialsView::Token(t, _) => Some(t),
                    CredentialsView::ApiKey(_) => None,
                },
                form_content_type: !(r.body matches Some(BodyView::Multipart(_))),
                body: r.body,
            }),
        },
    }
}

/// How a response is handled once its status and rate-limit headers are known.
#[derive(PartialEq, Eq, Structural, Clone, Copy, Debug)]
pub enum ResponseStep {
    /// Success: decode the body as the expected value.
    DecodeBody,
    /// The rate limit is reached; the API may be called again after `reset`.
    RateLimited { reset: u64 },
    /// Failure: decode the body as the API's error message.
    DecodeErrorBody,
}

/// A success status: 200 to 299.
pub open spec fn is_success(status: u16) -> bool {
    200 <= status <= 299
}

pub open spec fn parse_header(h: Option<Seq<char>>) -> Option<u64> {
    match h {
        Some(s) => parse_u64_spec(s),
        None => None,
    }
}

pub open spec fn response_step_spec(status: u16, remaining: Option<Seq<char>>, reset: Option<Seq<char>>) -> ResponseStep {
    if is_success(status) {
        ResponseStep::DecodeBody
    } else {
        match (parse_header(remaining), parse_header(reset)) {
            (Some(rem), Some(after)) => if rem == 0 {
                ResponseStep::RateLimited { reset: after }
            } else {
                ResponseStep::DecodeErrorBody
            },
            _ => ResponseStep::DecodeErrorBody,
        }
    }
}

fn parse_opt_header(h: Option<&str>) -> (r: Option<u64>)
    ensures
        r == parse_header(h.deep_view()),
{
    match h {
        Some(s) => parse_u64(s),
        None => None,
    }
}

impl RequestBuilder {
    /// A request to `route`, with no query and no body.
    pub fn new(modio: Modio, route: Route) -> (r: RequestBuilder)
        ensures
            r@ == (RequestView { modio: modio@, route: route@, query: None, body: None }),
    {
        RequestBuilder { modio, route, query: None, body: None }
    }

    /// The client handle the request goes through.
    pub fn client(&self) -> (r: &Modio)
        ensures
            r@ == self@.modio,
    {
        &self.modio
    }

    /// The route of the request.
    pub fn route(&self) -> (r: &Route)
        ensures
            r@ == self@.route,
    {
        &self.route
    }

    /// The query string of the request, if set.
    pub fn query_params(&self) -> (r: &Option<String>)
        ensures
            r.deep_view() == self@.query,
    {
        &self.query
    }

    /// The body of the request, if set.
    pub fn request_body(&self) -> (r: &Option<Body>)
        ensures
            option_body_view(*r) == self@.body,
    {
        &self.body
    }

    /// Sets the query string.
    pub fn query(self, query: String) -> (r: RequestBuilder)
        ensures
            r@ == (RequestView { query: Some(query@), ..self@ }),
    {
        RequestBuilder { modio: self.modio, route: self.route, query: Some(query), body: self.body }
    }

    /// Sets the body.
    pub fn body(self, body: Body) -> (r: RequestBuilder)
        ensures
            r@ == (RequestView { body: Some(body@), ..self@ }),
    {
        RequestBuilder { modio: self.modio, route: self.route, query: self.query, body: Some(body) }
    }

    /// The checks and the URL of the request, before it is sent: the route
    /// must accept the credentials; the URL is the host, the path and the
    /// query, with the API key added as `api_key` where the credentials are
    /// an API key, and without a `?` where the query ends up empty.
    pub fn prepare(self) -> (r: Result<PreparedRequest, Error>)
        ensures
            match (r, prepare_spec(self@)) {
                (Ok(p), Ok(v)) => p@ == v,
                (Err(e), Err(v)) => e@ == v,
                _ => false,
            },
    {
        let (method, auth_method, path) = self.route.pieces();
        match (auth_method, &self.modio.credentials()) {
            (AuthMethod::ApiKey, auth::Credentials::Token(_, _)) => return Err(error::apikey_required()),
            (AuthMethod::Token, auth::Credentials::ApiKey(_)) => return Err(error::token_required()),
            _ => {},
        }
        let mut text = self.modio.host().clone();
        text.append(path.as_str());
        match &self.query {
            Some(q) => {
                text.append("?");
                text.append(q.as_str());
            },
            None => {},
        }
        proof {
            reveal_strlit("?");
        }
        assert(text@ == request_url(self@.modio.host, self@.route.path(), self@.query));
        let parsed = match self.modio.credentials() {
            auth::Credentials::ApiKey(key) => parse_url_with_param(text.as_str(), "api_key", key.as_str()),
            auth::Credentials::Token(_, _) => parse_url(text.as_str()),
        };
        assert(url_parts_view(parsed) == parsed_url(self@));
        let url = match parsed {
            None => return Err(error::builder()),
            Some(parts) => match &parts.query {
                Some(q) => if q.as_str().is_empty() {
                    assert(q@ =~= Seq::<char>::empty());
                    parts.href_without_query
                } else {
                    assert(q@ != Seq::<char>::empty());
                    parts.href
                },
                None => parts.href,
            },
        };
        assert(Some(url@) == final_url(self@));
        let bearer = match self.modio.credentials() {
            auth::Credentials::Token(token, _) => Some(token.clone()),
            auth::Credentials::ApiKey(_) => None,
        };
        let form_content_type = match &self.body {
            Some(Body::Multipart(_)) => false,
            _ => true,
        };
        Ok(PreparedRequest { method, url, bearer, form_content_type, body: self.body })
    }

    /// How to handle a response with status `status` and the raw values of
    /// the `X-RateLimit-Remaining` and `X-RateLimit-RetryAfter` headers:
    /// decode the body on success; report the rate limit where the remaining
    /// count reads as zero and the retry time reads as a number; else decode
    /// the body as the API's error.
    pub fn response_step(status: u16, remaining: Option<&str>, reset: Option<&str>) -> (r: ResponseStep)
        ensures
            r == response_step_spec(status, remaining.deep_view(), reset.deep_view()),
            (r == ResponseStep::DecodeBody) <==> (200 <= status && status <= 299),
            !(200 <= status && status <= 299) && !(r is RateLimited) ==> r == ResponseStep::DecodeErrorBody,
    {
        if 200 <= status && status <= 299 {
            ResponseStep::DecodeBody
        } else {
            let remaining = parse_opt_header(remaining);
            let reset = parse_opt_header(reset);
            match (remaining, reset) {
                (Some(rem), Some(after)) => if rem == 0 {
                    ResponseStep::RateLimited { reset: after }
                } else {
                    ResponseStep::DecodeErrorBody
                },
                _ => ResponseStep::DecodeErrorBody,
            }
        }
    }

    /// The outcome of a delete: a body that does not decode still counts as
    /// success; any other result stays as it is.
    pub fn delete_outcome(r: Result<(), Error>) -> (o: Result<(), Error>)
        ensures
            match r {
                Ok(()) => o is Ok,
                Err(e) => if e@ is Decode { o is Ok } else { o matches Err(e2) && e2@ == e@ },
            },
    {
        match r {
            Ok(()) => Ok(()),
            Err(e) => match e.kind() {
                error::ErrorKind::Decode => Ok(()),
                _ => Err(e),
            },
        }
    }
}

/// Credentials that a route does not accept are refused before anything
/// else is looked at: a token where an API key is required, an API key
/// where a token is required. A route that accepts any credentials refuses
/// none; its request fails only where its URL does not parse.
pub proof fn lemma_credentials_must_fit(r: RequestView)
    ensures
        r.route.auth() == AuthMethod::ApiKey && r.modio.credentials is Token
            ==> prepare_spec(r) == Err::<PreparedView, ErrorKindView>(ErrorKindView::Auth(auth::Error::ApiKeyRequired)),
        r.route.auth() == AuthMethod::Token && r.modio.credentials is ApiKey
            ==> prepare_spec(r) == Err::<PreparedView, ErrorKindView>(ErrorKindView::Auth(auth::Error::TokenRequired)),
        r.route.auth() == AuthMethod::Any ==> (prepare_spec(r) is Ok <==> final_url(r) is Some),
{
}

/// An access token travels only as the bearer token, and an API key never
/// does: a prepared request carries a bearer token exactly when the
/// credentials are a token, and then it is that token.
pub proof fn lemma_bearer_only_for_tokens(r: RequestView)
    ensures
        prepare_spec(r) matches Ok(p) ==> match r.modio.credentials {
            CredentialsView::Token(t, _) => p.bearer == Some(t),
            CredentialsView::ApiKey(_) => p.bearer is None,
        },
{
}

/// A prepared request keeps the method and the body of its route and
/// request, and sets the form content type unless the body is multipart.
pub proof fn lemma_prepare_keeps_body(r: RequestView)
    ensures
        prepare_spec(r) matches Ok(p) ==> {
            &&& p.method == r.route.method()
            &&& p.body == r.body
            &&& p.form_content_type == !(r.body matches Some(BodyView::Multipart(_)))
        },
{
}

/// A successful status is always decoded as the expected value; a rate
/// limit is reported exactly for a failed status whose remaining count
/// reads as zero and whose retry time reads as a number, and it reports that
/// number.
pub proof fn lemma_rate_limit(status: u16, remaining: Option<Seq<char>>, reset: Option<Seq<char>>)
    ensures
        is_success(status) ==> response_step_spec(status, remaining, reset) == ResponseStep::DecodeBody,
        response_step_spec(status, remaining, reset) is RateLimited <==> {
            &&& !is_success(status)
            &&& parse_header(remaining) == Some(0u64)
            &&& parse_header(reset) is Some
        },
        response_step_spec(status, remaining, reset) matches ResponseStep::RateLimited { reset: after }
            ==> parse_header(reset) == Some(after),
{
}

/// A response is decoded as the expected value exactly when its status is
/// one of 200 to 299. Any other status is never decoded as a success: its
/// body is decoded as the API's error, unless the rate limit is reported.
pub proof fn lemma_only_success_is_decoded(status: u16, remaining: Option<Seq<char>>, reset: Option<Seq<char>>)
    ensures
        (response_step_spec(status, remaining, reset) == ResponseStep::DecodeBody) <==> (200 <= status && status <= 299),
        !(200 <= status && status <= 299) ==> response_step_spec(status, remaining, reset) != ResponseStep::DecodeBody,
        !(200 <= status && status <= 299) && !(response_step_spec(status, remaining, reset) is RateLimited)
            ==> response_step_spec(status, remaining, reset) == ResponseStep::DecodeErrorBody,
{
}

/// With an API key, whatever the route's method, the URL of a request that
/// the route lets through is the parse of the host, the path and `?` with the
/// query (if any), with the key added as the `api_key` parameter; it is sent
/// without a `?` where its query is empty, and no bearer token goes with it.
/// Where that text does not parse, the request fails as a builder error.
pub proof fn lemma_api_key_goes_in_url(r: RequestView, key: Seq<char>)
    requires
        r.modio.credentials == CredentialsView::ApiKey(key),
        r.route.auth() != AuthMethod::Token,
    ensures
        ({
            let text = match r.query {
                Some(q) => r.modio.host + r.route.path() + seq!['?'] + q,
                None => r.modio.host + r.route.path(),
            };
            match url_parse_with_param(text, "api_key"@, key) {
                None => prepare_spec(r) == Err::<PreparedView, ErrorKindView>(ErrorKindView::Builder),
                Some((href, query, without)) => prepare_spec(r) matches Ok(p) && {
                    &&& p.url == (if query == Some(Seq::<char>::empty()) { without } else { href })
                    &&& p.bearer is None
                    &&& p.method == r.route.method()
                },
            }
        }),
{
}

/// With an access token, the URL of a request that the route lets through is
/// the parse of the host, the path and `?` with the query (if any), with
/// nothing added; the token goes with it as the bearer token. Where that text
/// does not parse, the request fails as a builder error.
pub proof fn lemma_token_url_and_bearer(r: RequestView, token: Seq<char>, expiry: Option<u64>)
    requires
        r.modio.credentials == CredentialsView::Token(token, expiry),
        r.route.auth() != AuthMethod::ApiKey,
    ensures
        ({
            let text = match r.query {
                Some(q) => r.modio.host + r.route.path() + seq!['?'] + q,
                None => r.modio.host + r.route.path(),
            };
            match url_parse(text) {
                None => prepare_spec(r) == Err::<PreparedView, ErrorKindView>(ErrorKindView::Builder),
                Some((href, query, without)) => prepare_spec(r) matches Ok(p) && {
                    &&& p.url == (if query == Some(Seq::<char>::empty()) { without } else { href })
                    &&& p.bearer == Some(token)
                    &&& p.method == r.route.method()
                },
            }
        }),
{
}

} // verus!
