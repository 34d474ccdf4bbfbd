//! Authentication: credentials, authentication errors, external services,
//! and the requests of the authentication flow.

use vstd::prelude::*;
use vstd::std_specs::cmp::PartialEqSpecImpl;
use crate::client::Modio;
use crate::encoding::{decimal, decimal_string, form_urlencode, form_urlencoded};
use crate::error::ErrorKindView;
use crate::request::{prepare_spec, Body, BodyView, PreparedView, RequestBuilder, RequestView, Route, RouteView};

verus! {

/// Various forms of authentication credentials supported by mod.io.
#[derive(Clone, Debug)]
pub enum Credentials {
    ApiKey(String),
    /// Access token and Unix timestamp of the date this token will expire.
    Token(String, Option<u64>),
}

/// What a credential holds, as plain values.
pub enum CredentialsView {
    ApiKey(Seq<char>),
    Token(Seq<char>, Option<u64>),
}

impl View for Credentials {
    type V = CredentialsView;

    open spec fn view(&self) -> CredentialsView {
        match self {
            Credentials::ApiKey(k) => CredentialsView::ApiKey(k@),
            Credentials::Token(t, e) => CredentialsView::Token(t@, *e),
        }
    }
}

impl CredentialsView {
    /// The secret that the credential carries: the key or the token.
    pub open spec fn secret(self) -> Seq<char> {
        match self {
            CredentialsView::ApiKey(k) => k,
            CredentialsView::Token(t, _) => t,
        }
    }
}

impl Credentials {
    /// The text of the credential: the API key or the access token.
    pub fn to_string(&self) -> (r: String)
        ensures
            r@ == self@.secret(),
    {
        match self {
            Credentials::ApiKey(key) => key.clone(),
            Credentials::Token(token, _) => token.clone(),
        }
    }

    /// A copy of the credential.
    pub fn duplicate(&self) -> (r: Credentials)
        ensures
            r@ == self@,
    {
        match self {
            Credentials::ApiKey(key) => Credentials::ApiKey(key.clone()),
            Credentials::Token(token, expires) => Credentials::Token(token.clone(), *expires),
        }
    }
}

impl PartialEq for Credentials {
    fn eq(&self, other: &Self) -> (r: bool) {
        match (self, other) {
            (Credentials::ApiKey(a), Credentials::ApiKey(b)) => *a == *b,
            (Credentials::Token(a, x), Credentials::Token(b, y)) => {
                let same_expiry = match (x, y) {
                    (Some(p), Some(q)) => *p == *q,
                    (None, None) => true,
                    _ => false,
                };
                *a == *b && same_expiry
            },
            _ => false,
        }
    }
}

impl PartialEqSpecImpl for Credentials {
    open spec fn obeys_eq_spec() -> bool {
        true
    }

    open spec fn eq_spec(&self, other: &Self) -> bool {
        self@ == other@
    }
}

/// Authentication error.
#[derive(PartialEq, Eq, Structural, Clone, Copy, Debug)]
pub enum Error {
    /// API key/access token is incorrect, revoked or expired.
    Unauthorized,
    /// API key is required to perform the action.
    ApiKeyRequired,
    /// Access token is required to perform the action.
    TokenRequired,
}

impl Error {
    /// The human-readable description of the error.
    pub fn to_string(&self) -> (r: String)
        ensures
            r@ == match self {
                Error::Unauthorized => "Unauthorized"@,
                Error::ApiKeyRequired => "API key is required"@,
                Error::TokenRequired => "Access token is required"@,
            },
    {
        match self {
            Error::Unauthorized => String::from_str("Unauthorized"),
            Error::ApiKeyRequired => String::from_str("API key is required"),
            Error::TokenRequired => String::from_str("Access token is required"),
        }
    }
}

/// Various forms of supported external platforms.
#[derive(PartialEq, Eq, Structural, Clone, Copy, Debug)]
pub enum Service {
    Steam(u64),
    Gog(u64),
}

impl Service {
    /// The name of the platform, as the API spells it.
    pub open spec fn spec_name(self) -> Seq<char> {
        match self {
            Service::Steam(_) => "steam"@,
            Service::Gog(_) => "gog"@,
        }
    }

    /// The account id on the platform.
    pub open spec fn spec_id(self) -> u64 {
        match self {
            Service::Steam(id) => id,
            Service::Gog(id) => id,
        }
    }

    /// The name of the platform and the account id written in decimal.
    pub fn pieces(&self) -> (r: (&'static str, String))
        ensures
            r.0@ == self.spec_name(),
            r.1@ == decimal(self.spec_id() as nat),
    {
        match self {
            Service::Steam(id) => ("steam", decimal_string(*id)),
            Service::Gog(id) => ("gog", decimal_string(*id)),
        }
    }
}

/// Options of the Oculus authentication: the user's nonce, id and access
/// token, and optionally an email. They are sent as a form, sorted by name.
#[derive(Debug)]
pub struct OculusOptions {
    nonce: String,
    user_id: String,
    auth_token: String,
    email: Option<String>,
}

pub struct OculusOptionsView {
    pub nonce: Seq<char>,
    pub user_id: Seq<char>,
    pub auth_token: Seq<char>,
    pub email: Option<Seq<char>>,
}

impl View for OculusOptions {
    type V = OculusOptionsView;

    closed spec fn view(&self) -> OculusOptionsView {
        OculusOptionsView {
            nonce: self.nonce@,
            user_id: self.user_id@,
            auth_token: self.auth_token@,
            email: self.email.deep_view(),
        }
    }
}

impl OculusOptionsView {
    /// The parameters by name, in the ascending order of their names.
    pub open spec fn params(self) -> Seq<(Seq<char>, Seq<char>)> {
        seq![("auth_token"@, self.auth_token)] + match self.email {
            Some(e) => seq![("email"@, e)],
            None => Seq::empty(),
        } + seq![("nonce"@, self.nonce), ("user_id"@, self.user_id)]
    }
}

/// The order of text keys in a sorted map: lexicographic by character.
pub open spec fn text_lt(a: Seq<char>, b: Seq<char>) -> bool
    decreases a.len(),
{
    if a.len() == 0 {
        b.len() > 0
    } else if b.len() == 0 {
        false
    } else if a[0] != b[0] {
        (a[0] as u32) < (b[0] as u32)
    } else {
        text_lt(a.drop_first(), b.drop_first())
    }
}

/// The parameters of the Oculus authentication are sent as a sorted map
/// gives them: each name once, in ascending order.
pub proof fn lemma_oculus_params_sorted(o: OculusOptionsView)
    ensures
        forall|i: int, j: int| 0 <= i < j < o.params().len() ==>
            text_lt(#[trigger] o.params()[i].0, #[trigger] o.params()[j].0),
{
    reveal_strlit("auth_token");
    reveal_strlit("email");
    reveal_strlit("nonce");
    reveal_strlit("user_id");
    let p = o.params();
    assert(text_lt("auth_token"@, "email"@));
    assert(text_lt("auth_token"@, "nonce"@));
    assert(text_lt("auth_token"@, "user_id"@));
    assert(text_lt("email"@, "nonce"@));
    assert(text_lt("email"@, "user_id"@));
    assert(text_lt("nonce"@, "user_id"@));
    match o.email {
        Some(e) => {
            assert(p =~= seq![
                ("auth_token"@, o.auth_token),
                ("email"@, e),
                ("nonce"@, o.nonce),
                ("user_id"@, o.user_id),
            ]);
        },
        None => {
            assert(p =~= seq![("auth_token"@, o.auth_token), ("nonce"@, o.nonce), ("user_id"@, o.user_id)]);
        },
    }
}

pub(crate) fn str_pair(name: &str, value: &str) -> (r: (String, String))
    ensures
        r.0@ == name@,
        r.1@ == value@,
{
    (String::from_str(name), String::from_str(value))
}

impl OculusOptions {
    pub fn new(nonce: String, user_id: u64, auth_token: String) -> (r: OculusOptions)
        ensures
            r@ == (OculusOptionsView {
                nonce: nonce@,
                user_id: decimal(user_id as nat),
                auth_token: auth_token@,
                email: None,
            }),
    {
        OculusOptions { nonce, user_id: decimal_string(user_id), auth_token, email: None }
    }

    /// Sets the email of the user.
    pub fn email(self, email: String) -> (r: OculusOptions)
        ensures
            r@ == (OculusOptionsView { email: Some(email@), ..self@ }),
    {
        OculusOptions { email: Some(email), ..self }
    }

    /// The parameters as a form: `auth_token`, `email` (if set), `nonce`
    /// and `user_id`, in that order.
    pub fn to_query_string(&self) -> (r: String)
        ensures
            r@ == form_urlencoded(self@.params()),
    {
        let mut pairs: Vec<(String, String)> = Vec::new();
        pairs.push(str_pair("auth_token", self.auth_token.as_str()));
        match &self.email {
            Some(e) => pairs.push(str_pair("email", e.as_str())),
            None => {},
        }
        pairs.push(str_pair("nonce", self.nonce.as_str()));
        pairs.push(str_pair("user_id", self.user_id.as_str()));
        assert(pairs.deep_view() =~= self@.params());
        form_urlencode(&pairs)
    }
}

/// The access token that the authentication endpoints answer with.
pub struct AccessToken {
    pub access_token: String,
    pub date_expires: u64,
}

impl AccessToken {
    /// The credentials that the token grants: the token and its expiry date.
    pub fn into_credentials(self) -> (r: Credentials)
        ensures
            r@ == CredentialsView::Token(self.access_token@, Some(self.date_expires)),
    {
        Credentials::Token(self.access_token, Some(self.date_expires))
    }
}

/// The form body made of the given pairs.
pub open spec fn form_body(pairs: Seq<(Seq<char>, Seq<char>)>) -> Option<BodyView> {
    Some(BodyView::Form(form_urlencoded(pairs)))
}

/// Authentication flow interface to retrieve access tokens.
pub struct Auth {
    modio: Modio,
}

impl View for Auth {
    type V = crate::client::ModioView;

    closed spec fn view(&self) -> crate::client::ModioView {
        self.modio@
    }
}

impl Auth {
    pub fn new(modio: Modio) -> (r: Auth)
        ensures
            r@ == modio@,
    {
        Auth { modio }
    }

    fn form_request(self, route: Route, pairs: Vec<(String, String)>) -> (r: RequestBuilder)
        ensures
            r@ == (RequestView {
                modio: self@,
                route: route@,
                query: None,
                body: form_body(pairs.deep_view()),
            }),
    {
        let data = form_urlencode(&pairs);
        RequestBuilder::new(self.modio, route).body(Body::Form(data))
    }

    /// Request a security code be sent to the email of the user (API key).
    pub fn request_code(self, email: &str) -> (r: RequestBuilder)
        ensures
            r@ == (RequestView {
                modio: self@,
                route: Route::AuthEmailRequest@,
                query: None,
                body: form_body(seq![("email"@, email@)]),
            }),
    {
        let mut pairs: Vec<(String, String)> = Vec::new();
        pairs.push(str_pair("email", email));
        assert(pairs.deep_view() =~= seq![("email"@, email@)]);
        self.form_request(Route::AuthEmailRequest, pairs)
    }

    /// Exchange a security code for an access token (API key). The answer
    /// is an [`AccessToken`], see [`AccessToken::into_credentials`].
    pub fn security_code(self, code: &str) -> (r: RequestBuilder)
        ensures
            r@ == (RequestView {
                modio: self@,
                route: Route::AuthEmailExchange@,
                query: None,
                body: form_body(seq![("security_code"@, code@)]),
            }),
    {
        let mut pairs: Vec<(String, String)> = Vec::new();
        pairs.push(str_pair("security_code", code));
        assert(pairs.deep_view() =~= seq![("security_code"@, code@)]);
        self.form_request(Route::AuthEmailExchange, pairs)
    }

    /// Link an external account (access token).
    pub fn link(self, email: &str, service: Service) -> (r: RequestBuilder)
        ensures
            r@ == (RequestView {
                modio: self@,
                route: Route::LinkAccount@,
                query: None,
                body: form_body(seq![
                    ("email"@, email@),
                    ("service"@, service.spec_name()),
                    ("service_id"@, decimal(service.spec_id() as nat)),
                ]),
            }),
    {
        let (name, id) = service.pieces();
        let mut pairs: Vec<(String, String)> = Vec::new();
        pairs.push(str_pair("email", email));
        pairs.push(str_pair("service", name));
        pairs.push(str_pair("service_id", id.as_str()));
        assert(pairs.deep_view() =~= seq![
            ("email"@, email@),
            ("service"@, service.spec_name()),
            ("service_id"@, decimal(service.spec_id() as nat)),
        ]);
        self.form_request(Route::LinkAccount, pairs)
    }

    /// Get the access token for an encrypted GOG Galaxy app ticket (API key).
    pub fn gog_auth(self, ticket: &str) -> (r: RequestBuilder)
        ensures
            r@ == (RequestView {
                modio: self@,
                route: Route::AuthGog@,
                query: None,
                body: form_body(seq![("appdata"@, ticket@)]),
            }),
    {
        let mut pairs: Vec<(String, String)> = Vec::new();
        pairs.push(str_pair("appdata", ticket));
        assert(pairs.deep_view() =~= seq![("appdata"@, ticket@)]);
        self.form_request(Route::AuthGog, pairs)
    }

    /// Get the access token for an encrypted Steam app ticket (API key).
    pub fn steam_auth(self, ticket: &str) -> (r: RequestBuilder)
        ensures
            r@ == (RequestView {
                modio: self@,
                route: Route::AuthSteam@,
                query: None,
                body: form_body(seq![("appdata"@, ticket@)]),
            }),
    {
        let mut pairs: Vec<(String, String)> = Vec::new();
        pairs.push(str_pair("appdata", ticket));
        assert(pairs.deep_view() =~= seq![("appdata"@, ticket@)]);
        self.form_request(Route::AuthSteam, pairs)
    }

    /// Get the access token for an Oculus user (API key).
    pub fn oculus_auth(self, options: &OculusOptions) -> (r: RequestBuilder)
        ensures
            r@ == (RequestView {
                modio: self@,
                route: Route::AuthOculus@,
                query: None,
                body: form_body(options@.params()),
            }),
    {
        let data = options.to_query_string();
        RequestBuilder::new(self.modio, Route::AuthOculus).body(Body::Form(data))
    }
}

/// The routes of the authentication flow that require an API key.
pub open spec fn requires_api_key(route: RouteView) -> bool {
    ||| route is AuthEmailRequest
    ||| route is AuthEmailExchange
    ||| route is AuthGog
    ||| route is AuthSteam
    ||| route is AuthOculus
}

/// Requesting a security code, exchanging it, and authenticating through
/// GOG Galaxy, Steam or Oculus require an API key: with an access token
/// such a request is refused before it is sent. Linking an account requires
/// an access token: with an API key it is refused.
pub proof fn lemma_auth_flow_credentials(r: RequestView)
    ensures
        requires_api_key(r.route) && r.modio.credentials is Token
            ==> prepare_spec(r) == Err::<PreparedView, ErrorKindView>(ErrorKindView::Auth(Error::ApiKeyRequired)),
        r.route is LinkAccount && r.modio.credentials is ApiKey
            ==> prepare_spec(r) == Err::<PreparedView, ErrorKindView>(ErrorKindView::Auth(Error::TokenRequired)),
{
}

} // verus!
