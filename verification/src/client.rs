//! The client handle: the API host and the credentials that requests carry.

use vstd::prelude::*;
use crate::auth::{Auth, Credentials, CredentialsView};
use crate::request::{RequestBuilder, RequestView, Route};

verus! {

/// A handle on the mod.io API: its host and the credentials to send.
pub struct Modio {
    host: String,
    credentials: Credentials,
}

/// What a client handle holds, as plain values.
pub struct ModioView {
    pub host: Seq<char>,
    pub credentials: CredentialsView,
}

impl View for Modio {
    type V = ModioView;

    closed spec fn view(&self) -> ModioView {
        ModioView { host: self.host@, credentials: self.credentials@ }
    }
}

impl Modio {
    /// A handle on the API at `host` (such as `https://api.mod.io/v1`).
    pub fn new(host: String, credentials: Credentials) -> (r: Modio)
        ensures
            r@ == (ModioView { host: host@, credentials: credentials@ }),
    {
        Modio { host, credentials }
    }

    pub fn host(&self) -> (r: &String)
        ensures
            r@ == self@.host,
    {
        &self.host
    }

    pub fn credentials(&self) -> (r: &Credentials)
        ensures
            r@ == self@.credentials,
    {
        &self.credentials
    }

    /// The same handle with other credentials.
    pub fn with_credentials(self, credentials: Credentials) -> (r: Modio)
        ensures
            r@ == (ModioView { host: self@.host, credentials: credentials@ }),
    {
        Modio { host: self.host, credentials }
    }

    /// The authentication flow interface.
    pub fn auth(&self) -> (r: Auth)
        ensures
            r@ == self@,
    {
        Auth::new(self.duplicate())
    }

    /// A request to `route` with these host and credentials.
    pub fn request(&self, route: Route) -> (r: RequestBuilder)
        ensures
            r@ == (RequestView { modio: self@, route: route@, query: None, body: None }),
    {
        RequestBuilder::new(self.duplicate(), route)
    }

    /// A copy of the handle.
    pub fn duplicate(&self) -> (r: Modio)
        ensures
            r@ == self@,
    {
        Modio { host: self.host.clone(), credentials: self.credentials.duplicate() }
    }
}

} // verus!
