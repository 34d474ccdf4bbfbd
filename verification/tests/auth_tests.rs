use modio::auth::{AccessToken, Credentials, Error, OculusOptions, Service};
use modio::client::Modio;
use modio::request::{Body, Route};

fn client(credentials: Credentials) -> Modio {
    Modio::new(String::from("https://api.mod.io/v1"), credentials)
}

fn form_body(body: &Option<Body>) -> String {
    match body {
        Some(Body::Form(s)) => s.clone(),
        _ => panic!("expected a form body"),
    }
}

#[test]
fn credentials_show_their_secret() {
    assert_eq!(Credentials::ApiKey(String::from("key")).to_string(), "key");
    assert_eq!(Credentials::Token(String::from("tok"), Some(5)).to_string(), "tok");
    assert_eq!(Credentials::Token(String::from("tok"), None).to_string(), "tok");
}

#[test]
fn auth_error_messages() {
    assert_eq!(Error::Unauthorized.to_string(), "Unauthorized");
    assert_eq!(Error::ApiKeyRequired.to_string(), "API key is required");
    assert_eq!(Error::TokenRequired.to_string(), "Access token is required");
}

#[test]
fn service_pieces() {
    let (name, id) = Service::Steam(76561198000000000).pieces();
    assert_eq!(name, "steam");
    assert_eq!(id, "76561198000000000");
    let (name, id) = Service::Gog(42).pieces();
    assert_eq!(name, "gog");
    assert_eq!(id, "42");
}

#[test]
fn oculus_options_sorted_by_name() {
    let opts = OculusOptions::new(String::from("n0"), 42, String::from("t k"));
    assert_eq!(opts.to_query_string(), "auth_token=t+k&nonce=n0&user_id=42");
    let opts = opts.email(String::from("a@b.c"));
    assert_eq!(opts.to_query_string(), "auth_token=t+k&email=a%40b.c&nonce=n0&user_id=42");
}

#[test]
fn access_token_becomes_credentials() {
    let token = AccessToken { access_token: String::from("abc"), date_expires: 1700000000 };
    match token.into_credentials() {
        Credentials::Token(t, e) => {
            assert_eq!(t, "abc");
            assert_eq!(e, Some(1700000000));
        },
        _ => panic!("expected a token"),
    }
}

#[test]
fn request_code_sends_email() {
    let r = client(Credentials::ApiKey(String::from("k"))).auth().request_code("me@example.com");
    assert!(matches!(r.route(), Route::AuthEmailRequest));
    assert_eq!(form_body(r.request_body()), "email=me%40example.com");
    assert!(r.query_params().is_none());
}

#[test]
fn security_code_sends_code() {
    let r = client(Credentials::ApiKey(String::from("k"))).auth().security_code("AB12");
    assert!(matches!(r.route(), Route::AuthEmailExchange));
    assert_eq!(form_body(r.request_body()), "security_code=AB12");
}

#[test]
fn link_sends_service() {
    let r = client(Credentials::Token(String::from("t"), None)).auth().link("me@example.com", Service::Gog(123));
    assert!(matches!(r.route(), Route::LinkAccount));
    assert_eq!(form_body(r.request_body()), "email=me%40example.com&service=gog&service_id=123");
}

#[test]
fn steam_and_gog_send_ticket() {
    let r = client(Credentials::ApiKey(String::from("k"))).auth().steam_auth("t+/=");
    assert!(matches!(r.route(), Route::AuthSteam));
    assert_eq!(form_body(r.request_body()), "appdata=t%2B%2F%3D");
    let r = client(Credentials::ApiKey(String::from("k"))).auth().gog_auth("abc");
    assert!(matches!(r.route(), Route::AuthGog));
    assert_eq!(form_body(r.request_body()), "appdata=abc");
}

#[test]
fn oculus_auth_sends_options() {
    let opts = OculusOptions::new(String::from("n"), 7, String::from("t"));
    let r = client(Credentials::ApiKey(String::from("k"))).auth().oculus_auth(&opts);
    assert!(matches!(r.route(), Route::AuthOculus));
    assert_eq!(form_body(r.request_body()), "auth_token=t&nonce=n&user_id=7");
}

#[test]
fn with_credentials_keeps_host() {
    let m = client(Credentials::ApiKey(String::from("k")));
    let m = m.with_credentials(Credentials::Token(String::from("t"), None));
    assert_eq!(m.host(), "https://api.mod.io/v1");
    assert_eq!(m.credentials().to_string(), "t");
}

#[test]
fn credentials_equality() {
    assert_eq!(Credentials::ApiKey(String::from("a")), Credentials::ApiKey(String::from("a")));
    assert_ne!(Credentials::ApiKey(String::from("a")), Credentials::ApiKey(String::from("b")));
    assert_eq!(Credentials::Token(String::from("t"), Some(1)), Credentials::Token(String::from("t"), Some(1)));
    assert_ne!(Credentials::Token(String::from("t"), Some(1)), Credentials::Token(String::from("t"), None));
    assert_ne!(Credentials::ApiKey(String::from("t")), Credentials::Token(String::from("t"), None));
}

#[test]
fn duplicate_is_equal() {
    let c = Credentials::Token(String::from("t"), Some(3));
    assert_eq!(c.duplicate(), c);
}
