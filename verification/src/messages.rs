//! The messages that pass between the user interface and the three login
//! flows: one request and one response for each flow.

use vstd::prelude::*;

verus! {

/// Asks for a connection to a homeserver.
#[derive(Debug, PartialEq, Eq)]
pub struct CreateClient {
    pub name_or_homeserver_url: String,
}

/// Tells of the session that was made for a `CreateClient`, and of how its
/// homeserver lets a client log in.
#[derive(Debug, PartialEq, Eq)]
pub struct ClientCreated {
    pub id: String,
    pub supports_oidc_login: bool,
    pub supports_password_login: bool,
    pub url: String,
}

/// Asks for the URL at which the user authorizes the client.
#[derive(Debug, PartialEq, Eq)]
pub struct JustGetOidcUrls {
    pub id: String,
    pub name_or_homeserver_url: String,
    pub client_name: String,
    pub redirect_uri: String,
    pub client_uri: String,
    pub logo_uri: String,
    pub tos_uri: String,
    pub policy_uri: String,
}

/// Answers a `JustGetOidcUrls`: the URL, or else the error; the other of the
/// two is empty.
#[derive(Debug, PartialEq, Eq)]
pub struct JustOidcUrls {
    pub id: String,
    pub url: String,
    pub error: String,
}

/// Asks to complete a login with the callback that the user came back with.
#[derive(Debug, PartialEq, Eq)]
pub struct JustFinishSso {
    pub id: String,
    pub callback_url: String,
}

/// Answers a `JustFinishSso`: the credentials of the session, or else the
/// error; what does not apply is empty.
#[derive(Debug, PartialEq, Eq)]
pub struct JustSsoTokens {
    pub id: String,
    pub device_id: String,
    pub user_id: String,
    pub access_token: String,
    pub refresh_token: String,
    pub error: String,
}

} // verus!
