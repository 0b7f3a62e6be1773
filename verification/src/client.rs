//! What is said to the connection layer, and what is made of its answers.
//!
//! The connection to a homeserver is not of this library: it talks to the
//! network and makes its caller wait. Here is what can be settled before
//! and after such a call: the request for an authorization URL that is made
//! of a configuration, and the reading of the callback that completes a
//! login.

use crate::config::{
    ClientRegistrationData, OidcConfiguration, ParsedConfiguration, ParsedConfigurationView,
};
use crate::error::OidcError;
use crate::prompt::OidcPrompt;
use crate::uri::{url_parse, Uri};
use vstd::prelude::*;

verus! {

/// A request for the URL at which the user authorizes the client.
#[derive(Debug, PartialEq, Eq)]
pub struct AuthorizationRequest {
    /// Where the authorization server sends the user back to.
    pub redirect_uri: Uri,
    /// The device to log in as; where there is none, the connection layer
    /// makes one up.
    pub device_id: Option<String>,
    /// How the client registers with the authorization server.
    pub registration_data: ClientRegistrationData,
    /// The prompts to ask of the authorization server, where any are asked.
    pub prompt: Option<Vec<OidcPrompt>>,
    /// What the identity provider may fill the login form with beforehand.
    pub login_hint: Option<String>,
}

/// Who a session belongs to.
#[derive(Debug, PartialEq, Eq)]
pub struct SessionMeta {
    pub user_id: String,
    pub device_id: String,
}

/// The tokens of a session.
#[derive(Debug, PartialEq, Eq)]
pub struct SessionTokens {
    pub access_token: String,
    pub refresh_token: Option<String>,
}

/// Whether `request` asks for what a valid configuration and the three
/// choices say: the registration and the redirect URI of the configuration,
/// the device and the login hint as they are, and the one prompt, if there
/// is one, as the whole list of prompts.
pub open spec fn requests(
    request: AuthorizationRequest,
    configuration: ParsedConfigurationView,
    prompt: Option<OidcPrompt>,
    login_hint: Option<String>,
    device_id: Option<String>,
) -> bool {
    &&& configuration.registers(request.registration_data)
    &&& configuration.redirect_uri == Some(request.redirect_uri@)
    &&& request.device_id == device_id
    &&& request.login_hint == login_hint
    &&& match prompt {
        Some(p) => request.prompt matches Some(list) && list@ == seq![p],
        None => request.prompt is None,
    }
}

/// Makes the request for an authorization URL of a configuration whose URIs
/// have been read. There is a request exactly when the configuration is
/// valid.
pub fn authorization_request(
    configuration: &ParsedConfiguration,
    prompt: Option<OidcPrompt>,
    login_hint: Option<String>,
    device_id: Option<String>,
) -> (r: Result<AuthorizationRequest, OidcError>)
    ensures
        match r {
            Ok(request) => configuration@.valid() && requests(
                request,
                configuration@,
                prompt,
                login_hint,
                device_id,
            ),
            Err(e) => !configuration@.valid() && e == OidcError::MetadataInvalid,
        },
{
    let registration_data = configuration.registration_data()?;
    let redirect_uri = configuration.redirect_uri()?;
    let prompts = match prompt {
        Some(p) => {
            let list = vec![p];
            assert(list@ =~= seq![p]);
            Some(list)
        },
        None => None,
    };
    Ok(
        AuthorizationRequest {
            redirect_uri,
            device_id,
            registration_data,
            prompt: prompts,
            login_hint,
        },
    )
}

/// Makes the request for the URL needed to open a web view for an OIDC
/// login. The connection layer answers it with the URL; once the web view
/// has come back with a callback, `login_with_oidc_callback` reads it.
///
/// * `oidc_configuration` - how the client registers with the authorization
///   server if it has not yet.
/// * `prompt` - the user experience wanted in the web view. None means that
///   the user wishes to log in to an account, `Create` that the user wishes
///   to register one.
/// * `login_hint` - what an identity provider may fill the login form with.
/// * `device_id` - the device of the session. Without one the connection
///   layer makes one up.
pub fn url_for_oidc(
    oidc_configuration: &OidcConfiguration,
    prompt: Option<OidcPrompt>,
    login_hint: Option<String>,
    device_id: Option<String>,
) -> (r: Result<AuthorizationRequest, OidcError>)
    ensures
        match r {
            Ok(request) => oidc_configuration.parsed().valid() && requests(
                request,
                oidc_configuration.parsed(),
                prompt,
                login_hint,
                device_id,
            ),
            Err(e) => !oidc_configuration.parsed().valid() && e == OidcError::MetadataInvalid,
        },
{
    authorization_request(&oidc_configuration.parse(), prompt, login_hint, device_id)
}

/// Decides on a callback that has been read: one that was read as a URL is
/// handed on, one that was not is turned down as invalid.
pub fn accept_callback(callback: Option<Uri>) -> (r: Result<Uri, OidcError>)
    ensures
        r == match callback {
            Some(url) => Ok::<Uri, OidcError>(url),
            None => Err(OidcError::CallbackUrlInvalid),
        },
{
    match callback {
        Some(url) => Ok(url),
        None => Err(OidcError::CallbackUrlInvalid),
    }
}

/// Reads the callback that is to complete an OIDC login. What comes back is
/// the URL to hand to the connection layer; a callback that is no URL is
/// turned down here, and the connection layer never hears of it.
pub fn login_with_oidc_callback(callback_url: &str) -> (r: Result<Uri, OidcError>)
    ensures
        match r {
            Ok(url) => url_parse(callback_url@) == Some(url@),
            Err(e) => url_parse(callback_url@) is None && e == OidcError::CallbackUrlInvalid,
        },
{
    accept_callback(Uri::parse(callback_url))
}

} // verus!
