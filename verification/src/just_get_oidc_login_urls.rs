//! The flow that gets the URL at which the user authorizes the client.
//!
//! It always starts afresh: the session that the request names is let go,
//! a new connection is built, and only a connection that has got its URL
//! becomes the session under that name. The caller does the two things that
//! take time, building the connection and asking it for the URL, and comes
//! here in between and afterwards.

use crate::client::{authorization_request, requests, AuthorizationRequest};
use crate::config::{OidcConfiguration, ParsedConfiguration, ParsedConfigurationView};
use crate::error::{translate, ClientBuildError, ConnectionFailure, OidcError};
use crate::messages::{JustGetOidcUrls, JustOidcUrls};
use crate::prompt::OidcPrompt;
use crate::registry::SessionRegistry;
use vstd::prelude::*;

verus! {

/// Why there is no authorization URL.
#[derive(Debug, PartialEq, Eq)]
pub enum Error {
    /// The login cannot go on.
    Oidc(OidcError),
    /// No connection to the homeserver could be built.
    Client(ClientBuildError),
}

impl Error {
    /// What the user interface is told of this error.
    pub open spec fn message_text(self) -> Seq<char> {
        match self {
            Error::Oidc(e) => e.message_text(),
            Error::Client(e) => e.message@,
        }
    }

    /// What the user interface is told of this error.
    pub fn message(&self) -> (r: String)
        ensures
            r@ == self.message_text(),
    {
        match self {
            Error::Oidc(e) => e.message(),
            Error::Client(e) => e.message.clone(),
        }
    }
}

/// Whether `configuration` is the one that `message` asks for: the name and
/// the URIs of the message, each of them present, and no static
/// registration.
pub open spec fn configured_by(configuration: OidcConfiguration, message: JustGetOidcUrls) -> bool {
    &&& configuration.client_name == Some(message.client_name)
    &&& configuration.redirect_uri == message.redirect_uri
    &&& configuration.client_uri == message.client_uri
    &&& configuration.logo_uri == Some(message.logo_uri)
    &&& configuration.tos_uri == Some(message.tos_uri)
    &&& configuration.policy_uri == Some(message.policy_uri)
    &&& configuration.static_registrations@.len() == 0
}

/// Whether `response` answers the request of the session `id` with `url`.
pub open spec fn answers_with_url(response: JustOidcUrls, id: Seq<char>, url: Seq<char>) -> bool {
    &&& response.id@ == id
    &&& response.url@ == url
    &&& response.error@.len() == 0
}

/// Whether `response` answers the request of the session `id` with `error`.
pub open spec fn answers_with_error(response: JustOidcUrls, id: Seq<char>, error: Seq<char>) -> bool {
    &&& response.id@ == id
    &&& response.url@.len() == 0
    &&& response.error@ == error
}

/// Opens the flow for `message`: the session that it names, if there is one,
/// leaves the registry, and the configuration for the attempt is made of the
/// message. What the flow comes to later does not bring that session back.
pub fn begin<C>(clients: &mut SessionRegistry<C>, message: &JustGetOidcUrls) -> (configuration:
    OidcConfiguration)
    ensures
        final(clients)@ == old(clients)@.remove(message.id@),
        configured_by(configuration, *message),
{
    let _ = clients.remove(message.id.as_str());
    OidcConfiguration {
        client_name: Some(message.client_name.clone()),
        redirect_uri: message.redirect_uri.clone(),
        client_uri: message.client_uri.clone(),
        logo_uri: Some(message.logo_uri.clone()),
        tos_uri: Some(message.tos_uri.clone()),
        policy_uri: Some(message.policy_uri.clone()),
        static_registrations: Vec::new(),
    }
}

/// What `get_oidc_url` comes to for a connection that was to be built and a
/// configuration whose URIs read as `configuration` says.
pub open spec fn asks_for_consent<C>(
    r: Result<(C, AuthorizationRequest), Error>,
    connection: Result<C, ClientBuildError>,
    configuration: ParsedConfigurationView,
) -> bool {
    match connection {
        Ok(client) => if configuration.valid() {
            &&& r matches Ok((same, request))
            &&& same == client
            &&& requests(request, configuration, Some(OidcPrompt::Consent), None, None)
        } else {
            r == Err::<(C, AuthorizationRequest), Error>(Error::Oidc(OidcError::MetadataInvalid))
        },
        Err(e) => r == Err::<(C, AuthorizationRequest), Error>(Error::Client(e)),
    }
}

/// Decides what to ask of a connection that was to be built, for a
/// configuration whose URIs have been read. Without a connection there is
/// nothing to ask, and without valid metadata neither; otherwise the
/// connection comes back with the request to put to it, which always asks
/// for the user's consent, hints at no login and names no device.
pub fn ask_for_consent<C>(
    connection: Result<C, ClientBuildError>,
    configuration: &ParsedConfiguration,
) -> (r: Result<(C, AuthorizationRequest), Error>)
    ensures
        asks_for_consent(r, connection, configuration@),
{
    let client = match connection {
        Ok(client) => client,
        Err(e) => {
            return Err(Error::Client(e));
        },
    };
    match authorization_request(configuration, Some(OidcPrompt::Consent), None, None) {
        Ok(request) => Ok((client, request)),
        Err(e) => Err(Error::Oidc(e)),
    }
}

/// Decides what to ask of a connection that was to be built: reads the URIs
/// of the configuration, and goes on as `ask_for_consent` does.
pub fn get_oidc_url<C>(
    connection: Result<C, ClientBuildError>,
    oidc_configuration: &OidcConfiguration,
) -> (r: Result<(C, AuthorizationRequest), Error>)
    ensures
        asks_for_consent(r, connection, oidc_configuration.parsed()),
{
    ask_for_consent(connection, &oidc_configuration.parse())
}

/// Takes the answer of the connection layer to the request: the URL goes on
/// together with the connection that issued it, a failure becomes the error
/// that stands for it, and the connection is let go.
pub fn authorized<C>(client: C, issued: Result<String, ConnectionFailure>) -> (r: Result<
    (C, String),
    Error,
>)
    ensures
        match issued {
            Ok(url) => r == Ok::<(C, String), Error>((client, url)),
            Err(failure) => r == Err::<(C, String), Error>(Error::Oidc(translate(failure))),
        },
{
    match issued {
        Ok(url) => Ok((client, url)),
        Err(failure) => Err(Error::Oidc(OidcError::from(failure))),
    }
}

/// Closes the flow for the session `id`. With a URL, the connection that
/// issued it becomes the session under `id`, and the response carries the
/// URL and no error. With an error, the response carries its message and no
/// URL, and the registry stays as it is.
pub fn communicate<C>(
    clients: &mut SessionRegistry<C>,
    id: String,
    outcome: Result<(C, String), Error>,
) -> (response: JustOidcUrls)
    ensures
        match outcome {
            Ok((client, url)) => {
                &&& answers_with_url(response, id@, url@)
                &&& final(clients)@ == old(clients)@.insert(id@, client)
            },
            Err(e) => {
                &&& answers_with_error(response, id@, e.message_text())
                &&& final(clients)@ == old(clients)@
            },
        },
{
    match outcome {
        Ok((client, url)) => {
            let _ = clients.insert(id.clone(), client);
            JustOidcUrls { id, url, error: String::new() }
        },
        Err(e) => JustOidcUrls { id, url: String::new(), error: e.message() },
    }
}

} // verus!
