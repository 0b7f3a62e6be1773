//! The flow that completes an OIDC login with the callback that the user
//! came back with.
//!
//! The caller hands the callback to the connection of the session, waits for
//! the exchange, and reads off the connection who is logged in and with
//! which tokens. What is decided here is whether there is anything to hand
//! over, and what the outcome amounts to.

use crate::client::{accept_callback, SessionMeta, SessionTokens};
use crate::error::{translate, ConnectionFailure, OidcError};
use crate::messages::{JustFinishSso, JustSsoTokens};
use crate::registry::SessionRegistry;
use crate::uri::{url_parse, Uri};
use vstd::prelude::*;

verus! {

/// Why a login was not completed.
#[derive(Debug, PartialEq, Eq)]
pub enum Error {
    /// The login did not go through.
    Oidc(OidcError),
    /// The request names a session that the registry does not hold.
    SessionNotFound,
}

impl Error {
    /// What the user interface is told of this error.
    pub open spec fn message_text(self) -> Seq<char> {
        match self {
            Error::Oidc(e) => e.message_text(),
            Error::SessionNotFound => "missing client"@,
        }
    }

    /// What the user interface is told of this error.
    pub fn message(&self) -> (r: String)
        ensures
            r@ == self.message_text(),
    {
        match self {
            Error::Oidc(e) => e.message(),
            Error::SessionNotFound => "missing client".to_owned(),
        }
    }
}

/// The refresh token as a response carries it: empty where there is none.
pub open spec fn refresh_text(token: Option<String>) -> Seq<char> {
    match token {
        Some(t) => t@,
        None => Seq::empty(),
    }
}

/// Whether `response` tells the session `id` that it is logged in as `meta`
/// with `tokens`, and of no error.
pub open spec fn answers_with_session(
    response: JustSsoTokens,
    id: Seq<char>,
    meta: SessionMeta,
    tokens: SessionTokens,
) -> bool {
    &&& response.id@ == id
    &&& response.device_id@ == meta.device_id@
    &&& response.user_id@ == meta.user_id@
    &&& response.access_token@ == tokens.access_token@
    &&& response.refresh_token@ == refresh_text(tokens.refresh_token)
    &&& response.error@.len() == 0
}

/// Whether `response` tells the session `id` of `error` and of nothing else.
pub open spec fn answers_with_error(response: JustSsoTokens, id: Seq<char>, error: Seq<char>) -> bool {
    &&& response.id@ == id
    &&& response.device_id@.len() == 0
    &&& response.user_id@.len() == 0
    &&& response.access_token@.len() == 0
    &&& response.refresh_token@.len() == 0
    &&& response.error@ == error
}

/// Why the flow for a session ends before anything is handed to a
/// connection: the session is not there or, where it is, the callback was
/// not read as a URL.
pub open spec fn refusal(session_found: bool) -> Error {
    if session_found {
        Error::Oidc(OidcError::CallbackUrlInvalid)
    } else {
        Error::SessionNotFound
    }
}

/// Finds the session `id` for a callback that has been read. A session that
/// is not there ends the flow, whatever the callback; so does, for a session
/// that is there, a callback that was not read as a URL. Nothing is handed
/// to a connection then, and the registry stays as it is. Otherwise the
/// session's connection comes back, for exclusive use, with the URL to hand
/// to it.
pub fn hand_over<'a, C>(clients: &'a mut SessionRegistry<C>, id: &str, callback: Option<Uri>) -> (r:
    Result<(&'a mut C, Uri), Error>)
    ensures
        match r {
            Ok((client, url)) => {
                &&& old(clients)@.contains_key(id@)
                &&& callback == Some(url)
                &&& *client == old(clients)@[id@]
                &&& final(clients)@ == old(clients)@.insert(id@, *final(client))
            },
            Err(e) => {
                &&& old(clients)@.contains_key(id@) ==> callback is None
                &&& e == refusal(old(clients)@.contains_key(id@))
                &&& final(clients)@ == old(clients)@
            },
        },
{
    match clients.get_mut(id) {
        Some(client) => match accept_callback(callback) {
            Ok(url) => Ok((client, url)),
            Err(e) => Err(Error::Oidc(e)),
        },
        None => Err(Error::SessionNotFound),
    }
}

/// Opens the flow for `message`: reads its callback and finds the session
/// that it names, as `hand_over` does.
pub fn begin<'a, C>(clients: &'a mut SessionRegistry<C>, message: &JustFinishSso) -> (r: Result<
    (&'a mut C, Uri),
    Error,
>)
    ensures
        match r {
            Ok((client, url)) => {
                &&& old(clients)@.contains_key(message.id@)
                &&& url_parse(message.callback_url@) == Some(url@)
                &&& *client == old(clients)@[message.id@]
                &&& final(clients)@ == old(clients)@.insert(message.id@, *final(client))
            },
            Err(e) => {
                &&& old(clients)@.contains_key(message.id@) ==> url_parse(message.callback_url@)
                    is None
                &&& e == refusal(old(clients)@.contains_key(message.id@))
                &&& final(clients)@ == old(clients)@
            },
        },
{
    hand_over(clients, message.id.as_str(), Uri::parse(message.callback_url.as_str()))
}

/// Sums up an exchange of the callback. A failure of the exchange becomes
/// the error that stands for it. After an exchange that went through, the
/// connection knows who is logged in and holds the tokens; should it lack
/// either, the login counts as cancelled.
pub fn just_finish_sso(
    exchange: Result<(Option<SessionMeta>, Option<SessionTokens>), ConnectionFailure>,
) -> (r: Result<(SessionMeta, SessionTokens), Error>)
    ensures
        r == match exchange {
            Ok((Some(meta), Some(tokens))) => Ok::<(SessionMeta, SessionTokens), Error>(
                (meta, tokens),
            ),
            Ok(_) => Err(Error::Oidc(OidcError::Cancelled)),
            Err(failure) => Err(Error::Oidc(translate(failure))),
        },
{
    match exchange {
        Ok((Some(meta), Some(tokens))) => Ok((meta, tokens)),
        Ok(_) => Err(Error::Oidc(OidcError::Cancelled)),
        Err(failure) => Err(Error::Oidc(OidcError::from(failure))),
    }
}

/// Closes the flow for the session `id`: the response carries the
/// credentials of the session and no error, or the message of the error and
/// nothing else.
pub fn communicate(id: String, outcome: Result<(SessionMeta, SessionTokens), Error>) -> (response:
    JustSsoTokens)
    ensures
        match outcome {
            Ok((meta, tokens)) => answers_with_session(response, id@, meta, tokens),
            Err(e) => answers_with_error(response, id@, e.message_text()),
        },
{
    match outcome {
        Ok((meta, tokens)) => JustSsoTokens {
            id,
            device_id: meta.device_id,
            user_id: meta.user_id,
            access_token: tokens.access_token,
            refresh_token: match tokens.refresh_token {
                Some(token) => token,
                None => String::new(),
            },
            error: String::new(),
        },
        Err(e) => JustSsoTokens {
            id,
            device_id: String::new(),
            user_id: String::new(),
            access_token: String::new(),
            refresh_token: String::new(),
            error: e.message(),
        },
    }
}

} // verus!
