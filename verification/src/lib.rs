//! The login of a client at a Matrix homeserver through OIDC, as far as it
//! can be decided without talking to anyone.
//!
//! Three flows take a login from a homeserver's name to the credentials of a
//! session: `init_client` makes a session of a new connection,
//! `just_get_oidc_login_urls` gets the URL at which the user authorizes the
//! client, and `just_finish_sso` completes the login with the callback that
//! the user came back with. The sessions in flight are held in a
//! `registry::SessionRegistry`.
//!
//! The connection to the homeserver is the caller's: the registry and the
//! flows hold and hand on connections of any type and never use one. A flow
//! is therefore a handful of functions, one for each point at which the
//! caller comes back from the network with an outcome; each says what to do
//! next, or what to answer.

pub mod client;
pub mod config;
pub mod details;
pub mod error;
pub mod init_client;
pub mod just_finish_sso;
pub mod just_get_oidc_login_urls;
pub mod messages;
pub mod prompt;
pub mod registry;
pub mod uri;
