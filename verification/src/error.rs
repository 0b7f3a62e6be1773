//! What can go wrong with an OIDC login, as the user interface is told of it,
//! and how the connection layer's failures are rendered in those terms.

use vstd::prelude::*;
use vstd::std_specs::convert::FromSpecImpl;
use vstd::string::StringExecFns;

verus! {

/// Why an OIDC login did not go through.
#[derive(Debug, PartialEq, Eq)]
pub enum OidcError {
    /// The homeserver offers no OIDC login.
    NotSupported,
    /// The client metadata of the configuration cannot be used.
    MetadataInvalid,
    /// The callback that was to complete the login cannot be used.
    CallbackUrlInvalid,
    /// The user called the login off.
    Cancelled,
    /// Anything else, in the words of the layer that failed.
    Generic { message: String },
}

/// The kinds of failure that the connection layer tells apart.
#[derive(Clone, Copy, Debug, PartialEq, Eq, Structural)]
pub enum FailureCategory {
    /// Discovery found that the homeserver does not support OAuth 2.0.
    DiscoveryNotSupported,
    /// Discovery failed for another reason.
    Discovery,
    /// The query of the redirect URI was not of the expected form.
    RedirectUri,
    /// The state of the callback matches no authorization under way.
    InvalidState,
    /// The user cancelled the authorization.
    Cancelled,
    /// The authorization code grant failed for another reason.
    AuthorizationCode,
    /// Any other failure, known to the connection layer or not.
    Other,
}

/// A failure of the connection layer: its kind, and what it says of itself.
#[derive(Debug, PartialEq, Eq)]
pub struct ConnectionFailure {
    pub category: FailureCategory,
    pub message: String,
}

/// Why no connection to a homeserver could be built, in the words of the
/// connection layer.
#[derive(Debug, PartialEq, Eq)]
pub struct ClientBuildError {
    pub message: String,
}

/// The error that stands for a failure of the connection layer.
pub open spec fn translate(failure: ConnectionFailure) -> OidcError {
    match failure.category {
        FailureCategory::DiscoveryNotSupported => OidcError::NotSupported,
        FailureCategory::RedirectUri | FailureCategory::InvalidState => OidcError::CallbackUrlInvalid,
        FailureCategory::Cancelled => OidcError::Cancelled,
        FailureCategory::Discovery | FailureCategory::AuthorizationCode | FailureCategory::Other => (
        OidcError::Generic { message: failure.message }),
    }
}

impl From<ConnectionFailure> for OidcError {
    /// Renders a failure of the connection layer as an error of the login:
    /// every kind has its error, and a kind without one of its own becomes
    /// `Generic` with the failure's message.
    fn from(failure: ConnectionFailure) -> (r: OidcError) {
        match failure.category {
            FailureCategory::DiscoveryNotSupported => OidcError::NotSupported,
            FailureCategory::RedirectUri => OidcError::CallbackUrlInvalid,
            FailureCategory::InvalidState => OidcError::CallbackUrlInvalid,
            FailureCategory::Cancelled => OidcError::Cancelled,
            _ => OidcError::Generic { message: failure.message },
        }
    }
}

impl FromSpecImpl<ConnectionFailure> for OidcError {
    open spec fn obeys_from_spec() -> bool {
        true
    }

    open spec fn from_spec(failure: ConnectionFailure) -> OidcError {
        translate(failure)
    }
}

impl OidcError {
    /// The sentence that tells the user of this error.
    pub open spec fn message_text(self) -> Seq<char> {
        match self {
            OidcError::NotSupported => "The homeserver doesn't provide an authentication issuer in its well-known configuration."@,
            OidcError::MetadataInvalid => "Unable to use OIDC as the supplied client metadata is invalid."@,
            OidcError::CallbackUrlInvalid => "The supplied callback URL used to complete OIDC is invalid."@,
            OidcError::Cancelled => "The OIDC login was cancelled by the user."@,
            OidcError::Generic { message } => "An error occurred: "@ + message@,
        }
    }

    /// The sentence that tells the user of this error.
    pub fn message(&self) -> (r: String)
        ensures
            r@ == self.message_text(),
    {
        match self {
            OidcError::NotSupported => "The homeserver doesn't provide an authentication issuer in its well-known configuration.".to_owned(),
            OidcError::MetadataInvalid => "Unable to use OIDC as the supplied client metadata is invalid.".to_owned(),
            OidcError::CallbackUrlInvalid => "The supplied callback URL used to complete OIDC is invalid.".to_owned(),
            OidcError::Cancelled => "The OIDC login was cancelled by the user.".to_owned(),
            OidcError::Generic { message } => "An error occurred: ".to_owned().concat(message.as_str()),
        }
    }
}

} // verus!
