//! What a homeserver lets a client do to log in, as discovery found it.

use crate::prompt::{prompt_of, OidcPrompt};
use vstd::prelude::*;

verus! {

/// The version of sliding sync that a homeserver speaks.
#[derive(Clone, Copy, Debug, PartialEq, Eq, Structural)]
pub enum SlidingSyncVersion {
    /// No version: sliding sync is off, or nothing is known of it.
    Disabled,
    /// The version that is part of the protocol.
    Native,
}

/// A way to log in that a homeserver lists.
#[derive(Clone, Copy, Debug, PartialEq, Eq, Structural)]
pub enum LoginType {
    /// With a password.
    Password,
    /// With a token.
    Token,
    /// Through single sign-on.
    Sso,
    /// As an application service.
    ApplicationService,
    /// In a way that has no name here.
    Other,
}

/// What discovery brought back from a homeserver. A part that could not be
/// had is absent; that is no failure of discovery as a whole.
#[derive(Debug, PartialEq, Eq)]
pub struct ServerDiscovery {
    /// The URL of the homeserver.
    pub homeserver: String,
    /// The version of sliding sync that the connection settled on.
    pub sliding_sync_version: SlidingSyncVersion,
    /// The prompt values in the metadata of the authorization server, where
    /// the homeserver has one and its metadata could be had.
    pub prompt_values_supported: Option<Vec<String>>,
    /// The login types that the homeserver lists, where they could be had.
    pub login_types: Option<Vec<LoginType>>,
}

/// How a client can log in to a homeserver.
#[derive(Debug, PartialEq, Eq)]
pub struct HomeserverLoginDetails {
    pub url: String,
    pub sliding_sync_version: SlidingSyncVersion,
    pub supports_oidc_login: bool,
    pub supported_oidc_prompts: Vec<OidcPrompt>,
    pub supports_sso_login: bool,
    pub supports_password_login: bool,
}

/// The prompts that a list of values stands for.
pub open spec fn prompts_of(values: Seq<String>) -> Seq<OidcPrompt> {
    values.map_values(|value: String| prompt_of(value))
}

/// Whether the login types could be had and `wanted` is among them.
pub open spec fn offers(login_types: Option<Vec<LoginType>>, wanted: LoginType) -> bool {
    login_types matches Some(listed) && listed@.contains(wanted)
}

impl ServerDiscovery {
    /// Whether the homeserver has an authorization server to log in with.
    pub open spec fn supports_oidc_login(self) -> bool {
        self.prompt_values_supported is Some
    }

    /// The prompts that the authorization server supports; none where its
    /// metadata could not be had.
    pub open spec fn supported_oidc_prompts(self) -> Seq<OidcPrompt> {
        match self.prompt_values_supported {
            Some(values) => prompts_of(values@),
            None => Seq::empty(),
        }
    }

    /// Whether the homeserver lists login with a password.
    pub open spec fn supports_password_login(self) -> bool {
        offers(self.login_types, LoginType::Password)
    }

    /// Whether the homeserver lists login through single sign-on.
    pub open spec fn supports_sso_login(self) -> bool {
        offers(self.login_types, LoginType::Sso)
    }
}

/// Whether `wanted` is among the login types.
fn lists(login_types: &Option<Vec<LoginType>>, wanted: LoginType) -> (r: bool)
    ensures
        r == offers(*login_types, wanted),
{
    match login_types {
        Some(listed) => {
            let mut i: usize = 0;
            while i < listed.len()
                invariant
                    *login_types == Some(*listed),
                    i <= listed@.len(),
                    forall|j: int| 0 <= j < i ==> listed@[j] != wanted,
                decreases listed@.len() - i,
            {
                if listed[i] == wanted {
                    assert(listed@[i as int] == wanted);
                    return true;
                }
                i += 1;
            }
            false
        },
        None => false,
    }
}

/// Reads each value of a list as a prompt.
fn read_prompts(values: &Vec<String>) -> (r: Vec<OidcPrompt>)
    ensures
        r@ == prompts_of(values@),
{
    let mut prompts: Vec<OidcPrompt> = Vec::new();
    let mut i: usize = 0;
    while i < values.len()
        invariant
            i <= values@.len(),
            prompts@ == prompts_of(values@.take(i as int)),
        decreases values@.len() - i,
    {
        let prompt = OidcPrompt::from(values[i].clone());
        prompts.push(prompt);
        assert(prompts@ == prompts_of(values@.take(i + 1)));
        i += 1;
    }
    assert(values@.take(i as int) == values@);
    prompts
}

/// Sums up what discovery found. A part that could not be had counts as a
/// capability that is not there: no OIDC login and no prompts without the
/// metadata, neither password nor single sign-on without the login types.
pub fn homeserver_login_details(discovery: ServerDiscovery) -> (r: HomeserverLoginDetails)
    ensures
        r.url == discovery.homeserver,
        r.sliding_sync_version == discovery.sliding_sync_version,
        r.supports_oidc_login == discovery.supports_oidc_login(),
        r.supported_oidc_prompts@ == discovery.supported_oidc_prompts(),
        r.supports_sso_login == discovery.supports_sso_login(),
        r.supports_password_login == discovery.supports_password_login(),
{
    let (supports_oidc_login, supported_oidc_prompts) = match &discovery.prompt_values_supported {
        Some(values) => (true, read_prompts(values)),
        None => (false, Vec::new()),
    };
    let supports_password_login = lists(&discovery.login_types, LoginType::Password);
    let supports_sso_login = lists(&discovery.login_types, LoginType::Sso);
    HomeserverLoginDetails {
        url: discovery.homeserver,
        sliding_sync_version: discovery.sliding_sync_version,
        supports_oidc_login,
        supported_oidc_prompts,
        supports_sso_login,
        supports_password_login,
    }
}

} // verus!
