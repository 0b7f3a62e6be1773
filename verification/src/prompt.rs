//! The prompt values of OIDC: what the authorization server is asked to put
//! before the user.

use vstd::prelude::*;
use vstd::std_specs::convert::FromSpecImpl;

verus! {

/// The user experience that is asked of the authorization server.
#[derive(Debug, PartialEq, Eq)]
pub enum OidcPrompt {
    /// The server should prompt the user to create an account.
    Create,
    /// The server should prompt the user to authenticate again.
    Login,
    /// The server should prompt the user for consent before it returns
    /// information to the client.
    Consent,
    /// A value that has no name here.
    Unknown { value: String },
}

/// The prompt that a value stands for.
pub open spec fn prompt_of(value: String) -> OidcPrompt {
    if value@ == "create"@ {
        OidcPrompt::Create
    } else if value@ == "consent"@ {
        OidcPrompt::Consent
    } else if value@ == "login"@ {
        OidcPrompt::Login
    } else {
        OidcPrompt::Unknown { value }
    }
}

/// Whether `value` spells `word`.
fn spells(value: &String, word: &str) -> (r: bool)
    ensures
        r == (value@ == word@),
{
    *value == word.to_owned()
}

impl From<String> for OidcPrompt {
    /// Reads a prompt value as an authorization server lists it.
    fn from(value: String) -> (r: OidcPrompt) {
        if spells(&value, "create") {
            OidcPrompt::Create
        } else if spells(&value, "consent") {
            OidcPrompt::Consent
        } else if spells(&value, "login") {
            OidcPrompt::Login
        } else {
            OidcPrompt::Unknown { value }
        }
    }
}

impl FromSpecImpl<String> for OidcPrompt {
    open spec fn obeys_from_spec() -> bool {
        true
    }

    open spec fn from_spec(value: String) -> OidcPrompt {
        prompt_of(value)
    }
}

impl OidcPrompt {
    /// The value that stands for this prompt in a request.
    pub open spec fn value(self) -> Seq<char> {
        match self {
            OidcPrompt::Create => "create"@,
            OidcPrompt::Login => "login"@,
            OidcPrompt::Consent => "consent"@,
            OidcPrompt::Unknown { value } => value@,
        }
    }

    /// The value that stands for this prompt in a request.
    pub fn as_str(&self) -> (r: &str)
        ensures
            r@ == self.value(),
    {
        match self {
            OidcPrompt::Create => "create",
            OidcPrompt::Login => "login",
            OidcPrompt::Consent => "consent",
            OidcPrompt::Unknown { value } => value.as_str(),
        }
    }
}

/// A value that is read as a prompt is written as the same value again.
pub proof fn lemma_value_survives_reading(value: String)
    ensures
        prompt_of(value).value() == value@,
{
}

/// A prompt that is written and read again is the same prompt, unless it is
/// an `Unknown` that holds one of the three values with a name.
pub proof fn lemma_prompt_survives_writing(prompt: OidcPrompt, written: String)
    requires
        written@ == prompt.value(),
        prompt matches OidcPrompt::Unknown { value } ==> value == written && value@ != "create"@
            && value@ != "consent"@ && value@ != "login"@,
    ensures
        prompt_of(written) == prompt,
{
    reveal_strlit("create");
    reveal_strlit("consent");
    reveal_strlit("login");
    if prompt is Login {
        assert("login"@.len() == 5);
        assert("create"@.len() == 6);
        assert("consent"@.len() == 7);
    }
    if prompt is Consent {
        assert("create"@.len() == 6);
        assert("consent"@.len() == 7);
    }
}

} // verus!
