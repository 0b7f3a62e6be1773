//! Absolute URLs, as the `url` crate reads them.

use vstd::prelude::*;

verus! {

/// `url::ParseError`, the error of `url::Url::parse`: taken as it comes,
/// with nothing known of what is in it.
#[verifier::external_type_specification]
#[verifier::external_body]
pub struct ExParseError(url::ParseError);

/// What `url::Url::parse` makes of a text: the serialization of the URL that
/// it reads there, or nothing where it reads none.
pub uninterp spec fn url_parse(text: Seq<char>) -> Option<Seq<char>>;

/// `url::Url::parse`, with the URL handed back as its serialization
/// (`String::from` on a `Url`). Not proved: that the outcome is the one that
/// `url_parse` names for the text, which says no more than that the crate
/// reads the same text the same way every time.
#[verifier::external_body]
fn parse_url(text: &str) -> (r: Result<String, url::ParseError>)
    ensures
        match r {
            Ok(serialization) => url_parse(text@) == Some(serialization@),
            Err(_) => url_parse(text@) is None,
        },
{
    match url::Url::parse(text) {
        Ok(url) => Ok(String::from(url)),
        Err(error) => Err(error),
    }
}

/// An absolute URL, held as its serialization.
#[derive(Debug, PartialEq, Eq)]
pub struct Uri {
    serialization: String,
}

impl View for Uri {
    type V = Seq<char>;

    closed spec fn view(&self) -> Seq<char> {
        self.serialization@
    }
}

impl Clone for Uri {
    fn clone(&self) -> (r: Self)
        ensures
            r@ == self@,
    {
        Uri { serialization: self.serialization.clone() }
    }
}

impl Uri {
    /// Reads `text` as an absolute URL.
    pub fn parse(text: &str) -> (r: Option<Uri>)
        ensures
            uri_view(r) == url_parse(text@),
    {
        match parse_url(text) {
            Ok(serialization) => Some(Uri { serialization }),
            Err(_) => None,
        }
    }

    /// The serialization of the URL.
    pub fn as_str(&self) -> (r: &str)
        ensures
            r@ == self@,
    {
        self.serialization.as_str()
    }

    /// The serialization of the URL, for keeps.
    pub fn into_string(self) -> (r: String)
        ensures
            r@ == self@,
    {
        self.serialization
    }
}

/// The serialization of a URL that may be there.
pub open spec fn uri_view(uri: Option<Uri>) -> Option<Seq<char>> {
    match uri {
        Some(u) => Some(u@),
        None => None,
    }
}

} // verus!
