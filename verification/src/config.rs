//! The configuration of one OIDC authorization attempt, and the registration
//! request that is made of it.
//!
//! A configuration holds its URIs as texts. `OidcConfiguration::parse` reads
//! each text as a URL; all that is decided afterwards (whether the
//! configuration is valid, what the client metadata says, which static
//! registrations can be used) is decided on a `ParsedConfiguration`, where
//! every URI is the URL that was read or is marked as unreadable.

use crate::error::OidcError;
use crate::uri::{uri_view, url_parse, Uri};
use vstd::prelude::*;

verus! {

/// The kind of application that registers.
#[derive(Clone, Copy, Debug, PartialEq, Eq, Structural)]
pub enum ApplicationType {
    /// A web application.
    Web,
    /// A native application.
    Native,
}

/// A grant type that the client will use at the token endpoint.
#[derive(Debug, PartialEq, Eq)]
pub enum OAuthGrantType {
    /// The authorization code grant, with the URIs to redirect to.
    AuthorizationCode { redirect_uris: Vec<Uri> },
    /// The device authorization grant.
    DeviceCode,
}

/// A value for display, with its translations by language tag.
#[derive(Debug, PartialEq, Eq)]
pub struct Localized<T> {
    pub non_localized: T,
    pub localized: Vec<(String, T)>,
}

impl<T> Localized<T> {
    /// The value alone, in no translation.
    pub fn new(non_localized: T) -> (r: Self)
        ensures
            r.non_localized == non_localized,
            r.localized@.len() == 0,
    {
        Localized { non_localized, localized: Vec::new() }
    }
}

/// What a client says of itself when it registers with an authorization
/// server.
#[derive(Debug, PartialEq, Eq)]
pub struct ClientMetadata {
    pub application_type: ApplicationType,
    pub grant_types: Vec<OAuthGrantType>,
    pub client_uri: Localized<Uri>,
    pub client_name: Option<Localized<String>>,
    pub logo_uri: Option<Localized<Uri>>,
    pub policy_uri: Option<Localized<Uri>>,
    pub tos_uri: Option<Localized<Uri>>,
}

/// A client identifier that an issuer has given out beforehand.
#[derive(Debug, PartialEq, Eq)]
pub struct StaticRegistration {
    pub issuer: Uri,
    pub client_id: String,
}

/// All that is needed to register a client: its metadata for a live
/// registration, and the identifiers it already has with some issuers.
#[derive(Debug, PartialEq, Eq)]
pub struct ClientRegistrationData {
    pub metadata: ClientMetadata,
    pub static_registrations: Option<Vec<StaticRegistration>>,
}

/// The configuration to use when authenticating with OIDC.
#[derive(Debug, PartialEq, Eq)]
pub struct OidcConfiguration {
    /// The name of the client that will be shown during OIDC authentication.
    pub client_name: Option<String>,
    /// The redirect URI that will be used when OIDC authentication is
    /// successful.
    pub redirect_uri: String,
    /// A URI that contains information about the client.
    pub client_uri: String,
    /// A URI that contains the client's logo.
    pub logo_uri: Option<String>,
    /// A URI that contains the client's terms of service.
    pub tos_uri: Option<String>,
    /// A URI that contains the client's privacy policy.
    pub policy_uri: Option<String>,
    /// Registrations made beforehand, for homeservers that do not register
    /// clients on request: the URL of a homeserver or of an issuer, and the
    /// client identifier it gave.
    pub static_registrations: Vec<(String, String)>,
}

/// A configuration whose URIs have been read. A URI that the configuration
/// must have is the URL that its text reads as, or `None` where the text
/// reads as no URL. One that it may have is `None` where the configuration
/// has none, and else what its text reads as. A static registration has its
/// issuer read in the same way.
#[derive(Debug, PartialEq, Eq)]
pub struct ParsedConfiguration {
    pub client_name: Option<String>,
    pub redirect_uri: Option<Uri>,
    pub client_uri: Option<Uri>,
    pub logo_uri: Option<Option<Uri>>,
    pub tos_uri: Option<Option<Uri>>,
    pub policy_uri: Option<Option<Uri>>,
    pub static_registrations: Vec<(Option<Uri>, String)>,
}

/// A `ParsedConfiguration` as plain texts.
pub struct ParsedConfigurationView {
    pub client_name: Option<Seq<char>>,
    pub redirect_uri: Option<Seq<char>>,
    pub client_uri: Option<Seq<char>>,
    pub logo_uri: Option<Option<Seq<char>>>,
    pub tos_uri: Option<Option<Seq<char>>>,
    pub policy_uri: Option<Option<Seq<char>>>,
    pub static_registrations: Seq<(Option<Seq<char>>, Seq<char>)>,
}

/// The text of a string that may be there.
pub open spec fn text_view(text: Option<String>) -> Option<Seq<char>> {
    match text {
        Some(t) => Some(t@),
        None => None,
    }
}

/// The serialization of a URI that a configuration may have.
pub open spec fn optional_uri_view(uri: Option<Option<Uri>>) -> Option<Option<Seq<char>>> {
    match uri {
        Some(read) => Some(uri_view(read)),
        None => None,
    }
}

/// A static registration with its issuer read, as plain texts.
pub open spec fn parsed_registration_view(entry: (Option<Uri>, String)) -> (
    Option<Seq<char>>,
    Seq<char>,
) {
    (uri_view(entry.0), entry.1@)
}

/// What a text that may be there reads as.
pub open spec fn parse_if_present(text: Option<String>) -> Option<Option<Seq<char>>> {
    match text {
        Some(t) => Some(url_parse(t@)),
        None => None,
    }
}

/// A static registration with what its issuer reads as.
pub open spec fn parse_registration(entry: (String, String)) -> (Option<Seq<char>>, Seq<char>) {
    (url_parse(entry.0@), entry.1@)
}

/// A static registration as it can be used: with the URL of its issuer, if
/// the issuer was read as one.
pub open spec fn usable(entry: (Option<Seq<char>>, Seq<char>)) -> Option<(Seq<char>, Seq<char>)> {
    match entry.0 {
        Some(issuer) => Some((issuer, entry.1)),
        None => None,
    }
}

/// The issuer and the client identifier of a static registration.
pub open spec fn registration_view(registration: StaticRegistration) -> (Seq<char>, Seq<char>) {
    (registration.issuer@, registration.client_id@)
}

/// Whether `field` is the URL `url`, in no translation.
pub open spec fn shows(field: Localized<Uri>, url: Seq<char>) -> bool {
    field.non_localized@ == url && field.localized@.len() == 0
}

/// Whether `field` is there exactly when `url` is, as that URL in no
/// translation.
pub open spec fn shows_if_present(field: Option<Localized<Uri>>, url: Option<Option<Seq<char>>>) -> bool {
    match url {
        Some(Some(u)) => field matches Some(f) && shows(f, u),
        _ => field is None,
    }
}

/// Whether `field` is there exactly when `name` is, as that name in no
/// translation.
pub open spec fn names(field: Option<Localized<String>>, name: Option<Seq<char>>) -> bool {
    match name {
        Some(n) => field matches Some(f) && f.non_localized@ == n && f.localized@.len() == 0,
        None => field is None,
    }
}

/// Whether `grants` are the authorization code grant with `redirect` as its
/// one redirect URI, and then the device code grant.
pub open spec fn grants_for(grants: Seq<OAuthGrantType>, redirect: Seq<char>) -> bool {
    &&& grants.len() == 2
    &&& grants[0] matches OAuthGrantType::AuthorizationCode { redirect_uris }
    &&& redirect_uris@.len() == 1
    &&& redirect_uris@[0]@ == redirect
    &&& grants[1] is DeviceCode
}

impl View for ParsedConfiguration {
    type V = ParsedConfigurationView;

    open spec fn view(&self) -> ParsedConfigurationView {
        ParsedConfigurationView {
            client_name: text_view(self.client_name),
            redirect_uri: uri_view(self.redirect_uri),
            client_uri: uri_view(self.client_uri),
            logo_uri: optional_uri_view(self.logo_uri),
            tos_uri: optional_uri_view(self.tos_uri),
            policy_uri: optional_uri_view(self.policy_uri),
            static_registrations: self.static_registrations@.map_values(
                |entry: (Option<Uri>, String)| parsed_registration_view(entry),
            ),
        }
    }
}

impl ParsedConfigurationView {
    /// Whether client metadata can be made of the configuration: the redirect
    /// URI and the client URI were read as URLs, and so was each of the other
    /// three that is there.
    pub open spec fn valid(self) -> bool {
        &&& self.redirect_uri is Some
        &&& self.client_uri is Some
        &&& self.logo_uri != Some(None::<Seq<char>>)
        &&& self.policy_uri != Some(None::<Seq<char>>)
        &&& self.tos_uri != Some(None::<Seq<char>>)
    }

    /// Whether `metadata` is what the configuration, if it is valid, says of
    /// the client: a native application that uses the authorization code
    /// grant, with the redirect URI, and the device code grant, and that
    /// shows the name and the URIs of the configuration, each in no
    /// translation.
    pub open spec fn describes(self, metadata: ClientMetadata) -> bool {
        &&& metadata.application_type == ApplicationType::Native
        &&& grants_for(metadata.grant_types@, self.redirect_uri->0)
        &&& shows(metadata.client_uri, self.client_uri->0)
        &&& names(metadata.client_name, self.client_name)
        &&& shows_if_present(metadata.logo_uri, self.logo_uri)
        &&& shows_if_present(metadata.policy_uri, self.policy_uri)
        &&& shows_if_present(metadata.tos_uri, self.tos_uri)
    }

    /// The static registrations that can be used: those whose issuer was
    /// read as a URL, in their order.
    pub open spec fn usable_registrations(self) -> Seq<(Seq<char>, Seq<char>)> {
        self.static_registrations.filter_map(|entry: (Option<Seq<char>>, Seq<char>)| usable(entry))
    }

    /// Whether `data` is the registration that the configuration, if it is
    /// valid, asks for: its metadata and its usable static registrations, or
    /// no list of them at all where it has no static registration.
    pub open spec fn registers(self, data: ClientRegistrationData) -> bool {
        &&& self.describes(data.metadata)
        &&& if self.static_registrations.len() == 0 {
            data.static_registrations is None
        } else {
            &&& data.static_registrations matches Some(registrations)
            &&& registrations@.map_values(|r: StaticRegistration| registration_view(r))
                == self.usable_registrations()
        }
    }
}

/// Puts a URL that may be there up for display, in no translation.
fn localized(url: &Option<Option<Uri>>) -> (r: Option<Localized<Uri>>)
    ensures
        shows_if_present(r, optional_uri_view(*url)),
{
    match url {
        Some(Some(u)) => Some(Localized::new(u.clone())),
        _ => None,
    }
}

/// The registrations that can be used of a list whose issuers have been
/// read.
fn usable_registrations(entries: &Vec<(Option<Uri>, String)>) -> (r: Vec<StaticRegistration>)
    ensures
        r@.map_values(|r: StaticRegistration| registration_view(r)) == entries@.map_values(
            |entry: (Option<Uri>, String)| parsed_registration_view(entry),
        ).filter_map(|entry: (Option<Seq<char>>, Seq<char>)| usable(entry)),
{
    let ghost read = entries@.map_values(
        |entry: (Option<Uri>, String)| parsed_registration_view(entry),
    );
    let ghost usable_of = |entry: (Option<Seq<char>>, Seq<char>)| usable(entry);
    let mut registrations: Vec<StaticRegistration> = Vec::new();
    let mut i: usize = 0;
    while i < entries.len()
        invariant
            i <= entries@.len(),
            read == entries@.map_values(
                |entry: (Option<Uri>, String)| parsed_registration_view(entry),
            ),
            usable_of == |entry: (Option<Seq<char>>, Seq<char>)| usable(entry),
            registrations@.map_values(|r: StaticRegistration| registration_view(r)) == read.take(
                i as int,
            ).filter_map(usable_of),
        decreases entries@.len() - i,
    {
        proof {
            read.lemma_filter_map_take_succ(usable_of, i as int);
        }
        let ghost before = registrations@;
        let entry = &entries[i];
        match &entry.0 {
            Some(issuer) => {
                let registration = StaticRegistration {
                    issuer: issuer.clone(),
                    client_id: entry.1.clone(),
                };
                registrations.push(registration);
                assert(registrations@.map_values(|r: StaticRegistration| registration_view(r))
                    == before.map_values(|r: StaticRegistration| registration_view(r)) + seq![
                    registration_view(registration),
                ]);
            },
            None => {},
        }
        i += 1;
    }
    assert(read.take(i as int) == read);
    registrations
}

impl ParsedConfiguration {
    /// The redirect URI, if it was read as a URL.
    pub fn redirect_uri(&self) -> (r: Result<Uri, OidcError>)
        ensures
            match r {
                Ok(uri) => self@.redirect_uri == Some(uri@),
                Err(e) => self@.redirect_uri is None && e == OidcError::MetadataInvalid,
            },
    {
        match &self.redirect_uri {
            Some(uri) => Ok(uri.clone()),
            None => Err(OidcError::MetadataInvalid),
        }
    }

    /// The metadata to register the client with. One URI that was not read
    /// as a URL makes the whole configuration invalid: there is no metadata
    /// of the rest.
    pub fn client_metadata(&self) -> (r: Result<ClientMetadata, OidcError>)
        ensures
            match r {
                Ok(metadata) => self@.valid() && self@.describes(metadata),
                Err(e) => !self@.valid() && e == OidcError::MetadataInvalid,
            },
    {
        let (redirect_uri, client_uri) = match (&self.redirect_uri, &self.client_uri) {
            (Some(redirect_uri), Some(client_uri)) => (redirect_uri.clone(), client_uri.clone()),
            _ => {
                return Err(OidcError::MetadataInvalid);
            },
        };
        if matches!(self.logo_uri, Some(None)) || matches!(self.policy_uri, Some(None)) || matches!(
            self.tos_uri,
            Some(None)
        ) {
            return Err(OidcError::MetadataInvalid);
        }
        let client_name = match &self.client_name {
            Some(name) => Some(Localized::new(name.clone())),
            None => None,
        };
        let grant_types = vec![
            OAuthGrantType::AuthorizationCode { redirect_uris: vec![redirect_uri] },
            OAuthGrantType::DeviceCode,
        ];
        Ok(
            ClientMetadata {
                application_type: ApplicationType::Native,
                grant_types,
                client_uri: Localized::new(client_uri),
                client_name,
                logo_uri: localized(&self.logo_uri),
                policy_uri: localized(&self.policy_uri),
                tos_uri: localized(&self.tos_uri),
            },
        )
    }

    /// The registration to hand to the connection layer: the client metadata
    /// and, where the configuration has static registrations, those of them
    /// whose issuer was read as a URL. One whose issuer was not is passed
    /// over.
    pub fn registration_data(&self) -> (r: Result<ClientRegistrationData, OidcError>)
        ensures
            match r {
                Ok(data) => self@.valid() && self@.registers(data),
                Err(e) => !self@.valid() && e == OidcError::MetadataInvalid,
            },
    {
        let metadata = self.client_metadata()?;
        let static_registrations = if self.static_registrations.len() == 0 {
            None
        } else {
            Some(usable_registrations(&self.static_registrations))
        };
        Ok(ClientRegistrationData { metadata, static_registrations })
    }
}

impl OidcConfiguration {
    /// The configuration with each of its URIs as `url_parse` reads it.
    pub open spec fn parsed(self) -> ParsedConfigurationView {
        ParsedConfigurationView {
            client_name: text_view(self.client_name),
            redirect_uri: url_parse(self.redirect_uri@),
            client_uri: url_parse(self.client_uri@),
            logo_uri: parse_if_present(self.logo_uri),
            tos_uri: parse_if_present(self.tos_uri),
            policy_uri: parse_if_present(self.policy_uri),
            static_registrations: self.static_registrations@.map_values(
                |entry: (String, String)| parse_registration(entry),
            ),
        }
    }

    /// Reads every URI of the configuration.
    pub fn parse(&self) -> (r: ParsedConfiguration)
        ensures
            r@ == self.parsed(),
    {
        let mut static_registrations: Vec<(Option<Uri>, String)> = Vec::new();
        let mut i: usize = 0;
        while i < self.static_registrations.len()
            invariant
                i <= self.static_registrations@.len(),
                static_registrations@.map_values(
                    |entry: (Option<Uri>, String)| parsed_registration_view(entry),
                ) == self.static_registrations@.take(i as int).map_values(
                    |entry: (String, String)| parse_registration(entry),
                ),
            decreases self.static_registrations@.len() - i,
        {
            let ghost before = static_registrations@;
            let entry = &self.static_registrations[i];
            let parsed = (Uri::parse(entry.0.as_str()), entry.1.clone());
            static_registrations.push(parsed);
            proof {
                let taken = self.static_registrations@.take(i + 1);
                assert(taken.drop_last() == self.static_registrations@.take(i as int));
                assert(taken.last() == *entry);
                assert(parsed_registration_view(parsed) == parse_registration(*entry));
                assert(static_registrations@.map_values(
                    |entry: (Option<Uri>, String)| parsed_registration_view(entry),
                ) == before.map_values(
                    |entry: (Option<Uri>, String)| parsed_registration_view(entry),
                ).push(parsed_registration_view(parsed)));
                assert(taken.map_values(|entry: (String, String)| parse_registration(entry))
                    == taken.drop_last().map_values(
                    |entry: (String, String)| parse_registration(entry),
                ).push(parse_registration(taken.last())));
            }
            i += 1;
        }
        assert(self.static_registrations@.take(i as int) == self.static_registrations@);
        ParsedConfiguration {
            client_name: self.client_name.clone(),
            redirect_uri: Uri::parse(self.redirect_uri.as_str()),
            client_uri: Uri::parse(self.client_uri.as_str()),
            logo_uri: parse_optional(&self.logo_uri),
            tos_uri: parse_optional(&self.tos_uri),
            policy_uri: parse_optional(&self.policy_uri),
            static_registrations,
        }
    }

    /// The redirect URI of the configuration, read as a URL.
    pub fn redirect_uri(&self) -> (r: Result<Uri, OidcError>)
        ensures
            match r {
                Ok(uri) => url_parse(self.redirect_uri@) == Some(uri@),
                Err(e) => url_parse(self.redirect_uri@) is None && e == OidcError::MetadataInvalid,
            },
    {
        self.parse().redirect_uri()
    }

    /// The metadata to register the client with. One URI that does not read
    /// as a URL makes the whole configuration invalid: there is no metadata
    /// of the rest.
    pub fn client_metadata(&self) -> (r: Result<ClientMetadata, OidcError>)
        ensures
            match r {
                Ok(metadata) => self.parsed().valid() && self.parsed().describes(metadata),
                Err(e) => !self.parsed().valid() && e == OidcError::MetadataInvalid,
            },
    {
        self.parse().client_metadata()
    }

    /// The registration to hand to the connection layer: the client metadata
    /// and, where the configuration has static registrations, those of them
    /// whose issuer reads as a URL. One whose issuer does not is passed over.
    pub fn registration_data(&self) -> (r: Result<ClientRegistrationData, OidcError>)
        ensures
            match r {
                Ok(data) => self.parsed().valid() && self.parsed().registers(data),
                Err(e) => !self.parsed().valid() && e == OidcError::MetadataInvalid,
            },
    {
        self.parse().registration_data()
    }
}

/// A configuration with one URI that does not read as a URL is not valid,
/// whichever of the five it is and whatever the others are.
pub proof fn lemma_one_unreadable_uri_invalidates(configuration: OidcConfiguration)
    requires
        ({
            ||| url_parse(configuration.redirect_uri@) is None
            ||| url_parse(configuration.client_uri@) is None
            ||| configuration.logo_uri matches Some(text) && url_parse(text@) is None
            ||| configuration.policy_uri matches Some(text) && url_parse(text@) is None
            ||| configuration.tos_uri matches Some(text) && url_parse(text@) is None
        }),
    ensures
        !configuration.parsed().valid(),
{
}

/// Reads a text that may be there as a URL.
fn parse_optional(text: &Option<String>) -> (r: Option<Option<Uri>>)
    ensures
        optional_uri_view(r) == parse_if_present(*text),
{
    match text {
        Some(t) => Some(Uri::parse(t.as_str())),
        None => None,
    }
}

} // verus!
