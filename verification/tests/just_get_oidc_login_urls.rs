use hub::client::AuthorizationRequest;
use hub::config::{OidcConfiguration, ParsedConfiguration};
use hub::error::{ClientBuildError, ConnectionFailure, FailureCategory, OidcError};
use hub::just_get_oidc_login_urls::{
    ask_for_consent, authorized, begin, communicate, get_oidc_url, Error,
};
use hub::messages::{JustGetOidcUrls, JustOidcUrls};
use hub::prompt::OidcPrompt;
use hub::registry::SessionRegistry;
use hub::uri::Uri;

/// A connection that keeps what it was asked and answers as it was told to.
#[derive(Debug, PartialEq, Eq)]
struct Stub {
    asked: Vec<AuthorizationRequest>,
    answer: Result<String, FailureCategory>,
}

impl Stub {
    fn answering(answer: Result<&str, FailureCategory>) -> Stub {
        Stub { asked: vec![], answer: answer.map(|url| url.to_string()) }
    }

    fn authorize(&mut self, request: AuthorizationRequest) -> Result<String, ConnectionFailure> {
        self.asked.push(request);
        self.answer
            .clone()
            .map_err(|category| ConnectionFailure { category, message: "it failed".to_string() })
    }
}

/// Runs the flow as its caller does, with `connection` as what building the
/// connection came to.
fn run(
    clients: &mut SessionRegistry<Stub>,
    message: JustGetOidcUrls,
    connection: Result<Stub, ClientBuildError>,
) -> JustOidcUrls {
    let configuration = begin(clients, &message);
    let outcome = match get_oidc_url(connection, &configuration) {
        Ok((mut client, request)) => {
            let issued = client.authorize(request);
            authorized(client, issued)
        }
        Err(error) => Err(error),
    };
    communicate(clients, message.id, outcome)
}

fn message(id: &str, redirect_uri: &str) -> JustGetOidcUrls {
    JustGetOidcUrls {
        id: id.to_string(),
        name_or_homeserver_url: "efael.uz".to_string(),
        client_name: "Efael".to_string(),
        redirect_uri: redirect_uri.to_string(),
        client_uri: "https://efael.uz".to_string(),
        logo_uri: "https://efael.uz".to_string(),
        tos_uri: "https://efael.uz".to_string(),
        policy_uri: "https://efael.uz".to_string(),
    }
}

#[test]
fn test() {
    let url = "efael.uz".to_string();
    let oidc_configuration = &OidcConfiguration {
        client_name: Some("Efael".to_string()),
        redirect_uri: "uz.efael.app:/".to_string(),
        client_uri: "https://efael.uz".to_string(),
        logo_uri: Some("https://efael.uz".to_string()),
        tos_uri: Some("https://efael.uz".to_string()),
        policy_uri: Some("https://efael.uz".to_string()),
        static_registrations: Default::default(),
    };
    let url = get_oidc_url(Ok::<String, ClientBuildError>(url), oidc_configuration);

    assert!(url.is_ok());
}

#[test]
fn begin_lets_the_named_session_go_and_reads_the_configuration_off_the_message() {
    let mut clients: SessionRegistry<u8> = SessionRegistry::new();
    clients.insert("abc".to_string(), 1);
    clients.insert("other".to_string(), 2);
    let configuration = begin(&mut clients, &message("abc", "uz.efael.app:/"));
    assert_eq!(
        configuration,
        OidcConfiguration {
            client_name: Some("Efael".to_string()),
            redirect_uri: "uz.efael.app:/".to_string(),
            client_uri: "https://efael.uz".to_string(),
            logo_uri: Some("https://efael.uz".to_string()),
            tos_uri: Some("https://efael.uz".to_string()),
            policy_uri: Some("https://efael.uz".to_string()),
            static_registrations: vec![],
        }
    );
    assert!(!clients.contains("abc"));
    assert_eq!(clients.get("other"), Some(&2));
    assert_eq!(clients.len(), 1);
}

#[test]
fn begin_without_a_session_of_that_name_leaves_the_registry_alone() {
    let mut clients: SessionRegistry<u8> = SessionRegistry::new();
    clients.insert("other".to_string(), 2);
    begin(&mut clients, &message("abc", "uz.efael.app:/"));
    assert_eq!(clients.len(), 1);
    assert_eq!(clients.get("other"), Some(&2));
}

#[test]
fn request_oidc_url_always_asks_for_consent() {
    let mut clients: SessionRegistry<Stub> = SessionRegistry::new();
    let stub = Stub::answering(Ok("https://auth.efael.uz/authorize?state=1"));
    let response = run(&mut clients, message("abc", "uz.efael.app:/"), Ok(stub));
    assert_eq!(response.error, "");
    let session = clients.get("abc").expect("the session");
    assert_eq!(session.asked.len(), 1);
    assert_eq!(session.asked[0].prompt, Some(vec![OidcPrompt::Consent]));
    assert_eq!(session.asked[0].login_hint, None);
    assert_eq!(session.asked[0].device_id, None);
    assert_eq!(session.asked[0].redirect_uri.as_str(), "uz.efael.app:/");
}

#[test]
fn get_oidc_url_hands_the_connection_back_with_the_request() {
    let configuration = begin(&mut SessionRegistry::<u8>::new(), &message("abc", "uz.efael.app:/"));
    let (connection, request) =
        get_oidc_url(Ok::<u8, ClientBuildError>(7), &configuration).expect("a request");
    assert_eq!(connection, 7);
    assert_eq!(request.prompt, Some(vec![OidcPrompt::Consent]));
    assert_eq!(request.registration_data, configuration.registration_data().expect("valid"));
    assert_eq!(request.registration_data.static_registrations, None);
}

#[test]
fn get_oidc_url_without_a_connection_is_the_build_error() {
    let configuration = begin(&mut SessionRegistry::<u8>::new(), &message("abc", "not a url"));
    let failure = ClientBuildError { message: "no such server".to_string() };
    assert_eq!(
        get_oidc_url(Err::<u8, ClientBuildError>(failure), &configuration),
        Err(Error::Client(ClientBuildError { message: "no such server".to_string() }))
    );
}

#[test]
fn ask_for_consent_decides_on_what_was_read() {
    let parsed = |redirect_uri: Option<Uri>| ParsedConfiguration {
        client_name: None,
        redirect_uri,
        client_uri: Uri::parse("https://efael.uz"),
        logo_uri: None,
        tos_uri: None,
        policy_uri: None,
        static_registrations: vec![],
    };
    assert_eq!(
        ask_for_consent(Ok::<u8, ClientBuildError>(1), &parsed(None)),
        Err(Error::Oidc(OidcError::MetadataInvalid))
    );
    let (connection, request) =
        ask_for_consent(Ok::<u8, ClientBuildError>(1), &parsed(Uri::parse("uz.efael.app:/")))
            .expect("a request");
    assert_eq!(connection, 1);
    assert_eq!(request.prompt, Some(vec![OidcPrompt::Consent]));
}

#[test]
fn a_redirect_uri_that_is_no_url_is_answered_with_invalid_metadata() {
    let mut clients: SessionRegistry<Stub> = SessionRegistry::new();
    let stub = Stub::answering(Ok("https://auth.efael.uz/authorize"));
    let response = run(&mut clients, message("abc", "not a url"), Ok(stub));
    assert_eq!(
        response,
        JustOidcUrls {
            id: "abc".to_string(),
            url: "".to_string(),
            error: "Unable to use OIDC as the supplied client metadata is invalid.".to_string(),
        }
    );
    assert_eq!(clients.len(), 0);
}

#[test]
fn a_url_that_was_issued_is_answered_and_its_connection_registered() {
    let mut clients: SessionRegistry<Stub> = SessionRegistry::new();
    let stub = Stub::answering(Ok("https://auth.efael.uz/authorize?state=1"));
    let response = run(&mut clients, message("abc", "uz.efael.app:/"), Ok(stub));
    assert_eq!(
        response,
        JustOidcUrls {
            id: "abc".to_string(),
            url: "https://auth.efael.uz/authorize?state=1".to_string(),
            error: "".to_string(),
        }
    );
    assert_eq!(clients.len(), 1);
    assert!(clients.contains("abc"));
}

#[test]
fn a_retry_starts_afresh_with_a_new_connection() {
    let mut clients: SessionRegistry<Stub> = SessionRegistry::new();
    run(&mut clients, message("abc", "uz.efael.app:/"), Ok(Stub::answering(Ok("https://first/"))));
    let response = run(
        &mut clients,
        message("abc", "uz.efael.app:/"),
        Ok(Stub::answering(Ok("https://second/"))),
    );
    assert_eq!(response.url, "https://second/");
    assert_eq!(clients.len(), 1);
    let session = clients.get("abc").expect("the session");
    assert_eq!(session.answer, Ok("https://second/".to_string()));
    assert_eq!(session.asked.len(), 1);
}

#[test]
fn a_failed_retry_does_not_bring_the_old_session_back() {
    let mut clients: SessionRegistry<Stub> = SessionRegistry::new();
    run(&mut clients, message("abc", "uz.efael.app:/"), Ok(Stub::answering(Ok("https://first/"))));
    run(&mut clients, message("kept", "uz.efael.app:/"), Ok(Stub::answering(Ok("https://kept/"))));
    let response = run(
        &mut clients,
        message("abc", "uz.efael.app:/"),
        Ok(Stub::answering(Err(FailureCategory::DiscoveryNotSupported))),
    );
    assert_eq!(
        response,
        JustOidcUrls {
            id: "abc".to_string(),
            url: "".to_string(),
            error: "The homeserver doesn't provide an authentication issuer in its well-known configuration."
                .to_string(),
        }
    );
    assert!(!clients.contains("abc"));
    assert!(clients.contains("kept"));
    assert_eq!(clients.len(), 1);
}

#[test]
fn a_connection_that_was_not_built_is_answered_with_its_error() {
    let mut clients: SessionRegistry<Stub> = SessionRegistry::new();
    let failure = ClientBuildError { message: "no such server".to_string() };
    let response = run(&mut clients, message("abc", "uz.efael.app:/"), Err(failure));
    assert_eq!(
        response,
        JustOidcUrls {
            id: "abc".to_string(),
            url: "".to_string(),
            error: "no such server".to_string(),
        }
    );
    assert_eq!(clients.len(), 0);
}

#[test]
fn a_connection_that_was_not_built_comes_before_invalid_metadata() {
    let mut clients: SessionRegistry<Stub> = SessionRegistry::new();
    let failure = ClientBuildError { message: "no such server".to_string() };
    let response = run(&mut clients, message("abc", "not a url"), Err(failure));
    assert_eq!(response.error, "no such server");
}

#[test]
fn authorized_translates_a_failure_and_lets_the_connection_go() {
    let failure =
        ConnectionFailure { category: FailureCategory::Other, message: "boom".to_string() };
    assert_eq!(
        authorized(1u8, Err(failure)),
        Err(Error::Oidc(OidcError::Generic { message: "boom".to_string() }))
    );
    assert_eq!(authorized(1u8, Ok("https://a/".to_string())), Ok((1u8, "https://a/".to_string())));
}

#[test]
fn an_error_of_the_url_flow_reads_as_its_cause() {
    assert_eq!(
        Error::Oidc(OidcError::Cancelled).message(),
        "The OIDC login was cancelled by the user."
    );
    assert_eq!(
        Error::Oidc(OidcError::Generic { message: "boom".to_string() }).message(),
        "An error occurred: boom"
    );
    assert_eq!(Error::Client(ClientBuildError { message: "down".to_string() }).message(), "down");
}
