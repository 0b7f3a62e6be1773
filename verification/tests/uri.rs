use hub::uri::Uri;

#[test]
fn parse_reads_an_absolute_url() {
    let uri = Uri::parse("https://efael.uz").expect("an absolute URL");
    assert_eq!(uri.as_str(), "https://efael.uz/");
}

#[test]
fn parse_gives_the_serialization_of_the_url_crate() {
    let texts = [
        "https://efael.uz",
        "HTTPS://Example.COM:443/a/../b?x=1#top",
        "uz.efael.app:/",
        "uz.efael.app:/?state=kt-UW3AgpS0wQeG3Y98otA&code=5QQxgpV1SoJRnNfBiNDeaee2njCJNDz3",
        "http://matrix.org/path with space",
    ];
    for text in texts {
        let expected = url::Url::parse(text).expect("an absolute URL");
        let uri = Uri::parse(text).expect("an absolute URL");
        assert_eq!(uri.as_str(), expected.as_str());
    }
}

#[test]
fn parse_normalizes_what_it_reads() {
    let uri = Uri::parse("HTTPS://Example.COM:443/a/../b").expect("an absolute URL");
    assert_eq!(uri.as_str(), "https://example.com/b");
}

#[test]
fn parse_turns_down_what_is_no_absolute_url() {
    assert_eq!(Uri::parse("not a url"), None);
    assert_eq!(Uri::parse(""), None);
    assert_eq!(Uri::parse("/relative/path"), None);
    assert_eq!(Uri::parse("efael.uz"), None);
    assert_eq!(Uri::parse("https://"), None);
}

#[test]
fn a_custom_scheme_is_a_url() {
    let uri = Uri::parse("uz.efael.app:/").expect("an absolute URL");
    assert_eq!(uri.as_str(), "uz.efael.app:/");
}

#[test]
fn clone_and_into_string_keep_the_serialization() {
    let uri = Uri::parse("https://efael.uz").expect("an absolute URL");
    let copy = uri.clone();
    assert_eq!(copy, uri);
    assert_eq!(copy.as_str(), "https://efael.uz/");
    assert_eq!(uri.into_string(), "https://efael.uz/".to_string());
}
