use download::{DlErr, Source};

#[test]
fn not_a_url_is_refused() {
    assert!(matches!(
        Source::parse("not a url"),
        Err(DlErr::UrlErr(url::ParseError::RelativeUrlWithoutBase))
    ));
}

#[test]
fn empty_string_is_refused() {
    assert!(matches!(
        Source::parse(""),
        Err(DlErr::UrlErr(url::ParseError::RelativeUrlWithoutBase))
    ));
}

#[test]
fn missing_host_is_refused() {
    assert!(matches!(
        Source::parse("https://"),
        Err(DlErr::UrlErr(url::ParseError::EmptyHost))
    ));
}

#[test]
fn bad_port_is_refused() {
    assert!(matches!(
        Source::parse("http://example.net:99999/"),
        Err(DlErr::UrlErr(url::ParseError::InvalidPort))
    ));
}

#[test]
fn serialized_url_is_kept() {
    let source = Source::parse("https://example.net/a/b?c=d").unwrap();
    assert_eq!(source.as_str(), "https://example.net/a/b?c=d");
}

#[test]
fn url_is_normalized() {
    let source = Source::parse("HTTP://EXAMPLE.net/a/../b").unwrap();
    assert_eq!(source.as_str(), "http://example.net/b");
    let source = Source::parse("https://example.net").unwrap();
    assert_eq!(source.as_str(), "https://example.net/");
}

#[test]
fn equal_urls_make_equal_sources() {
    assert_eq!(
        Source::parse("https://example.net").unwrap(),
        Source::parse("https://EXAMPLE.net/").unwrap()
    );
}
