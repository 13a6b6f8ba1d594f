use zond::config::{Config, DisplayDate, Feed, License, Person};
use zond::error::Error;

#[test]
fn license_names() {
    assert_eq!(License::CcBy.to_string(), "CC BY");
    assert_eq!(License::CcBySa.to_string(), "CC BY-SA");
    assert_eq!(License::CcByNc.to_string(), "CC BY-NC");
    assert_eq!(License::CcByNcSa.to_string(), "CC BY-NC-SA");
    assert_eq!(License::CcByNd.to_string(), "CC BY-ND");
    assert_eq!(License::CcByNcNd.to_string(), "CC BY-NC-ND");
    assert_eq!(License::CcZero.to_string(), "CC Zero");
    assert_eq!(License::Other(String::from("WTFPL")).to_string(), "WTFPL");
}

#[test]
fn license_from_words() {
    assert!(matches!(License::from("CcBy"), License::CcBy));
    assert!(matches!(License::from("ccbysa"), License::CcBySa));
    assert!(matches!(License::from("CcByNc"), License::CcByNc));
    assert!(matches!(License::from("ccbyncsa"), License::CcByNcSa));
    assert!(matches!(License::from("CcByNd"), License::CcByNd));
    assert!(matches!(License::from("ccbyncnd"), License::CcByNcNd));
    assert!(matches!(License::from("cc0"), License::CcZero));
    assert!(matches!(License::from("Cc0"), License::CcZero));
    assert!(matches!(License::from("cczero"), License::CcZero));
    match License::from("MIT") {
        License::Other(s) => assert_eq!(s, "MIT"),
        _ => panic!("a word of its own is a license of its own"),
    }
    match License::from("CCBY") {
        License::Other(s) => assert_eq!(s, "CCBY"),
        _ => panic!("the words are case sensitive"),
    }
}

#[test]
fn display_date_from_words() {
    assert_eq!(DisplayDate::from_str("always").unwrap(), DisplayDate::Always);
    assert_eq!(DisplayDate::from_str("Always").unwrap(), DisplayDate::Always);
    for word in ["gemlogonly", "gemlog", "gemlog_only", "GemlogOnly", "Gemlog"] {
        assert_eq!(DisplayDate::from_str(word).unwrap(), DisplayDate::GemlogOnly);
    }
    assert_eq!(DisplayDate::from_str("never").unwrap(), DisplayDate::Never);
    assert_eq!(DisplayDate::from_str("Never").unwrap(), DisplayDate::Never);
}

#[test]
fn display_date_refuses_other_words() {
    assert!(matches!(DisplayDate::from_str("sometimes"), Err(Error::ParseEnumError)));
    assert!(matches!(DisplayDate::from_str(""), Err(Error::ParseEnumError)));
}

#[test]
fn defaults() {
    let cfg = Config::default();
    assert_eq!(cfg.title, "");
    assert_eq!(cfg.entries, 0);
    assert_eq!(cfg.display_date, DisplayDate::GemlogOnly);
    assert!(cfg.feed.is_none());
    assert!(cfg.license.is_none());
    assert!(!cfg.show_email);
    assert!(cfg.footer_links.is_empty());
    assert_eq!(Feed::default(), Feed::Atom);
    assert_eq!(DisplayDate::default(), DisplayDate::GemlogOnly);
    let p = Person::default();
    assert_eq!(p.name, "");
    assert!(p.email.is_none() && p.url.is_none());
}

#[test]
fn url_of_a_domain() {
    let mut cfg = Config::default();
    cfg.domain = String::from("example.com");
    assert_eq!(cfg.url().unwrap(), "gemini://example.com");
}

#[test]
fn url_with_a_base_path() {
    let mut cfg = Config::default();
    cfg.domain = String::from("example.com");
    cfg.path = Some(String::from("~jane/capsule"));
    assert_eq!(cfg.url().unwrap(), "gemini://example.com/~jane/capsule");
}

#[test]
fn url_refuses_a_domain_that_is_none() {
    let mut cfg = Config::default();
    cfg.domain = String::from("exa mple.com:port");
    assert!(matches!(cfg.url(), Err(Error::UrlError(_))));
}

#[test]
fn error_messages() {
    assert_eq!(Error::FormatError.message(), "Format error");
    assert_eq!(Error::PathPrefixError.message(), "Path prefix error");
    assert_eq!(Error::ParseBoolError.message(), "Parse bool error");
    assert_eq!(Error::ParseIntError.message(), "Parse int error");
    assert_eq!(Error::ParseEnumError.message(), "Parse enum error");
    assert_eq!(Error::EditorError(String::from("no editor")).message(), "no editor");
    assert_eq!(Error::OtherError(String::from("Missing title")).message(), "Missing title");
}

#[test]
fn errors_from_their_causes() {
    assert!(matches!(Error::from(String::from("oops")), Error::OtherError(s) if s == "oops"));
    let time = chrono::DateTime::parse_from_rfc3339("no date").unwrap_err();
    assert!(matches!(Error::from(time), Error::TimeError(e) if e == time));
    let url = url::Url::parse("no url").unwrap_err();
    assert!(matches!(Error::from(url), Error::UrlError(e) if e == url));
    assert_eq!(Error::from(time).message(), time.to_string());
    assert_eq!(Error::from(url).message(), "relative URL without a base");
}
