use zond::error::Error;
use zond::urls::{join, parse, reference, with_path};

#[test]
fn parse_gives_the_normal_form() {
    assert_eq!(parse("GEMINI://Example.COM/a/../b").unwrap(), "gemini://Example.COM/b");
}

#[test]
fn parse_refuses_what_is_no_url() {
    assert!(matches!(parse("not a url"), Err(Error::UrlError(_))));
}

#[test]
fn with_path_replaces_the_path() {
    assert_eq!(
        with_path("gemini://example.com/old/path", "gemlog/hello world.gmi").unwrap(),
        "gemini://example.com/gemlog/hello%20world.gmi"
    );
}

#[test]
fn with_path_refuses_a_base_that_is_no_url() {
    assert!(matches!(with_path("nothing", "a"), Err(Error::UrlError(_))));
}

#[test]
fn join_resolves_against_the_base() {
    assert_eq!(join("gemini://example.com", "tags/").unwrap(), "gemini://example.com/tags/");
    assert_eq!(
        join("gemini://example.com/a/b.gmi", "gemlog/index.gmi").unwrap(),
        "gemini://example.com/a/gemlog/index.gmi"
    );
}

#[test]
fn reference_is_relative_within_one_host() {
    assert_eq!(
        reference("gemini://example.com/tags/", "gemini://example.com/gemlog/hello.gmi").unwrap(),
        "../gemlog/hello.gmi"
    );
    assert_eq!(
        reference("gemini://example.com/gemlog/index.gmi", "gemini://example.com/gemlog/hello.gmi")
            .unwrap(),
        "hello.gmi"
    );
}

#[test]
fn reference_falls_back_to_the_address_on_another_host() {
    assert_eq!(
        reference("gemini://example.com/", "gemini://other.org/page.gmi").unwrap(),
        "gemini://other.org/page.gmi"
    );
    assert_eq!(
        reference("gemini://example.com/", "https://example.com/page.gmi").unwrap(),
        "https://example.com/page.gmi"
    );
}

#[test]
fn reference_refuses_a_target_that_is_no_url() {
    assert!(matches!(reference("gemini://example.com/", "page.gmi"), Err(Error::UrlError(_))));
}

#[test]
fn with_path_refuses_a_path_that_is_too_long() {
    let long = "a".repeat(zond::urls::MAX_URL_PART + 1);
    assert!(matches!(with_path("gemini://example.com", &long), Err(Error::UrlError(url::ParseError::Overflow))));
    assert!(matches!(with_path(&long, "a"), Err(Error::UrlError(url::ParseError::Overflow))));
    let fits = "a".repeat(1000);
    assert_eq!(
        with_path("gemini://example.com", &fits).unwrap(),
        format!("gemini://example.com/{fits}")
    );
}
