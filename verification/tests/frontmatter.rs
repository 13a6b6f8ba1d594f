use zond::content::Page;
use zond::error::Error;
use zond::frontmatter::{has_delimiter, join_document, split_document};

#[test]
fn split_at_the_delimiter_line() {
    let (header, body) = split_document("Meta(title: \"x\")\n---\nHello\nworld\n");
    assert_eq!(header, "Meta(title: \"x\")");
    assert_eq!(body, "Hello\nworld");
}

#[test]
fn split_takes_the_first_delimiter_only() {
    let (header, body) = split_document("a\n---\nb\n---\nc");
    assert_eq!(header, "a");
    assert_eq!(body, "b\n---\nc");
}

#[test]
fn split_without_delimiter_is_all_header() {
    let (header, body) = split_document("  just text --- here\n");
    assert_eq!(header, "just text --- here");
    assert_eq!(body, "");
}

#[test]
fn split_needs_the_line_to_be_exactly_the_delimiter() {
    let (header, body) = split_document("a\n----\nb\n --- \nc\n---x\nd");
    assert_eq!(header, "a\n----\nb\n --- \nc\n---x\nd");
    assert_eq!(body, "");
}

#[test]
fn split_with_delimiter_first_and_last() {
    assert_eq!(split_document("---\nbody"), (String::new(), String::from("body")));
    assert_eq!(split_document("head\n---"), (String::from("head"), String::new()));
    assert_eq!(split_document("---"), (String::new(), String::new()));
    assert_eq!(split_document(""), (String::new(), String::new()));
}

#[test]
fn join_puts_the_delimiter_between() {
    assert_eq!(join_document("Meta()", "body"), "Meta()\n---\nbody");
}

#[test]
fn round_trip_gives_back_header_and_trimmed_body() {
    let header = "Meta(\n    title: \"Hello\",\n    tags: [],\n)";
    for body in ["", "text", "  text with blanks \n\n", "a\n---\nb", "---"] {
        let (h, b) = split_document(&join_document(header, body));
        assert_eq!(h, header.trim());
        assert_eq!(b, body.trim());
    }
}

#[test]
fn page_split_and_to_disk_round_trip() {
    let (header, body) = Page::split("Meta(title: \"t\")\n---\n\n  The body.  \n");
    let mut page = Page::default();
    page.content = body;
    let saved = page.to_disk(&header).unwrap();
    assert_eq!(saved, "Meta(title: \"t\")\n---\nThe body.");
    assert_eq!(Page::split(&saved), (header, String::from("The body.")));
}

#[test]
fn a_header_with_a_delimiter_line_is_refused() {
    let mut page = Page::default();
    page.content = String::from("body");
    assert!(matches!(page.to_disk("a\n---\nb"), Err(Error::FormatError)));
    assert!(matches!(page.to_disk("---"), Err(Error::FormatError)));
    assert_eq!(page.to_disk("a\n ---\nb").unwrap(), "a\n ---\nb\n---\nbody");
}

#[test]
fn a_saved_page_reads_back_for_every_body() {
    let header = "Meta(\n    title: \"t\",\n)";
    for body in ["", "---", "a\n---\nb", "  text \n", "\n---", "---\n---\n"] {
        let mut page = Page::default();
        page.content = String::from(body);
        let saved = page.to_disk(header).unwrap();
        assert_eq!(Page::split(&saved), (String::from(header), String::from(body.trim())));
    }
}

#[test]
fn delimiter_lines_are_found() {
    assert!(has_delimiter("---"));
    assert!(has_delimiter("a\n---"));
    assert!(has_delimiter("---\nb"));
    assert!(!has_delimiter("----"));
    assert!(!has_delimiter("a---\n--- \n"));
    assert!(!has_delimiter(""));
}
