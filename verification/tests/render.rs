use zond::config::{Config, DisplayDate, Feed, License, Person};
use zond::content::{Meta, Page};
use zond::error::Error;
use zond::footer::{rights, write_footer};
use zond::link::Link;
use zond::time::Time;

fn config() -> Config {
    Config {
        title: String::from("My Capsule"),
        author: Person {
            name: String::from("Jane"),
            email: Some(String::from("jane@example.com")),
            url: None,
        },
        domain: String::from("example.com"),
        path: None,
        entries: 3,
        display_date: DisplayDate::GemlogOnly,
        feed: Some(Feed::Both),
        license: Some(License::CcBySa),
        show_email: true,
        footer_links: vec![Link {
            url: String::from("gemini://example.org"),
            display: String::from("Friends"),
        }],
    }
}

fn post() -> Page {
    Page {
        meta: Meta {
            title: String::from("Hello World"),
            summary: None,
            published: Some(Time::new(2024, 1, 1, 0, 0, 0)),
            tags: vec![String::from("intro")],
        },
        content: String::from("Hello!"),
    }
}

fn path(parts: &[&str]) -> Vec<String> {
    parts.iter().map(|p| String::from(*p)).collect()
}

const FOOTER: &str = "\nAll content for this site is licensed as CC BY-SA.\n© 2024 by Jane\n=> gemini://example.org Friends\n=> mailto:jane@example.com Contact\n";

#[test]
fn footer_with_everything() {
    let mut out = String::from("x");
    write_footer(&mut out, &config(), 2024);
    assert_eq!(out, format!("x{FOOTER}"));
}

#[test]
fn footer_with_nothing_but_the_rights() {
    let mut cfg = Config::default();
    cfg.author.name = String::from("Jane");
    let mut out = String::new();
    write_footer(&mut out, &cfg, 1999);
    assert_eq!(out, "\n© 1999 by Jane\n");
}

#[test]
fn footer_hides_the_email_unless_asked() {
    let mut cfg = config();
    cfg.show_email = false;
    cfg.license = None;
    cfg.footer_links.clear();
    let mut out = String::new();
    write_footer(&mut out, &cfg, 2024);
    assert_eq!(out, "\n© 2024 by Jane\n");
    cfg.show_email = true;
    cfg.author.email = None;
    let mut out = String::new();
    write_footer(&mut out, &cfg, 2024);
    assert_eq!(out, "\n© 2024 by Jane\n");
}

#[test]
fn rights_line() {
    assert_eq!(rights(2024, "Jane"), "© 2024 by Jane");
}

#[test]
fn link_line() {
    let link = Link { url: String::from("gemini://a.b/c"), display: String::from("See") };
    assert_eq!(link.to_string(), "=> gemini://a.b/c See");
}

#[test]
fn link_to_a_post() {
    let link = Link::get(&path(&["gemlog", "hello_world.gmi"]), &post().meta, &config()).unwrap();
    assert_eq!(link.url, "gemini://example.com/gemlog/hello_world.gmi");
    assert_eq!(link.display, "2024-01-01 - Hello World");
}

#[test]
fn link_fails_without_a_domain_that_parses() {
    let mut cfg = config();
    cfg.domain = String::from("bad domain");
    let r = Link::get(&path(&["a.gmi"]), &post().meta, &cfg);
    assert!(matches!(r, Err(Error::UrlError(_))));
}

#[test]
fn post_at_depth_two() {
    let text = post().write(&path(&["gemlog", "hello_world.gmi"]), 2, &None, &config()).unwrap();
    let expected = format!(
        "# Hello World\n### 2024-01-01\nHello!\n\n### Tags for this page\n=> ../tags/intro.gmi intro\n\n=> .. Home\n=> . All posts\n{FOOTER}"
    );
    assert_eq!(text, expected);
}

#[test]
fn page_at_depth_one_shows_no_date_by_default() {
    let mut page = post();
    page.meta.tags = vec![String::from("a"), String::from("b")];
    let text = page.write(&path(&["about.gmi"]), 1, &None, &config()).unwrap();
    let expected = format!(
        "# Hello World\nHello!\n\n### Tags for this page\n=> tags/a.gmi a\n=> tags/b.gmi b\n\n=> . Home\n{FOOTER}"
    );
    assert_eq!(text, expected);
}

#[test]
fn page_shows_its_date_where_always_asked() {
    let mut cfg = config();
    cfg.display_date = DisplayDate::Always;
    let mut page = post();
    page.meta.tags.clear();
    let text = page.write(&path(&["about.gmi"]), 1, &None, &cfg).unwrap();
    assert_eq!(text, format!("# Hello World\n### 2024-01-01\nHello!\n\n=> . Home\n{FOOTER}"));
}

#[test]
fn post_hides_its_date_where_never_asked() {
    let mut cfg = config();
    cfg.display_date = DisplayDate::Never;
    let mut page = post();
    page.meta.tags.clear();
    let text = page.write(&path(&["gemlog", "p.gmi"]), 2, &None, &cfg).unwrap();
    assert_eq!(text, format!("# Hello World\nHello!\n\n=> .. Home\n=> . All posts\n{FOOTER}"));
}

#[test]
fn page_at_depth_three_links_relatively() {
    let text = post().write(&path(&["a", "b", "c.gmi"]), 3, &None, &config()).unwrap();
    let expected = format!(
        "# Hello World\nHello!\n\n### Tags for this page\n=> ../../tags/intro.gmi intro\n\n=> ../.. Home\n{FOOTER}"
    );
    assert_eq!(text, expected);
}

#[test]
fn page_at_depth_three_without_tags_needs_no_address() {
    let mut cfg = config();
    cfg.domain = String::from("bad domain");
    let mut page = post();
    page.meta.tags.clear();
    let text = page.write(&path(&["a", "b", "c.gmi"]), 3, &None, &cfg).unwrap();
    assert_eq!(text, format!("# Hello World\nHello!\n\n=> ../.. Home\n{FOOTER}"));
    assert!(matches!(page.write(&path(&["a", "b", "c", "d.gmi"]), 4, &None, &cfg), Err(Error::UrlError(_))));
}

#[test]
fn page_at_depth_four_links_tags_by_address() {
    let text = post().write(&path(&["a", "b", "c", "d.gmi"]), 4, &None, &config()).unwrap();
    let expected = format!(
        "# Hello World\nHello!\n\n### Tags for this page\n=> gemini://example.com/tags/intro.gmi intro\n\n=> gemini://example.com Home\n{FOOTER}"
    );
    assert_eq!(text, expected);
}

#[test]
fn page_below_a_nested_gemlog_directory() {
    let mut page = post();
    page.meta.tags.clear();
    let text = page.write(&path(&["notes", "gemlog", "x.gmi"]), 3, &None, &config()).unwrap();
    assert_eq!(
        text,
        format!("# Hello World\nHello!\n\n=> ../.. Home\n=> . All posts\n{FOOTER}")
    );
}

#[test]
fn page_with_a_banner() {
    let mut page = post();
    page.meta.tags.clear();
    let banner = Some(String::from(" /\\_/\\\n( o.o )"));
    let text = page.write(&path(&["about.gmi"]), 1, &banner, &config()).unwrap();
    assert_eq!(
        text,
        format!("```\n /\\_/\\\n( o.o )\n```\n# Hello World\nHello!\n\n=> . Home\n{FOOTER}")
    );
}

#[test]
fn page_uses_the_year_of_publication_in_its_footer() {
    let mut page = post();
    page.meta.tags.clear();
    page.meta.published = Some(Time::new(1999, 12, 31, 23, 59, 59));
    let mut cfg = Config::default();
    cfg.author.name = String::from("Jane");
    let text = page.write(&path(&["about.gmi"]), 1, &None, &cfg).unwrap();
    assert_eq!(text, "# Hello World\nHello!\n\n=> . Home\n\n© 1999 by Jane\n");
}

#[test]
fn page_with_tags_needs_the_capsule_address() {
    let mut cfg = config();
    cfg.domain = String::from("bad domain");
    let r = post().write(&path(&["about.gmi"]), 1, &None, &cfg);
    assert!(matches!(r, Err(Error::UrlError(_))));
    let mut page = post();
    page.meta.tags.clear();
    assert!(page.write(&path(&["about.gmi"]), 1, &None, &cfg).is_ok());
}
