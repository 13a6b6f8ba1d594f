use zond::capsule::{Capsule, Post};
use zond::config::{Config, DisplayDate, Feed, Person};
use zond::content::{Meta, Page};
use zond::error::Error;
use zond::link::Link;
use zond::time::Time;
use zond::traits::ToDisk;

fn config() -> Config {
    Config {
        title: String::from("My Capsule"),
        author: Person {
            name: String::from("Jane"),
            email: Some(String::from("jane@example.com")),
            url: Some(String::from("gemini://jane.example.com")),
        },
        domain: String::from("example.com"),
        path: None,
        entries: 2,
        display_date: DisplayDate::GemlogOnly,
        feed: Some(Feed::Atom),
        license: None,
        show_email: false,
        footer_links: Vec::new(),
    }
}

fn page(title: &str, year: i32, tags: &[&str]) -> Page {
    Page {
        meta: Meta {
            title: String::from(title),
            summary: Some(format!("About {title}")),
            published: Some(Time::new(year, 6, 7, 8, 9, 10)),
            tags: tags.iter().map(|t| String::from(*t)).collect(),
        },
        content: String::new(),
    }
}

fn capsule(cfg: &Config) -> Capsule {
    let mut c = Capsule::new(None);
    for (name, year, tags) in [("old", 2021, vec!["a"]), ("new", 2023, vec![]), ("mid", 2022, vec!["a", "b c"])] {
        let path = vec![String::from("gemlog"), format!("{name}.gmi")];
        c.add(cfg, &path, Some(page(name, year, &tags))).unwrap();
    }
    c
}

#[test]
fn categories_name_the_tag_pages() {
    let cfg = config();
    let topics = page("x", 2024, &["intro", "b c"]).meta.categories(&cfg).unwrap();
    assert_eq!(topics.len(), 2);
    assert_eq!(topics[0].term, "intro");
    assert_eq!(topics[0].label, "intro");
    assert_eq!(topics[0].scheme, "gemini://example.com/tags/intro.gmi");
    assert_eq!(topics[1].term, "b c");
    assert_eq!(topics[1].scheme, "gemini://example.com/tags/b%20c.gmi");
}

#[test]
fn categories_lie_below_the_base_path() {
    let mut cfg = config();
    cfg.path = Some(String::from("/~jane"));
    let topics = page("x", 2024, &["intro"]).meta.categories(&cfg).unwrap();
    assert_eq!(topics[0].scheme, "gemini://example.com/~jane/tags/intro.gmi");
}

#[test]
fn categories_fail_without_a_domain_that_parses() {
    let mut cfg = config();
    cfg.domain = String::from("bad domain");
    assert!(matches!(page("x", 2024, &["intro"]).meta.categories(&cfg), Err(Error::UrlError(_))));
    assert!(page("x", 2024, &[]).meta.categories(&cfg).unwrap().is_empty());
}

#[test]
fn entry_of_a_post() {
    let cfg = config();
    let post = Post {
        meta: page("Hello", 2024, &["intro"]).meta,
        link: Link { url: String::from("gemini://example.com/gemlog/hello.gmi"), display: String::from("d") },
    };
    let e = post.to_entry(&cfg).unwrap();
    assert_eq!(e.title, "Hello");
    assert_eq!(e.id, "gemini://example.com/gemlog/hello.gmi");
    assert_eq!(e.href, "gemini://example.com/gemlog/hello.gmi");
    assert_eq!(e.rel, "alternate");
    assert_eq!(e.updated, Time::new(2024, 6, 7, 8, 9, 10));
    assert_eq!(e.author.name, "Jane");
    assert_eq!(e.rights, "© 2024 by Jane");
    assert_eq!(e.summary.as_deref(), Some("About Hello"));
    assert_eq!(e.categories.len(), 1);
}

#[test]
fn entry_fails_on_an_impossible_date() {
    let cfg = config();
    let mut meta = page("Hello", 2024, &[]).meta;
    meta.published = Some(Time::new(2024, 2, 31, 0, 0, 0));
    let post = Post { meta, link: Link::default() };
    assert!(matches!(post.to_entry(&cfg), Err(Error::TimeError(_))));
}

#[test]
fn feed_lists_the_posts_newest_first() {
    let cfg = config();
    let feed = capsule(&cfg).to_feed(&cfg, 2030).unwrap();
    assert_eq!(feed.title, "My Capsule");
    assert_eq!(feed.id, "gemini://example.com");
    assert_eq!(feed.base, "gemini://example.com");
    assert_eq!(feed.author.name, "Jane");
    assert_eq!(feed.rights, "© 2023 by Jane");
    let titles: Vec<&str> = feed.entries.iter().map(|e| e.title.as_str()).collect();
    assert_eq!(titles, ["new", "mid", "old"]);
    let ids: Vec<&str> = feed.entries.iter().map(|e| e.id.as_str()).collect();
    assert_eq!(
        ids,
        [
            "gemini://example.com/gemlog/new.gmi",
            "gemini://example.com/gemlog/mid.gmi",
            "gemini://example.com/gemlog/old.gmi"
        ]
    );
    assert_eq!(feed.entries[1].rights, "© 2022 by Jane");
}

#[test]
fn feed_of_an_empty_capsule_takes_the_current_year() {
    let mut cfg = config();
    cfg.path = Some(String::from("cap"));
    let feed = Capsule::new(None).to_feed(&cfg, 2030).unwrap();
    assert_eq!(feed.rights, "© 2030 by Jane");
    assert_eq!(feed.id, "gemini://example.com/cap");
    assert!(feed.entries.is_empty());
}

#[test]
fn feed_fails_without_an_address() {
    let mut cfg = config();
    cfg.domain = String::from("bad domain");
    assert!(matches!(Capsule::new(None).to_feed(&cfg, 2030), Err(Error::UrlError(_))));
}

#[test]
fn atom_document_of_an_empty_capsule() {
    let cfg = config();
    let xml = Capsule::new(None).to_feed(&cfg, 2030).unwrap().to_disk().unwrap();
    assert_eq!(
        xml,
        "<?xml version=\"1.0\" encoding=\"UTF-8\"?>\n<feed xmlns=\"http://www.w3.org/2005/Atom\" xml:base=\"gemini://example.com\">\n  <title>My Capsule</title>\n  <id>gemini://example.com</id>\n  <updated>1970-01-01T00:00:00+00:00</updated>\n  <author>\n    <name>Jane</name>\n    <email>jane@example.com</email>\n    <uri>gemini://jane.example.com</uri>\n  </author>\n  <rights>© 2030 by Jane</rights>\n</feed>\n"
    );
}

#[test]
fn atom_document_with_one_entry_is_indented() {
    let cfg = config();
    let mut c = Capsule::new(None);
    let mut first = page("Hello <World>", 2024, &["intro"]);
    first.meta.published = Some(Time::new(2024, 1, 1, 0, 0, 0));
    c.add(&cfg, &vec![String::from("gemlog"), String::from("hello.gmi")], Some(first)).unwrap();
    let xml = c.to_feed(&cfg, 2030).unwrap().to_disk().unwrap();
    assert_eq!(
        xml,
        "<?xml version=\"1.0\" encoding=\"UTF-8\"?>\n<feed xmlns=\"http://www.w3.org/2005/Atom\" xml:base=\"gemini://example.com\">\n  <title>My Capsule</title>\n  <id>gemini://example.com</id>\n  <updated>1970-01-01T00:00:00+00:00</updated>\n  <author>\n    <name>Jane</name>\n    <email>jane@example.com</email>\n    <uri>gemini://jane.example.com</uri>\n  </author>\n  <rights>© 2024 by Jane</rights>\n  <entry>\n    <title>Hello &lt;World&gt;</title>\n    <id>gemini://example.com/gemlog/hello.gmi</id>\n    <updated>2024-01-01T00:00:00+00:00</updated>\n    <author>\n      <name>Jane</name>\n      <email>jane@example.com</email>\n      <uri>gemini://jane.example.com</uri>\n    </author>\n    <category term=\"intro\" scheme=\"gemini://example.com/tags/intro.gmi\" label=\"intro\" />\n    <link href=\"gemini://example.com/gemlog/hello.gmi\" rel=\"alternate\" />\n    <published>2024-01-01T00:00:00+00:00</published>\n    <rights>© 2024 by Jane</rights>\n    <summary>About Hello &lt;World&gt;</summary>\n  </entry>\n</feed>\n"
    );
}

#[test]
fn atom_document_is_the_same_on_every_run() {
    let cfg = config();
    let a = capsule(&cfg).to_feed(&cfg, 2030).unwrap().to_disk().unwrap();
    let b = capsule(&cfg).to_feed(&cfg, 2030).unwrap().to_disk().unwrap();
    assert_eq!(a, b);
    assert_eq!(a.matches("<entry>").count(), 3);
    let new = a.find("<title>new</title>").unwrap();
    let mid = a.find("<title>mid</title>").unwrap();
    let old = a.find("<title>old</title>").unwrap();
    assert!(new < mid && mid < old);
}

#[test]
fn atom_document_fails_on_an_entry_with_an_impossible_date() {
    let cfg = config();
    let mut feed = capsule(&cfg).to_feed(&cfg, 2030).unwrap();
    feed.entries[1].updated = Time::new(2024, 0, 0, 0, 0, 0);
    assert!(matches!(feed.to_disk(), Err(Error::TimeError(_))));
}

#[test]
fn entry_fails_for_a_post_without_a_date() {
    let cfg = config();
    let mut meta = page("Hello", 2024, &[]).meta;
    meta.published = None;
    let post = Post { meta, link: Link::default() };
    assert!(matches!(post.to_entry(&cfg), Err(Error::OtherError(_))));
}

#[test]
fn a_written_document_ends_with_a_line_end() {
    assert_eq!(zond::feed::closed(String::from("<feed />")), "<feed />\n");
    assert_eq!(zond::feed::closed(String::new()), "\n");
}

#[test]
fn entry_fails_on_an_address_after_the_date_was_found_good() {
    let mut cfg = config();
    cfg.domain = String::from("bad domain");
    let post = Post { meta: page("Hello", 2024, &["intro"]).meta, link: Link::default() };
    assert!(matches!(post.to_entry(&cfg), Err(Error::UrlError(_))));
    let mut bad = page("Hello", 2024, &["intro"]).meta;
    bad.published = Some(Time::new(2024, 4, 31, 0, 0, 0));
    let post = Post { meta: bad, link: Link::default() };
    assert!(matches!(post.to_entry(&cfg), Err(Error::TimeError(_))));
}

#[test]
fn atom_text_comes_before_indentation() {
    let cfg = config();
    let feed = Capsule::new(None).to_feed(&cfg, 2030).unwrap();
    let raw = zond::feed::atom_xml(&feed).unwrap();
    assert_eq!(
        raw,
        "<?xml version=\"1.0\"?>\n<feed xmlns=\"http://www.w3.org/2005/Atom\" xml:base=\"gemini://example.com\"><title>My Capsule</title><id>gemini://example.com</id><updated>1970-01-01T00:00:00+00:00</updated><author><name>Jane</name><email>jane@example.com</email><uri>gemini://jane.example.com</uri></author><rights>© 2030 by Jane</rights></feed>"
    );
    assert!(feed.to_disk().unwrap() != raw);
}

#[test]
fn two_writes_of_one_feed_give_the_same_text() {
    let cfg = config();
    let feed = capsule(&cfg).to_feed(&cfg, 2030).unwrap();
    assert_eq!(feed.to_disk().unwrap(), feed.to_disk().unwrap());
    assert_eq!(zond::feed::atom_xml(&feed).unwrap(), zond::feed::atom_xml(&feed).unwrap());
}
