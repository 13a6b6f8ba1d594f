use zond::capsule::Capsule;
use zond::config::{Config, DisplayDate, Feed, Person};
use zond::content::{Meta, Page};
use zond::time::Time;
use zond::traits::ToDisk;
use zond::walk::{classify, Artifacts, Step};

fn config(entries: usize) -> Config {
    Config {
        title: String::from("Capsule"),
        author: Person { name: String::from("Jane"), email: None, url: None },
        domain: String::from("example.com"),
        path: None,
        entries,
        display_date: DisplayDate::GemlogOnly,
        feed: Some(Feed::Both),
        license: None,
        show_email: false,
        footer_links: Vec::new(),
    }
}

fn path(parts: &[&str]) -> Vec<String> {
    parts.iter().map(|p| String::from(*p)).collect()
}

fn document(title: &str, published: Option<Time>, tags: &[&str]) -> Page {
    Page {
        meta: Meta {
            title: String::from(title),
            summary: None,
            published,
            tags: tags.iter().map(|t| String::from(*t)).collect(),
        },
        content: String::from("Text."),
    }
}

struct Site {
    rendered: Vec<(Vec<String>, String)>,
    after: Artifacts,
}

fn build(cfg: &Config, docs: Vec<(Vec<String>, Option<Page>)>) -> Site {
    let mut capsule = Capsule::new(None);
    let mut rendered = Vec::new();
    for (place, page) in docs {
        assert_eq!(classify(&place, true), Step::Document);
        if let Some(text) = capsule.add(cfg, &place, page).unwrap() {
            rendered.push((place, text));
        }
    }
    let after = capsule.finish(cfg, None, None, 2025).unwrap();
    Site { rendered, after }
}

#[test]
fn one_post_reaches_feeds_tags_and_home() {
    let cfg = config(3);
    let hello = document("Hello World", Some(Time::new(2024, 1, 1, 0, 0, 0)), &["intro"]);
    let site = build(&cfg, vec![(path(&["gemlog", "hello_world.gmi"]), Some(hello))]);

    assert_eq!(site.rendered.len(), 1);
    assert_eq!(site.rendered[0].0, path(&["gemlog", "hello_world.gmi"]));

    let atom = site.after.atom.unwrap();
    assert_eq!(atom.entries.len(), 1);
    assert_eq!(atom.entries[0].title, "Hello World");
    let xml = atom.to_disk().unwrap();
    assert_eq!(xml.matches("<entry>").count(), 1);
    assert!(xml.contains("    <title>Hello World</title>\n"));
    assert!(xml.contains("    <updated>2024-01-01T00:00:00+00:00</updated>\n"));

    assert_eq!(
        site.after.gemfeed.unwrap().0,
        "# Capsule\n\n=> gemini://example.com/gemlog/hello_world.gmi 2024-01-01 - Hello World\n"
    );

    assert_eq!(site.after.tags.pages.len(), 1);
    assert_eq!(site.after.tags.pages[0].file_name(), "intro.gmi");
    assert_eq!(
        site.after.tags.pages[0].text,
        "# Capsule\n\n### Pages tagged intro\n=> ../gemlog/hello_world.gmi 2024-01-01 - Hello World\n=> . All tags\n=> .. Home\n\n© 2025 by Jane\n"
    );
    assert_eq!(
        site.after.tags.index.0,
        "# Capsule\n\n### All tags\n\n=> intro.gmi intro\n\n=> .. Home\n\n© 2025 by Jane\n"
    );
    assert_eq!(
        site.after.index.0,
        "# Capsule\n\n### Gemlog posts\n=> gemlog/hello_world.gmi 2024-01-01 - Hello World\n=> gemlog/ All posts\n\n\n\n© 2025 by Jane\n"
    );
}

#[test]
fn a_document_without_publication_is_absent_everywhere() {
    let cfg = config(3);
    let draft = document("Secret", None, &["intro"]);
    let site = build(&cfg, vec![(path(&["gemlog", "secret.gmi"]), Some(draft))]);

    assert!(site.rendered.is_empty());
    assert!(site.after.atom.unwrap().entries.is_empty());
    assert_eq!(site.after.gemfeed.unwrap().0, "# Capsule\n\n");
    assert!(site.after.tags.pages.is_empty());
    assert!(!site.after.tags.index.0.contains("intro"));
    assert!(!site.after.index.0.contains("Secret"));
    assert!(!site.after.gemlog_index.0.contains("Secret"));
}

#[test]
fn home_lists_the_newest_only_where_one_entry_is_asked() {
    let cfg = config(1);
    let older = document("Older", Some(Time::new(2024, 1, 1, 0, 0, 0)), &[]);
    let newer = document("Newer", Some(Time::new(2024, 1, 2, 0, 0, 0)), &[]);
    let site = build(
        &cfg,
        vec![(path(&["gemlog", "newer.gmi"]), Some(newer)), (path(&["gemlog", "older.gmi"]), Some(older))],
    );

    assert_eq!(
        site.after.index.0,
        "# Capsule\n\n### Gemlog posts\n=> gemlog/newer.gmi 2024-01-02 - Newer\n=> gemlog/ All posts\n\n\n\n© 2025 by Jane\n"
    );
    assert_eq!(
        site.after.gemlog_index.0,
        "# Capsule\n\n\n\n### Gemlog posts\n=> newer.gmi 2024-01-02 - Newer\n=> older.gmi 2024-01-01 - Older\n\n=> atom.xml Atom Feed\n=> feed.gmi Gemini Feed\n\n=> ../tags tags\n=> .. Home\n\n© 2025 by Jane\n"
    );
    assert_eq!(
        site.after.gemfeed.unwrap().0,
        "# Capsule\n\n=> gemini://example.com/gemlog/newer.gmi 2024-01-02 - Newer\n=> gemini://example.com/gemlog/older.gmi 2024-01-01 - Older\n"
    );
    let atom = site.after.atom.unwrap();
    let titles: Vec<&str> = atom.entries.iter().map(|e| e.title.as_str()).collect();
    assert_eq!(titles, ["Newer", "Older"]);
}

#[test]
fn a_document_whose_header_fails_to_parse_is_absent() {
    let cfg = config(3);
    let good = document("Good", Some(Time::new(2024, 1, 1, 0, 0, 0)), &["t"]);
    let site = build(
        &cfg,
        vec![(path(&["gemlog", "broken.gmi"]), None), (path(&["gemlog", "good.gmi"]), Some(good))],
    );

    assert_eq!(site.rendered.len(), 1);
    assert_eq!(site.rendered[0].0, path(&["gemlog", "good.gmi"]));
    assert_eq!(site.after.atom.unwrap().entries.len(), 1);
    assert!(!site.after.gemlog_index.0.contains("broken"));
    assert_eq!(site.after.tags.pages.len(), 1);
}

#[test]
fn building_twice_gives_the_same_output() {
    let cfg = config(2);
    let docs = || {
        vec![
            (path(&["gemlog", "a.gmi"]), Some(document("A", Some(Time::new(2024, 1, 1, 0, 0, 0)), &["x", "y"]))),
            (path(&["about.gmi"]), Some(document("About", Some(Time::new(2023, 5, 5, 0, 0, 0)), &["y"]))),
            (path(&["gemlog", "b.gmi"]), Some(document("B", Some(Time::new(2024, 2, 1, 0, 0, 0)), &[]))),
            (path(&["gemlog", "draft.gmi"]), Some(document("D", None, &["x"]))),
        ]
    };
    let one = build(&cfg, docs());
    let two = build(&cfg, docs());
    assert_eq!(one.rendered, two.rendered);
    assert_eq!(one.after.index.0, two.after.index.0);
    assert_eq!(one.after.gemlog_index.0, two.after.gemlog_index.0);
    assert_eq!(one.after.tags.index.0, two.after.tags.index.0);
    let texts = |s: &Site| s.after.tags.pages.iter().map(|p| (p.name.clone(), p.text.clone())).collect::<Vec<_>>();
    assert_eq!(texts(&one), texts(&two));
    assert_eq!(one.after.gemfeed.unwrap().0, two.after.gemfeed.unwrap().0);
    assert_eq!(one.after.atom.unwrap().to_disk().unwrap(), two.after.atom.unwrap().to_disk().unwrap());
}

#[test]
fn every_tag_of_a_published_document_has_its_page() {
    let cfg = config(2);
    let docs = vec![
        (path(&["gemlog", "a.gmi"]), Some(document("A", Some(Time::new(2024, 1, 1, 0, 0, 0)), &["x", "y"]))),
        (path(&["about.gmi"]), Some(document("About", Some(Time::new(2023, 5, 5, 0, 0, 0)), &["y"]))),
        (path(&["gemlog", "draft.gmi"]), Some(document("D", None, &["z", "x"]))),
    ];
    let site = build(&cfg, docs);
    let names: Vec<&str> = site.after.tags.pages.iter().map(|p| p.name.as_str()).collect();
    assert_eq!(names, ["x", "y"]);
    assert_eq!(
        site.after.tags.pages[0].text,
        "# Capsule\n\n### Pages tagged x\n=> ../gemlog/a.gmi 2024-01-01 - A\n=> . All tags\n=> .. Home\n\n© 2025 by Jane\n"
    );
    assert_eq!(
        site.after.tags.pages[1].text,
        "# Capsule\n\n### Pages tagged y\n=> ../gemlog/a.gmi 2024-01-01 - A\n=> ../about.gmi 2023-05-05 - About\n=> . All tags\n=> .. Home\n\n© 2025 by Jane\n"
    );
}
