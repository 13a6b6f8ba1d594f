use zond::content::{copy_texts, Kind, Meta, Page};
use zond::time::Time;

#[test]
fn path_of_a_page() {
    assert_eq!(Meta::get_path("  About Me ", Kind::Page(None)), "content/about_me.gmi");
}

#[test]
fn path_of_a_post() {
    assert_eq!(Meta::get_path("Hello World", Kind::Post), "content/gemlog/hello_world.gmi");
}

#[test]
fn path_of_a_page_with_a_path_of_its_own() {
    let kind = Kind::Page(Some(String::from("content/misc/notes.gmi")));
    assert_eq!(Meta::get_path("Ignored", kind), "content/misc/notes.gmi");
}

#[test]
fn path_lowers_unicode_titles() {
    assert_eq!(Meta::get_path("ÄRGER im Büro", Kind::Post), "content/gemlog/ärger_im_büro.gmi");
}

#[test]
fn create_gives_an_unpublished_empty_page() {
    let tags = vec![String::from("intro"), String::from("meta")];
    let (path, page) = Page::create(Kind::Post, "Hello World", Some("A greeting"), tags.clone());
    assert_eq!(path, "content/gemlog/hello_world.gmi");
    assert_eq!(page.meta.title, "Hello World");
    assert_eq!(page.meta.summary.as_deref(), Some("A greeting"));
    assert!(page.meta.published.is_none());
    assert_eq!(page.meta.tags, tags);
    assert_eq!(page.content, "");
}

#[test]
fn publish_at_sets_the_time_and_nothing_else() {
    let (_, mut page) = Page::create(Kind::Post, "T", None, vec![String::from("a")]);
    let when = Time::new(2024, 5, 6, 7, 8, 9);
    page.meta.publish_at(when);
    assert_eq!(page.meta.published, Some(when));
    assert_eq!(page.meta.title, "T");
    assert_eq!(page.meta.tags, vec![String::from("a")]);
}

#[test]
fn publish_marks_a_page_with_the_current_time() {
    let (_, mut page) = Page::create(Kind::Page(None), "T", None, Vec::new());
    page.content = String::from("body");
    let before = Time::now().timestamp().unwrap();
    page.publish();
    let stamp = page.meta.published.unwrap().timestamp().unwrap();
    let after = Time::now().timestamp().unwrap();
    assert!(before <= stamp && stamp <= after);
    assert_eq!(page.content, "body");
    assert_eq!(page.meta.title, "T");
}

#[test]
fn publish_twice_keeps_the_page_published() {
    let mut meta = Meta::default();
    meta.publish();
    let first = meta.published.unwrap();
    meta.publish();
    let second = meta.published.unwrap();
    assert!(first.timestamp().unwrap() <= second.timestamp().unwrap());
}

#[test]
fn edit_names_the_source_file() {
    assert_eq!(Page::edit(Kind::Post, "My Post"), "content/gemlog/my_post.gmi");
}

#[test]
fn clones_hold_the_same() {
    let (_, mut page) = Page::create(Kind::Post, "T", Some("s"), vec![String::from("a")]);
    page.content = String::from("c");
    page.meta.publish_at(Time::new(2024, 1, 1, 0, 0, 0));
    let copy = page.clone();
    assert_eq!(copy.meta.title, "T");
    assert_eq!(copy.meta.summary.as_deref(), Some("s"));
    assert_eq!(copy.meta.published, page.meta.published);
    assert_eq!(copy.meta.tags, page.meta.tags);
    assert_eq!(copy.content, "c");
    assert_eq!(copy_texts(&page.meta.tags), page.meta.tags);
}

#[test]
fn default_page_is_empty() {
    let page = Page::default();
    assert_eq!(page.meta.title, "");
    assert!(page.meta.summary.is_none());
    assert!(page.meta.published.is_none());
    assert!(page.meta.tags.is_empty());
    assert_eq!(page.content, "");
}
