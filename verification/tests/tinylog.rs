use zond::content::Page;
use zond::time::Time;
use zond::tinylog::{create_post, edit, init, tags, update};

fn names(v: &[&str]) -> Vec<String> {
    v.iter().map(|s| String::from(*s)).collect()
}

#[test]
fn edit_names_the_tinylog() {
    assert_eq!(edit(), "content/tinylog.gmi");
}

#[test]
fn init_with_defaults() {
    let (path, page) = init(None, None, None);
    assert_eq!(path, "content/tinylog.gmi");
    assert_eq!(page.meta.title, "Tinylog");
    assert!(page.meta.summary.is_none());
    assert!(page.meta.published.is_none());
    assert!(page.meta.tags.is_empty());
    assert_eq!(page.content, "");
}

#[test]
fn init_with_everything() {
    let (path, page) = init(Some("Notes"), Some("Short notes"), Some(vec!["a", "b"]));
    assert_eq!(path, "content/tinylog.gmi");
    assert_eq!(page.meta.title, "Notes");
    assert_eq!(page.meta.summary.as_deref(), Some("Short notes"));
    assert_eq!(page.meta.tags, names(&["a", "b"]));
}

#[test]
fn tags_adds_only_what_is_new() {
    let mut page = Page::default();
    page.meta.tags = names(&["a", "b"]);
    page.content = String::from("log");
    tags(&mut page, &names(&["b", "c", "a", "c", "d"]));
    assert_eq!(page.meta.tags, names(&["a", "b", "c", "d"]));
    assert_eq!(page.content, "log");
}

#[test]
fn tags_with_nothing_new_changes_nothing() {
    let mut page = Page::default();
    page.meta.tags = names(&["a"]);
    tags(&mut page, &names(&[]));
    tags(&mut page, &names(&["a"]));
    assert_eq!(page.meta.tags, names(&["a"]));
}

#[test]
fn update_sets_content_time_and_tags() {
    let mut page = Page::default();
    page.meta.title = String::from("Tinylog");
    page.meta.tags = names(&["a"]);
    page.content = String::from("old log");
    let when = Time::new(2024, 3, 4, 5, 6, 7);
    update(&mut page, String::from("new log"), when, Some(names(&["b", "a"])));
    assert_eq!(page.content, "new log");
    assert_eq!(page.meta.published, Some(when));
    assert_eq!(page.meta.tags, names(&["a", "b"]));
    assert_eq!(page.meta.title, "Tinylog");
}

#[test]
fn update_without_tags_keeps_the_tags() {
    let mut page = Page::default();
    page.meta.tags = names(&["a"]);
    let when = Time::new(2024, 3, 4, 5, 6, 7);
    update(&mut page, String::from("log"), when, None);
    assert_eq!(page.meta.tags, names(&["a"]));
    assert_eq!(page.meta.published, Some(when));
}

#[test]
fn scratch_path_is_nine_small_letters_in_tmp() {
    for _ in 0..50 {
        let name = create_post();
        assert_eq!(name.len(), 19);
        assert!(name.starts_with("/tmp/zond-"));
        assert!(name["/tmp/zond-".len()..].chars().all(|c| c.is_ascii_lowercase()));
    }
}

#[test]
fn letters_by_their_codes() {
    assert_eq!(zond::tinylog::letter(97), 'a');
    assert_eq!(zond::tinylog::letter(109), 'm');
    assert_eq!(zond::tinylog::letter(122), 'z');
}
