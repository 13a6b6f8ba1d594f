//! The walk over the content tree, entry by entry, and what is written
//! once it is over.

use crate::capsule::{banner_of, visit_failure, visited, Capsule, CapsuleView};
use crate::config::{text_view, Config, ConfigView, Feed};
use crate::content::{Page, PageView};
use crate::error::{Error, Failure};
use crate::feed::{feed_of, gemfeed_text, GemFeed, Syndication};
use crate::index::{gemlog_text, home_text, placeholder, Index};
use crate::link::{join_path, joined};
use crate::tags::{pages_match, tag_pages_exist, tags_index_text, tags_url, TagPages};
use crate::text::{chars_of, same};
use vstd::prelude::*;
use vstd::string::*;

verus! {

/// What the walk does with an entry of the content tree.
#[derive(Clone, Copy, Debug, PartialEq, Eq, Structural)]
pub enum Step {
    /// One of the two index sources: it is rendered after the walk.
    Reserved,
    /// A gemtext document: it is read and, where published, rendered.
    Document,
    /// Any other file: it is copied as it is.
    Asset,
    /// Anything else, such as a directory: nothing is done with it.
    Other,
}

/// Whether a file name ends in `.gmi` behind at least one other
/// character.
pub open spec fn is_gemtext_name(name: Seq<char>) -> bool {
    name.len() > 4 && name.subrange(name.len() - 4, name.len() as int) == seq!['.', 'g', 'm', 'i']
}

/// Whether `path` is the source of the home page or of the gemlog's
/// index.
pub open spec fn is_reserved(path: Seq<Seq<char>>) -> bool {
    path == seq!["index.gmi"@] || path == seq!["gemlog"@, "index.gmi"@]
}

/// What the walk does with the entry at `path`; `is_file` says whether it
/// is a regular file.
pub open spec fn entry_of_path(path: Seq<Seq<char>>, is_file: bool) -> Step {
    if is_reserved(path) {
        Step::Reserved
    } else if path.len() > 0 && is_gemtext_name(path.last()) {
        Step::Document
    } else if is_file {
        Step::Asset
    } else {
        Step::Other
    }
}

/// Where the entry at `path` belongs in the output: at the same place
/// below the output's root.
pub open spec fn mirrored(root: Seq<char>, path: Seq<Seq<char>>) -> Seq<char> {
    root + "/"@ + joined(path)
}

fn gemtext_name(name: &str) -> (b: bool)
    ensures
        b == is_gemtext_name(name@),
{
    let v = chars_of(name);
    let n = v.len();
    if n <= 4 {
        return false;
    }
    let b = v[n - 4] == '.' && v[n - 3] == 'g' && v[n - 2] == 'm' && v[n - 1] == 'i';
    proof {
        let tail = v@.subrange(n - 4, n as int);
        let want = seq!['.', 'g', 'm', 'i'];
        if b {
            assert(tail =~= want);
        } else {
            assert(tail[0] == v@[n - 4] && tail[1] == v@[n - 3] && tail[2] == v@[n - 2] && tail[3]
                == v@[n - 1]);
            assert(want[0] == '.' && want[1] == 'g' && want[2] == 'm' && want[3] == 'i');
        }
    }
    b
}

fn reserved(path: &Vec<String>) -> (b: bool)
    ensures
        b == is_reserved(path.deep_view()),
{
    let ghost p = path.deep_view();
    if path.len() == 1 {
        let b = same(path[0].as_str(), "index.gmi");
        proof {
            if b {
                assert(p =~= seq!["index.gmi"@]);
            } else {
                assert(seq!["index.gmi"@][0] == "index.gmi"@);
            }
            assert(seq!["gemlog"@, "index.gmi"@].len() == 2);
        }
        b
    } else if path.len() == 2 {
        let b = same(path[0].as_str(), "gemlog") && same(path[1].as_str(), "index.gmi");
        proof {
            let want = seq!["gemlog"@, "index.gmi"@];
            if b {
                assert(p =~= want);
            } else {
                assert(want[0] == "gemlog"@ && want[1] == "index.gmi"@);
            }
            assert(seq!["index.gmi"@].len() == 1);
        }
        b
    } else {
        proof {
            assert(seq!["index.gmi"@].len() == 1);
            assert(seq!["gemlog"@, "index.gmi"@].len() == 2);
        }
        false
    }
}

/// Says what the walk does with the entry at `path`, given from the
/// content root.
pub fn classify(path: &Vec<String>, is_file: bool) -> (e: Step)
    ensures
        e == entry_of_path(path.deep_view(), is_file),
{
    if reserved(path) {
        Step::Reserved
    } else if path.len() > 0 && gemtext_name(path[path.len() - 1].as_str()) {
        Step::Document
    } else if is_file {
        Step::Asset
    } else {
        Step::Other
    }
}

/// The path in the output of the entry at `path` of the content tree.
pub fn mirror(root: &str, path: &Vec<String>) -> (out: String)
    ensures
        out@ == mirrored(root@, path.deep_view()),
{
    let mut out = String::from_str(root);
    out.append("/");
    out.append(join_path(path).as_str());
    out
}

/// What is written once the walk is over.
#[derive(Debug)]
pub struct Artifacts {
    /// The Atom feed, where the configuration asks for one
    pub atom: Option<Syndication>,
    /// The gemtext feed, where the configuration asks for one
    pub gemfeed: Option<GemFeed>,
    /// The pages of the tags
    pub tags: TagPages,
    /// The home page
    pub index: Index,
    /// The gemlog's index
    pub gemlog_index: Index,
}

/// Whether the configuration asks for an Atom feed.
pub open spec fn wants_atom(cfg: ConfigView) -> bool {
    cfg.feed == Some(Feed::Atom) || cfg.feed == Some(Feed::Both)
}

/// Whether the configuration asks for a gemtext feed.
pub open spec fn wants_gemfeed(cfg: ConfigView) -> bool {
    cfg.feed == Some(Feed::Gemini) || cfg.feed == Some(Feed::Both)
}

/// Whether all that follows the walk can be made.
pub open spec fn can_finish(
    c: CapsuleView,
    cfg: ConfigView,
    home: Seq<char>,
    gemlog: Seq<char>,
    year: int,
) -> bool {
    &&& wants_atom(cfg) ==> feed_of(c, cfg, year) is Some
    &&& tag_pages_exist(c, cfg)
    &&& home_text(c, cfg, home, year) is Some
    &&& gemlog_text(c, cfg, gemlog, year) is Some
}

impl Capsule {
    /// Makes what follows the walk: the feeds that the configuration asks
    /// for, the tag pages and the two index pages. `home` and `gemlog` are
    /// the sources of the two index pages, where they exist; `year` is the
    /// current year.
    pub fn finish(
        &self,
        cfg: &Config,
        home: Option<&Page>,
        gemlog: Option<&Page>,
        year: i32,
    ) -> (r: Result<Artifacts, Error>)
        ensures
            match r {
                Ok(a) => {
                    &&& can_finish(
                        self@,
                        cfg@,
                        match home {
                            Some(p) => p@.content,
                            None => placeholder(),
                        },
                        match gemlog {
                            Some(p) => p@.content,
                            None => Seq::empty(),
                        },
                        year as int,
                    )
                    &&& a.atom is Some == wants_atom(cfg@)
                    &&& a.atom matches Some(feed) ==> feed_of(self@, cfg@, year as int) == Some(
                        feed@,
                    )
                    &&& a.gemfeed is Some == wants_gemfeed(cfg@)
                    &&& a.gemfeed matches Some(feed) ==> feed.0@ == gemfeed_text(self@, cfg@)
                    &&& a.tags.index.0@ == tags_index_text(self@, cfg@, year as int)
                    &&& pages_match(
                        a.tags.pages.deep_view(),
                        self@,
                        cfg@,
                        tags_url(cfg@)->0,
                        year as int,
                        self@.tags.len() as int,
                    )
                    &&& home_text(
                        self@,
                        cfg@,
                        match home {
                            Some(p) => p@.content,
                            None => placeholder(),
                        },
                        year as int,
                    ) == Some(a.index.0@)
                    &&& gemlog_text(
                        self@,
                        cfg@,
                        match gemlog {
                            Some(p) => p@.content,
                            None => Seq::empty(),
                        },
                        year as int,
                    ) == Some(a.gemlog_index.0@)
                },
                Err(e) => e is UrlError && !can_finish(
                    self@,
                    cfg@,
                    match home {
                        Some(p) => p@.content,
                        None => placeholder(),
                    },
                    match gemlog {
                        Some(p) => p@.content,
                        None => Seq::empty(),
                    },
                    year as int,
                ),
            },
    {
        let atom = match cfg.feed {
            Some(Feed::Atom) => Some(self.to_feed(cfg, year)?),
            Some(Feed::Both) => Some(self.to_feed(cfg, year)?),
            _ => None,
        };
        let gemfeed = match cfg.feed {
            Some(Feed::Gemini) => Some(self.write_gemfeed(cfg)),
            Some(Feed::Both) => Some(self.write_gemfeed(cfg)),
            _ => None,
        };
        let tags = self.write_tags(cfg, year)?;
        let index = self.write_index(cfg, home, year)?;
        let gemlog_index = self.write_gemlog_index(cfg, gemlog, year)?;
        Ok(Artifacts { atom, gemfeed, tags, index, gemlog_index })
    }
}

/// One entry of the content tree as the walk meets it: its place below the
/// content root and what reading it gave.
pub struct Document {
    pub path: Seq<Seq<char>>,
    pub page: Option<PageView>,
}

/// A capsule before the walk: no posts, no tags.
pub open spec fn empty_capsule(banner: Option<Seq<char>>) -> CapsuleView {
    CapsuleView { posts: Seq::empty(), tags: Seq::empty(), banner }
}

/// The capsule after a walk over `docs`, in their order. Nothing where a
/// visit fails.
pub open spec fn walked(c: CapsuleView, cfg: ConfigView, docs: Seq<Document>) -> Option<
    CapsuleView,
>
    decreases docs.len(),
{
    if docs.len() == 0 {
        Some(c)
    } else {
        match walked(c, cfg, docs.drop_last()) {
            Some(mid) => match visited(mid, cfg, docs.last().path, docs.last().page) {
                Some(r) => Some(r.0),
                None => None,
            },
            None => None,
        }
    }
}

/// The texts that a walk over `docs` renders, one for each document in
/// their order: nothing for a document that is not rendered.
pub open spec fn rendered(c: CapsuleView, cfg: ConfigView, docs: Seq<Document>) -> Seq<
    Option<Seq<char>>,
>
    decreases docs.len(),
{
    if docs.len() == 0 {
        Seq::empty()
    } else {
        rendered(c, cfg, docs.drop_last()).push(
            match visited(
                walked(c, cfg, docs.drop_last())->0,
                cfg,
                docs.last().path,
                docs.last().page,
            ) {
                Some(r) => r.1,
                None => None,
            },
        )
    }
}

/// One entry of the content tree, read and ready for the walk.
#[derive(Debug)]
pub struct Source {
    /// The entry's place below the content root
    pub path: Vec<String>,
    /// What reading the entry gave; nothing where it could not be read
    pub page: Option<Page>,
}

impl View for Source {
    type V = Document;

    open spec fn view(&self) -> Document {
        Document {
            path: self.path.deep_view(),
            page: match self.page {
                Some(p) => Some(p@),
                None => None,
            },
        }
    }
}

impl DeepView for Source {
    type V = Document;

    open spec fn deep_view(&self) -> Document {
        self@
    }
}

/// What a walk that fails reports: what the first visit that fails
/// reports.
pub open spec fn walk_failure(c: CapsuleView, cfg: ConfigView, docs: Seq<Document>) -> Failure
    decreases docs.len(),
{
    if docs.len() == 0 {
        Failure::Other
    } else if walked(c, cfg, docs.drop_last()) is None {
        walk_failure(c, cfg, docs.drop_last())
    } else {
        visit_failure(
            walked(c, cfg, docs.drop_last())->0,
            cfg,
            docs.last().path,
            docs.last().page,
        )
    }
}

/// A walk that fails at one document has failed for good, and reports
/// what it reported there.
pub proof fn lemma_walk_stays_failed(c: CapsuleView, cfg: ConfigView, docs: Seq<Document>, n: int)
    requires
        0 <= n <= docs.len(),
        walked(c, cfg, docs.take(n)) is None,
    ensures
        walked(c, cfg, docs) is None,
        walk_failure(c, cfg, docs) == walk_failure(c, cfg, docs.take(n)),
    decreases docs.len(),
{
    if n < docs.len() {
        assert(docs.drop_last().take(n) =~= docs.take(n));
        lemma_walk_stays_failed(c, cfg, docs.drop_last(), n);
    } else {
        assert(docs.take(n) =~= docs);
    }
}

impl Capsule {
    /// Walks over `docs` in their order, beginning with an empty capsule,
    /// and returns the capsule and what each document renders to. The walk
    /// fails as soon as one visit fails.
    pub fn walk(cfg: &Config, banner: Option<String>, docs: Vec<Source>) -> (r: Result<
        (Capsule, Vec<Option<String>>),
        Error,
    >)
        ensures
            match r {
                Ok(out) => {
                    let start = empty_capsule(banner_of(banner));
                    &&& out.0.wf()
                    &&& walked(start, cfg@, docs.deep_view()) == Some(out.0@)
                    &&& out.1@.map_values(|t: Option<String>| text_view(t)) == rendered(
                        start,
                        cfg@,
                        docs.deep_view(),
                    )
                },
                Err(e) => walked(empty_capsule(banner_of(banner)), cfg@, docs.deep_view()) is None
                    && e.failure() == walk_failure(
                    empty_capsule(banner_of(banner)),
                    cfg@,
                    docs.deep_view(),
                ),
            },
    {
        let ghost all = docs.deep_view();
        let ghost start = empty_capsule(banner_of(banner));
        let mut capsule = Capsule::new(banner);
        proof {
            assert(capsule@.posts =~= start.posts);
            assert(capsule@.tags =~= start.tags);
            assert(capsule@ == start);
        }
        let mut texts: Vec<Option<String>> = Vec::new();
        let mut rest = docs;
        let n = rest.len();
        let mut i: usize = 0;
        assert(all.take(0) =~= Seq::<Document>::empty());
        assert(texts@.map_values(|t: Option<String>| text_view(t)) =~= rendered(
            start,
            cfg@,
            all.take(0),
        ));
        while i < n
            invariant
                i <= n == rest.len(),
                all == docs.deep_view(),
                start == empty_capsule(banner_of(banner)),
                all.len() == n,
                forall|k: int| i <= k < n ==> (#[trigger] rest@[k])@ == all[k],
                capsule.wf(),
                walked(start, cfg@, all.take(i as int)) == Some(capsule@),
                texts@.map_values(|t: Option<String>| text_view(t)) == rendered(
                    start,
                    cfg@,
                    all.take(i as int),
                ),
            decreases n - i,
        {
            let ghost before = capsule@;
            let ghost held = texts@.map_values(|t: Option<String>| text_view(t));
            let ghost doc = all[i as int];
            proof {
                assert(all.take(i + 1).drop_last() =~= all.take(i as int));
                assert(all.take(i + 1).last() == doc);
                assert(rest@[i as int]@ == doc);
            }
            let mut page: Option<Page> = None;
            let entry = &mut rest[i];
            core::mem::swap(&mut entry.page, &mut page);
            let path = &rest[i].path;
            match capsule.add(cfg, path, page) {
                Ok(text) => {
                    let ghost made = text_view(text);
                    texts.push(text);
                    assert(texts@.map_values(|t: Option<String>| text_view(t)) =~= held.push(made));
                },
                Err(e) => {
                    proof {
                        lemma_walk_stays_failed(start, cfg@, all, i + 1);
                    }
                    return Err(e);
                },
            }
            i += 1;
        }
        assert(all.take(n as int) =~= all);
        Ok((capsule, texts))
    }
}

} // verus!
