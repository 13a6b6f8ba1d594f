//! What holds of every build: the order of the posts and the reach of the
//! tags.

use crate::capsule::{
    ascending, distinct, has_tag, lemma_tag_position_is, lemma_with_links, lemma_with_post,
    lemma_with_post_stamped, links_of, newest_first, occurrences, recent, repeated, stamped,
    stamped_with, visited, CapsuleView, PostView, Posts, Tags,
};
use crate::render::in_gemlog;
use crate::time::timestamp_of;
use crate::config::ConfigView;
use crate::content::PageView;
use crate::link::{link_to, LinkView};
use crate::walk::{empty_capsule, walked, Document};
use vstd::prelude::*;

verus! {

/// Whether a document is published: it could be read and carries a time
/// of publication.
pub open spec fn is_published(doc: Document) -> bool {
    doc.page is Some && doc.page->0.meta.published is Some
}

/// The links that one document registers under the tag `name`: its own
/// link, as often as it names the tag; none for a draft.
pub open spec fn carried_by(cfg: ConfigView, doc: Document, name: Seq<char>) -> Seq<LinkView> {
    if is_published(doc) && link_to(cfg, doc.path, doc.page->0.meta) is Some {
        repeated(
            link_to(cfg, doc.path, doc.page->0.meta)->0,
            occurrences(doc.page->0.meta.tags, name),
        )
    } else {
        Seq::empty()
    }
}

/// The links that the documents register under the tag `name`, in the
/// order of the walk.
pub open spec fn carried(cfg: ConfigView, docs: Seq<Document>, name: Seq<char>) -> Seq<LinkView>
    decreases docs.len(),
{
    if docs.len() == 0 {
        Seq::empty()
    } else {
        carried(cfg, docs.drop_last(), name) + carried_by(cfg, docs.last(), name)
    }
}

/// Whether one of the documents is published and names the tag `name`.
pub open spec fn is_carried(docs: Seq<Document>, name: Seq<char>) -> bool {
    exists|i: int|
        0 <= i < docs.len() && is_published(#[trigger] docs[i]) && occurrences(
            docs[i].page->0.meta.tags,
            name,
        ) > 0
}

/// Of two posts, the one with the later timestamp stands first in the
/// list from the newest to the oldest, which is the order of the Atom
/// feed, of the gemtext feed, of the gemlog's index and of the home page.
pub proof fn lemma_newer_stands_first(posts: Posts, i: int, j: int)
    requires
        ascending(posts),
        0 <= i < posts.len(),
        0 <= j < posts.len(),
        posts[i].0 > posts[j].0,
    ensures
        newest_first(posts)[posts.len() - 1 - i] == posts[i].1,
        newest_first(posts)[posts.len() - 1 - j] == posts[j].1,
        posts.len() - 1 - i < posts.len() - 1 - j,
{
    if i <= j {
        if i < j {
            assert(posts[i].0 < posts[j].0);
        }
    }
}

/// Of two posts of a capsule, the one that was published later, by the
/// timestamps of the two times of publication, stands first in the list
/// from the newest to the oldest.
pub proof fn lemma_later_post_stands_first(posts: Posts, i: int, j: int)
    requires
        ascending(posts),
        stamped(posts),
        0 <= i < posts.len(),
        0 <= j < posts.len(),
        timestamp_of(posts[i].1.meta.published->0)->0 > timestamp_of(
            posts[j].1.meta.published->0,
        )->0,
    ensures
        newest_first(posts)[posts.len() - 1 - i] == posts[i].1,
        newest_first(posts)[posts.len() - 1 - j] == posts[j].1,
        posts.len() - 1 - i < posts.len() - 1 - j,
{
    reveal(stamped_with);
    assert(stamped_with(posts[i].0, posts[i].1));
    assert(stamped_with(posts[j].0, posts[j].1));
    lemma_newer_stands_first(posts, i, j);
}

/// The timestamps fall strictly along the list from the newest to the
/// oldest.
pub proof fn lemma_newest_first_falls(posts: Posts, a: int, b: int)
    requires
        ascending(posts),
        0 <= a < b < posts.len(),
    ensures
        posts[posts.len() - 1 - a].0 > posts[posts.len() - 1 - b].0,
        newest_first(posts)[a] == posts[posts.len() - 1 - a].1,
        newest_first(posts)[b] == posts[posts.len() - 1 - b].1,
{
}

/// The home page lists as many posts as the configuration asks for, or
/// all where there are fewer, and they are the newest, from the newest on.
pub proof fn lemma_recent_is_capped(posts: Posts, count: nat)
    ensures
        recent(posts, count).len() == if count <= posts.len() {
            count
        } else {
            posts.len()
        },
        forall|k: int|
            0 <= k < recent(posts, count).len() ==> #[trigger] recent(posts, count)[k]
                == newest_first(posts)[k],
{
}

/// A document that could not be read, or that carries no time of
/// publication, changes nothing in the capsule and is not rendered.
pub proof fn lemma_draft_leaves_no_trace(
    c: CapsuleView,
    cfg: ConfigView,
    path: Seq<Seq<char>>,
    page: Option<PageView>,
)
    requires
        page is None || page->0.meta.published is None,
    ensures
        visited(c, cfg, path, page) == Some((c, None::<Seq<char>>)),
{
}

/// After a walk that began without tags, each tag holds exactly the links
/// of the published documents that name it, in the order of the walk, and
/// the capsule has a tag exactly where a published document names it.
pub proof fn lemma_tags_are_complete(
    banner: Option<Seq<char>>,
    cfg: ConfigView,
    docs: Seq<Document>,
    name: Seq<char>,
)
    requires
        walked(empty_capsule(banner), cfg, docs) is Some,
    ensures
        distinct(walked(empty_capsule(banner), cfg, docs)->0.tags),
        links_of(walked(empty_capsule(banner), cfg, docs)->0.tags, name) == carried(
            cfg,
            docs,
            name,
        ),
        has_tag(walked(empty_capsule(banner), cfg, docs)->0.tags, name) == is_carried(docs, name),
    decreases docs.len(),
{
    let start = empty_capsule(banner);
    if docs.len() == 0 {
        assert(links_of(start.tags, name) =~= Seq::<LinkView>::empty());
    } else {
        let head = docs.drop_last();
        let last = docs.last();
        lemma_tags_are_complete(banner, cfg, head, name);
        let mid = walked(start, cfg, head)->0;
        let end = walked(start, cfg, docs)->0;
        assert forall|i: int| 0 <= i < head.len() implies head[i] == docs[i] by {}
        if is_published(last) {
            let meta = last.page->0.meta;
            let link = link_to(cfg, last.path, meta)->0;
            lemma_with_links(mid.tags, meta.tags, link, name);
            if occurrences(meta.tags, name) > 0 {
                assert(is_published(docs[docs.len() - 1]));
            }
        } else {
            assert(end == mid);
            assert(carried(cfg, head, name) + Seq::<LinkView>::empty() =~= carried(
                cfg,
                head,
                name,
            ));
        }
        if is_carried(head, name) {
            let i = choose|i: int|
                0 <= i < head.len() && is_published(#[trigger] head[i]) && occurrences(
                    head[i].page->0.meta.tags,
                    name,
                ) > 0;
            assert(is_published(docs[i]));
        }
        if is_carried(docs, name) {
            let i = choose|i: int|
                0 <= i < docs.len() && is_published(#[trigger] docs[i]) && occurrences(
                    docs[i].page->0.meta.tags,
                    name,
                ) > 0;
            if i < head.len() {
                assert(is_published(head[i]));
            }
        }
    }
}

/// Where no tag stands twice, the links that stand with a tag are the
/// links registered under its name: a tag's page lists them all.
pub proof fn lemma_tag_holds_its_links(tags: Tags, i: int)
    requires
        distinct(tags),
        0 <= i < tags.len(),
    ensures
        links_of(tags, tags[i].0) == tags[i].1,
        has_tag(tags, tags[i].0),
{
    assert forall|j: int| 0 <= j < i implies (#[trigger] tags[j]).0 != tags[i].0 by {}
    lemma_tag_position_is(tags, tags[i].0, i);
}

/// A walk keeps the posts in the order of their timestamps, each under
/// the timestamp of its time of publication.
pub proof fn lemma_walk_keeps_order(c: CapsuleView, cfg: ConfigView, docs: Seq<Document>)
    requires
        ascending(c.posts),
        stamped(c.posts),
        walked(c, cfg, docs) is Some,
    ensures
        ascending(walked(c, cfg, docs)->0.posts),
        stamped(walked(c, cfg, docs)->0.posts),
    decreases docs.len(),
{
    if docs.len() > 0 {
        lemma_walk_keeps_order(c, cfg, docs.drop_last());
        let mid = walked(c, cfg, docs.drop_last())->0;
        let last = docs.last();
        if is_published(last) && in_gemlog(last.path) {
            let meta = last.page->0.meta;
            let post = PostView { meta, link: link_to(cfg, last.path, meta)->0 };
            let stamp = timestamp_of(meta.published->0)->0;
            assert(stamped_with(stamp, post)) by {
                reveal(stamped_with);
            }
            lemma_with_post(mid.posts, stamp, post);
            lemma_with_post_stamped(mid.posts, stamp, post);
        }
    }
}

} // verus!
