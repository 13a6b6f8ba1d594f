//! The capsule index: the posts in the order of their timestamps, and for
//! each tag the links of the documents that carry it.

use crate::config::{text_view, Config, ConfigView};
use crate::content::{copy_texts, Meta, MetaView, Page, PageView};
use crate::error::{Error, Failure};
use crate::link::{link_to, Link, LinkView};
use crate::render::{in_gemlog, page_text};
use crate::text::{same, trim_end, trimmed_end};
use crate::time::timestamp_of;
use vstd::prelude::*;
use vstd::string::*;

verus! {

/// A published gemlog post: its metadata and the link that leads to it.
#[derive(Debug)]
pub struct Post {
    pub meta: Meta,
    pub link: Link,
}

/// What a `Post` holds.
pub struct PostView {
    pub meta: MetaView,
    pub link: LinkView,
}

impl View for Post {
    type V = PostView;

    open spec fn view(&self) -> PostView {
        PostView { meta: self.meta@, link: self.link@ }
    }
}

impl DeepView for Post {
    type V = PostView;

    open spec fn deep_view(&self) -> PostView {
        self@
    }
}

impl Clone for Post {
    fn clone(&self) -> (r: Self)
        ensures
            r@ == self@,
    {
        Post { meta: self.meta.clone(), link: self.link.clone() }
    }
}

impl Default for Post {
    fn default() -> (r: Self)
        ensures
            r@.meta == crate::content::empty_meta(),
            r@.link.url.len() == 0,
            r@.link.display.len() == 0,
    {
        Post { meta: Meta::default(), link: Link::default() }
    }
}

/// The posts of a capsule, each with its timestamp.
pub type Posts = Seq<(i64, PostView)>;

/// The tags of a capsule, each with the links registered under it.
pub type Tags = Seq<(Seq<char>, Seq<LinkView>)>;

/// Whether the timestamps grow strictly along `posts`.
pub open spec fn ascending(posts: Posts) -> bool {
    forall|i: int, j: int| 0 <= i < j < posts.len() ==> posts[i].0 < posts[j].0
}

/// Whether `post` is published at a time whose timestamp is `stamp`.
#[verifier::opaque]
pub open spec fn stamped_with(stamp: i64, post: PostView) -> bool {
    post.meta.published is Some && timestamp_of(post.meta.published->0) == Some(stamp)
}

/// Whether each of `posts` stands under the timestamp of its time of
/// publication.
pub open spec fn stamped(posts: Posts) -> bool {
    forall|i: int| 0 <= i < posts.len() ==> stamped_with((#[trigger] posts[i]).0, posts[i].1)
}

/// Whether no tag stands twice in `tags`.
pub open spec fn distinct(tags: Tags) -> bool {
    forall|i: int, j: int| 0 <= i < j < tags.len() ==> tags[i].0 != tags[j].0
}

/// `posts` with `post` put at the place of its timestamp. A post that has
/// the same timestamp gives way to the new one.
pub open spec fn with_post(posts: Posts, stamp: i64, post: PostView) -> Posts
    decreases posts.len(),
{
    if posts.len() == 0 {
        seq![(stamp, post)]
    } else if posts.last().0 < stamp {
        posts.push((stamp, post))
    } else if posts.last().0 == stamp {
        posts.drop_last().push((stamp, post))
    } else {
        with_post(posts.drop_last(), stamp, post).push(posts.last())
    }
}

/// The posts from the newest to the oldest.
pub open spec fn newest_first(posts: Posts) -> Seq<PostView> {
    Seq::new(posts.len(), |i: int| posts[posts.len() - 1 - i].1)
}

/// The `count` newest posts, or all of them where there are fewer.
pub open spec fn recent(posts: Posts, count: nat) -> Seq<PostView> {
    newest_first(posts).take(
        if count <= posts.len() {
            count as int
        } else {
            posts.len() as int
        },
    )
}

/// Where `name` stands in `tags`; the length of `tags` where it does not.
pub open spec fn tag_position(tags: Tags, name: Seq<char>) -> int
    decreases tags.len(),
{
    if tags.len() == 0 {
        0
    } else if tags[0].0 == name {
        0
    } else {
        1 + tag_position(tags.drop_first(), name)
    }
}

/// The links registered under `name`, in the order in which they came;
/// none where the tag is unknown.
pub open spec fn links_of(tags: Tags, name: Seq<char>) -> Seq<LinkView> {
    let i = tag_position(tags, name);
    if 0 <= i < tags.len() {
        tags[i].1
    } else {
        Seq::empty()
    }
}

/// Whether `name` is a tag of the capsule.
pub open spec fn has_tag(tags: Tags, name: Seq<char>) -> bool {
    0 <= tag_position(tags, name) < tags.len()
}

/// `tags` with `link` added under `name`: behind the tag's other links,
/// or under a new tag at the end.
pub open spec fn with_link(tags: Tags, name: Seq<char>, link: LinkView) -> Tags {
    let i = tag_position(tags, name);
    if 0 <= i < tags.len() {
        tags.update(i, (name, tags[i].1.push(link)))
    } else {
        tags.push((name, seq![link]))
    }
}

/// `tags` with `link` added under each of `names`, in their order.
pub open spec fn with_links(tags: Tags, names: Seq<Seq<char>>, link: LinkView) -> Tags
    decreases names.len(),
{
    if names.len() == 0 {
        tags
    } else {
        with_link(with_links(tags, names.drop_last(), link), names.last(), link)
    }
}

/// How often `name` stands in `names`.
pub open spec fn occurrences(names: Seq<Seq<char>>, name: Seq<char>) -> nat
    decreases names.len(),
{
    if names.len() == 0 {
        0
    } else {
        occurrences(names.drop_last(), name) + if names.last() == name {
            1nat
        } else {
            0nat
        }
    }
}

/// `link`, `count` times.
pub open spec fn repeated(link: LinkView, count: nat) -> Seq<LinkView> {
    Seq::new(count, |i: int| link)
}

/// The position of a tag is the first index that holds it.
pub proof fn lemma_tag_position(tags: Tags, name: Seq<char>)
    ensures
        0 <= tag_position(tags, name) <= tags.len(),
        forall|j: int| 0 <= j < tag_position(tags, name) ==> (#[trigger] tags[j]).0 != name,
        tag_position(tags, name) < tags.len() ==> tags[tag_position(tags, name)].0 == name,
    decreases tags.len(),
{
    if tags.len() > 0 && tags[0].0 != name {
        let rest = tags.drop_first();
        lemma_tag_position(rest, name);
        assert forall|j: int| 0 <= j < tag_position(tags, name) implies (#[trigger] tags[j]).0
            != name by {
            if j > 0 {
                assert(tags[j] == rest[j - 1]);
            }
        }
    }
}

/// An index that holds the tag and has none before it that does is the
/// tag's position.
pub proof fn lemma_tag_position_is(tags: Tags, name: Seq<char>, i: int)
    requires
        0 <= i <= tags.len(),
        forall|j: int| 0 <= j < i ==> (#[trigger] tags[j]).0 != name,
        i < tags.len() ==> tags[i].0 == name,
    ensures
        tag_position(tags, name) == i,
{
    lemma_tag_position(tags, name);
    let p = tag_position(tags, name);
    if p < i {
        assert(tags[p].0 != name);
    } else if i < p {
        assert(tags[i].0 != name);
    }
}

/// Registering a link keeps the tags distinct, puts the link behind the
/// links of its tag and leaves the other tags as they were.
pub proof fn lemma_with_link(tags: Tags, name: Seq<char>, link: LinkView)
    requires
        distinct(tags),
    ensures
        distinct(with_link(tags, name, link)),
        links_of(with_link(tags, name, link), name) == links_of(tags, name).push(link),
        has_tag(with_link(tags, name, link), name),
        forall|other: Seq<char>|
            other != name ==> links_of(with_link(tags, name, link), other) == links_of(
                tags,
                other,
            ) && has_tag(with_link(tags, name, link), other) == has_tag(tags, other),
{
    let after = with_link(tags, name, link);
    let i = tag_position(tags, name);
    lemma_tag_position(tags, name);
    assert(after.len() >= tags.len());
    assert forall|j: int| 0 <= j < after.len() implies (#[trigger] after[j]).0 == (if j
        < tags.len() {
        tags[j].0
    } else {
        name
    }) by {}
    assert(distinct(after)) by {
        assert forall|a: int, b: int| 0 <= a < b < after.len() implies after[a].0
            != after[b].0 by {
            if b < tags.len() {
                assert(tags[a].0 != tags[b].0);
            } else {
                assert(tags[a].0 != name);
            }
        }
    }
    lemma_tag_position_is(after, name, i);
    assert(links_of(after, name) =~= links_of(tags, name).push(link));
    assert forall|other: Seq<char>| other != name implies links_of(after, other) == links_of(
        tags,
        other,
    ) && has_tag(after, other) == has_tag(tags, other) by {
        let p = tag_position(tags, other);
        lemma_tag_position(tags, other);
        assert forall|j: int| 0 <= j < p implies (#[trigger] after[j]).0 != other by {
            assert(tags[j].0 != other);
        }
        if p < tags.len() {
            lemma_tag_position_is(after, other, p);
        } else {
            lemma_tag_position_is(after, other, after.len() as int);
        }
    }
}

/// Registering a link under a list of tags keeps the tags distinct and
/// puts the link behind each tag's links as often as the list names the tag.
pub proof fn lemma_with_links(tags: Tags, names: Seq<Seq<char>>, link: LinkView, name: Seq<char>)
    requires
        distinct(tags),
    ensures
        distinct(with_links(tags, names, link)),
        links_of(with_links(tags, names, link), name) == links_of(tags, name) + repeated(
            link,
            occurrences(names, name),
        ),
        has_tag(with_links(tags, names, link), name) == (has_tag(tags, name) || occurrences(
            names,
            name,
        ) > 0),
    decreases names.len(),
{
    if names.len() == 0 {
        assert(links_of(tags, name) + repeated(link, 0) =~= links_of(tags, name));
    } else {
        let before = with_links(tags, names.drop_last(), link);
        lemma_with_links(tags, names.drop_last(), link, name);
        lemma_with_link(before, names.last(), link);
        let n = occurrences(names.drop_last(), name);
        if names.last() == name {
            assert((links_of(tags, name) + repeated(link, n)).push(link) =~= links_of(tags, name)
                + repeated(link, n + 1));
        }
    }
}

/// A post that is put in keeps the timestamps growing.
pub proof fn lemma_with_post(posts: Posts, stamp: i64, post: PostView)
    requires
        ascending(posts),
    ensures
        ascending(with_post(posts, stamp, post)),
        forall|k: int|
            0 <= k < with_post(posts, stamp, post).len() ==> (#[trigger] with_post(
                posts,
                stamp,
                post,
            )[k]).0 == stamp || exists|j: int|
                0 <= j < posts.len() && posts[j] == with_post(posts, stamp, post)[k],
    decreases posts.len(),
{
    let after = with_post(posts, stamp, post);
    if posts.len() == 0 {
    } else if posts.last().0 < stamp {
        assert forall|k: int| 0 <= k < after.len() implies (#[trigger] after[k]).0 == stamp
            || exists|j: int| 0 <= j < posts.len() && posts[j] == after[k] by {
            if k < posts.len() {
                assert(posts[k] == after[k]);
            }
        }
    } else if posts.last().0 == stamp {
        assert forall|k: int| 0 <= k < after.len() implies (#[trigger] after[k]).0 == stamp
            || exists|j: int| 0 <= j < posts.len() && posts[j] == after[k] by {
            if k < posts.len() - 1 {
                assert(posts[k] == after[k]);
            }
        }
    } else {
        let rest = posts.drop_last();
        let inner = with_post(rest, stamp, post);
        lemma_with_post(rest, stamp, post);
        assert forall|k: int| 0 <= k < inner.len() implies (#[trigger] inner[k]).0
            < posts.last().0 by {
            if inner[k].0 != stamp {
                let j = choose|j: int| 0 <= j < rest.len() && rest[j] == inner[k];
                assert(posts[j].0 < posts[posts.len() - 1].0);
            }
        }
        assert forall|k: int| 0 <= k < after.len() implies (#[trigger] after[k]).0 == stamp
            || exists|j: int| 0 <= j < posts.len() && posts[j] == after[k] by {
            if k < inner.len() {
                if inner[k].0 != stamp {
                    let j = choose|j: int| 0 <= j < rest.len() && rest[j] == inner[k];
                    assert(posts[j] == after[k]);
                }
            } else {
                assert(posts[posts.len() - 1] == after[k]);
            }
        }
    }
}

/// A post that is put in under its timestamp leaves every post under its
/// timestamp.
pub proof fn lemma_with_post_stamped(posts: Posts, stamp: i64, post: PostView)
    requires
        stamped(posts),
        stamped_with(stamp, post),
    ensures
        stamped(with_post(posts, stamp, post)),
    decreases posts.len(),
{
    let after = with_post(posts, stamp, post);
    if posts.len() == 0 {
    } else if posts.last().0 < stamp {
        assert forall|i: int| 0 <= i < after.len() implies stamped_with(
            (#[trigger] after[i]).0,
            after[i].1,
        ) by {
            if i < posts.len() {
                assert(after[i] == posts[i]);
            }
        }
    } else if posts.last().0 == stamp {
        assert forall|i: int| 0 <= i < after.len() implies stamped_with(
            (#[trigger] after[i]).0,
            after[i].1,
        ) by {
            if i < posts.len() - 1 {
                assert(after[i] == posts[i]);
            }
        }
    } else {
        let rest = posts.drop_last();
        assert forall|i: int| 0 <= i < rest.len() implies stamped_with(
            (#[trigger] rest[i]).0,
            rest[i].1,
        ) by {
            assert(rest[i] == posts[i]);
        }
        lemma_with_post_stamped(rest, stamp, post);
        let inner = with_post(rest, stamp, post);
        assert forall|i: int| 0 <= i < after.len() implies stamped_with(
            (#[trigger] after[i]).0,
            after[i].1,
        ) by {
            if i < inner.len() {
                assert(after[i] == inner[i]);
            } else {
                assert(after[i] == posts[posts.len() - 1]);
            }
        }
    }
}

/// Putting a post in at the index where the later timestamps begin.
pub proof fn lemma_with_post_at(posts: Posts, stamp: i64, post: PostView, i: int)
    requires
        0 <= i <= posts.len(),
        forall|j: int| i <= j < posts.len() ==> (#[trigger] posts[j]).0 > stamp,
        i > 0 ==> posts[i - 1].0 <= stamp,
    ensures
        with_post(posts, stamp, post) == if i > 0 && posts[i - 1].0 == stamp {
            posts.update(i - 1, (stamp, post))
        } else {
            posts.insert(i, (stamp, post))
        },
    decreases posts.len() - i,
{
    if i == posts.len() {
        if i > 0 && posts[i - 1].0 == stamp {
            assert(posts.drop_last().push((stamp, post)) =~= posts.update(i - 1, (stamp, post)));
        } else {
            assert(posts.push((stamp, post)) =~= posts.insert(i, (stamp, post)));
        }
    } else {
        let rest = posts.drop_last();
        assert(posts.last().0 > stamp);
        assert forall|j: int| i <= j < rest.len() implies (#[trigger] rest[j]).0 > stamp by {
            assert(rest[j] == posts[j]);
        }
        lemma_with_post_at(rest, stamp, post, i);
        if i > 0 && posts[i - 1].0 == stamp {
            assert(rest.update(i - 1, (stamp, post)).push(posts.last()) =~= posts.update(
                i - 1,
                (stamp, post),
            ));
        } else {
            assert(rest.insert(i, (stamp, post)).push(posts.last()) =~= posts.insert(
                i,
                (stamp, post),
            ));
        }
    }
}

/// The metadata extracted from all posts and pages used to construct the rest
/// of the site
#[derive(Debug)]
pub struct Capsule {
    posts: Vec<(i64, Post)>,
    tags: Vec<(String, Vec<Link>)>,
    banner: Option<String>,
}

/// What a `Capsule` holds: the posts by growing timestamp, the tags in the
/// order in which they were first seen, and the banner.
pub struct CapsuleView {
    pub posts: Posts,
    pub tags: Tags,
    pub banner: Option<Seq<char>>,
}

impl View for Capsule {
    type V = CapsuleView;

    closed spec fn view(&self) -> CapsuleView {
        CapsuleView {
            posts: self.posts.deep_view(),
            tags: self.tags.deep_view(),
            banner: text_view(self.banner),
        }
    }
}

/// The banner as a capsule holds it: without the blanks at its end.
pub open spec fn banner_of(banner: Option<String>) -> Option<Seq<char>> {
    match banner {
        Some(s) => Some(trim_end(s@)),
        None => None,
    }
}

/// What a visit makes of the capsule and what it renders: nothing changes
/// and nothing is rendered for a document that could not be read or is not
/// published; a published one has its link registered under each of its
/// tags, is rendered, and, in the gemlog, joins the posts under its
/// timestamp. No result where a link, the text or the timestamp cannot be
/// made.
pub open spec fn visited(
    c: CapsuleView,
    cfg: ConfigView,
    path: Seq<Seq<char>>,
    page: Option<PageView>,
) -> Option<(CapsuleView, Option<Seq<char>>)> {
    if page is None || page->0.meta.published is None {
        Some((c, None))
    } else {
        let p = page->0;
        match (link_to(cfg, path, p.meta), page_text(p, path, path.len(), c.banner, cfg)) {
            (Some(link), Some(text)) => {
                let tags = with_links(c.tags, p.meta.tags, link);
                if in_gemlog(path) {
                    match timestamp_of(p.meta.published->0) {
                        Some(stamp) => Some(
                            (
                                CapsuleView {
                                    posts: with_post(
                                        c.posts,
                                        stamp,
                                        PostView { meta: p.meta, link },
                                    ),
                                    tags,
                                    banner: c.banner,
                                },
                                Some(text),
                            ),
                        ),
                        None => None,
                    }
                } else {
                    Some((CapsuleView { posts: c.posts, tags, banner: c.banner }, Some(text)))
                }
            },
            _ => None,
        }
    }
}

impl Capsule {
    /// Whether the posts stand by growing timestamp, each under the
    /// timestamp of its time of publication, and no tag twice. It holds of
    /// every capsule.
    #[verifier::type_invariant]
    pub open spec fn wf(&self) -> bool {
        ascending(self@.posts) && distinct(self@.tags) && stamped(self@.posts)
    }

    /// An empty capsule. The banner loses the blanks at its end.
    pub fn new(banner: Option<String>) -> (c: Capsule)
        ensures
            c.wf(),
            c@.posts.len() == 0,
            c@.tags.len() == 0,
            c@.banner == banner_of(banner),
    {
        let banner = match banner {
            Some(s) => Some(trimmed_end(s.as_str())),
            None => None,
        };
        let posts: Vec<(i64, Post)> = Vec::new();
        let tags: Vec<(String, Vec<Link>)> = Vec::new();
        assert(posts.deep_view() =~= Seq::empty());
        assert(tags.deep_view() =~= Seq::empty());
        Capsule { posts, tags, banner }
    }

    /// The banner, if there is one.
    pub fn banner(&self) -> (b: &Option<String>)
        ensures
            text_view(*b) == self@.banner,
    {
        &self.banner
    }

    /// The number of posts.
    pub fn post_count(&self) -> (n: usize)
        ensures
            n == self@.posts.len(),
    {
        self.posts.len()
    }

    /// The posts from the newest to the oldest.
    pub fn posts(&self) -> (r: Vec<Post>)
        ensures
            r.deep_view() == newest_first(self@.posts),
    {
        let n = self.posts.len();
        let mut r: Vec<Post> = Vec::new();
        let mut i: usize = 0;
        while i < n
            invariant
                i <= n == self.posts.len(),
                r.len() == i,
                forall|k: int| 0 <= k < i ==> (#[trigger] r@[k])@ == self.posts@[n - 1 - k].1@,
            decreases n - i,
        {
            r.push(self.posts[n - 1 - i].1.clone());
            i += 1;
        }
        assert(r.deep_view() =~= newest_first(self@.posts));
        r
    }

    /// The timestamps of the posts, from the newest to the oldest.
    pub fn timestamps(&self) -> (r: Vec<i64>)
        ensures
            r@.len() == self@.posts.len(),
            forall|k: int|
                0 <= k < r@.len() ==> r@[k] == (#[trigger] self@.posts[self@.posts.len() - 1 - k]).0,
    {
        let n = self.posts.len();
        let mut r: Vec<i64> = Vec::new();
        let mut i: usize = 0;
        while i < n
            invariant
                i <= n == self.posts.len(),
                r.len() == i,
                forall|k: int| 0 <= k < i ==> r@[k] == self.posts@[n - 1 - k].0,
            decreases n - i,
        {
            r.push(self.posts[n - 1 - i].0);
            i += 1;
        }
        r
    }

    /// The names of the tags, in the order in which they were first seen.
    pub fn tag_names(&self) -> (r: Vec<String>)
        ensures
            r.deep_view() == self@.tags.map_values(|t: (Seq<char>, Seq<LinkView>)| t.0),
    {
        let mut r: Vec<String> = Vec::new();
        let mut i: usize = 0;
        while i < self.tags.len()
            invariant
                i <= self.tags.len(),
                r.len() == i,
                forall|k: int| 0 <= k < i ==> (#[trigger] r@[k])@ == self.tags@[k].0@,
            decreases self.tags.len() - i,
        {
            r.push(self.tags[i].0.clone());
            i += 1;
        }
        assert(r.deep_view() =~= self@.tags.map_values(|t: (Seq<char>, Seq<LinkView>)| t.0));
        r
    }

    /// The number of tags.
    pub fn tag_count(&self) -> (n: usize)
        ensures
            n == self@.tags.len(),
    {
        self.tags.len()
    }

    /// The tag at `i`, in the order in which the tags were first seen, and
    /// its links.
    pub fn tag(&self, i: usize) -> (r: (&String, &Vec<Link>))
        requires
            i < self@.tags.len(),
        ensures
            r.0@ == self@.tags[i as int].0,
            r.1.deep_view() == self@.tags[i as int].1,
    {
        (&self.tags[i].0, &self.tags[i].1)
    }

    /// The links registered under `name`, in the order in which they came.
    pub fn links(&self, name: &str) -> (r: Vec<Link>)
        ensures
            r.deep_view() == links_of(self@.tags, name@),
    {
        let mut i: usize = 0;
        while i < self.tags.len() && !same(self.tags[i].0.as_str(), name)
            invariant
                i <= self.tags.len(),
                forall|j: int| 0 <= j < i ==> (#[trigger] self@.tags[j]).0 != name@,
            decreases self.tags.len() - i,
        {
            i += 1;
        }
        proof {
            lemma_tag_position_is(self@.tags, name@, i as int);
        }
        let mut r: Vec<Link> = Vec::new();
        if i < self.tags.len() {
            let found = &self.tags[i].1;
            let mut k: usize = 0;
            while k < found.len()
                invariant
                    k <= found.len(),
                    r.len() == k,
                    forall|j: int| 0 <= j < k ==> (#[trigger] r@[j])@ == found@[j]@,
                decreases found.len() - k,
            {
                r.push(found[k].clone());
                k += 1;
            }
            assert(r.deep_view() =~= found.deep_view());
        } else {
            assert(r.deep_view() =~= Seq::<LinkView>::empty());
        }
        r
    }

    /// Puts a post in under the timestamp of its time of publication. A
    /// post that stands under the same timestamp gives way to the new one.
    /// A post without a time of publication, or with one that is no date and
    /// time, is refused, and the capsule stays as it is.
    pub fn insert(&mut self, post: Post) -> (r: Result<(), Error>)
        ensures
            final(self).wf(),
            final(self)@.tags == old(self)@.tags,
            final(self)@.banner == old(self)@.banner,
            match r {
                Ok(_) => post@.meta.published is Some && timestamp_of(post@.meta.published->0)
                    is Some && final(self)@.posts == with_post(
                    old(self)@.posts,
                    timestamp_of(post@.meta.published->0)->0,
                    post@,
                ),
                Err(e) => final(self)@.posts == old(self)@.posts && if post@.meta.published
                    is None {
                    e is OtherError
                } else {
                    e is TimeError && timestamp_of(post@.meta.published->0) is None
                },
            },
    {
        proof {
            use_type_invariant(&*self);
        }
        let time = match post.meta.published {
            Some(t) => t,
            None => {
                return Err(Error::OtherError(String::from_str("Post without a date")));
            },
        };
        let stamp = match time.timestamp() {
            Ok(v) => v,
            Err(e) => {
                return Err(e);
            },
        };
        let ghost before = self@.posts;
        let n = self.posts.len();
        let mut i: usize = n;
        while i > 0 && self.posts[i - 1].0 > stamp
            invariant
                i <= n == self.posts.len(),
                self@.posts == before,
                forall|j: int| i <= j < before.len() ==> (#[trigger] before[j]).0 > stamp,
            decreases i,
        {
            i -= 1;
        }
        let kept = if i > 0 && self.posts[i - 1].0 == stamp {
            i - 1
        } else {
            i
        };
        let mut next: Vec<(i64, Post)> = Vec::new();
        assert(next.deep_view() =~= Seq::empty());
        copy_posts(&mut next, &self.posts, 0, kept);
        let ghost head = next.deep_view();
        let ghost added = (stamp, post@);
        next.push((stamp, post));
        assert(next.deep_view() =~= head.push(added));
        copy_posts(&mut next, &self.posts, i, n);
        proof {
            reveal(stamped_with);
            assert(stamped_with(stamp, added.1));
            lemma_with_post_at(before, stamp, added.1, i as int);
            lemma_with_post(before, stamp, added.1);
            lemma_with_post_stamped(before, stamp, added.1);
            if kept < i {
                assert(next.deep_view() =~= before.update(i - 1, added));
            } else {
                assert(next.deep_view() =~= before.insert(i as int, added));
            }
        }
        self.posts = next;
        Ok(())
    }

    /// Registers `link` under the tag `name`.
    pub fn register(&mut self, name: &str, link: Link)
        ensures
            final(self).wf(),
            final(self)@.tags == with_link(old(self)@.tags, name@, link@),
            final(self)@.posts == old(self)@.posts,
            final(self)@.banner == old(self)@.banner,
    {
        proof {
            use_type_invariant(&*self);
        }
        let ghost before = self@.tags;
        let n = self.tags.len();
        let mut i: usize = 0;
        while i < n && !same(self.tags[i].0.as_str(), name)
            invariant
                i <= n == self.tags.len(),
                self@.tags == before,
                forall|j: int| 0 <= j < i ==> (#[trigger] before[j]).0 != name@,
            decreases n - i,
        {
            i += 1;
        }
        let mut next: Vec<(String, Vec<Link>)> = Vec::new();
        assert(next.deep_view() =~= Seq::empty());
        copy_tags(&mut next, &self.tags, 0, i);
        let ghost head = next.deep_view();
        let mut links: Vec<Link> = if i < n {
            copy_links(&self.tags[i].1)
        } else {
            let fresh: Vec<Link> = Vec::new();
            assert(fresh.deep_view() =~= Seq::empty());
            fresh
        };
        let ghost held = links.deep_view();
        links.push(link);
        assert(links.deep_view() =~= held.push(link@));
        let ghost added = (name@, links.deep_view());
        next.push((String::from_str(name), links));
        assert(next.deep_view() =~= head.push(added));
        if i < n {
            copy_tags(&mut next, &self.tags, i + 1, n);
        }
        proof {
            lemma_tag_position_is(before, name@, i as int);
            lemma_with_link(before, name@, link@);
            if i < n {
                assert(next.deep_view() =~= before.update(i as int, added));
            } else {
                assert(next.deep_view() =~= before.push(added));
            }
        }
        self.tags = next;
    }

    /// Registers `link` under each of `names`, in their order.
    pub fn register_all(&mut self, names: &Vec<String>, link: &Link)
        ensures
            final(self).wf(),
            final(self)@.tags == with_links(old(self)@.tags, names.deep_view(), link@),
            final(self)@.posts == old(self)@.posts,
            final(self)@.banner == old(self)@.banner,
    {
        proof {
            use_type_invariant(&*self);
        }
        let ghost all = names.deep_view();
        let mut i: usize = 0;
        while i < names.len()
            invariant
                i <= names.len(),
                all == names.deep_view(),
                self.wf(),
                self@.tags == with_links(old(self)@.tags, all.subrange(0, i as int), link@),
                self@.posts == old(self)@.posts,
                self@.banner == old(self)@.banner,
            decreases names.len() - i,
        {
            self.register(names[i].as_str(), link.clone());
            proof {
                let next = all.subrange(0, i + 1);
                assert(next.drop_last() =~= all.subrange(0, i as int));
                assert(next.last() == names@[i as int]@);
            }
            i += 1;
        }
        assert(all.subrange(0, names.len() as int) =~= all);
    }

    /// Takes in one document of the walk. `path` is its place below the
    /// content root; `page` is what reading it gave, or nothing where it
    /// could not be read. A draft and an unreadable document leave the
    /// capsule as it is and render nothing. On an error the capsule is
    /// unchanged too: the error is a `UrlError` where the link or the text
    /// cannot be made, and a `TimeError` where the time of a post is no date
    /// and time.
    pub fn add(&mut self, cfg: &Config, path: &Vec<String>, page: Option<Page>) -> (r: Result<
        Option<String>,
        Error,
    >)
        ensures
            final(self).wf(),
            match r {
                Ok(out) => visited(
                    old(self)@,
                    cfg@,
                    path.deep_view(),
                    match page {
                        Some(p) => Some(p@),
                        None => None,
                    },
                ) == Some((final(self)@, text_view(out))),
                Err(e) => final(self)@ == old(self)@ && visited(
                    old(self)@,
                    cfg@,
                    path.deep_view(),
                    match page {
                        Some(p) => Some(p@),
                        None => None,
                    },
                ) is None && e.failure() == visit_failure(
                    old(self)@,
                    cfg@,
                    path.deep_view(),
                    match page {
                        Some(p) => Some(p@),
                        None => None,
                    },
                ),
            },
            page is None || page->0@.meta.published is None ==> r == Ok::<Option<String>, Error>(
                None,
            ) && final(self)@ == old(self)@,
    {
        proof {
            use_type_invariant(&*self);
        }
        let page = match page {
            Some(p) => p,
            None => {
                return Ok(None);
            },
        };
        if page.meta.published.is_none() {
            return Ok(None);
        }
        let link = match Link::get(path, &page.meta, cfg) {
            Ok(l) => l,
            Err(e) => {
                return Err(e);
            },
        };
        let text = match page.write(path, path.len(), &self.banner, cfg) {
            Ok(t) => t,
            Err(e) => {
                return Err(e);
            },
        };
        let tags = copy_texts(&page.meta.tags);
        if path.len() >= 1 && same(path[0].as_str(), "gemlog") {
            match self.insert(Post { meta: page.meta, link: link.clone() }) {
                Ok(_) => {},
                Err(e) => {
                    return Err(e);
                },
            }
        }
        self.register_all(&tags, &link);
        Ok(Some(text))
    }
}

/// What a visit that fails reports: a URL where the link or the text cannot
/// be made, else the time.
pub open spec fn visit_failure(
    c: CapsuleView,
    cfg: ConfigView,
    path: Seq<Seq<char>>,
    page: Option<PageView>,
) -> Failure {
    if link_to(cfg, path, page->0.meta) is None || page_text(
        page->0,
        path,
        path.len(),
        c.banner,
        cfg,
    ) is None {
        Failure::Url
    } else {
        Failure::Time
    }
}

/// Appends copies of `from[lo..hi]`.
fn copy_posts(out: &mut Vec<(i64, Post)>, from: &Vec<(i64, Post)>, lo: usize, hi: usize)
    requires
        lo <= hi <= from.len(),
    ensures
        final(out).deep_view() == old(out).deep_view() + from.deep_view().subrange(
            lo as int,
            hi as int,
        ),
{
    let mut k: usize = lo;
    assert(out.deep_view() =~= old(out).deep_view() + from.deep_view().subrange(
        lo as int,
        lo as int,
    ));
    while k < hi
        invariant
            lo <= k <= hi <= from.len(),
            out.deep_view() == old(out).deep_view() + from.deep_view().subrange(
                lo as int,
                k as int,
            ),
        decreases hi - k,
    {
        let ghost held = out.deep_view();
        let copy = from[k].1.clone();
        out.push((from[k].0, copy));
        assert(out.deep_view() =~= held.push(from.deep_view()[k as int]));
        assert(held.push(from.deep_view()[k as int]) =~= old(out).deep_view()
            + from.deep_view().subrange(lo as int, k + 1));
        k += 1;
    }
}

/// A copy of a list of links.
fn copy_links(v: &Vec<Link>) -> (r: Vec<Link>)
    ensures
        r.deep_view() == v.deep_view(),
{
    let mut r: Vec<Link> = Vec::new();
    let mut k: usize = 0;
    while k < v.len()
        invariant
            k <= v.len(),
            r.len() == k,
            forall|j: int| 0 <= j < k ==> (#[trigger] r@[j])@ == v@[j]@,
        decreases v.len() - k,
    {
        r.push(v[k].clone());
        k += 1;
    }
    assert(r.deep_view() =~= v.deep_view());
    r
}

/// Appends copies of `from[lo..hi]`.
fn copy_tags(
    out: &mut Vec<(String, Vec<Link>)>,
    from: &Vec<(String, Vec<Link>)>,
    lo: usize,
    hi: usize,
)
    requires
        lo <= hi <= from.len(),
    ensures
        final(out).deep_view() == old(out).deep_view() + from.deep_view().subrange(
            lo as int,
            hi as int,
        ),
{
    let mut k: usize = lo;
    assert(out.deep_view() =~= old(out).deep_view() + from.deep_view().subrange(
        lo as int,
        lo as int,
    ));
    while k < hi
        invariant
            lo <= k <= hi <= from.len(),
            out.deep_view() == old(out).deep_view() + from.deep_view().subrange(
                lo as int,
                k as int,
            ),
        decreases hi - k,
    {
        let ghost held = out.deep_view();
        let links = copy_links(&from[k].1);
        out.push((from[k].0.clone(), links));
        assert(out.deep_view() =~= held.push(from.deep_view()[k as int]));
        assert(held.push(from.deep_view()[k as int]) =~= old(out).deep_view()
            + from.deep_view().subrange(lo as int, k + 1));
        k += 1;
    }
}

} // verus!
