//! The feeds: the gemtext feed, and the Atom feed as a tree of plain
//! values. atom_syndication holds the feed that is filled from those values
//! and writes it out; the xml crate indents what was written.

use crate::capsule::{newest_first, stamped_with, Capsule, CapsuleView, Post, PostView};
use crate::config::{capsule_url, copy_text, text_view, Config, ConfigView, Person, PersonView};
use crate::content::Meta;
use crate::error::{Error, Failure};
use crate::footer::{link_lines, push_link_lines, rights, rights_text};
use crate::index::{links_of_posts, post_links};
use crate::time::{
    is_date_time, lemma_rfc3339_text, parse_rfc3339, rfc3339_seconds, rfc3339_text, Time,
};
use crate::traits::{GetPath, ToDisk};
use crate::urls::{url_normal, with_path_text};
use atom_syndication::Feed as AtomFeed;
use atom_syndication::{EntryBuilder, Text};
use vstd::prelude::*;
use vstd::string::*;

verus! {

/// An Atom feed as atom_syndication holds it: a head and a list of
/// entries.
#[verifier::external_type_specification]
#[verifier::external_body]
pub struct ExAtomFeed(AtomFeed);

/// The entries that an atom_syndication feed holds, in their order, each
/// as plain values: title, id, the date, the author, the categories, the
/// link, the rights and the summary.
pub uninterp spec fn held_entries(feed: AtomFeed) -> Seq<FeedEntryView>;

/// What an atom_syndication feed holds beside its entries, as plain
/// values: title, id, the author, the rights and the base.
pub uninterp spec fn held_head(feed: AtomFeed) -> FeedHead;

/// The XML document that `atom_syndication::Feed::to_string` writes for a
/// feed that holds these values.
pub uninterp spec fn atom_text(feed: SyndicationView) -> Seq<char>;

/// What the xml crate makes of a document that is read event by event and
/// written again with indentation.
pub uninterp spec fn indented(xml: Seq<char>) -> Seq<char>;

/// The gemtext feed of a capsule.
#[derive(Debug)]
pub struct GemFeed(
    /// The content of the feed
    pub String,
);

/// The category that a tag gives an Atom entry.
#[derive(Debug)]
pub struct Topic {
    pub term: String,
    /// The address of the tag's page
    pub scheme: String,
    pub label: String,
}

/// What a `Topic` holds.
pub struct TopicView {
    pub term: Seq<char>,
    pub scheme: Seq<char>,
    pub label: Seq<char>,
}

impl View for Topic {
    type V = TopicView;

    open spec fn view(&self) -> TopicView {
        TopicView { term: self.term@, scheme: self.scheme@, label: self.label@ }
    }
}

impl DeepView for Topic {
    type V = TopicView;

    open spec fn deep_view(&self) -> TopicView {
        self@
    }
}

/// One entry of the Atom feed: a published post.
#[derive(Debug)]
pub struct FeedEntry {
    pub title: String,
    /// The post's address
    pub id: String,
    /// When the post was published, which is also when the entry was last
    /// updated
    pub updated: Time,
    pub author: Person,
    pub categories: Vec<Topic>,
    /// Where the entry's link leads
    pub href: String,
    /// What the entry's link is to the entry
    pub rel: String,
    pub rights: String,
    pub summary: Option<String>,
}

/// What a `FeedEntry` holds.
pub struct FeedEntryView {
    pub title: Seq<char>,
    pub id: Seq<char>,
    pub updated: Time,
    pub author: PersonView,
    pub categories: Seq<TopicView>,
    pub href: Seq<char>,
    pub rel: Seq<char>,
    pub rights: Seq<char>,
    pub summary: Option<Seq<char>>,
}

impl View for FeedEntry {
    type V = FeedEntryView;

    open spec fn view(&self) -> FeedEntryView {
        FeedEntryView {
            title: self.title@,
            id: self.id@,
            updated: self.updated,
            author: self.author@,
            categories: self.categories.deep_view(),
            href: self.href@,
            rel: self.rel@,
            rights: self.rights@,
            summary: text_view(self.summary),
        }
    }
}

impl DeepView for FeedEntry {
    type V = FeedEntryView;

    open spec fn deep_view(&self) -> FeedEntryView {
        self@
    }
}

/// The Atom feed of a capsule.
#[derive(Debug)]
pub struct Syndication {
    pub title: String,
    /// The capsule's address
    pub id: String,
    pub author: Person,
    pub rights: String,
    /// The capsule's address
    pub base: String,
    /// The posts, from the newest to the oldest
    pub entries: Vec<FeedEntry>,
}

/// What a `Syndication` holds.
pub struct SyndicationView {
    pub title: Seq<char>,
    pub id: Seq<char>,
    pub author: PersonView,
    pub rights: Seq<char>,
    pub base: Seq<char>,
    pub entries: Seq<FeedEntryView>,
}

impl View for Syndication {
    type V = SyndicationView;

    open spec fn view(&self) -> SyndicationView {
        SyndicationView {
            title: self.title@,
            id: self.id@,
            author: self.author@,
            rights: self.rights@,
            base: self.base@,
            entries: self.entries.deep_view(),
        }
    }
}

/// The gemtext feed: the title and one line for each post, from the
/// newest to the oldest, with the post's address in full.
pub open spec fn gemfeed_text(c: CapsuleView, cfg: ConfigView) -> Seq<char> {
    "# "@ + cfg.title + "\n\n"@ + link_lines(post_links(newest_first(c.posts)))
}

/// The path of a tag's page on the server.
pub open spec fn topic_path(cfg: ConfigView, tag: Seq<char>) -> Seq<char> {
    match cfg.path {
        Some(p) => p + "/tags/"@ + tag + ".gmi"@,
        None => "/tags/"@ + tag + ".gmi"@,
    }
}

/// The address of a tag's page.
pub open spec fn topic_url(cfg: ConfigView, tag: Seq<char>) -> Option<Seq<char>> {
    match url_normal("gemini://"@ + cfg.domain) {
        Some(u) => with_path_text(u, topic_path(cfg, tag)),
        None => None,
    }
}

/// The category of one tag.
pub open spec fn topic_of(cfg: ConfigView, tag: Seq<char>) -> Option<TopicView> {
    match topic_url(cfg, tag) {
        Some(u) => Some(TopicView { term: tag, scheme: u, label: tag }),
        None => None,
    }
}

/// The categories of a list of tags, in their order. Nothing where the
/// address of a tag's page cannot be made.
pub open spec fn topics_of(cfg: ConfigView, tags: Seq<Seq<char>>) -> Option<Seq<TopicView>>
    decreases tags.len(),
{
    if tags.len() == 0 {
        Some(Seq::empty())
    } else {
        match (topics_of(cfg, tags.drop_last()), topic_of(cfg, tags.last())) {
            (Some(head), Some(t)) => Some(head.push(t)),
            _ => None,
        }
    }
}

/// The Atom entry of a post. Nothing where the post has no time of
/// publication, where that time is no date and time, or where the address
/// of a tag's page cannot be made.
pub open spec fn entry_of(cfg: ConfigView, post: PostView) -> Option<FeedEntryView> {
    let time = post.meta.published->0;
    if post.meta.published is None || !is_date_time(time) {
        None
    } else {
        match topics_of(cfg, post.meta.tags) {
            Some(categories) => Some(
                FeedEntryView {
                    title: post.meta.title,
                    id: post.link.url,
                    updated: time,
                    author: cfg.author,
                    categories,
                    href: post.link.url,
                    rel: "alternate"@,
                    rights: rights_text(time.year as int, cfg.author.name),
                    summary: post.meta.summary,
                },
            ),
            None => None,
        }
    }
}

/// What a post that has no Atom entry fails on: its missing time of
/// publication, that time where it is no date and time, else the address
/// of a tag's page.
pub open spec fn entry_failure(post: PostView) -> Failure {
    if post.meta.published is None {
        Failure::Other
    } else if !is_date_time(post.meta.published->0) {
        Failure::Time
    } else {
        Failure::Url
    }
}

/// The Atom entries of a list of posts, in their order. Nothing where one
/// of them has none.
pub open spec fn entries_of(cfg: ConfigView, posts: Seq<PostView>) -> Option<Seq<FeedEntryView>>
    decreases posts.len(),
{
    if posts.len() == 0 {
        Some(Seq::empty())
    } else {
        match (entries_of(cfg, posts.drop_last()), entry_of(cfg, posts.last())) {
            (Some(head), Some(e)) => Some(head.push(e)),
            _ => None,
        }
    }
}

/// The address that the feed names as its own: the capsule's, with the
/// configured path set once more.
pub open spec fn feed_url(cfg: ConfigView) -> Option<Seq<char>> {
    match capsule_url(cfg) {
        Some(root) => match cfg.path {
            Some(p) => with_path_text(root, p),
            None => Some(root),
        },
        None => None,
    }
}

/// The year in the feed's rights: that of the newest post, or `year` where
/// there is no post.
pub open spec fn feed_year(c: CapsuleView, year: int) -> int {
    if c.posts.len() > 0 && c.posts.last().1.meta.published is Some {
        (c.posts.last().1.meta.published->0).year as int
    } else {
        year
    }
}

/// The Atom feed of a capsule: one entry for each post, from the newest
/// to the oldest.
pub open spec fn feed_of(c: CapsuleView, cfg: ConfigView, year: int) -> Option<SyndicationView> {
    match (entries_of(cfg, newest_first(c.posts)), feed_url(cfg)) {
        (Some(entries), Some(url)) => Some(
            SyndicationView {
                title: cfg.title,
                id: url,
                author: cfg.author,
                rights: rights_text(feed_year(c, year), cfg.author.name),
                base: url,
                entries,
            },
        ),
        _ => None,
    }
}

/// One missing entry leaves no entries at all.
pub proof fn lemma_entries_none(cfg: ConfigView, posts: Seq<PostView>, i: int)
    requires
        0 <= i < posts.len(),
        entry_of(cfg, posts[i]) is None,
    ensures
        entries_of(cfg, posts) is None,
    decreases posts.len(),
{
    if i < posts.len() - 1 {
        lemma_entries_none(cfg, posts.drop_last(), i);
    }
}

/// One missing category leaves no categories at all.
pub proof fn lemma_topics_none(cfg: ConfigView, tags: Seq<Seq<char>>, i: int)
    requires
        0 <= i < tags.len(),
        topic_of(cfg, tags[i]) is None,
    ensures
        topics_of(cfg, tags) is None,
    decreases tags.len(),
{
    if i < tags.len() - 1 {
        lemma_topics_none(cfg, tags.drop_last(), i);
    }
}

/// The entries stand in the order of the posts, each under its post's
/// address.
pub proof fn lemma_entries_follow_posts(cfg: ConfigView, posts: Seq<PostView>)
    requires
        entries_of(cfg, posts) is Some,
    ensures
        entries_of(cfg, posts)->0.len() == posts.len(),
        forall|i: int|
            0 <= i < posts.len() ==> entry_of(cfg, posts[i]) == Some(
                #[trigger] entries_of(cfg, posts)->0[i],
            ),
    decreases posts.len(),
{
    if posts.len() > 0 {
        lemma_entries_follow_posts(cfg, posts.drop_last());
        let all = entries_of(cfg, posts)->0;
        assert forall|i: int| 0 <= i < posts.len() implies entry_of(cfg, posts[i]) == Some(
            #[trigger] all[i],
        ) by {
            if i < posts.len() - 1 {
                assert(posts.drop_last()[i] == posts[i]);
            }
        }
    }
}

/// What a feed holds beside its entries.
pub struct FeedHead {
    pub title: Seq<char>,
    pub id: Seq<char>,
    pub author: PersonView,
    pub rights: Seq<char>,
    pub base: Seq<char>,
}

/// The head of a feed.
pub open spec fn head_of(feed: SyndicationView) -> FeedHead {
    FeedHead {
        title: feed.title,
        id: feed.id,
        author: feed.author,
        rights: feed.rights,
        base: feed.base,
    }
}

/// The feed with this head and these entries.
pub open spec fn feed_with(head: FeedHead, entries: Seq<FeedEntryView>) -> SyndicationView {
    SyndicationView {
        title: head.title,
        id: head.id,
        author: head.author,
        rights: head.rights,
        base: head.base,
        entries,
    }
}

/// An entry with the first `count` of its categories only.
pub open spec fn with_topics(entry: FeedEntryView, count: int) -> FeedEntryView {
    FeedEntryView { categories: entry.categories.take(count), ..entry }
}

/// Builds atom_syndication's `Feed` from the head of a feed: title, id,
/// the one author, rights and base are taken over, every other field is
/// left as `Feed::default` has it, and there are no entries yet.
#[verifier::external_body]
fn atom_feed(feed: &Syndication) -> (f: AtomFeed)
    ensures
        held_head(f) == head_of(feed@),
        held_entries(f).len() == 0,
{
    AtomFeed {
        title: feed.title.as_str().into(),
        id: feed.id.clone(),
        authors: vec![atom_syndication::Person {
            name: feed.author.name.clone(),
            email: feed.author.email.clone(),
            uri: feed.author.url.clone(),
            ..Default::default()
        }],
        rights: Some(feed.rights.as_str().into()),
        base: Some(feed.base.clone()),
        ..Default::default()
    }
}

/// Adds an entry at the end of the feed's entries, without categories.
/// The entry's two dates are one, which
/// `chrono::DateTime::parse_from_rfc3339` reads from `date`; where chrono
/// refuses that text, the feed stays as it is.
#[verifier::external_body]
fn push_entry(f: &mut AtomFeed, entry: &FeedEntry, date: &str) -> (r: Result<(), chrono::ParseError>)
    requires
        date@ == rfc3339_text(entry.updated),
    ensures
        r is Ok <==> rfc3339_seconds(date@) is Some,
        held_head(*final(f)) == held_head(*old(f)),
        r is Ok ==> held_entries(*final(f)) == held_entries(*old(f)).push(with_topics(entry@, 0)),
        r is Err ==> held_entries(*final(f)) == held_entries(*old(f)),
{
    let parsed = chrono::DateTime::parse_from_rfc3339(date)?;
    let mut author = atom_syndication::Person::default();
    author.set_name(&entry.author.name);
    author.set_email(entry.author.email.clone());
    author.set_uri(entry.author.url.clone());
    let mut link = atom_syndication::Link::default();
    link.set_href(&entry.href);
    link.set_rel(&entry.rel);
    f.entries.push(EntryBuilder::default().title(entry.title.clone()).id(entry.id.clone())
        .updated(parsed).author(author).link(link).published(parsed)
        .rights(Text::plain(entry.rights.clone()))
        .summary(entry.summary.clone().map(Text::plain)).build());
    Ok(())
}

/// Adds a category at the end of the categories of the feed's last
/// entry.
#[verifier::external_body]
fn push_category(f: &mut AtomFeed, topic: &Topic)
    requires
        held_entries(*old(f)).len() > 0,
    ensures
        held_head(*final(f)) == held_head(*old(f)),
        held_entries(*final(f)) == held_entries(*old(f)).drop_last().push(
            FeedEntryView {
                categories: held_entries(*old(f)).last().categories.push(topic@),
                ..held_entries(*old(f)).last()
            },
        ),
{
    if let Some(last) = f.entries.last_mut() {
        last.categories.push(
            atom_syndication::Category {
                term: topic.term.clone(),
                scheme: Some(topic.scheme.clone()),
                label: Some(topic.label.clone()),
            },
        );
    }
}

/// Writes the feed out with `Feed::to_string`. The text depends on what
/// the feed holds alone.
#[verifier::external_body]
fn feed_text(f: &AtomFeed) -> (s: String)
    ensures
        s@ == atom_text(feed_with(held_head(*f), held_entries(*f))),
{
    f.to_string()
}

/// Reads `xml` with `xml::EventReader` and hands every event that was read
/// without an error, in the form that `XmlEvent::as_writer_event` gives it,
/// to an `xml::EventWriter` that indents. What comes out depends on `xml`
/// alone.
#[verifier::external_body]
fn reindent(xml: &str) -> (out: String)
    ensures
        out@ == indented(xml@),
{
    let mut writer = xml::EmitterConfig::new().perform_indent(true).create_writer(Vec::new());
    for event in xml::EventReader::new(xml.as_bytes()) {
        if let Ok(event) = event {
            if let Some(event) = event.as_writer_event() {
                let _ = writer.write(event);
            }
        }
    }
    String::from_utf8_lossy(&writer.into_inner()).into_owned()
}

/// Writes an XML document again, indented, and closes it with a line end.
fn indent_xml(xml: &str) -> (out: String)
    ensures
        out@ == indented(xml@).push('\n'),
{
    closed(reindent(xml))
}

/// The Atom document of a feed, as atom_syndication writes it. It exists
/// where the date of every entry is a date and time.
pub fn atom_xml(feed: &Syndication) -> (r: Result<String, Error>)
    ensures
        r is Ok <==> dates_hold(feed@.entries),
        r matches Err(e) ==> e is TimeError,
        r matches Ok(s) ==> s@ == atom_text(feed@),
{
    let ghost all = feed@.entries;
    let mut f = atom_feed(feed);
    assert(held_entries(f) =~= all.take(0));
    let mut i: usize = 0;
    while i < feed.entries.len()
        invariant
            i <= feed.entries.len(),
            all == feed@.entries,
            held_head(f) == head_of(feed@),
            held_entries(f) == all.take(i as int),
            dates_hold(all.take(i as int)),
        decreases feed.entries.len() - i,
    {
        let entry = &feed.entries[i];
        assert(all[i as int] == entry@);
        let date = entry.updated.to_rfc_3339();
        match entry.updated.timestamp() {
            Ok(_) => {},
            Err(e) => {
                return Err(e);
            },
        }
        match push_entry(&mut f, entry, date.as_str()) {
            Ok(_) => {},
            Err(e) => {
                return Err(Error::TimeError(e));
            },
        }
        let mut k: usize = 0;
        assert(entry@.categories.take(0) =~= Seq::<TopicView>::empty());
        while k < entry.categories.len()
            invariant
                k <= entry.categories.len(),
                all == feed@.entries,
                i < feed.entries.len(),
                all[i as int] == entry@,
                held_head(f) == head_of(feed@),
                held_entries(f) == all.take(i as int).push(with_topics(entry@, k as int)),
            decreases entry.categories.len() - k,
        {
            let ghost before = held_entries(f);
            push_category(&mut f, &entry.categories[k]);
            proof {
                assert(before.drop_last() =~= all.take(i as int));
                assert(entry@.categories.take(k as int).push(entry.categories@[k as int]@)
                    =~= entry@.categories.take(k + 1));
            }
            k += 1;
        }
        proof {
            assert(entry@.categories.take(k as int) =~= entry@.categories);
            assert(with_topics(entry@, k as int) == entry@);
            assert(all.take(i as int).push(entry@) =~= all.take(i + 1));
            assert forall|j: int| 0 <= j < i + 1 implies is_date_time(
                (#[trigger] all.take(i + 1)[j]).updated,
            ) by {
                if j < i {
                    assert(all.take(i as int)[j] == all.take(i + 1)[j]);
                }
            }
        }
        i += 1;
    }
    assert(all.take(feed.entries.len() as int) =~= all);
    assert(feed_with(head_of(feed@), all) == feed@);
    Ok(feed_text(&f))
}

impl GetPath for GemFeed {
    fn get_path(root: &str, _subdir: Option<&str>) -> (path: String)
        ensures
            path@ == root@ + "/gemlog/feed.gmi"@,
    {
        let mut path = String::from_str(root);
        path.append("/gemlog/feed.gmi");
        path
    }
}

impl ToDisk for GemFeed {
    type Err = Error;

    fn to_disk(&self) -> (r: Result<String, Error>)
        ensures
            r is Ok,
            r->Ok_0@ == self.0@,
    {
        Ok(self.0.clone())
    }
}

impl GetPath for Syndication {
    fn get_path(root: &str, _subdir: Option<&str>) -> (path: String)
        ensures
            path@ == root@ + "/gemlog/atom.xml"@,
    {
        let mut path = String::from_str(root);
        path.append("/gemlog/atom.xml");
        path
    }
}

/// Closes a document that was written out: a line end follows it.
pub fn closed(document: String) -> (out: String)
    ensures
        out@ == document@.push('\n'),
{
    let mut out = document;
    out.push('\n');
    out
}

/// Whether the date of every entry is a date and time.
pub open spec fn dates_hold(entries: Seq<FeedEntryView>) -> bool {
    forall|i: int| 0 <= i < entries.len() ==> is_date_time((#[trigger] entries[i]).updated)
}

impl ToDisk for Syndication {
    type Err = Error;

    /// The feed as an indented XML document with a line end after it: what
    /// the xml crate makes of what atom_syndication writes for the feed. It
    /// exists where the date of every entry is a date and time.
    fn to_disk(&self) -> (r: Result<String, Error>)
        ensures
            r is Ok <==> dates_hold(self@.entries),
            r matches Err(e) ==> e is TimeError,
            r matches Ok(s) ==> s@ == indented(atom_text(self@)).push('\n'),
    {
        match atom_xml(self) {
            Ok(raw) => Ok(indent_xml(raw.as_str())),
            Err(e) => Err(e),
        }
    }
}

impl Meta {
    /// The Atom categories of this document: one for each tag, with the
    /// address of the tag's page.
    pub fn categories(&self, cfg: &Config) -> (r: Result<Vec<Topic>, Error>)
        ensures
            match r {
                Ok(v) => topics_of(cfg@, self@.tags) == Some(v.deep_view()),
                Err(e) => e is UrlError && topics_of(cfg@, self@.tags) is None,
            },
    {
        let ghost all = self@.tags;
        let mut v: Vec<Topic> = Vec::new();
        assert(v.deep_view() =~= Seq::<TopicView>::empty());
        let mut i: usize = 0;
        while i < self.tags.len()
            invariant
                i <= self.tags.len(),
                all == self@.tags,
                topics_of(cfg@, all.subrange(0, i as int)) == Some(v.deep_view()),
            decreases self.tags.len() - i,
        {
            let tag = &self.tags[i];
            proof {
                let next = all.subrange(0, i + 1);
                assert(next.drop_last() =~= all.subrange(0, i as int));
                assert(next.last() == tag@);
                assert(all[i as int] == tag@);
                if topic_of(cfg@, tag@) is None {
                    lemma_topics_none(cfg@, all, i as int);
                }
            }
            let mut origin = String::from_str("gemini://");
            origin.append(cfg.domain.as_str());
            let parsed = crate::urls::parse(origin.as_str())?;
            let mut path = match &cfg.path {
                Some(p) => p.clone(),
                None => String::new(),
            };
            path.append("/tags/");
            path.append(tag.as_str());
            path.append(".gmi");
            assert(path@ =~= topic_path(cfg@, tag@));
            let scheme = crate::urls::with_path(parsed.as_str(), path.as_str())?;
            let ghost held = v.deep_view();
            let topic = Topic { term: tag.clone(), scheme, label: tag.clone() };
            let ghost added = topic@;
            v.push(topic);
            assert(v.deep_view() =~= held.push(added));
            i += 1;
        }
        assert(all.subrange(0, self.tags.len() as int) =~= all);
        Ok(v)
    }
}

impl Post {
    /// Generates an atom feed entry for this post. It fails with a
    /// `TimeError` where the time of publication is no date and time, with a
    /// `UrlError` where the address of a tag's page cannot be made, and with
    /// an `OtherError` for a post without a time of publication.
    pub fn to_entry(&self, cfg: &Config) -> (r: Result<FeedEntry, Error>)
        ensures
            match r {
                Ok(e) => entry_of(cfg@, self@) == Some(e@),
                Err(e) => entry_of(cfg@, self@) is None && e.failure() == entry_failure(self@),
            },
    {
        let time = match self.meta.published {
            Some(t) => t,
            None => {
                return Err(Error::OtherError(String::from_str("Post without a date")));
            },
        };
        match time.timestamp() {
            Ok(_) => {},
            Err(e) => {
                return Err(e);
            },
        }
        let categories = match self.meta.categories(cfg) {
            Ok(c) => c,
            Err(e) => {
                return Err(e);
            },
        };
        Ok(
            FeedEntry {
                title: self.meta.title.clone(),
                id: self.link.url.clone(),
                updated: time,
                author: cfg.author.clone(),
                categories,
                href: self.link.url.clone(),
                rel: String::from_str("alternate"),
                rights: rights(time.year(), cfg.author.name.as_str()),
                summary: copy_text(&self.meta.summary),
            },
        )
    }
}

impl Capsule {
    /// The gemtext feed.
    pub fn write_gemfeed(&self, cfg: &Config) -> (feed: GemFeed)
        ensures
            feed.0@ == gemfeed_text(self@, cfg@),
    {
        let posts = self.posts();
        let links = links_of_posts(&posts);
        let mut out = String::from_str("# ");
        out.append(cfg.title.as_str());
        out.append("\n\n");
        push_link_lines(&mut out, &links);
        GemFeed(out)
    }

    /// Generates an Atom feed from the metadata. `year` is the current
    /// year, which stands in the feed's rights where there is no post. Every
    /// post of a capsule has a time that is a date and time, so the feed
    /// fails on an address only.
    pub fn to_feed(&self, cfg: &Config, year: i32) -> (r: Result<Syndication, Error>)
        ensures
            match r {
                Ok(feed) => feed_of(self@, cfg@, year as int) == Some(feed@),
                Err(e) => e is UrlError && feed_of(self@, cfg@, year as int) is None,
            },
    {
        proof {
            use_type_invariant(self);
        }
        let posts = self.posts();
        let ghost all = newest_first(self@.posts);
        let mut entries: Vec<FeedEntry> = Vec::new();
        assert(entries.deep_view() =~= Seq::<FeedEntryView>::empty());
        let mut i: usize = 0;
        while i < posts.len()
            invariant
                i <= posts.len(),
                self.wf(),
                all == newest_first(self@.posts),
                all == posts.deep_view(),
                entries_of(cfg@, all.subrange(0, i as int)) == Some(entries.deep_view()),
            decreases posts.len() - i,
        {
            proof {
                let next = all.subrange(0, i + 1);
                assert(next.drop_last() =~= all.subrange(0, i as int));
                assert(next.last() == posts@[i as int]@);
                assert(all[i as int] == posts@[i as int]@);
                assert(all[i as int] == self@.posts[self@.posts.len() - 1 - i].1);
                if entry_of(cfg@, all[i as int]) is None {
                    lemma_entries_none(cfg@, all, i as int);
                }
                let at = self@.posts.len() - 1 - i;
                assert(stamped_with(self@.posts[at].0, self@.posts[at].1));
                reveal(stamped_with);
                assert(entry_failure(all[i as int]) == Failure::Url);
            }
            let entry = match posts[i].to_entry(cfg) {
                Ok(e) => e,
                Err(e) => {
                    return Err(e);
                },
            };
            let ghost held = entries.deep_view();
            let ghost added = entry@;
            entries.push(entry);
            assert(entries.deep_view() =~= held.push(added));
            i += 1;
        }
        assert(all.subrange(0, posts.len() as int) =~= all);
        let stamp_year = if posts.len() > 0 {
            assert(all[0] == self@.posts.last().1);
            match posts[0].meta.published {
                Some(t) => t.year(),
                None => year,
            }
        } else {
            year
        };
        let root = cfg.url()?;
        let url = match &cfg.path {
            Some(p) => crate::urls::with_path(root.as_str(), p.as_str())?,
            None => root,
        };
        Ok(
            Syndication {
                title: cfg.title.clone(),
                id: url.clone(),
                author: cfg.author.clone(),
                rights: rights(stamp_year, cfg.author.name.as_str()),
                base: url,
                entries,
            },
        )
    }
}

} // verus!
