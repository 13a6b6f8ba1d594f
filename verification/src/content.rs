//! Pages and gemlog posts: their metadata and their source text.

use crate::config::{copy_text, text_view};
use crate::error::Error;
use crate::frontmatter::{
    document_text, free_of_delimiter, has_delimiter, join_document, lemma_round_trip, parse_text,
    split_document,
};
use crate::text::{chars_of, trim, trimmed};
use crate::time::Time;
use vstd::prelude::*;
use vstd::string::*;

verus! {

/// The content type, page or post
#[derive(Debug)]
pub enum Kind {
    /// An ordinary page plus the path from the content root
    Page(
        /// The path from the capsule root to this document
        Option<String>,
    ),
    /// A gemlog post
    Post,
}

/// What a `Kind` holds.
pub enum KindView {
    Page(Option<Seq<char>>),
    Post,
}

impl View for Kind {
    type V = KindView;

    open spec fn view(&self) -> KindView {
        match self {
            Kind::Page(p) => KindView::Page(text_view(*p)),
            Kind::Post => KindView::Post,
        }
    }
}

impl Clone for Kind {
    fn clone(&self) -> (r: Self)
        ensures
            r@ == self@,
    {
        match self {
            Kind::Page(p) => Kind::Page(copy_text(p)),
            Kind::Post => Kind::Post,
        }
    }
}

/// Metadata for a page or post
#[derive(Debug)]
pub struct Meta {
    /// The title of this page
    pub title: String,
    /// A brief summary of this page which will appear in the atom feed
    pub summary: Option<String>,
    /// If unset, this page will not be included in the generated output. If set,
    /// this will represent the date and time of publication
    pub published: Option<Time>,
    /// Categories for this page
    pub tags: Vec<String>,
}

/// What a `Meta` holds.
pub struct MetaView {
    pub title: Seq<char>,
    pub summary: Option<Seq<char>>,
    pub published: Option<Time>,
    pub tags: Seq<Seq<char>>,
}

impl View for Meta {
    type V = MetaView;

    open spec fn view(&self) -> MetaView {
        MetaView {
            title: self.title@,
            summary: text_view(self.summary),
            published: self.published,
            tags: self.tags.deep_view(),
        }
    }
}

/// A copy of a list of texts.
pub fn copy_texts(v: &Vec<String>) -> (r: Vec<String>)
    ensures
        r.deep_view() == v.deep_view(),
{
    let mut r: Vec<String> = Vec::new();
    let mut i: usize = 0;
    while i < v.len()
        invariant
            i <= v.len(),
            r.len() == i,
            forall|k: int| 0 <= k < i ==> r@[k]@ == v@[k]@,
        decreases v.len() - i,
    {
        r.push(v[i].clone());
        i += 1;
    }
    assert(r.deep_view() =~= v.deep_view());
    r
}

impl Clone for Meta {
    fn clone(&self) -> (r: Self)
        ensures
            r@ == self@,
    {
        Meta {
            title: self.title.clone(),
            summary: copy_text(&self.summary),
            published: self.published,
            tags: copy_texts(&self.tags),
        }
    }
}

/// Metadata that holds nothing: no title, no summary, no time of
/// publication, no tags.
pub open spec fn empty_meta() -> MetaView {
    MetaView { title: Seq::empty(), summary: None, published: None, tags: Seq::empty() }
}

impl Default for Meta {
    fn default() -> (r: Self)
        ensures
            r@ == empty_meta(),
    {
        let r = Meta { title: String::new(), summary: None, published: None, tags: Vec::new() };
        assert(r.tags.deep_view() =~= Seq::<Seq<char>>::empty());
        r
    }
}

/// What `str::to_lowercase` makes of a text.
pub uninterp spec fn lowercased(s: Seq<char>) -> Seq<char>;

/// Calls `str::to_lowercase`, which maps each character to its Unicode
/// lower case. The result depends on the text alone.
#[verifier::external_body]
fn to_lowercase(s: &str) -> (r: String)
    ensures
        r@ == lowercased(s@),
{
    s.to_lowercase()
}

/// `s` with an underscore for each space.
pub open spec fn underscored(s: Seq<char>) -> Seq<char> {
    s.map_values(
        |c: char|
            if c == ' ' {
                '_'
            } else {
                c
            },
    )
}

/// The file name that a title gives: trimmed, in lower case, underscores
/// for spaces, ending in `.gmi`.
pub open spec fn file_name_of(title: Seq<char>) -> Seq<char> {
    underscored(lowercased(trim(title))) + ".gmi"@
}

/// Where the source of a document with this title and kind is kept.
pub open spec fn source_path(title: Seq<char>, kind: KindView) -> Seq<char> {
    match kind {
        KindView::Page(Some(path)) => path,
        KindView::Page(None) => "content/"@ + file_name_of(title),
        KindView::Post => "content/gemlog/"@ + file_name_of(title),
    }
}

fn file_name(title: &str) -> (s: String)
    ensures
        s@ == file_name_of(title@),
{
    let clean = trimmed(title);
    let lower = to_lowercase(clean.as_str());
    let v = chars_of(lower.as_str());
    let mut s = String::new();
    let mut i: usize = 0;
    while i < v.len()
        invariant
            i <= v.len(),
            s@ == underscored(v@.subrange(0, i as int)),
        decreases v.len() - i,
    {
        let c = v[i];
        if c == ' ' {
            s.push('_');
        } else {
            s.push(c);
        }
        i += 1;
        assert(s@ =~= underscored(v@.subrange(0, i as int)));
    }
    assert(v@.subrange(0, v.len() as int) =~= v@);
    s.append(".gmi");
    s
}

impl Meta {
    /// Marks this item as published with a publishing time corresponding the
    /// current UTC time. A second call moves the time of publication.
    pub fn publish(&mut self)
        ensures
            final(self)@.title == old(self)@.title,
            final(self)@.summary == old(self)@.summary,
            final(self)@.tags == old(self)@.tags,
            final(self)@.published is Some,
            ({
                let t = final(self)@.published->0;
                1 <= t.month <= 12 && 1 <= t.day <= crate::time::days_in_month(
                    t.year as int,
                    t.month as int,
                ) && t.hour <= 23 && t.minute <= 59 && t.second <= 59
            }),
    {
        self.published = Some(Time::now());
    }

    /// Marks this item as published at `time`.
    pub fn publish_at(&mut self, time: Time)
        ensures
            final(self)@ == (MetaView { published: Some(time), ..old(self)@ }),
    {
        self.published = Some(time);
    }

    /// Given the title and `Kind` of this item, returns the path to the source file
    pub fn get_path(title: &str, kind: Kind) -> (path: String)
        ensures
            path@ == source_path(title@, kind@),
    {
        match kind {
            Kind::Page(Some(path)) => path,
            Kind::Page(None) => {
                let mut path = String::from_str("content/");
                path.append(file_name(title).as_str());
                path
            },
            Kind::Post => {
                let mut path = String::from_str("content/gemlog/");
                path.append(file_name(title).as_str());
                path
            },
        }
    }
}

/// A freestanding page or gemlog post
#[derive(Debug)]
pub struct Page {
    /// Metadata about this page
    pub meta: Meta,
    /// The content used to generate this page
    pub content: String,
}

/// What a `Page` holds.
pub struct PageView {
    pub meta: MetaView,
    pub content: Seq<char>,
}

impl View for Page {
    type V = PageView;

    open spec fn view(&self) -> PageView {
        PageView { meta: self.meta@, content: self.content@ }
    }
}

impl Clone for Page {
    fn clone(&self) -> (r: Self)
        ensures
            r@ == self@,
    {
        Page { meta: self.meta.clone(), content: self.content.clone() }
    }
}

impl Default for Page {
    fn default() -> (r: Self)
        ensures
            r@ == (PageView { meta: empty_meta(), content: Seq::empty() }),
    {
        Page { meta: Meta::default(), content: String::new() }
    }
}

impl Page {
    /// Splits the text of a source document into its header and its body,
    /// each without the blanks around it. The header is what the metadata
    /// is read from; the body is the page's content.
    pub fn split(text: &str) -> (r: (String, String))
        ensures
            r.0@ == parse_text(text@).0,
            r.1@ == parse_text(text@).1,
    {
        split_document(text)
    }

    /// The text under which this page is saved, given its metadata written
    /// out as `header`: the header, the delimiter line and the content.
    /// Reading that text gives back the header and the content, each
    /// without the blanks around it. A header with a line that is exactly
    /// `---` could not be read back, and is refused.
    pub fn to_disk(&self, header: &str) -> (r: Result<String, Error>)
        ensures
            match r {
                Ok(s) => free_of_delimiter(header@) && s@ == document_text(
                    header@,
                    self@.content,
                ) && parse_text(s@) == (trim(header@), trim(self@.content)),
                Err(e) => e is FormatError && !free_of_delimiter(header@),
            },
    {
        if has_delimiter(header) {
            return Err(Error::FormatError);
        }
        proof {
            lemma_round_trip(header@, self@.content);
        }
        Ok(join_document(header, self.content.as_str()))
    }

    /// A new, unpublished and empty page, and the path of its source file.
    pub fn create(kind: Kind, title: &str, summary: Option<&str>, tags: Vec<String>) -> (r: (
        String,
        Page,
    ))
        ensures
            r.0@ == source_path(title@, kind@),
            r.1@ == (PageView {
                meta: MetaView {
                    title: title@,
                    summary: match summary {
                        Some(s) => Some(s@),
                        None => None,
                    },
                    published: None,
                    tags: tags.deep_view(),
                },
                content: Seq::empty(),
            }),
    {
        let path = Meta::get_path(title, kind);
        let meta = Meta {
            title: String::from_str(title),
            summary: match summary {
                Some(s) => Some(String::from_str(s)),
                None => None,
            },
            published: None,
            tags,
        };
        (path, Page { meta, content: String::new() })
    }

    /// Marks this page as published now; the rest of it stays.
    pub fn publish(&mut self)
        ensures
            final(self)@.content == old(self)@.content,
            final(self)@.meta.title == old(self)@.meta.title,
            final(self)@.meta.summary == old(self)@.meta.summary,
            final(self)@.meta.tags == old(self)@.meta.tags,
            final(self)@.meta.published is Some,
            ({
                let t = final(self)@.meta.published->0;
                1 <= t.month <= 12 && 1 <= t.day <= crate::time::days_in_month(
                    t.year as int,
                    t.month as int,
                ) && t.hour <= 23 && t.minute <= 59 && t.second <= 59
            }),
    {
        self.meta.publish();
    }

    /// The path of the source file that an editor is to open.
    pub fn edit(kind: Kind, title: &str) -> (path: String)
        ensures
            path@ == source_path(title@, kind@),
    {
        Meta::get_path(title, kind)
    }
}

} // verus!
