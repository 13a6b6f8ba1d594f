//! A link: where it leads and what the reader sees.

use crate::config::{capsule_url, Config, ConfigView};
use crate::content::{Meta, MetaView};
use crate::error::Error;
use crate::time::date_text;
use crate::urls::with_path_text;
use vstd::prelude::*;
use vstd::string::*;

verus! {

/// Represents both a url and the text to be displayed
#[derive(Debug)]
pub struct Link {
    pub url: String,
    /// The string which will be displayed in lieu of the full url
    pub display: String,
}

/// What a `Link` holds.
pub struct LinkView {
    pub url: Seq<char>,
    pub display: Seq<char>,
}

impl View for Link {
    type V = LinkView;

    open spec fn view(&self) -> LinkView {
        LinkView { url: self.url@, display: self.display@ }
    }
}

impl DeepView for Link {
    type V = LinkView;

    open spec fn deep_view(&self) -> LinkView {
        self@
    }
}

/// The gemtext line of a link: `=> url display`.
pub open spec fn link_line(url: Seq<char>, display: Seq<char>) -> Seq<char> {
    "=> "@ + url + " "@ + display
}

impl Clone for Link {
    fn clone(&self) -> (r: Self)
        ensures
            r@ == self@,
    {
        Link { url: self.url.clone(), display: self.display.clone() }
    }
}

impl Default for Link {
    fn default() -> (r: Self)
        ensures
            r@.url.len() == 0,
            r@.display.len() == 0,
    {
        Link { url: String::new(), display: String::new() }
    }
}

impl Link {
    /// The gemtext line of this link.
    pub fn to_string(&self) -> (s: String)
        ensures
            s@ == link_line(self@.url, self@.display),
    {
        let mut s = String::from_str("=> ");
        s.append(self.url.as_str());
        s.append(" ");
        s.append(self.display.as_str());
        s
    }
}

/// The names of `parts` with a slash between them.
pub open spec fn joined(parts: Seq<Seq<char>>) -> Seq<char>
    decreases parts.len(),
{
    if parts.len() == 0 {
        Seq::empty()
    } else if parts.len() == 1 {
        parts[0]
    } else {
        joined(parts.drop_last()) + "/"@ + parts.last()
    }
}

/// What a reader sees of a link to a document: its date and its title.
pub open spec fn display_text(meta: MetaView) -> Seq<char> {
    date_text(meta.published->0) + " - "@ + meta.title
}

/// The address of the document at `origin`, given from the content root:
/// the capsule's address with its path replaced by the document's.
pub open spec fn document_url(cfg: ConfigView, origin: Seq<Seq<char>>) -> Option<Seq<char>> {
    match capsule_url(cfg) {
        Some(root) => with_path_text(root, joined(origin)),
        None => None,
    }
}

/// The link to a published document; nothing where its address cannot be
/// made.
pub open spec fn link_to(cfg: ConfigView, origin: Seq<Seq<char>>, meta: MetaView) -> Option<
    LinkView,
> {
    match document_url(cfg, origin) {
        Some(url) => Some(LinkView { url, display: display_text(meta) }),
        None => None,
    }
}

/// Joins the names of a path with slashes.
pub fn join_path(parts: &Vec<String>) -> (s: String)
    ensures
        s@ == joined(parts.deep_view()),
{
    let ghost all = parts.deep_view();
    let mut s = String::new();
    let mut i: usize = 0;
    while i < parts.len()
        invariant
            i <= parts.len(),
            all == parts.deep_view(),
            s@ == joined(all.subrange(0, i as int)),
        decreases parts.len() - i,
    {
        if i > 0 {
            s.append("/");
        }
        s.append(parts[i].as_str());
        proof {
            let next = all.subrange(0, i + 1);
            assert(next.drop_last() =~= all.subrange(0, i as int));
            assert(next.last() == parts@[i as int]@);
            if i == 0 {
                assert(s@ =~= next[0]);
            }
        }
        i += 1;
    }
    assert(all.subrange(0, parts.len() as int) =~= all);
    s
}

impl Link {
    /// Takes the document's path in the content tree and its metadata and
    /// returns the link to the document.
    pub fn get(origin: &Vec<String>, meta: &Meta, cfg: &Config) -> (r: Result<Link, Error>)
        requires
            meta@.published is Some,
        ensures
            match r {
                Ok(link) => link_to(cfg@, origin.deep_view(), meta@) == Some(link@),
                Err(e) => e is UrlError && link_to(cfg@, origin.deep_view(), meta@) is None,
            },
    {
        let root = cfg.url()?;
        let path = join_path(origin);
        let url = crate::urls::with_path(root.as_str(), path.as_str())?;
        let time = meta.published.unwrap();
        let mut display = time.date_string();
        display.append(" - ");
        display.append(meta.title.as_str());
        Ok(Link { url, display })
    }
}

} // verus!
