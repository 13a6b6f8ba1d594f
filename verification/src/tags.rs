//! The tag pages: one page for each tag, and one that lists the tags.

use crate::capsule::{Capsule, CapsuleView, Tags};
use crate::config::{capsule_url, Config, ConfigView};
use crate::error::Error;
use crate::footer::{footer_text, write_footer};
use crate::index::{push_reference_lines, reference_lines, Index};
use crate::link::LinkView;
use crate::render::{banner_text, push_banner};
use crate::urls::url_joined;
use vstd::prelude::*;
use vstd::string::*;

verus! {

/// The page of one tag: its name and its gemtext.
#[derive(Debug)]
pub struct TagPage {
    pub name: String,
    pub text: String,
}

/// What a `TagPage` holds.
pub struct TagPageView {
    pub name: Seq<char>,
    pub text: Seq<char>,
}

impl View for TagPage {
    type V = TagPageView;

    open spec fn view(&self) -> TagPageView {
        TagPageView { name: self.name@, text: self.text@ }
    }
}

impl DeepView for TagPage {
    type V = TagPageView;

    open spec fn deep_view(&self) -> TagPageView {
        self@
    }
}

impl TagPage {
    /// The name of the file that holds this page.
    pub fn file_name(&self) -> (s: String)
        ensures
            s@ == tag_file(self@.name),
    {
        let mut s = self.name.clone();
        s.append(".gmi");
        s
    }
}

/// All that is written below `tags/`: the list of the tags and one page
/// for each tag.
#[derive(Debug)]
pub struct TagPages {
    pub index: Index,
    pub pages: Vec<TagPage>,
}

/// The address of the directory that holds the tag pages.
pub open spec fn tags_url(cfg: ConfigView) -> Option<Seq<char>> {
    match capsule_url(cfg) {
        Some(root) => url_joined(root, "tags/"@),
        None => None,
    }
}

/// The file name of a tag's page.
pub open spec fn tag_file(name: Seq<char>) -> Seq<char> {
    name + ".gmi"@
}

/// The page of the tag `name`: banner, title, every link registered under
/// the tag in the order of registration, the links to the list of tags and
/// home, and the footer.
pub open spec fn tag_page_text(
    banner: Option<Seq<char>>,
    cfg: ConfigView,
    base: Seq<char>,
    name: Seq<char>,
    links: Seq<LinkView>,
    year: int,
) -> Option<Seq<char>> {
    match reference_lines(base, links) {
        Some(lines) => Some(
            banner_text(banner) + "# "@ + cfg.title + "\n\n### Pages tagged "@ + name + "\n"@
                + lines + "=> . All tags\n=> .. Home\n"@ + footer_text(cfg, year),
        ),
        None => None,
    }
}

/// One line of the list of tags.
pub open spec fn tag_entry(name: Seq<char>) -> Seq<char> {
    "=> "@ + name + ".gmi "@ + name + "\n"@
}

/// The lines of the list of tags, in the order of the tags.
pub open spec fn tag_entries(tags: Tags) -> Seq<char>
    decreases tags.len(),
{
    if tags.len() == 0 {
        Seq::empty()
    } else {
        tag_entries(tags.drop_last()) + tag_entry(tags.last().0)
    }
}

/// The page that lists every tag.
pub open spec fn tags_index_text(c: CapsuleView, cfg: ConfigView, year: int) -> Seq<char> {
    banner_text(c.banner) + "# "@ + cfg.title + "\n\n### All tags\n\n"@ + tag_entries(c.tags)
        + "\n=> .. Home\n"@ + footer_text(cfg, year)
}

/// Whether `pages` holds, for each of the first `count` tags and in their
/// order, the tag's name and the tag's page.
pub open spec fn pages_match(
    pages: Seq<TagPageView>,
    c: CapsuleView,
    cfg: ConfigView,
    base: Seq<char>,
    year: int,
    count: int,
) -> bool {
    &&& pages.len() == count
    &&& forall|i: int|
        0 <= i < count ==> (#[trigger] pages[i]).name == c.tags[i].0 && tag_page_text(
            c.banner,
            cfg,
            base,
            c.tags[i].0,
            c.tags[i].1,
            year,
        ) == Some(pages[i].text)
}

/// Whether every tag page can be made: the address of the tags' directory
/// exists and every registered link is a URL.
pub open spec fn tag_pages_exist(c: CapsuleView, cfg: ConfigView) -> bool {
    &&& tags_url(cfg) is Some
    &&& forall|i: int|
        0 <= i < c.tags.len() ==> reference_lines(tags_url(cfg)->0, (#[trigger] c.tags[i]).1)
            is Some
}

impl Capsule {
    /// Creates a gemtext page for each tag and an index page of all tags.
    /// `year` is the current year.
    pub fn write_tags(&self, cfg: &Config, year: i32) -> (r: Result<TagPages, Error>)
        ensures
            match r {
                Ok(out) => tag_pages_exist(self@, cfg@) && out.index.0@ == tags_index_text(
                    self@,
                    cfg@,
                    year as int,
                ) && pages_match(
                    out.pages.deep_view(),
                    self@,
                    cfg@,
                    tags_url(cfg@)->0,
                    year as int,
                    self@.tags.len() as int,
                ),
                Err(e) => e is UrlError && !tag_pages_exist(self@, cfg@),
            },
    {
        let root = cfg.url()?;
        let base = crate::urls::join(root.as_str(), "tags/")?;
        let ghost tags = self@.tags;
        let count = self.tag_count();
        let mut index = String::new();
        push_banner(&mut index, self.banner());
        index.append("# ");
        index.append(cfg.title.as_str());
        index.append("\n\n### All tags\n\n");
        let ghost head = index@;
        let mut pages: Vec<TagPage> = Vec::new();
        let mut i: usize = 0;
        while i < count
            invariant
                i <= count == tags.len(),
                tags == self@.tags,
                tags_url(cfg@) == Some(base@),
                index@ == head + tag_entries(tags.subrange(0, i as int)),
                pages_match(pages.deep_view(), self@, cfg@, base@, year as int, i as int),
            decreases count - i,
        {
            let (name, links) = self.tag(i);
            let ghost entries = index@;
            index.append("=> ");
            index.append(name.as_str());
            index.append(".gmi ");
            index.append(name.as_str());
            index.append("\n");
            proof {
                let next = tags.subrange(0, i + 1);
                assert(next.drop_last() =~= tags.subrange(0, i as int));
                assert(next.last() == tags[i as int]);
                assert(index@ =~= entries + tag_entry(name@));
            }
            let mut text = String::new();
            push_banner(&mut text, self.banner());
            text.append("# ");
            text.append(cfg.title.as_str());
            text.append("\n\n### Pages tagged ");
            text.append(name.as_str());
            text.append("\n");
            proof {
                assert(links.deep_view().take(links.len() as int) =~= links.deep_view());
            }
            match push_reference_lines(&mut text, base.as_str(), links, links.len()) {
                Ok(_) => {},
                Err(e) => {
                    assert(reference_lines(tags_url(cfg@)->0, tags[i as int].1) is None);
                    return Err(e);
                },
            }
            text.append("=> . All tags\n=> .. Home\n");
            write_footer(&mut text, cfg, year);
            let ghost before = pages.deep_view();
            let page = TagPage { name: name.clone(), text };
            let ghost added = page@;
            pages.push(page);
            proof {
                assert(pages.deep_view() =~= before.push(added));
            }
            i += 1;
        }
        assert(tags.subrange(0, tags.len() as int) =~= tags);
        proof {
            let made = pages.deep_view();
            assert forall|k: int| 0 <= k < tags.len() implies reference_lines(
                base@,
                (#[trigger] tags[k]).1,
            ) is Some by {
                assert(made[k].name == tags[k].0);
            }
        }
        index.append("\n=> .. Home\n");
        write_footer(&mut index, cfg, year);
        Ok(TagPages { index: Index(index), pages })
    }
}

} // verus!
