//! The page renderer: one published document in, its gemtext out.

use crate::config::{capsule_url, Config, ConfigView, DisplayDate};
use crate::content::{Page, PageView};
use crate::error::Error;
use crate::footer::{footer_text, write_footer};
use crate::text::same;
use crate::time::date_text;
use vstd::prelude::*;
use vstd::string::*;

verus! {

/// The banner as a preformatted block, where there is one.
pub open spec fn banner_text(banner: Option<Seq<char>>) -> Seq<char> {
    match banner {
        Some(s) => "```\n"@ + s + "\n```\n"@,
        None => Seq::empty(),
    }
}

/// Whether the document at `path`, given from the content root, lies in
/// the gemlog.
pub open spec fn in_gemlog(path: Seq<Seq<char>>) -> bool {
    path.len() >= 1 && path[0] == "gemlog"@
}

/// Whether the directory that holds the document at `path` is named
/// `gemlog`.
pub open spec fn parent_is_gemlog(path: Seq<Seq<char>>) -> bool {
    path.len() >= 2 && path[path.len() - 2] == "gemlog"@
}

/// What stands before a tag's name in its link, by the document's depth:
/// relative up to depth 3, below that the capsule's address.
pub open spec fn tag_prefix(depth: nat, root: Seq<char>) -> Seq<char> {
    if depth == 1 {
        "=> tags/"@
    } else if depth == 2 {
        "=> ../tags/"@
    } else if depth == 3 {
        "=> ../../tags/"@
    } else {
        "=> "@ + root + "/tags/"@
    }
}

/// The link to one tag's page.
pub open spec fn tag_line(prefix: Seq<char>, tag: Seq<char>) -> Seq<char> {
    prefix + tag + ".gmi "@ + tag + "\n"@
}

/// The links to the tags' pages, in the order of the tags.
pub open spec fn tag_lines(prefix: Seq<char>, tags: Seq<Seq<char>>) -> Seq<char>
    decreases tags.len(),
{
    if tags.len() == 0 {
        Seq::empty()
    } else {
        tag_lines(prefix, tags.drop_last()) + tag_line(prefix, tags.last())
    }
}

/// The section that lists a page's tags; nothing for a page without tags.
pub open spec fn tags_section(depth: nat, root: Seq<char>, tags: Seq<Seq<char>>) -> Seq<char> {
    if tags.len() == 0 {
        Seq::empty()
    } else {
        "### Tags for this page\n"@ + tag_lines(tag_prefix(depth, root), tags) + "\n"@
    }
}

/// Where the link home leads, by the document's depth: relative up to
/// depth 3, below that the capsule's address.
pub open spec fn home_target(depth: nat, root: Seq<char>) -> Seq<char> {
    if depth == 1 {
        "."@
    } else if depth == 2 {
        ".."@
    } else if depth == 3 {
        "../.."@
    } else {
        root
    }
}

/// The date heading, where the policy shows the date on this page.
pub open spec fn date_heading(page: PageView, path: Seq<Seq<char>>, cfg: ConfigView) -> Seq<
    char,
> {
    if cfg.display_date.shows(in_gemlog(path)) {
        "### "@ + date_text(page.meta.published->0) + "\n"@
    } else {
        Seq::empty()
    }
}

/// The link to the gemlog's index, for a document that lies directly in
/// the gemlog.
pub open spec fn all_posts_line(path: Seq<Seq<char>>) -> Seq<char> {
    if parent_is_gemlog(path) {
        "=> . All posts\n"@
    } else {
        Seq::empty()
    }
}

/// Whether the page's text holds the capsule's address.
pub open spec fn needs_root(page: PageView, depth: nat) -> bool {
    page.meta.tags.len() > 0 || !(depth == 1 || depth == 2 || depth == 3)
}

/// The page's text, given the capsule's address.
pub open spec fn page_text_with(
    page: PageView,
    path: Seq<Seq<char>>,
    depth: nat,
    banner: Option<Seq<char>>,
    cfg: ConfigView,
    root: Seq<char>,
) -> Seq<char> {
    banner_text(banner) + "# "@ + page.meta.title + "\n"@ + date_heading(page, path, cfg)
        + page.content + "\n\n"@ + tags_section(depth, root, page.meta.tags) + "=> "@
        + home_target(depth, root) + " Home\n"@ + all_posts_line(path) + footer_text(
        cfg,
        (page.meta.published->0).year as int,
    )
}

/// The gemtext of a published page: banner, title, date heading, body,
/// tags, the link home, the link to the gemlog's index and the footer.
/// Nothing where the capsule's address is needed and cannot be made.
pub open spec fn page_text(
    page: PageView,
    path: Seq<Seq<char>>,
    depth: nat,
    banner: Option<Seq<char>>,
    cfg: ConfigView,
) -> Option<Seq<char>> {
    if needs_root(page, depth) {
        match capsule_url(cfg) {
            Some(root) => Some(page_text_with(page, path, depth, banner, cfg, root)),
            None => None,
        }
    } else {
        Some(page_text_with(page, path, depth, banner, cfg, Seq::empty()))
    }
}

/// Appends the banner block.
pub fn push_banner(out: &mut String, banner: &Option<String>)
    ensures
        final(out)@ == old(out)@ + banner_text(crate::config::text_view(*banner)),
{
    match banner {
        Some(s) => {
            out.append("```\n");
            out.append(s.as_str());
            out.append("\n```\n");
            assert(out@ =~= old(out)@ + banner_text(Some(s@)));
        },
        None => {},
    }
}

fn tag_prefix_of(depth: usize, root: &str) -> (s: String)
    ensures
        s@ == tag_prefix(depth as nat, root@),
{
    if depth == 1 {
        String::from_str("=> tags/")
    } else if depth == 2 {
        String::from_str("=> ../tags/")
    } else if depth == 3 {
        String::from_str("=> ../../tags/")
    } else {
        let mut s = String::from_str("=> ");
        s.append(root);
        s.append("/tags/");
        s
    }
}

fn push_tags_section(out: &mut String, depth: usize, root: &str, tags: &Vec<String>)
    ensures
        final(out)@ == old(out)@ + tags_section(depth as nat, root@, tags.deep_view()),
{
    if tags.len() == 0 {
        assert(tags.deep_view().len() == 0);
        return ;
    }
    let ghost all = tags.deep_view();
    let prefix = tag_prefix_of(depth, root);
    let mut s = String::from_str("### Tags for this page\n");
    let mut i: usize = 0;
    while i < tags.len()
        invariant
            i <= tags.len(),
            all == tags.deep_view(),
            s@ == "### Tags for this page\n"@ + tag_lines(prefix@, all.subrange(0, i as int)),
        decreases tags.len() - i,
    {
        s.append(prefix.as_str());
        s.append(tags[i].as_str());
        s.append(".gmi ");
        s.append(tags[i].as_str());
        s.append("\n");
        proof {
            let next = all.subrange(0, i + 1);
            assert(next.drop_last() =~= all.subrange(0, i as int));
            assert(next.last() == tags@[i as int]@);
        }
        i += 1;
    }
    assert(all.subrange(0, tags.len() as int) =~= all);
    s.append("\n");
    out.append(s.as_str());
}

fn starts_in_gemlog(path: &Vec<String>) -> (b: bool)
    ensures
        b == in_gemlog(path.deep_view()),
{
    path.len() >= 1 && same(path[0].as_str(), "gemlog")
}

fn lies_in_gemlog(path: &Vec<String>) -> (b: bool)
    ensures
        b == parent_is_gemlog(path.deep_view()),
{
    path.len() >= 2 && same(path[path.len() - 2].as_str(), "gemlog")
}

fn shows_date(policy: DisplayDate, post: bool) -> (b: bool)
    ensures
        b == policy.shows(post),
{
    match policy {
        DisplayDate::Always => true,
        DisplayDate::GemlogOnly => post,
        DisplayDate::Never => false,
    }
}

impl Page {
    /// Renders this page as gemtext. `path` is the document's place below
    /// the content root, one entry for each directory and the file's name
    /// last; `depth` is the number of levels between the document and that
    /// root.
    pub fn write(&self, path: &Vec<String>, depth: usize, banner: &Option<String>, cfg: &Config) -> (r:
        Result<String, Error>)
        requires
            self@.meta.published is Some,
        ensures
            match r {
                Ok(s) => page_text(
                    self@,
                    path.deep_view(),
                    depth as nat,
                    crate::config::text_view(*banner),
                    cfg@,
                ) == Some(s@),
                Err(e) => e is UrlError && page_text(
                    self@,
                    path.deep_view(),
                    depth as nat,
                    crate::config::text_view(*banner),
                    cfg@,
                ) is None,
            },
    {
        let root = if self.meta.tags.len() > 0 || !(depth == 1 || depth == 2 || depth == 3) {
            cfg.url()?
        } else {
            String::new()
        };
        let ghost banner_view = crate::config::text_view(*banner);
        let time = self.meta.published.unwrap();
        let mut out = String::new();
        push_banner(&mut out, banner);
        out.append("# ");
        out.append(self.meta.title.as_str());
        out.append("\n");
        let ghost head = out@;
        if shows_date(cfg.display_date, starts_in_gemlog(path)) {
            out.append("### ");
            out.append(time.date_string().as_str());
            out.append("\n");
        }
        assert(out@ =~= head + date_heading(self@, path.deep_view(), cfg@));
        out.append(self.content.as_str());
        out.append("\n\n");
        push_tags_section(&mut out, depth, root.as_str(), &self.meta.tags);
        out.append("=> ");
        if depth == 1 {
            out.append(".");
        } else if depth == 2 {
            out.append("..");
        } else if depth == 3 {
            out.append("../..");
        } else {
            out.append(root.as_str());
        }
        out.append(" Home\n");
        let ghost body = out@;
        if lies_in_gemlog(path) {
            out.append("=> . All posts\n");
        }
        assert(out@ =~= body + all_posts_line(path.deep_view()));
        write_footer(&mut out, cfg, time.year());
        proof {
            assert(self@.meta.tags.len() == self.meta.tags.len());
            assert(out@ =~= page_text_with(
                self@,
                path.deep_view(),
                depth as nat,
                banner_view,
                cfg@,
                root@,
            ));
        }
        Ok(out)
    }
}

} // verus!
