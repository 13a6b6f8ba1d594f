//! The two index pages: the capsule's home and the gemlog's list of posts.

use crate::capsule::{newest_first, recent, Capsule, CapsuleView, Post, PostView};
use crate::config::{capsule_url, Config, ConfigView, Feed};
use crate::content::Page;
use crate::error::Error;
use crate::footer::{footer_text, write_footer};
use crate::link::LinkView;
use crate::render::{banner_text, push_banner};
use crate::text::{substitute, substituted};
use crate::traits::{GetPath, ToDisk};
use crate::urls::{reference_text, url_joined};
use vstd::prelude::*;
use vstd::string::*;

verus! {

/// A wrapper type representing the content of an index page
#[derive(Debug)]
pub struct Index(
    /// The content of the index page
    pub String,
);

/// Where an index page belongs.
pub open spec fn index_path(root: Seq<char>, subdir: Option<Seq<char>>) -> Seq<char> {
    match subdir {
        Some(d) => root + "/"@ + d + "/index.gmi"@,
        None => root + "/index.gmi"@,
    }
}

impl GetPath for Index {
    fn get_path(root: &str, subdir: Option<&str>) -> (path: String)
        ensures
            path@ == index_path(
                root@,
                match subdir {
                    Some(d) => Some(d@),
                    None => None,
                },
            ),
    {
        let mut path = String::from_str(root);
        match subdir {
            Some(d) => {
                path.append("/");
                path.append(d);
            },
            None => {},
        }
        path.append("/index.gmi");
        path
    }
}

impl ToDisk for Index {
    type Err = Error;

    fn to_disk(&self) -> (r: Result<String, Error>)
        ensures
            r is Ok,
            r->Ok_0@ == self.0@,
    {
        Ok(self.0.clone())
    }
}

/// The token in the home page's source that gives way to the list of
/// recent posts.
pub open spec fn placeholder() -> Seq<char> {
    "{% posts %}"@
}

/// The links of `posts`, in their order.
pub open spec fn post_links(posts: Seq<PostView>) -> Seq<LinkView> {
    posts.map_values(|p: PostView| p.link)
}

/// One line for a link on a page at `base`: the reference is relative
/// where that can be. Nothing where the link's address is no URL.
pub open spec fn reference_line(base: Seq<char>, link: LinkView) -> Option<Seq<char>> {
    match reference_text(base, link.url) {
        Some(u) => Some("=> "@ + u + " "@ + link.display + "\n"@),
        None => None,
    }
}

/// One line for each link, in the order given. Nothing where one of the
/// addresses is no URL.
pub open spec fn reference_lines(base: Seq<char>, links: Seq<LinkView>) -> Option<Seq<char>>
    decreases links.len(),
{
    if links.len() == 0 {
        Some(Seq::empty())
    } else {
        match (reference_lines(base, links.drop_last()), reference_line(base, links.last())) {
            (Some(head), Some(line)) => Some(head + line),
            _ => None,
        }
    }
}

/// The block that stands for the placeholder: a heading, the given posts
/// and the link to all posts.
pub open spec fn posts_block(base: Seq<char>, posts: Seq<PostView>) -> Option<Seq<char>> {
    match reference_lines(base, post_links(posts)) {
        Some(lines) => Some("### Gemlog posts\n"@ + lines + "=> gemlog/ All posts\n\n"@),
        None => None,
    }
}

/// The home page: banner, title, the source's content with the newest
/// posts in place of the placeholder, and the footer. As many posts are
/// listed as the configuration asks for, or all where there are fewer.
pub open spec fn home_text(c: CapsuleView, cfg: ConfigView, content: Seq<char>, year: int) -> Option<
    Seq<char>,
> {
    match capsule_url(cfg) {
        Some(base) => match posts_block(base, recent(c.posts, cfg.entries)) {
            Some(block) => Some(
                banner_text(c.banner) + "# "@ + cfg.title + "\n\n"@ + substituted(
                    content,
                    placeholder(),
                    block,
                ) + "\n"@ + footer_text(cfg, year),
            ),
            None => None,
        },
        None => None,
    }
}

/// The links to the feeds that are generated.
pub open spec fn feed_lines(feed: Option<Feed>) -> Seq<char> {
    match feed {
        Some(Feed::Atom) => "\n=> atom.xml Atom Feed\n"@,
        Some(Feed::Gemini) => "\n=> feed.gmi Gemini Feed\n"@,
        Some(Feed::Both) => "\n=> atom.xml Atom Feed\n=> feed.gmi Gemini Feed\n"@,
        None => Seq::empty(),
    }
}

/// The address of the gemlog's index page.
pub open spec fn gemlog_url(cfg: ConfigView) -> Option<Seq<char>> {
    match capsule_url(cfg) {
        Some(root) => url_joined(root, "gemlog/index.gmi"@),
        None => None,
    }
}

/// The gemlog's index: banner, title, the source's content, every post
/// from the newest to the oldest, the links to the feeds, to the tags and
/// home, and the footer.
pub open spec fn gemlog_text(c: CapsuleView, cfg: ConfigView, content: Seq<char>, year: int) -> Option<
    Seq<char>,
> {
    match gemlog_url(cfg) {
        Some(base) => match reference_lines(base, post_links(newest_first(c.posts))) {
            Some(lines) => Some(
                banner_text(c.banner) + "# "@ + cfg.title + "\n\n"@ + content
                    + "\n\n### Gemlog posts\n"@ + lines + feed_lines(cfg.feed)
                    + "\n=> ../tags tags\n=> .. Home\n"@ + footer_text(cfg, year),
            ),
            None => None,
        },
        None => None,
    }
}

/// One missing line leaves no lines at all.
pub proof fn lemma_reference_lines_none(base: Seq<char>, links: Seq<LinkView>, i: int)
    requires
        0 <= i < links.len(),
        reference_line(base, links[i]) is None,
    ensures
        reference_lines(base, links) is None,
    decreases links.len(),
{
    if i < links.len() - 1 {
        lemma_reference_lines_none(base, links.drop_last(), i);
    }
}

/// Appends one line for each of the first `count` links.
pub fn push_reference_lines(out: &mut String, base: &str, links: &Vec<crate::link::Link>, count: usize) -> (r:
    Result<(), Error>)
    requires
        count <= links.len(),
    ensures
        match r {
            Ok(_) => reference_lines(base@, links.deep_view().take(count as int)) is Some
                && final(out)@ == old(out)@ + reference_lines(
                base@,
                links.deep_view().take(count as int),
            )->0,
            Err(e) => e is UrlError && reference_lines(
                base@,
                links.deep_view().take(count as int),
            ) is None,
        },
{
    let ghost all = links.deep_view().take(count as int);
    let ghost start = out@;
    let mut s = String::new();
    let mut i: usize = 0;
    while i < count
        invariant
            i <= count <= links.len(),
            all == links.deep_view().take(count as int),
            reference_lines(base@, all.subrange(0, i as int)) == Some(s@),
            out@ == start,
        decreases count - i,
    {
        let ghost next = all.subrange(0, i + 1);
        proof {
            assert(next.drop_last() =~= all.subrange(0, i as int));
            assert(next.last() == links@[i as int]@);
            assert(all[i as int] == links@[i as int]@);
        }
        match crate::urls::reference(base, links[i].url.as_str()) {
            Ok(u) => {
                s.append("=> ");
                s.append(u.as_str());
                s.append(" ");
                s.append(links[i].display.as_str());
                s.append("\n");
            },
            Err(e) => {
                proof {
                    lemma_reference_lines_none(base@, all, i as int);
                }
                return Err(e);
            },
        }
        i += 1;
    }
    assert(all.subrange(0, count as int) =~= all);
    out.append(s.as_str());
    Ok(())
}

/// The links of `posts`, in their order.
pub fn links_of_posts(posts: &Vec<Post>) -> (r: Vec<crate::link::Link>)
    ensures
        r.deep_view() == post_links(posts.deep_view()),
{
    let mut r: Vec<crate::link::Link> = Vec::new();
    let mut i: usize = 0;
    while i < posts.len()
        invariant
            i <= posts.len(),
            r.len() == i,
            forall|k: int| 0 <= k < i ==> (#[trigger] r@[k])@ == posts@[k]@.link,
        decreases posts.len() - i,
    {
        r.push(posts[i].link.clone());
        i += 1;
    }
    assert(r.deep_view() =~= post_links(posts.deep_view()));
    r
}

fn push_feed_lines(out: &mut String, feed: &Option<Feed>)
    ensures
        final(out)@ == old(out)@ + feed_lines(*feed),
{
    match feed {
        Some(Feed::Atom) => {
            out.append("\n=> atom.xml Atom Feed\n");
        },
        Some(Feed::Gemini) => {
            out.append("\n=> feed.gmi Gemini Feed\n");
        },
        Some(Feed::Both) => {
            out.append("\n=> atom.xml Atom Feed\n=> feed.gmi Gemini Feed\n");
        },
        None => {},
    }
}

impl Capsule {
    /// Renders the capsule main index. `source` is the content of the
    /// home page's source, or nothing where there is none: the page then
    /// holds the placeholder alone. `year` is the current year.
    pub fn write_index(&self, cfg: &Config, source: Option<&Page>, year: i32) -> (r: Result<
        Index,
        Error,
    >)
        ensures
            match r {
                Ok(index) => home_text(
                    self@,
                    cfg@,
                    match source {
                        Some(p) => p@.content,
                        None => placeholder(),
                    },
                    year as int,
                ) == Some(index.0@),
                Err(e) => e is UrlError && home_text(
                    self@,
                    cfg@,
                    match source {
                        Some(p) => p@.content,
                        None => placeholder(),
                    },
                    year as int,
                ) is None,
            },
    {
        let base = cfg.url()?;
        let posts = self.posts();
        let links = links_of_posts(&posts);
        let count = if cfg.entries <= links.len() {
            cfg.entries
        } else {
            links.len()
        };
        proof {
            let all = newest_first(self@.posts);
            assert(all.len() == self@.posts.len());
            assert(links.deep_view().len() == all.len());
            assert(recent(self@.posts, cfg@.entries) == all.take(count as int));
            assert(links.deep_view().take(count as int) =~= post_links(all.take(count as int)));
        }
        let mut block = String::from_str("### Gemlog posts\n");
        push_reference_lines(&mut block, base.as_str(), &links, count)?;
        block.append("=> gemlog/ All posts\n\n");
        let content = match source {
            Some(p) => substitute(p.content.as_str(), "{% posts %}", block.as_str()),
            None => substitute("{% posts %}", "{% posts %}", block.as_str()),
        };
        let mut out = String::new();
        push_banner(&mut out, self.banner());
        out.append("# ");
        out.append(cfg.title.as_str());
        out.append("\n\n");
        out.append(content.as_str());
        out.append("\n");
        write_footer(&mut out, cfg, year);
        Ok(Index(out))
    }

    /// Renders the gemlog index. `source` is the content of the gemlog
    /// index's source, or nothing where there is none. `year` is the
    /// current year.
    pub fn write_gemlog_index(&self, cfg: &Config, source: Option<&Page>, year: i32) -> (r: Result<
        Index,
        Error,
    >)
        ensures
            match r {
                Ok(index) => gemlog_text(
                    self@,
                    cfg@,
                    match source {
                        Some(p) => p@.content,
                        None => Seq::empty(),
                    },
                    year as int,
                ) == Some(index.0@),
                Err(e) => e is UrlError && gemlog_text(
                    self@,
                    cfg@,
                    match source {
                        Some(p) => p@.content,
                        None => Seq::empty(),
                    },
                    year as int,
                ) is None,
            },
    {
        let root = cfg.url()?;
        let base = crate::urls::join(root.as_str(), "gemlog/index.gmi")?;
        let posts = self.posts();
        let links = links_of_posts(&posts);
        proof {
            assert(links.deep_view().take(links.len() as int) =~= post_links(
                newest_first(self@.posts),
            ));
        }
        let mut out = String::new();
        push_banner(&mut out, self.banner());
        out.append("# ");
        out.append(cfg.title.as_str());
        out.append("\n\n");
        match source {
            Some(p) => {
                out.append(p.content.as_str());
            },
            None => {},
        }
        out.append("\n\n### Gemlog posts\n");
        push_reference_lines(&mut out, base.as_str(), &links, links.len())?;
        push_feed_lines(&mut out, &cfg.feed);
        out.append("\n=> ../tags tags\n=> .. Home\n");
        write_footer(&mut out, cfg, year);
        Ok(Index(out))
    }
}

} // verus!
