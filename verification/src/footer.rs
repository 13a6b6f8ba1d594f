//! The footer that closes every page of the capsule.

use crate::config::{license_name, Config, ConfigView};
use crate::link::{link_line, Link, LinkView};
use crate::text::{push_signed, signed_decimal};
use vstd::prelude::*;
use vstd::string::*;

verus! {

/// One line for each link, in the order given.
pub open spec fn link_lines(links: Seq<LinkView>) -> Seq<char>
    decreases links.len(),
{
    if links.len() == 0 {
        Seq::empty()
    } else {
        link_lines(links.drop_last()) + link_line(links.last().url, links.last().display) + "\n"@
    }
}

/// The line that names the license, where one is configured.
pub open spec fn license_line(cfg: ConfigView) -> Seq<char> {
    match cfg.license {
        Some(l) => "All content for this site is licensed as "@ + license_name(l) + ".\n"@,
        None => Seq::empty(),
    }
}

/// The line that names the year and the author.
pub open spec fn rights_text(year: int, name: Seq<char>) -> Seq<char> {
    "© "@ + signed_decimal(year) + " by "@ + name
}

/// The `mailto:` line, where the author's email is known and to be shown.
pub open spec fn contact_line(cfg: ConfigView) -> Seq<char> {
    if cfg.show_email && cfg.author.email is Some {
        "=> mailto:"@ + cfg.author.email->0 + " Contact\n"@
    } else {
        Seq::empty()
    }
}

/// The footer: an empty line, the license, the rights, the configured
/// links and the contact line.
pub open spec fn footer_text(cfg: ConfigView, year: int) -> Seq<char> {
    "\n"@ + license_line(cfg) + rights_text(year, cfg.author.name) + "\n"@ + link_lines(
        cfg.footer_links,
    ) + contact_line(cfg)
}

/// Appends one line for each link.
pub fn push_link_lines(out: &mut String, links: &Vec<Link>)
    ensures
        final(out)@ == old(out)@ + link_lines(links.deep_view()),
{
    let ghost all = links.deep_view();
    let mut i: usize = 0;
    while i < links.len()
        invariant
            i <= links.len(),
            all == links.deep_view(),
            out@ == old(out)@ + link_lines(all.subrange(0, i as int)),
        decreases links.len() - i,
    {
        let line = links[i].to_string();
        out.append(line.as_str());
        out.append("\n");
        proof {
            let next = all.subrange(0, i + 1);
            assert(next.drop_last() =~= all.subrange(0, i as int));
            assert(next.last() == links@[i as int]@);
        }
        i += 1;
    }
    assert(all.subrange(0, links.len() as int) =~= all);
}

/// The rights line without its line end: the year and the author's name.
pub fn rights(year: i32, name: &str) -> (s: String)
    ensures
        s@ == rights_text(year as int, name@),
{
    let mut s = String::from_str("© ");
    push_signed(&mut s, year);
    s.append(" by ");
    s.append(name);
    s
}

/// Writes the footer for each page
pub fn write_footer(out: &mut String, cfg: &Config, year: i32)
    ensures
        final(out)@ == old(out)@ + footer_text(cfg@, year as int),
{
    let mut s = String::from_str("\n");
    match &cfg.license {
        Some(license) => {
            s.append("All content for this site is licensed as ");
            s.append(license.to_string().as_str());
            s.append(".\n");
        },
        None => {},
    }
    assert(s@ =~= "\n"@ + license_line(cfg@));
    s.append(rights(year, cfg.author.name.as_str()).as_str());
    s.append("\n");
    push_link_lines(&mut s, &cfg.footer_links);
    let ghost before = s@;
    if cfg.show_email {
        match &cfg.author.email {
            Some(email) => {
                s.append("=> mailto:");
                s.append(email.as_str());
                s.append(" Contact\n");
            },
            None => {},
        }
    }
    assert(s@ =~= before + contact_line(cfg@));
    assert(s@ =~= footer_text(cfg@, year as int));
    out.append(s.as_str());
}

} // verus!
