//! The capsule's settings, as the renderers read them.

use crate::error::Error;
use crate::link::{Link, LinkView};
use crate::text::same;
use crate::urls::{url_normal, with_path_text};
use vstd::prelude::*;
use vstd::string::*;

verus! {

/// Represents one of several Creative Commons license types or a custom license
#[derive(Debug)]
pub enum License {
    /// Credit must be given to the creator
    CcBy,
    /// Credit must be given to the creator;
    /// adaptations must be shared under the same terms
    CcBySa,
    /// Credit must be given to the creator;
    /// only noncommercial uses of the work are permitted
    CcByNc,
    /// Credit must be given to the creator;
    /// only noncommercial uses of the work are permitted;
    /// adaptations must be shared under the same terms
    CcByNcSa,
    /// Credit must be given to the creator;
    /// no derivatives or adaptations of the work are permitted
    CcByNd,
    /// Credit must be given to the creator;
    /// only noncommercial uses of the work are permitted;
    /// no derivatives or adaptations of the work are permitted
    CcByNcNd,
    /// Dedicated to public domain
    CcZero,
    /// A custom license of the author's choosing
    Other(
        /// Short text identifying the license
        String,
    ),
}

/// What a `License` holds.
pub enum LicenseView {
    CcBy,
    CcBySa,
    CcByNc,
    CcByNcSa,
    CcByNd,
    CcByNcNd,
    CcZero,
    Other(Seq<char>),
}

impl View for License {
    type V = LicenseView;

    open spec fn view(&self) -> LicenseView {
        match self {
            License::CcBy => LicenseView::CcBy,
            License::CcBySa => LicenseView::CcBySa,
            License::CcByNc => LicenseView::CcByNc,
            License::CcByNcSa => LicenseView::CcByNcSa,
            License::CcByNd => LicenseView::CcByNd,
            License::CcByNcNd => LicenseView::CcByNcNd,
            License::CcZero => LicenseView::CcZero,
            License::Other(s) => LicenseView::Other(s@),
        }
    }
}

/// The name under which a license is shown.
pub open spec fn license_name(l: LicenseView) -> Seq<char> {
    match l {
        LicenseView::CcBy => "CC BY"@,
        LicenseView::CcBySa => "CC BY-SA"@,
        LicenseView::CcByNc => "CC BY-NC"@,
        LicenseView::CcByNcSa => "CC BY-NC-SA"@,
        LicenseView::CcByNd => "CC BY-ND"@,
        LicenseView::CcByNcNd => "CC BY-NC-ND"@,
        LicenseView::CcZero => "CC Zero"@,
        LicenseView::Other(s) => s,
    }
}

/// The license that a configuration word stands for; a word that is none
/// of the known ones is a license of its own.
pub open spec fn license_of(s: Seq<char>) -> LicenseView {
    if s == "CcBy"@ || s == "ccby"@ {
        LicenseView::CcBy
    } else if s == "CcBySa"@ || s == "ccbysa"@ {
        LicenseView::CcBySa
    } else if s == "CcByNc"@ || s == "ccbync"@ {
        LicenseView::CcByNc
    } else if s == "CcByNcSa"@ || s == "ccbyncsa"@ {
        LicenseView::CcByNcSa
    } else if s == "CcByNd"@ || s == "ccbynd"@ {
        LicenseView::CcByNd
    } else if s == "CcByNcNd"@ || s == "ccbyncnd"@ {
        LicenseView::CcByNcNd
    } else if s == "CcZero"@ || s == "cczero"@ || s == "Cc0"@ || s == "cc0"@ {
        LicenseView::CcZero
    } else {
        LicenseView::Other(s)
    }
}

impl Clone for License {
    fn clone(&self) -> (r: Self)
        ensures
            r@ == self@,
    {
        match self {
            License::CcBy => License::CcBy,
            License::CcBySa => License::CcBySa,
            License::CcByNc => License::CcByNc,
            License::CcByNcSa => License::CcByNcSa,
            License::CcByNd => License::CcByNd,
            License::CcByNcNd => License::CcByNcNd,
            License::CcZero => License::CcZero,
            License::Other(s) => License::Other(s.clone()),
        }
    }
}

impl License {
    /// The name under which this license is shown.
    pub fn to_string(&self) -> (s: String)
        ensures
            s@ == license_name(self@),
    {
        match self {
            License::CcBy => String::from_str("CC BY"),
            License::CcBySa => String::from_str("CC BY-SA"),
            License::CcByNc => String::from_str("CC BY-NC"),
            License::CcByNcSa => String::from_str("CC BY-NC-SA"),
            License::CcByNd => String::from_str("CC BY-ND"),
            License::CcByNcNd => String::from_str("CC BY-NC-ND"),
            License::CcZero => String::from_str("CC Zero"),
            License::Other(s) => s.clone(),
        }
    }

    /// Reads a license from its configuration word.
    pub fn from(s: &str) -> (l: License)
        ensures
            l@ == license_of(s@),
    {
        if same(s, "CcBy") || same(s, "ccby") {
            License::CcBy
        } else if same(s, "CcBySa") || same(s, "ccbysa") {
            License::CcBySa
        } else if same(s, "CcByNc") || same(s, "ccbync") {
            License::CcByNc
        } else if same(s, "CcByNcSa") || same(s, "ccbyncsa") {
            License::CcByNcSa
        } else if same(s, "CcByNd") || same(s, "ccbynd") {
            License::CcByNd
        } else if same(s, "CcByNcNd") || same(s, "ccbyncnd") {
            License::CcByNcNd
        } else if same(s, "CcZero") || same(s, "cczero") || same(s, "Cc0") || same(s, "cc0") {
            License::CcZero
        } else {
            License::Other(String::from_str(s))
        }
    }
}

/// The type of feed to generate
#[derive(Clone, Copy, Debug, PartialEq, Eq, Structural)]
pub enum Feed {
    /// Only an Atom feed will be generated
    Atom,
    /// Only a Gemini feed will be generated
    Gemini,
    /// Both Atom and Gemini feeds will be generated
    Both,
}

impl Default for Feed {
    fn default() -> (r: Self)
        ensures
            r == Feed::Atom,
    {
        Feed::Atom
    }
}

/// The primary author of the capsule
#[derive(Debug)]
pub struct Person {
    /// The author's name
    pub name: String,
    /// Author's email
    pub email: Option<String>,
    /// Author's homepage
    pub url: Option<String>,
}

/// What a `Person` holds.
pub struct PersonView {
    pub name: Seq<char>,
    pub email: Option<Seq<char>>,
    pub url: Option<Seq<char>>,
}

/// What an optional text holds.
pub open spec fn text_view(s: Option<String>) -> Option<Seq<char>> {
    match s {
        Some(t) => Some(t@),
        None => None,
    }
}

/// A copy of an optional text.
pub fn copy_text(s: &Option<String>) -> (r: Option<String>)
    ensures
        text_view(r) == text_view(*s),
{
    match s {
        Some(t) => Some(t.clone()),
        None => None,
    }
}

impl View for Person {
    type V = PersonView;

    open spec fn view(&self) -> PersonView {
        PersonView { name: self.name@, email: text_view(self.email), url: text_view(self.url) }
    }
}

impl Clone for Person {
    fn clone(&self) -> (r: Self)
        ensures
            r@ == self@,
    {
        Person { name: self.name.clone(), email: copy_text(&self.email), url: copy_text(&self.url) }
    }
}

impl Default for Person {
    fn default() -> (r: Self)
        ensures
            r@ == (PersonView { name: Seq::empty(), email: None, url: None }),
    {
        Person { name: String::new(), email: None, url: None }
    }
}

/// Which pages show their date of publication
#[derive(Clone, Copy, Debug, PartialEq, Eq, Structural)]
pub enum DisplayDate {
    /// Always display the publication date
    Always,
    /// Only display the publication date on gemlog posts
    GemlogOnly,
    /// Never display the date
    Never,
}

impl Default for DisplayDate {
    fn default() -> (r: Self)
        ensures
            r == DisplayDate::GemlogOnly,
    {
        DisplayDate::GemlogOnly
    }
}

/// The policy that a configuration word stands for, if any.
pub open spec fn display_date_of(s: Seq<char>) -> Option<DisplayDate> {
    if s == "always"@ || s == "Always"@ {
        Some(DisplayDate::Always)
    } else if s == "gemlogonly"@ || s == "gemlog"@ || s == "gemlog_only"@ || s == "GemlogOnly"@
        || s == "Gemlog"@ {
        Some(DisplayDate::GemlogOnly)
    } else if s == "never"@ || s == "Never"@ {
        Some(DisplayDate::Never)
    } else {
        None
    }
}

impl DisplayDate {
    /// Reads a policy from its configuration word.
    pub fn from_str(s: &str) -> (r: Result<DisplayDate, Error>)
        ensures
            match r {
                Ok(d) => display_date_of(s@) == Some(d),
                Err(e) => e is ParseEnumError && display_date_of(s@) is None,
            },
    {
        if same(s, "always") || same(s, "Always") {
            Ok(DisplayDate::Always)
        } else if same(s, "gemlogonly") || same(s, "gemlog") || same(s, "gemlog_only") || same(
            s,
            "GemlogOnly",
        ) || same(s, "Gemlog") {
            Ok(DisplayDate::GemlogOnly)
        } else if same(s, "never") || same(s, "Never") {
            Ok(DisplayDate::Never)
        } else {
            Err(Error::ParseEnumError)
        }
    }

    /// Whether a page shows its date under this policy; `post` says
    /// whether the page is a gemlog post.
    pub open spec fn shows(self, post: bool) -> bool {
        match self {
            DisplayDate::Always => true,
            DisplayDate::GemlogOnly => post,
            DisplayDate::Never => false,
        }
    }
}

/// Site wide capsule settings
#[derive(Debug)]
pub struct Config {
    /// Title of the entire capsule
    pub title: String,
    /// Author for the entire capsule
    pub author: Person,
    /// The domain serving the capsule
    pub domain: String,
    /// The path from the server root to the capsule
    pub path: Option<String>,
    /// The number of gemlog entries to display on the main index
    pub entries: usize,
    /// Which pages to display the publication date for
    pub display_date: DisplayDate,
    /// Whether to generate atom and/or gemini feeds
    pub feed: Option<Feed>,
    /// The license which the content of this capsule is published under
    pub license: Option<License>,
    /// Whether to provide a `mailto:` link to the author's email
    pub show_email: bool,
    /// A collection of links to display at the bottom of each page
    pub footer_links: Vec<Link>,
}

/// What a `Config` holds.
pub struct ConfigView {
    pub title: Seq<char>,
    pub author: PersonView,
    pub domain: Seq<char>,
    pub path: Option<Seq<char>>,
    pub entries: nat,
    pub display_date: DisplayDate,
    pub feed: Option<Feed>,
    pub license: Option<LicenseView>,
    pub show_email: bool,
    pub footer_links: Seq<LinkView>,
}

impl View for Config {
    type V = ConfigView;

    open spec fn view(&self) -> ConfigView {
        ConfigView {
            title: self.title@,
            author: self.author@,
            domain: self.domain@,
            path: text_view(self.path),
            entries: self.entries as nat,
            display_date: self.display_date,
            feed: self.feed,
            license: match self.license {
                Some(l) => Some(l@),
                None => None,
            },
            show_email: self.show_email,
            footer_links: self.footer_links.deep_view(),
        }
    }
}

impl Default for Config {
    fn default() -> (r: Self)
        ensures
            r@ == (ConfigView {
                title: Seq::empty(),
                author: PersonView { name: Seq::empty(), email: None, url: None },
                domain: Seq::empty(),
                path: None,
                entries: 0,
                display_date: DisplayDate::GemlogOnly,
                feed: None,
                license: None,
                show_email: false,
                footer_links: Seq::empty(),
            }),
    {
        let r = Config {
            title: String::new(),
            author: Person::default(),
            domain: String::new(),
            path: None,
            entries: 0,
            display_date: DisplayDate::GemlogOnly,
            feed: None,
            license: None,
            show_email: false,
            footer_links: Vec::new(),
        };
        assert(r.footer_links.deep_view() =~= Seq::empty());
        r
    }
}

/// The path that the capsule's address carries: the configured one, or
/// none.
pub open spec fn base_path(cfg: ConfigView) -> Seq<char> {
    match cfg.path {
        Some(p) => p,
        None => Seq::empty(),
    }
}

/// The address of the capsule's root: `gemini://` and the domain, parsed,
/// with the configured path set. Nothing where the url crate refuses it.
pub open spec fn capsule_url(cfg: ConfigView) -> Option<Seq<char>> {
    match url_normal("gemini://"@ + cfg.domain) {
        Some(u) => with_path_text(u, base_path(cfg)),
        None => None,
    }
}

impl Config {
    /// Returns the address for the root of this capsule
    pub fn url(&self) -> (r: Result<String, Error>)
        ensures
            match r {
                Ok(u) => capsule_url(self@) == Some(u@),
                Err(e) => e is UrlError && capsule_url(self@) is None,
            },
    {
        let mut origin = String::from_str("gemini://");
        origin.append(self.domain.as_str());
        let parsed = crate::urls::parse(origin.as_str())?;
        match &self.path {
            Some(p) => crate::urls::with_path(parsed.as_str(), p.as_str()),
            None => {
                proof {
                    reveal_strlit("");
                    assert(""@ =~= Seq::<char>::empty());
                }
                crate::urls::with_path(parsed.as_str(), "")
            },
        }
    }
}

} // verus!
