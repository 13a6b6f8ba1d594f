//! The tinylog: one page of short, dated notes, kept at a fixed place.

use crate::content::{Kind, MetaView, Page, PageView};
use crate::text::same;
use crate::time::Time;
use vstd::prelude::*;
use vstd::string::*;

verus! {

/// tinyrand's default generator.
#[verifier::external_type_specification]
#[verifier::external_body]
pub struct ExWyrand(tinyrand::Wyrand);

/// Takes a seed from the system clock with `ClockSeed::next_u64`.
/// The clock decides the value; the call aborts where the clock stands
/// before 1970.
#[verifier::external_body]
fn clock_seed() -> u64 {
    tinyrand::Rand::next_u64(&mut tinyrand_std::ClockSeed::default())
}

/// Makes a generator from a seed with `StdRand::seed`.
#[verifier::external_body]
fn seeded(seed: u64) -> tinyrand::Wyrand {
    <tinyrand::StdRand as tinyrand::Seeded>::seed(seed)
}

/// Draws a number with `RandRange::next_range`, which answers within the
/// range it is given and aborts on an empty one.
#[verifier::external_body]
fn next_in_range(rand: &mut tinyrand::Wyrand, low: u32, high: u32) -> (n: u32)
    requires
        low < high,
    ensures
        low <= n < high,
{
    tinyrand::RandRange::next_range(rand, low..high)
}

/// Where the tinylog is kept.
pub open spec fn tinylog_path() -> Seq<char> {
    "content/tinylog.gmi"@
}

/// `tags` with each of `more` that it does not hold yet added at the end,
/// in the order of `more`.
pub open spec fn merged(tags: Seq<Seq<char>>, more: Seq<Seq<char>>) -> Seq<Seq<char>>
    decreases more.len(),
{
    if more.len() == 0 {
        tags
    } else {
        let head = merged(tags, more.drop_last());
        if head.contains(more.last()) {
            head
        } else {
            head.push(more.last())
        }
    }
}

/// Whether `c` is one of the letters `a` to `z`.
pub open spec fn is_small_letter(c: char) -> bool {
    'a' <= c <= 'z'
}

/// Whether `name` is the path of a scratch file: `/tmp/zond-` and nine
/// small letters.
pub open spec fn is_scratch_path(name: Seq<char>) -> bool {
    &&& name.len() == "/tmp/zond-"@.len() + 9
    &&& name.subrange(0, "/tmp/zond-"@.len() as int) == "/tmp/zond-"@
    &&& forall|i: int| "/tmp/zond-"@.len() <= i < name.len() ==> is_small_letter(#[trigger] name[i])
}

fn holds(tags: &Vec<String>, name: &str) -> (b: bool)
    ensures
        b == tags.deep_view().contains(name@),
{
    let mut i: usize = 0;
    while i < tags.len()
        invariant
            i <= tags.len(),
            forall|j: int| 0 <= j < i ==> tags@[j]@ != name@,
        decreases tags.len() - i,
    {
        if same(tags[i].as_str(), name) {
            assert(tags.deep_view()[i as int] == name@);
            return true;
        }
        i += 1;
    }
    false
}

fn merge(tags: &mut Vec<String>, more: &Vec<String>)
    ensures
        final(tags).deep_view() == merged(old(tags).deep_view(), more.deep_view()),
{
    let ghost all = more.deep_view();
    let mut i: usize = 0;
    while i < more.len()
        invariant
            i <= more.len(),
            all == more.deep_view(),
            tags.deep_view() == merged(old(tags).deep_view(), all.subrange(0, i as int)),
        decreases more.len() - i,
    {
        let ghost held = tags.deep_view();
        if !holds(tags, more[i].as_str()) {
            tags.push(more[i].clone());
            assert(tags.deep_view() =~= held.push(more@[i as int]@));
        }
        proof {
            let next = all.subrange(0, i + 1);
            assert(next.drop_last() =~= all.subrange(0, i as int));
            assert(next.last() == more@[i as int]@);
        }
        i += 1;
    }
    assert(all.subrange(0, more.len() as int) =~= all);
}

fn owned_texts(v: &Vec<&str>) -> (r: Vec<String>)
    ensures
        r.deep_view() == v@.map_values(|s: &str| s@),
{
    let mut r: Vec<String> = Vec::new();
    let mut i: usize = 0;
    while i < v.len()
        invariant
            i <= v.len(),
            r.len() == i,
            forall|k: int| 0 <= k < i ==> (#[trigger] r@[k])@ == v@[k]@,
        decreases v.len() - i,
    {
        r.push(String::from_str(v[i]));
        i += 1;
    }
    assert(r.deep_view() =~= v@.map_values(|s: &str| s@));
    r
}

/// The path of the tinylog, for the editor to open.
pub fn edit() -> (path: String)
    ensures
        path@ == tinylog_path(),
{
    Page::edit(Kind::Page(Some(String::from_str("content/tinylog.gmi"))), "")
}

/// Adds to the tinylog's tags those of `tags` that it does not carry yet.
pub fn tags(page: &mut Page, tags: &Vec<String>)
    ensures
        final(page)@ == (PageView {
            meta: MetaView { tags: merged(old(page)@.meta.tags, tags.deep_view()), ..old(page)@.meta },
            content: old(page)@.content,
        }),
{
    merge(&mut page.meta.tags, tags);
}

/// A new tinylog: its path and an empty, unpublished page. The title is
/// `Tinylog` where none is given.
pub fn init(title: Option<&str>, summary: Option<&str>, tags: Option<Vec<&str>>) -> (r: (
    String,
    Page,
))
    ensures
        r.0@ == tinylog_path(),
        r.1@ == (PageView {
            meta: MetaView {
                title: match title {
                    Some(t) => t@,
                    None => "Tinylog"@,
                },
                summary: match summary {
                    Some(s) => Some(s@),
                    None => None,
                },
                published: None,
                tags: match tags {
                    Some(v) => v@.map_values(|s: &str| s@),
                    None => Seq::empty(),
                },
            },
            content: Seq::empty(),
        }),
{
    let names = match &tags {
        Some(v) => owned_texts(v),
        None => {
            let v: Vec<String> = Vec::new();
            assert(v.deep_view() =~= Seq::<Seq<char>>::empty());
            v
        },
    };
    let title = match title {
        Some(t) => t,
        None => "Tinylog",
    };
    Page::create(Kind::Page(Some(String::from_str("content/tinylog.gmi"))), title, summary, names)
}

/// Puts the log with its new entry into the page: `log` becomes the
/// content, `time` the time of publication, and the tags that the page does
/// not carry yet are added.
pub fn update(page: &mut Page, log: String, time: Time, tags: Option<Vec<String>>)
    ensures
        final(page)@ == (PageView {
            meta: MetaView {
                published: Some(time),
                tags: match tags {
                    Some(v) => merged(old(page)@.meta.tags, v.deep_view()),
                    None => old(page)@.meta.tags,
                },
                ..old(page)@.meta
            },
            content: log@,
        }),
{
    page.content = log;
    page.meta.published = Some(time);
    match &tags {
        Some(v) => {
            merge(&mut page.meta.tags, v);
        },
        None => {},
    }
}

/// The small letter with the code `code`: `a` for 97, `z` for 122.
pub fn letter(code: u32) -> (c: char)
    requires
        97 <= code < 123,
    ensures
        c as u32 == code,
        is_small_letter(c),
{
    (code as u8) as char
}

/// The path of a scratch file in which a new entry is written: `/tmp/zond-`
/// and nine letters drawn from `rand`.
pub fn scratch_path(rand: &mut tinyrand::Wyrand) -> (name: String)
    ensures
        is_scratch_path(name@),
{
    proof {
        reveal_strlit("/tmp/zond-");
    }
    let mut name = String::from_str("/tmp/zond-");
    let mut i: usize = 0;
    while i < 9
        invariant
            i <= 9,
            name@.len() == "/tmp/zond-"@.len() + i,
            name@.subrange(0, "/tmp/zond-"@.len() as int) == "/tmp/zond-"@,
            forall|k: int|
                "/tmp/zond-"@.len() <= k < name@.len() ==> is_small_letter(#[trigger] name@[k]),
        decreases 9 - i,
    {
        let code = next_in_range(rand, 97, 123);
        let ghost before = name@;
        name.push(letter(code));
        assert(name@.subrange(0, "/tmp/zond-"@.len() as int) =~= before.subrange(
            0,
            "/tmp/zond-"@.len() as int,
        ));
        i += 1;
    }
    name
}

/// The path of a scratch file for a new entry, drawn from a generator that
/// is seeded from the clock.
pub fn create_post() -> (name: String)
    ensures
        is_scratch_path(name@),
{
    let mut rand = seeded(clock_seed());
    scratch_path(&mut rand)
}

} // verus!
