//! The frame of a source document: a header, a line that is exactly
//! `---`, and a body.

use crate::text::{chars_of, is_blank, string_of, trim, trim_end, trim_start, trimmed};
use vstd::prelude::*;
use vstd::string::*;

verus! {

/// Whether a line that is exactly `---` starts at `k`.
pub open spec fn delimiter_at(s: Seq<char>, k: int) -> bool {
    &&& 0 <= k
    &&& k + 3 <= s.len()
    &&& (k == 0 || s[k - 1] == '\n')
    &&& s[k] == '-'
    &&& s[k + 1] == '-'
    &&& s[k + 2] == '-'
    &&& (k + 3 == s.len() || s[k + 3] == '\n')
}

/// Where the first delimiter line at or after `from` starts, if there is
/// one.
pub open spec fn find_delimiter(s: Seq<char>, from: int) -> Option<int>
    decreases s.len() - from,
{
    if from < 0 || from >= s.len() {
        None
    } else if delimiter_at(s, from) {
        Some(from)
    } else {
        find_delimiter(s, from + 1)
    }
}

/// The text before the first delimiter line and the text after it. Without
/// a delimiter line the whole text is header.
pub open spec fn split_text(s: Seq<char>) -> (Seq<char>, Seq<char>) {
    match find_delimiter(s, 0) {
        Some(k) => (
            s.subrange(0, k),
            if k + 4 <= s.len() {
                s.subrange(k + 4, s.len() as int)
            } else {
                Seq::empty()
            },
        ),
        None => (s, Seq::empty()),
    }
}

/// Header and body of a document, each without the blanks around it.
pub open spec fn parse_text(s: Seq<char>) -> (Seq<char>, Seq<char>) {
    (trim(split_text(s).0), trim(split_text(s).1))
}

/// A header, the delimiter line and a body, as they are saved.
pub open spec fn document_text(header: Seq<char>, body: Seq<char>) -> Seq<char> {
    header + "\n---\n"@ + body
}

/// Whether no line of `s` is exactly `---`.
pub open spec fn free_of_delimiter(s: Seq<char>) -> bool {
    forall|k: int| 0 <= k <= s.len() ==> !delimiter_at(s, k)
}

fn is_delimiter(v: &Vec<char>, k: usize) -> (b: bool)
    requires
        k < v.len(),
    ensures
        b == delimiter_at(v@, k as int),
{
    let n = v.len();
    n - k >= 3 && (k == 0 || v[k - 1] == '\n') && v[k] == '-' && v[k + 1] == '-' && v[k + 2]
        == '-' && (n - k == 3 || v[k + 3] == '\n')
}

proof fn lemma_find_skips(s: Seq<char>, from: int, to: int)
    requires
        0 <= from <= to <= s.len(),
        forall|k: int| from <= k < to ==> !delimiter_at(s, k),
    ensures
        find_delimiter(s, from) == find_delimiter(s, to),
    decreases to - from,
{
    if from < to {
        lemma_find_skips(s, from + 1, to);
    }
}

/// Splits a document at its first delimiter line and trims both parts.
pub fn split_document(text: &str) -> (r: (String, String))
    ensures
        r.0@ == parse_text(text@).0,
        r.1@ == parse_text(text@).1,
{
    let v = chars_of(text);
    let n = v.len();
    let mut k: usize = 0;
    while k < n && !is_delimiter(&v, k)
        invariant
            k <= n == v.len(),
            forall|j: int| 0 <= j < k ==> !delimiter_at(v@, j),
        decreases n - k,
    {
        k += 1;
    }
    proof {
        lemma_find_skips(v@, 0, k as int);
    }
    if k < n {
        let header = string_of(&v, 0, k);
        let body = if n - k >= 4 {
            string_of(&v, k + 4, n)
        } else {
            String::new()
        };
        (trimmed(header.as_str()), trimmed(body.as_str()))
    } else {
        proof {
            assert(v@.subrange(0, n as int) =~= v@);
            reveal_strlit("");
            assert(""@ =~= Seq::<char>::empty());
            assert(trim(Seq::<char>::empty()) =~= Seq::<char>::empty());
        }
        (trimmed(text), String::new())
    }
}

/// Whether a line of `text` is exactly `---`.
pub fn has_delimiter(text: &str) -> (b: bool)
    ensures
        b == !free_of_delimiter(text@),
{
    let v = chars_of(text);
    let n = v.len();
    let mut k: usize = 0;
    while k < n
        invariant
            k <= n == v.len(),
            v@ == text@,
            forall|j: int| 0 <= j < k ==> !delimiter_at(v@, j),
        decreases n - k,
    {
        if is_delimiter(&v, k) {
            return true;
        }
        k += 1;
    }
    false
}

/// Joins a header and a body into the text of a document.
pub fn join_document(header: &str, body: &str) -> (s: String)
    ensures
        s@ == document_text(header@, body@),
{
    let mut s = String::from_str(header);
    s.append("\n---\n");
    s.append(body);
    s
}

/// Trimming ignores a line end that follows the text.
pub proof fn lemma_trim_ignores_newline(s: Seq<char>)
    ensures
        trim(s.push('\n')) == trim(s),
{
    lemma_trim_start_push_blank(s);
}

proof fn lemma_trim_start_push_blank(s: Seq<char>)
    ensures
        trim_end(trim_start(s.push('\n'))) == trim_end(trim_start(s)),
    decreases s.len(),
{
    let t = s.push('\n');
    if s.len() > 0 && is_blank(s[0]) {
        assert(t.drop_first() =~= s.drop_first().push('\n'));
        lemma_trim_start_push_blank(s.drop_first());
    } else if s.len() == 0 {
        assert(is_blank(t[0]));
        assert(t.drop_first() =~= Seq::<char>::empty());
        assert(trim_start(t.drop_first()) =~= Seq::<char>::empty());
        assert(trim_start(t) =~= Seq::<char>::empty());
        assert(trim_start(s) =~= Seq::<char>::empty());
    } else {
        assert(trim_start(t) == t);
        assert(t.drop_last() =~= s);
    }
}

/// A document that is saved and read again gives back its header and its
/// body, each without the blanks around it, as long as no line of the
/// header is exactly `---`.
pub proof fn lemma_round_trip(header: Seq<char>, body: Seq<char>)
    requires
        free_of_delimiter(header),
    ensures
        parse_text(document_text(header, body)) == (trim(header), trim(body)),
{
    reveal_strlit("\n---\n");
    let mark = "\n---\n"@;
    let doc = document_text(header, body);
    let h = header.len() as int;
    assert(mark.len() == 5);
    assert(doc.len() == h + 5 + body.len());
    assert forall|i: int| 0 <= i < h implies doc[i] == header[i] by {}
    assert(doc[h] == mark[0] && doc[h + 1] == mark[1] && doc[h + 2] == mark[2] && doc[h + 3]
        == mark[3] && doc[h + 4] == mark[4]);
    assert forall|k: int| 0 <= k < h + 1 implies !delimiter_at(doc, k) by {
        if delimiter_at(doc, k) {
            assert(k + 2 < h);
            assert(delimiter_at(header, k));
        }
    }
    assert(delimiter_at(doc, h + 1));
    lemma_find_skips(doc, 0, h + 1);
    assert(find_delimiter(doc, 0) == Some(h + 1));
    assert(doc.subrange(0, h + 1) =~= header.push('\n'));
    assert(doc.subrange(h + 5, doc.len() as int) =~= body);
    lemma_trim_ignores_newline(header);
}

} // verus!
