//! Text helpers shared by every renderer: blank trimming and decimal numbers.

use vstd::prelude::*;
use vstd::string::*;

verus! {

/// `String::push` appends one character.
pub assume_specification[ String::push ](s: &mut String, c: char)
    ensures
        final(s)@ == old(s)@.push(c),
;

/// Whether `c` has the Unicode `White_Space` property.
pub open spec fn is_blank(c: char) -> bool {
    let n = c as int;
    ||| 0x09 <= n <= 0x0D
    ||| n == 0x20
    ||| n == 0x85
    ||| n == 0xA0
    ||| n == 0x1680
    ||| 0x2000 <= n <= 0x200A
    ||| n == 0x2028
    ||| n == 0x2029
    ||| n == 0x202F
    ||| n == 0x205F
    ||| n == 0x3000
}

/// `s` without its leading blanks.
pub open spec fn trim_start(s: Seq<char>) -> Seq<char>
    decreases s.len(),
{
    if s.len() > 0 && is_blank(s[0]) {
        trim_start(s.drop_first())
    } else {
        s
    }
}

/// `s` without its trailing blanks.
pub open spec fn trim_end(s: Seq<char>) -> Seq<char>
    decreases s.len(),
{
    if s.len() > 0 && is_blank(s.last()) {
        trim_end(s.drop_last())
    } else {
        s
    }
}

/// `s` without its leading and trailing blanks.
pub open spec fn trim(s: Seq<char>) -> Seq<char> {
    trim_end(trim_start(s))
}

/// Decides `is_blank` for one character.
pub fn blank(c: char) -> (b: bool)
    ensures
        b == is_blank(c),
{
    let n: u32 = c as u32;
    (0x09 <= n && n <= 0x0D) || n == 0x20 || n == 0x85 || n == 0xA0 || n == 0x1680 || (0x2000 <= n
        && n <= 0x200A) || n == 0x2028 || n == 0x2029 || n == 0x202F || n == 0x205F || n == 0x3000
}

/// The characters of `s`, in order.
pub fn chars_of(s: &str) -> (v: Vec<char>)
    ensures
        v@ == s@,
{
    let mut v: Vec<char> = Vec::new();
    for c in it: s.chars()
        invariant
            v@ == it.history(),
    {
        v.push(c);
    }
    v
}

/// The text made of `v[from..to]`.
pub fn string_of(v: &Vec<char>, from: usize, to: usize) -> (s: String)
    requires
        from <= to <= v.len(),
    ensures
        s@ == v@.subrange(from as int, to as int),
{
    let mut s = String::new();
    let mut i: usize = from;
    while i < to
        invariant
            from <= i <= to <= v.len(),
            s@ == v@.subrange(from as int, i as int),
        decreases to - i,
    {
        s.push(v[i]);
        i += 1;
        assert(s@ =~= v@.subrange(from as int, i as int));
    }
    s
}

pub proof fn lemma_trim_start_skips(s: Seq<char>, i: int)
    requires
        0 <= i <= s.len(),
        forall|k: int| 0 <= k < i ==> is_blank(#[trigger] s[k]),
    ensures
        trim_start(s) == trim_start(s.subrange(i, s.len() as int)),
    decreases i,
{
    if i == 0 {
        assert(s.subrange(0, s.len() as int) =~= s);
    } else {
        let t = s.drop_first();
        assert forall|k: int| 0 <= k < i - 1 implies is_blank(#[trigger] t[k]) by {
            assert(t[k] == s[k + 1]);
        }
        lemma_trim_start_skips(t, i - 1);
        assert(t.subrange(i - 1, t.len() as int) =~= s.subrange(i, s.len() as int));
    }
}

pub proof fn lemma_trim_end_skips(s: Seq<char>, j: int)
    requires
        0 <= j <= s.len(),
        forall|k: int| j <= k < s.len() ==> is_blank(#[trigger] s[k]),
    ensures
        trim_end(s) == trim_end(s.subrange(0, j)),
    decreases s.len() - j,
{
    if j == s.len() {
        assert(s.subrange(0, j) =~= s);
    } else {
        let t = s.drop_last();
        lemma_trim_end_skips(t, j);
        assert(t.subrange(0, j) =~= s.subrange(0, j));
    }
}

/// Removes leading and trailing blanks.
pub fn trimmed(s: &str) -> (out: String)
    ensures
        out@ == trim(s@),
{
    let v = chars_of(s);
    let n = v.len();
    let mut i: usize = 0;
    while i < n && blank(v[i])
        invariant
            i <= n == v.len(),
            forall|k: int| 0 <= k < i ==> is_blank(#[trigger] v@[k]),
        decreases n - i,
    {
        i += 1;
    }
    let mut j: usize = n;
    while j > i && blank(v[j - 1])
        invariant
            i <= j <= n == v.len(),
            forall|k: int| j <= k < n ==> is_blank(#[trigger] v@[k]),
        decreases j,
    {
        j -= 1;
    }
    proof {
        lemma_trim_start_skips(v@, i as int);
        let mid = v@.subrange(i as int, n as int);
        assert forall|k: int| j - i <= k < mid.len() implies is_blank(#[trigger] mid[k]) by {
            assert(mid[k] == v@[k + i]);
        }
        lemma_trim_end_skips(mid, j - i);
        assert(mid.subrange(0, j - i) =~= v@.subrange(i as int, j as int));
    }
    string_of(&v, i, j)
}

/// Removes trailing blanks.
pub fn trimmed_end(s: &str) -> (out: String)
    ensures
        out@ == trim_end(s@),
{
    let v = chars_of(s);
    let n = v.len();
    let mut j: usize = n;
    while j > 0 && blank(v[j - 1])
        invariant
            j <= n == v.len(),
            forall|k: int| j <= k < n ==> is_blank(#[trigger] v@[k]),
        decreases j,
    {
        j -= 1;
    }
    proof {
        lemma_trim_end_skips(v@, j as int);
    }
    string_of(&v, 0, j)
}

/// The decimal digit that stands for `d`.
pub open spec fn digit(d: int) -> char {
    if d == 0 {
        '0'
    } else if d == 1 {
        '1'
    } else if d == 2 {
        '2'
    } else if d == 3 {
        '3'
    } else if d == 4 {
        '4'
    } else if d == 5 {
        '5'
    } else if d == 6 {
        '6'
    } else if d == 7 {
        '7'
    } else if d == 8 {
        '8'
    } else {
        '9'
    }
}

/// `n` in decimal, without leading zeros.
pub open spec fn decimal(n: nat) -> Seq<char>
    decreases n,
{
    if n < 10 {
        seq![digit(n as int)]
    } else {
        decimal(n / 10).push(digit((n % 10) as int))
    }
}

/// `v` in decimal, with a minus sign where it is negative.
pub open spec fn signed_decimal(v: int) -> Seq<char> {
    if v < 0 {
        seq!['-'] + decimal((-v) as nat)
    } else {
        decimal(v as nat)
    }
}

/// `n` in decimal, filled with a zero to two digits.
pub open spec fn two_digits(n: nat) -> Seq<char> {
    if n < 10 {
        seq!['0'] + decimal(n)
    } else {
        decimal(n)
    }
}

fn digit_of(d: u64) -> (c: char)
    requires
        d < 10,
    ensures
        c == digit(d as int),
{
    if d == 0 {
        '0'
    } else if d == 1 {
        '1'
    } else if d == 2 {
        '2'
    } else if d == 3 {
        '3'
    } else if d == 4 {
        '4'
    } else if d == 5 {
        '5'
    } else if d == 6 {
        '6'
    } else if d == 7 {
        '7'
    } else if d == 8 {
        '8'
    } else {
        '9'
    }
}

/// Appends `n` in decimal.
pub fn push_decimal(out: &mut String, n: u64)
    ensures
        final(out)@ == old(out)@ + decimal(n as nat),
    decreases n,
{
    if n >= 10 {
        push_decimal(out, n / 10);
    }
    out.push(digit_of(n % 10));
    assert(out@ =~= old(out)@ + decimal(n as nat));
}

/// Appends `v` in decimal, with its sign.
pub fn push_signed(out: &mut String, v: i32)
    ensures
        final(out)@ == old(out)@ + signed_decimal(v as int),
{
    if v < 0 {
        out.push('-');
        let m: i64 = -(v as i64);
        push_decimal(out, m as u64);
        assert(out@ =~= old(out)@ + signed_decimal(v as int));
    } else {
        push_decimal(out, v as u64);
    }
}

/// Appends `n` in decimal, filled to two digits.
pub fn push_two_digits(out: &mut String, n: u32)
    ensures
        final(out)@ == old(out)@ + two_digits(n as nat),
{
    if n < 10 {
        out.push('0');
    }
    push_decimal(out, n as u64);
    assert(out@ =~= old(out)@ + two_digits(n as nat));
}

/// Whether two texts hold the same characters.
pub fn same(a: &str, b: &str) -> (r: bool)
    ensures
        r == (a@ == b@),
{
    let x = String::from_str(a);
    let y = String::from_str(b);
    x == y
}

/// Whether `s` begins with `pat`.
pub open spec fn starts_with(s: Seq<char>, pat: Seq<char>) -> bool {
    pat.len() <= s.len() && s.subrange(0, pat.len() as int) == pat
}

/// `s` with `to` in place of each occurrence of `pat`, taken from the left
/// and without overlap. An empty `pat` occurs nowhere.
pub open spec fn substituted(s: Seq<char>, pat: Seq<char>, to: Seq<char>) -> Seq<char>
    decreases s.len(),
{
    if pat.len() == 0 || s.len() == 0 {
        s
    } else if starts_with(s, pat) {
        to + substituted(s.subrange(pat.len() as int, s.len() as int), pat, to)
    } else {
        seq![s[0]] + substituted(s.drop_first(), pat, to)
    }
}

fn matches_at(v: &Vec<char>, pat: &Vec<char>, i: usize) -> (b: bool)
    requires
        i <= v.len(),
    ensures
        b == starts_with(v@.subrange(i as int, v.len() as int), pat@),
{
    let n = v.len();
    let m = pat.len();
    if m > n - i {
        return false;
    }
    let ghost rest = v@.subrange(i as int, n as int);
    let mut k: usize = 0;
    while k < m
        invariant
            k <= m == pat.len(),
            m <= n - i,
            n == v.len(),
            rest == v@.subrange(i as int, n as int),
            forall|j: int| 0 <= j < k ==> rest[j] == pat@[j],
        decreases m - k,
    {
        if v[i + k] != pat[k] {
            assert(rest.subrange(0, m as int)[k as int] != pat@[k as int]);
            return false;
        }
        k += 1;
    }
    assert(rest.subrange(0, m as int) =~= pat@);
    true
}

/// Replaces each occurrence of `pat` in `text` by `to`.
pub fn substitute(text: &str, pat: &str, to: &str) -> (out: String)
    ensures
        out@ == substituted(text@, pat@, to@),
{
    let v = chars_of(text);
    let p = chars_of(pat);
    let n = v.len();
    if p.len() == 0 {
        return String::from_str(text);
    }
    let mut out = String::new();
    let mut i: usize = 0;
    assert(v@.subrange(0, n as int) =~= v@);
    while i < n
        invariant
            i <= n == v.len(),
            p@ == pat@,
            p.len() > 0,
            out@ + substituted(v@.subrange(i as int, n as int), p@, to@) == substituted(
                v@,
                p@,
                to@,
            ),
        decreases n - i,
    {
        let ghost rest = v@.subrange(i as int, n as int);
        let ghost before = out@;
        if matches_at(&v, &p, i) {
            out.append(to);
            i += p.len();
            proof {
                let next = v@.subrange(i as int, n as int);
                assert(rest.subrange(p.len() as int, rest.len() as int) =~= next);
                assert(out@ + substituted(next, p@, to@) =~= before + substituted(rest, p@, to@));
            }
        } else {
            out.push(v[i]);
            i += 1;
            proof {
                let next = v@.subrange(i as int, n as int);
                assert(rest.drop_first() =~= next);
                assert(out@ + substituted(next, p@, to@) =~= before + substituted(rest, p@, to@));
            }
        }
    }
    assert(out@ + Seq::<char>::empty() =~= out@);
    out
}

/// Whether `c` is one of the digits `0` to `9`.
pub open spec fn is_digit(c: char) -> bool {
    '0' <= c <= '9'
}

/// The number that the digit `c` stands for.
pub open spec fn digit_value(c: char) -> int {
    c as int - 48
}

/// The number that the two digits at `i` stand for.
pub open spec fn two_at(s: Seq<char>, i: int) -> int {
    digit_value(s[i]) * 10 + digit_value(s[i + 1])
}

/// The number that the four digits at `i` stand for.
pub open spec fn four_at(s: Seq<char>, i: int) -> int {
    two_at(s, i) * 100 + two_at(s, i + 2)
}

/// A digit is a digit, and stands for the number it was made from.
pub proof fn lemma_digit(d: int)
    requires
        0 <= d <= 9,
    ensures
        is_digit(digit(d)),
        digit_value(digit(d)) == d,
{
}

/// A number in decimal is made of digits, and of as many as its size
/// asks for.
pub proof fn lemma_decimal(n: nat)
    ensures
        decimal(n).len() >= 1,
        forall|k: int| 0 <= k < decimal(n).len() ==> is_digit(#[trigger] decimal(n)[k]),
        n < 10 ==> decimal(n).len() == 1 && digit_value(decimal(n)[0]) == n,
        10 <= n < 100 ==> decimal(n).len() == 2 && two_at(decimal(n), 0) == n,
        100 <= n < 1000 ==> decimal(n).len() == 3,
        1000 <= n < 10000 ==> decimal(n).len() == 4 && four_at(decimal(n), 0) == n,
        10000 <= n ==> decimal(n).len() >= 5,
    decreases n,
{
    if n < 10 {
        lemma_digit(n as int);
    } else {
        let head = decimal(n / 10);
        lemma_decimal(n / 10);
        lemma_digit((n % 10) as int);
        assert forall|k: int| 0 <= k < decimal(n).len() implies is_digit(
            #[trigger] decimal(n)[k],
        ) by {
            if k < head.len() {
                assert(decimal(n)[k] == head[k]);
            }
        }
        if n < 100 {
            assert(decimal(n)[0] == head[0]);
        } else if 1000 <= n < 10000 {
            lemma_decimal(n / 100);
            let top = decimal(n / 100);
            assert(n / 10 / 10 == n / 100);
            assert(head == top.push(digit(((n / 10) % 10) as int)));
            lemma_digit(((n / 10) % 10) as int);
            assert(decimal(n)[0] == top[0]);
            assert(decimal(n)[1] == top[1]);
            assert(decimal(n)[2] == head[2]);
        }
    }
}

/// A number that is filled to two digits has two digits where it is below
/// a hundred, and more where it is not; all of them are digits.
pub proof fn lemma_two_digits(n: nat)
    ensures
        forall|k: int| 0 <= k < two_digits(n).len() ==> is_digit(#[trigger] two_digits(n)[k]),
        n < 100 ==> two_digits(n).len() == 2 && two_at(two_digits(n), 0) == n,
        100 <= n ==> two_digits(n).len() >= 3,
{
    lemma_decimal(n);
    if n < 10 {
        lemma_digit(0);
        assert(two_digits(n)[0] == '0');
        assert(two_digits(n)[1] == decimal(n)[0]);
        assert forall|k: int| 0 <= k < two_digits(n).len() implies is_digit(
            #[trigger] two_digits(n)[k],
        ) by {
            if k == 1 {
                assert(is_digit(decimal(n)[0]));
            }
        }
    }
}

} // verus!
