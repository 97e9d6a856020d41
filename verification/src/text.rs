//! Character-level text helpers shared by the naming and parsing rules.

use vstd::prelude::*;

verus! {

/// Unicode `White_Space`, the property behind `char::is_whitespace`.
pub open spec fn is_ws(c: char) -> bool {
    ||| ('\u{9}' <= c && c <= '\u{d}')
    ||| c == ' '
    ||| c == '\u{85}'
    ||| c == '\u{a0}'
    ||| c == '\u{1680}'
    ||| ('\u{2000}' <= c && c <= '\u{200a}')
    ||| c == '\u{2028}'
    ||| c == '\u{2029}'
    ||| c == '\u{202f}'
    ||| c == '\u{205f}'
    ||| c == '\u{3000}'
}

/// Whether `c` is Unicode white space.
pub fn is_whitespace_char(c: char) -> (r: bool)
    ensures
        r == is_ws(c),
{
    ('\u{9}' <= c && c <= '\u{d}') || c == ' ' || c == '\u{85}' || c == '\u{a0}' || c == '\u{1680}'
        || ('\u{2000}' <= c && c <= '\u{200a}') || c == '\u{2028}' || c == '\u{2029}' || c
        == '\u{202f}' || c == '\u{205f}' || c == '\u{3000}'
}

/// The characters of `s`, in order.
pub fn chars_of(s: &str) -> (r: Vec<char>)
    ensures
        r@ == s@,
{
    broadcast use vstd::string::group_string_axioms;

    let mut out: Vec<char> = Vec::new();
    let mut rest = s.chars();
    loop
        invariant
            vstd::std_specs::iter::IteratorSpec::obeys_prophetic_iter_laws(&rest),
            out@ + vstd::std_specs::iter::IteratorSpec::remaining(&rest) == s@,
            vstd::std_specs::iter::IteratorSpec::decrease(&rest) is Some,
        ensures
            out@ == s@,
        decreases vstd::std_specs::iter::IteratorSpec::decrease(&rest)->0,
    {
        let ghost before = vstd::std_specs::iter::IteratorSpec::remaining(&rest);
        match rest.next() {
            Some(c) => {
                out.push(c);
                assert(out@ + vstd::std_specs::iter::IteratorSpec::remaining(&rest) == s@) by {
                    assert(before == seq![c] + vstd::std_specs::iter::IteratorSpec::remaining(&rest));
                }
            },
            None => {
                assert(out@ == s@);
                break ;
            },
        }
    }
    out
}

#[verifier::external_body]
fn push_char(s: &mut String, c: char)
    ensures
        final(s)@ == old(s)@.push(c),
{
    s.push(c);
}

/// A `String` holding exactly the characters of `v`.
pub fn string_from(v: &Vec<char>) -> (r: String)
    ensures
        r@ == v@,
{
    let mut out = String::new();
    let mut i: usize = 0;
    while i < v.len()
        invariant
            i <= v@.len(),
            out@ == v@.take(i as int),
        decreases v@.len() - i,
    {
        push_char(&mut out, v[i]);
        i = i + 1;
        assert(out@ == v@.take(i as int));
    }
    assert(v@.take(v@.len() as int) == v@);
    out
}

/// ASCII lowercase of one character; other characters are unchanged.
pub open spec fn ascii_lower(c: char) -> char {
    if 'A' <= c && c <= 'Z' {
        ((c as u32) + 32) as char
    } else {
        c
    }
}

pub fn to_ascii_lower(c: char) -> (r: char)
    ensures
        r == ascii_lower(c),
{
    if 'A' <= c && c <= 'Z' {
        let b: u8 = c as u8;
        (b + 32) as char
    } else {
        c
    }
}

/// `a.eq_ignore_ascii_case(b)`.
pub open spec fn eq_ignore_ascii_case(a: Seq<char>, b: Seq<char>) -> bool {
    &&& a.len() == b.len()
    &&& forall|i: int| 0 <= i < a.len() ==> ascii_lower(#[trigger] a[i]) == ascii_lower(b[i])
}

pub fn chars_eq_ignore_ascii_case(a: &Vec<char>, b: &Vec<char>) -> (r: bool)
    ensures
        r == eq_ignore_ascii_case(a@, b@),
{
    if a.len() != b.len() {
        return false;
    }
    let mut i: usize = 0;
    while i < a.len()
        invariant
            a@.len() == b@.len(),
            i <= a@.len(),
            forall|k: int| 0 <= k < i ==> ascii_lower(#[trigger] a@[k]) == ascii_lower(b@[k]),
        decreases a@.len() - i,
    {
        if to_ascii_lower(a[i]) != to_ascii_lower(b[i]) {
            return false;
        }
        i = i + 1;
    }
    true
}

/// Drops the leading characters that satisfy `p`.
pub open spec fn trim_start_by(s: Seq<char>, p: spec_fn(char) -> bool) -> Seq<char>
    decreases s.len(),
{
    if s.len() > 0 && p(s[0]) {
        trim_start_by(s.drop_first(), p)
    } else {
        s
    }
}

/// Drops the trailing characters that satisfy `p`.
pub open spec fn trim_end_by(s: Seq<char>, p: spec_fn(char) -> bool) -> Seq<char>
    decreases s.len(),
{
    if s.len() > 0 && p(s.last()) {
        trim_end_by(s.drop_last(), p)
    } else {
        s
    }
}

/// Drops the leading and trailing characters that satisfy `p`.
pub open spec fn trim_by(s: Seq<char>, p: spec_fn(char) -> bool) -> Seq<char> {
    trim_end_by(trim_start_by(s, p), p)
}

pub open spec fn ws_pred() -> spec_fn(char) -> bool {
    |c: char| is_ws(c)
}

/// `str::trim`: drops leading and trailing Unicode white space.
pub open spec fn trim_ws(s: Seq<char>) -> Seq<char> {
    trim_by(s, ws_pred())
}

proof fn lemma_trim_start_skip(s: Seq<char>, k: int, p: spec_fn(char) -> bool)
    requires
        0 <= k < s.len(),
        p(s[k]),
    ensures
        trim_start_by(s.skip(k), p) == trim_start_by(s.skip(k + 1), p),
{
    assert(s.skip(k).drop_first() == s.skip(k + 1));
}

proof fn lemma_trim_end_take(s: Seq<char>, k: int, p: spec_fn(char) -> bool)
    requires
        0 < k <= s.len(),
        p(s[k - 1]),
    ensures
        trim_end_by(s.take(k), p) == trim_end_by(s.take(k - 1), p),
{
    assert(s.take(k).drop_last() == s.take(k - 1));
}

pub open spec fn dot_space_pred() -> spec_fn(char) -> bool {
    |c: char| c == ' ' || c == '.'
}

/// Which characters a trim removes.
#[derive(Clone, Copy, PartialEq, Eq)]
pub enum TrimSet {
    /// Unicode white space, as `str::trim`.
    Whitespace,
    /// Spaces and dots, as `str::trim_matches([' ', '.'])`.
    DotsAndSpaces,
}

pub open spec fn trim_pred(set: TrimSet) -> spec_fn(char) -> bool {
    match set {
        TrimSet::Whitespace => ws_pred(),
        TrimSet::DotsAndSpaces => dot_space_pred(),
    }
}

fn in_trim_set(c: char, set: TrimSet) -> (r: bool)
    ensures
        r == (trim_pred(set))(c),
{
    match set {
        TrimSet::Whitespace => is_whitespace_char(c),
        TrimSet::DotsAndSpaces => c == ' ' || c == '.',
    }
}

/// The characters of `v` with the leading and trailing members of `set` removed.
pub fn trim_chars(v: &Vec<char>, set: TrimSet) -> (r: Vec<char>)
    ensures
        r@ == trim_by(v@, trim_pred(set)),
{
    let ghost p = trim_pred(set);
    let n = v.len();
    let mut lo: usize = 0;
    assert(v@.skip(0) == v@);
    while lo < n && in_trim_set(v[lo], set)
        invariant
            n == v@.len(),
            lo <= n,
            p == trim_pred(set),
            trim_start_by(v@, p) == trim_start_by(v@.skip(lo as int), p),
        decreases n - lo,
    {
        proof {
            lemma_trim_start_skip(v@, lo as int, p);
        }
        lo = lo + 1;
    }
    let ghost front = v@.skip(lo as int);
    assert(trim_start_by(front, p) == front);
    let mut hi: usize = n;
    assert(front.take((n - lo) as int) == front);
    while hi > lo && in_trim_set(v[hi - 1], set)
        invariant
            lo <= hi <= n,
            n == v@.len(),
            p == trim_pred(set),
            front == v@.skip(lo as int),
            trim_end_by(front, p) == trim_end_by(front.take(hi - lo), p),
        decreases hi,
    {
        proof {
            lemma_trim_end_take(front, (hi - lo) as int, p);
        }
        hi = hi - 1;
    }
    let mut out: Vec<char> = Vec::new();
    let mut i: usize = lo;
    while i < hi
        invariant
            lo <= i <= hi <= n,
            n == v@.len(),
            out@ == v@.subrange(lo as int, i as int),
        decreases hi - i,
    {
        out.push(v[i]);
        i = i + 1;
        assert(out@ == v@.subrange(lo as int, i as int));
    }
    assert(out@ == front.take(hi - lo));
    out
}

/// Trimming keeps every property that all characters of `s` share.
pub proof fn lemma_trim_keeps(s: Seq<char>, p: spec_fn(char) -> bool, q: spec_fn(char) -> bool)
    requires
        forall|i: int| 0 <= i < s.len() ==> q(#[trigger] s[i]),
    ensures
        forall|i: int|
            0 <= i < trim_by(s, p).len() ==> q(#[trigger] trim_by(s, p)[i]),
        trim_by(s, p).len() <= s.len(),
{
    lemma_trim_start_keeps(s, p, q);
    lemma_trim_end_keeps(trim_start_by(s, p), p, q);
}

proof fn lemma_trim_start_keeps(s: Seq<char>, p: spec_fn(char) -> bool, q: spec_fn(char) -> bool)
    requires
        forall|i: int| 0 <= i < s.len() ==> q(#[trigger] s[i]),
    ensures
        forall|i: int|
            0 <= i < trim_start_by(s, p).len() ==> q(#[trigger] trim_start_by(s, p)[i]),
        trim_start_by(s, p).len() <= s.len(),
        trim_start_by(s, p).len() > 0 ==> !p(trim_start_by(s, p)[0]),
    decreases s.len(),
{
    if s.len() > 0 && p(s[0]) {
        let d = s.drop_first();
        assert forall|i: int| 0 <= i < d.len() implies q(#[trigger] d[i]) by {
            assert(d[i] == s[i + 1]);
        }
        lemma_trim_start_keeps(d, p, q);
    }
}

pub(crate) proof fn lemma_trim_end_keeps(s: Seq<char>, p: spec_fn(char) -> bool, q: spec_fn(char) -> bool)
    requires
        forall|i: int| 0 <= i < s.len() ==> q(#[trigger] s[i]),
    ensures
        forall|i: int|
            0 <= i < trim_end_by(s, p).len() ==> q(#[trigger] trim_end_by(s, p)[i]),
        trim_end_by(s, p).len() <= s.len(),
        trim_end_by(s, p) == s.take(trim_end_by(s, p).len() as int),
        trim_end_by(s, p).len() > 0 ==> !p(trim_end_by(s, p).last()),
    decreases s.len(),
{
    if s.len() > 0 && p(s.last()) {
        let d = s.drop_last();
        lemma_trim_end_keeps(d, p, q);
        let r = trim_end_by(d, p);
        assert(r == s.take(r.len() as int));
    } else {
        assert(s == s.take(s.len() as int));
    }
}

/// After a trim, the result neither starts nor ends with a trimmed character.
pub proof fn lemma_trim_ends(s: Seq<char>, p: spec_fn(char) -> bool)
    ensures
        trim_by(s, p).len() > 0 ==> !p(trim_by(s, p)[0]) && !p(trim_by(s, p).last()),
{
    let q = |c: char| true;
    lemma_trim_start_keeps(s, p, q);
    lemma_trim_end_keeps(trim_start_by(s, p), p, q);
}

/// Whether `a` and `b` hold the same characters.
pub fn chars_equal(a: &Vec<char>, b: &Vec<char>) -> (r: bool)
    ensures
        r == (a@ == b@),
{
    if a.len() != b.len() {
        return false;
    }
    let mut i: usize = 0;
    while i < a.len()
        invariant
            a@.len() == b@.len(),
            i <= a@.len(),
            forall|k: int| 0 <= k < i ==> a@[k] == b@[k],
        decreases a@.len() - i,
    {
        if a[i] != b[i] {
            return false;
        }
        i = i + 1;
    }
    assert(a@ =~= b@);
    true
}

/// Whether the characters of `a` spell `s`.
pub fn chars_are(a: &Vec<char>, s: &str) -> (r: bool)
    ensures
        r == (a@ == s@),
{
    chars_equal(a, &chars_of(s))
}

/// Every character ASCII-lowercased (`str::to_ascii_lowercase`).
pub open spec fn ascii_lower_seq(s: Seq<char>) -> Seq<char> {
    s.map_values(|c: char| ascii_lower(c))
}

pub fn chars_to_ascii_lower(v: &Vec<char>) -> (r: Vec<char>)
    ensures
        r@ == ascii_lower_seq(v@),
{
    let mut out: Vec<char> = Vec::new();
    let mut i: usize = 0;
    while i < v.len()
        invariant
            i <= v@.len(),
            out@ == ascii_lower_seq(v@.take(i as int)),
        decreases v@.len() - i,
    {
        out.push(to_ascii_lower(v[i]));
        i = i + 1;
        assert(out@ =~= ascii_lower_seq(v@.take(i as int)));
    }
    assert(v@.take(v@.len() as int) == v@);
    out
}

/// The characters of `v` from `lo` up to `hi`.
pub fn subrange_chars(v: &Vec<char>, lo: usize, hi: usize) -> (r: Vec<char>)
    requires
        lo <= hi <= v@.len(),
    ensures
        r@ == v@.subrange(lo as int, hi as int),
{
    let mut out: Vec<char> = Vec::new();
    let mut i = lo;
    while i < hi
        invariant
            lo <= i <= hi <= v@.len(),
            out@ == v@.subrange(lo as int, i as int),
        decreases hi - i,
    {
        out.push(v[i]);
        i = i + 1;
        assert(out@ == v@.subrange(lo as int, i as int));
    }
    out
}

pub open spec fn digit_char(d: nat) -> char {
    (('0' as u32) + d) as char
}

/// The decimal digits of `n`.
pub open spec fn decimal(n: nat) -> Seq<char>
    decreases n,
{
    if n < 10 {
        seq![digit_char(n)]
    } else {
        decimal(n / 10).push(digit_char(n % 10))
    }
}

fn digit(d: u64) -> (r: char)
    requires
        d < 10,
    ensures
        r == digit_char(d as nat),
{
    if d == 0 { '0' } else if d == 1 { '1' } else if d == 2 { '2' } else if d == 3 { '3' } else if d == 4 { '4' }
    else if d == 5 { '5' } else if d == 6 { '6' } else if d == 7 { '7' } else if d == 8 { '8' } else { '9' }
}

/// The decimal digits of `n` (`n.to_string()`).
pub fn decimal_chars(n: u64) -> (r: Vec<char>)
    ensures
        r@ == decimal(n as nat),
    decreases n,
{
    if n < 10 {
        let mut v: Vec<char> = Vec::new();
        v.push(digit(n));
        v
    } else {
        let mut v = decimal_chars(n / 10);
        v.push(digit(n % 10));
        v
    }
}

/// `v` followed by the characters of `s`.
pub fn append_str(v: &mut Vec<char>, s: &str)
    ensures
        final(v)@ == old(v)@ + s@,
{
    let p = chars_of(s);
    append_chars(v, &p);
}

/// `v` followed by `p`.
pub fn append_chars(v: &mut Vec<char>, p: &Vec<char>)
    ensures
        final(v)@ == old(v)@ + p@,
{
    let ghost base = v@;
    let mut i: usize = 0;
    while i < p.len()
        invariant
            i <= p@.len(),
            v@ == base + p@.take(i as int),
        decreases p@.len() - i,
    {
        v.push(p[i]);
        i = i + 1;
        assert(v@ == base + p@.take(i as int));
    }
    assert(p@.take(p@.len() as int) == p@);
}

/// A `String` of a literal.
pub fn owned(s: &str) -> (r: String)
    ensures
        r@ == s@,
{
    string_from(&chars_of(s))
}

} // verus!
