//! Folder names for installed charts: Windows-safe sanitizing and the names
//! used for fresh installs, conflicting installs and archive roots.

use vstd::prelude::*;
use crate::text::{self, TrimSet};

verus! {

/// Characters that Windows refuses in a folder name, plus the ASCII controls.
pub open spec fn is_forbidden(c: char) -> bool {
    ||| c == '<'
    ||| c == '>'
    ||| c == ':'
    ||| c == '"'
    ||| c == '/'
    ||| c == '\\'
    ||| c == '|'
    ||| c == '?'
    ||| c == '*'
    ||| c <= '\u{1f}'
}

/// Every forbidden character replaced by a space.
pub open spec fn blank_forbidden(s: Seq<char>) -> Seq<char> {
    s.map_values(|c: char| if is_forbidden(c) { ' ' } else { c })
}

/// The white-space separated words of `s` (`str::split_whitespace`):
/// the maximal runs of characters that are not white space, in order.
pub open spec fn words(s: Seq<char>) -> Seq<Seq<char>>
    decreases s.len(),
{
    if s.len() == 0 {
        seq![]
    } else {
        let w = words(s.drop_last());
        let c = s.last();
        if text::is_ws(c) {
            w
        } else if s.len() > 1 && !text::is_ws(s[s.len() - 2]) && w.len() > 0 {
            w.update(w.len() - 1, w.last().push(c))
        } else {
            w.push(seq![c])
        }
    }
}

/// The words joined with single spaces.
pub open spec fn join_words(w: Seq<Seq<char>>) -> Seq<char>
    decreases w.len(),
{
    if w.len() == 0 {
        seq![]
    } else if w.len() == 1 {
        w[0]
    } else {
        join_words(w.drop_last()) + seq![' '] + w.last()
    }
}

/// `str::eq_ignore_ascii_case` against a name of three characters.
pub open spec fn ieq3(s: Seq<char>, a: char, b: char, c: char) -> bool {
    &&& text::ascii_lower(s[0]) == text::ascii_lower(a)
    &&& text::ascii_lower(s[1]) == text::ascii_lower(b)
    &&& text::ascii_lower(s[2]) == text::ascii_lower(c)
}

/// Windows device names (CON, PRN, AUX, NUL, COM1-9, LPT1-9), in any ASCII case.
pub open spec fn is_reserved(s: Seq<char>) -> bool {
    ||| s.len() == 3 && (ieq3(s, 'C', 'O', 'N') || ieq3(s, 'P', 'R', 'N') || ieq3(s, 'A', 'U', 'X')
        || ieq3(s, 'N', 'U', 'L'))
    ||| s.len() == 4 && (ieq3(s, 'C', 'O', 'M') || ieq3(s, 'L', 'P', 'T')) && '1' <= s[3] && s[3]
        <= '9'
}

/// The name used when nothing usable is left of a title.
pub open spec fn fallback_name() -> Seq<char> {
    "Unchartable Chart"@
}

/// The longest folder name produced, in characters.
pub const MAX_FOLDER_NAME_CHARS: usize = 100;

/// What `sanitize_folder_name` returns for `value`.
pub open spec fn sanitized(value: Seq<char>) -> Seq<char> {
    let t = text::trim_by(join_words(words(blank_forbidden(value))), text::dot_space_pred());
    if t.len() == 0 || is_reserved(t) {
        fallback_name()
    } else if t.len() > MAX_FOLDER_NAME_CHARS {
        t.take(MAX_FOLDER_NAME_CHARS as int)
    } else {
        t
    }
}

proof fn lemma_words_nonempty(s: Seq<char>)
    requires
        s.len() > 0,
        !text::is_ws(s.last()),
    ensures
        words(s).len() > 0,
{
    reveal_with_fuel(words, 2);
}

proof fn lemma_join_extend(w: Seq<Seq<char>>, c: char)
    requires
        w.len() > 0,
    ensures
        join_words(w.update(w.len() - 1, w.last().push(c))) == join_words(w).push(c),
{
    let u = w.update(w.len() - 1, w.last().push(c));
    if w.len() > 1 {
        assert(u.drop_last() == w.drop_last());
    }
}

proof fn lemma_join_push(w: Seq<Seq<char>>, x: Seq<char>)
    ensures
        join_words(w.push(x)) == if w.len() == 0 {
            x
        } else {
            join_words(w) + seq![' '] + x
        },
{
    assert(w.push(x).drop_last() == w);
}

/// `value` with forbidden characters blanked and white space collapsed to
/// single spaces between words.
fn collapse_blanked(v: &Vec<char>) -> (r: Vec<char>)
    ensures
        r@ == join_words(words(blank_forbidden(v@))),
{
    let ghost b = blank_forbidden(v@);
    let mut out: Vec<char> = Vec::new();
    let mut i: usize = 0;
    let mut prev_word: bool = false;
    assert(b.take(0) == Seq::<char>::empty());
    while i < v.len()
        invariant
            i <= v@.len(),
            b == blank_forbidden(v@),
            b.len() == v@.len(),
            out@ == join_words(words(b.take(i as int))),
            prev_word == (i > 0 && !text::is_ws(b[i - 1])),
        decreases v@.len() - i,
    {
        let c0 = v[i];
        let c = if c0 == '<' || c0 == '>' || c0 == ':' || c0 == '"' || c0 == '/' || c0 == '\\' || c0
            == '|' || c0 == '?' || c0 == '*' || c0 <= '\u{1f}' {
            ' '
        } else {
            c0
        };
        assert(c == b[i as int]);
        let ghost pre = b.take(i as int);
        let ghost next = b.take(i + 1);
        assert(next.drop_last() == pre);
        assert(next.last() == c);
        let ws = text::is_whitespace_char(c);
        if ws {
        } else if prev_word {
            proof {
                assert(next[next.len() - 2] == b[i - 1]);
                lemma_words_nonempty(pre);
                lemma_join_extend(words(pre), c);
            }
            out.push(c);
        } else {
            proof {
                lemma_join_push(words(pre), seq![c]);
            }
            if out.len() > 0 {
                out.push(' ');
            } else {
                proof {
                    if words(pre).len() > 0 {
                        lemma_words_entries_nonempty(pre);
                        lemma_join_nonempty(words(pre));
                    }
                }
            }
            out.push(c);
        }
        prev_word = !ws;
        i = i + 1;
    }
    assert(b.take(v@.len() as int) == b);
    out
}

proof fn lemma_words_entries_nonempty(s: Seq<char>)
    ensures
        forall|k: int| 0 <= k < words(s).len() ==> (#[trigger] words(s)[k]).len() > 0,
    decreases s.len(),
{
    if s.len() > 0 {
        lemma_words_entries_nonempty(s.drop_last());
        let w = words(s.drop_last());
        assert forall|k: int| 0 <= k < words(s).len() implies (#[trigger] words(s)[k]).len() > 0 by {
            if k < w.len() && !(k == w.len() - 1 && words(s) != w && words(s).len() == w.len()) {
                assert(w[k].len() > 0);
            }
        }
    }
}

proof fn lemma_join_nonempty(w: Seq<Seq<char>>)
    requires
        w.len() > 0,
        forall|k: int| 0 <= k < w.len() ==> (#[trigger] w[k]).len() > 0,
    ensures
        join_words(w).len() > 0,
    decreases w.len(),
{
}

fn ieq3_exec(v: &Vec<char>, a: char, b: char, c: char) -> (r: bool)
    requires
        v@.len() >= 3,
    ensures
        r == ieq3(v@, a, b, c),
{
    text::to_ascii_lower(v[0]) == text::to_ascii_lower(a) && text::to_ascii_lower(v[1]) == text::to_ascii_lower(b)
        && text::to_ascii_lower(v[2]) == text::to_ascii_lower(c)
}

fn is_reserved_name(v: &Vec<char>) -> (r: bool)
    ensures
        r == is_reserved(v@),
{
    if v.len() == 3 {
        ieq3_exec(v, 'C', 'O', 'N') || ieq3_exec(v, 'P', 'R', 'N') || ieq3_exec(v, 'A', 'U', 'X')
            || ieq3_exec(v, 'N', 'U', 'L')
    } else if v.len() == 4 {
        (ieq3_exec(v, 'C', 'O', 'M') || ieq3_exec(v, 'L', 'P', 'T')) && '1' <= v[3] && v[3] <= '9'
    } else {
        false
    }
}

fn sanitize_chars(v: &Vec<char>) -> (r: String)
    ensures
        r@ == sanitized(v@),
{
    let collapsed = collapse_blanked(v);
    let t = text::trim_chars(&collapsed, TrimSet::DotsAndSpaces);
    if t.len() == 0 || is_reserved_name(&t) {
        return text::string_from(&text::chars_of("Unchartable Chart"));
    }
    if t.len() > MAX_FOLDER_NAME_CHARS {
        let mut out: Vec<char> = Vec::new();
        let mut i: usize = 0;
        while i < MAX_FOLDER_NAME_CHARS
            invariant
                i <= MAX_FOLDER_NAME_CHARS < t@.len(),
                out@ == t@.take(i as int),
            decreases MAX_FOLDER_NAME_CHARS - i,
        {
            out.push(t[i]);
            i = i + 1;
            assert(out@ == t@.take(i as int));
        }
        text::string_from(&out)
    } else {
        text::string_from(&t)
    }
}

/// A Windows-safe folder name for `value`: forbidden characters become
/// spaces, white space collapses to single spaces, leading and trailing
/// spaces and dots go, a device name or an empty result becomes
/// "Unchartable Chart", and the result keeps at most 100 characters.
pub fn sanitize_folder_name(value: &str) -> (r: String)
    ensures
        r@ == sanitized(value@),
{
    sanitize_chars(&text::chars_of(value))
}

/// The folder name for a fresh install: the sanitized, trimmed title.
pub fn generated_install_folder_name(title: &str) -> (r: String)
    ensures
        r@ == sanitized(text::trim_ws(title@)),
{
    let t = text::trim_chars(&text::chars_of(title), TrimSet::Whitespace);
    sanitize_chars(&t)
}

/// The charter named in a conflicting folder name: the trimmed charter, or
/// "Unknown Charter" when nothing is left.
pub open spec fn charter_label(charter: Seq<char>) -> Seq<char> {
    if text::trim_ws(charter).len() == 0 {
        "Unknown Charter"@
    } else {
        text::trim_ws(charter)
    }
}

/// "<title> by <charter>" before sanitizing.
pub open spec fn title_by_charter(title: Seq<char>, charter: Seq<char>) -> Seq<char> {
    text::trim_ws(title) + " by "@ + charter_label(charter)
}

/// The folder name used when the title's own folder is already taken:
/// "<title> by <charter>", sanitized.
pub fn conflicting_install_folder_name(title: &str, charter: &str) -> (r: String)
    ensures
        r@ == sanitized(title_by_charter(title@, charter@)),
{
    let c = text::trim_chars(&text::chars_of(charter), TrimSet::Whitespace);
    let label = if c.len() == 0 {
        text::chars_of("Unknown Charter")
    } else {
        c
    };
    let mut joined = text::trim_chars(&text::chars_of(title), TrimSet::Whitespace);
    let sep = text::chars_of(" by ");
    let mut i: usize = 0;
    let ghost base = joined@;
    while i < sep.len()
        invariant
            i <= sep@.len(),
            joined@ == base + sep@.take(i as int),
        decreases sep@.len() - i,
    {
        joined.push(sep[i]);
        i = i + 1;
        assert(joined@ == base + sep@.take(i as int));
    }
    assert(sep@.take(sep@.len() as int) == sep@);
    let ghost base2 = joined@;
    let mut k: usize = 0;
    while k < label.len()
        invariant
            k <= label@.len(),
            joined@ == base2 + label@.take(k as int),
        decreases label@.len() - k,
    {
        joined.push(label[k]);
        k = k + 1;
        assert(joined@ == base2 + label@.take(k as int));
    }
    assert(label@.take(label@.len() as int) == label@);
    sanitize_chars(&joined)
}

proof fn lemma_words_keep(s: Seq<char>, q: spec_fn(char) -> bool)
    requires
        forall|i: int| 0 <= i < s.len() ==> q(#[trigger] s[i]),
    ensures
        forall|k: int, i: int|
            0 <= k < words(s).len() && 0 <= i < words(s)[k].len() ==> q(#[trigger] words(s)[k][i])
                && !text::is_ws(words(s)[k][i]),
    decreases s.len(),
{
    if s.len() > 0 {
        let d = s.drop_last();
        assert forall|i: int| 0 <= i < d.len() implies q(#[trigger] d[i]) by {
            assert(d[i] == s[i]);
        }
        lemma_words_keep(d, q);
        let w = words(d);
        let c = s.last();
        let ws = words(s);
        assert forall|k: int, i: int|
            0 <= k < ws.len() && 0 <= i < ws[k].len() implies q(#[trigger] ws[k][i]) && !text::is_ws(
            ws[k][i],
        ) by {
            if text::is_ws(c) {
            } else if s.len() > 1 && !text::is_ws(s[s.len() - 2]) && w.len() > 0 {
                if k == w.len() - 1 {
                    if i < w[k].len() {
                        assert(ws[k][i] == w[k][i]);
                    } else {
                        assert(ws[k][i] == c);
                    }
                } else {
                    assert(ws[k] == w[k]);
                }
            } else {
                if k < w.len() {
                    assert(ws[k] == w[k]);
                } else {
                    assert(ws[k][i] == c);
                }
            }
        }
    }
}

proof fn lemma_join_keep(w: Seq<Seq<char>>, q: spec_fn(char) -> bool)
    requires
        forall|k: int, i: int|
            0 <= k < w.len() && 0 <= i < w[k].len() ==> q(#[trigger] w[k][i]) && !text::is_ws(w[k][i]),
    ensures
        forall|i: int|
            0 <= i < join_words(w).len() ==> (q(#[trigger] join_words(w)[i]) && !text::is_ws(
                join_words(w)[i],
            )) || join_words(w)[i] == ' ',
    decreases w.len(),
{
    if w.len() > 1 {
        let d = w.drop_last();
        assert forall|k: int, i: int| 0 <= k < d.len() && 0 <= i < d[k].len() implies q(
            #[trigger] d[k][i],
        ) && !text::is_ws(d[k][i]) by {
            assert(d[k] == w[k]);
        }
        lemma_join_keep(d, q);
        let j = join_words(w);
        let a = join_words(d);
        let l = w.last();
        assert forall|i: int| 0 <= i < j.len() implies (q(#[trigger] j[i]) && !text::is_ws(j[i])) || j[i]
            == ' ' by {
            if i < a.len() {
                assert(j[i] == a[i]);
            } else if i > a.len() {
                assert(j[i] == l[i - a.len() - 1]);
                assert(w[w.len() - 1] == l);
            }
        }
    } else if w.len() == 1 {
        assert forall|i: int| 0 <= i < join_words(w).len() implies (q(#[trigger] join_words(w)[i])
            && !text::is_ws(join_words(w)[i])) || join_words(w)[i] == ' ' by {
            assert(join_words(w)[i] == w[0][i]);
        }
    }
}

/// A sanitized folder name is usable on Windows: it is not empty, keeps at
/// most 100 characters, holds no forbidden character and no white space but
/// plain spaces, is no device name, and starts with neither a space nor a dot.
pub proof fn lemma_sanitized_is_safe(value: Seq<char>)
    ensures
        0 < sanitized(value).len() <= MAX_FOLDER_NAME_CHARS,
        forall|i: int|
            0 <= i < sanitized(value).len() ==> !is_forbidden(#[trigger] sanitized(value)[i]),
        forall|i: int|
            0 <= i < sanitized(value).len() ==> (#[trigger] sanitized(value)[i] == ' ' || !text::is_ws(
                sanitized(value)[i],
            )),
        !is_reserved(sanitized(value)),
        sanitized(value)[0] != ' ',
        sanitized(value)[0] != '.',
{
    let b = blank_forbidden(value);
    let q = |c: char| !is_forbidden(c);
    assert forall|i: int| 0 <= i < b.len() implies q(#[trigger] b[i]) by {}
    lemma_words_keep(b, q);
    let j = join_words(words(b));
    lemma_join_keep(words(b), q);
    let q2 = |c: char| !is_forbidden(c) && (c == ' ' || !text::is_ws(c));
    assert forall|i: int| 0 <= i < j.len() implies q2(#[trigger] j[i]) by {}
    text::lemma_trim_keeps(j, text::dot_space_pred(), q2);
    text::lemma_trim_ends(j, text::dot_space_pred());
    let t = text::trim_by(j, text::dot_space_pred());
    let r = sanitized(value);
    if t.len() == 0 || is_reserved(t) {
        reveal_strlit("Unchartable Chart");
        assert(r == fallback_name());
        assert(r.len() == 17);
        assert(!is_reserved(r));
        assert forall|i: int| 0 <= i < r.len() implies !is_forbidden(#[trigger] r[i]) && (r[i]
            == ' ' || !text::is_ws(r[i])) by {}
    } else if t.len() > MAX_FOLDER_NAME_CHARS {
        assert forall|i: int| 0 <= i < r.len() implies q2(#[trigger] r[i]) by {
            assert(r[i] == t[i]);
        }
        assert(r[0] == t[0]);
    } else {
        assert forall|i: int| 0 <= i < r.len() implies q2(#[trigger] r[i]) by {}
    }
}

/// Single spaces between words: no leading space, no white space but plain
/// spaces, and never two spaces in a row.
pub open spec fn single_spaced(s: Seq<char>) -> bool {
    &&& s.len() > 0 ==> s[0] != ' '
    &&& forall|i: int| 0 <= i < s.len() ==> (#[trigger] s[i] == ' ' || !text::is_ws(s[i]))
    &&& forall|i: int| 1 <= i < s.len() && #[trigger] s[i] == ' ' ==> s[i - 1] != ' '
}

/// A folder name that sanitizing leaves as it is: not empty, at most 100
/// characters, single spaced, without forbidden characters, neither
/// starting nor ending with a space or a dot, and no device name.
pub open spec fn is_kept_name(s: Seq<char>) -> bool {
    &&& 0 < s.len() <= MAX_FOLDER_NAME_CHARS
    &&& single_spaced(s)
    &&& forall|i: int| 0 <= i < s.len() ==> !is_forbidden(#[trigger] s[i])
    &&& s[0] != '.'
    &&& s.last() != ' ' && s.last() != '.'
    &&& !is_reserved(s)
}

proof fn lemma_join_words_single_spaced(s: Seq<char>)
    requires
        single_spaced(s),
    ensures
        join_words(words(s)) == (if s.len() > 0 && s.last() == ' ' {
            s.drop_last()
        } else {
            s
        }),
    decreases s.len(),
{
    if s.len() > 0 {
        let d = s.drop_last();
        assert(single_spaced(d)) by {
            assert forall|i: int| 0 <= i < d.len() implies (#[trigger] d[i] == ' ' || !text::is_ws(
                d[i],
            )) by {
                assert(d[i] == s[i]);
            }
            assert forall|i: int| 1 <= i < d.len() && #[trigger] d[i] == ' ' implies d[i - 1] != ' ' by {
                assert(d[i] == s[i]);
                assert(d[i - 1] == s[i - 1]);
            }
        }
        lemma_join_words_single_spaced(d);
        let w = words(d);
        let c = s.last();
        assert(c == s[s.len() - 1]);
        if text::is_ws(c) {
            assert(c == ' ');
            assert(s.len() > 1);
            assert(d.last() == s[s.len() - 2]);
        } else if s.len() > 1 && !text::is_ws(s[s.len() - 2]) && w.len() > 0 {
            assert(d.last() == s[s.len() - 2]);
            lemma_join_extend(w, c);
            assert(s =~= d.push(c));
        } else {
            lemma_join_push(w, seq![c]);
            if s.len() == 1 {
                assert(s =~= seq![c]);
            } else {
                assert(d.last() == s[s.len() - 2]);
                if w.len() == 0 {
                    if d.last() == ' ' {
                        assert(d.drop_last().len() == 0);
                        assert(d.len() == 1);
                        assert(s[0] == d[0]);
                    }
                } else {
                    assert(s[s.len() - 2] == ' ');
                    assert(d.drop_last() + seq![' '] + seq![c] =~= s);
                }
            }
        }
    }
}

/// A folder name that is already safe is kept as it is, so an archive's own
/// root folder keeps its name when installed.
pub proof fn lemma_kept_name_is_unchanged(s: Seq<char>)
    requires
        is_kept_name(s),
    ensures
        sanitized(s) == s,
{
    assert(blank_forbidden(s) =~= s);
    lemma_join_words_single_spaced(s);
    let p = text::dot_space_pred();
    assert(!p(s[0]));
    assert(!p(s.last()));
    assert(text::trim_start_by(s, p) == s);
    assert(text::trim_end_by(s, p) == s);
}

/// Never two spaces in a row.
pub open spec fn no_double_space(s: Seq<char>) -> bool {
    forall|i: int| 1 <= i < s.len() && #[trigger] s[i] == ' ' ==> s[i - 1] != ' '
}

proof fn lemma_join_no_double_space(w: Seq<Seq<char>>)
    requires
        forall|k: int| 0 <= k < w.len() ==> (#[trigger] w[k]).len() > 0,
        forall|k: int, i: int| 0 <= k < w.len() && 0 <= i < w[k].len() ==> !text::is_ws(#[trigger] w[k][i]),
    ensures
        no_double_space(join_words(w)),
        join_words(w).len() > 0 ==> !text::is_ws(join_words(w).last()),
    decreases w.len(),
{
    if w.len() == 1 {
        assert(join_words(w) == w[0]);
        assert(join_words(w).last() == w[0][w[0].len() - 1]);
        assert forall|i: int| 1 <= i < join_words(w).len() && #[trigger] join_words(w)[i] == ' ' implies join_words(w)[i - 1] != ' ' by {
            assert(!text::is_ws(w[0][i]));
        }
    } else if w.len() > 1 {
        let d = w.drop_last();
        assert forall|k: int, i: int| 0 <= k < d.len() && 0 <= i < d[k].len() implies !text::is_ws(
            #[trigger] d[k][i],
        ) by {
            assert(d[k] == w[k]);
        }
        assert forall|k: int| 0 <= k < d.len() implies (#[trigger] d[k]).len() > 0 by {
            assert(d[k] == w[k]);
        }
        lemma_join_no_double_space(d);
        lemma_join_nonempty(d);
        let a = join_words(d);
        let l = w.last();
        let j = join_words(w);
        assert(j == a + seq![' '] + l);
        assert(l == w[w.len() - 1]);
        assert(l.len() > 0);
        assert forall|i: int| 0 <= i < l.len() implies !text::is_ws(#[trigger] l[i]) by {
            assert(l[i] == w[w.len() - 1][i]);
        }
        assert(j.last() == l[l.len() - 1]);
        assert forall|i: int| 1 <= i < j.len() && #[trigger] j[i] == ' ' implies j[i - 1] != ' ' by {
            if i < a.len() {
                assert(j[i] == a[i]);
                assert(j[i - 1] == a[i - 1]);
            } else if i == a.len() {
                assert(j[i - 1] == a.last());
            } else {
                assert(j[i] == l[i - a.len() - 1]);
            }
        }
    }
}

proof fn lemma_trim_start_no_double_space(s: Seq<char>, p: spec_fn(char) -> bool)
    requires
        no_double_space(s),
    ensures
        no_double_space(text::trim_start_by(s, p)),
    decreases s.len(),
{
    if s.len() > 0 && p(s[0]) {
        let d = s.drop_first();
        assert forall|i: int| 1 <= i < d.len() && #[trigger] d[i] == ' ' implies d[i - 1] != ' ' by {
            assert(d[i] == s[i + 1]);
            assert(d[i - 1] == s[i]);
        }
        lemma_trim_start_no_double_space(d, p);
    }
}

proof fn lemma_take_no_double_space(s: Seq<char>, n: int)
    requires
        no_double_space(s),
        0 <= n <= s.len(),
    ensures
        no_double_space(s.take(n)),
{
    let t = s.take(n);
    assert forall|i: int| 1 <= i < t.len() && #[trigger] t[i] == ' ' implies t[i - 1] != ' ' by {
        assert(t[i] == s[i]);
        assert(t[i - 1] == s[i - 1]);
    }
}

/// A sanitized folder name never holds two spaces in a row.
pub proof fn lemma_sanitized_has_no_double_space(value: Seq<char>)
    ensures
        no_double_space(sanitized(value)),
{
    let b = blank_forbidden(value);
    let w = words(b);
    lemma_words_entries_nonempty(b);
    let q = |c: char| true;
    lemma_words_keep(b, q);
    assert forall|k: int, i: int| 0 <= k < w.len() && 0 <= i < w[k].len() implies !text::is_ws(
        #[trigger] w[k][i],
    ) by {
        assert(q(w[k][i]) && !text::is_ws(w[k][i]));
    }
    lemma_join_no_double_space(w);
    let j = join_words(w);
    let p = text::dot_space_pred();
    lemma_trim_start_no_double_space(j, p);
    let front = text::trim_start_by(j, p);
    text::lemma_trim_end_keeps(front, p, q);
    let t = text::trim_by(j, p);
    lemma_take_no_double_space(front, t.len() as int);
    assert(no_double_space(t));
    let r = sanitized(value);
    if t.len() == 0 || is_reserved(t) {
        reveal_strlit("Unchartable Chart");
        assert(r == fallback_name());
        assert forall|i: int| 1 <= i < r.len() && #[trigger] r[i] == ' ' implies r[i - 1] != ' ' by {}
    } else if t.len() > MAX_FOLDER_NAME_CHARS {
        lemma_take_no_double_space(t, MAX_FOLDER_NAME_CHARS as int);
    }
}

/// Sanitizing a sanitized name changes nothing, unless cutting it to 100
/// characters left a space or a dot at its end.
pub proof fn lemma_sanitize_is_idempotent(value: Seq<char>)
    requires
        sanitized(value).last() != ' ',
        sanitized(value).last() != '.',
    ensures
        sanitized(sanitized(value)) == sanitized(value),
{
    lemma_sanitized_is_safe(value);
    lemma_sanitized_has_no_double_space(value);
    let r = sanitized(value);
    assert(is_kept_name(r));
    lemma_kept_name_is_unchanged(r);
}

} // verus!
