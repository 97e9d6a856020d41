//! Reading a chart's text: `Key: value` lines, the identity that a chart
//! declares, match keys, and which files make a chart playable.

use vstd::prelude::*;
use crate::paths::{self, ChartPath, PartView};
use crate::text;

verus! {

/// `line` without one trailing carriage return.
pub open spec fn strip_cr(line: Seq<char>) -> Seq<char> {
    if line.len() > 0 && line.last() == '\r' {
        line.drop_last()
    } else {
        line
    }
}

/// The index of the first `c` in `s`, or -1.
pub open spec fn first_index_of(s: Seq<char>, c: char) -> int
    decreases s.len(),
{
    if s.len() == 0 {
        -1
    } else if s[0] == c {
        0
    } else if first_index_of(s.drop_first(), c) < 0 {
        -1
    } else {
        1 + first_index_of(s.drop_first(), c)
    }
}

/// `str::lines`: the text split at `\n`, each line without a `\r` that
/// ended it before the `\n`; a final line ending adds no empty line.
pub open spec fn lines_of(s: Seq<char>) -> Seq<Seq<char>>
    decreases s.len(),
{
    let k = first_index_of(s, '\n');
    if s.len() == 0 {
        seq![]
    } else if k < 0 {
        seq![s]
    } else {
        proof {
            lemma_first_index_bounds(s, '\n');
        }
        seq![strip_cr(s.take(k))] + lines_of(s.skip(k + 1))
    }
}

/// The value of a `key: value` line: the trimmed text after the first
/// colon, when the trimmed text before it equals `key` in any ASCII case
/// and the value is not empty.
pub open spec fn line_value(line: Seq<char>, key: Seq<char>) -> Option<Seq<char>> {
    let k = first_index_of(line, ':');
    if k >= 0 && text::eq_ignore_ascii_case(text::trim_ws(line.take(k)), key) && text::trim_ws(
        line.skip(k + 1),
    ).len() > 0 {
        Some(text::trim_ws(line.skip(k + 1)))
    } else {
        None
    }
}

/// The value of the first line of `lines` that sets `key`.
pub open spec fn first_value(lines: Seq<Seq<char>>, key: Seq<char>) -> Option<Seq<char>>
    decreases lines.len(),
{
    if lines.len() == 0 {
        None
    } else if line_value(lines[0], key) is Some {
        line_value(lines[0], key)
    } else {
        first_value(lines.drop_first(), key)
    }
}

/// What `chart_text_value(body, key)` returns.
pub open spec fn text_value(body: Seq<char>, key: Seq<char>) -> Option<Seq<char>> {
    first_value(lines_of(body), key)
}

pub proof fn lemma_first_index_bounds(s: Seq<char>, c: char)
    ensures
        -1 <= first_index_of(s, c) < s.len(),
        first_index_of(s, c) >= 0 ==> s[first_index_of(s, c)] == c,
        forall|i: int| 0 <= i < s.len() && (first_index_of(s, c) < 0 || i < first_index_of(s, c)) ==> s[i] != c,
    decreases s.len(),
{
    if s.len() > 0 {
        lemma_first_index_bounds(s.drop_first(), c);
        assert forall|i: int| 0 <= i < s.len() && (first_index_of(s, c) < 0 || i < first_index_of(s, c)) implies s[i] != c by {
            if i > 0 {
                assert(s[i] == s.drop_first()[i - 1]);
            }
        }
        if first_index_of(s, c) > 0 {
            assert(s[first_index_of(s, c)] == s.drop_first()[first_index_of(s, c) - 1]);
        }
    }
}

proof fn lemma_first_index_is(s: Seq<char>, c: char, k: int)
    requires
        0 <= k < s.len(),
        s[k] == c,
        forall|i: int| 0 <= i < k ==> s[i] != c,
    ensures
        first_index_of(s, c) == k,
    decreases k,
{
    if k > 0 {
        lemma_first_index_is(s.drop_first(), c, k - 1);
    }
}

proof fn lemma_first_index_none(s: Seq<char>, c: char)
    requires
        forall|i: int| 0 <= i < s.len() ==> s[i] != c,
    ensures
        first_index_of(s, c) == -1,
    decreases s.len(),
{
    if s.len() > 0 {
        lemma_first_index_none(s.drop_first(), c);
    }
}

/// The first index at or after `from` where `v` holds `c`, or `v.len()`.
fn find_from(v: &Vec<char>, from: usize, c: char) -> (r: usize)
    requires
        from <= v@.len(),
    ensures
        from <= r <= v@.len(),
        r < v@.len() ==> v@[r as int] == c,
        forall|i: int| from <= i < r ==> v@[i] != c,
{
    let mut i = from;
    while i < v.len() && v[i] != c
        invariant
            from <= i <= v@.len(),
            forall|k: int| from <= k < i ==> v@[k] != c,
        decreases v@.len() - i,
    {
        i = i + 1;
    }
    i
}

fn value_of_line(line: &Vec<char>, key: &Vec<char>) -> (r: Option<Vec<char>>)
    ensures
        match r {
            Some(v) => line_value(line@, key@) == Some(v@),
            None => line_value(line@, key@) is None,
        },
{
    let k = find_from(line, 0, ':');
    proof {
        if k < line@.len() {
            lemma_first_index_is(line@, ':', k as int);
        } else {
            lemma_first_index_none(line@, ':');
        }
    }
    if k == line.len() {
        return None;
    }
    let name = text::trim_chars(&text::subrange_chars(line, 0, k), text::TrimSet::Whitespace);
    assert(line@.subrange(0, k as int) == line@.take(k as int));
    if !text::chars_eq_ignore_ascii_case(&name, key) {
        return None;
    }
    let value = text::trim_chars(&text::subrange_chars(line, k + 1, line.len()), text::TrimSet::Whitespace);
    assert(line@.subrange(k + 1, line@.len() as int) == line@.skip(k + 1));
    if value.len() == 0 {
        None
    } else {
        Some(value)
    }
}

proof fn lemma_lines_step(s: Seq<char>, nl: int)
    requires
        0 <= nl < s.len(),
        s[nl] == '\n',
        forall|i: int| 0 <= i < nl ==> s[i] != '\n',
    ensures
        lines_of(s) == seq![strip_cr(s.take(nl))] + lines_of(s.skip(nl + 1)),
{
    lemma_first_index_is(s, '\n', nl);
}

proof fn lemma_lines_last(s: Seq<char>)
    requires
        s.len() > 0,
        forall|i: int| 0 <= i < s.len() ==> s[i] != '\n',
    ensures
        lines_of(s) == seq![s],
{
    lemma_first_index_none(s, '\n');
}

/// The trimmed value of the first `key: value` line of `body` whose key
/// matches `key` in any ASCII case and whose value is not empty.
pub fn chart_text_value(body: &str, key: &str) -> (r: Option<String>)
    ensures
        match r {
            Some(v) => text_value(body@, key@) == Some(v@),
            None => text_value(body@, key@) is None,
        },
{
    let v = text::chars_of(body);
    let k = text::chars_of(key);
    let n = v.len();
    let mut pos: usize = 0;
    assert(v@.skip(0) == v@);
    while pos < n
        invariant
            n == v@.len(),
            pos <= n,
            k@ == key@,
            text_value(body@, key@) == first_value(lines_of(v@.skip(pos as int)), k@),
            v@ == body@,
        decreases n - pos,
    {
        let nl = find_from(&v, pos, '\n');
        let ghost rest = v@.skip(pos as int);
        let end = if nl > pos && v[nl - 1] == '\r' && nl < n {
            nl - 1
        } else {
            nl
        };
        let line = text::subrange_chars(&v, pos, end);
        proof {
            assert forall|i: int| 0 <= i < nl - pos implies rest[i] != '\n' by {
                assert(rest[i] == v@[pos + i]);
            }
            if nl < n {
                assert(rest[nl - pos] == v@[nl as int]);
                lemma_lines_step(rest, nl - pos);
                assert(rest.take(nl - pos) == v@.subrange(pos as int, nl as int));
                assert(rest.skip(nl - pos + 1) == v@.skip(nl + 1));
                assert(line@ == strip_cr(rest.take(nl - pos)));
            } else {
                lemma_lines_last(rest);
                assert(line@ == rest);
            }
        }
        match value_of_line(&line, &k) {
            Some(found) => {
                return Some(text::string_from(&found));
            },
            None => {},
        }
        if nl == n {
            proof {
                assert(lines_of(rest) == seq![line@]);
                assert(first_value(lines_of(rest), k@) == first_value(lines_of(rest).drop_first(), k@));
                assert(lines_of(rest).drop_first() == Seq::<Seq<char>>::empty());
            }
            return None;
        }
        proof {
            assert(lines_of(rest).drop_first() == lines_of(v@.skip(nl + 1)));
        }
        pos = nl + 1;
    }
    proof {
        assert(v@.skip(n as int) == Seq::<char>::empty());
    }
    None
}

/// What `char::to_lowercase` yields for `c` (the Unicode lowercase mapping).
pub uninterp spec fn char_lowercase(c: char) -> Seq<char>;

/// What `char::is_alphanumeric` says of `c` (Unicode Alphabetic or Numeric).
pub uninterp spec fn char_alphanumeric(c: char) -> bool;

/// `char::to_lowercase`, collected.
#[verifier::external_body]
fn lowercase_chars(c: char) -> (r: Vec<char>)
    ensures
        r@ == char_lowercase(c),
{
    c.to_lowercase().collect()
}

/// `char::is_alphanumeric`.
#[verifier::external_body]
fn is_alphanumeric_char(c: char) -> (r: bool)
    ensures
        r == char_alphanumeric(c),
{
    c.is_alphanumeric()
}

/// The lowercase mapping of every character, in order.
pub open spec fn lowered(s: Seq<char>) -> Seq<char>
    decreases s.len(),
{
    if s.len() == 0 {
        seq![]
    } else {
        lowered(s.drop_last()) + char_lowercase(s.last())
    }
}

/// The alphanumeric characters of `s`, in order.
pub open spec fn alphanumerics(s: Seq<char>) -> Seq<char>
    decreases s.len(),
{
    if s.len() == 0 {
        seq![]
    } else if char_alphanumeric(s.last()) {
        alphanumerics(s.drop_last()).push(s.last())
    } else {
        alphanumerics(s.drop_last())
    }
}

/// The key under which titles, artists and charters are compared: the
/// lowercased text with everything but letters and digits dropped.
pub open spec fn match_key(s: Seq<char>) -> Seq<char> {
    alphanumerics(lowered(s))
}

proof fn lemma_alphanumerics_append(a: Seq<char>, b: Seq<char>)
    ensures
        alphanumerics(a + b) == alphanumerics(a) + alphanumerics(b),
    decreases b.len(),
{
    if b.len() == 0 {
        assert(a + b == a);
    } else {
        assert((a + b).drop_last() == a + b.drop_last());
        lemma_alphanumerics_append(a, b.drop_last());
    }
}

/// The comparison key of `value`: lowercase, letters and digits only.
pub fn normalized_match_value(value: &str) -> (r: String)
    ensures
        r@ == match_key(value@),
{
    let v = text::chars_of(value);
    let mut out: Vec<char> = Vec::new();
    let mut i: usize = 0;
    while i < v.len()
        invariant
            i <= v@.len(),
            out@ == match_key(v@.take(i as int)),
        decreases v@.len() - i,
    {
        let low = lowercase_chars(v[i]);
        let ghost before = out@;
        let mut j: usize = 0;
        while j < low.len()
            invariant
                j <= low@.len(),
                out@ == before + alphanumerics(low@.take(j as int)),
            decreases low@.len() - j,
        {
            assert(low@.take(j + 1).drop_last() == low@.take(j as int));
            if is_alphanumeric_char(low[j]) {
                out.push(low[j]);
            }
            j = j + 1;
        }
        proof {
            assert(low@.take(low@.len() as int) == low@);
            assert(v@.take(i + 1).drop_last() == v@.take(i as int));
            lemma_alphanumerics_append(lowered(v@.take(i as int)), low@);
        }
        i = i + 1;
    }
    assert(v@.take(v@.len() as int) == v@);
    text::string_from(&out)
}

/// What a chart's text files say about it.
pub struct ChartIdentity {
    pub title: String,
    pub artist: String,
    /// Match keys of every `Creator` named, each once, in the order found.
    pub creators: Vec<String>,
    /// The first `Creator` named, as written.
    pub creator_label: Option<String>,
}

/// The abstract value of a [`ChartIdentity`].
pub struct IdentityView {
    pub title: Seq<char>,
    pub artist: Seq<char>,
    pub creators: Seq<Seq<char>>,
    pub creator_label: Option<Seq<char>>,
}

pub open spec fn opt_str_view(o: Option<String>) -> Option<Seq<char>> {
    match o {
        Some(s) => Some(s@),
        None => None,
    }
}

impl View for ChartIdentity {
    type V = IdentityView;

    open spec fn view(&self) -> IdentityView {
        IdentityView {
            title: self.title@,
            artist: self.artist@,
            creators: self.creators@.map_values(|s: String| s@),
            creator_label: opt_str_view(self.creator_label),
        }
    }
}

/// `a`, or `b` when `a` is `None`, or the empty text.
pub open spec fn first_or_empty(a: Option<Seq<char>>, b: Option<Seq<char>>) -> Seq<char> {
    match a {
        Some(x) => x,
        None => match b {
            Some(y) => y,
            None => seq![],
        },
    }
}

/// `keys` with `k` added at the end unless already present.
pub open spec fn insert_key(keys: Seq<Seq<char>>, k: Seq<char>) -> Seq<Seq<char>> {
    if keys.contains(k) {
        keys
    } else {
        keys.push(k)
    }
}

/// The identity after reading one more chart text: a missing title or
/// artist is taken from `Title`/`TitleUnicode` or `Artist`/`ArtistUnicode`;
/// a `Creator` joins the creators and, if first, becomes the label.
pub open spec fn absorb_text(id: IdentityView, body: Seq<char>) -> IdentityView {
    let title = if id.title.len() == 0 {
        first_or_empty(text_value(body, "Title"@), text_value(body, "TitleUnicode"@))
    } else {
        id.title
    };
    let artist = if id.artist.len() == 0 {
        first_or_empty(text_value(body, "Artist"@), text_value(body, "ArtistUnicode"@))
    } else {
        id.artist
    };
    match text_value(body, "Creator"@) {
        Some(c) => IdentityView {
            title,
            artist,
            creators: insert_key(id.creators, match_key(c)),
            creator_label: if id.creator_label is None {
                Some(c)
            } else {
                id.creator_label
            },
        },
        None => IdentityView { title, artist, creators: id.creators, creator_label: id.creator_label },
    }
}

pub open spec fn no_duplicates(keys: Seq<Seq<char>>) -> bool {
    forall|i: int, j: int| 0 <= i < j < keys.len() ==> keys[i] != keys[j]
}

fn text_or_fallback(body: &str, key: &str, fallback: &str) -> (r: String)
    ensures
        r@ == first_or_empty(text_value(body@, key@), text_value(body@, fallback@)),
{
    match chart_text_value(body, key) {
        Some(v) => v,
        None => match chart_text_value(body, fallback) {
            Some(v) => v,
            None => String::new(),
        },
    }
}

impl ChartIdentity {
    /// An identity with nothing known yet.
    pub fn new() -> (r: ChartIdentity)
        ensures
            r@.title.len() == 0,
            r@.artist.len() == 0,
            r@.creators.len() == 0,
            r@.creator_label is None,
    {
        let r = ChartIdentity {
            title: String::new(),
            artist: String::new(),
            creators: Vec::new(),
            creator_label: None,
        };
        assert(r@.creators =~= Seq::<Seq<char>>::empty());
        r
    }

    /// Whether the charts named both a title and an artist.
    pub fn is_complete(&self) -> (r: bool)
        ensures
            r == (self@.title.len() > 0 && self@.artist.len() > 0),
    {
        !self.title.as_str().is_empty() && !self.artist.as_str().is_empty()
    }

    fn has_creator(&self, key: &String) -> (r: bool)
        ensures
            r == self@.creators.contains(key@),
    {
        let mut i: usize = 0;
        while i < self.creators.len()
            invariant
                i <= self.creators@.len(),
                forall|k: int| 0 <= k < i ==> self.creators@[k]@ != key@,
            decreases self.creators@.len() - i,
        {
            if self.creators[i].eq(key) {
                assert(self@.creators[i as int] == key@);
                return true;
            }
            i = i + 1;
        }
        assert(!self@.creators.contains(key@)) by {
            if self@.creators.contains(key@) {
                let k = choose|k: int| 0 <= k < self@.creators.len() && self@.creators[k] == key@;
                assert(self.creators@[k]@ == key@);
            }
        }
        false
    }

    /// Reads one chart text into the identity and hands back its `Tags`
    /// value, from which the app reads the song length.
    pub fn absorb_chart_text(&mut self, body: &str) -> (tags: Option<String>)
        ensures
            final(self)@ == absorb_text(old(self)@, body@),
            no_duplicates(old(self)@.creators) ==> no_duplicates(final(self)@.creators),
            // A title or artist already known stays; else the plain `Title`
            // (`Artist`) is taken, and the `...Unicode` one only without it.
            old(self)@.title.len() > 0 ==> final(self)@.title == old(self)@.title,
            (old(self)@.title.len() == 0 && text_value(body@, "Title"@) is Some) ==> final(self)@.title
                == text_value(body@, "Title"@)->0,
            (old(self)@.title.len() == 0 && text_value(body@, "Title"@) is None) ==> final(self)@.title
                == (match text_value(body@, "TitleUnicode"@) {
                Some(u) => u,
                None => seq![],
            }),
            old(self)@.artist.len() > 0 ==> final(self)@.artist == old(self)@.artist,
            (old(self)@.artist.len() == 0 && text_value(body@, "Artist"@) is Some) ==> final(self)@.artist
                == text_value(body@, "Artist"@)->0,
            (old(self)@.artist.len() == 0 && text_value(body@, "Artist"@) is None) ==> final(self)@.artist
                == (match text_value(body@, "ArtistUnicode"@) {
                Some(u) => u,
                None => seq![],
            }),
            opt_str_view(tags) == text_value(body@, "Tags"@),
    {
        if self.title.as_str().is_empty() {
            self.title = text_or_fallback(body, "Title", "TitleUnicode");
        }
        if self.artist.as_str().is_empty() {
            self.artist = text_or_fallback(body, "Artist", "ArtistUnicode");
        }
        match chart_text_value(body, "Creator") {
            Some(creator) => {
                if self.creator_label.is_none() {
                    self.creator_label = Some(creator.clone());
                }
                let key = normalized_match_value(creator.as_str());
                if !self.has_creator(&key) {
                    let ghost before = self@.creators;
                    self.creators.push(key);
                    assert(self@.creators =~= before.push(match_key(creator@)));
                }
            },
            None => {},
        }
        chart_text_value(body, "Tags")
    }
}

/// Audio formats that the game plays.
pub open spec fn is_audio_extension(e: Seq<char>) -> bool {
    ||| e == "mp3"@
    ||| e == "ogg"@
    ||| e == "wav"@
    ||| e == "flac"@
    ||| e == "m4a"@
    ||| e == "aac"@
}

/// Chart data is kept in `.txt` files.
pub open spec fn is_chart_extension(e: Seq<char>) -> bool {
    e == "txt"@
}

/// What a walk over a chart folder has found so far.
pub struct LocalChartInspection {
    pub identity: ChartIdentity,
    pub has_chart: bool,
    pub has_audio: bool,
    pub size_bytes: u64,
}

impl LocalChartInspection {
    pub fn new() -> (r: LocalChartInspection)
        ensures
            !r.has_chart && !r.has_audio && r.size_bytes == 0,
            r.identity@.title.len() == 0 && r.identity@.artist.len() == 0,
            r.identity@.creators.len() == 0 && r.identity@.creator_label is None,
    {
        LocalChartInspection {
            identity: ChartIdentity::new(),
            has_chart: false,
            has_audio: false,
            size_bytes: 0,
        }
    }

    /// Notes one file of the folder: its size (when the app could read it)
    /// counts towards the total, saturating, and its extension may show chart
    /// data or audio.  Returns whether the app should read the file's text
    /// into the identity: only chart texts, and only when `read_identity`.
    pub fn note_file(&mut self, path: &ChartPath, size: Option<u64>, read_identity: bool) -> (wants_text: bool)
        ensures
            final(self).size_bytes == match size {
                Some(n) => if old(self).size_bytes + n > u64::MAX {
                    u64::MAX as int
                } else {
                    old(self).size_bytes + n
                },
                None => old(self).size_bytes as int,
            },
            final(self).has_chart == (old(self).has_chart || is_chart_extension(
                paths::lower_extension(path@),
            )),
            final(self).has_audio == (old(self).has_audio || is_audio_extension(
                paths::lower_extension(path@),
            )),
            final(self).identity == old(self).identity,
            wants_text == (read_identity && is_chart_extension(paths::lower_extension(path@))),
            // The supported audio formats and the chart text, by extension.
            (paths::lower_extension(path@) == "mp3"@ || paths::lower_extension(path@) == "ogg"@
                || paths::lower_extension(path@) == "wav"@ || paths::lower_extension(path@) == "flac"@
                || paths::lower_extension(path@) == "m4a"@ || paths::lower_extension(path@) == "aac"@)
                ==> final(self).has_audio,
            paths::lower_extension(path@) == "txt"@ ==> final(self).has_chart,
            old(self).has_audio ==> final(self).has_audio,
            old(self).has_chart ==> final(self).has_chart,
    {
        if let Some(n) = size {
            self.size_bytes = self.size_bytes.saturating_add(n);
        }
        let e = paths::lowercase_extension(path);
        let is_chart = text::chars_are(&e, "txt");
        let is_audio = text::chars_are(&e, "mp3") || text::chars_are(&e, "ogg") || text::chars_are(
            &e,
            "wav",
        ) || text::chars_are(&e, "flac") || text::chars_are(&e, "m4a") || text::chars_are(&e, "aac");
        self.has_chart = self.has_chart || is_chart;
        self.has_audio = self.has_audio || is_audio;
        read_identity && is_chart
    }

    /// Whether the folder holds both chart data and audio.
    pub fn playable(&self) -> (r: bool)
        ensures
            r == (self.has_chart && self.has_audio),
    {
        self.has_chart && self.has_audio
    }
}

/// Why extracted files cannot be installed, if they lack chart data or audio.
/// Imports and downloads word the case with neither differently.
pub open spec fn structure_problem(has_chart: bool, has_audio: bool, import: bool) -> Option<
    Seq<char>,
> {
    if has_chart && has_audio {
        None
    } else if !has_chart && !has_audio {
        if import {
            Some("the archive contains neither chart .txt files nor supported audio."@)
        } else {
            Some("the archive does not contain a recognizable chart file or audio file."@)
        }
    } else if !has_chart {
        Some("the archive contains audio but no chart .txt file."@)
    } else {
        Some("the archive contains chart data but no supported audio file."@)
    }
}

/// The refusal for extracted files that lack chart data or audio.
pub fn structure_error(has_chart: bool, has_audio: bool, import: bool) -> (r: Option<String>)
    ensures
        opt_str_view(r) == structure_problem(has_chart, has_audio, import),
{
    let msg = if has_chart && has_audio {
        return None;
    } else if !has_chart && !has_audio {
        if import {
            "the archive contains neither chart .txt files nor supported audio."
        } else {
            "the archive does not contain a recognizable chart file or audio file."
        }
    } else if !has_chart {
        "the archive contains audio but no chart .txt file."
    } else {
        "the archive contains chart data but no supported audio file."
    };
    Some(text::string_from(&text::chars_of(msg)))
}

/// The supported audio formats are exactly mp3, ogg, wav, flac, m4a and aac
/// (by lowercase extension), and chart data is exactly a `.txt` file.
pub proof fn lemma_supported_formats(e: Seq<char>)
    ensures
        is_audio_extension(e) <==> (e == "mp3"@ || e == "ogg"@ || e == "wav"@ || e == "flac"@ || e
            == "m4a"@ || e == "aac"@),
        is_chart_extension(e) <==> e == "txt"@,
{
}

/// What a chart text gives the identity: a title or artist already known
/// stays; otherwise the plain `Title` (`Artist`) value is taken when the
/// text has one, and the `TitleUnicode` (`ArtistUnicode`) value only when it
/// has none.  A `Creator` becomes the label only when there was none.
pub proof fn lemma_plain_names_come_first(id: IdentityView, body: Seq<char>)
    ensures
        id.title.len() > 0 ==> absorb_text(id, body).title == id.title,
        id.title.len() == 0 && text_value(body, "Title"@) is Some ==> absorb_text(id, body).title
            == text_value(body, "Title"@)->0,
        id.title.len() == 0 && text_value(body, "Title"@) is None && text_value(body, "TitleUnicode"@)
            is Some ==> absorb_text(id, body).title == text_value(body, "TitleUnicode"@)->0,
        id.artist.len() > 0 ==> absorb_text(id, body).artist == id.artist,
        id.artist.len() == 0 && text_value(body, "Artist"@) is Some ==> absorb_text(id, body).artist
            == text_value(body, "Artist"@)->0,
        id.artist.len() == 0 && text_value(body, "Artist"@) is None && text_value(
            body,
            "ArtistUnicode"@,
        ) is Some ==> absorb_text(id, body).artist == text_value(body, "ArtistUnicode"@)->0,
        id.creator_label is Some ==> absorb_text(id, body).creator_label == id.creator_label,
        id.creator_label is None && text_value(body, "Creator"@) is Some ==> absorb_text(
            id,
            body,
        ).creator_label == text_value(body, "Creator"@),
{
}

} // verus!
