//! Requests to the chart catalog: query parameters, the candidates for
//! manual-chart matching, and the app's installation id.

use vstd::prelude::*;
use crate::library::InstalledChart;
use crate::text;

verus! {

pub open spec fn pair_view(p: (String, String)) -> (Seq<char>, Seq<char>) {
    (p.0@, p.1@)
}

pub open spec fn pairs_view(ps: Seq<(String, String)>) -> Seq<(Seq<char>, Seq<char>)> {
    ps.map_values(|p: (String, String)| pair_view(p))
}

/// The query of a catalog page: page, 24 per page, newest first, then the
/// trimmed search text, the difficulty and the ranked filter when given.
pub open spec fn chart_query_of(query: Seq<char>, page: u32, difficulty: Seq<char>, ranked_only: bool) -> Seq<
    (Seq<char>, Seq<char>),
> {
    let base = seq![("page"@, text::decimal(page as nat)), ("pageSize"@, "24"@), ("sort"@, "newest"@)];
    let with_q = if text::trim_ws(query).len() > 0 {
        base.push(("q"@, text::trim_ws(query)))
    } else {
        base
    };
    let with_d = if difficulty.len() > 0 {
        with_q.push(("difficulty"@, difficulty))
    } else {
        with_q
    };
    if ranked_only {
        with_d.push(("ranked"@, "1"@))
    } else {
        with_d
    }
}

fn push_pair(v: &mut Vec<(String, String)>, k: &str, value: String)
    ensures
        pairs_view(final(v)@) == pairs_view(old(v)@).push((k@, value@)),
{
    let ghost before = pairs_view(v@);
    v.push((text::owned(k), value));
    assert(pairs_view(v@) =~= before.push((k@, value@)));
}

/// The query parameters of a catalog page request.
pub fn chart_query(query: &str, page: u32, difficulty: &str, ranked_only: bool) -> (r: Vec<(String, String)>)
    ensures
        pairs_view(r@) == chart_query_of(query@, page, difficulty@, ranked_only),
{
    let mut v: Vec<(String, String)> = Vec::new();
    assert(pairs_view(v@) =~= Seq::<(Seq<char>, Seq<char>)>::empty());
    push_pair(&mut v, "page", text::string_from(&text::decimal_chars(page as u64)));
    push_pair(&mut v, "pageSize", text::owned("24"));
    push_pair(&mut v, "sort", text::owned("newest"));
    let q = text::trim_chars(&text::chars_of(query), text::TrimSet::Whitespace);
    if q.len() > 0 {
        push_pair(&mut v, "q", text::string_from(&q));
    }
    if !difficulty.is_empty() {
        push_pair(&mut v, "difficulty", text::owned(difficulty));
    }
    if ranked_only {
        push_pair(&mut v, "ranked", text::owned("1"));
    }
    v
}

/// The query of a pack page: page, 12 per page, all charts of each pack,
/// then the trimmed search text when given.
pub open spec fn pack_query_of(query: Seq<char>, page: u32) -> Seq<(Seq<char>, Seq<char>)> {
    let base = seq![("page"@, text::decimal(page as nat)), ("pageSize"@, "12"@), ("charts"@, "all"@)];
    if text::trim_ws(query).len() > 0 {
        base.push(("q"@, text::trim_ws(query)))
    } else {
        base
    }
}

/// The query parameters of a pack page request.
pub fn pack_query(page: u32, query: &str) -> (r: Vec<(String, String)>)
    ensures
        pairs_view(r@) == pack_query_of(query@, page),
{
    let mut v: Vec<(String, String)> = Vec::new();
    assert(pairs_view(v@) =~= Seq::<(Seq<char>, Seq<char>)>::empty());
    push_pair(&mut v, "page", text::string_from(&text::decimal_chars(page as u64)));
    push_pair(&mut v, "pageSize", text::owned("12"));
    push_pair(&mut v, "charts", text::owned("all"));
    let q = text::trim_chars(&text::chars_of(query), text::TrimSet::Whitespace);
    if q.len() > 0 {
        push_pair(&mut v, "q", text::string_from(&q));
    }
    v
}

/// The catalog search for a manual chart: first page of 100, searching
/// "<title> <artist>".
pub fn manual_match_query(title: &str, artist: &str) -> (r: Vec<(String, String)>)
    ensures
        pairs_view(r@) == seq![("page"@, "0"@), ("pageSize"@, "100"@), ("q"@, title@ + " "@ + artist@)],
{
    let mut v: Vec<(String, String)> = Vec::new();
    assert(pairs_view(v@) =~= Seq::<(Seq<char>, Seq<char>)>::empty());
    push_pair(&mut v, "page", text::owned("0"));
    push_pair(&mut v, "pageSize", text::owned("100"));
    let mut q = text::chars_of(title);
    text::append_str(&mut q, " ");
    text::append_str(&mut q, artist);
    push_pair(&mut v, "q", text::string_from(&q));
    v
}

/// Charts worth looking up in the catalog: not managed, playable, and with
/// chart texts that name a title and an artist.
pub open spec fn is_manual_candidate(c: InstalledChart) -> bool {
    !c.managed && c.playable && c.manual_identity is Some
}

/// The installed charts to look up in the catalog, in listing order.
pub fn manual_match_candidates(charts: &Vec<InstalledChart>) -> (r: Vec<usize>)
    ensures
        forall|k: int| 0 <= k < r@.len() ==> (#[trigger] r@[k]) < charts@.len() && is_manual_candidate(charts@[r@[k] as int]),
        forall|i: int| 0 <= i < charts@.len() && is_manual_candidate(#[trigger] charts@[i]) ==> r@.contains(i as usize),
        forall|a: int, b: int| 0 <= a < b < r@.len() ==> r@[a] < r@[b],
        // Only playable charts without metadata whose texts name a title and
        // an artist are looked up.
        forall|k: int|
            0 <= k < r@.len() ==> !(#[trigger] charts@[r@[k] as int]).managed && charts@[r@[k] as int].playable
                && charts@[r@[k] as int].manual_identity is Some,
{
    let mut out: Vec<usize> = Vec::new();
    let mut i: usize = 0;
    while i < charts.len()
        invariant
            i <= charts@.len(),
            forall|k: int| 0 <= k < out@.len() ==> (#[trigger] out@[k]) < i && is_manual_candidate(charts@[out@[k] as int]),
            forall|x: int| 0 <= x < i && is_manual_candidate(#[trigger] charts@[x]) ==> out@.contains(x as usize),
            forall|a: int, b: int| 0 <= a < b < out@.len() ==> out@[a] < out@[b],
        decreases charts@.len() - i,
    {
        let c = &charts[i];
        if !c.managed && c.playable && c.manual_identity.is_some() {
            let ghost before = out@;
            out.push(i);
            assert(out@[before.len() as int] == i);
            assert forall|k: int| 0 <= k < before.len() implies out@[k] == before[k] by {}
            assert forall|x: int| 0 <= x < i + 1 && is_manual_candidate(#[trigger] charts@[x]) implies out@.contains(x as usize) by {
                if x < i {
                    let k = choose|k: int| 0 <= k < before.len() && before[k] == x as usize;
                    assert(out@[k] == x as usize);
                }
            }
        }
        i = i + 1;
    }
    out
}

/// The stored installation id, trimmed, when it is a UUID.
pub fn stored_installation_id(stored: &str) -> (r: Option<String>)
    ensures
        match r {
            Some(id) => id@ == text::trim_ws(stored@) && crate::ids::is_uuid_text(id@),
            None => !crate::ids::is_uuid_text(text::trim_ws(stored@)),
        },
{
    let trimmed = text::string_from(&text::trim_chars(&text::chars_of(stored), text::TrimSet::Whitespace));
    if crate::ids::validate_chart_id(trimmed.as_str()).is_ok() {
        Some(trimmed)
    } else {
        None
    }
}

/// The site the app talks to.
pub open spec fn site_origin() -> Seq<char> {
    "https://unchartable.site"@
}

fn concat3(a: &str, b: &str, c: &str) -> (r: String)
    ensures
        r@ == a@ + b@ + c@,
{
    let mut v = text::chars_of(a);
    text::append_str(&mut v, b);
    text::append_str(&mut v, c);
    text::string_from(&v)
}

/// The address of one chart: `<site>/api/charts/<id>`.
pub fn chart_api_url(chart_id: &str) -> (r: String)
    ensures
        r@ == site_origin() + "/api/charts/"@ + chart_id@,
{
    let r = concat3("https://unchartable.site/api/charts/", chart_id, "");
    proof {
        reveal_strlit("https://unchartable.site/api/charts/");
        reveal_strlit("https://unchartable.site");
        reveal_strlit("/api/charts/");
        reveal_strlit("");
        assert(r@ == site_origin() + "/api/charts/"@ + chart_id@);
    }
    r
}

/// The address of one pack: `<site>/api/packs/<id>`.
pub fn pack_api_url(pack_id: &str) -> (r: String)
    ensures
        r@ == site_origin() + "/api/packs/"@ + pack_id@,
{
    let r = concat3("https://unchartable.site/api/packs/", pack_id, "");
    proof {
        reveal_strlit("https://unchartable.site/api/packs/");
        reveal_strlit("https://unchartable.site");
        reveal_strlit("/api/packs/");
        reveal_strlit("");
        assert(r@ == site_origin() + "/api/packs/"@ + pack_id@);
    }
    r
}

/// The address of a chart's download ticket, asked for by the app:
/// `<site>/api/charts/<id>/download?format=json&source=app`.
pub fn download_ticket_url(chart_id: &str) -> (r: String)
    ensures
        r@ == site_origin() + "/api/charts/"@ + chart_id@ + "/download?format=json&source=app"@,
{
    let r = concat3(
        "https://unchartable.site/api/charts/",
        chart_id,
        "/download?format=json&source=app",
    );
    proof {
        reveal_strlit("https://unchartable.site/api/charts/");
        reveal_strlit("https://unchartable.site");
        reveal_strlit("/api/charts/");
        assert(r@ == site_origin() + "/api/charts/"@ + chart_id@ + "/download?format=json&source=app"@);
    }
    r
}

} // verus!
