//! Recognising a chart: a manual chart folder against the site catalog, and
//! an imported chart against the charts already installed.

use vstd::prelude::*;
use crate::chart::{self, ChartIdentity, IdentityView};
use crate::library::{self, InstalledChart};
use crate::text;

verus! {

/// A catalog entry, as far as matching reads it.
pub struct SiteChart {
    pub title: Option<String>,
    pub artist: Option<String>,
    /// Every charter name the entry gives: its `charterName`, the
    /// submitter's display and Discord names, and each difficulty's
    /// `charterName`.
    pub charter_names: Vec<String>,
}

/// Whether the two key lists share a key.
pub open spec fn share_key(a: Seq<Seq<char>>, b: Seq<Seq<char>>) -> bool {
    exists|i: int, j: int| 0 <= i < a.len() && 0 <= j < b.len() && #[trigger] a[i] == #[trigger] b[j]
}

pub open spec fn keys_of(names: Seq<String>) -> Seq<Seq<char>> {
    names.map_values(|s: String| chart::match_key(s@))
}

pub open spec fn opt_key_matches(v: Option<String>, target: Seq<char>) -> bool {
    v is Some && chart::match_key(v->0@) == chart::match_key(target)
}

/// A catalog entry is the manual chart when title and artist match by key,
/// one of the chart's creators is one of the entry's charters, and the
/// song lengths agree (`durations_agree`, judged by the app: within three
/// seconds, or either length unknown).
pub open spec fn site_chart_matches(c: SiteChart, id: IdentityView, durations_agree: bool) -> bool {
    &&& opt_key_matches(c.title, id.title)
    &&& opt_key_matches(c.artist, id.artist)
    &&& id.creators.len() > 0
    &&& share_key(id.creators, keys_of(c.charter_names@))
    &&& durations_agree
}

fn key_matches(v: &Option<String>, target_key: &String) -> (r: bool)
    ensures
        r == (v is Some && chart::match_key(v->0@) == target_key@),
{
    match v {
        Some(s) => chart::normalized_match_value(s.as_str()).eq(target_key),
        None => false,
    }
}

fn in_keys(keys: &Vec<String>, k: &String) -> (r: bool)
    ensures
        r == keys@.map_values(|s: String| s@).contains(k@),
{
    let mut i: usize = 0;
    while i < keys.len()
        invariant
            i <= keys@.len(),
            forall|j: int| 0 <= j < i ==> keys@[j]@ != k@,
        decreases keys@.len() - i,
    {
        if keys[i].eq(k) {
            assert(keys@.map_values(|s: String| s@)[i as int] == k@);
            return true;
        }
        i = i + 1;
    }
    let ghost kv = keys@.map_values(|s: String| s@);
    assert(!kv.contains(k@)) by {
        if kv.contains(k@) {
            let j = choose|j: int| 0 <= j < kv.len() && #[trigger] kv[j] == k@;
            assert(keys@[j]@ == k@);
        }
    }
    false
}

fn shares_key(ids: &Vec<String>, names: &Vec<String>) -> (r: bool)
    ensures
        r == share_key(ids@.map_values(|s: String| s@), keys_of(names@)),
{
    let ghost a = ids@.map_values(|s: String| s@);
    let ghost b = keys_of(names@);
    let mut j: usize = 0;
    while j < names.len()
        invariant
            j <= names@.len(),
            a == ids@.map_values(|s: String| s@),
            b == keys_of(names@),
            forall|jj: int, i: int| 0 <= jj < j && 0 <= i < a.len() ==> a[i] != b[jj],
        decreases names@.len() - j,
    {
        let k = chart::normalized_match_value(names[j].as_str());
        if in_keys(ids, &k) {
            proof {
                assert(b[j as int] == k@);
                let i = choose|i: int| 0 <= i < a.len() && a[i] == k@;
                assert(a[i] == b[j as int]);
            }
            return true;
        }
        j = j + 1;
    }
    false
}

/// Whether a catalog entry is the manual chart described by `identity`.
pub fn chart_matches_manual_identity(
    site: &SiteChart,
    identity: &ChartIdentity,
    durations_agree: bool,
) -> (r: bool)
    ensures
        r == site_chart_matches(*site, identity@, durations_agree),
        // Title and artist must match by key, the chart must name a creator
        // among the entry's charters, and the lengths must agree.
        r ==> site.title is Some && chart::match_key(site.title->0@) == chart::match_key(identity@.title),
        r ==> site.artist is Some && chart::match_key(site.artist->0@) == chart::match_key(
            identity@.artist,
        ),
        r ==> identity@.creators.len() > 0 && durations_agree,
{
    let title_key = chart::normalized_match_value(identity.title.as_str());
    let artist_key = chart::normalized_match_value(identity.artist.as_str());
    if !key_matches(&site.title, &title_key) || !key_matches(&site.artist, &artist_key)
        || identity.creators.len() == 0 {
        return false;
    }
    if !shares_key(&identity.creators, &site.charter_names) {
        return false;
    }
    durations_agree
}

/// The catalog entry that is the manual chart, when exactly one is:
/// `agree[i]` says whether entry `i`'s song length agrees.
pub fn unique_manual_match(
    candidates: &Vec<SiteChart>,
    agree: &Vec<bool>,
    identity: &ChartIdentity,
) -> (r: Option<usize>)
    requires
        agree@.len() == candidates@.len(),
    ensures
        match r {
            Some(i) => i < candidates@.len() && site_chart_matches(candidates@[i as int], identity@, agree@[i as int])
                && forall|j: int| 0 <= j < candidates@.len() && j != i ==> !site_chart_matches(
                    #[trigger] candidates@[j],
                    identity@,
                    agree@[j],
                ),
            None => !exists|i: int| 0 <= i < candidates@.len() && site_chart_matches(
                #[trigger] candidates@[i],
                identity@,
                agree@[i],
            ) && forall|j: int| 0 <= j < candidates@.len() && j != i ==> !site_chart_matches(
                #[trigger] candidates@[j],
                identity@,
                agree@[j],
            ),
        },
{
    let mut found: Option<usize> = None;
    let mut i: usize = 0;
    while i < candidates.len()
        invariant
            i <= candidates@.len() == agree@.len(),
            match found {
                Some(f) => f < i && site_chart_matches(candidates@[f as int], identity@, agree@[f as int])
                    && forall|j: int| 0 <= j < i && j != f ==> !site_chart_matches(
                        #[trigger] candidates@[j],
                        identity@,
                        agree@[j],
                    ),
                None => forall|j: int| 0 <= j < i ==> !site_chart_matches(
                    #[trigger] candidates@[j],
                    identity@,
                    agree@[j],
                ),
            },
        decreases candidates@.len() - i,
    {
        if chart_matches_manual_identity(&candidates[i], identity, agree[i]) {
            match found {
                Some(f) => {
                    assert(site_chart_matches(candidates@[i as int], identity@, agree@[i as int]));
                    assert(site_chart_matches(candidates@[f as int], identity@, agree@[f as int]));
                    return None;
                },
                None => {
                    found = Some(i);
                },
            }
        }
        i = i + 1;
    }
    found
}

/// The creator keys of an installed chart: those of its chart texts, or
/// else the key of its charter when not empty.
pub open spec fn local_creators(c: InstalledChart) -> Seq<Seq<char>> {
    match c.manual_identity {
        Some(i) => i@.creators,
        None => match c.charter {
            Some(ch) => if chart::match_key(ch@).len() > 0 {
                seq![chart::match_key(ch@)]
            } else {
                seq![]
            },
            None => seq![],
        },
    }
}

pub open spec fn artist_text(c: InstalledChart) -> Seq<char> {
    match c.artist {
        Some(a) => a@,
        None => seq![],
    }
}

/// An installed chart is the chart being imported when title and artist
/// match by key and the creators overlap (or either side names none).
pub open spec fn is_local_match(c: InstalledChart, id: IdentityView) -> bool {
    &&& chart::match_key(c.title@) == chart::match_key(id.title)
    &&& chart::match_key(artist_text(c)) == chart::match_key(id.artist)
    &&& (id.creators.len() == 0 || local_creators(c).len() == 0 || share_key(
        id.creators,
        local_creators(c),
    ))
}

fn creators_of(c: &InstalledChart) -> (r: Vec<String>)
    ensures
        r@.map_values(|s: String| s@) == local_creators(*c),
{
    match &c.manual_identity {
        Some(i) => {
            let mut out: Vec<String> = Vec::new();
            let mut k: usize = 0;
            while k < i.creators.len()
                invariant
                    k <= i.creators@.len(),
                    out@.len() == k,
                    forall|j: int| 0 <= j < k ==> (#[trigger] out@[j])@ == i.creators@[j]@,
                decreases i.creators@.len() - k,
            {
                out.push(i.creators[k].clone());
                k = k + 1;
            }
            assert(out@.map_values(|s: String| s@) =~= i@.creators);
            out
        },
        None => match &c.charter {
            Some(ch) => {
                let key = chart::normalized_match_value(ch.as_str());
                let mut out: Vec<String> = Vec::new();
                if !key.as_str().is_empty() {
                    out.push(key);
                }
                assert(out@.map_values(|s: String| s@) =~= local_creators(*c));
                out
            },
            None => {
                let out: Vec<String> = Vec::new();
                assert(out@.map_values(|s: String| s@) =~= local_creators(*c));
                out
            },
        },
    }
}

fn shares_plain(a: &Vec<String>, b: &Vec<String>) -> (r: bool)
    ensures
        r == share_key(a@.map_values(|s: String| s@), b@.map_values(|s: String| s@)),
{
    let ghost av = a@.map_values(|s: String| s@);
    let ghost bv = b@.map_values(|s: String| s@);
    let mut j: usize = 0;
    while j < b.len()
        invariant
            j <= b@.len(),
            av == a@.map_values(|s: String| s@),
            bv == b@.map_values(|s: String| s@),
            forall|jj: int, i: int| 0 <= jj < j && 0 <= i < av.len() ==> av[i] != bv[jj],
        decreases b@.len() - j,
    {
        if in_keys(a, &b[j]) {
            proof {
                let i = choose|i: int| 0 <= i < av.len() && av[i] == b@[j as int]@;
                assert(av[i] == bv[j as int]);
            }
            return true;
        }
        j = j + 1;
    }
    false
}

fn matches_local(c: &InstalledChart, identity: &ChartIdentity, title_key: &String, artist_key: &String) -> (r: bool)
    requires
        title_key@ == chart::match_key(identity@.title),
        artist_key@ == chart::match_key(identity@.artist),
    ensures
        r == is_local_match(*c, identity@),
{
    if !chart::normalized_match_value(c.title.as_str()).eq(title_key) {
        return false;
    }
    let artist = match &c.artist {
        Some(a) => chart::normalized_match_value(a.as_str()),
        None => chart::normalized_match_value(""),
    };
    proof {
        reveal_strlit("");
    }
    if !artist.eq(artist_key) {
        return false;
    }
    let local = creators_of(c);
    identity.creators.len() == 0 || local.len() == 0 || shares_plain(&identity.creators, &local)
}

/// The first installed chart that is the chart being imported, if any.
pub fn matching_local_chart(charts: &Vec<InstalledChart>, identity: &ChartIdentity) -> (r: Option<usize>)
    ensures
        match r {
            Some(i) => i < charts@.len() && is_local_match(charts@[i as int], identity@) && forall|j: int|
                0 <= j < i ==> !is_local_match(#[trigger] charts@[j], identity@),
            None => forall|j: int| 0 <= j < charts@.len() ==> !is_local_match(#[trigger] charts@[j], identity@),
        },
{
    let title_key = chart::normalized_match_value(identity.title.as_str());
    let artist_key = chart::normalized_match_value(identity.artist.as_str());
    let mut i: usize = 0;
    while i < charts.len()
        invariant
            i <= charts@.len(),
            title_key@ == chart::match_key(identity@.title),
            artist_key@ == chart::match_key(identity@.artist),
            forall|j: int| 0 <= j < i ==> !is_local_match(#[trigger] charts@[j], identity@),
        decreases charts@.len() - i,
    {
        if matches_local(&charts[i], identity, &title_key, &artist_key) {
            return Some(i);
        }
        i = i + 1;
    }
    None
}

/// A catalog entry is the manual chart exactly when its title and its
/// artist match the chart's by key, the chart names a creator, one of the
/// chart's creators is the key of one of the entry's charter names, and the
/// song lengths agree.
pub proof fn lemma_site_match_is_title_artist_creator_and_length(
    c: SiteChart,
    id: IdentityView,
    durations_agree: bool,
)
    ensures
        site_chart_matches(c, id, durations_agree) <==> {
            &&& c.title is Some && chart::match_key(c.title->0@) == chart::match_key(id.title)
            &&& c.artist is Some && chart::match_key(c.artist->0@) == chart::match_key(id.artist)
            &&& id.creators.len() > 0
            &&& exists|i: int, j: int|
                0 <= i < id.creators.len() && 0 <= j < c.charter_names@.len() && #[trigger] id.creators[i]
                    == chart::match_key(#[trigger] c.charter_names@[j]@)
            &&& durations_agree
        },
{
    let ks = keys_of(c.charter_names@);
    if site_chart_matches(c, id, durations_agree) {
        let (i, j) = choose|i: int, j: int|
            0 <= i < id.creators.len() && 0 <= j < ks.len() && #[trigger] id.creators[i] == #[trigger] ks[j];
        assert(ks[j] == chart::match_key(c.charter_names@[j]@));
    }
    if exists|i: int, j: int|
        0 <= i < id.creators.len() && 0 <= j < c.charter_names@.len() && #[trigger] id.creators[i]
            == chart::match_key(#[trigger] c.charter_names@[j]@) {
        let (i, j) = choose|i: int, j: int|
            0 <= i < id.creators.len() && 0 <= j < c.charter_names@.len() && #[trigger] id.creators[i]
                == chart::match_key(#[trigger] c.charter_names@[j]@);
        assert(ks[j] == chart::match_key(c.charter_names@[j]@));
        assert(share_key(id.creators, ks));
    }
}

/// An installed chart is the chart being imported when title and artist
/// match by key and either side names no creator: a chart read from its
/// texts without a `Creator` line, a managed chart without a charter, or an
/// import that names no creator.
pub proof fn lemma_creatorless_copies_match(c: InstalledChart, id: IdentityView)
    requires
        chart::match_key(c.title@) == chart::match_key(id.title),
        chart::match_key(artist_text(c)) == chart::match_key(id.artist),
        id.creators.len() == 0 || (c.manual_identity matches Some(i) && i@.creators.len() == 0) || (
        c.manual_identity is None && c.charter is None),
    ensures
        is_local_match(c, id),
{
}

/// An installed chart is never the chart being imported when the titles or
/// the artists differ by key.
pub proof fn lemma_local_match_needs_title_and_artist(c: InstalledChart, id: IdentityView)
    requires
        is_local_match(c, id),
    ensures
        chart::match_key(c.title@) == chart::match_key(id.title),
        chart::match_key(artist_text(c)) == chart::match_key(id.artist),
{
}

} // verus!
