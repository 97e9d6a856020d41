//! The game folder as the app lists it: install metadata, the record of
//! each chart folder, their order, and finding a chart already installed.

use vstd::prelude::*;
use crate::chart::{self, ChartIdentity, IdentityView, LocalChartInspection};
use crate::order;
use crate::text;

verus! {

/// Whether a chart installed by the app has updates on unless the metadata
/// says otherwise.
pub fn default_updates_enabled() -> (r: bool)
    ensures
        r,
{
    true
}

/// The metadata the app keeps in each chart folder it manages.
pub struct InstallMetadata {
    pub chart_id: String,
    pub title: String,
    pub artist: String,
    pub charter: String,
    pub archive_sha256: String,
    pub source: String,
    pub updated_at: Option<String>,
    pub installed_at: Option<String>,
    pub updates_enabled: bool,
}

/// One chart folder of the game folder.
pub struct InstalledChart {
    pub chart_id: Option<String>,
    pub title: String,
    pub artist: Option<String>,
    pub charter: Option<String>,
    pub folder_name: String,
    pub path: String,
    pub managed: bool,
    pub playable: bool,
    pub size_bytes: u64,
    pub updated_at: Option<String>,
    pub installed_at: Option<String>,
    pub updates_enabled: bool,
    /// What the chart texts say, when they name both a title and an artist.
    pub manual_identity: Option<ChartIdentity>,
}

pub open spec fn ov(o: Option<String>) -> Option<Seq<char>> {
    chart::opt_str_view(o)
}

pub open spec fn identity_view(o: Option<ChartIdentity>) -> Option<IdentityView> {
    match o {
        Some(i) => Some(i@),
        None => None,
    }
}

/// The record's title: the metadata title when set, else the title the
/// chart texts name, else the folder name.
pub open spec fn record_title(
    meta: Option<InstallMetadata>,
    identity: Option<IdentityView>,
    folder: Seq<char>,
) -> Seq<char> {
    if meta is Some && meta->0.title@.len() > 0 {
        meta->0.title@
    } else if identity is Some {
        identity->0.title
    } else {
        folder
    }
}

/// The fields of a chart folder's record, from its metadata (if the app
/// manages it) and from walking its files.
pub open spec fn is_record_of(
    r: InstalledChart,
    folder: Seq<char>,
    path: Seq<char>,
    meta: Option<InstallMetadata>,
    identity: Option<IdentityView>,
    has_chart: bool,
    has_audio: bool,
    size: u64,
) -> bool {
    &&& identity_view(r.manual_identity) == identity
    &&& ov(r.chart_id) == (if meta is Some { Some(meta->0.chart_id@) } else { None })
    &&& r.title@ == record_title(meta, identity, folder)
    &&& ov(r.artist) == (if meta is Some {
        Some(meta->0.artist@)
    } else if identity is Some {
        Some(identity->0.artist)
    } else {
        None
    })
    &&& ov(r.charter) == (if meta is Some {
        Some(meta->0.charter@)
    } else if identity is Some {
        identity->0.creator_label
    } else {
        None
    })
    &&& r.folder_name@ == folder
    &&& r.path@ == path
    &&& r.managed == meta is Some
    &&& r.playable == (has_chart && has_audio)
    &&& r.size_bytes == size
    &&& ov(r.updated_at) == (if meta is Some { ov(meta->0.updated_at) } else { None })
    &&& ov(r.installed_at) == (if meta is Some { ov(meta->0.installed_at) } else { None })
    &&& r.updates_enabled == (meta is Some && meta->0.updates_enabled)
}

fn clone_opt(o: &Option<String>) -> (r: Option<String>)
    ensures
        ov(r) == ov(*o),
{
    match o {
        Some(s) => Some(s.clone()),
        None => None,
    }
}

/// Whether a folder of the game folder is listed as a chart: the app's own
/// `.unchartable-` items are not.
pub fn is_listed_folder(folder_name: &str) -> (r: bool)
    ensures
        r == !crate::ids::has_prefix(folder_name@, ".unchartable-"@),
{
    let v = text::chars_of(folder_name);
    let p = text::chars_of(".unchartable-");
    if p.len() > v.len() {
        return true;
    }
    let pre = text::subrange_chars(&v, 0, p.len());
    assert(pre@ == v@.take(p@.len() as int));
    !text::chars_equal(&pre, &p)
}

/// The record of one chart folder.  The chart texts are read into the
/// inspection only for folders without metadata; their identity counts when
/// it names both a title and an artist.
pub fn installed_chart(
    folder_name: String,
    path: String,
    metadata: Option<InstallMetadata>,
    inspection: LocalChartInspection,
) -> (r: InstalledChart)
    ensures
        is_record_of(
            r,
            folder_name@,
            path@,
            metadata,
            if inspection.identity@.title.len() > 0 && inspection.identity@.artist.len() > 0 {
                Some(inspection.identity@)
            } else {
                None
            },
            inspection.has_chart,
            inspection.has_audio,
            inspection.size_bytes,
        ),
        // Playable means chart data and audio; managed means metadata, and
        // only a managed chart can have updates on.
        r.playable == (inspection.has_chart && inspection.has_audio),
        r.managed == (metadata is Some),
        r.updates_enabled == (metadata is Some && metadata->0.updates_enabled),
        r.size_bytes == inspection.size_bytes,
        r.folder_name@ == folder_name@ && r.path@ == path@,
{
    let playable = inspection.playable();
    let size_bytes = inspection.size_bytes;
    let complete = inspection.identity.is_complete();
    let manual_identity = if complete {
        Some(inspection.identity)
    } else {
        None
    };
    match metadata {
        Some(m) => {
            let title = if m.title.as_str().is_empty() {
                match &manual_identity {
                    Some(i) => i.title.clone(),
                    None => folder_name.clone(),
                }
            } else {
                m.title.clone()
            };
            InstalledChart {
                chart_id: Some(m.chart_id.clone()),
                title,
                artist: Some(m.artist.clone()),
                charter: Some(m.charter.clone()),
                folder_name,
                path,
                managed: true,
                playable,
                size_bytes,
                updated_at: clone_opt(&m.updated_at),
                installed_at: clone_opt(&m.installed_at),
                updates_enabled: m.updates_enabled,
                manual_identity,
            }
        },
        None => {
            let (title, artist, charter) = match &manual_identity {
                Some(i) => (i.title.clone(), Some(i.artist.clone()), clone_opt(&i.creator_label)),
                None => (folder_name.clone(), None, None),
            };
            InstalledChart {
                chart_id: None,
                title,
                artist,
                charter,
                folder_name,
                path,
                managed: false,
                playable,
                size_bytes,
                updated_at: None,
                installed_at: None,
                updates_enabled: false,
                manual_identity,
            }
        },
    }
}

/// What `str::to_lowercase` returns for a text (the Unicode lowercase
/// mapping, with the final-sigma rule).
pub uninterp spec fn text_lowercase(s: Seq<char>) -> Seq<char>;

/// `str::to_lowercase`.
#[verifier::external_body]
fn lowercase_text(s: &str) -> (r: Vec<char>)
    ensures
        r@ == text_lowercase(s@),
{
    s.to_lowercase().chars().collect()
}

pub open spec fn title_keys(charts: Seq<InstalledChart>) -> Seq<Seq<char>> {
    charts.map_values(|c: InstalledChart| text_lowercase(c.title@))
}

/// The order in which charts are listed: by lowercase title, equal titles
/// in the order the folder listing gave them.
pub fn listing_order(charts: &Vec<InstalledChart>) -> (r: Vec<usize>)
    ensures
        order::is_stable_order(r@, title_keys(charts@), false),
{
    let mut keys: Vec<Vec<char>> = Vec::new();
    let mut i: usize = 0;
    while i < charts.len()
        invariant
            i <= charts@.len(),
            keys@.len() == i,
            forall|k: int| 0 <= k < i ==> (#[trigger] keys@[k])@ == text_lowercase(charts@[k].title@),
        decreases charts@.len() - i,
    {
        keys.push(lowercase_text(charts[i].title.as_str()));
        i = i + 1;
    }
    assert(keys@.map_values(|k: Vec<char>| k@) =~= title_keys(charts@));
    order::stable_order(&keys, false)
}

/// What the interface is told about the chosen game folder.
pub struct AppState {
    pub custom_songs_path: String,
    pub directory_exists: bool,
}

/// The refusal of an empty game-folder path.
pub fn require_target_path(path: &str) -> (r: Result<(), String>)
    ensures
        r is Ok <==> path@.len() > 0,
        r matches Err(e) ==> e@ == "choose the UNBEATABLE CustomSongs folder first."@,
{
    if path.is_empty() {
        Err(text::owned("choose the UNBEATABLE CustomSongs folder first."))
    } else {
        Ok(())
    }
}

/// The state reported for a game folder, once the app has made sure the
/// folder exists (`validation` is the outcome of that check).
pub fn app_state_for_path(custom_songs_path: String, validation: Result<(), String>) -> (r: Result<AppState, String>)
    ensures
        match validation {
            Ok(()) => r matches Ok(s) && s.directory_exists && s.custom_songs_path@ == custom_songs_path@,
            Err(e) => r matches Err(f) && f@ == e@,
        },
{
    match validation {
        Ok(()) => Ok(AppState { directory_exists: true, custom_songs_path }),
        Err(e) => Err(e),
    }
}

/// `(a + b) mod 2^64`.
pub open spec fn wrap_add(a: u64, b: u64) -> u64 {
    ((a as int + b as int) % 0x1_0000_0000_0000_0000) as u64
}

pub open spec fn count_where(charts: Seq<InstalledChart>, f: spec_fn(InstalledChart) -> bool) -> nat
    decreases charts.len(),
{
    if charts.len() == 0 {
        0
    } else {
        count_where(charts.drop_last(), f) + if f(charts.last()) { 1nat } else { 0nat }
    }
}

pub open spec fn size_total(charts: Seq<InstalledChart>) -> u64
    decreases charts.len(),
{
    if charts.len() == 0 {
        0
    } else {
        wrap_add(size_total(charts.drop_last()), charts.last().size_bytes)
    }
}

/// Counts over the listed charts, for the library diagnosis.
pub struct LibrarySummary {
    pub total_charts: usize,
    pub invalid_charts: usize,
    pub managed_charts: usize,
    pub manual_charts: usize,
    /// The sum of the folder sizes, wrapping as an unchecked `u64` sum does
    /// in a release build.
    pub total_size_bytes: u64,
}

/// Counts the charts that are not playable, managed and manual, and adds up
/// their sizes.
pub fn library_summary(charts: &Vec<InstalledChart>) -> (r: LibrarySummary)
    ensures
        r.total_charts == charts@.len(),
        r.invalid_charts == count_where(charts@, |c: InstalledChart| !c.playable),
        r.managed_charts == count_where(charts@, |c: InstalledChart| c.managed),
        r.manual_charts == count_where(charts@, |c: InstalledChart| !c.managed),
        r.total_size_bytes == size_total(charts@),
{
    let ghost not_playable = |c: InstalledChart| !c.playable;
    let ghost managed = |c: InstalledChart| c.managed;
    let ghost manual = |c: InstalledChart| !c.managed;
    let mut invalid: usize = 0;
    let mut man: usize = 0;
    let mut manu: usize = 0;
    let mut size: u64 = 0;
    let mut i: usize = 0;
    while i < charts.len()
        invariant
            i <= charts@.len(),
            invalid == count_where(charts@.take(i as int), not_playable),
            man == count_where(charts@.take(i as int), managed),
            manu == count_where(charts@.take(i as int), manual),
            invalid <= i && man <= i && manu <= i,
            size == size_total(charts@.take(i as int)),
            not_playable == (|c: InstalledChart| !c.playable),
            managed == (|c: InstalledChart| c.managed),
            manual == (|c: InstalledChart| !c.managed),
        decreases charts@.len() - i,
    {
        assert(charts@.take(i + 1).drop_last() == charts@.take(i as int));
        let c = &charts[i];
        if !c.playable {
            invalid = invalid + 1;
        }
        if c.managed {
            man = man + 1;
        } else {
            manu = manu + 1;
        }
        size = size.wrapping_add(c.size_bytes);
        i = i + 1;
    }
    assert(charts@.take(charts@.len() as int) == charts@);
    LibrarySummary {
        total_charts: charts.len(),
        invalid_charts: invalid,
        managed_charts: man,
        manual_charts: manu,
        total_size_bytes: size,
    }
}

/// The app's temporary items in the game folder are never listed as
/// charts.
pub proof fn lemma_temporary_items_are_not_charts(name: Seq<char>)
    requires
        crate::ids::is_repairable_name(name),
    ensures
        crate::ids::has_prefix(name, ".unchartable-"@),
{
    reveal_strlit(".unchartable-");
    reveal_strlit(".unchartable-import-");
    reveal_strlit(".unchartable-write-test-");
    if crate::ids::has_prefix(name, ".unchartable-import-"@) {
        assert(name.take(13) == name.take(20).take(13));
        assert(".unchartable-import-"@.take(13) =~= ".unchartable-"@);
    } else if crate::ids::has_prefix(name, ".unchartable-write-test-"@) {
        assert(name.take(13) == name.take(24).take(13));
        assert(".unchartable-write-test-"@.take(13) =~= ".unchartable-"@);
    }
}

} // verus!
