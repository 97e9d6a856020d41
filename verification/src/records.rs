//! The app's bookkeeping outside the game folder: the operation log, the
//! trash, replaced chart versions, and update preferences and checks.

use vstd::prelude::*;
use crate::chart::{self, ChartIdentity};
use crate::library::{self, InstallMetadata, InstalledChart};
use crate::order;
use crate::paths::ChartPath;
use crate::text;

verus! {

/// One entry of the operation log.
pub struct OperationRecord {
    pub action: String,
    pub created_at: String,
    pub detail: String,
    pub title: String,
}

/// The most entries the operation log keeps.
pub const MAX_HISTORY: usize = 500;

/// How many versions of a chart the app keeps among its backups.
pub const KEPT_VERSIONS: usize = 3;

/// `s` cut to its first `n` entries.
pub open spec fn keep_first<T>(s: Seq<T>, n: int) -> Seq<T> {
    if s.len() > n {
        s.take(n)
    } else {
        s
    }
}

/// Adds `record` to the front of the log, which keeps its newest 500 entries.
pub fn push_operation(records: &mut Vec<OperationRecord>, record: OperationRecord)
    ensures
        final(records)@ == keep_first(seq![record] + old(records)@, MAX_HISTORY as int),
        final(records)@.len() <= MAX_HISTORY,
        final(records)@[0] == record,
{
    records.insert(0, record);
    records.truncate(MAX_HISTORY);
    assert(records@ =~= keep_first(seq![record] + old(records)@, MAX_HISTORY as int));
}

/// The log entry's action and detail for a download that installs or, when
/// the chart was installed already, updates a chart.
pub fn install_operation(is_update: bool) -> (r: (&'static str, &'static str))
    ensures
        r.0@ == (if is_update { "update"@ } else { "install"@ }),
        r.1@ == (if is_update {
            "Installed a newer version from unchartable.site"@
        } else {
            "Installed from unchartable.site"@
        }),
{
    if is_update {
        ("update", "Installed a newer version from unchartable.site")
    } else {
        ("install", "Installed from unchartable.site")
    }
}

/// "Removed <removed> temporary items; found <invalid> invalid chart folders".
pub fn repair_detail(removed: u64, invalid: u64) -> (r: String)
    ensures
        r@ == "Removed "@ + text::decimal(removed as nat) + " temporary items; found "@ + text::decimal(
            invalid as nat,
        ) + " invalid chart folders"@,
{
    let mut v = text::chars_of("Removed ");
    text::append_chars(&mut v, &text::decimal_chars(removed));
    text::append_str(&mut v, " temporary items; found ");
    text::append_chars(&mut v, &text::decimal_chars(invalid));
    text::append_str(&mut v, " invalid chart folders");
    text::string_from(&v)
}

/// "Exported <count> installed charts".
pub fn export_detail(count: u64) -> (r: String)
    ensures
        r@ == "Exported "@ + text::decimal(count as nat) + " installed charts"@,
{
    let mut v = text::chars_of("Exported ");
    text::append_chars(&mut v, &text::decimal_chars(count));
    text::append_str(&mut v, " installed charts");
    text::string_from(&v)
}

/// "Imported from <archive path>".
pub fn import_detail(archive_path: &str) -> (r: String)
    ensures
        r@ == "Imported from "@ + archive_path@,
{
    let mut v = text::chars_of("Imported from ");
    text::append_str(&mut v, archive_path);
    text::string_from(&v)
}

/// The paths of the charts that are not playable, in order.
pub open spec fn unplayable_paths(charts: Seq<InstalledChart>) -> Seq<Seq<char>>
    decreases charts.len(),
{
    if charts.len() == 0 {
        seq![]
    } else if !charts.last().playable {
        unplayable_paths(charts.drop_last()).push(charts.last().path@)
    } else {
        unplayable_paths(charts.drop_last())
    }
}

/// The paths of the chart folders that are not playable, in listing order.
pub fn invalid_chart_paths(charts: &Vec<InstalledChart>) -> (r: Vec<String>)
    ensures
        r@.map_values(|s: String| s@) == unplayable_paths(charts@),
{
    let mut out: Vec<String> = Vec::new();
    let mut i: usize = 0;
    while i < charts.len()
        invariant
            i <= charts@.len(),
            out@.map_values(|s: String| s@) == unplayable_paths(charts@.take(i as int)),
        decreases charts@.len() - i,
    {
        let ghost before = out@;
        assert(charts@.take(i + 1).drop_last() == charts@.take(i as int));
        if !charts[i].playable {
            out.push(charts[i].path.clone());
            assert(out@.map_values(|s: String| s@) =~= before.map_values(|s: String| s@).push(charts@[i as int].path@));
        }
        i = i + 1;
    }
    assert(charts@.take(charts@.len() as int) == charts@);
    out
}

/// What the app writes beside a chart moved to the trash.
pub struct TrashMetadata {
    pub trash_id: String,
    pub original_folder_name: String,
    pub deleted_at: String,
}

/// A chart in the trash, as listed.
pub struct TrashItem {
    pub trash_id: String,
    pub chart_id: Option<String>,
    pub title: String,
    pub original_folder_name: String,
    pub deleted_at: String,
    pub size_bytes: u64,
}

/// The folder name of a chart in the trash: `<trash id>-<original name>`.
pub fn trash_entry_name(trash_id: &str, original_folder_name: &str) -> (r: String)
    ensures
        r@ == trash_id@ + "-"@ + original_folder_name@,
{
    let mut v = text::chars_of(trash_id);
    text::append_str(&mut v, "-");
    text::append_str(&mut v, original_folder_name);
    text::string_from(&v)
}

/// The listing of a trashed chart: ids and title from its install metadata
/// when it has any, else titled by its original folder name.
pub fn trash_item(meta: TrashMetadata, install: Option<InstallMetadata>, size_bytes: u64) -> (r: TrashItem)
    ensures
        r.trash_id@ == meta.trash_id@,
        library::ov(r.chart_id) == (if install is Some { Some(install->0.chart_id@) } else { None }),
        r.title@ == (if install is Some { install->0.title@ } else { meta.original_folder_name@ }),
        r.original_folder_name@ == meta.original_folder_name@,
        r.deleted_at@ == meta.deleted_at@,
        r.size_bytes == size_bytes,
{
    let (chart_id, title) = match install {
        Some(m) => (Some(m.chart_id), m.title),
        None => (None, meta.original_folder_name.clone()),
    };
    TrashItem {
        trash_id: meta.trash_id,
        chart_id,
        title,
        original_folder_name: meta.original_folder_name,
        deleted_at: meta.deleted_at,
        size_bytes,
    }
}

/// The order in which trashed charts are listed: most recently deleted
/// first, equal times in the order found.
pub fn trash_listing_order(items: &Vec<TrashItem>) -> (r: Vec<usize>)
    ensures
        order::is_stable_order(r@, items@.map_values(|t: TrashItem| t.deleted_at@), true),
{
    let mut keys: Vec<Vec<char>> = Vec::new();
    let mut i: usize = 0;
    while i < items.len()
        invariant
            i <= items@.len(),
            keys@.len() == i,
            forall|k: int| 0 <= k < i ==> (#[trigger] keys@[k])@ == items@[k].deleted_at@,
        decreases items@.len() - i,
    {
        keys.push(text::chars_of(items[i].deleted_at.as_str()));
        i = i + 1;
    }
    assert(keys@.map_values(|k: Vec<char>| k@) =~= items@.map_values(|t: TrashItem| t.deleted_at@));
    order::stable_order(&keys, true)
}

/// What the app writes beside a replaced chart version.
pub struct BackupMetadata {
    pub backup_id: String,
    pub chart_id: String,
    pub created_at: String,
    pub folder_name: String,
    pub title: String,
}

/// A replaced chart version, as listed.
pub struct BackupItem {
    pub backup_id: String,
    pub chart_id: String,
    pub created_at: String,
    pub folder_name: String,
    pub size_bytes: u64,
    pub title: String,
}

pub fn backup_item(meta: BackupMetadata, size_bytes: u64) -> (r: BackupItem)
    ensures
        r.backup_id@ == meta.backup_id@,
        r.chart_id@ == meta.chart_id@,
        r.created_at@ == meta.created_at@,
        r.folder_name@ == meta.folder_name@,
        r.size_bytes == size_bytes,
        r.title@ == meta.title@,
{
    BackupItem {
        backup_id: meta.backup_id,
        chart_id: meta.chart_id,
        created_at: meta.created_at,
        folder_name: meta.folder_name,
        size_bytes,
        title: meta.title,
    }
}

/// The order in which chart versions are listed: newest first, equal times
/// in the order found.
pub fn backup_listing_order(items: &Vec<BackupItem>) -> (r: Vec<usize>)
    ensures
        order::is_stable_order(r@, items@.map_values(|b: BackupItem| b.created_at@), true),
{
    let mut keys: Vec<Vec<char>> = Vec::new();
    let mut i: usize = 0;
    while i < items.len()
        invariant
            i <= items@.len(),
            keys@.len() == i,
            forall|k: int| 0 <= k < i ==> (#[trigger] keys@[k])@ == items@[k].created_at@,
        decreases items@.len() - i,
    {
        keys.push(text::chars_of(items[i].created_at.as_str()));
        i = i + 1;
    }
    assert(keys@.map_values(|k: Vec<char>| k@) =~= items@.map_values(|b: BackupItem| b.created_at@));
    order::stable_order(&keys, true)
}

/// The title recorded for a replaced version: its own title when it had a
/// non-empty one, else `fallback`.
pub open spec fn kept_title(previous: Option<Seq<char>>, fallback: Seq<char>) -> Seq<char> {
    if previous matches Some(t) && t.len() > 0 {
        previous->0
    } else {
        fallback
    }
}

fn choose_title(previous: Option<String>, fallback: &String) -> (r: String)
    ensures
        r@ == kept_title(library::ov(previous), fallback@),
{
    match previous {
        Some(t) => if t.as_str().is_empty() {
            fallback.clone()
        } else {
            t
        },
        None => fallback.clone(),
    }
}

/// The record of the chart version an install has just replaced: the folder
/// it occupied (or "Restored Chart"), and its own title when it had one.
pub fn replaced_version_record(
    backup_id: String,
    chart_id: String,
    created_at: String,
    destination: &ChartPath,
    previous_title: Option<String>,
    installed_title: &String,
) -> (r: BackupMetadata)
    ensures
        r.backup_id@ == backup_id@,
        r.chart_id@ == chart_id@,
        r.created_at@ == created_at@,
        r.folder_name@ == (match crate::paths::file_name_of(destination@) {
            Some(n) => n,
            None => "Restored Chart"@,
        }),
        r.title@ == kept_title(library::ov(previous_title), installed_title@),
{
    let folder_name = match destination.file_name() {
        Some(n) => n,
        None => text::owned("Restored Chart"),
    };
    BackupMetadata {
        backup_id,
        chart_id,
        created_at,
        folder_name,
        title: choose_title(previous_title, installed_title),
    }
}

/// The record of the current version that a restore sets aside: the
/// restored version's chart and folder, and the current title when it had
/// one.
pub fn set_aside_record(
    backup_id: String,
    created_at: String,
    restored: &BackupMetadata,
    current_title: Option<String>,
) -> (r: BackupMetadata)
    ensures
        r.backup_id@ == backup_id@,
        r.chart_id@ == restored.chart_id@,
        r.created_at@ == created_at@,
        r.folder_name@ == restored.folder_name@,
        r.title@ == kept_title(library::ov(current_title), restored.title@),
{
    BackupMetadata {
        backup_id,
        chart_id: restored.chart_id.clone(),
        created_at,
        folder_name: restored.folder_name.clone(),
        title: choose_title(current_title, &restored.title),
    }
}

/// The indices of `chart_ids` equal to `chart_id`, in order.
pub open spec fn indices_for(chart_ids: Seq<Seq<char>>, chart_id: Seq<char>) -> Seq<usize>
    decreases chart_ids.len(),
{
    if chart_ids.len() == 0 {
        seq![]
    } else if chart_ids.last() == chart_id {
        indices_for(chart_ids.drop_last(), chart_id).push((chart_ids.len() - 1) as usize)
    } else {
        indices_for(chart_ids.drop_last(), chart_id)
    }
}

/// Which saved versions of a chart to delete so that only the newest `keep`
/// remain: its versions ordered newest first (equal times in the order
/// found), all but the first `keep`.  `chart_ids[i]` and `created[i]`
/// describe version `i`.
pub fn prune_plan(chart_ids: &Vec<String>, created: &Vec<String>, chart_id: &str, keep: usize) -> (r: Vec<usize>)
    requires
        chart_ids@.len() == created@.len(),
    ensures
        ({
            let m = indices_for(chart_ids@.map_values(|s: String| s@), chart_id@);
            exists|o: Seq<usize>|
                order::is_stable_order(o, m.map_values(|j: usize| created@[j as int]@), true) && r@
                    == (if o.len() > keep { o.skip(keep as int) } else { seq![] }).map_values(
                    |k: usize| m[k as int],
                )
        }),
{
    let ghost ids = chart_ids@.map_values(|s: String| s@);
    let want = text::owned(chart_id);
    let mut m: Vec<usize> = Vec::new();
    let mut keys: Vec<Vec<char>> = Vec::new();
    let mut i: usize = 0;
    while i < chart_ids.len()
        invariant
            i <= chart_ids@.len() == created@.len(),
            want@ == chart_id@,
            ids == chart_ids@.map_values(|s: String| s@),
            m@ == indices_for(ids.take(i as int), chart_id@),
            keys@.len() == m@.len(),
            forall|k: int| 0 <= k < m@.len() ==> m@[k] < i,
            forall|k: int| 0 <= k < keys@.len() ==> (#[trigger] keys@[k])@ == created@[m@[k] as int]@,
        decreases chart_ids@.len() - i,
    {
        assert(ids.take(i + 1).drop_last() == ids.take(i as int));
        assert(ids.take(i + 1).last() == chart_ids@[i as int]@);
        if chart_ids[i].eq(&want) {
            m.push(i);
            keys.push(text::chars_of(created[i].as_str()));
        }
        i = i + 1;
    }
    assert(ids.take(chart_ids@.len() as int) == ids);
    let ghost mv = m@;
    assert(keys@.map_values(|k: Vec<char>| k@) =~= mv.map_values(|j: usize| created@[j as int]@));
    let o = order::stable_order(&keys, true);
    let mut out: Vec<usize> = Vec::new();
    if o.len() <= keep {
        assert(out@ =~= Seq::<usize>::empty().map_values(|x: usize| mv[x as int]));
        assert(order::is_stable_order(o@, mv.map_values(|j: usize| created@[j as int]@), true));
        return out;
    }
    let mut k: usize = keep;
    while k < o.len()
        invariant
            keep <= k <= o@.len(),
            o@.len() == m@.len(),
            mv == m@,
            forall|x: int| 0 <= x < o@.len() ==> o@[x] < m@.len(),
            out@ == o@.subrange(keep as int, k as int).map_values(|x: usize| mv[x as int]),
        decreases o@.len() - k,
    {
        out.push(m[o[k]]);
        k = k + 1;
        assert(out@ =~= o@.subrange(keep as int, k as int).map_values(|x: usize| mv[x as int]));
    }
    assert(o@.subrange(keep as int, o@.len() as int) == o@.skip(keep as int));
    assert(order::is_stable_order(o@, mv.map_values(|j: usize| created@[j as int]@), true));
    out
}

/// Whether an installed chart is checked for updates: the app manages it,
/// updates are on, and it has a chart id.
pub open spec fn is_update_target(c: InstalledChart) -> bool {
    c.managed && c.updates_enabled && c.chart_id is Some
}

/// The installed charts to check for updates, in listing order.
pub fn update_targets(charts: &Vec<InstalledChart>) -> (r: Vec<usize>)
    ensures
        forall|k: int| 0 <= k < r@.len() ==> (#[trigger] r@[k]) < charts@.len() && is_update_target(charts@[r@[k] as int]),
        forall|i: int| 0 <= i < charts@.len() && is_update_target(#[trigger] charts@[i]) ==> r@.contains(i as usize),
        forall|a: int, b: int| 0 <= a < b < r@.len() ==> r@[a] < r@[b],
        // Only managed charts with updates turned on and a chart id are checked.
        forall|k: int|
            0 <= k < r@.len() ==> (#[trigger] charts@[r@[k] as int]).managed && charts@[r@[k] as int].updates_enabled
                && charts@[r@[k] as int].chart_id is Some,
{
    let mut out: Vec<usize> = Vec::new();
    let mut i: usize = 0;
    while i < charts.len()
        invariant
            i <= charts@.len(),
            forall|k: int| 0 <= k < out@.len() ==> (#[trigger] out@[k]) < i && is_update_target(charts@[out@[k] as int]),
            forall|x: int| 0 <= x < i && is_update_target(#[trigger] charts@[x]) ==> out@.contains(x as usize),
            forall|a: int, b: int| 0 <= a < b < out@.len() ==> out@[a] < out@[b],
        decreases charts@.len() - i,
    {
        let c = &charts[i];
        if c.managed && c.updates_enabled && c.chart_id.is_some() {
            let ghost before = out@;
            out.push(i);
            assert(out@[before.len() as int] == i);
            assert forall|k: int| 0 <= k < before.len() implies out@[k] == before[k] by {}
            assert forall|x: int| 0 <= x < i + 1 && is_update_target(#[trigger] charts@[x]) implies out@.contains(x as usize) by {
                if x < i {
                    let k = choose|k: int| 0 <= k < before.len() && before[k] == x as usize;
                    assert(out@[k] == x as usize);
                } else {
                    assert(out@[before.len() as int] == i);
                }
            }
        }
        i = i + 1;
    }
    out
}

/// The version a catalog entry offers when it is an update for the
/// installed chart: the entry must offer a direct download, and its version
/// (`contentUpdatedAt`, else `updatedAt`) must be set and differ from the
/// installed one.
pub open spec fn offered_update(
    installed: Option<Seq<char>>,
    has_direct_download: Option<bool>,
    content_updated_at: Option<Seq<char>>,
    updated_at: Option<Seq<char>>,
) -> Option<Seq<char>> {
    let latest = match content_updated_at {
        Some(v) => v,
        None => match updated_at {
            Some(v) => v,
            None => seq![],
        },
    };
    if !(has_direct_download == Some(true)) || latest.len() == 0 || installed == Some(latest) {
        None
    } else {
        Some(latest)
    }
}

/// The newer version a catalog entry offers for an installed chart, if any.
pub fn update_version(
    installed: &Option<String>,
    has_direct_download: Option<bool>,
    content_updated_at: Option<String>,
    updated_at: Option<String>,
) -> (r: Option<String>)
    ensures
        library::ov(r) == offered_update(
            library::ov(*installed),
            has_direct_download,
            library::ov(content_updated_at),
            library::ov(updated_at),
        ),
{
    if !(has_direct_download == Some(true)) {
        return None;
    }
    let latest = match content_updated_at {
        Some(v) => v,
        None => match updated_at {
            Some(v) => v,
            None => String::new(),
        },
    };
    if latest.as_str().is_empty() {
        return None;
    }
    match installed {
        Some(v) => if v.eq(&latest) {
            return None;
        },
        None => {},
    }
    Some(latest)
}

/// Where the app installs charts from.
pub open spec fn api_origin() -> Seq<char> {
    "https://unchartable.site"@
}

/// The metadata of an adopted chart: the catalog entry's title, artist and
/// charter (falling back to the chart's own title and artist, and an empty
/// charter), no archive hash, the site as source, the entry's version, the
/// adoption time, updates on.
pub open spec fn is_adopted_metadata(
    r: InstallMetadata,
    chart_id: Seq<char>,
    site_title: Option<Seq<char>>,
    site_artist: Option<Seq<char>>,
    site_charter: Option<Seq<char>>,
    version: Option<Seq<char>>,
    identity: chart::IdentityView,
    installed_at: Seq<char>,
) -> bool {
    &&& r.chart_id@ == chart_id
    &&& r.title@ == (match site_title {
        Some(t) => t,
        None => identity.title,
    })
    &&& r.artist@ == (match site_artist {
        Some(a) => a,
        None => identity.artist,
    })
    &&& r.charter@ == (match site_charter {
        Some(c) => c,
        None => seq![],
    })
    &&& r.archive_sha256@.len() == 0
    &&& r.source@ == api_origin()
    &&& library::ov(r.updated_at) == version
    &&& library::ov(r.installed_at) == Some(installed_at)
    &&& r.updates_enabled
}

/// The metadata written when a manual chart is adopted as the catalog entry
/// `chart_id`: the entry's title, artist and charter (falling back to the
/// chart's own title and artist, and an empty charter), no archive hash,
/// the site as source, the entry's version, the adoption time, updates on.
pub fn adopted_metadata(
    chart_id: String,
    site_title: Option<String>,
    site_artist: Option<String>,
    site_charter: Option<String>,
    version: Option<String>,
    identity: &ChartIdentity,
    installed_at: String,
) -> (r: InstallMetadata)
    ensures
        is_adopted_metadata(
            r,
            chart_id@,
            library::ov(site_title),
            library::ov(site_artist),
            library::ov(site_charter),
            library::ov(version),
            identity@,
            installed_at@,
        ),
{
    InstallMetadata {
        chart_id,
        title: match site_title {
            Some(t) => t,
            None => identity.title.clone(),
        },
        artist: match site_artist {
            Some(a) => a,
            None => identity.artist.clone(),
        },
        charter: match site_charter {
            Some(c) => c,
            None => String::new(),
        },
        archive_sha256: String::new(),
        source: text::owned("https://unchartable.site"),
        updated_at: version,
        installed_at: Some(installed_at),
        updates_enabled: true,
    }
}

/// The metadata of a chart installed from a download.
pub fn downloaded_metadata(
    chart_id: String,
    title: String,
    artist: String,
    charter: String,
    archive_sha256: String,
    updated_at: String,
    installed_at: String,
) -> (r: InstallMetadata)
    ensures
        r.chart_id@ == chart_id@,
        r.title@ == title@,
        r.artist@ == artist@,
        r.charter@ == charter@,
        r.archive_sha256@ == archive_sha256@,
        r.source@ == api_origin(),
        library::ov(r.updated_at) == Some(updated_at@),
        library::ov(r.installed_at) == Some(installed_at@),
        r.updates_enabled,
{
    InstallMetadata {
        chart_id,
        title,
        artist,
        charter,
        archive_sha256,
        source: text::owned("https://unchartable.site"),
        updated_at: Some(updated_at),
        installed_at: Some(installed_at),
        updates_enabled: true,
    }
}

pub open spec fn metadata_mismatch_message() -> Seq<char> {
    "this chart metadata no longer matches the selected chart."@
}

/// Turns updates on or off for the chart `chart_id`, refusing metadata of
/// another chart.  Other fields are unchanged.
pub fn set_updates_preference(meta: &mut InstallMetadata, chart_id: &str, enabled: bool) -> (r: Result<(), String>)
    ensures
        r is Ok <==> old(meta).chart_id@ == chart_id@,
        r matches Err(e) ==> e@ == metadata_mismatch_message() && *final(meta) == *old(meta),
        r is Ok ==> *final(meta) == (InstallMetadata { updates_enabled: enabled, ..*old(meta) }),
{
    if !text::chars_are(&text::chars_of(meta.chart_id.as_str()), chart_id) {
        return Err(text::owned("this chart metadata no longer matches the selected chart."));
    }
    meta.updates_enabled = enabled;
    Ok(())
}

/// Turns updates on or off for a managed chart; says whether the metadata
/// changed and must be written back.
pub fn apply_bulk_preference(meta: &mut InstallMetadata, enabled: bool) -> (changed: bool)
    ensures
        changed == (old(meta).updates_enabled != enabled),
        *final(meta) == (InstallMetadata { updates_enabled: enabled, ..*old(meta) }),
{
    let changed = meta.updates_enabled != enabled;
    meta.updates_enabled = enabled;
    changed
}

/// Sets the update preference of every managed chart found in the game
/// folder.  Gives how many managed charts there are, their metadata with the
/// preference set, and for each whether it changed (only those are written
/// back).
pub fn apply_bulk_preferences(metas: Vec<InstallMetadata>, enabled: bool) -> (r: (
    usize,
    Vec<InstallMetadata>,
    Vec<bool>,
))
    ensures
        r.0 == metas@.len(),
        r.1@.len() == metas@.len(),
        r.2@.len() == metas@.len(),
        forall|i: int|
            0 <= i < metas@.len() ==> #[trigger] r.1@[i] == (InstallMetadata {
                updates_enabled: enabled,
                ..metas@[i]
            }) && r.2@[i] == (metas@[i].updates_enabled != enabled),
{
    let ghost orig = metas@;
    let total = metas.len();
    let mut rest = metas;
    let mut out: Vec<InstallMetadata> = Vec::new();
    let mut changed: Vec<bool> = Vec::new();
    while rest.len() > 0
        invariant
            out@.len() + rest@.len() == orig.len(),
            changed@.len() == out@.len(),
            total == orig.len(),
            rest@ == orig.skip(out@.len() as int),
            forall|i: int|
                0 <= i < out@.len() ==> #[trigger] out@[i] == (InstallMetadata {
                    updates_enabled: enabled,
                    ..orig[i]
                }) && changed@[i] == (orig[i].updates_enabled != enabled),
        decreases rest@.len(),
    {
        let ghost k = out@.len() as int;
        let mut m = rest.remove(0);
        assert(m == orig[k]);
        let c = apply_bulk_preference(&mut m, enabled);
        out.push(m);
        changed.push(c);
        assert(rest@ =~= orig.skip(out@.len() as int));
    }
    (total, out, changed)
}

/// A chart is checked for updates exactly when the app manages it, its
/// updates are turned on, and it has a chart id: never one whose updates
/// the user turned off, nor a manual chart.
pub proof fn lemma_update_targets_are_enabled_managed_charts(c: InstalledChart)
    ensures
        is_update_target(c) <==> (c.managed && c.updates_enabled && c.chart_id is Some),
        !c.updates_enabled ==> !is_update_target(c),
        !c.managed ==> !is_update_target(c),
{
}

} // verus!
