use std::path::{Component, Path};
use unchartable::catalog::{chart_query, manual_match_candidates, manual_match_query, pack_query, stored_installation_id};
use unchartable::chart::{ChartIdentity, LocalChartInspection};
use unchartable::digest::{check_announced_size, DownloadProgress};
use unchartable::library::{
    app_state_for_path, installed_chart, is_listed_folder, library_summary, listing_order,
    require_target_path, InstallMetadata, InstalledChart,
};
use unchartable::matching::matching_local_chart;
use unchartable::pack::{check_pack_chart, check_pack_request, pack_entry_name, pack_folder_name};
use unchartable::paths::{ChartPath, PathPart};
use unchartable::placement::{unique_candidates, unique_install_path};
use unchartable::records::{
    adopted_metadata, import_detail, install_operation, invalid_chart_paths, prune_plan,
    push_operation, repair_detail, replaced_version_record, set_updates_preference, trash_entry_name,
    update_targets, update_version, OperationRecord, MAX_HISTORY,
};

fn p(s: &str) -> ChartPath {
    let parts = Path::new(s)
        .components()
        .map(|component| match component {
            Component::Prefix(prefix) => {
                PathPart::Prefix(prefix.as_os_str().to_string_lossy().to_string())
            }
            Component::RootDir => PathPart::RootDir,
            Component::CurDir => PathPart::CurDir,
            Component::ParentDir => PathPart::ParentDir,
            Component::Normal(name) => PathPart::Normal(name.to_string_lossy().to_string()),
        })
        .collect();
    ChartPath::from_parts(parts)
}

fn metadata(chart_id: &str, title: &str, updates_enabled: bool) -> InstallMetadata {
    InstallMetadata {
        chart_id: chart_id.to_string(),
        title: title.to_string(),
        artist: "Artist".to_string(),
        charter: "Charter".to_string(),
        archive_sha256: "hash".to_string(),
        source: "https://unchartable.site".to_string(),
        updated_at: Some("2026-07-23T12:00:00Z".to_string()),
        installed_at: Some("2026-07-23T12:01:00Z".to_string()),
        updates_enabled,
    }
}

fn inspection(body: Option<&str>, files: &[&str]) -> LocalChartInspection {
    let mut inspection = LocalChartInspection::new();
    for file in files {
        if inspection.note_file(&p(file), Some(5), body.is_some()) {
            inspection.identity.absorb_chart_text(body.unwrap_or_default());
        }
    }
    inspection
}

fn record(name: &str, meta: Option<InstallMetadata>, body: Option<&str>, files: &[&str]) -> InstalledChart {
    installed_chart(name.to_string(), format!("/songs/{name}"), meta, inspection(body, files))
}

fn op(action: &str) -> OperationRecord {
    OperationRecord {
        action: action.to_string(),
        created_at: "t".to_string(),
        detail: String::new(),
        title: String::new(),
    }
}

#[test]
fn builds_records_without_claiming_manual_folders() {
    let managed = record(
        "Managed Song",
        Some(metadata("503c0c85-d4b6-4366-b18b-bbcc6fb44f63", "Managed Song", true)),
        None,
        &["chart.txt", "audio.ogg"],
    );
    let manual = record(
        "Manual Folder",
        None,
        Some("Title:Manual Song\nArtist:Someone\nCreator:Alice"),
        &["chart.txt", "audio.wav"],
    );
    let broken = record("Broken", None, Some("no keys"), &["chart.txt"]);
    assert!(managed.managed && managed.playable && managed.updates_enabled);
    assert_eq!(managed.size_bytes, 10);
    assert_eq!(managed.title, "Managed Song");
    assert!(!manual.managed && manual.playable && !manual.updates_enabled);
    assert_eq!(manual.title, "Manual Song");
    assert_eq!(manual.charter.as_deref(), Some("Alice"));
    assert!(manual.chart_id.is_none());
    assert_eq!(broken.title, "Broken");
    assert!(!broken.playable);
    assert!(broken.manual_identity.is_none());

    let charts = vec![manual, broken, managed];
    assert_eq!(listing_order(&charts), vec![1, 2, 0]);
    assert_eq!(invalid_chart_paths(&charts), vec!["/songs/Broken".to_string()]);
    assert_eq!(manual_match_candidates(&charts), vec![0]);
    assert_eq!(update_targets(&charts), vec![2]);
    let summary = library_summary(&charts);
    assert_eq!(
        (summary.total_charts, summary.invalid_charts, summary.managed_charts, summary.manual_charts, summary.total_size_bytes),
        (3, 1, 1, 2, 25)
    );
    assert!(is_listed_folder("Manual Song"));
    assert!(!is_listed_folder(".unchartable-trash"));
}

#[test]
fn finds_an_installed_copy_of_an_import() {
    let installed = vec![
        record("Other", None, Some("Title:Other\nArtist:Band\nCreator:Alice"), &["c.txt", "a.wav"]),
        record("Same", None, Some("Title:Same Song\nArtist:Band\nCreator:Bob"), &["c.txt", "a.wav"]),
        record("Same 2", None, Some("Title:same song!\nArtist:BAND\nCreator:Alice"), &["c.txt", "a.wav"]),
    ];
    let mut identity = ChartIdentity::new();
    identity.absorb_chart_text("Title:Same Song\nArtist:Band\nCreator:Alice");
    assert_eq!(matching_local_chart(&installed, &identity), Some(2));
    let mut anyone = ChartIdentity::new();
    anyone.absorb_chart_text("Title:Same Song\nArtist:Band");
    assert_eq!(matching_local_chart(&installed, &anyone), Some(1));
}

#[test]
fn keeps_the_newest_five_hundred_operations() {
    let mut log = Vec::new();
    for i in 0..(MAX_HISTORY + 3) {
        push_operation(&mut log, op(&format!("op{i}")));
    }
    assert_eq!(log.len(), MAX_HISTORY);
    assert_eq!(log[0].action, format!("op{}", MAX_HISTORY + 2));
    assert_eq!(log[MAX_HISTORY - 1].action, "op3");
}

#[test]
fn words_log_details() {
    assert_eq!(
        repair_detail(1, 0),
        "Removed 1 temporary items; found 0 invalid chart folders"
    );
    assert_eq!(import_detail("/a.zip"), "Imported from /a.zip");
    assert_eq!(install_operation(true).0, "update");
    assert_eq!(install_operation(false).1, "Installed from unchartable.site");
    assert_eq!(trash_entry_name("id", "Song"), "id-Song");
}

#[test]
fn prunes_all_but_the_newest_versions() {
    let ids: Vec<String> = ["a", "b", "a", "a", "a"].iter().map(|s| s.to_string()).collect();
    let created: Vec<String> = ["2026-01-01", "2026-09-09", "2026-03-01", "2026-02-01", "2026-03-01"]
        .iter()
        .map(|s| s.to_string())
        .collect();
    assert_eq!(prune_plan(&ids, &created, "a", 3), vec![0]);
    assert_eq!(prune_plan(&ids, &created, "a", 1), vec![4, 3, 0]);
    assert!(prune_plan(&ids, &created, "c", 3).is_empty());
}

#[test]
fn records_the_replaced_version() {
    let title = "New".to_string();
    let kept = replaced_version_record("b".into(), "c".into(), "t".into(), &p("/songs/Old Song"), Some("Old".into()), &title);
    assert_eq!((kept.folder_name.as_str(), kept.title.as_str()), ("Old Song", "Old"));
    let untitled = replaced_version_record("b".into(), "c".into(), "t".into(), &p("/"), Some(String::new()), &title);
    assert_eq!((untitled.folder_name.as_str(), untitled.title.as_str()), ("Restored Chart", "New"));
}

#[test]
fn offers_only_newer_direct_downloads() {
    let installed = Some("v1".to_string());
    assert_eq!(update_version(&installed, Some(true), Some("v2".into()), Some("v0".into())).as_deref(), Some("v2"));
    assert_eq!(update_version(&installed, Some(true), None, Some("v3".into())).as_deref(), Some("v3"));
    assert_eq!(update_version(&installed, Some(true), Some("v1".into()), None), None);
    assert_eq!(update_version(&installed, Some(false), Some("v2".into()), None), None);
    assert_eq!(update_version(&installed, None, Some("v2".into()), None), None);
    assert_eq!(update_version(&None, Some(true), Some(String::new()), Some("v2".into())), None);
}

#[test]
fn changes_preferences_only_for_the_selected_chart() {
    let mut meta = metadata("503c0c85-d4b6-4366-b18b-bbcc6fb44f63", "Song", false);
    assert_eq!(
        set_updates_preference(&mut meta, "other", true).err().as_deref(),
        Some("this chart metadata no longer matches the selected chart.")
    );
    assert!(!meta.updates_enabled);
    set_updates_preference(&mut meta, "503c0c85-d4b6-4366-b18b-bbcc6fb44f63", true).unwrap();
    assert!(meta.updates_enabled);
}

#[test]
fn adopts_a_manual_chart_with_catalog_details() {
    let mut identity = ChartIdentity::new();
    identity.absorb_chart_text("Title:Local\nArtist:Local Artist");
    let meta = adopted_metadata("id".into(), None, Some("Site Artist".into()), None, Some("v9".into()), &identity, "now".into());
    assert_eq!(meta.title, "Local");
    assert_eq!(meta.artist, "Site Artist");
    assert_eq!(meta.charter, "");
    assert_eq!(meta.source, "https://unchartable.site");
    assert_eq!(meta.updated_at.as_deref(), Some("v9"));
    assert!(meta.updates_enabled && meta.archive_sha256.is_empty());
}

#[test]
fn restores_under_a_free_name() {
    let names = unique_candidates("Song");
    assert_eq!(names.len(), 999);
    assert_eq!(names[1], "Song (2)");
    assert_eq!(names[998], "Song (999)");
    let present: Vec<bool> = names.iter().map(|n| n == "Song" || n == "Song (2)").collect();
    assert!(unique_install_path(&p("/songs"), "Song", &present).same_path(&p("/songs/Song (3)")));
    let all = vec![true; 999];
    let fallback = unique_install_path(&p("/songs"), "Song", &all);
    let name = fallback.file_name().unwrap();
    assert!(name.starts_with("Song-") && name.len() == 5 + 32);
}

#[test]
fn builds_catalog_queries() {
    let pairs = |v: Vec<(String, String)>| v.into_iter().map(|(k, v)| format!("{k}={v}")).collect::<Vec<_>>().join("&");
    assert_eq!(pairs(chart_query("  song ", 3, "hard", true)), "page=3&pageSize=24&sort=newest&q=song&difficulty=hard&ranked=1");
    assert_eq!(pairs(chart_query("   ", 0, "", false)), "page=0&pageSize=24&sort=newest");
    assert_eq!(pairs(pack_query(12, "x")), "page=12&pageSize=12&charts=all&q=x");
    assert_eq!(pairs(manual_match_query("T", "A")), "page=0&pageSize=100&q=T A");
}

#[test]
fn reuses_only_a_valid_installation_id() {
    assert_eq!(
        stored_installation_id(" 503c0c85-d4b6-4366-b18b-bbcc6fb44f63\n").as_deref(),
        Some("503c0c85-d4b6-4366-b18b-bbcc6fb44f63")
    );
    assert_eq!(stored_installation_id("garbage"), None);
}

#[test]
fn counts_and_hashes_a_download() {
    let mut progress = DownloadProgress::new();
    progress.accept_chunk(b"a").unwrap();
    progress.accept_chunk(b"bc").unwrap();
    assert_eq!(progress.downloaded_bytes(), 3);
    assert_eq!(
        progress.archive_sha256(),
        "ba7816bf8f01cfea414140de5dae2223b00361a396177a9cb410ff61f20015ad"
    );
    assert!(check_announced_size(Some(262_144_001)).is_err());
    assert!(check_announced_size(Some(262_144_000)).is_ok());
    assert!(check_announced_size(None).is_ok());
}

#[test]
fn refuses_downloads_over_the_limit() {
    let mut progress = DownloadProgress::new();
    let chunk = vec![0u8; 131_072_000];
    progress.accept_chunk(&chunk).unwrap();
    progress.accept_chunk(&chunk).unwrap();
    assert_eq!(
        progress.accept_chunk(b"x").err().as_deref(),
        Some("the chart archive exceeds the 250 MB download limit.")
    );
    assert_eq!(progress.downloaded_bytes(), 262_144_000);
}

#[test]
fn exports_only_zip_packs_of_game_charts() {
    assert_eq!(check_pack_request(0, &p("/x/pack.zip")).err().as_deref(), Some("select at least one installed chart."));
    assert!(check_pack_request(1, &p("/x/pack.ZIP")).is_ok());
    assert_eq!(check_pack_request(1, &p("/x/pack.7z")).err().as_deref(), Some("local packs must be exported as ZIP files."));
    assert!(check_pack_chart(&p("/songs"), &p("/songs/A"), true).is_ok());
    assert!(check_pack_chart(&p("/songs"), &p("/other/A"), true).is_err());
    assert!(check_pack_chart(&p("/songs"), &p("/songs/A"), false).is_err());
    assert_eq!(pack_folder_name(&p("/songs/A: B")), "A B");
    assert_eq!(pack_entry_name("Song", "sub\\chart.txt", false), "Song/sub/chart.txt");
    assert_eq!(pack_entry_name("Song", "sub", true), "Song/sub/");
}

#[test]
fn reports_the_game_folder() {
    let state = app_state_for_path("/songs".to_string(), Ok(())).unwrap();
    assert!(state.directory_exists);
    assert_eq!(state.custom_songs_path, "/songs");
    assert_eq!(app_state_for_path("/x".to_string(), Err("no".to_string())).err().as_deref(), Some("no"));
    assert!(require_target_path("").is_err());
    assert!(require_target_path("/songs").is_ok());
}

#[test]
fn creates_a_missing_custom_songs_directory() {
    // The app creates the folder and hands the outcome of that check over;
    // the state then reports the folder as it was given.
    let custom_songs = Path::new("/tmp/game")
        .join("D-CELL GAMES")
        .join("UNBEATABLE")
        .join("CustomSongs");

    let state = app_state_for_path(custom_songs.to_string_lossy().to_string(), Ok(()))
        .expect("app state");

    assert!(state.directory_exists);
    assert_eq!(std::path::PathBuf::from(state.custom_songs_path), custom_songs);
    assert_eq!(
        require_target_path(&custom_songs.to_string_lossy()),
        Ok(())
    );
}
