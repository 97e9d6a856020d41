use std::path::{Component, Path};
use unchartable::archive::ArchiveFormat;
use unchartable::catalog::{chart_api_url, download_ticket_url, pack_api_url};
use unchartable::paths::{ChartPath, PathPart};
use unchartable::placement::{new_install_candidates, unique_candidates};
use unchartable::install::{install_step, InstallAction, InstallEvent, InstallPhase, InstallState};
use unchartable::library::InstallMetadata;
use unchartable::adopt::{adopt_step, AdoptAction, AdoptEvent, AdoptPhase, AdoptState, CatalogChart};
use unchartable::chart::ChartIdentity;
use unchartable::matching::SiteChart;
use unchartable::placement::unique_install_path;
use unchartable::records::{apply_bulk_preferences, trash_entry_name, BackupMetadata, KEPT_VERSIONS};
use unchartable::replace::{replace_step, ReplaceAction, ReplaceEvent, ReplaceState};
use unchartable::rollback::{rollback_step, RollbackAction, RollbackEvent, RollbackState};

const CHART_ID: &str = "503c0c85-d4b6-4366-b18b-bbcc6fb44f63";

fn p(s: &str) -> ChartPath {
    let parts = Path::new(s)
        .components()
        .map(|component| match component {
            Component::Prefix(prefix) => {
                PathPart::Prefix(prefix.as_os_str().to_string_lossy().to_string())
            }
            Component::RootDir => PathPart::RootDir,
            Component::CurDir => PathPart::CurDir,
            Component::ParentDir => PathPart::ParentDir,
            Component::Normal(name) => PathPart::Normal(name.to_string_lossy().to_string()),
        })
        .collect();
    ChartPath::from_parts(parts)
}

const TARGET: &str = "/games/CustomSongs";

fn replace_run(events: Vec<ReplaceEvent>) -> Vec<ReplaceAction> {
    let mut state = ReplaceState::new();
    let mut actions = vec![state.action()];
    for event in events {
        let (next, action) = replace_step(state, event);
        state = next;
        actions.push(action);
    }
    actions
}

#[test]
fn moves_a_new_chart_into_a_free_destination() {
    let actions = replace_run(vec![
        ReplaceEvent::MetadataWritten(Ok(())),
        ReplaceEvent::DestinationExists(false),
        ReplaceEvent::Moved(Ok(())),
        ReplaceEvent::StagingRemoved,
    ]);
    assert!(matches!(actions[0], ReplaceAction::WriteMetadata));
    assert!(matches!(actions[1], ReplaceAction::CheckDestination));
    assert!(matches!(actions[2], ReplaceAction::MoveNew));
    assert!(matches!(actions[3], ReplaceAction::RemoveStaging));
    assert!(matches!(actions[4], ReplaceAction::Finish(Ok(()))));
}

#[test]
fn keeps_the_replaced_chart_as_a_backup() {
    let actions = replace_run(vec![
        ReplaceEvent::MetadataWritten(Ok(())),
        ReplaceEvent::DestinationExists(true),
        ReplaceEvent::SetAside(Ok(())),
        ReplaceEvent::Moved(Ok(())),
        ReplaceEvent::StagingRemoved,
        ReplaceEvent::Archived(Ok(())),
    ]);
    assert!(matches!(actions[2], ReplaceAction::SetAsideOld));
    assert!(matches!(actions[3], ReplaceAction::MoveNew));
    assert!(matches!(actions[5], ReplaceAction::ArchiveBackup));
    assert!(matches!(actions[6], ReplaceAction::Finish(Ok(()))));
}

#[test]
fn puts_the_working_chart_back_when_the_move_fails() {
    let actions = replace_run(vec![
        ReplaceEvent::MetadataWritten(Ok(())),
        ReplaceEvent::DestinationExists(true),
        ReplaceEvent::SetAside(Ok(())),
        ReplaceEvent::Moved(Err("could not move".to_string())),
        ReplaceEvent::Restored,
    ]);
    assert!(matches!(actions[4], ReplaceAction::RestoreOld));
    match &actions[5] {
        ReplaceAction::Finish(Err(message)) => assert_eq!(message, "could not move"),
        _ => panic!("the failed move is reported"),
    }
}

#[test]
fn touches_nothing_when_the_metadata_cannot_be_written() {
    let actions = replace_run(vec![
        ReplaceEvent::MetadataWritten(Err("no metadata".to_string())),
        ReplaceEvent::DestinationExists(true),
    ]);
    match &actions[1] {
        ReplaceAction::Finish(Err(message)) => assert_eq!(message, "no metadata"),
        _ => panic!("the failure is reported"),
    }
    assert!(matches!(&actions[2], ReplaceAction::Finish(Err(_))));
}

#[test]
fn ignores_an_event_that_answers_nothing_pending() {
    let actions = replace_run(vec![ReplaceEvent::Moved(Ok(()))]);
    assert!(matches!(actions[1], ReplaceAction::WriteMetadata));
}

fn install_run(chart_id: &str, events: Vec<InstallEvent>) -> (InstallState, Vec<InstallAction>) {
    let mut state = InstallState::new(
        p(TARGET),
        chart_id.to_string(),
        "Same Song".to_string(),
        "alice".to_string(),
    );
    let mut actions = vec![state.action()];
    for event in events {
        let (next, action) = install_step(state, event);
        state = next;
        actions.push(action);
    }
    (state, actions)
}

#[test]
fn installs_after_every_check_passes() {
    let (state, actions) = install_run(
        CHART_ID,
        vec![
            InstallEvent::Ticket("https://files.example.net/chart.zip".to_string()),
            InstallEvent::Response(Some(3)),
            InstallEvent::FileCreated,
            InstallEvent::Chunk(b"ab".to_vec()),
            InstallEvent::Written,
            InstallEvent::Chunk(b"c".to_vec()),
            InstallEvent::Written,
            InstallEvent::StreamEnded,
            InstallEvent::Flushed,
            InstallEvent::Existing(None),
            InstallEvent::Head(b"PK\x03\x04rest".to_vec()),
            InstallEvent::Extracted(true, true, p("/games/CustomSongs/.staging/Creator Folder"), vec![false]),
            InstallEvent::Finalized,
        ],
    );
    match &actions[0] {
        InstallAction::RequestTicket(url) => assert_eq!(
            url,
            "https://unchartable.site/api/charts/503c0c85-d4b6-4366-b18b-bbcc6fb44f63/download?format=json&source=app"
        ),
        _ => panic!("the ticket comes first"),
    }
    match &actions[1] {
        InstallAction::Download(link) => {
            assert_eq!(link.text, "https://files.example.net/chart.zip")
        }
        _ => panic!("the download follows the ticket"),
    }
    match &actions[2] {
        InstallAction::CreateFile(name) => {
            assert!(name.starts_with(".unchartable-") && name.ends_with(".archive"))
        }
        _ => panic!("the archive file comes next"),
    }
    assert!(matches!(actions[3], InstallAction::ReadChunk));
    assert!(matches!(actions[4], InstallAction::WriteChunk(2)));
    assert!(matches!(actions[6], InstallAction::WriteChunk(3)));
    assert!(matches!(actions[8], InstallAction::Flush));
    assert!(matches!(actions[9], InstallAction::FindExisting(ref id) if id == CHART_ID));
    assert!(matches!(actions[10], InstallAction::ReadHead(_)));
    assert!(matches!(actions[11], InstallAction::Extract(ArchiveFormat::Zip, _, _)));
    match &actions[12] {
        InstallAction::Finalize(digest, size, destination, is_update) => {
            assert_eq!(
                digest,
                "ba7816bf8f01cfea414140de5dae2223b00361a396177a9cb410ff61f20015ad"
            );
            assert_eq!(*size, 3);
            assert!(destination.same_path(&p("/games/CustomSongs/Creator Folder")));
            assert!(!is_update);
        }
        _ => panic!("the chart is moved in last"),
    }
    assert!(matches!(actions[13], InstallAction::Done(Ok(()))));
    assert!(state.finalized);
}

#[test]
fn refuses_an_invalid_chart_id_before_any_request() {
    let (state, actions) = install_run("not-an-id", vec![]);
    assert_eq!(state.phase, InstallPhase::Done);
    match &actions[0] {
        InstallAction::Done(Err(message)) => assert_eq!(message, "invalid chart id"),
        _ => panic!("nothing is requested"),
    }
}

#[test]
fn stops_before_the_download_on_an_insecure_link() {
    let (_, actions) = install_run(
        CHART_ID,
        vec![InstallEvent::Ticket("http://files.example.net/chart.zip".to_string())],
    );
    match &actions[1] {
        InstallAction::Done(Err(message)) => {
            assert_eq!(message, "the chart download did not use HTTPS.")
        }
        _ => panic!("an insecure link ends the install"),
    }
}

#[test]
fn stops_before_the_download_on_an_announced_size_over_the_limit() {
    let (_, actions) = install_run(
        CHART_ID,
        vec![
            InstallEvent::Ticket("https://files.example.net/chart.zip".to_string()),
            InstallEvent::Response(Some(262_144_001)),
        ],
    );
    match &actions[2] {
        InstallAction::Done(Err(message)) => {
            assert_eq!(message, "the chart archive exceeds the 250 MB download limit.")
        }
        _ => panic!("an oversized download is refused"),
    }
}

fn downloading(events: Vec<InstallEvent>) -> Vec<InstallAction> {
    let mut all = vec![
        InstallEvent::Ticket("https://files.example.net/chart.zip".to_string()),
        InstallEvent::Response(None),
        InstallEvent::FileCreated,
    ];
    all.extend(events);
    install_run(CHART_ID, all).1
}

#[test]
fn removes_the_temporary_files_when_cancelled() {
    let actions = downloading(vec![InstallEvent::Cancelled, InstallEvent::CleanedUp]);
    match &actions[4] {
        InstallAction::Cleanup(archive, staging) => {
            assert_eq!(format!("{staging}.archive"), *archive);
        }
        _ => panic!("both temporary items are removed"),
    }
    match &actions[5] {
        InstallAction::Done(Err(message)) => assert_eq!(message, "installation cancelled."),
        _ => panic!("the cancellation is reported"),
    }
}

#[test]
fn removes_the_temporary_files_when_a_check_fails() {
    let actions = downloading(vec![
        InstallEvent::Chunk(b"rar?".to_vec()),
        InstallEvent::Written,
        InstallEvent::StreamEnded,
        InstallEvent::Flushed,
        InstallEvent::Existing(None),
        InstallEvent::Head(b"RIFF".to_vec()),
        InstallEvent::CleanedUp,
    ]);
    assert!(matches!(actions[9], InstallAction::Cleanup(_, _)));
    match &actions[10] {
        InstallAction::Done(Err(message)) => assert_eq!(
            message,
            "unsupported archive. Use a ZIP, 7Z, or RAR chart archive."
        ),
        _ => panic!("the unknown signature is reported"),
    }

    let actions = downloading(vec![
        InstallEvent::StreamEnded,
        InstallEvent::Flushed,
        InstallEvent::Existing(None),
        InstallEvent::Head(b"7z\xBC\xAF\x27\x1C\0\0".to_vec()),
        InstallEvent::Extracted(true, false, p("/games/CustomSongs/.staging"), Vec::new()),
        InstallEvent::CleanedUp,
    ]);
    assert!(matches!(actions[7], InstallAction::Extract(ArchiveFormat::SevenZip, _, _)));
    assert!(matches!(actions[8], InstallAction::Cleanup(_, _)));
    match &actions[9] {
        InstallAction::Done(Err(message)) => assert_eq!(
            message,
            "the archive contains chart data but no supported audio file."
        ),
        _ => panic!("the missing audio is reported"),
    }

    let actions = downloading(vec![
        InstallEvent::Failed("chart download was interrupted: reset".to_string()),
        InstallEvent::CleanedUp,
    ]);
    assert!(matches!(actions[4], InstallAction::Cleanup(_, _)));
    assert!(matches!(&actions[5], InstallAction::Done(Err(m)) if m == "chart download was interrupted: reset"));
}

#[test]
fn refuses_a_download_that_grows_past_the_limit() {
    let actions = downloading(vec![
        InstallEvent::Chunk(vec![0u8; 262_144_001]),
        InstallEvent::CleanedUp,
    ]);
    assert!(matches!(actions[4], InstallAction::Cleanup(_, _)));
    match &actions[5] {
        InstallAction::Done(Err(message)) => {
            assert_eq!(message, "the chart archive exceeds the 250 MB download limit.")
        }
        _ => panic!("the oversized download is reported"),
    }
}

fn backup(backup_id: &str) -> BackupMetadata {
    BackupMetadata {
        backup_id: backup_id.to_string(),
        chart_id: CHART_ID.to_string(),
        created_at: "2026-01-01T00:00:00Z".to_string(),
        folder_name: "Song".to_string(),
        title: "Song".to_string(),
    }
}

const BACKUP_ID: &str = "a1b2c3d4-e5f6-4789-8abc-def012345678";

#[test]
fn keeps_the_installed_version_before_restoring_another() {
    let mut state = RollbackState::new(p(TARGET), BACKUP_ID.to_string());
    assert!(matches!(state.action(), RollbackAction::Locate(ref id) if id == BACKUP_ID));
    let steps = [
        RollbackEvent::Located(Some(backup(BACKUP_ID)), Some(p("/games/CustomSongs/Installed Song")), Vec::new()),
        RollbackEvent::CurrentSetAside,
        RollbackEvent::MovedBack,
        RollbackEvent::Pruned,
    ];
    let mut actions = Vec::new();
    for event in steps {
        let (next, action) = rollback_step(state, event);
        state = next;
        actions.push(action);
    }
    assert!(matches!(actions[0], RollbackAction::SetAsideCurrent(ref c) if c.same_path(&p("/games/CustomSongs/Installed Song"))));
    assert!(matches!(actions[1], RollbackAction::MoveBack(ref d) if d.same_path(&p("/games/CustomSongs/Installed Song"))));
    assert!(matches!(actions[2], RollbackAction::Prune(ref id, 3) if id == CHART_ID));
    assert_eq!(KEPT_VERSIONS, 3);
    assert!(matches!(actions[3], RollbackAction::Done(Ok(()))));
}

#[test]
fn restores_directly_when_nothing_is_installed() {
    let state = RollbackState::new(p(TARGET), BACKUP_ID.to_string());
    assert_eq!(unique_candidates("Song")[1], "Song (2)");
    let (_, action) = rollback_step(
        state,
        RollbackEvent::Located(Some(backup(BACKUP_ID)), None, vec![true, false]),
    );
    assert!(matches!(action, RollbackAction::MoveBack(ref d) if d.same_path(&p("/games/CustomSongs/Song (2)"))));
}

#[test]
fn reports_a_missing_or_invalid_backup() {
    let state = RollbackState::new(p(TARGET), BACKUP_ID.to_string());
    let (_, action) = rollback_step(state, RollbackEvent::Located(None, None, Vec::new()));
    assert!(matches!(action, RollbackAction::Done(Err(ref m)) if m == "this backup could not be found."));
    let state = RollbackState::new(p(TARGET), BACKUP_ID.to_string());
    let other = "00000000-0000-4000-8000-000000000000";
    let (_, action) = rollback_step(
        state,
        RollbackEvent::Located(Some(backup(other)), Some(p("/games/CustomSongs/Song")), Vec::new()),
    );
    assert!(matches!(action, RollbackAction::Done(Err(_))));
    let state = RollbackState::new(p(TARGET), "backup".to_string());
    assert!(matches!(state.action(), RollbackAction::Done(Err(ref m)) if m == "invalid chart id"));
}

fn metadata(updates_enabled: bool) -> InstallMetadata {
    InstallMetadata {
        chart_id: CHART_ID.to_string(),
        title: "Managed Song".to_string(),
        artist: "Artist".to_string(),
        charter: "Charter".to_string(),
        archive_sha256: "hash".to_string(),
        source: "https://unchartable.site".to_string(),
        updated_at: None,
        installed_at: None,
        updates_enabled,
    }
}

#[test]
fn counts_every_managed_chart_and_rewrites_only_changed_ones() {
    let (managed, updated, changed) =
        apply_bulk_preferences(vec![metadata(false), metadata(true), metadata(false)], true);
    assert_eq!(managed, 3);
    assert!(updated.iter().all(|m| m.updates_enabled));
    assert_eq!(changed, vec![true, false, true]);
    let (managed, updated, changed) = apply_bulk_preferences(Vec::new(), false);
    assert_eq!(managed, 0);
    assert!(updated.is_empty() && changed.is_empty());
}

#[test]
fn installs_over_the_installed_copy_or_beside_a_taken_title_folder() {
    let through_extraction = |existing: Option<ChartPath>, present: Vec<bool>| {
        install_run(
            CHART_ID,
            vec![
                InstallEvent::Ticket("https://files.example.net/chart.zip".to_string()),
                InstallEvent::Response(None),
                InstallEvent::FileCreated,
                InstallEvent::StreamEnded,
                InstallEvent::Flushed,
                InstallEvent::Existing(existing),
                InstallEvent::Head(b"PK\x05\x06".to_vec()),
                InstallEvent::Extracted(true, true, p("/games/CustomSongs/.staging"), present),
            ],
        )
        .1
    };

    let actions = through_extraction(Some(p("/games/CustomSongs/Old Name")), Vec::new());
    assert!(matches!(actions[8], InstallAction::Finalize(_, 0, ref d, true) if d.same_path(&p("/games/CustomSongs/Old Name"))));

    let candidates = new_install_candidates("Same Song", "Same Song", "alice");
    assert_eq!(candidates[1], "Same Song by alice");
    let actions = through_extraction(None, vec![true, false]);
    assert!(matches!(actions[8], InstallAction::Finalize(_, 0, ref d, false) if d.same_path(&p("/games/CustomSongs/Same Song by alice"))));

    // Names whose presence was not reported count as taken, so with only
    // two reported, both taken, the fallback name with a fresh id is used.
    let actions = through_extraction(None, vec![true, true]);
    match &actions[8] {
        InstallAction::Finalize(_, 0, d, false) => {
            let name = d.file_name().expect("a folder name");
            let id = name.strip_prefix("Same Song by alice-").expect("the fallback name");
            assert_eq!(id.len(), 32);
        }
        _ => panic!("the chart is moved in"),
    }
}

#[test]
fn builds_the_site_addresses() {
    assert_eq!(
        chart_api_url(CHART_ID),
        "https://unchartable.site/api/charts/503c0c85-d4b6-4366-b18b-bbcc6fb44f63"
    );
    assert_eq!(pack_api_url("p1"), "https://unchartable.site/api/packs/p1");
    assert_eq!(
        download_ticket_url("x"),
        "https://unchartable.site/api/charts/x/download?format=json&source=app"
    );
}

fn identity() -> ChartIdentity {
    let mut identity = ChartIdentity::new();
    identity.absorb_chart_text("Title:Same Song\nArtist:Same Artist\nCreator:Alice");
    identity
}

fn entry(charter: &str) -> CatalogChart {
    CatalogChart {
        site: SiteChart {
            title: Some("Same Song".to_string()),
            artist: Some("Same Artist".to_string()),
            charter_names: vec![charter.to_string()],
        },
        charter_name: Some(charter.to_string()),
        version: Some("2026-07-23T12:00:00Z".to_string()),
    }
}

fn adopt_run(installed: &str, events: Vec<AdoptEvent>) -> (AdoptState, Vec<AdoptAction>) {
    let mut state = AdoptState::new(p(TARGET), p(installed), CHART_ID.to_string());
    let mut actions = vec![state.action()];
    for event in events {
        let (next, action) = adopt_step(state, event);
        state = next;
        actions.push(action);
    }
    (state, actions)
}

#[test]
fn adopts_a_manual_chart_the_catalog_entry_matches() {
    let (state, actions) = adopt_run(
        "/games/CustomSongs/Manual Song",
        vec![
            AdoptEvent::FolderChecked(false),
            AdoptEvent::IdentityRead(Some(identity())),
            AdoptEvent::Fetched(Some(entry("Alice")), true, "2026-07-24T00:00:00Z".to_string()),
            AdoptEvent::Written,
        ],
    );
    assert!(matches!(actions[0], AdoptAction::CheckFolder));
    assert!(matches!(actions[1], AdoptAction::ReadIdentity));
    assert!(matches!(actions[2], AdoptAction::Fetch(ref url) if url == "https://unchartable.site/api/charts/503c0c85-d4b6-4366-b18b-bbcc6fb44f63"));
    assert!(matches!(actions[3], AdoptAction::WriteMetadata));
    assert!(matches!(actions[4], AdoptAction::Done(Ok(()))));
    let metadata = state.metadata.expect("metadata");
    assert_eq!(metadata.chart_id, CHART_ID);
    assert_eq!(metadata.charter, "Alice");
    assert_eq!(metadata.updated_at.as_deref(), Some("2026-07-23T12:00:00Z"));
    assert_eq!(metadata.installed_at.as_deref(), Some("2026-07-24T00:00:00Z"));
    assert!(metadata.updates_enabled && metadata.archive_sha256.is_empty());
}

#[test]
fn refuses_to_adopt_what_is_not_that_chart() {
    let (state, actions) = adopt_run(
        "/games/CustomSongs/Manual Song",
        vec![
            AdoptEvent::FolderChecked(false),
            AdoptEvent::IdentityRead(Some(identity())),
            AdoptEvent::Fetched(Some(entry("Bob")), true, "now".to_string()),
        ],
    );
    assert!(matches!(actions[3], AdoptAction::Done(Err(ref m)) if m == "the installed files no longer match this UNCHARTABLE chart."));
    assert!(state.metadata.is_none());

    let (_, actions) = adopt_run(
        "/games/CustomSongs/Manual Song",
        vec![
            AdoptEvent::FolderChecked(false),
            AdoptEvent::IdentityRead(Some(identity())),
            AdoptEvent::Fetched(Some(entry("Alice")), false, "now".to_string()),
        ],
    );
    assert!(matches!(actions[3], AdoptAction::Done(Err(_))));

    let (_, actions) = adopt_run(
        "/games/CustomSongs/Manual Song",
        vec![
            AdoptEvent::FolderChecked(false),
            AdoptEvent::IdentityRead(Some(identity())),
            AdoptEvent::Fetched(None, true, "now".to_string()),
        ],
    );
    assert!(matches!(actions[3], AdoptAction::Done(Err(ref m)) if m == "UNCHARTABLE did not return this chart."));

    let (_, actions) = adopt_run("/games/CustomSongs/Manual Song", vec![AdoptEvent::FolderChecked(true)]);
    assert!(matches!(actions[1], AdoptAction::Done(Err(ref m)) if m == "this folder cannot be adopted as a manual chart."));

    let (_, actions) = adopt_run("/elsewhere/Manual Song", vec![AdoptEvent::FolderChecked(false)]);
    assert!(matches!(actions[1], AdoptAction::Done(Err(_))));

    let (_, actions) = adopt_run(
        "/games/CustomSongs/Manual Song",
        vec![AdoptEvent::FolderChecked(false), AdoptEvent::IdentityRead(Some(ChartIdentity::new()))],
    );
    assert!(matches!(actions[2], AdoptAction::Done(Err(ref m)) if m == "could not read this manual chart metadata."));

    let state = AdoptState::new(p(TARGET), p("/games/CustomSongs/x"), "nope".to_string());
    assert_eq!(state.phase, AdoptPhase::Done);
}

#[test]
fn restores_a_trashed_chart_under_its_own_name() {
    assert_eq!(trash_entry_name("tid", "Managed Song"), "tid-Managed Song");
    let candidates = unique_candidates("Managed Song");
    let present = vec![false; candidates.len()];
    let back = unique_install_path(&p(TARGET), "Managed Song", &present);
    assert!(back.same_path(&p("/games/CustomSongs/Managed Song")));
}

#[test]
fn restores_a_replaced_version_into_its_folder() {
    // The installed copy sits where the replaced version was.
    let state = RollbackState::new(p(TARGET), BACKUP_ID.to_string());
    let (state, action) = rollback_step(
        state,
        RollbackEvent::Located(Some(backup(BACKUP_ID)), Some(p("/games/CustomSongs/Song")), Vec::new()),
    );
    assert!(matches!(action, RollbackAction::SetAsideCurrent(_)));
    let (_, action) = rollback_step(state, RollbackEvent::CurrentSetAside);
    assert!(matches!(action, RollbackAction::MoveBack(ref d) if d.same_path(&p("/games/CustomSongs/Song"))));

    // Nothing installed and the name free: back under the recorded name.
    let state = RollbackState::new(p(TARGET), BACKUP_ID.to_string());
    let (_, action) = rollback_step(
        state,
        RollbackEvent::Located(Some(backup(BACKUP_ID)), None, vec![false]),
    );
    assert!(matches!(action, RollbackAction::MoveBack(ref d) if d.same_path(&p("/games/CustomSongs/Song"))));
}
