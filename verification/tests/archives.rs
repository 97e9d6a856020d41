use std::path::{Component, Path};
use unchartable::archive::{
    admit_entry, check_duplicate_import, check_zip_entry_count, detect_archive_format,
    extracted_source, screen_local_archive, ArchiveFormat, EntryFacts, EntryRejection,
    ExtractionBudget, ListedEntry, MAX_ARCHIVE_BYTES, MAX_ARCHIVE_FILES, MAX_EXTRACTED_BYTES,
};
use unchartable::paths::{
    backup_directory, history_path, is_direct_child, safe_archive_path, trash_directory, ChartPath,
    PathPart,
};

fn chart_path(path: &Path) -> ChartPath {
    let parts = path
        .components()
        .map(|component| match component {
            Component::Prefix(prefix) => {
                PathPart::Prefix(prefix.as_os_str().to_string_lossy().to_string())
            }
            Component::RootDir => PathPart::RootDir,
            Component::CurDir => PathPart::CurDir,
            Component::ParentDir => PathPart::ParentDir,
            Component::Normal(name) => PathPart::Normal(name.to_string_lossy().to_string()),
        })
        .collect();
    ChartPath::from_parts(parts)
}

fn p(s: &str) -> ChartPath {
    chart_path(Path::new(s))
}

fn facts(path: &str, size: u64) -> EntryFacts {
    EntryFacts {
        path: Some(p(path)),
        size,
        is_symlink: false,
        encrypted: false,
        split: false,
        destination: None,
    }
}

#[test]
fn detects_supported_archives_and_enforces_the_import_size_limit() {
    let wrong_contents: &[u8] = b"archive";
    assert!(
        screen_local_archive(true, wrong_contents.len() as u64, wrong_contents)
            .expect_err("invalid archive should be rejected")
            .contains("unsupported archive")
    );

    assert!(
        screen_local_archive(true, MAX_ARCHIVE_BYTES + 1, b"PK\x03\x04")
            .expect_err("oversized archive should be rejected")
            .contains("250 MB")
    );

    let empty_zip: &[u8] = b"PK\x05\x06\0\0\0\0\0\0\0\0\0\0\0\0\0\0\0\0\0\0";
    assert_eq!(
        screen_local_archive(true, empty_zip.len() as u64, &empty_zip[..8])
            .expect("ZIP signature")
            .1,
        ArchiveFormat::Zip
    );

    assert_eq!(
        detect_archive_format(b"7z\xBC\xAF\x27\x1C\0\0").expect("7Z signature"),
        ArchiveFormat::SevenZip
    );

    assert_eq!(
        detect_archive_format(b"Rar!\x1A\x07\x01\x00").expect("RAR signature"),
        ArchiveFormat::Rar
    );
}

#[test]
fn screens_local_archives_in_order() {
    assert_eq!(
        screen_local_archive(false, 10, b"PK\x03\x04").err().as_deref(),
        Some("choose an existing chart archive.")
    );
    assert_eq!(screen_local_archive(true, MAX_ARCHIVE_BYTES, b"Rar!\x1A\x07\x00").unwrap(), (MAX_ARCHIVE_BYTES, ArchiveFormat::Rar));
    assert!(detect_archive_format(b"PK\x07\x08").is_ok());
    assert!(detect_archive_format(b"PK").is_err());
    assert!(detect_archive_format(b"").is_err());
    assert_eq!(ArchiveFormat::SevenZip.label(), "7z");
    assert_eq!(ArchiveFormat::Zip.label(), "zip");
    assert_eq!(ArchiveFormat::Rar.label(), "rar");
}

#[test]
fn refuses_paths_that_leave_the_extraction_folder() {
    assert!(safe_archive_path(&p("Chart/song.wav")).is_ok());
    assert!(safe_archive_path(&p("./Chart/song.wav")).is_ok());
    assert_eq!(
        safe_archive_path(&p("../outside.txt")).err().as_deref(),
        Some("the archive contains an unsafe file path.")
    );
    assert!(safe_archive_path(&p("/etc/passwd")).is_err());
    assert!(safe_archive_path(&p("")).is_err());
    assert!(safe_archive_path(&p("a/../../b")).is_err());
}

#[test]
fn admits_entries_within_the_limits() {
    let staging = p("/tmp/staging");
    let budget = ExtractionBudget::new();
    let after = admit_entry(ArchiveFormat::Zip, &staging, budget, &facts("Chart/song.wav", 5)).unwrap();
    assert_eq!(after, ExtractionBudget { files: 0, bytes: 5 });
    let after = admit_entry(ArchiveFormat::Rar, &staging, after, &facts("Chart/chart.txt", 7)).unwrap();
    assert_eq!(after, ExtractionBudget { files: 1, bytes: 12 });
}

#[test]
fn rejects_entries_for_each_reason() {
    let staging = p("/tmp/staging");
    let budget = ExtractionBudget::new();
    let mut no_name = facts("x", 1);
    no_name.path = None;
    assert_eq!(admit_entry(ArchiveFormat::Zip, &staging, budget, &no_name), Err(EntryRejection::ZipUnsafePath));
    assert_eq!(admit_entry(ArchiveFormat::Rar, &staging, budget, &no_name), Err(EntryRejection::UnsafePath));
    assert_eq!(
        admit_entry(ArchiveFormat::Zip, &staging, budget, &facts("../x.txt", 1)),
        Err(EntryRejection::UnsafePath)
    );
    let mut link = facts("Chart/link", 1);
    link.is_symlink = true;
    assert_eq!(admit_entry(ArchiveFormat::Zip, &staging, budget, &link), Err(EntryRejection::SymbolicLink));
    assert_eq!(
        admit_entry(ArchiveFormat::Zip, &staging, budget, &facts("setup.EXE", 1)),
        Err(EntryRejection::BlockedFile)
    );
    assert_eq!(
        admit_entry(ArchiveFormat::Zip, &staging, budget, &facts("inner.zip", 1)),
        Err(EntryRejection::NestedArchive)
    );
    assert_eq!(
        admit_entry(ArchiveFormat::Zip, &staging, budget, &facts("big.wav", MAX_EXTRACTED_BYTES + 1)),
        Err(EntryRejection::TooLarge)
    );
    let full = ExtractionBudget { files: 0, bytes: u64::MAX };
    assert_eq!(
        admit_entry(ArchiveFormat::Zip, &staging, full, &facts("a.wav", 1)),
        Err(EntryRejection::SizeInvalid)
    );
    let mut locked = facts("a.wav", 1);
    locked.encrypted = true;
    assert_eq!(admit_entry(ArchiveFormat::Rar, &staging, budget, &locked), Err(EntryRejection::Encrypted));
    let mut split = facts("a.wav", 1);
    split.split = true;
    assert_eq!(admit_entry(ArchiveFormat::Rar, &staging, budget, &split), Err(EntryRejection::MultiPart));
    let many = ExtractionBudget { files: MAX_ARCHIVE_FILES, bytes: 0 };
    assert_eq!(
        admit_entry(ArchiveFormat::Rar, &staging, many, &facts("a.wav", 1)),
        Err(EntryRejection::TooManyFiles)
    );
    assert_eq!(
        admit_entry(ArchiveFormat::SevenZip, &staging, many, &facts("../a.wav", 1)),
        Err(EntryRejection::TooManyFiles)
    );
    assert_eq!(check_zip_entry_count(MAX_ARCHIVE_FILES + 1), Err(EntryRejection::TooManyFiles));
    assert_eq!(check_zip_entry_count(MAX_ARCHIVE_FILES), Ok(()));
}

#[test]
fn checks_where_the_7z_reader_writes() {
    let staging = p("/tmp/staging");
    let budget = ExtractionBudget::new();
    let mut entry = facts("./Chart/song.wav", 3);
    entry.destination = Some(p("/tmp/staging/Chart/song.wav"));
    assert_eq!(
        admit_entry(ArchiveFormat::SevenZip, &staging, budget, &entry),
        Ok(ExtractionBudget { files: 1, bytes: 3 })
    );
    entry.destination = Some(p("/tmp/elsewhere/song.wav"));
    assert_eq!(
        admit_entry(ArchiveFormat::SevenZip, &staging, budget, &entry),
        Err(EntryRejection::SevenZipUnsafePath)
    );
}

#[test]
fn words_entry_refusals() {
    assert_eq!(
        EntryRejection::BlockedFile.message("chart/setup.exe"),
        "blocked executable file in archive: chart/setup.exe"
    );
    assert_eq!(
        EntryRejection::NestedArchive.message("a.zip"),
        "nested archives are not installed into CustomSongs: a.zip"
    );
    assert_eq!(
        EntryRejection::TooLarge.message("x"),
        "the chart expands beyond the safe extraction limit."
    );
    assert_eq!(EntryRejection::ZipUnsafePath.message("x"), "the ZIP contains an unsafe file path.");
}

#[test]
fn uses_a_single_root_folder_as_the_chart() {
    let staging = p("/tmp/staging");
    let single = vec![ListedEntry { path: p("/tmp/staging/Chart"), is_dir: true }];
    assert!(extracted_source(&staging, &single).same_path(&p("/tmp/staging/Chart")));
    let file = vec![ListedEntry { path: p("/tmp/staging/chart.txt"), is_dir: false }];
    assert!(extracted_source(&staging, &file).same_path(&staging));
    let two = vec![
        ListedEntry { path: p("/tmp/staging/A"), is_dir: true },
        ListedEntry { path: p("/tmp/staging/B"), is_dir: true },
    ];
    assert!(extracted_source(&staging, &two).same_path(&staging));
}

#[test]
fn keeps_app_data_beside_the_game_folder() {
    let data = p("/home/player/.local/share/UNCHARTABLE");
    assert!(trash_directory(&data).same_path(&p("/home/player/.local/share/UNCHARTABLE/Trash")));
    assert!(backup_directory(&data).same_path(&p("/home/player/.local/share/UNCHARTABLE/Backups")));
    assert!(history_path(&data).same_path(&p("/home/player/.local/share/UNCHARTABLE/history.json")));
    assert!(is_direct_child(&p("/games/CustomSongs"), &p("/games/CustomSongs/Song")));
    assert!(!is_direct_child(&p("/games/CustomSongs"), &p("/games/CustomSongs/Song/inner")));
    assert!(!is_direct_child(&p("/games/CustomSongs"), &p("/games/Other")));
}

#[test]
fn asks_before_importing_a_duplicate() {
    assert!(check_duplicate_import(false, false).is_ok());
    assert!(check_duplicate_import(true, true).is_ok());
    assert_eq!(
        check_duplicate_import(true, false).err().as_deref(),
        Some("a matching chart is already installed.")
    );
}
