use std::path::{Component, Path};
use unchartable::names::{
    conflicting_install_folder_name, generated_install_folder_name, sanitize_folder_name,
};
use unchartable::paths::{contains_blocked_file, install_folder_name, is_nested_archive, ChartPath, PathPart};
use unchartable::placement::{new_install_candidates, new_install_path, unique_candidates, unique_install_path};

fn chart_path(path: &Path) -> ChartPath {
    let parts = path
        .components()
        .map(|component| match component {
            Component::Prefix(prefix) => {
                PathPart::Prefix(prefix.as_os_str().to_string_lossy().to_string())
            }
            Component::RootDir => PathPart::RootDir,
            Component::CurDir => PathPart::CurDir,
            Component::ParentDir => PathPart::ParentDir,
            Component::Normal(name) => PathPart::Normal(name.to_string_lossy().to_string()),
        })
        .collect();
    ChartPath::from_parts(parts)
}

fn same(a: &ChartPath, b: &Path) -> bool {
    a.same_path(&chart_path(b))
}

#[test]
fn sanitizes_windows_folder_names() {
    assert_eq!(sanitize_folder_name("Artist: Song?"), "Artist Song");
    assert_eq!(sanitize_folder_name("CON"), "Unchartable Chart");
    assert_eq!(generated_install_folder_name("Same Song"), "Same Song");
    assert_eq!(
        conflicting_install_folder_name("Same Song", "alice"),
        "Same Song by alice"
    );
}

#[test]
fn preserves_an_archive_root_folder_name() {
    let staging = Path::new(r"C:\temp\staging");
    let source = staging.join("Creator Folder");
    assert_eq!(
        install_folder_name(&chart_path(&source), &chart_path(staging), "Song", "charter"),
        "Creator Folder"
    );
}

#[test]
fn names_a_rootless_archive_from_the_chart_title() {
    let staging = Path::new(r"C:\temp\staging");
    assert_eq!(
        install_folder_name(&chart_path(staging), &chart_path(staging), "Song", "charter"),
        "Song"
    );
}

#[test]
fn adds_the_charter_only_when_the_title_folder_is_taken() {
    let target = Path::new("/tmp/custom-songs");
    let candidates = new_install_candidates("Same Song", "Same Song", "alice");

    let taken = ["Same Song"];
    let present: Vec<bool> = candidates.iter().map(|name| taken.contains(&name.as_str())).collect();
    assert!(same(
        &new_install_path(&chart_path(target), "Same Song", "Same Song", "alice", &present),
        &target.join("Same Song by alice")
    ));

    let taken = ["Same Song", "Same Song by alice"];
    let present: Vec<bool> = candidates.iter().map(|name| taken.contains(&name.as_str())).collect();
    assert!(same(
        &new_install_path(&chart_path(target), "Same Song", "Same Song", "alice", &present),
        &target.join("Same Song by alice (2)")
    ));
}

#[test]
fn blocks_executable_payloads() {
    assert!(contains_blocked_file(&chart_path(Path::new("chart/setup.exe"))));
    assert!(contains_blocked_file(&chart_path(Path::new("chart/script.PS1"))));
    assert!(!contains_blocked_file(&chart_path(Path::new("chart/song.wav"))));
    assert!(is_nested_archive(&chart_path(Path::new("chart/original.zip"))));
    assert!(is_nested_archive(&chart_path(Path::new("chart/original.7Z"))));
    assert!(is_nested_archive(&chart_path(Path::new("chart/original.rar"))));
    assert!(!is_nested_archive(&chart_path(Path::new("chart/song.wav"))));
}

fn is_forbidden(c: char) -> bool {
    matches!(c, '<' | '>' | ':' | '"' | '/' | '\\' | '|' | '?' | '*' | '\0'..='\u{1f}')
}

#[test]
fn sanitized_names_are_usable_on_windows() {
    let long = "x".repeat(150);
    let inputs = [
        "",
        "   ",
        "...",
        "a<b>c",
        "  Lead  and   trail. ",
        "\tTabs\nand\rbreaks",
        "com1",
        "LpT9",
        "COM0",
        "nul",
        long.as_str(),
        ". .Dots. .",
    ];
    for input in inputs {
        let name = sanitize_folder_name(input);
        let count = name.chars().count();
        assert!(count > 0 && count <= 100, "{input:?} -> {name:?}");
        assert!(!name.chars().any(is_forbidden), "{input:?} -> {name:?}");
        assert!(name.chars().all(|c| c == ' ' || !c.is_whitespace()));
        assert!(!name.starts_with(' ') && !name.starts_with('.'));
        assert!(!["CON", "PRN", "AUX", "NUL", "COM1", "LPT9"]
            .iter()
            .any(|reserved| name.eq_ignore_ascii_case(reserved)));
    }
    assert_eq!(sanitize_folder_name(""), "Unchartable Chart");
    assert_eq!(sanitize_folder_name("..."), "Unchartable Chart");
    assert_eq!(sanitize_folder_name("LpT9"), "Unchartable Chart");
    assert_eq!(sanitize_folder_name("COM0"), "COM0");
    assert_eq!(sanitize_folder_name("a<b>c"), "a b c");
    assert_eq!(sanitize_folder_name("  Lead  and   trail. "), "Lead and trail");
    assert_eq!(sanitize_folder_name("\tTabs\nand\rbreaks"), "Tabs and breaks");
    assert_eq!(sanitize_folder_name(". .Dots. ."), "Dots");
    assert_eq!(sanitize_folder_name(&long), "x".repeat(100));
}

#[test]
fn keeps_names_that_are_already_safe() {
    for name in ["Creator Folder", "Song (Remix) - Artist", "a.b", "Unchartable Chart", "COM10"] {
        assert_eq!(sanitize_folder_name(name), name);
    }
}

#[test]
fn sanitizing_twice_changes_nothing() {
    for input in ["Artist: Song?", "  many   spaces  ", "CON", "x*y|z", "Über Lied…"] {
        let once = sanitize_folder_name(input);
        assert_eq!(sanitize_folder_name(&once), once);
    }
    // Cutting to 100 characters can leave a trailing dot, which a second
    // pass removes.
    let input = format!("{}. b", "a".repeat(99));
    let once = sanitize_folder_name(&input);
    assert_eq!(once, format!("{}.", "a".repeat(99)));
    assert_eq!(sanitize_folder_name(&once), "a".repeat(99));
}

#[test]
fn places_a_folder_under_the_first_free_name() {
    let target = Path::new("/tmp/custom-songs");
    let candidates = unique_candidates("Song");
    assert_eq!(candidates.len(), 999);
    assert_eq!(candidates[0], "Song");
    assert_eq!(candidates[1], "Song (2)");
    assert_eq!(candidates[998], "Song (999)");

    let present: Vec<bool> = (0..candidates.len()).map(|i| i < 3).collect();
    assert!(same(
        &unique_install_path(&chart_path(target), "Song", &present),
        &target.join("Song (4)")
    ));

    let present = vec![false; candidates.len()];
    assert!(same(
        &unique_install_path(&chart_path(target), "Song", &present),
        &target.join("Song")
    ));

    let present = vec![true; candidates.len()];
    let fallback = unique_install_path(&chart_path(target), "Song", &present);
    let name = fallback.file_name().expect("a folder name");
    let id = name.strip_prefix("Song-").expect("the folder name first");
    assert_eq!(id.len(), 32);
    assert!(id.chars().all(|c| c.is_ascii_hexdigit() && !c.is_ascii_uppercase()));
}

#[test]
fn tries_the_title_folder_before_naming_the_charter() {
    let candidates = new_install_candidates("Folder", " Same Song ", "  ");
    assert_eq!(candidates.len(), 1000);
    assert_eq!(candidates[0], "Folder");
    assert_eq!(candidates[1], "Same Song by Unknown Charter");
    assert_eq!(candidates[2], "Same Song by Unknown Charter (2)");
    let target = Path::new("/tmp/custom-songs");
    let present = vec![false; candidates.len()];
    assert!(same(
        &new_install_path(&chart_path(target), "Folder", " Same Song ", "  ", &present),
        &target.join("Folder")
    ));
}
