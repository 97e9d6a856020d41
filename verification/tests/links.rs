use unchartable::ids::{
    download_workspace_names, import_workspace_name, is_repairable_temporary_item, validate_chart_id,
    write_probe_name,
};
use unchartable::links::{parse_allowed_external_url, parse_download_url};

#[test]
fn opens_only_secure_unchartable_links() {
    assert!(parse_allowed_external_url("https://unchartable.site/charts/example").is_ok());
    assert!(parse_allowed_external_url("http://unchartable.site/charts/example").is_err());
    assert!(
        parse_allowed_external_url("https://unchartable.site.example/charts/example").is_err()
    );
    assert!(parse_allowed_external_url("file:///C:/Windows/System32").is_err());
}

#[test]
fn explains_why_a_link_is_refused() {
    assert_eq!(
        parse_allowed_external_url("not a url").err().as_deref(),
        Some("invalid UNCHARTABLE URL.")
    );
    assert_eq!(
        parse_allowed_external_url("http://unchartable.site/").err().as_deref(),
        Some("only unchartable.site links can be opened by the app.")
    );
    let ok = parse_allowed_external_url("https://UNCHARTABLE.site/x").expect("host is lowercased");
    assert_eq!(ok.text, "https://unchartable.site/x");
}

#[test]
fn follows_only_secure_non_drive_downloads() {
    assert!(parse_download_url("https://cdn.unchartable.site/a.zip").is_ok());
    assert_eq!(
        parse_download_url("http://cdn.unchartable.site/a.zip").err().as_deref(),
        Some("the chart download did not use HTTPS.")
    );
    assert_eq!(
        parse_download_url("https://drive.google.com/file").err().as_deref(),
        Some("Google Drive charts are not supported by this first app version yet.")
    );
    assert_eq!(
        parse_download_url("https://doc-0.googleusercontent.com/x").err().as_deref(),
        Some("Google Drive charts are not supported by this first app version yet.")
    );
    assert_eq!(
        parse_download_url("::").err().as_deref(),
        Some("UNCHARTABLE returned an invalid download URL.")
    );
}

#[test]
fn recognizes_only_owned_temporary_items_for_repair() {
    assert!(is_repairable_temporary_item(".unchartable-import-abandoned"));
    assert!(is_repairable_temporary_item(
        ".unchartable-503c0c85-d4b6-4366-b18b-bbcc6fb44f63.zip"
    ));
    assert!(is_repairable_temporary_item(
        ".unchartable-503c0c85-d4b6-4366-b18b-bbcc6fb44f63.archive"
    ));
    assert!(!is_repairable_temporary_item(".unchartable-history.json"));
    assert!(!is_repairable_temporary_item(".unchartable-backups"));
    assert!(!is_repairable_temporary_item(".unchartable-user-folder"));
}

#[test]
fn accepts_every_uuid_form_as_a_chart_id() {
    assert!(validate_chart_id("503c0c85-d4b6-4366-b18b-bbcc6fb44f63").is_ok());
    assert!(validate_chart_id("503C0C85D4B64366B18BBBCC6FB44F63").is_ok());
    assert!(validate_chart_id("{503c0c85-d4b6-4366-b18b-bbcc6fb44f63}").is_ok());
    assert!(validate_chart_id("URN:uuid:503c0c85-d4b6-4366-b18b-bbcc6fb44f63").is_ok());
    assert_eq!(validate_chart_id("503c0c85").err().as_deref(), Some("invalid chart id"));
    assert!(validate_chart_id("503c0c85-d4b6-4366-b18b-bbcc6fb44f6g").is_err());
    assert!(validate_chart_id("").is_err());
}

#[test]
fn names_temporary_items_so_that_repair_finds_them() {
    let (archive, staging) = download_workspace_names();
    assert!(archive.starts_with(".unchartable-") && archive.ends_with(".archive"));
    assert_eq!(format!("{staging}.archive"), archive);
    assert!(is_repairable_temporary_item(&archive));
    assert!(is_repairable_temporary_item(&staging));
    let import = import_workspace_name();
    assert!(import.starts_with(".unchartable-import-"));
    assert_eq!(import.len(), ".unchartable-import-".len() + 32);
    assert!(is_repairable_temporary_item(&import));
    let probe = write_probe_name();
    assert!(is_repairable_temporary_item(&probe));
}
