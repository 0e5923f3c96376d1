use nextcloud_updater::desktop::DesktopFile;
use nextcloud_updater::locator::{
    applications_dir, join_path, nextcloud_app_dir, nextcloud_desktop_file, parent_dir,
};
use nextcloud_updater::releases::versions_from_response;
use nextcloud_updater::versions::{
    assert_additional_arg_limit, assert_no_additional_args, download_file_name, download_url,
    latest_version, limit_versions, parse_list_arg, strip_version_prefix,
};

fn lines(ls: &[&str]) -> Vec<String> {
    ls.iter().map(|l| l.to_string()).collect()
}

#[test]
fn round_trip_reproduces_every_field() {
    let d = DesktopFile::new(
        "Nextcloud".to_string(),
        "/home/u/.local/bin/nextcloud/app".to_string(),
        "@APPLICATION_EXECUTABLE@".to_string(),
        true,
        "Application".to_string(),
        "Utility;Network".to_string(),
    );
    let ls = d.serialize_lines();
    let p = DesktopFile::from_file(&ls);
    assert_eq!(p.name, "Nextcloud");
    assert_eq!(p.exec_path, "/home/u/.local/bin/nextcloud/app");
    assert_eq!(p.icon, "@APPLICATION_EXECUTABLE@");
    assert_eq!(p.terminal, true);
    assert_eq!(p.app_type, "Application");
    assert_eq!(p.categories, "Utility;Network");
}

#[test]
fn key_lookup_is_case_insensitive_and_last_write_wins() {
    let p = DesktopFile::from_file(&lines(&["Exec=/a", "EXEC=/b"]));
    assert_eq!(p.exec_path, "/b");
}

#[test]
fn empty_file_parses_to_defaults() {
    let p = DesktopFile::from_file(&lines(&[]));
    assert_eq!(p.name, "");
    assert_eq!(p.exec_path, "");
    assert_eq!(p.icon, "");
    assert_eq!(p.terminal, false);
    assert_eq!(p.app_type, "");
    assert_eq!(p.categories, "");
}

#[test]
fn boolean_parsing_accepts_only_trimmed_lowercased_true() {
    assert_eq!(DesktopFile::from_file(&lines(&["Terminal=TRUE"])).terminal, true);
    assert_eq!(DesktopFile::from_file(&lines(&["Terminal=  true "])).terminal, true);
    assert_eq!(DesktopFile::from_file(&lines(&["Terminal=true"])).terminal, true);
    assert_eq!(DesktopFile::from_file(&lines(&["Terminal=false"])).terminal, false);
    assert_eq!(DesktopFile::from_file(&lines(&["Terminal=yes"])).terminal, false);
    assert_eq!(DesktopFile::from_file(&lines(&[])).terminal, false);
}

#[test]
fn boolean_parsing_trims_unicode_whitespace() {
    // The platform's trim strips every Unicode whitespace character, not
    // only the ASCII ones.
    let p = DesktopFile::from_file(&lines(&["Terminal=\u{00A0}true\u{2003}"]));
    assert_eq!(p.terminal, true);
    let q = DesktopFile::from_file(&lines(&["Terminal=\u{3000}TRUE\r\n"]));
    assert_eq!(q.terminal, true);
    // A non-whitespace character keeps the value from being the literal.
    let r = DesktopFile::from_file(&lines(&["Terminal=.true"]));
    assert_eq!(r.terminal, false);
}

#[test]
fn prefix_matching_also_catches_longer_keys() {
    // The documented quirk: any line whose lower-cased form merely starts
    // with a key name is read as that key.
    let p = DesktopFile::from_file(&lines(&["Terminally=true"]));
    assert_eq!(p.terminal, true);
    let q = DesktopFile::from_file(&lines(&["Names=x"]));
    assert_eq!(q.name, "x");
}

#[test]
fn value_is_everything_after_the_last_equals() {
    let p = DesktopFile::from_file(&lines(&["Exec=a=b=c"]));
    assert_eq!(p.exec_path, "c");
    let q = DesktopFile::from_file(&lines(&["Name="]));
    assert_eq!(q.name, "");
    // A recognized key without any `=` assigns nothing.
    let r = DesktopFile::from_file(&lines(&["Name=kept", "Name"]));
    assert_eq!(r.name, "kept");
}

#[test]
fn serialize_emits_fixed_order_and_header() {
    let d = DesktopFile::new(
        "N".to_string(),
        "/e".to_string(),
        "I".to_string(),
        false,
        "T".to_string(),
        "C".to_string(),
    );
    assert_eq!(
        d.serialize(),
        "[Desktop Entry]\nName=N\nExec=/e\nIcon=I\nTerminal=false\nType=T\nCategories=C\n"
    );
}

#[test]
fn locator_builds_conventional_paths() {
    assert_eq!(applications_dir("/home/u"), "/home/u/.local/share/applications");
    assert_eq!(
        nextcloud_desktop_file("/home/u"),
        "/home/u/.local/share/applications/nextcloud.desktop"
    );
    assert_eq!(nextcloud_app_dir("/home/u"), "/home/u/.local/bin/nextcloud");
}

#[test]
fn parent_and_join_behave_like_paths() {
    assert_eq!(parent_dir("/a/b/c"), "/a/b");
    assert_eq!(parent_dir("/x"), "/");
    assert_eq!(parent_dir("x"), "");
    assert_eq!(join_path("/a", "f"), "/a/f");
    assert_eq!(join_path("/a/", "f"), "/a/f");
    assert_eq!(join_path("", "f"), "f");
}

#[test]
fn version_prefix_stripping() {
    assert_eq!(strip_version_prefix("v2.0.0"), "2.0.0");
    assert_eq!(strip_version_prefix("2.0.0"), "2.0.0");
    assert_eq!(strip_version_prefix(""), "");
    assert_eq!(strip_version_prefix("x1.0"), "x1.0");
}

#[test]
fn stripped_version_names_the_artifact() {
    let v = strip_version_prefix("v2.0.0");
    assert_eq!(download_file_name(&v), "Nextcloud-2.0.0-x86_64.AppImage");
    assert_eq!(
        download_url(&v),
        "https://github.com/nextcloud-releases/desktop/releases/download/v2.0.0/Nextcloud-2.0.0-x86_64.AppImage"
    );
}

#[test]
fn listing_truncates_to_five_unless_all() {
    let vs = lines(&["7", "6", "5", "4", "3", "2", "1"]);
    assert_eq!(limit_versions(vs.clone(), true), lines(&["7", "6", "5", "4", "3", "2", "1"]));
    assert_eq!(limit_versions(vs.clone(), false), lines(&["7", "6", "5", "4", "3"]));
    assert_eq!(limit_versions(lines(&["a", "b"]), false), lines(&["a", "b"]));
}

#[test]
fn latest_is_the_first_entry() {
    assert_eq!(latest_version(&lines(&["v3.3.0", "v3.2.0"])), Some("v3.3.0".to_string()));
    assert_eq!(latest_version(&lines(&[])), None);
}

#[test]
fn argument_count_policy() {
    assert!(assert_no_additional_args(2));
    assert!(!assert_no_additional_args(3));
    assert!(assert_additional_arg_limit(1, 3));
    assert!(!assert_additional_arg_limit(1, 4));
}

#[test]
fn list_argument_parsing() {
    assert_eq!(parse_list_arg(&None), Some(false));
    assert_eq!(parse_list_arg(&Some("all".to_string())), Some(true));
    assert_eq!(parse_list_arg(&Some("some".to_string())), None);
}

#[test]
fn release_feed_tags_are_extracted_in_order() {
    let body = "[{\"tag_name\":\"v3.3.0\"},{\"tag_name\":\"v3.2.0\"}]";
    assert_eq!(
        versions_from_response(body, true),
        Some(lines(&["v3.3.0", "v3.2.0"]))
    );
}

#[test]
fn release_feed_truncation() {
    let body = "[{\"tag_name\":\"7\"},{\"tag_name\":\"6\"},{\"tag_name\":\"5\"},\
                {\"tag_name\":\"4\"},{\"tag_name\":\"3\"},{\"tag_name\":\"2\"},{\"tag_name\":\"1\"}]";
    assert_eq!(versions_from_response(body, false), Some(lines(&["7", "6", "5", "4", "3"])));
    assert_eq!(
        versions_from_response(body, true),
        Some(lines(&["7", "6", "5", "4", "3", "2", "1"]))
    );
}

#[test]
fn release_feed_failures() {
    assert_eq!(versions_from_response("not json", true), None);
    assert_eq!(versions_from_response("{\"tag_name\":\"v1\"}", true), None);
    // Entries without a usable tag fall back to the placeholder.
    let body = "[{\"name\":\"x\"},{\"tag_name\":7},{\"tag_name\":\"v1\"}]";
    assert_eq!(
        versions_from_response(body, false),
        Some(lines(&["unknown", "unknown", "v1"]))
    );
}
