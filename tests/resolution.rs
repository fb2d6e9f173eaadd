use cangjie_zed::platform::OsFamily;
use cangjie_zed::probe::{EntryKind, FsEntry, PathProbe};
use cangjie_zed::sdk::{resolve_sdk_root, sdk_probe_paths, ResolveError, SdkSearch};
use cangjie_zed::CangjieExtension;

fn dir(path: &str) -> FsEntry {
    FsEntry { path: path.to_string(), kind: EntryKind::Directory, canonical: Some(path.to_string()) }
}

fn file(path: &str, canonical: &str) -> FsEntry {
    FsEntry { path: path.to_string(), kind: EntryKind::File, canonical: Some(canonical.to_string()) }
}

fn probe(entries: Vec<FsEntry>) -> PathProbe {
    let mut fs = PathProbe::new();
    for e in entries {
        fs.insert(e);
    }
    fs
}

fn search(config: Option<&str>, env: Option<&str>, exe: Option<&str>, os: OsFamily) -> SdkSearch {
    SdkSearch {
        configured_path: config.map(|s| s.to_string()),
        env_home: env.map(|s| s.to_string()),
        exe_path: exe.map(|s| s.to_string()),
        os,
    }
}

#[test]
fn sdk_root_from_configuration_wins_over_later_tiers() {
    let mut fs = probe(vec![dir("/cfg"), dir("/env"), dir("/opt/cangjie"), dir("/opt/cangjie/bin")]);
    let s = search(Some("/cfg"), Some("/env"), None, OsFamily::Linux);
    assert_eq!(resolve_sdk_root(&s, &mut fs), Ok("/cfg".to_string()));
}

#[test]
fn sdk_root_from_environment_when_configuration_is_invalid() {
    let mut fs = probe(vec![dir("/env"), dir("/opt/cangjie"), dir("/opt/cangjie/bin")]);
    let s = search(Some("/missing"), Some("/env"), None, OsFamily::Linux);
    assert_eq!(resolve_sdk_root(&s, &mut fs), Ok("/env".to_string()));
}

#[test]
fn sdk_root_configuration_must_be_absolute() {
    let mut fs = probe(vec![dir("relative/sdk"), dir("/env")]);
    let s = search(Some("relative/sdk"), Some("/env"), None, OsFamily::Linux);
    assert_eq!(resolve_sdk_root(&s, &mut fs), Ok("/env".to_string()));
    let mut fs = probe(vec![dir("\\sdk")]);
    let s = search(Some("\\sdk"), None, None, OsFamily::Windows);
    assert_eq!(resolve_sdk_root(&s, &mut fs), Err(ResolveError::SdkNotFound));
}

#[test]
fn sdk_root_environment_must_be_absolute() {
    let mut fs = probe(vec![dir("relative/sdk"), dir("/opt/cangjie"), dir("/opt/cangjie/bin")]);
    let s = search(None, Some("relative/sdk"), None, OsFamily::Linux);
    assert_eq!(resolve_sdk_root(&s, &mut fs), Ok("/opt/cangjie".to_string()));
}

#[test]
fn sdk_root_from_executable_in_bin() {
    let mut fs = probe(vec![dir("/sdk"), dir("/sdk/bin"), dir("/opt/cangjie"), dir("/opt/cangjie/bin")]);
    let s = search(None, None, Some("/sdk/bin/myplugin"), OsFamily::Linux);
    assert_eq!(resolve_sdk_root(&s, &mut fs), Ok("/sdk".to_string()));
}

#[test]
fn sdk_root_from_relative_executable_path_is_refused() {
    let mut fs = probe(vec![dir(""), dir("bin")]);
    let s = search(None, None, Some("bin/x"), OsFamily::Linux);
    assert_eq!(resolve_sdk_root(&s, &mut fs), Err(ResolveError::SdkNotFound));
}

#[test]
fn sdk_root_from_executable_drops_trailing_separators() {
    let mut fs = probe(vec![dir("/sdk/bin")]);
    let s = search(None, None, Some("/sdk//bin/myplugin"), OsFamily::Linux);
    assert_eq!(resolve_sdk_root(&s, &mut fs), Ok("/sdk".to_string()));
}

#[test]
fn linked_directory_is_both_directory_and_link() {
    let mut fs = probe(vec![
        FsEntry { path: "/opt/cangjie".to_string(), kind: EntryKind::DirectoryLink, canonical: Some("/data/cj".to_string()) },
        FsEntry { path: "/opt/cangjie/bin".to_string(), kind: EntryKind::DirectoryLink, canonical: Some("/data/cj/bin".to_string()) },
    ]);
    let s = search(None, None, None, OsFamily::Linux);
    assert_eq!(resolve_sdk_root(&s, &mut fs), Ok("/opt/cangjie".to_string()));
    let mut ext = CangjieExtension::new();
    assert_eq!(ext.cjc_binary_path(&Some("/opt/cangjie".to_string()), &s, &mut fs), Ok("/data/cj".to_string()));
}

#[test]
fn sdk_root_from_executable_in_tools_bin() {
    let mut fs = probe(vec![dir("/sdk"), dir("/sdk/bin"), dir("/sdk/tools")]);
    let s = search(None, None, Some("/sdk/tools/bin/myplugin"), OsFamily::Linux);
    assert_eq!(resolve_sdk_root(&s, &mut fs), Ok("/sdk".to_string()));
}

#[test]
fn sdk_root_from_executable_needs_bin_directory() {
    let mut fs = probe(vec![dir("/sdk"), file("/sdk/bin", "/sdk/bin")]);
    let s = search(None, None, Some("/sdk/bin/myplugin"), OsFamily::Linux);
    assert_eq!(resolve_sdk_root(&s, &mut fs), Err(ResolveError::SdkNotFound));
}

#[test]
fn sdk_root_from_default_locations_in_order() {
    let mut fs = probe(vec![dir("/usr/local/cangjie"), dir("/opt/cangjie"), dir("/opt/cangjie/bin")]);
    let s = search(None, None, None, OsFamily::Linux);
    assert_eq!(resolve_sdk_root(&s, &mut fs), Ok("/opt/cangjie".to_string()));
    let mut fs = probe(vec![
        dir("/usr/local/cangjie"),
        dir("/usr/local/cangjie/bin"),
        dir("/opt/cangjie"),
        dir("/opt/cangjie/bin"),
    ]);
    assert_eq!(resolve_sdk_root(&s, &mut fs), Ok("/usr/local/cangjie".to_string()));
}

#[test]
fn sdk_root_default_locations_by_os_family() {
    let mut fs = probe(vec![dir("/opt/homebrew/opt/cangjie"), dir("/opt/homebrew/opt/cangjie/bin")]);
    let s = search(None, None, None, OsFamily::Mac);
    assert_eq!(resolve_sdk_root(&s, &mut fs), Ok("/opt/homebrew/opt/cangjie".to_string()));
    let mut fs = probe(vec![dir("C:\\Program Files\\Cangjie"), dir("C:\\Program Files\\Cangjie\\bin")]);
    let s = search(None, None, None, OsFamily::Windows);
    assert_eq!(resolve_sdk_root(&s, &mut fs), Ok("C:\\Program Files\\Cangjie".to_string()));
}

#[test]
fn sdk_root_not_found_names_the_remedies() {
    let mut fs = probe(vec![]);
    let s = search(None, None, None, OsFamily::Linux);
    let r = resolve_sdk_root(&s, &mut fs);
    assert_eq!(r, Err(ResolveError::SdkNotFound));
    let m = ResolveError::SdkNotFound.message();
    assert!(m.contains("CANGJIE_HOME"));
    assert!(m.contains("cangjie.sdkPath"));
}

#[test]
fn sdk_root_leaves_the_snapshot_unchanged_but_counts_probes() {
    let mut fs = probe(vec![dir("/cfg")]);
    let s = search(Some("/cfg"), None, None, OsFamily::Linux);
    assert_eq!(fs.probes(), 0);
    let _ = resolve_sdk_root(&s, &mut fs);
    assert_eq!(fs.probes(), 1);
    let _ = resolve_sdk_root(&s, &mut fs);
    assert_eq!(fs.probes(), 2);
}

#[test]
fn end_to_end_compiler_from_executable_location() {
    let mut fs = probe(vec![dir("/work/root"), dir("/work/root/bin"), file("/work/root/bin/cjc", "/work/root/bin/cjc")]);
    let s = search(None, None, Some("/work/root/bin/myplugin"), OsFamily::Linux);
    assert_eq!(resolve_sdk_root(&s, &mut fs), Ok("/work/root".to_string()));
    let mut ext = CangjieExtension::new();
    assert_eq!(ext.cached_tool_path("cjc"), None);
    let r = ext.cjc_binary_path(&None, &s, &mut fs);
    assert_eq!(r, Ok("/work/root/bin/cjc".to_string()));
    assert_eq!(ext.cached_tool_path("cjc"), Some("/work/root/bin/cjc".to_string()));
}

#[test]
fn resolution_is_idempotent_and_second_call_does_not_probe() {
    let mut fs = probe(vec![dir("/sdk"), dir("/sdk/bin"), file("/sdk/bin/cjc-frontend", "/real/cjc-frontend")]);
    let s = search(Some("/sdk"), None, None, OsFamily::Linux);
    let mut ext = CangjieExtension::new();
    let first = ext.cjc_frontend_binary_path(&None, &s, &mut fs);
    let after_first = fs.probes();
    assert!(after_first > 0);
    let second = ext.cjc_frontend_binary_path(&None, &s, &mut fs);
    assert_eq!(first, Ok("/real/cjc-frontend".to_string()));
    assert_eq!(first, second);
    assert_eq!(fs.probes(), after_first);
}

#[test]
fn cached_path_survives_the_tool_disappearing() {
    let s = search(Some("/sdk"), None, None, OsFamily::Linux);
    let mut ext = CangjieExtension::new();
    let mut fs = probe(vec![dir("/sdk"), dir("/sdk/bin"), file("/sdk/bin/cjc", "/sdk/bin/cjc")]);
    assert_eq!(ext.cjc_binary_path(&None, &s, &mut fs), Ok("/sdk/bin/cjc".to_string()));
    let mut empty = probe(vec![]);
    assert_eq!(ext.cjc_binary_path(&None, &s, &mut empty), Ok("/sdk/bin/cjc".to_string()));
    assert_eq!(empty.probes(), 0);
}

#[test]
fn missing_override_falls_through_to_sdk() {
    let mut fs = probe(vec![dir("/sdk"), dir("/sdk/bin"), file("/sdk/bin/cjc", "/sdk/bin/cjc")]);
    let s = search(Some("/sdk"), None, None, OsFamily::Linux);
    let mut ext = CangjieExtension::new();
    let r = ext.cjc_binary_path(&Some("/nowhere/cjc".to_string()), &s, &mut fs);
    assert_eq!(r, Ok("/sdk/bin/cjc".to_string()));
}

#[test]
fn existing_override_is_canonicalized_and_cached() {
    let mut fs = probe(vec![
        FsEntry { path: "my/cjc".to_string(), kind: EntryKind::Symlink, canonical: Some("/tools/cjc-1.0".to_string()) },
    ]);
    let s = search(None, None, None, OsFamily::Linux);
    let mut ext = CangjieExtension::new();
    let r = ext.cjc_binary_path(&Some("my/cjc".to_string()), &s, &mut fs);
    assert_eq!(r, Ok("/tools/cjc-1.0".to_string()));
    assert_eq!(ext.cached_tool_path("cjc"), Some("/tools/cjc-1.0".to_string()));
}

#[test]
fn tool_missing_from_sdk_reports_probed_path() {
    let mut fs = probe(vec![dir("C:\\sdk"), dir("C:\\sdk\\bin")]);
    let s = search(Some("C:\\sdk"), None, None, OsFamily::Windows);
    let mut ext = CangjieExtension::new();
    let r = ext.cjc_binary_path(&None, &s, &mut fs);
    let expected = ResolveError::ToolNotFound { tool: "cjc".to_string(), probed: "C:\\sdk\\bin\\cjc.exe".to_string() };
    assert_eq!(r, Err(expected));
    assert_eq!(ext.cached_tool_path("cjc"), None);
    let m = ResolveError::ToolNotFound { tool: "cjc".to_string(), probed: "/sdk/bin/cjc.exe".to_string() }.message();
    assert_eq!(m, "Tool 'cjc' not found at expected location: /sdk/bin/cjc.exe");
}

#[test]
fn directory_in_place_of_tool_is_not_a_tool() {
    let mut fs = probe(vec![dir("/sdk"), dir("/sdk/bin"), dir("/sdk/bin/cjc")]);
    let s = search(Some("/sdk"), None, None, OsFamily::Linux);
    let mut ext = CangjieExtension::new();
    let r = ext.cjc_binary_path(&None, &s, &mut fs);
    assert!(matches!(r, Err(ResolveError::ToolNotFound { .. })));
}

#[test]
fn tool_without_canonical_form_is_an_error() {
    let mut fs = probe(vec![
        dir("/sdk"),
        dir("/sdk/bin"),
        FsEntry { path: "/sdk/bin/cjc".to_string(), kind: EntryKind::File, canonical: None },
    ]);
    let s = search(Some("/sdk"), None, None, OsFamily::Linux);
    let mut ext = CangjieExtension::new();
    let r = ext.cjc_binary_path(&None, &s, &mut fs);
    assert_eq!(r, Err(ResolveError::Canonicalize { path: "/sdk/bin/cjc".to_string() }));
    assert_eq!(
        ResolveError::Canonicalize { path: "/x".to_string() }.message(),
        "Failed to canonicalize path: /x"
    );
}

#[test]
fn tool_resolution_fails_without_sdk() {
    let mut fs = probe(vec![]);
    let s = search(None, None, None, OsFamily::Linux);
    let mut ext = CangjieExtension::new();
    assert_eq!(ext.cjc_binary_path(&None, &s, &mut fs), Err(ResolveError::SdkNotFound));
}

#[test]
fn later_snapshot_entry_replaces_earlier() {
    let mut fs = probe(vec![dir("/x"), file("/x", "/x")]);
    assert!(!fs.is_dir("/x"));
    assert!(fs.is_file_or_symlink("/x"));
    assert_eq!(fs.canonicalize("/y"), None);
    assert_eq!(fs.probes(), 3);
}

#[test]
fn probe_paths_name_each_candidate_bin_directory() {
    let s = search(Some("/cfg"), None, Some("/sdk/tools/bin/x"), OsFamily::Linux);
    assert_eq!(
        sdk_probe_paths(&s),
        vec![
            "/cfg".to_string(),
            "/sdk/tools/bin".to_string(),
            "/sdk/bin".to_string(),
            "/usr/local/cangjie/bin".to_string(),
            "/opt/cangjie/bin".to_string(),
        ]
    );
}
