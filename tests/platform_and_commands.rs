use cangjie_zed::commands::{build_report, create_language_server_command, debug_build_task, debug_program, info_report, slash_command_kind, SlashCommandKind};
use cangjie_zed::json::string_member_of_document;
use cangjie_zed::paths::{file_name_of, join_path, parent_of, path_is_absolute};
use cangjie_zed::platform::{asset_name_for_platform, binary_name_for, CpuArch, OsFamily, PlatformError};
use cangjie_zed::sdk::ResolveError;
use cangjie_zed::CangjieExtension;

#[test]
fn asset_names_for_supported_platforms() {
    assert_eq!(
        asset_name_for_platform(OsFamily::Linux, CpuArch::X86_64, "cangjie-lsp"),
        Ok("cangjie-lsp-x86_64-unknown-linux-gnu".to_string())
    );
    assert_eq!(
        asset_name_for_platform(OsFamily::Windows, CpuArch::Aarch64, "cangjie-lsp"),
        Ok("cangjie-lsp-aarch64-pc-windows-msvc.exe".to_string())
    );
    assert_eq!(
        asset_name_for_platform(OsFamily::Mac, CpuArch::X86_64, "cangjie-lsp"),
        Ok("cangjie-lsp-x86_64-apple-darwin".to_string())
    );
}

#[test]
fn asset_names_for_unsupported_platforms() {
    assert_eq!(asset_name_for_platform(OsFamily::Linux, CpuArch::X86, "t"), Err(PlatformError::UnsupportedArchitecture));
    assert_eq!(asset_name_for_platform(OsFamily::Linux, CpuArch::Other, "t"), Err(PlatformError::UnsupportedArchitecture));
    assert_eq!(asset_name_for_platform(OsFamily::Other, CpuArch::X86_64, "t"), Err(PlatformError::UnsupportedOs));
    assert_eq!(asset_name_for_platform(OsFamily::Other, CpuArch::X86, "t"), Err(PlatformError::UnsupportedArchitecture));
    assert_eq!(PlatformError::UnsupportedArchitecture.message(), "Unsupported architecture");
}

#[test]
fn binary_names_by_os_family() {
    assert_eq!(binary_name_for(OsFamily::Windows, "cjc"), "cjc.exe");
    assert_eq!(binary_name_for(OsFamily::Linux, "cjc"), "cjc");
    assert_eq!(binary_name_for(OsFamily::Mac, "cjc"), "cjc");
    assert_eq!(binary_name_for(OsFamily::Windows, "foo"), "foo.exe");
    assert_eq!(binary_name_for(OsFamily::Other, "foo"), "foo");
}

#[test]
fn update_check_is_throttled_for_an_hour() {
    let mut ext = CangjieExtension::new();
    let info = r#"{"tag_name": "v0.1.0"}"#;
    assert!(ext.should_check_updates(1_000_000));
    let first = ext.handle_check_updates_command(1_000_000, info).unwrap();
    assert_eq!(first.text, "Latest Cangjie LSP release: **v0.1.0**");
    assert_eq!(first.label, "Update Info");
    assert!(!ext.should_check_updates(1_000_000 + 3599));
    let held = ext.handle_check_updates_command(1_000_000 + 3599, info).unwrap();
    assert_eq!(held.text, "Update check performed recently. Skipping...");
    assert_eq!(held.label, "Status");
    assert!(ext.should_check_updates(1_000_000 + 3601));
    let again = ext.handle_check_updates_command(1_000_000 + 3601, info).unwrap();
    assert_eq!(again.label, "Update Info");
}

#[test]
fn update_check_failures_record_nothing() {
    let mut ext = CangjieExtension::new();
    let r = ext.handle_check_updates_command(50, r#"{"name": "x"}"#);
    assert_eq!(r, Err("Could not find 'tag_name' in release info.".to_string()));
    let r = ext.handle_check_updates_command(60, "not json");
    assert!(r.unwrap_err().starts_with("Failed to parse release info: "));
    assert!(ext.should_check_updates(61));
    let r = ext.finish_update_check(70, Ok(Some("v2".to_string()))).unwrap();
    assert_eq!(r.text, "Latest Cangjie LSP release: **v2**");
    assert!(!ext.should_check_updates(71));
}

#[test]
fn json_string_members() {
    assert_eq!(string_member_of_document(r#"{"tag_name": "v1", "n": 3}"#, "tag_name"), Ok(Some("v1".to_string())));
    assert_eq!(string_member_of_document(r#"{"tag_name": "v1", "n": 3}"#, "n"), Ok(None));
    assert!(string_member_of_document("{", "n").is_err());
    assert_eq!(string_member_of_document("[1, 2]", "n"), Ok(None));
    let v: serde_json::Value = serde_json::from_str(r#"{"cangjie.sdkPath": "/sdk"}"#).unwrap();
    assert_eq!(string_member_of_document(&v.to_string(), "cangjie.sdkPath"), Ok(Some("/sdk".to_string())));
    assert_eq!(string_member_of_document(&v.to_string(), "other"), Ok(None));
}

#[test]
fn language_server_command_defaults_to_stdio() {
    let c = create_language_server_command("/lsp".to_string(), None);
    assert_eq!(c.command, "/lsp");
    assert_eq!(c.args, vec!["--stdio".to_string()]);
    let c = create_language_server_command(
        "/opt/lsp/cangjie-lsp".to_string(),
        Some(vec!["--log".to_string(), "debug".to_string()]),
    );
    assert_eq!(c.command, "/opt/lsp/cangjie-lsp");
    assert_eq!(c.args, vec!["--log".to_string(), "debug".to_string()]);
}

#[test]
fn build_report_texts() {
    let r = build_report(true, "", "");
    assert_eq!(r.text, "✅ Build succeeded!\n\n");
    assert_eq!(r.label, "Build Result");
    let r = build_report(false, "out", "err");
    assert_eq!(r.text, "❌ Build failed!\n\nStandard Output:\nout\nStandard Error:\nerr\n");
    let r = build_report(true, "", "warn");
    assert_eq!(r.text, "✅ Build succeeded!\n\nStandard Error:\nwarn\n");
}

#[test]
fn slash_commands_by_name() {
    assert_eq!(slash_command_kind("cangjie-info"), Ok(SlashCommandKind::Info));
    assert_eq!(slash_command_kind("cangjie-build"), Ok(SlashCommandKind::Build));
    assert_eq!(slash_command_kind("cangjie-check-updates"), Ok(SlashCommandKind::CheckUpdates));
    assert_eq!(slash_command_kind("other"), Err("Unhandled slash command: other".to_string()));
}

#[test]
fn info_report_lists_paths_and_errors() {
    let r = info_report(&Ok("/sdk".to_string()), &Ok("/sdk/bin/cjc".to_string()), &Ok("/sdk/bin/cjc-frontend".to_string()));
    assert_eq!(
        r.text,
        "**Cangjie Extension Information:**\n\nSDK Root: `/sdk`\ncjc Path: `/sdk/bin/cjc`\ncjc-frontend Path: `/sdk/bin/cjc-frontend`"
    );
    assert_eq!(r.label, "Info");
    let r = info_report(
        &Err(ResolveError::SdkNotFound),
        &Err(ResolveError::ToolNotFound { tool: "cjc".to_string(), probed: "/p".to_string() }),
        &Ok("/f".to_string()),
    );
    let expected = format!(
        "**Cangjie Extension Information:**\n\nSDK Root: *Error finding SDK:* {}\ncjc Path: *Error:* Tool 'cjc' not found at expected location: /p\ncjc-frontend Path: `/f`",
        ResolveError::SdkNotFound.message()
    );
    assert_eq!(r.text, expected);
}

#[test]
fn debug_build_task_for_build_run() {
    let args = vec!["build".to_string(), "run".to_string(), "--x".to_string()];
    let t = debug_build_task("cjc", &args, "Run app").unwrap();
    assert_eq!(t.label, "Run app (build)");
    assert_eq!(t.command, "cjc");
    assert_eq!(t.args, vec!["build".to_string()]);
    assert_eq!(debug_build_task("cargo", &args, "x"), None);
    assert_eq!(debug_build_task("cjc", &vec!["build".to_string()], "x"), None);
    assert_eq!(debug_build_task("cjc", &vec!["run".to_string(), "build".to_string()], "x"), None);
}

#[test]
fn debug_program_paths() {
    let build = vec!["build".to_string()];
    let linux = OsFamily::Linux;
    assert_eq!(debug_program(&build, &Some("/work/demo".to_string()), linux), Ok("target/debug/demo".to_string()));
    assert_eq!(debug_program(&build, &Some("/work/demo/".to_string()), linux), Ok("target/debug/demo".to_string()));
    assert_eq!(debug_program(&build, &None, linux), Err("Failed to get project name".to_string()));
    assert_eq!(debug_program(&build, &Some("/".to_string()), linux), Err("Failed to get project name".to_string()));
    assert_eq!(
        debug_program(&vec!["test".to_string()], &Some("/w".to_string()), linux),
        Err("Unsupported build task for debugging".to_string())
    );
    assert_eq!(debug_program(&vec![], &None, linux), Err("Unsupported build task for debugging".to_string()));
}

#[test]
fn path_operations_on_unix() {
    let os = OsFamily::Linux;
    assert_eq!(join_path(os, "/a", "b"), "/a/b");
    assert_eq!(join_path(os, "/a/", "b"), "/a/b");
    assert_eq!(join_path(os, "", "b"), "b");
    assert_eq!(parent_of(os, "/a/b/c"), Some("/a/b".to_string()));
    assert_eq!(parent_of(os, "/a/b/"), Some("/a".to_string()));
    assert_eq!(parent_of(os, "/a//b"), Some("/a".to_string()));
    assert_eq!(parent_of(os, "/a"), Some("/".to_string()));
    assert_eq!(parent_of(os, "/"), None);
    assert_eq!(parent_of(os, ""), None);
    assert_eq!(parent_of(os, "a"), Some("".to_string()));
    assert_eq!(parent_of(os, "a\\b"), Some("".to_string()));
    assert_eq!(file_name_of(os, "/a/b/c"), Some("c".to_string()));
    assert_eq!(file_name_of(os, "/a/b/"), Some("b".to_string()));
    assert_eq!(file_name_of(os, "/a/b/."), Some("b".to_string()));
    assert_eq!(file_name_of(os, "/a/.."), None);
    assert_eq!(file_name_of(os, "/"), None);
    assert_eq!(file_name_of(os, "c"), Some("c".to_string()));
    assert!(path_is_absolute(os, "/opt"));
    assert!(!path_is_absolute(os, "C:\\Cangjie"));
    assert!(!path_is_absolute(os, "\\opt"));
    assert!(!path_is_absolute(os, "opt/cangjie"));
}

#[test]
fn path_operations_on_windows() {
    let os = OsFamily::Windows;
    assert_eq!(join_path(os, "C:\\sdk", "bin"), "C:\\sdk\\bin");
    assert_eq!(join_path(os, "C:/sdk/", "bin"), "C:/sdk/bin");
    assert_eq!(parent_of(os, "C:\\sdk\\bin\\x.exe"), Some("C:\\sdk\\bin".to_string()));
    assert_eq!(parent_of(os, "C:\\sdk"), Some("C:\\".to_string()));
    assert_eq!(parent_of(os, "C:\\"), None);
    assert_eq!(file_name_of(os, "C:\\sdk\\bin\\"), Some("bin".to_string()));
    assert_eq!(file_name_of(os, "C:\\"), None);
    assert!(path_is_absolute(os, "C:\\Cangjie"));
    assert!(path_is_absolute(os, "\\\\server\\share"));
    assert!(!path_is_absolute(os, "\\Cangjie"));
    assert!(!path_is_absolute(os, "C:Cangjie"));
    assert!(!path_is_absolute(os, "/opt"));
}
