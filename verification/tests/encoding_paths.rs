//! Result encoding, path joining and the access scope.

use webview_bridge::fsapi::{
    base_directory_of_name, error_if_not_accessible, join_path_if_need, AllowPaths, ApiError,
    BaseDirectory,
};
use webview_bridge::ops::{encode_output, OpOutput};
use webview_bridge::strutil::{i64_to_dec, u64_to_dec};
use webview_bridge::config::{
    Incognito, InitializationScripts, InitializeFocused, IsOpenDevtools, Resizable, UseDevtools,
    Visible, WebViewBundle,
};

#[test]
fn outputs_serialize_to_exact_json() {
    assert_eq!(encode_output(&OpOutput::Null), "null");
    assert_eq!(encode_output(&OpOutput::Bool(true)), "true");
    assert_eq!(encode_output(&OpOutput::Bool(false)), "false");
    assert_eq!(
        encode_output(&OpOutput::Text("a\"b\\c\nd".to_string())),
        "\"a\\\"b\\\\c\\nd\""
    );
    assert_eq!(
        encode_output(&OpOutput::OptText(Some("fr-FR".to_string()))),
        "\"fr-FR\""
    );
    assert_eq!(encode_output(&OpOutput::OptText(None)), "null");
    assert_eq!(
        encode_output(&OpOutput::Position { x: -3, y: 10 }),
        "{\"x\":-3,\"y\":10}"
    );
    assert_eq!(
        encode_output(&OpOutput::Error("broken".to_string())),
        "{\"error\":\"broken\"}"
    );
}

#[test]
fn decimal_rendering_is_exact() {
    assert_eq!(u64_to_dec(0), "0");
    assert_eq!(u64_to_dec(7), "7");
    assert_eq!(u64_to_dec(1234), "1234");
    assert_eq!(u64_to_dec(u64::MAX), "18446744073709551615");
    assert_eq!(i64_to_dec(-5), "-5");
    assert_eq!(i64_to_dec(0), "0");
    assert_eq!(i64_to_dec(i64::MIN), "-9223372036854775808");
}

#[test]
fn paths_join_under_their_base_directory() {
    assert_eq!(
        join_path_if_need(&Some("/home/u".to_string()), "doc.txt".to_string()),
        "/home/u/doc.txt"
    );
    // An absolute argument stands alone, as it would when joined onto a
    // directory.
    assert_eq!(
        join_path_if_need(&Some("/home/u".to_string()), "/etc/x".to_string()),
        "/etc/x"
    );
    assert_eq!(join_path_if_need(&None, "doc.txt".to_string()), "doc.txt");
}

#[test]
fn base_directories_parse_from_their_names() {
    assert_eq!(base_directory_of_name("Home"), Some(BaseDirectory::Home));
    assert_eq!(
        base_directory_of_name("ConfigLocal"),
        Some(BaseDirectory::ConfigLocal)
    );
    assert_eq!(base_directory_of_name("Temp"), Some(BaseDirectory::Temp));
    assert_eq!(base_directory_of_name("Attic"), None);
    assert_eq!(base_directory_of_name("home"), None);
}

#[test]
fn scope_admits_paths_under_allowed_prefixes() {
    let mut scope = AllowPaths::new(vec!["/tmp".to_string()]);
    assert!(scope.check_accessible("/tmp"));
    assert!(scope.check_accessible("/tmp/work/a.txt"));
    assert!(!scope.check_accessible("/tmpx"));
    assert!(!scope.check_accessible("/var/tmp"));
    scope.add("/var".to_string());
    assert!(scope.check_accessible("/var/tmp"));
    scope.add_all(vec!["/opt".to_string(), "/srv".to_string()]);
    assert!(scope.check_accessible("/srv/data"));
}

#[test]
fn out_of_scope_paths_are_rejected() {
    let scope = Some(AllowPaths::default());
    match error_if_not_accessible("/tmp", &scope) {
        Err(ApiError::NotPermittedPath) => {}
        _ => panic!("an empty scope admits no path"),
    }
    assert!(error_if_not_accessible("/tmp", &None).is_ok());
    let err = webview_bridge::fsapi::prepare_fs_path(
        "secret".to_string(),
        &Some("/root".to_string()),
        &scope,
    )
    .unwrap_err();
    assert_eq!(err.message(), "not permitted path");
    let ok = webview_bridge::fsapi::prepare_fs_path(
        "notes".to_string(),
        &Some("/home/u".to_string()),
        &None,
    )
    .unwrap();
    assert_eq!(ok, "/home/u/notes");
}

#[test]
fn initialization_scripts_join_with_semicolons() {
    let mut scripts = InitializationScripts::new(vec![
        "let a = 1".to_string(),
        "let b = 2".to_string(),
    ]);
    assert_eq!(scripts.to_scripts(), "let a = 1;let b = 2");
    scripts.append("a + b".to_string());
    assert_eq!(scripts.to_scripts(), "let a = 1;let b = 2;a + b");
    let empty = InitializationScripts::default();
    assert_eq!(empty.to_scripts(), "");
}

#[test]
fn configuration_defaults_match_their_documentation() {
    assert!(Visible::default().0);
    assert!(Resizable::default().0);
    assert!(!InitializeFocused::default().0);
    assert!(!Incognito::default().0);
    assert!(!UseDevtools::default().0);
    assert!(!IsOpenDevtools::default().0);
    let bundle = WebViewBundle::default();
    assert!(bundle.visible.0);
    assert!(!bundle.incognito.0);
    assert_eq!(bundle.initialization_scripts.to_scripts(), "");
}
