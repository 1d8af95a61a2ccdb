use gdnative_core::diagnostics::{
    check_godot_version_mismatch, godot_version, godot_version_mismatch, missing_manual_registration,
    missing_suggested_diagnostics, sanitize_chars, sanitize_for_semver, unregistered_warning,
    DiagnosticsState, EngineVersionInfo, RegistrationSupport, VersionCheck,
};

fn info(major: u64, minor: u64, patch: u64, status: &str) -> EngineVersionInfo {
    EngineVersionInfo {
        major: Some(major),
        minor: Some(minor),
        patch: Some(patch),
        status: Some(String::from(status)),
        build: Some(String::from("official")),
        hash: Some(String::from("f7f1ab95f")),
    }
}

const NOTE: &str = "gdnative-core: GDNative version mismatches may lead to subtle bugs, undefined behavior or crashes at runtime.\nApply the 'custom-godot' feature if you want to use current godot-rust with another Godot engine version.";

#[test]
fn sanitize_keeps_alphanumerics() {
    assert_eq!(sanitize_for_semver('a'), 'a');
    assert_eq!(sanitize_for_semver('Z'), 'Z');
    assert_eq!(sanitize_for_semver('7'), '7');
    assert_eq!(sanitize_for_semver('.'), '-');
    assert_eq!(sanitize_for_semver('é'), '-');
    let once = sanitize_chars(&['r', 'c', ' ', '1', '_']);
    assert_eq!(once, vec!['r', 'c', '-', '1', '-']);
    assert_eq!(sanitize_chars(once.as_slice()), once);
}

#[test]
fn version_assembled_from_engine_report() {
    let v = godot_version(&info(3, 5, 1, "stable")).unwrap();
    assert_eq!(v.to_string(), "3.5.1+official.f7f1ab95f");
    let rc = godot_version(&info(3, 5, 2, "rc 1")).unwrap();
    assert_eq!(rc.to_string(), "3.5.2-rc-1+official.f7f1ab95f");
    let mut partial = info(3, 5, 1, "stable");
    partial.patch = None;
    assert!(godot_version(&partial).is_none());
}

#[test]
fn supported_versions_pass() {
    let mut warnings: Vec<String> = Vec::new();
    assert!(godot_version_mismatch(Some(&info(3, 5, 1, "stable")), false, &mut warnings));
    assert!(godot_version_mismatch(Some(&info(3, 5, 3, "stable")), false, &mut warnings));
    assert!(warnings.is_empty());
    assert!(matches!(check_godot_version_mismatch(Some(&info(3, 5, 2, "stable")), false), VersionCheck::Compatible));
}

#[test]
fn unsupported_versions_warn() {
    let mut warnings: Vec<String> = Vec::new();
    assert!(!godot_version_mismatch(Some(&info(3, 5, 0, "stable")), false, &mut warnings));
    assert_eq!(
        warnings,
        vec![
            String::from("This godot-rust version is only compatible with Godot `~3.5.1`; detected version `3.5.0+official.f7f1ab95f`."),
            String::from(NOTE),
        ]
    );
    assert!(!godot_version_mismatch(Some(&info(3, 6, 0, "stable")), false, &mut Vec::new()));
    assert!(!godot_version_mismatch(Some(&info(4, 0, 0, "stable")), false, &mut Vec::new()));
    let mut pre = Vec::new();
    assert!(!godot_version_mismatch(Some(&info(3, 5, 2, "rc1")), false, &mut pre));
    assert_eq!(pre[0], "This godot-rust version is only compatible with Godot `~3.5.1`; detected version `3.5.2-rc1+official.f7f1ab95f`.");
    match check_godot_version_mismatch(Some(&info(3, 4, 9, "stable")), false) {
        VersionCheck::Incompatible(v) => assert_eq!(v.to_string(), "3.4.9+official.f7f1ab95f"),
        _ => panic!("expected an incompatible version"),
    }
}

#[test]
fn missing_version_info_warns() {
    let mut warnings: Vec<String> = Vec::new();
    assert!(!godot_version_mismatch(None, false, &mut warnings));
    assert_eq!(
        warnings,
        vec![String::from("gdnative-core: failed to get version info from the engine."), String::from(NOTE)]
    );
    assert!(matches!(check_godot_version_mismatch(None, false), VersionCheck::Unavailable));
}

#[test]
fn manual_registration_check() {
    let support = RegistrationSupport { inventory: true, platform_available: true, debug_assertions: true };
    let mut state = DiagnosticsState::new();
    assert!(!state.is_checked());
    let mut warnings: Vec<String> = Vec::new();
    assert!(missing_manual_registration(&mut state, &support, &[], &mut warnings));
    assert!(state.is_checked());
    assert!(warnings.is_empty());
    let names = vec![String::from("Foo"), String::from("Bar")];
    assert!(!missing_manual_registration(&mut state, &support, &names, &mut warnings));
    assert_eq!(warnings.len(), 2);
    assert_eq!(warnings[0], "gdnative-core: 2 NativeScript(s) are not manually registered: Foo, Bar");
    assert_eq!(
        warnings[1],
        "gdnative-core: Types that are not manually registered will not be available on platforms where automatic registration is unavailable."
    );
    let unavailable = RegistrationSupport { inventory: true, platform_available: false, debug_assertions: true };
    assert!(missing_manual_registration(&mut state, &unavailable, &names, &mut Vec::new()));
    assert_eq!(unregistered_warning(&[String::from("Only")]), "gdnative-core: 1 NativeScript(s) are not manually registered: Only");
}

#[test]
fn suggested_diagnostics_check() {
    let unavailable = RegistrationSupport { inventory: true, platform_available: false, debug_assertions: true };
    let mut state = DiagnosticsState::new();
    let mut warnings: Vec<String> = Vec::new();
    assert!(!missing_suggested_diagnostics(&state, &unavailable, &mut warnings));
    assert_eq!(warnings.len(), 1);
    assert!(warnings[0].starts_with("gdnative-core: `gdnative` was compiled with the `inventory` feature"));
    assert!(warnings[0].contains("\nCall `gdnative::init::diagnostics::missing_manual_registration()`"));
    missing_manual_registration(&mut state, &unavailable, &[], &mut Vec::new());
    assert!(missing_suggested_diagnostics(&state, &unavailable, &mut warnings));
    let release = RegistrationSupport { inventory: true, platform_available: false, debug_assertions: false };
    assert!(missing_suggested_diagnostics(&DiagnosticsState::new(), &release, &mut Vec::new()));
    let available = RegistrationSupport { inventory: true, platform_available: true, debug_assertions: true };
    assert!(missing_suggested_diagnostics(&DiagnosticsState::new(), &available, &mut Vec::new()));
    assert_eq!(warnings.len(), 1);
}

#[test]
fn custom_engine_skips_version_check() {
    let mut warnings: Vec<String> = Vec::new();
    assert!(godot_version_mismatch(Some(&info(4, 0, 0, "stable")), true, &mut warnings));
    assert!(godot_version_mismatch(None, true, &mut warnings));
    assert!(warnings.is_empty());
    assert!(matches!(check_godot_version_mismatch(None, true), VersionCheck::Compatible));
}

#[test]
fn missing_number_is_unavailable_whatever_the_status() {
    let mut report = info(3, 5, 1, "01");
    report.major = None;
    assert!(godot_version(&report).is_none());
    let mut warnings: Vec<String> = Vec::new();
    assert!(!godot_version_mismatch(Some(&report), false, &mut warnings));
    assert_eq!(warnings[0], "gdnative-core: failed to get version info from the engine.");
    assert_eq!(warnings.len(), 2);
}
