use toniator_app::pattern_management::{
    PatternSaveAction, PatternSaveConflict, PresetOrigin, captured_target_is_current,
    name_is_available, normalized_name_is_available, save_actions_for_origin,
};

#[test]
fn save_actions_follow_captured_origin() {
    assert_eq!(
        save_actions_for_origin(Some(PresetOrigin::BuiltIn)),
        &[PatternSaveAction::AsNew]
    );
    assert_eq!(save_actions_for_origin(None), &[PatternSaveAction::AsNew]);
    assert_eq!(
        save_actions_for_origin(Some(PresetOrigin::Personal)),
        &[PatternSaveAction::Changes, PatternSaveAction::Copy,]
    );
}

#[test]
fn names_are_case_insensitively_unique_with_stable_id_exception() {
    let names = [
        ("builtin-grid", "Straight Grid Circles"),
        ("user-one", "My Pattern"),
    ];
    assert!(!name_is_available(&names, "straight grid circles", None));
    assert!(!name_is_available(&names, "MY PATTERN", None));
    assert!(name_is_available(&names, "my pattern", Some("user-one")));
    assert!(name_is_available(&names, "Another Pattern", None));
}

#[test]
fn captured_target_rejects_root_or_fingerprint_changes() {
    let root = "/tmp/toniator-library".as_bytes();
    let other = "/tmp/toniator-other-library".as_bytes();
    assert_eq!(
        captured_target_is_current(Some(root), Some(other), Some("first"), Some("first")),
        Err(PatternSaveConflict::RootChanged)
    );
    assert_eq!(
        captured_target_is_current(Some(root), Some(root), Some("first"), Some("second")),
        Err(PatternSaveConflict::FingerprintChanged)
    );
    assert_eq!(
        captured_target_is_current(Some(root), Some(root), Some("first"), Some("first")),
        Ok(())
    );
}

#[test]
fn names_compare_by_unicode_lowercase_not_ascii_only() {
    let names = [("user-one", "Ärger Muster")];
    assert!(!name_is_available(&names, "ärger muster", None));
    assert!(name_is_available(&names, "ÄRGER MUSTER", Some("user-one")));
    assert!(name_is_available(&[], "anything", None));
}

#[test]
fn normalized_names_are_compared_exactly() {
    let entries = [("a", "my pattern".to_owned())];
    assert!(!normalized_name_is_available(&entries, "my pattern", None));
    assert!(normalized_name_is_available(&entries, "My Pattern", None));
    assert!(normalized_name_is_available(&entries, "my pattern", Some("a")));
    assert!(!normalized_name_is_available(&entries, "my pattern", Some("b")));
}

#[test]
fn absent_roots_and_fingerprints_must_match_too() {
    assert_eq!(captured_target_is_current(None, None, None, None), Ok(()));
    assert_eq!(
        captured_target_is_current(None, Some("/r".as_bytes()), None, None),
        Err(PatternSaveConflict::RootChanged)
    );
    assert_eq!(
        captured_target_is_current(Some("/r".as_bytes()), Some("/r".as_bytes()), None, Some("x")),
        Err(PatternSaveConflict::FingerprintChanged)
    );
}

#[test]
fn roots_compare_by_path_components() {
    let same = |a: &str, b: &str| {
        captured_target_is_current(Some(a.as_bytes()), Some(b.as_bytes()), None, None) == Ok(())
    };
    for (a, b) in [
        ("/lib/", "/lib"),
        ("/lib//personal", "/lib/personal"),
        ("/lib/./personal", "/lib/personal"),
        ("//lib", "/lib"),
        ("./lib", "./lib/"),
        ("lib/.", "lib"),
    ] {
        assert!(same(a, b), "{a} and {b}");
        assert_eq!(std::path::Path::new(a) == std::path::Path::new(b), true);
    }
    for (a, b) in [
        ("/lib", "lib"),
        ("./lib", "lib"),
        ("/lib/..", "/"),
        ("/lib/a", "/lib/b"),
        (".", ""),
        ("/lib/personal", "/lib"),
    ] {
        assert!(!same(a, b), "{a} and {b}");
        assert_eq!(std::path::Path::new(a) == std::path::Path::new(b), false);
    }
    assert_eq!(
        captured_target_is_current(None, Some("/lib".as_bytes()), None, None),
        Err(PatternSaveConflict::RootChanged)
    );
    assert_eq!(captured_target_is_current(None, None, Some("a"), Some("a")), Ok(()));
}
