use autonomix::models::{InstallType, TrackedApp};
use autonomix::time::Timestamp;
use autonomix::version::{
    has_update, is_newer_given, is_newer_version, normalize_version, without_v_prefix, Precedence,
};

fn app(installed: Option<&str>, latest: Option<&str>) -> TrackedApp {
    TrackedApp {
        id: 1,
        repo_owner: "octocat".to_string(),
        repo_name: "hello-world".to_string(),
        display_name: "Hello World".to_string(),
        installed_version: installed.map(|v| v.to_string()),
        latest_version: latest.map(|v| v.to_string()),
        install_type: Some(InstallType::Deb),
        last_checked: None,
        created_at: Timestamp { seconds: 0, nanos: 0 },
    }
}

#[test]
fn newer_and_not_newer() {
    assert!(is_newer_version("v1.2.0", "v1.1.0"));
    assert!(!is_newer_version("1.1.0", "v1.1.0"));
    assert!(!has_update("v1.1.0", "v1.1.0"));
}

#[test]
fn normalize_strips_prefix_and_folds_case() {
    assert_eq!(normalize_version("v1.2.0"), "1.2.0");
    assert_eq!(normalize_version("V1.2.0"), "1.2.0");
    assert_eq!(normalize_version("1.2.0-RC1"), "1.2.0-rc1");
    assert_eq!(normalize_version(""), "");
    assert_eq!(normalize_version("v"), "");
    assert_eq!(normalize_version("V"), "");
    assert_eq!(normalize_version("1v"), "1v");
}

#[test]
fn the_prefix_is_stripped_once() {
    assert_eq!(normalize_version("vv2.0.0"), "v2.0.0");
    assert_eq!(normalize_version("VV2.0.0"), "v2.0.0");
    assert_eq!(normalize_version("Vv1"), "v1");
    assert_eq!(normalize_version("vV1"), "v1");
    assert_eq!(normalize_version("vvV1"), "vv1");
    assert_eq!(without_v_prefix("vv2.0.0"), "v2.0.0");
    assert_eq!(without_v_prefix("Vv1"), "v1");
    assert_eq!(without_v_prefix("vV1"), "V1");
    assert_eq!(without_v_prefix("V1.0-RC"), "1.0-RC");
    assert_eq!(without_v_prefix("1.0"), "1.0");
    assert_eq!(without_v_prefix(""), "");
}

#[test]
fn build_metadata_has_no_precedence() {
    assert!(!is_newer_version("1.0.0+b2", "1.0.0+b1"));
    assert!(!is_newer_version("1.0.0+b1", "1.0.0+b2"));
    assert!(!is_newer_version("v1.0.0+build.9", "1.0.0"));
    assert!(!is_newer_version("1.0.0", "1.0.0+build.9"));
    assert!(is_newer_version("1.0.1+a", "1.0.0+z"));
    assert!(is_newer_version("1.0.0+a", "1.0.0-rc.1+z"));
    assert!(!has_update("1.0.0+b1", "1.0.0+b2"));
    assert!(!has_update("1.0.0+b2", "1.0.0+b1"));
}

#[test]
fn semantic_versions_compare_by_number() {
    assert!(is_newer_version("1.10.0", "1.9.0"));
    assert!(!is_newer_version("1.9.0", "1.10.0"));
    assert!(is_newer_version("2.0.0", "1.99.99"));
    assert!(is_newer_version("v0.0.2", "V0.0.1"));
}

#[test]
fn a_pre_release_precedes_its_release() {
    assert!(is_newer_version("1.0.0", "1.0.0-alpha"));
    assert!(!is_newer_version("1.0.0-alpha", "1.0.0"));
    assert!(is_newer_version("1.0.0-beta", "1.0.0-alpha"));
    assert!(is_newer_version("1.0.0-alpha.11", "1.0.0-alpha.2"));
}

#[test]
fn other_versions_compare_as_strings() {
    assert!(is_newer_version("2.0", "1.0"));
    assert!(is_newer_version("1.9", "1.10"));
    assert!(is_newer_version("release-b", "release-a"));
    assert!(is_newer_version("2.0", "2"));
    assert!(!is_newer_version("2", "2.0"));
    assert!(!is_newer_version("nightly", "nightly"));
    assert!(is_newer_version("1.0.0", "1.0"));
    assert!(!is_newer_version("1.0", "1.0.0"));
}

#[test]
fn the_verdict_of_semantic_versioning_decides_where_there_is_one() {
    assert!(is_newer_given(Some(Precedence::Higher), "1.9.0", "1.10.0"));
    assert!(!is_newer_given(Some(Precedence::Lower), "b", "a"));
    assert!(!is_newer_given(Some(Precedence::Same), "b", "a"));
    assert!(!is_newer_given(Some(Precedence::Same), "1.0.0+b2", "1.0.0+b1"));
    assert!(is_newer_given(None, "b", "a"));
    assert!(!is_newer_given(None, "a", "b"));
    assert!(!is_newer_given(None, "a", "a"));
    assert!(is_newer_given(None, "ab", "a"));
    assert!(!is_newer_given(None, "", ""));
    assert!(is_newer_given(None, "\u{e9}", "z"));
}

#[test]
fn cosmetic_differences_are_no_update() {
    assert!(!has_update("v1.0", "1.0"));
    assert!(!has_update("1.0", "v1.0"));
    assert!(!has_update("V1.0.0", "v1.0.0"));
    assert!(!has_update("1.0.0-RC1", "1.0.0-rc1"));
    assert!(!has_update("V1.2.3", "1.2.3"));
}

#[test]
fn no_version_is_an_update_of_itself() {
    for v in ["1.0.0", "v2", "nightly", "", "1.0.0-alpha+build"] {
        assert!(!has_update(v, v));
    }
}

#[test]
fn updates_are_reported_one_way_only() {
    assert!(has_update("v1.1.0", "v1.2.0"));
    assert!(!has_update("v1.2.0", "v1.1.0"));
    assert!(has_update("2", "2.0"));
    assert!(!has_update("2.0", "2"));
}

#[test]
fn an_app_has_an_update_only_with_both_versions_known() {
    assert!(app(Some("v1.0.0"), Some("v1.1.0")).has_update());
    assert!(!app(Some("v1.1.0"), Some("v1.1.0")).has_update());
    assert!(!app(Some("v1.1.0"), Some("v1.0.0")).has_update());
    assert!(!app(None, Some("v1.1.0")).has_update());
    assert!(!app(Some("v1.1.0"), None).has_update());
    assert!(!app(None, None).has_update());
}

#[test]
fn an_app_is_installed_when_a_version_is_recorded() {
    assert!(app(Some("v1.0.0"), None).is_installed());
    assert!(!app(None, Some("v1.0.0")).is_installed());
}

#[test]
fn repo_url_names_owner_and_repository() {
    assert_eq!(app(None, None).repo_url(), "https://github.com/octocat/hello-world");
}
