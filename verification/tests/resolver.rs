use autonomix::github_api::GitHubApi;
use autonomix::models::{InstallType, ReleaseAsset};
use autonomix::resolver::{
    available_packages, candidate_for, candidates_for, find_first, plan_install,
    plan_install_of_type, priority_order, select, Candidate, ResolveError, Wanted,
};

fn asset(name: &str) -> ReleaseAsset {
    ReleaseAsset {
        name: name.to_string(),
        browser_download_url: format!("https://example.com/dl/{}", name),
        content_type: "application/octet-stream".to_string(),
        size: name.len() as u64,
    }
}

fn assets(names: &[&str]) -> Vec<ReleaseAsset> {
    names.iter().map(|n| asset(n)).collect()
}

fn best(names: &[&str], preferred: Option<InstallType>) -> Option<String> {
    let list = assets(names);
    GitHubApi::new().find_best_asset(&list, preferred, "x86_64").map(|a| a.name.clone())
}

fn candidate(compatible: bool, format: Option<InstallType>) -> Candidate {
    Candidate { compatible, format }
}

#[test]
fn priority_order_prefers_deb() {
    assert_eq!(best(&["app.rpm", "app.deb", "app.AppImage"], None), Some("app.deb".to_string()));
}

#[test]
fn a_missed_preference_falls_through_to_priority() {
    assert_eq!(best(&["app.rpm"], Some(InstallType::Deb)), Some("app.rpm".to_string()));
}

#[test]
fn no_compatible_asset_selects_nothing() {
    assert_eq!(best(&[], None), None);
    assert_eq!(best(&["app-windows-x64.zip", "app.dmg", "app.exe"], None), None);
    assert_eq!(best(&["app_arm64.deb", "app-aarch64.rpm"], None), None);
    assert_eq!(best(&["app.zip", "README.md"], Some(InstallType::Deb)), None);
}

#[test]
fn a_windows_asset_is_never_a_candidate() {
    assert_eq!(best(&["app-windows-x64.zip"], None), None);
    assert_eq!(best(&["app-windows-x64.tar.gz", "app-linux-x64.tar.gz"], None),
        Some("app-linux-x64.tar.gz".to_string()));
    assert_eq!(best(&["app-windows.deb", "app.rpm"], Some(InstallType::Deb)),
        Some("app.rpm".to_string()));
}

#[test]
fn the_preferred_format_is_sticky() {
    let names = ["app.deb", "app.rpm", "app.AppImage", "app.snap"];
    assert_eq!(best(&names, Some(InstallType::Rpm)), Some("app.rpm".to_string()));
    assert_eq!(best(&names, Some(InstallType::AppImage)), Some("app.AppImage".to_string()));
    assert_eq!(best(&names, Some(InstallType::Snap)), Some("app.snap".to_string()));
    assert_eq!(best(&names, Some(InstallType::Flatpak)), Some("app.deb".to_string()));
}

#[test]
fn the_whole_priority_order_is_walked() {
    let mut names = vec![
        "app.tar.gz",
        "app-linux",
        "app.snap",
        "app.flatpak",
        "app.appimage",
        "app.rpm",
        "app.deb",
    ];
    let expected = [
        "app.deb",
        "app.rpm",
        "app.appimage",
        "app.flatpak",
        "app.snap",
        "app-linux",
        "app.tar.gz",
    ];
    for want in expected {
        assert_eq!(best(&names, None), Some(want.to_string()));
        names.retain(|n| *n != want);
    }
    assert_eq!(best(&names, None), None);
}

#[test]
fn among_equals_the_first_in_the_list_wins() {
    assert_eq!(best(&["b_amd64.deb", "a_amd64.deb"], None), Some("b_amd64.deb".to_string()));
    assert_eq!(
        best(&["a_arm64.deb", "b_amd64.deb", "c_amd64.deb"], Some(InstallType::Deb)),
        Some("b_amd64.deb".to_string())
    );
}

#[test]
fn without_any_format_the_first_compatible_asset_is_taken() {
    assert_eq!(
        best(&["app.exe", "app-linux.zip", "app-linux.7z"], None),
        Some("app-linux.zip".to_string())
    );
}

#[test]
fn selection_works_on_candidates_alone() {
    let rpm = candidate(true, Some(InstallType::Rpm));
    let deb = candidate(true, Some(InstallType::Deb));
    let hidden_deb = candidate(false, Some(InstallType::Deb));
    let plain = candidate(true, None);
    assert_eq!(select(&vec![rpm, deb], None), Some(1));
    assert_eq!(select(&vec![rpm, hidden_deb], None), Some(0));
    assert_eq!(select(&vec![rpm, hidden_deb], Some(InstallType::Deb)), Some(0));
    assert_eq!(select(&vec![rpm, deb], Some(InstallType::Rpm)), Some(0));
    assert_eq!(select(&vec![plain, rpm], None), Some(1));
    assert_eq!(select(&vec![hidden_deb, plain], None), Some(1));
    assert_eq!(select(&vec![hidden_deb], None), None);
    assert_eq!(select(&vec![], Some(InstallType::Deb)), None);
}

#[test]
fn find_first_keeps_to_what_is_wanted() {
    let list = vec![
        candidate(false, Some(InstallType::Deb)),
        candidate(true, None),
        candidate(true, Some(InstallType::Deb)),
    ];
    assert_eq!(find_first(&list, Wanted::Any), Some(1));
    assert_eq!(find_first(&list, Wanted::Format(Some(InstallType::Deb))), Some(2));
    assert_eq!(find_first(&list, Wanted::Format(None)), Some(1));
    assert_eq!(find_first(&list, Wanted::Format(Some(InstallType::Rpm))), None);
}

#[test]
fn the_priority_order_is_fixed() {
    assert_eq!(
        priority_order(),
        [
            InstallType::Deb,
            InstallType::Rpm,
            InstallType::AppImage,
            InstallType::Flatpak,
            InstallType::Snap,
            InstallType::Binary,
            InstallType::Source,
        ]
    );
}

#[test]
fn candidates_describe_their_assets() {
    assert_eq!(
        candidate_for(&asset("App_1.0_AMD64.deb"), "x86_64"),
        candidate(true, Some(InstallType::Deb))
    );
    assert_eq!(
        candidate_for(&asset("app_1.0_arm64.deb"), "x86_64"),
        candidate(false, Some(InstallType::Deb))
    );
    assert_eq!(candidate_for(&asset("app-linux.zip"), "x86_64"), candidate(true, None));
    assert_eq!(candidate_for(&asset("app.exe"), "x86_64"), candidate(false, None));
    let list = assets(&["app.deb", "app.exe"]);
    assert_eq!(
        candidates_for(&list, "x86_64"),
        vec![candidate(true, Some(InstallType::Deb)), candidate(false, None)]
    );
}

#[test]
fn a_plan_names_asset_format_and_destination() {
    let list = assets(&["app.rpm", "app_amd64.deb"]);
    let plan = plan_install(&list, None, "x86_64", "/data/autonomix/downloads").unwrap();
    assert_eq!(plan.asset.name, "app_amd64.deb");
    assert_eq!(plan.install_type, InstallType::Deb);
    assert_eq!(plan.dest, "/data/autonomix/downloads/app_amd64.deb");
}

#[test]
fn a_plan_fails_without_a_compatible_asset() {
    let list = assets(&["app.exe", "app_arm64.deb"]);
    let err = plan_install(&list, None, "x86_64", "/d").unwrap_err();
    assert_eq!(err, ResolveError::NoCompatibleAsset);
    assert_eq!(err.describe(), "No compatible package found");
}

#[test]
fn a_plan_fails_on_an_asset_without_format() {
    let list = assets(&["app-linux.zip"]);
    let err = plan_install(&list, Some(InstallType::Deb), "x86_64", "/d").unwrap_err();
    assert_eq!(err, ResolveError::UnrecognizedFormat);
    assert_eq!(err.describe(), "Unknown package type");
}

#[test]
fn a_requested_format_is_planned_or_nothing_is() {
    let list = assets(&["app-linux.zip", "app.deb", "app_amd64.rpm", "b.rpm"]);
    let plan = plan_install_of_type(&list, Some(InstallType::Rpm), "x86_64", "/d").unwrap();
    assert_eq!(plan.asset.name, "app_amd64.rpm");
    assert_eq!(plan.install_type, InstallType::Rpm);
    assert_eq!(plan.dest, "/d/app_amd64.rpm");
    assert!(plan_install_of_type(&list, Some(InstallType::Snap), "x86_64", "/d").is_none());
    assert!(plan_install_of_type(&list, None, "x86_64", "/d").is_none());
    assert!(plan_install_of_type(&list, Some(InstallType::Rpm), "aarch64", "/d").is_some());
}

#[test]
fn the_packages_of_a_release_are_its_recognized_compatible_assets() {
    let list = assets(&["app.exe", "app_amd64.deb", "app-linux.zip", "app_arm64.rpm", "App.AppImage"]);
    let packages = available_packages(&list, "x86_64");
    assert_eq!(packages.len(), 2);
    assert_eq!(packages[0].install_type, InstallType::Deb);
    assert_eq!(packages[0].filename, "app_amd64.deb");
    assert_eq!(packages[0].size, 13);
    assert_eq!(packages[0].url, "https://example.com/dl/app_amd64.deb");
    assert_eq!(packages[1].install_type, InstallType::AppImage);
    assert_eq!(packages[1].filename, "App.AppImage");
    assert!(available_packages(&[], "x86_64").is_empty());
}
