use autonomix::classify::{format_of_name, fragments_for, is_arch_name, is_linux_name};
use autonomix::models::{InstallType, ReleaseAsset};

fn asset(name: &str) -> ReleaseAsset {
    ReleaseAsset {
        name: name.to_string(),
        browser_download_url: format!("https://example.com/{}", name),
        content_type: "application/octet-stream".to_string(),
        size: 42,
    }
}

#[test]
fn a_debian_package_is_recognized() {
    let a = asset("app_1.0.0_amd64.deb");
    assert_eq!(a.detect_install_type(), Some(InstallType::Deb));
    assert!(a.is_linux());
}

#[test]
fn a_windows_archive_is_not_for_linux() {
    let a = asset("app-windows-x64.zip");
    assert!(!a.is_linux());
    assert_eq!(a.detect_install_type(), None);
}

#[test]
fn every_suffix_has_its_format() {
    assert_eq!(format_of_name("a.deb"), Some(InstallType::Deb));
    assert_eq!(format_of_name("a.rpm"), Some(InstallType::Rpm));
    assert_eq!(format_of_name("a.appimage"), Some(InstallType::AppImage));
    assert_eq!(format_of_name("a.flatpak"), Some(InstallType::Flatpak));
    assert_eq!(format_of_name("a.flatpakref"), Some(InstallType::Flatpak));
    assert_eq!(format_of_name("a.snap"), Some(InstallType::Snap));
    assert_eq!(format_of_name("a.tar.gz"), Some(InstallType::Source));
    assert_eq!(format_of_name("a.tar.xz"), Some(InstallType::Source));
    assert_eq!(format_of_name("a.tar.bz2"), Some(InstallType::Source));
    assert_eq!(format_of_name("a.bin"), Some(InstallType::Binary));
    assert_eq!(format_of_name("app-linux-amd64"), Some(InstallType::Binary));
    assert_eq!(format_of_name(""), Some(InstallType::Binary));
    assert_eq!(format_of_name("a.zip"), None);
    assert_eq!(format_of_name("a.exe"), None);
    assert_eq!(format_of_name("a.tar"), None);
    assert_eq!(format_of_name("deb"), Some(InstallType::Binary));
    assert_eq!(format_of_name("a.deb.sig"), None);
    assert_eq!(format_of_name(".deb"), Some(InstallType::Deb));
}

#[test]
fn the_case_of_a_name_does_not_matter() {
    assert_eq!(asset("App.AppImage").detect_install_type(), Some(InstallType::AppImage));
    assert_eq!(asset("APP.DEB").detect_install_type(), Some(InstallType::Deb));
    assert!(asset("App-Linux-X86_64.TAR.GZ").is_linux());
    assert!(!asset("App-Windows.tar.gz").is_linux());
    assert!(asset("APP-AMD64").matches_architecture("x86_64"));
    assert!(!asset("APP-ARM64").matches_architecture("x86_64"));
}

#[test]
fn other_systems_are_excluded_first() {
    assert!(!is_linux_name("app-windows.deb"));
    assert!(!is_linux_name("app-linux.exe"));
    assert!(!is_linux_name("app.msi"));
    assert!(!is_linux_name("app-macos.tar.gz"));
    assert!(!is_linux_name("app-darwin-linux"));
    assert!(!is_linux_name("app.dmg"));
    assert!(!is_linux_name("app.exe.tar.gz"));
}

#[test]
fn linux_names_are_accepted() {
    assert!(is_linux_name("app.deb"));
    assert!(is_linux_name("app.rpm"));
    assert!(is_linux_name("app.appimage"));
    assert!(is_linux_name("app.snap"));
    assert!(is_linux_name("app.flatpak"));
    assert!(is_linux_name("app-linux-x64.zip"));
    assert!(is_linux_name("app.tar.gz"));
    assert!(is_linux_name("app.tar.xz"));
    assert!(is_linux_name("app.tar.bz2"));
    assert!(!is_linux_name("app.zip"));
    assert!(!is_linux_name("app"));
    assert!(!is_linux_name(""));
    assert!(!is_linux_name("app.flatpakref"));
}

#[test]
fn a_name_without_architecture_suits_every_host() {
    assert!(is_arch_name("app.deb", "x86_64"));
    assert!(is_arch_name("app.deb", "aarch64"));
    assert!(is_arch_name("app-linux64.tar.gz", "aarch64"));
    assert!(is_arch_name("app-x64.deb", "aarch64"));
    assert!(is_arch_name("", "riscv64"));
}

#[test]
fn a_named_architecture_has_to_be_the_hosts() {
    assert!(is_arch_name("app_amd64.deb", "x86_64"));
    assert!(is_arch_name("app-x86_64.rpm", "x86_64"));
    assert!(!is_arch_name("app_arm64.deb", "x86_64"));
    assert!(!is_arch_name("app_aarch64.deb", "x86_64"));
    assert!(!is_arch_name("app_i386.deb", "x86_64"));
    assert!(is_arch_name("app_arm64.deb", "aarch64"));
    assert!(is_arch_name("app_aarch64.deb", "aarch64"));
    assert!(!is_arch_name("app_amd64.deb", "aarch64"));
    assert!(!is_arch_name("app_armhf.deb", "aarch64"));
    assert!(is_arch_name("app_i386.deb", "x86"));
    assert!(is_arch_name("app_i686.deb", "x86"));
    assert!(is_arch_name("app-x86_64.deb", "x86"));
    assert!(!is_arch_name("app_amd64.deb", "x86"));
    assert!(is_arch_name("app-x64-arm.deb", "x86_64"));
}

#[test]
fn an_unlisted_architecture_is_looked_for_by_name() {
    assert!(is_arch_name("app-armv7.deb", "armv7"));
    assert!(!is_arch_name("app-arm64.deb", "armv7"));
    assert!(!is_arch_name("app-amd64.deb", "riscv64"));
}

#[test]
fn each_architecture_has_its_fragments() {
    let text = |parts: Vec<Vec<char>>| -> Vec<String> {
        parts.into_iter().map(|p| p.into_iter().collect()).collect()
    };
    assert_eq!(text(fragments_for("x86_64")), vec!["x86_64", "amd64", "x64", "linux64"]);
    assert_eq!(text(fragments_for("aarch64")), vec!["aarch64", "arm64"]);
    assert_eq!(text(fragments_for("x86")), vec!["i386", "i686", "x86", "linux32"]);
    assert_eq!(text(fragments_for("s390x")), vec!["s390x"]);
}

#[test]
fn every_format_round_trips_through_its_tag() {
    let all = [
        InstallType::Deb,
        InstallType::Rpm,
        InstallType::AppImage,
        InstallType::Flatpak,
        InstallType::Snap,
        InstallType::Binary,
        InstallType::Source,
    ];
    for format in all {
        assert_eq!(InstallType::from_str(format.as_str()), Some(format));
        assert_eq!(InstallType::from_tag(format.as_str()), Some(format));
    }
}

#[test]
fn unknown_tags_parse_to_none() {
    assert_eq!(InstallType::from_str(""), None);
    assert_eq!(InstallType::from_str("debian"), None);
    assert_eq!(InstallType::from_str("deb "), None);
    assert_eq!(InstallType::from_str("Debian Package"), None);
    assert_eq!(InstallType::from_tag("Deb"), None);
    assert_eq!(InstallType::from_tag("zip"), None);
}

#[test]
fn tags_are_read_in_any_case() {
    assert_eq!(InstallType::from_str("DEB"), Some(InstallType::Deb));
    assert_eq!(InstallType::from_str("AppImage"), Some(InstallType::AppImage));
    assert_eq!(InstallType::from_str("Flatpak"), Some(InstallType::Flatpak));
}

#[test]
fn tags_and_display_names() {
    assert_eq!(InstallType::Deb.as_str(), "deb");
    assert_eq!(InstallType::Rpm.as_str(), "rpm");
    assert_eq!(InstallType::AppImage.as_str(), "appimage");
    assert_eq!(InstallType::Flatpak.as_str(), "flatpak");
    assert_eq!(InstallType::Snap.as_str(), "snap");
    assert_eq!(InstallType::Binary.as_str(), "binary");
    assert_eq!(InstallType::Source.as_str(), "source");
    assert_eq!(InstallType::Deb.display_name(), "Debian Package");
    assert_eq!(InstallType::Rpm.display_name(), "RPM Package");
    assert_eq!(InstallType::AppImage.display_name(), "AppImage");
    assert_eq!(InstallType::Flatpak.display_name(), "Flatpak");
    assert_eq!(InstallType::Snap.display_name(), "Snap");
    assert_eq!(InstallType::Binary.display_name(), "Binary");
    assert_eq!(InstallType::Source.display_name(), "Source");
}
