use autonomix::actions::{Action, Command, Outcome};
use autonomix::installer::Installer;
use autonomix::models::InstallType;
use autonomix::paths::{HostDirs, MissingDirectory};
use autonomix::procedure::{failure_kind_of, InstallError, InstallErrorKind, Operation};
use autonomix::scripts::{entry_contents_of, entry_path_of, entry_stem_of, removal_script};

fn dirs() -> HostDirs {
    HostDirs {
        home: Some("/home/u".to_string()),
        data: Some("/home/u/.local/share".to_string()),
        config: Some("/home/u/.config".to_string()),
    }
}

fn homeless() -> HostDirs {
    HostDirs { home: None, data: None, config: None }
}

fn installer() -> Installer {
    Installer::in_data_dir(&Some("/home/u/.local/share".to_string())).unwrap()
}

fn show(action: &Action) -> String {
    let words = |c: &Command| {
        let mut all = vec![c.program.clone()];
        all.extend(c.args.iter().cloned());
        all.join(" ")
    };
    match action {
        Action::Run(c) => format!("run {}", words(c)),
        Action::Probe(c) => format!("probe {}", words(c)),
        Action::CreateDir(p) => format!("mkdir {}", p),
        Action::Copy { from, to } => format!("copy {} {}", from, to),
        Action::SetMode { path, mode } => format!("chmod {:o} {}", mode, path),
        Action::Write { path, .. } => format!("write {}", path),
        Action::Remove(p) => format!("remove {}", p),
        Action::Discard(p) => format!("discard {}", p),
        Action::List(p) => format!("list {}", p),
        Action::Exists(p) => format!("exists {}", p),
        Action::EnvSet(n) => format!("env {}", n),
        Action::RunningFrom(p) => format!("running {}", p),
    }
}

/// Carries a procedure through, answering each action with the next of
/// `answers` and with success once they are used up.
fn drive(mut op: Operation, answers: Vec<Outcome>) -> (Vec<String>, Result<(), InstallError>) {
    let mut done = Vec::new();
    let mut answers = answers.into_iter();
    loop {
        assert_eq!(op.is_finished(), op.pending().is_none());
        assert_eq!(op.is_finished(), op.result().is_some());
        match op.pending() {
            Some(action) => {
                done.push(show(&action));
                op = op.advance(answers.next().unwrap_or(Outcome::Success));
            }
            None => return (done, op.result().unwrap()),
        }
    }
}

fn error(result: Result<(), InstallError>) -> (InstallErrorKind, InstallType, String) {
    let e = result.unwrap_err();
    (e.kind, e.install_type, e.cause)
}

#[test]
fn the_installer_keeps_its_files_under_the_data_directory() {
    let i = installer();
    assert_eq!(i.downloads_dir(), "/home/u/.local/share/autonomix/downloads");
    assert_eq!(i.appimage_dir(), "/home/u/.local/share/autonomix/appimages");
}

#[test]
fn without_a_data_directory_there_is_no_installer() {
    assert_eq!(Installer::in_data_dir(&None).unwrap_err(), MissingDirectory::Data);
    assert_eq!(MissingDirectory::Data.describe(), "Could not find data directory");
    assert_eq!(MissingDirectory::Config.describe(), "Could not find config directory");
}

#[test]
fn only_two_formats_use_the_directories_of_the_user() {
    assert!(InstallType::AppImage.uses_host_dirs());
    assert!(InstallType::Binary.uses_host_dirs());
    for format in [
        InstallType::Deb,
        InstallType::Rpm,
        InstallType::Flatpak,
        InstallType::Snap,
        InstallType::Source,
    ] {
        assert!(!format.uses_host_dirs());
    }
    let nowhere = HostDirs::none();
    assert!(nowhere.home.is_none() && nowhere.data.is_none() && nowhere.config.is_none());
}

#[test]
fn the_directories_of_the_user() {
    assert_eq!(dirs().bin_dir(), Some("/home/u/.local/bin".to_string()));
    assert_eq!(dirs().applications_dir(), Some("/home/u/.local/share/applications".to_string()));
    assert_eq!(homeless().bin_dir(), None);
    assert_eq!(homeless().applications_dir(), None);
    let _ = HostDirs::detect();
}

#[test]
fn uninstalling_source_always_fails_and_asks_for_nothing() {
    for d in [dirs(), homeless()] {
        let op = installer().uninstall_on(&d, "app", InstallType::Source);
        assert!(op.is_finished());
        assert!(op.pending().is_none());
        let (done, result) = drive(op, vec![]);
        assert!(done.is_empty());
        assert_eq!(
            error(result),
            (
                InstallErrorKind::UnsupportedFormat,
                InstallType::Source,
                "Source uninstallation not supported".to_string()
            )
        );
    }
    let op = installer().uninstall("app", InstallType::Source);
    assert!(op.pending().is_none());
    assert_eq!(error(op.result().unwrap()).0, InstallErrorKind::UnsupportedFormat);
}

#[test]
fn installing_source_always_fails_and_asks_for_nothing() {
    let op = installer().install("/tmp/app.tar.gz", InstallType::Source);
    assert!(op.is_finished());
    let (done, result) = drive(op, vec![]);
    assert!(done.is_empty());
    assert_eq!(
        error(result),
        (
            InstallErrorKind::UnsupportedFormat,
            InstallType::Source,
            "Source installation not yet supported".to_string()
        )
    );
}

#[test]
fn a_deb_that_installs_is_not_repaired() {
    let op = installer().install_on(&dirs(), "/tmp/app.deb", InstallType::Deb);
    assert_eq!(op.install_type(), InstallType::Deb);
    let (done, result) = drive(op, vec![Outcome::Success]);
    assert_eq!(done, vec!["run pkexec dpkg -i /tmp/app.deb"]);
    assert!(result.is_ok());
}

#[test]
fn a_deb_that_fails_is_repaired_once() {
    let op = installer().install_on(&dirs(), "/tmp/app.deb", InstallType::Deb);
    let (done, result) = drive(op, vec![Outcome::Failure, Outcome::Success]);
    assert_eq!(
        done,
        vec!["run pkexec dpkg -i /tmp/app.deb", "run pkexec apt-get install -f -y"]
    );
    assert!(result.is_ok());
}

#[test]
fn a_deb_whose_repair_fails_is_not_installed() {
    for second in [Outcome::Failure, Outcome::Error("no pkexec".to_string())] {
        let op = installer().install_on(&dirs(), "/tmp/app.deb", InstallType::Deb);
        let (done, result) = drive(op, vec![Outcome::Failure, second]);
        assert_eq!(done.len(), 2);
        assert_eq!(
            error(result),
            (
                InstallErrorKind::ToolInvocation,
                InstallType::Deb,
                "Failed to install deb package".to_string()
            )
        );
    }
}

#[test]
fn a_deb_is_not_repaired_when_dpkg_cannot_run() {
    let op = installer().install_on(&dirs(), "/tmp/app.deb", InstallType::Deb);
    let (done, result) = drive(op, vec![Outcome::Error("No such file".to_string())]);
    assert_eq!(done, vec!["run pkexec dpkg -i /tmp/app.deb"]);
    assert_eq!(
        error(result),
        (
            InstallErrorKind::ToolInvocation,
            InstallType::Deb,
            "Failed to run pkexec dpkg".to_string()
        )
    );
}

#[test]
fn an_rpm_is_installed_by_dnf_where_it_is_at_hand() {
    let op = installer().install_on(&dirs(), "/tmp/app.rpm", InstallType::Rpm);
    let (done, result) = drive(op, vec![Outcome::Success, Outcome::Success]);
    assert_eq!(done, vec!["probe which dnf", "run pkexec dnf install -y /tmp/app.rpm"]);
    assert!(result.is_ok());
}

#[test]
fn an_rpm_is_installed_by_rpm_where_dnf_is_missing() {
    for answer in [Outcome::Failure, Outcome::Error("no which".to_string())] {
        let op = installer().install_on(&dirs(), "/tmp/app.rpm", InstallType::Rpm);
        let (done, result) = drive(op, vec![answer, Outcome::Success]);
        assert_eq!(done, vec!["probe which dnf", "run pkexec rpm -i --force /tmp/app.rpm"]);
        assert!(result.is_ok());
    }
}

#[test]
fn an_rpm_fails_fast() {
    let op = installer().install_on(&dirs(), "/tmp/app.rpm", InstallType::Rpm);
    let (done, result) = drive(op, vec![Outcome::Success, Outcome::Failure]);
    assert_eq!(done.len(), 2);
    assert_eq!(
        error(result),
        (
            InstallErrorKind::ToolInvocation,
            InstallType::Rpm,
            "Failed to install rpm package".to_string()
        )
    );
    let op = installer().install_on(&dirs(), "/tmp/app.rpm", InstallType::Rpm);
    let (_, result) = drive(op, vec![Outcome::Success, Outcome::Error("x".to_string())]);
    assert_eq!(error(result).2, "Failed to run pkexec dnf");
    let op = installer().install_on(&dirs(), "/tmp/app.rpm", InstallType::Rpm);
    let (_, result) = drive(op, vec![Outcome::Failure, Outcome::Error("x".to_string())]);
    assert_eq!(error(result).2, "Failed to run pkexec rpm");
}

#[test]
fn an_appimage_is_copied_made_executable_and_given_an_entry() {
    let op = installer().install_on(&dirs(), "/tmp/dl/My-App_1.0.AppImage", InstallType::AppImage);
    let first = op.pending().unwrap();
    match first {
        Action::Copy { from, to } => {
            assert_eq!(from, "/tmp/dl/My-App_1.0.AppImage");
            assert_eq!(to, "/home/u/.local/share/autonomix/appimages/My-App_1.0.AppImage");
        }
        other => panic!("unexpected action {:?}", other),
    }
    let (done, result) = drive(op, vec![]);
    assert_eq!(
        done,
        vec![
            "copy /tmp/dl/My-App_1.0.AppImage /home/u/.local/share/autonomix/appimages/My-App_1.0.AppImage",
            "chmod 755 /home/u/.local/share/autonomix/appimages/My-App_1.0.AppImage",
            "mkdir /home/u/.local/share/applications",
            "write /home/u/.local/share/applications/My-App_1.0.desktop",
        ]
    );
    assert!(result.is_ok());
}

#[test]
fn the_desktop_entry_of_an_appimage() {
    let op = installer().install_on(&dirs(), "/tmp/My-App_1.0.AppImage", InstallType::AppImage);
    let op = op.advance(Outcome::Success).advance(Outcome::Success).advance(Outcome::Success);
    match op.pending().unwrap() {
        Action::Write { path, contents } => {
            assert_eq!(path, "/home/u/.local/share/applications/My-App_1.0.desktop");
            assert_eq!(
                contents,
                "[Desktop Entry]\nType=Application\nName=My App 1.0\nExec=\"/home/u/.local/share/autonomix/appimages/My-App_1.0.AppImage\"\nTerminal=false\nCategories=Utility;\n"
            );
        }
        other => panic!("unexpected action {:?}", other),
    }
    assert_eq!(
        entry_contents_of("a_b-c.appimage", "/x/a_b-c.appimage"),
        "[Desktop Entry]\nType=Application\nName=a b c\nExec=\"/x/a_b-c.appimage\"\nTerminal=false\nCategories=Utility;\n"
    );
}

#[test]
fn entry_names_lose_their_suffixes() {
    let stem = |n: &str| entry_stem_of(n).into_iter().collect::<String>();
    assert_eq!(stem("App.AppImage"), "App");
    assert_eq!(stem("App.appimage"), "App");
    assert_eq!(stem("App.appimage.AppImage"), "App.appimage");
    assert_eq!(stem("App.AppImage.appimage"), "App.AppImage");
    assert_eq!(stem("App.AppImage.AppImage"), "App.AppImage");
    assert_eq!(stem("App.appimage.appimage"), "App.appimage");
    assert_eq!(stem("App.APPIMAGE"), "App.APPIMAGE");
    assert_eq!(stem("App"), "App");
    assert_eq!(stem(".AppImage"), "");
    assert_eq!(entry_path_of("/apps", "App.AppImage"), "/apps/App.desktop");
}

#[test]
fn an_appimage_fails_at_the_first_step_that_fails() {
    let op = installer().install_on(&dirs(), "/tmp/App.AppImage", InstallType::AppImage);
    let (done, result) = drive(op, vec![Outcome::Error("disk full".to_string())]);
    assert_eq!(done.len(), 1);
    assert_eq!(
        error(result),
        (InstallErrorKind::Io, InstallType::AppImage, "Failed to copy AppImage".to_string())
    );
    let op = installer().install_on(&dirs(), "/tmp/App.AppImage", InstallType::AppImage);
    let (done, result) =
        drive(op, vec![Outcome::Success, Outcome::Error("permission denied".to_string())]);
    assert_eq!(done.len(), 2);
    assert_eq!(
        error(result),
        (InstallErrorKind::Io, InstallType::AppImage, "permission denied".to_string())
    );
    let op = installer().install_on(&dirs(), "/tmp/App.AppImage", InstallType::AppImage);
    let (done, result) = drive(op, vec![Outcome::Success, Outcome::Failure]);
    assert_eq!(done.len(), 2);
    assert_eq!(
        error(result),
        (InstallErrorKind::Io, InstallType::AppImage, "The operation did not succeed".to_string())
    );
}

#[test]
fn an_appimage_needs_a_file_name() {
    for path in ["/", "", "/tmp/.."] {
        let op = installer().install_on(&dirs(), path, InstallType::AppImage);
        let (done, result) = drive(op, vec![]);
        assert!(done.is_empty());
        assert_eq!(
            error(result),
            (
                InstallErrorKind::InvalidPath,
                InstallType::AppImage,
                "Invalid AppImage path".to_string()
            )
        );
    }
}

#[test]
fn an_appimage_without_data_directory_gets_no_entry() {
    let op = installer().install_on(&homeless(), "/tmp/App.AppImage", InstallType::AppImage);
    let (done, result) = drive(op, vec![]);
    assert_eq!(done.len(), 2);
    assert_eq!(
        error(result),
        (
            InstallErrorKind::MissingDirectory,
            InstallType::AppImage,
            "Could not find data directory".to_string()
        )
    );
}

#[test]
fn a_flatpak_is_installed_as_reference_or_bundle() {
    let op = installer().install_on(&dirs(), "/tmp/app.flatpakref", InstallType::Flatpak);
    let (done, result) = drive(op, vec![]);
    assert_eq!(done, vec!["run flatpak install --user -y /tmp/app.flatpakref"]);
    assert!(result.is_ok());
    let op = installer().install_on(&dirs(), "/tmp/app.flatpak", InstallType::Flatpak);
    let (done, result) = drive(op, vec![]);
    assert_eq!(done, vec!["run flatpak install --user -y --bundle /tmp/app.flatpak"]);
    assert!(result.is_ok());
    let op = installer().install_on(&dirs(), "/tmp/app.FLATPAKREF", InstallType::Flatpak);
    let (done, _) = drive(op, vec![]);
    assert_eq!(done, vec!["run flatpak install --user -y --bundle /tmp/app.FLATPAKREF"]);
}

#[test]
fn a_flatpak_fails_fast() {
    let op = installer().install_on(&dirs(), "/tmp/app.flatpakref", InstallType::Flatpak);
    let (_, result) = drive(op, vec![Outcome::Failure]);
    assert_eq!(
        error(result),
        (
            InstallErrorKind::ToolInvocation,
            InstallType::Flatpak,
            "Failed to install flatpakref".to_string()
        )
    );
    let op = installer().install_on(&dirs(), "/tmp/app.flatpak", InstallType::Flatpak);
    let (_, result) = drive(op, vec![Outcome::Failure]);
    assert_eq!(error(result).2, "Failed to install flatpak bundle");
    let op = installer().install_on(&dirs(), "/tmp/app.flatpak", InstallType::Flatpak);
    let (_, result) = drive(op, vec![Outcome::Error("x".to_string())]);
    assert_eq!(error(result).2, "Failed to run flatpak install");
}

#[test]
fn a_snap_is_installed_unsigned() {
    let op = installer().install_on(&dirs(), "/tmp/app.snap", InstallType::Snap);
    let (done, result) = drive(op, vec![]);
    assert_eq!(done, vec!["run pkexec snap install --dangerous /tmp/app.snap"]);
    assert!(result.is_ok());
    let op = installer().install_on(&dirs(), "/tmp/app.snap", InstallType::Snap);
    let (_, result) = drive(op, vec![Outcome::Failure]);
    assert_eq!(
        error(result),
        (
            InstallErrorKind::ToolInvocation,
            InstallType::Snap,
            "Failed to install snap package".to_string()
        )
    );
    let op = installer().install_on(&dirs(), "/tmp/app.snap", InstallType::Snap);
    let (_, result) = drive(op, vec![Outcome::Error("x".to_string())]);
    assert_eq!(error(result).2, "Failed to run snap install");
}

#[test]
fn a_binary_is_copied_into_the_users_programs() {
    let op = installer().install_on(&dirs(), "/tmp/dl/tool", InstallType::Binary);
    let (done, result) = drive(op, vec![]);
    assert_eq!(
        done,
        vec![
            "mkdir /home/u/.local/bin",
            "copy /tmp/dl/tool /home/u/.local/bin/tool",
            "chmod 755 /home/u/.local/bin/tool",
        ]
    );
    assert!(result.is_ok());
}

#[test]
fn a_binary_fails_where_a_step_fails() {
    let op = installer().install_on(&homeless(), "/tmp/tool", InstallType::Binary);
    let (done, result) = drive(op, vec![]);
    assert!(done.is_empty());
    assert_eq!(
        error(result),
        (
            InstallErrorKind::MissingDirectory,
            InstallType::Binary,
            "Could not find home directory".to_string()
        )
    );
    let op = installer().install_on(&dirs(), "/", InstallType::Binary);
    let (done, result) = drive(op, vec![]);
    assert_eq!(done, vec!["mkdir /home/u/.local/bin"]);
    assert_eq!(
        error(result),
        (InstallErrorKind::InvalidPath, InstallType::Binary, "Invalid binary path".to_string())
    );
    let op = installer().install_on(&dirs(), "/tmp/tool", InstallType::Binary);
    let (done, result) = drive(op, vec![Outcome::Error("read-only".to_string())]);
    assert_eq!(done.len(), 1);
    assert_eq!(error(result), (InstallErrorKind::Io, InstallType::Binary, "read-only".to_string()));
    let op = installer().install_on(&dirs(), "/tmp/tool", InstallType::Binary);
    let (done, result) = drive(op, vec![Outcome::Success, Outcome::Error("gone".to_string())]);
    assert_eq!(done.len(), 2);
    assert_eq!(
        error(result),
        (InstallErrorKind::Io, InstallType::Binary, "Failed to copy binary".to_string())
    );
}

#[test]
fn packaged_formats_are_removed_by_their_tools() {
    let cases = [
        (InstallType::Deb, "run pkexec dpkg -r app", "Failed to uninstall deb package",
            "Failed to run pkexec dpkg -r"),
        (InstallType::Flatpak, "run flatpak uninstall --user -y app",
            "Failed to uninstall flatpak package", "Failed to run flatpak uninstall"),
        (InstallType::Snap, "run pkexec snap remove app", "Failed to uninstall snap package",
            "Failed to run snap remove"),
    ];
    for (format, command, failed, could_not) in cases {
        let (done, result) = drive(installer().uninstall_on(&dirs(), "app", format), vec![]);
        assert_eq!(done, vec![command]);
        assert!(result.is_ok());
        let (done, result) =
            drive(installer().uninstall_on(&dirs(), "app", format), vec![Outcome::Failure]);
        assert_eq!(done.len(), 1);
        assert_eq!(error(result), (InstallErrorKind::ToolInvocation, format, failed.to_string()));
        let (_, result) = drive(
            installer().uninstall_on(&dirs(), "app", format),
            vec![Outcome::Error("x".to_string())],
        );
        assert_eq!(error(result), (InstallErrorKind::ToolInvocation, format, could_not.to_string()));
        let (done, _) = drive(installer().uninstall("app", format), vec![]);
        assert_eq!(done, vec![command]);
    }
}

#[test]
fn an_rpm_is_removed_by_dnf_or_rpm() {
    let (done, result) = drive(installer().uninstall_on(&dirs(), "app", InstallType::Rpm), vec![]);
    assert_eq!(done, vec!["probe which dnf", "run pkexec dnf remove -y app"]);
    assert!(result.is_ok());
    let (done, result) = drive(
        installer().uninstall_on(&dirs(), "app", InstallType::Rpm),
        vec![Outcome::Failure],
    );
    assert_eq!(done, vec!["probe which dnf", "run pkexec rpm -e app"]);
    assert!(result.is_ok());
    let (_, result) = drive(
        installer().uninstall_on(&dirs(), "app", InstallType::Rpm),
        vec![Outcome::Success, Outcome::Failure],
    );
    assert_eq!(
        error(result),
        (
            InstallErrorKind::ToolInvocation,
            InstallType::Rpm,
            "Failed to uninstall rpm package".to_string()
        )
    );
    let (_, result) = drive(
        installer().uninstall_on(&dirs(), "app", InstallType::Rpm),
        vec![Outcome::Success, Outcome::Error("x".to_string())],
    );
    assert_eq!(error(result).2, "Failed to run pkexec dnf remove");
    let (_, result) = drive(
        installer().uninstall_on(&dirs(), "app", InstallType::Rpm),
        vec![Outcome::Failure, Outcome::Error("x".to_string())],
    );
    assert_eq!(error(result).2, "Failed to run pkexec rpm -e");
}

fn names(list: &[&str]) -> Outcome {
    Outcome::Entries(list.iter().map(|n| n.to_string()).collect())
}

#[test]
fn appimages_are_removed_by_name_whatever_the_case() {
    let op = installer().uninstall_on(&dirs(), "MyApp", InstallType::AppImage);
    let (done, result) = drive(
        op,
        vec![names(&["Other.AppImage", "myapp-1.0.AppImage", "notes.txt", "The-MYAPP.appimage"])],
    );
    assert_eq!(
        done,
        vec![
            "list /home/u/.local/share/autonomix/appimages",
            "remove /home/u/.local/share/autonomix/appimages/myapp-1.0.AppImage",
            "discard /home/u/.local/share/applications/myapp-1.0.desktop",
            "remove /home/u/.local/share/autonomix/appimages/The-MYAPP.appimage",
            "discard /home/u/.local/share/applications/The-MYAPP.desktop",
        ]
    );
    assert!(result.is_ok());
}

#[test]
fn a_desktop_entry_that_cannot_be_removed_is_left() {
    let op = installer().uninstall_on(&dirs(), "app", InstallType::AppImage);
    let (done, result) = drive(
        op,
        vec![names(&["app.AppImage"]), Outcome::Success, Outcome::Error("busy".to_string())],
    );
    assert_eq!(done.len(), 3);
    assert!(result.is_ok());
}

#[test]
fn an_appimage_that_cannot_be_removed_ends_the_removal() {
    let op = installer().uninstall_on(&dirs(), "app", InstallType::AppImage);
    let (done, result) = drive(
        op,
        vec![names(&["app-1.AppImage", "app-2.AppImage"]), Outcome::Error("busy".to_string())],
    );
    assert_eq!(done.len(), 2);
    assert_eq!(error(result), (InstallErrorKind::Io, InstallType::AppImage, "busy".to_string()));
}

#[test]
fn an_appimage_that_is_not_there_is_not_found() {
    let answers = [
        names(&[]),
        names(&["other.AppImage"]),
        Outcome::Error("no such directory".to_string()),
        Outcome::Failure,
    ];
    for answer in answers {
        let op = installer().uninstall_on(&dirs(), "tool", InstallType::AppImage);
        let (done, result) = drive(op, vec![answer]);
        assert_eq!(done, vec!["list /home/u/.local/share/autonomix/appimages"]);
        assert_eq!(
            error(result),
            (InstallErrorKind::NotFound, InstallType::AppImage, "AppImage not found: tool".to_string())
        );
    }
}

#[test]
fn appimages_are_removed_without_entries_where_there_is_no_data_directory() {
    let op = installer().uninstall_on(&homeless(), "app", InstallType::AppImage);
    let (done, result) = drive(op, vec![names(&["app.AppImage"])]);
    assert_eq!(
        done,
        vec![
            "list /home/u/.local/share/autonomix/appimages",
            "remove /home/u/.local/share/autonomix/appimages/app.AppImage",
        ]
    );
    assert!(result.is_ok());
}

#[test]
fn a_removal_script_for_given_names() {
    let files = vec!["a.AppImage".to_string(), "B.AppImage".to_string()];
    let script = removal_script("/d", "b", &Some("/e".to_string()), &files);
    assert_eq!(script.len(), 2);
    let script = removal_script("/d", "", &None, &files);
    assert_eq!(script.len(), 2);
    let script = removal_script("/d", "c", &None, &files);
    assert_eq!(script.len(), 1);
}

#[test]
fn a_binary_is_removed_if_it_is_there() {
    let op = installer().uninstall_on(&dirs(), "tool", InstallType::Binary);
    let (done, result) = drive(op, vec![]);
    assert_eq!(done, vec!["exists /home/u/.local/bin/tool", "remove /home/u/.local/bin/tool"]);
    assert!(result.is_ok());
    let op = installer().uninstall_on(&dirs(), "tool", InstallType::Binary);
    let (done, result) = drive(op, vec![Outcome::Failure]);
    assert_eq!(done.len(), 1);
    assert_eq!(
        error(result),
        (
            InstallErrorKind::NotFound,
            InstallType::Binary,
            "Binary not found: /home/u/.local/bin/tool".to_string()
        )
    );
    let op = installer().uninstall_on(&dirs(), "tool", InstallType::Binary);
    let (_, result) = drive(op, vec![Outcome::Success, Outcome::Error("busy".to_string())]);
    assert_eq!(error(result), (InstallErrorKind::Io, InstallType::Binary, "busy".to_string()));
    let op = installer().uninstall_on(&homeless(), "tool", InstallType::Binary);
    let (done, result) = drive(op, vec![]);
    assert!(done.is_empty());
    assert_eq!(
        error(result),
        (
            InstallErrorKind::MissingDirectory,
            InstallType::Binary,
            "Could not find home directory".to_string()
        )
    );
}

#[test]
fn a_finished_procedure_stays_finished() {
    let op = installer().install_on(&dirs(), "/tmp/app.snap", InstallType::Snap);
    let op = op.advance(Outcome::Failure);
    assert!(op.is_finished());
    let op = op.advance(Outcome::Success);
    assert!(op.is_finished());
    assert_eq!(error(op.result().unwrap()).2, "Failed to install snap package");
}

#[test]
fn tools_and_files_fail_differently() {
    let run = Action::Run(Command { program: "true".to_string(), args: vec![] });
    assert_eq!(failure_kind_of(&run), InstallErrorKind::ToolInvocation);
    assert_eq!(failure_kind_of(&Action::Remove("/x".to_string())), InstallErrorKind::Io);
    let e = InstallError::new(InstallErrorKind::NotFound, InstallType::Binary, "gone");
    let copy = e.duplicate();
    assert_eq!((copy.kind, copy.install_type, copy.cause.as_str()),
        (InstallErrorKind::NotFound, InstallType::Binary, "gone"));
}
