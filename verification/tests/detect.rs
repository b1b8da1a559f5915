use autonomix::actions::{Action, Outcome};
use autonomix::detect::{
    detect_self_install_type, detect_self_install_type_on, evidence_for, Detection, Tools,
};
use autonomix::installer::Installer;
use autonomix::models::InstallType;
use autonomix::paths::HostDirs;

fn dirs(home: Option<&str>) -> HostDirs {
    HostDirs { home: home.map(|h| h.to_string()), data: None, config: None }
}

fn show(action: &Action) -> String {
    match action {
        Action::Probe(c) => format!("{} {}", c.program, c.args.join(" ")),
        Action::EnvSet(n) => format!("env {}", n),
        Action::RunningFrom(p) => format!("running {}", p),
        other => panic!("unexpected action {:?}", other),
    }
}

/// Answers the questions of a detection with a yes at `yes_at` and a no
/// everywhere else.
fn ask(mut detection: Detection, yes_at: Option<usize>) -> (Vec<String>, Option<InstallType>) {
    let mut asked = Vec::new();
    loop {
        match detection.pending() {
            Some(question) => {
                assert!(detection.verdict().is_none());
                let answer = if Some(asked.len()) == yes_at {
                    Outcome::Success
                } else if asked.len() % 2 == 0 {
                    Outcome::Failure
                } else {
                    Outcome::Error("not found".to_string())
                };
                asked.push(show(&question));
                detection = detection.advance(answer);
            }
            None => return (asked, detection.verdict().unwrap()),
        }
    }
}

const QUESTIONS: [&str; 6] = [
    "dpkg -s autonomix",
    "rpm -q autonomix",
    "flatpak info io.github.plebone.autonomix",
    "snap info autonomix",
    "env APPIMAGE",
    "running /home/u/.local/bin/autonomix",
];

#[test]
fn the_first_yes_decides() {
    let formats = [
        InstallType::Deb,
        InstallType::Rpm,
        InstallType::Flatpak,
        InstallType::Snap,
        InstallType::AppImage,
        InstallType::Binary,
    ];
    for (i, format) in formats.iter().enumerate() {
        let (asked, found) = ask(detect_self_install_type_on(&dirs(Some("/home/u"))), Some(i));
        assert_eq!(asked, QUESTIONS[..=i].to_vec());
        assert_eq!(found, Some(*format));
    }
}

#[test]
fn without_a_yes_nothing_is_detected() {
    let (asked, found) = ask(detect_self_install_type_on(&dirs(Some("/home/u"))), None);
    assert_eq!(asked, QUESTIONS.to_vec());
    assert_eq!(found, None);
}

#[test]
fn without_a_home_the_users_programs_are_not_looked_at() {
    let (asked, found) = ask(detect_self_install_type_on(&dirs(None)), None);
    assert_eq!(asked, QUESTIONS[..5].to_vec());
    assert_eq!(found, None);
    assert_eq!(evidence_for(&None).len(), 5);
    assert_eq!(evidence_for(&Some("/h".to_string())).len(), 6);
}

#[test]
fn a_decided_detection_stays_decided() {
    let detection = detect_self_install_type_on(&dirs(None)).advance(Outcome::Success);
    assert_eq!(detection.verdict(), Some(Some(InstallType::Deb)));
    let detection = detection.advance(Outcome::Failure).advance(Outcome::Success);
    assert_eq!(detection.verdict(), Some(Some(InstallType::Deb)));
    assert!(detection.pending().is_none());
}

#[test]
fn detection_on_this_host_begins_with_dpkg() {
    let detection = detect_self_install_type();
    assert_eq!(show(&detection.pending().unwrap()), "dpkg -s autonomix");
}

#[test]
fn installers_depend_on_the_tools_at_hand() {
    let none = Tools { dpkg: false, rpm: false, flatpak: false, snap: false };
    assert_eq!(
        Installer::detect_available_installers(&none),
        vec![InstallType::AppImage, InstallType::Binary]
    );
    let all = Tools { dpkg: true, rpm: true, flatpak: true, snap: true };
    assert_eq!(
        Installer::detect_available_installers(&all),
        vec![
            InstallType::Deb,
            InstallType::Rpm,
            InstallType::AppImage,
            InstallType::Flatpak,
            InstallType::Snap,
            InstallType::Binary,
        ]
    );
    let some = Tools { dpkg: false, rpm: true, flatpak: false, snap: true };
    assert_eq!(
        Installer::detect_available_installers(&some),
        vec![InstallType::Rpm, InstallType::AppImage, InstallType::Snap, InstallType::Binary]
    );
    assert_eq!(show(&Installer::tool_probe("dpkg")), "which dpkg");
}
