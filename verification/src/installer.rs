//! Installation and removal of packages, by format.
//!
//! `Installer::install` and `Installer::uninstall` start a procedure; the
//! host carries out what is pending and advances it with what came of
//! that, until it is over.

use crate::actions::{Action, OutcomeView};
use crate::models::InstallType;
use crate::paths::{join_path, joined_path, HostDirs, MissingDirectory};
use crate::text::text_of;
use crate::procedure::{
    script_view, settled, InstallError, InstallErrorKind, InstallErrorView, Instruction,
    Operation, OperationView, Stage, StageView,
};
use crate::scripts::{
    appimage_install_script, binary_install_script, deb_install_script, dnf_install_script,
    dnf_question, file_step, flatpak_install_script, install_stage, removal_with,
    rpm_install_script, script_of_one, snap_install_script, uninstall_stage,
};
use vstd::prelude::*;

verus! {

/// The installer of packages: the directory downloads are kept in, and the
/// directory AppImages are installed to.
#[derive(Debug)]
pub struct Installer {
    downloads_dir: String,
    appimage_dir: String,
}

fn begin_with(install_type: InstallType, script: Vec<Instruction>) -> (operation: Operation)
    ensures
        operation@ == (OperationView {
            install_type,
            stage: settled(script_view(script@)),
        }),
{
    assert(script_view(script@).skip(0) == script_view(script@));
    Operation::begin(install_type, Stage::settle(script, 0))
}

fn refuse(install_type: InstallType, kind: InstallErrorKind, cause: &str) -> (operation: Operation)
    ensures
        operation@ == (OperationView {
            install_type,
            stage: StageView::Finished(
                Err(InstallErrorView { kind, install_type, cause: cause@ }),
            ),
        }),
{
    Operation::begin(
        install_type,
        Stage::Finished(Err(InstallError::new(kind, install_type, cause))),
    )
}

impl Installer {
    /// The directory that downloads are kept in.
    pub closed spec fn downloads(&self) -> Seq<char> {
        self.downloads_dir@
    }

    /// The directory that AppImages are installed to.
    pub closed spec fn appimages(&self) -> Seq<char> {
        self.appimage_dir@
    }

    /// `installer` is what becomes of a host whose data directory is
    /// `data`: an installer that keeps its files under `autonomix` in that
    /// directory, downloads in `downloads` and AppImages in `appimages`; or,
    /// on a host without a data directory, the lack of it.
    pub open spec fn placed_in(
        installer: Result<Installer, MissingDirectory>,
        data: Option<Seq<char>>,
    ) -> bool {
        match installer {
            Ok(made) => {
                &&& data is Some
                &&& made.downloads() == joined_path(
                    joined_path(data->0, "autonomix"@),
                    "downloads"@,
                )
                &&& made.appimages() == joined_path(
                    joined_path(data->0, "autonomix"@),
                    "appimages"@,
                )
            },
            Err(missing) => data is None && missing == MissingDirectory::Data,
        }
    }

    /// The installer of this host, whatever its data directory is.
    pub fn new() -> (installer: Result<Self, MissingDirectory>)
        ensures
            exists|data: Option<Seq<char>>| Self::placed_in(installer, data),
    {
        let dirs = HostDirs::detect();
        let installer = Installer::in_data_dir(&dirs.data);
        installer
    }

    /// The installer of a host whose data directory is `data`.
    pub fn in_data_dir(data: &Option<String>) -> (installer: Result<Self, MissingDirectory>)
        ensures
            Self::placed_in(installer, text_of(*data)),
    {
        match data {
            Some(dir) => {
                let own = join_path(dir.as_str(), "autonomix");
                Ok(
                    Installer {
                        downloads_dir: join_path(own.as_str(), "downloads"),
                        appimage_dir: join_path(own.as_str(), "appimages"),
                    },
                )
            },
            None => Err(MissingDirectory::Data),
        }
    }

    /// The directory that downloads are kept in.
    pub fn downloads_dir(&self) -> (dir: &str)
        ensures
            dir@ == self.downloads(),
    {
        self.downloads_dir.as_str()
    }

    /// The directory that AppImages are installed to.
    pub fn appimage_dir(&self) -> (dir: &str)
        ensures
            dir@ == self.appimages(),
    {
        self.appimage_dir.as_str()
    }

    /// The installation of the package at `path` on a host with the
    /// directories `dirs`, at its beginning.
    pub open spec fn installation(
        &self,
        dirs: HostDirs,
        path: Seq<char>,
        install_type: InstallType,
    ) -> OperationView {
        OperationView {
            install_type,
            stage: install_stage(
                self.appimages(),
                dirs.applications_path(),
                dirs.bin_path(),
                path,
                install_type,
            ),
        }
    }

    /// The removal of the package `name` on a host with the directories
    /// `dirs`, at its beginning.
    pub open spec fn removal(
        &self,
        dirs: HostDirs,
        name: Seq<char>,
        install_type: InstallType,
    ) -> OperationView {
        OperationView {
            install_type,
            stage: uninstall_stage(
                self.appimages(),
                dirs.applications_path(),
                dirs.bin_path(),
                name,
                install_type,
            ),
        }
    }

    /// A source archive is neither installed nor removed, on any host:
    /// either procedure is over before it begins, with the error that the
    /// format is unsupported; the host is never asked to do anything, and
    /// nothing it says changes that.
    pub proof fn lemma_source_is_unsupported(
        &self,
        dirs: HostDirs,
        target: Seq<char>,
        outcome: OutcomeView,
    )
        ensures
            ({
                let removal = self.removal(dirs, target, InstallType::Source);
                &&& removal.stage.pending() is None
                &&& removal.stage matches StageView::Finished(Err(error)) && error.kind
                    == InstallErrorKind::UnsupportedFormat && error.install_type
                    == InstallType::Source
                &&& removal.advanced(outcome) == removal
            }),
            ({
                let installation = self.installation(dirs, target, InstallType::Source);
                &&& installation.stage.pending() is None
                &&& installation.stage matches StageView::Finished(Err(error)) && error.kind
                    == InstallErrorKind::UnsupportedFormat && error.install_type
                    == InstallType::Source
                &&& installation.advanced(outcome) == installation
            }),
    {
    }

    /// Begins the installation of the package at `path` on this host.
    /// Only an AppImage and a bare executable are installed into
    /// directories of the user; for every other format the procedure is
    /// the same on every host.
    pub fn install(&self, path: &str, install_type: InstallType) -> (operation: Operation)
        ensures
            exists|dirs: HostDirs| operation@ == self.installation(dirs, path@, install_type),
            !install_type.uses_host_dirs() ==> forall|dirs: HostDirs|
                operation@ == #[trigger] self.installation(dirs, path@, install_type),
    {
        let dirs = if install_type.uses_host_dirs() {
            HostDirs::detect()
        } else {
            HostDirs::none()
        };
        self.install_on(&dirs, path, install_type)
    }

    /// Begins the installation of the package at `path` on a host with the
    /// directories `dirs`.
    pub fn install_on(&self, dirs: &HostDirs, path: &str, install_type: InstallType) -> (operation:
        Operation)
        ensures
            operation@ == self.installation(*dirs, path@, install_type),
    {
        match install_type {
            InstallType::Deb => begin_with(install_type, deb_install_script(path)),
            InstallType::Rpm => Operation::begin(
                install_type,
                Stage::Fork {
                    probe: dnf_question(),
                    hit: dnf_install_script(path),
                    miss: rpm_install_script(path),
                },
            ),
            InstallType::AppImage => begin_with(
                install_type,
                appimage_install_script(self.appimage_dir.as_str(), &dirs.applications_dir(), path),
            ),
            InstallType::Flatpak => begin_with(install_type, flatpak_install_script(path)),
            InstallType::Snap => begin_with(install_type, snap_install_script(path)),
            InstallType::Binary => begin_with(
                install_type,
                binary_install_script(&dirs.bin_dir(), path),
            ),
            InstallType::Source => refuse(
                install_type,
                InstallErrorKind::UnsupportedFormat,
                "Source installation not yet supported",
            ),
        }
    }

    /// Begins the removal of the package `package_name` from this host.
    pub fn uninstall(&self, package_name: &str, install_type: InstallType) -> (operation:
        Operation)
        ensures
            exists|dirs: HostDirs| operation@ == self.removal(dirs, package_name@, install_type),
            !install_type.uses_host_dirs() ==> forall|dirs: HostDirs|
                operation@ == #[trigger] self.removal(dirs, package_name@, install_type),
    {
        let dirs = if install_type.uses_host_dirs() {
            HostDirs::detect()
        } else {
            HostDirs::none()
        };
        self.uninstall_on(&dirs, package_name, install_type)
    }

    /// Begins the removal of the package `package_name` from a host with
    /// the directories `dirs`.
    pub fn uninstall_on(
        &self,
        dirs: &HostDirs,
        package_name: &str,
        install_type: InstallType,
    ) -> (operation: Operation)
        ensures
            operation@ == self.removal(*dirs, package_name@, install_type),
    {
        match install_type {
            InstallType::Deb => {
                let args = ["dpkg", "-r", package_name];
                assert(Seq::new(3, |i: int| args@[i]@) == seq!["dpkg"@, "-r"@, package_name@]);
                begin_with(
                    install_type,
                    removal_with(
                        "pkexec",
                        &args,
                        "Failed to run pkexec dpkg -r",
                        "Failed to uninstall deb package",
                    ),
                )
            },
            InstallType::Rpm => {
                let dnf = ["dnf", "remove", "-y", package_name];
                let rpm = ["rpm", "-e", package_name];
                assert(Seq::new(4, |i: int| dnf@[i]@) == seq![
                    "dnf"@,
                    "remove"@,
                    "-y"@,
                    package_name@,
                ]);
                assert(Seq::new(3, |i: int| rpm@[i]@) == seq!["rpm"@, "-e"@, package_name@]);
                Operation::begin(
                    install_type,
                    Stage::Fork {
                        probe: dnf_question(),
                        hit: removal_with(
                            "pkexec",
                            &dnf,
                            "Failed to run pkexec dnf remove",
                            "Failed to uninstall rpm package",
                        ),
                        miss: removal_with(
                            "pkexec",
                            &rpm,
                            "Failed to run pkexec rpm -e",
                            "Failed to uninstall rpm package",
                        ),
                    },
                )
            },
            InstallType::AppImage => Operation::begin(
                install_type,
                Stage::Scan {
                    dir: self.appimage_dir.clone(),
                    package: String::from_str(package_name),
                    applications: dirs.applications_dir(),
                },
            ),
            InstallType::Flatpak => {
                let args = ["uninstall", "--user", "-y", package_name];
                assert(Seq::new(4, |i: int| args@[i]@) == seq![
                    "uninstall"@,
                    "--user"@,
                    "-y"@,
                    package_name@,
                ]);
                begin_with(
                    install_type,
                    removal_with(
                        "flatpak",
                        &args,
                        "Failed to run flatpak uninstall",
                        "Failed to uninstall flatpak package",
                    ),
                )
            },
            InstallType::Snap => {
                let args = ["snap", "remove", package_name];
                assert(Seq::new(3, |i: int| args@[i]@) == seq!["snap"@, "remove"@, package_name@]);
                begin_with(
                    install_type,
                    removal_with(
                        "pkexec",
                        &args,
                        "Failed to run snap remove",
                        "Failed to uninstall snap package",
                    ),
                )
            },
            InstallType::Binary => match dirs.bin_dir() {
                None => refuse(
                    install_type,
                    InstallErrorKind::MissingDirectory,
                    "Could not find home directory",
                ),
                Some(bin) => {
                    let target = join_path(bin.as_str(), package_name);
                    let mut cause = String::from_str("Binary not found: ");
                    cause.append(target.as_str());
                    Operation::begin(
                        install_type,
                        Stage::Fork {
                            probe: Action::Exists(target.clone()),
                            hit: script_of_one(file_step(Action::Remove(target), None)),
                            miss: script_of_one(
                                Instruction::Abort(
                                    InstallError {
                                        kind: InstallErrorKind::NotFound,
                                        install_type,
                                        cause,
                                    },
                                ),
                            ),
                        },
                    )
                },
            },
            InstallType::Source => refuse(
                install_type,
                InstallErrorKind::UnsupportedFormat,
                "Source uninstallation not supported",
            ),
        }
    }
}

} // verus!
