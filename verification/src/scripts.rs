//! The procedure of each packaging format: which tools are started with
//! which arguments, which files are copied where, and what is said when a
//! step fails.

use crate::actions::{command, Action, ActionView, Command, CommandView, OutcomeView};
use crate::models::InstallType;
use crate::paths::{file_name_of, final_component, join_path, joined_path};
use crate::procedure::{
    script_view, settled, InstallError, InstallErrorKind, InstallErrorView, Instruction,
    InstructionView, OperationView, StageView,
};
use crate::text::{
    chars_of, contains, ends_with, has_infix, has_suffix, lowercase_of, replace_char, string_of,
    strip_suffix, text_of, texts, to_lowercase, with_char_replaced, without_suffix,
};
use vstd::prelude::*;

verus! {

/// The permission bits of an installed program: its owner reads, writes
/// and runs it, everyone else reads and runs it.
pub const EXECUTABLE: u32 = 0o755;

/// What is said of a file operation that was carried out and did not
/// succeed, where nothing more is known.
pub open spec fn unsuccessful() -> Seq<char> {
    "The operation did not succeed"@
}

/// Start `program` with `args` and wait; it has to end well.
pub open spec fn must_run(
    program: Seq<char>,
    args: Seq<Seq<char>>,
    could_not: Seq<char>,
    failed: Seq<char>,
) -> InstructionView {
    InstructionView::Must {
        action: ActionView::Run(CommandView { program, args }),
        could_not: Some(could_not),
        failed,
    }
}

/// Carry out a file operation; it has to succeed. Where it cannot be done
/// the error says `context`, or what the host said if there is none.
pub open spec fn must_do(action: ActionView, context: Option<Seq<char>>) -> InstructionView {
    InstructionView::Must {
        action,
        could_not: context,
        failed: match context {
            Some(text) => text,
            None => unsuccessful(),
        },
    }
}

/// Fail with an error of the given kind and words.
pub open spec fn abort(kind: InstallErrorKind, install_type: InstallType, cause: Seq<char>)
    -> InstructionView {
    InstructionView::Abort(InstallErrorView { kind, install_type, cause })
}

/// The question whether the package manager `dnf` is at hand.
pub open spec fn dnf_probe() -> ActionView {
    ActionView::Probe(CommandView { program: "which"@, args: seq!["dnf"@] })
}

/// The name of a desktop entry's file without `.desktop`: the name of the
/// AppImage without its suffix, `.AppImage` or `.appimage`, which is
/// dropped once.
pub open spec fn entry_stem(file_name: Seq<char>) -> Seq<char> {
    if ends_with(file_name, ".AppImage"@) {
        strip_suffix(file_name, ".AppImage"@)
    } else {
        strip_suffix(file_name, ".appimage"@)
    }
}

/// The name under which an AppImage is shown: its stem, with hyphens and
/// underscores turned into spaces.
pub open spec fn entry_title(file_name: Seq<char>) -> Seq<char> {
    replace_char(replace_char(entry_stem(file_name), '-', ' '), '_', ' ')
}

/// Where the desktop entry of an AppImage lies.
pub open spec fn entry_path(applications: Seq<char>, file_name: Seq<char>) -> Seq<char> {
    joined_path(applications, entry_stem(file_name) + ".desktop"@)
}

/// What the desktop entry of an AppImage holds.
pub open spec fn entry_contents(file_name: Seq<char>, installed_at: Seq<char>) -> Seq<char> {
    "[Desktop Entry]\nType=Application\nName="@ + entry_title(file_name) + "\nExec=\""@
        + installed_at + "\"\nTerminal=false\nCategories=Utility;\n"@
}

/// Installing a Debian package: `dpkg` installs it with the rights of the
/// administrator; if that fails, `apt-get` repairs the dependencies, once.
pub open spec fn deb_install(path: Seq<char>) -> Seq<InstructionView> {
    seq![
        InstructionView::Try {
            action: ActionView::Run(
                CommandView { program: "pkexec"@, args: seq!["dpkg"@, "-i"@, path] },
            ),
            blocked: "Failed to run pkexec dpkg"@,
        },
        must_run(
            "pkexec"@,
            seq!["apt-get"@, "install"@, "-f"@, "-y"@],
            "Failed to install deb package"@,
            "Failed to install deb package"@,
        ),
    ]
}

/// Installing an RPM package with `dnf`.
pub open spec fn dnf_install(path: Seq<char>) -> Seq<InstructionView> {
    seq![
        must_run(
            "pkexec"@,
            seq!["dnf"@, "install"@, "-y"@, path],
            "Failed to run pkexec dnf"@,
            "Failed to install rpm package"@,
        ),
    ]
}

/// Installing an RPM package with `rpm`, by force.
pub open spec fn rpm_install(path: Seq<char>) -> Seq<InstructionView> {
    seq![
        must_run(
            "pkexec"@,
            seq!["rpm"@, "-i"@, "--force"@, path],
            "Failed to run pkexec rpm"@,
            "Failed to install rpm package"@,
        ),
    ]
}

/// Writing the desktop entry of the AppImage `name` that lies at `dest`.
pub open spec fn desktop_entry(applications: Option<Seq<char>>, name: Seq<char>, dest: Seq<char>)
    -> Seq<InstructionView> {
    match applications {
        None => seq![
            abort(
                InstallErrorKind::MissingDirectory,
                InstallType::AppImage,
                "Could not find data directory"@,
            ),
        ],
        Some(dir) => seq![
            must_do(ActionView::CreateDir(dir), None),
            must_do(
                ActionView::Write {
                    path: entry_path(dir, name),
                    contents: entry_contents(name, dest),
                },
                None,
            ),
        ],
    }
}

/// Installing an AppImage: the file is copied into the directory of
/// AppImages under its own name and made executable, and a desktop entry
/// is written for it.
pub open spec fn appimage_install(
    appimage_dir: Seq<char>,
    applications: Option<Seq<char>>,
    path: Seq<char>,
) -> Seq<InstructionView> {
    match final_component(path) {
        None => seq![
            abort(InstallErrorKind::InvalidPath, InstallType::AppImage, "Invalid AppImage path"@),
        ],
        Some(name) => {
            let dest = joined_path(appimage_dir, name);
            seq![
                must_do(
                    ActionView::Copy { from: path, to: dest },
                    Some("Failed to copy AppImage"@),
                ),
                must_do(ActionView::SetMode { path: dest, mode: EXECUTABLE }, None),
            ] + desktop_entry(applications, name, dest)
        },
    }
}

/// Installing a Flatpak for the user alone: from the remote that a
/// reference names, or else as a bundle.
pub open spec fn flatpak_install(path: Seq<char>) -> Seq<InstructionView> {
    if ends_with(path, ".flatpakref"@) {
        seq![
            must_run(
                "flatpak"@,
                seq!["install"@, "--user"@, "-y"@, path],
                "Failed to run flatpak install"@,
                "Failed to install flatpakref"@,
            ),
        ]
    } else {
        seq![
            must_run(
                "flatpak"@,
                seq!["install"@, "--user"@, "-y"@, "--bundle"@, path],
                "Failed to run flatpak install"@,
                "Failed to install flatpak bundle"@,
            ),
        ]
    }
}

/// Installing a snap from a file, which no store has signed.
pub open spec fn snap_install(path: Seq<char>) -> Seq<InstructionView> {
    seq![
        must_run(
            "pkexec"@,
            seq!["snap"@, "install"@, "--dangerous"@, path],
            "Failed to run snap install"@,
            "Failed to install snap package"@,
        ),
    ]
}

/// Installing a bare executable: the file is copied into the directory of
/// the user's programs under its own name and made executable.
pub open spec fn binary_install(bin: Option<Seq<char>>, path: Seq<char>) -> Seq<InstructionView> {
    match bin {
        None => seq![
            abort(
                InstallErrorKind::MissingDirectory,
                InstallType::Binary,
                "Could not find home directory"@,
            ),
        ],
        Some(dir) => seq![must_do(ActionView::CreateDir(dir), None)] + match final_component(path) {
            None => seq![
                abort(InstallErrorKind::InvalidPath, InstallType::Binary, "Invalid binary path"@),
            ],
            Some(name) => seq![
                must_do(
                    ActionView::Copy { from: path, to: joined_path(dir, name) },
                    Some("Failed to copy binary"@),
                ),
                must_do(
                    ActionView::SetMode { path: joined_path(dir, name), mode: EXECUTABLE },
                    None,
                ),
            ],
        },
    }
}

/// The stage in which the installation of the package at `path` begins.
/// An RPM package begins with the question for `dnf`, which installs it
/// where it is at hand; `rpm` installs it where it is not. A source archive
/// is not installed at all.
pub open spec fn install_stage(
    appimage_dir: Seq<char>,
    applications: Option<Seq<char>>,
    bin: Option<Seq<char>>,
    path: Seq<char>,
    install_type: InstallType,
) -> StageView {
    match install_type {
        InstallType::Deb => settled(deb_install(path)),
        InstallType::Rpm => StageView::Fork {
            probe: dnf_probe(),
            hit: dnf_install(path),
            miss: rpm_install(path),
        },
        InstallType::AppImage => settled(appimage_install(appimage_dir, applications, path)),
        InstallType::Flatpak => settled(flatpak_install(path)),
        InstallType::Snap => settled(snap_install(path)),
        InstallType::Binary => settled(binary_install(bin, path)),
        InstallType::Source => StageView::Finished(
            Err(
                InstallErrorView {
                    kind: InstallErrorKind::UnsupportedFormat,
                    install_type,
                    cause: "Source installation not yet supported"@,
                },
            ),
        ),
    }
}

/// Removing a package with one command that has to end well.
pub open spec fn removal_by(
    program: Seq<char>,
    args: Seq<Seq<char>>,
    could_not: Seq<char>,
    failed: Seq<char>,
) -> Seq<InstructionView> {
    seq![must_run(program, args, could_not, failed)]
}

/// The stage in which the removal of the package `name` begins. An RPM
/// package begins with the question for `dnf`, as its installation does; an
/// AppImage with the reading of the directory of AppImages; a bare
/// executable with the question whether it is there. A source archive is
/// not removed at all.
pub open spec fn uninstall_stage(
    appimage_dir: Seq<char>,
    applications: Option<Seq<char>>,
    bin: Option<Seq<char>>,
    name: Seq<char>,
    install_type: InstallType,
) -> StageView {
    match install_type {
        InstallType::Deb => settled(
            removal_by(
                "pkexec"@,
                seq!["dpkg"@, "-r"@, name],
                "Failed to run pkexec dpkg -r"@,
                "Failed to uninstall deb package"@,
            ),
        ),
        InstallType::Rpm => StageView::Fork {
            probe: dnf_probe(),
            hit: removal_by(
                "pkexec"@,
                seq!["dnf"@, "remove"@, "-y"@, name],
                "Failed to run pkexec dnf remove"@,
                "Failed to uninstall rpm package"@,
            ),
            miss: removal_by(
                "pkexec"@,
                seq!["rpm"@, "-e"@, name],
                "Failed to run pkexec rpm -e"@,
                "Failed to uninstall rpm package"@,
            ),
        },
        InstallType::AppImage => StageView::Scan { dir: appimage_dir, package: name, applications },
        InstallType::Flatpak => settled(
            removal_by(
                "flatpak"@,
                seq!["uninstall"@, "--user"@, "-y"@, name],
                "Failed to run flatpak uninstall"@,
                "Failed to uninstall flatpak package"@,
            ),
        ),
        InstallType::Snap => settled(
            removal_by(
                "pkexec"@,
                seq!["snap"@, "remove"@, name],
                "Failed to run snap remove"@,
                "Failed to uninstall snap package"@,
            ),
        ),
        InstallType::Binary => match bin {
            None => StageView::Finished(
                Err(
                    InstallErrorView {
                        kind: InstallErrorKind::MissingDirectory,
                        install_type,
                        cause: "Could not find home directory"@,
                    },
                ),
            ),
            Some(dir) => StageView::Fork {
                probe: ActionView::Exists(joined_path(dir, name)),
                hit: seq![must_do(ActionView::Remove(joined_path(dir, name)), None)],
                miss: seq![
                    abort(
                        InstallErrorKind::NotFound,
                        install_type,
                        "Binary not found: "@ + joined_path(dir, name),
                    ),
                ],
            },
        },
        InstallType::Source => StageView::Finished(
            Err(
                InstallErrorView {
                    kind: InstallErrorKind::UnsupportedFormat,
                    install_type,
                    cause: "Source uninstallation not supported"@,
                },
            ),
        ),
    }
}

/// The file `file_name` belongs to the package `package`: its name holds
/// the package's, whatever the case of either.
pub open spec fn belongs_to(file_name: Seq<char>, package: Seq<char>) -> bool {
    contains(lowercase_of(file_name), lowercase_of(package))
}

/// The instructions that remove one AppImage and, where the directory of
/// desktop entries is known, its entry, which may be missing.
pub open spec fn removal_of(dir: Seq<char>, applications: Option<Seq<char>>, file_name: Seq<char>)
    -> Seq<InstructionView> {
    seq![must_do(ActionView::Remove(joined_path(dir, file_name)), None)] + match applications {
        Some(entries) => seq![
            InstructionView::May(ActionView::Discard(entry_path(entries, file_name))),
        ],
        None => Seq::empty(),
    }
}

/// The instructions that remove, in the order of `names`, every file of
/// `dir` that belongs to `package`.
pub open spec fn removals(
    dir: Seq<char>,
    package: Seq<char>,
    applications: Option<Seq<char>>,
    names: Seq<Seq<char>>,
) -> Seq<InstructionView>
    decreases names.len(),
{
    if names.len() == 0 {
        Seq::empty()
    } else {
        removals(dir, package, applications, names.drop_last()) + if belongs_to(
            names.last(),
            package,
        ) {
            removal_of(dir, applications, names.last())
        } else {
            Seq::empty()
        }
    }
}

/// The script that removes the AppImages of `package` from `dir`, which
/// holds `names`: the removals, or the failure that nothing was found.
pub open spec fn scan_script(
    dir: Seq<char>,
    package: Seq<char>,
    applications: Option<Seq<char>>,
    names: Seq<Seq<char>>,
) -> Seq<InstructionView> {
    let found = removals(dir, package, applications, names);
    if found.len() == 0 {
        seq![
            abort(
                InstallErrorKind::NotFound,
                InstallType::AppImage,
                "AppImage not found: "@ + package,
            ),
        ]
    } else {
        found
    }
}

/// `step` removes the file at `path`, and has to succeed in it.
pub open spec fn is_removal(step: InstructionView, path: Seq<char>) -> bool {
    step is Must && step->Must_action == ActionView::Remove(path)
}

/// `step` discards a desktop entry, if it is there.
pub open spec fn is_discard(step: InstructionView) -> bool {
    step is May && step->May_0 is Discard
}

/// `script` removes the file at `path`.
pub open spec fn removes(script: Seq<InstructionView>, path: Seq<char>) -> bool {
    exists|i: int| 0 <= i < script.len() && is_removal(#[trigger] script[i], path)
}

/// `path` is the path of a file of `dir`, one of `names`, that belongs to
/// `package`.
pub open spec fn is_file_of(
    path: Seq<char>,
    dir: Seq<char>,
    package: Seq<char>,
    names: Seq<Seq<char>>,
) -> bool {
    exists|k: int|
        0 <= k < names.len() && belongs_to(#[trigger] names[k], package) && path == joined_path(
            dir,
            names[k],
        )
}

/// A scan removes what belongs to the package and nothing else: every file
/// of the directory whose name holds the package's is removed, and every
/// file that is removed is such a file of the directory. The only other
/// thing a scan does is to discard desktop entries.
pub proof fn lemma_scan_removes_what_belongs(
    dir: Seq<char>,
    package: Seq<char>,
    applications: Option<Seq<char>>,
    names: Seq<Seq<char>>,
)
    ensures
        forall|k: int|
            0 <= k < names.len() && belongs_to(#[trigger] names[k], package) ==> removes(
                removals(dir, package, applications, names),
                joined_path(dir, names[k]),
            ),
        forall|i: int|
            0 <= i < removals(dir, package, applications, names).len() ==> {
                let step = #[trigger] removals(dir, package, applications, names)[i];
                is_discard(step) || (step is Must && step->Must_action is Remove && is_file_of(
                    step->Must_action->Remove_0,
                    dir,
                    package,
                    names,
                ))
            },
    decreases names.len(),
{
    if names.len() > 0 {
        let before = names.drop_last();
        let last = names.last();
        let earlier = removals(dir, package, applications, before);
        let all = removals(dir, package, applications, names);
        lemma_scan_removes_what_belongs(dir, package, applications, before);
        assert forall|k: int|
            0 <= k < names.len() && belongs_to(#[trigger] names[k], package) implies removes(
            all,
            joined_path(dir, names[k]),
        ) by {
            let path = joined_path(dir, names[k]);
            if k < names.len() - 1 {
                assert(before[k] == names[k]);
                let i = choose|i: int|
                    0 <= i < earlier.len() && is_removal(#[trigger] earlier[i], path);
                assert(is_removal(all[i], path));
            } else {
                assert(is_removal(all[earlier.len() as int], path));
            }
        }
        assert forall|i: int| 0 <= i < all.len() implies {
            let step = #[trigger] all[i];
            is_discard(step) || (step is Must && step->Must_action is Remove && is_file_of(
                step->Must_action->Remove_0,
                dir,
                package,
                names,
            ))
        } by {
            let step = all[i];
            if i < earlier.len() {
                assert(step == earlier[i]);
                if !is_discard(step) {
                    let path = step->Must_action->Remove_0;
                    assert(is_file_of(path, dir, package, before));
                    let k = choose|k: int|
                        0 <= k < before.len() && belongs_to(#[trigger] before[k], package) && path
                            == joined_path(dir, before[k]);
                    assert(names[k] == before[k]);
                }
            } else {
                assert(step == removal_of(dir, applications, last)[i - earlier.len()]);
                assert(names[names.len() - 1] == last);
            }
        }
    }
}

/// No instruction of `script` is tried with a fallback behind it.
pub open spec fn fails_fast(script: Seq<InstructionView>) -> bool {
    forall|i: int| 0 <= i < script.len() ==> !(#[trigger] script[i] is Try)
}

/// No script of `stage`, whichever answer it gets, holds an instruction
/// that is tried with a fallback behind it.
pub open spec fn stage_fails_fast(stage: StageView) -> bool {
    match stage {
        StageView::Steps(script) => fails_fast(script),
        StageView::Fork { hit, miss, .. } => fails_fast(hit) && fails_fast(miss),
        StageView::Scan { dir, package, applications } => forall|names: Seq<Seq<char>>|
            fails_fast(#[trigger] scan_script(dir, package, applications, names)),
        StageView::Finished(_) => true,
    }
}

/// The removals of a scan hold no instruction that is tried with a
/// fallback behind it.
pub proof fn lemma_removals_fail_fast(
    dir: Seq<char>,
    package: Seq<char>,
    applications: Option<Seq<char>>,
    names: Seq<Seq<char>>,
)
    ensures
        fails_fast(removals(dir, package, applications, names)),
        fails_fast(scan_script(dir, package, applications, names)),
    decreases names.len(),
{
    if names.len() > 0 {
        lemma_removals_fail_fast(dir, package, applications, names.drop_last());
    }
}

/// The repair of dependencies after a failed installation of a Debian
/// package is the only retry there is: no other installation and no
/// removal holds an instruction with a fallback behind it, so each fails
/// at the first step that does not succeed.
pub proof fn lemma_only_deb_retries(
    appimage_dir: Seq<char>,
    applications: Option<Seq<char>>,
    bin: Option<Seq<char>>,
    target: Seq<char>,
    install_type: InstallType,
)
    ensures
        install_type != InstallType::Deb ==> stage_fails_fast(
            install_stage(appimage_dir, applications, bin, target, install_type),
        ),
        stage_fails_fast(uninstall_stage(appimage_dir, applications, bin, target, install_type)),
{
    assert forall|names: Seq<Seq<char>>|
        fails_fast(#[trigger] scan_script(appimage_dir, target, applications, names)) by {
        lemma_removals_fail_fast(appimage_dir, target, applications, names);
    }
}

/// A Debian package is installed in at most two steps. If `dpkg` ends well
/// the installation is over, well, and nothing is repaired. If `dpkg` cannot
/// be started the installation fails. If `dpkg` ends badly the dependencies
/// are repaired, once: the installation ends well if the repair does, and
/// fails, as the failure of a tool, if it does not.
pub proof fn lemma_deb_install_repairs_once(
    appimage_dir: Seq<char>,
    applications: Option<Seq<char>>,
    bin: Option<Seq<char>>,
    path: Seq<char>,
    said: Seq<char>,
    second: OutcomeView,
)
    ensures
        ({
            let start = OperationView {
                install_type: InstallType::Deb,
                stage: install_stage(appimage_dir, applications, bin, path, InstallType::Deb),
            };
            let repairing = start.advanced(OutcomeView::Failure);
            &&& start.stage.pending() == Some(
                ActionView::Run(
                    CommandView { program: "pkexec"@, args: seq!["dpkg"@, "-i"@, path] },
                ),
            )
            &&& start.advanced(OutcomeView::Success).stage == StageView::Finished(Ok(()))
            &&& start.advanced(OutcomeView::Error(said)).stage matches StageView::Finished(
                Err(error),
            ) && error.kind == InstallErrorKind::ToolInvocation
            &&& repairing.stage.pending() == Some(
                ActionView::Run(
                    CommandView {
                        program: "pkexec"@,
                        args: seq!["apt-get"@, "install"@, "-f"@, "-y"@],
                    },
                ),
            )
            &&& repairing.advanced(second).stage is Finished
            &&& second is Success ==> repairing.advanced(second).stage == StageView::Finished(
                Ok(()),
            )
            &&& !(second is Success) ==> repairing.advanced(second).stage == StageView::Finished(
                Err(
                    InstallErrorView {
                        kind: InstallErrorKind::ToolInvocation,
                        install_type: InstallType::Deb,
                        cause: "Failed to install deb package"@,
                    },
                ),
            )
        }),
{
}

/// The instruction to start a program that has to end well.
pub fn run_step(process: Command, could_not: &str, failed: &str) -> (step: Instruction)
    ensures
        step@ == must_run(process@.program, process@.args, could_not@, failed@),
{
    Instruction::Must {
        action: Action::Run(process),
        could_not: Some(String::from_str(could_not)),
        failed: String::from_str(failed),
    }
}

/// The instruction to carry out a file operation that has to succeed.
pub fn file_step(action: Action, context: Option<&str>) -> (step: Instruction)
    ensures
        step@ == must_do(
            action@,
            match context {
                Some(text) => Some(text@),
                None => None,
            },
        ),
{
    match context {
        Some(text) => Instruction::Must {
            action,
            could_not: Some(String::from_str(text)),
            failed: String::from_str(text),
        },
        None => Instruction::Must {
            action,
            could_not: None,
            failed: String::from_str("The operation did not succeed"),
        },
    }
}

/// The instruction to fail with an error of the given kind and words.
pub fn abort_step(kind: InstallErrorKind, install_type: InstallType, cause: &str) -> (step:
    Instruction)
    ensures
        step@ == abort(kind, install_type, cause@),
{
    Instruction::Abort(InstallError::new(kind, install_type, cause))
}

/// The name of a desktop entry's file without `.desktop`.
pub fn entry_stem_of(file_name: &str) -> (stem: Vec<char>)
    ensures
        stem@ == entry_stem(file_name@),
{
    let name = chars_of(file_name);
    let mixed = chars_of(".AppImage");
    if has_suffix(&name, &mixed) {
        without_suffix(&name, &mixed)
    } else {
        without_suffix(&name, &chars_of(".appimage"))
    }
}

/// Where the desktop entry of an AppImage lies.
pub fn entry_path_of(applications: &str, file_name: &str) -> (path: String)
    ensures
        path@ == entry_path(applications@, file_name@),
{
    let mut entry = string_of(&entry_stem_of(file_name));
    entry.append(".desktop");
    join_path(applications, entry.as_str())
}

/// Whether the file `file_name` belongs to the package whose name in lower
/// case is `package_lower`.
pub fn belongs_to_lower(file_name: &str, package_lower: &Vec<char>) -> (belongs: bool)
    ensures
        belongs == contains(lowercase_of(file_name@), package_lower@),
{
    let lower = to_lowercase(file_name);
    has_infix(&chars_of(lower.as_str()), package_lower)
}

/// The script that removes the AppImages of `package` from `dir`, which
/// holds `names`.
pub fn removal_script(
    dir: &str,
    package: &str,
    applications: &Option<String>,
    names: &Vec<String>,
) -> (script: Vec<Instruction>)
    ensures
        script_view(script@) == scan_script(dir@, package@, text_of(*applications), texts(names@)),
{
    let package_name = to_lowercase(package);
    let package_lower = chars_of(package_name.as_str());
    let mut script: Vec<Instruction> = Vec::new();
    let mut i: usize = 0;
    while i < names.len()
        invariant
            i <= names.len(),
            package_lower@ == lowercase_of(package@),
            script_view(script@) == removals(
                dir@,
                package@,
                text_of(*applications),
                texts(names@).take(i as int),
            ),
        decreases names.len() - i,
    {
        let name = names[i].as_str();
        proof {
            let upto = texts(names@).take(i + 1);
            assert(upto.drop_last() == texts(names@).take(i as int));
        }
        if belongs_to_lower(name, &package_lower) {
            script.push(file_step(Action::Remove(join_path(dir, name)), None));
            if let Some(entries) = applications {
                script.push(
                    Instruction::May(Action::Discard(entry_path_of(entries.as_str(), name))),
                );
            }
        }
        i += 1;
    }
    assert(texts(names@).take(names@.len() as int) == texts(names@));
    if script.len() == 0 {
        let mut cause = String::from_str("AppImage not found: ");
        cause.append(package);
        script.push(
            Instruction::Abort(
                InstallError {
                    kind: InstallErrorKind::NotFound,
                    install_type: InstallType::AppImage,
                    cause,
                },
            ),
        );
    }
    script
}

/// The script of one instruction.
pub fn script_of_one(step: Instruction) -> (script: Vec<Instruction>)
    ensures
        script_view(script@) == seq![step@],
{
    let mut script: Vec<Instruction> = Vec::new();
    script.push(step);
    script
}

/// The script of two instructions.
pub fn script_of_two(first: Instruction, second: Instruction) -> (script: Vec<Instruction>)
    ensures
        script_view(script@) == seq![first@, second@],
{
    let mut script: Vec<Instruction> = Vec::new();
    script.push(first);
    script.push(second);
    script
}

/// The script of `front` followed by `back`.
pub fn script_of_both(mut front: Vec<Instruction>, mut back: Vec<Instruction>) -> (script: Vec<
    Instruction,
>)
    ensures
        script_view(script@) == script_view(front@) + script_view(back@),
{
    front.append(&mut back);
    front
}

/// The script that removes a package with one command.
pub fn removal_with(program: &str, args: &[&str], could_not: &str, failed: &str) -> (script: Vec<
    Instruction,
>)
    ensures
        script_view(script@) == removal_by(
            program@,
            Seq::new(args@.len(), |i: int| args@[i]@),
            could_not@,
            failed@,
        ),
{
    script_of_one(run_step(command(program, args), could_not, failed))
}

/// The script that installs the Debian package at `path`.
pub fn deb_install_script(path: &str) -> (script: Vec<Instruction>)
    ensures
        script_view(script@) == deb_install(path@),
{
    let first = command("pkexec", &["dpkg", "-i", path]);
    assert(first@.args == seq!["dpkg"@, "-i"@, path@]);
    let repair = command("pkexec", &["apt-get", "install", "-f", "-y"]);
    assert(repair@.args == seq!["apt-get"@, "install"@, "-f"@, "-y"@]);
    script_of_two(
        Instruction::Try {
            action: Action::Run(first),
            blocked: String::from_str("Failed to run pkexec dpkg"),
        },
        run_step(repair, "Failed to install deb package", "Failed to install deb package"),
    )
}

/// The script that installs the RPM package at `path` with `dnf`.
pub fn dnf_install_script(path: &str) -> (script: Vec<Instruction>)
    ensures
        script_view(script@) == dnf_install(path@),
{
    let process = command("pkexec", &["dnf", "install", "-y", path]);
    assert(process@.args == seq!["dnf"@, "install"@, "-y"@, path@]);
    script_of_one(run_step(process, "Failed to run pkexec dnf", "Failed to install rpm package"))
}

/// The script that installs the RPM package at `path` with `rpm`.
pub fn rpm_install_script(path: &str) -> (script: Vec<Instruction>)
    ensures
        script_view(script@) == rpm_install(path@),
{
    let process = command("pkexec", &["rpm", "-i", "--force", path]);
    assert(process@.args == seq!["rpm"@, "-i"@, "--force"@, path@]);
    script_of_one(run_step(process, "Failed to run pkexec rpm", "Failed to install rpm package"))
}

/// The script that installs the Flatpak at `path`.
pub fn flatpak_install_script(path: &str) -> (script: Vec<Instruction>)
    ensures
        script_view(script@) == flatpak_install(path@),
{
    if has_suffix(&chars_of(path), &chars_of(".flatpakref")) {
        let process = command("flatpak", &["install", "--user", "-y", path]);
        assert(process@.args == seq!["install"@, "--user"@, "-y"@, path@]);
        script_of_one(
            run_step(process, "Failed to run flatpak install", "Failed to install flatpakref"),
        )
    } else {
        let process = command("flatpak", &["install", "--user", "-y", "--bundle", path]);
        assert(process@.args == seq!["install"@, "--user"@, "-y"@, "--bundle"@, path@]);
        script_of_one(
            run_step(process, "Failed to run flatpak install", "Failed to install flatpak bundle"),
        )
    }
}

/// The script that installs the snap at `path`.
pub fn snap_install_script(path: &str) -> (script: Vec<Instruction>)
    ensures
        script_view(script@) == snap_install(path@),
{
    let process = command("pkexec", &["snap", "install", "--dangerous", path]);
    assert(process@.args == seq!["snap"@, "install"@, "--dangerous"@, path@]);
    script_of_one(
        run_step(process, "Failed to run snap install", "Failed to install snap package"),
    )
}

/// What the desktop entry of the AppImage `name` that lies at `dest` holds.
pub fn entry_contents_of(name: &str, dest: &str) -> (contents: String)
    ensures
        contents@ == entry_contents(name@, dest@),
{
    let stem = entry_stem_of(name);
    let spaced = with_char_replaced(&stem, '-', ' ');
    let title = string_of(&with_char_replaced(&spaced, '_', ' '));
    let mut contents = String::from_str("[Desktop Entry]\nType=Application\nName=");
    contents.append(title.as_str());
    contents.append("\nExec=\"");
    contents.append(dest);
    contents.append("\"\nTerminal=false\nCategories=Utility;\n");
    contents
}

/// The script that writes the desktop entry of the AppImage `name` that
/// lies at `dest`.
pub fn desktop_entry_script(applications: &Option<String>, name: &str, dest: &str) -> (script: Vec<
    Instruction,
>)
    ensures
        script_view(script@) == desktop_entry(text_of(*applications), name@, dest@),
{
    match applications {
        None => script_of_one(
            abort_step(
                InstallErrorKind::MissingDirectory,
                InstallType::AppImage,
                "Could not find data directory",
            ),
        ),
        Some(dir) => script_of_two(
            file_step(Action::CreateDir(dir.clone()), None),
            file_step(
                Action::Write {
                    path: entry_path_of(dir.as_str(), name),
                    contents: entry_contents_of(name, dest),
                },
                None,
            ),
        ),
    }
}

/// The script that installs the AppImage at `path`.
pub fn appimage_install_script(
    appimage_dir: &str,
    applications: &Option<String>,
    path: &str,
) -> (script: Vec<Instruction>)
    ensures
        script_view(script@) == appimage_install(appimage_dir@, text_of(*applications), path@),
{
    match file_name_of(path) {
        None => script_of_one(
            abort_step(
                InstallErrorKind::InvalidPath,
                InstallType::AppImage,
                "Invalid AppImage path",
            ),
        ),
        Some(name) => {
            let dest = join_path(appimage_dir, name.as_str());
            let copy = script_of_two(
                file_step(
                    Action::Copy { from: String::from_str(path), to: dest.clone() },
                    Some("Failed to copy AppImage"),
                ),
                file_step(Action::SetMode { path: dest.clone(), mode: EXECUTABLE }, None),
            );
            let entry = desktop_entry_script(applications, name.as_str(), dest.as_str());
            script_of_both(copy, entry)
        },
    }
}

/// The script that installs the bare executable at `path`.
pub fn binary_install_script(bin: &Option<String>, path: &str) -> (script: Vec<Instruction>)
    ensures
        script_view(script@) == binary_install(text_of(*bin), path@),
{
    match bin {
        None => script_of_one(
            abort_step(
                InstallErrorKind::MissingDirectory,
                InstallType::Binary,
                "Could not find home directory",
            ),
        ),
        Some(dir) => {
            let prepare = script_of_one(file_step(Action::CreateDir(dir.clone()), None));
            let place = match file_name_of(path) {
                None => script_of_one(
                    abort_step(
                        InstallErrorKind::InvalidPath,
                        InstallType::Binary,
                        "Invalid binary path",
                    ),
                ),
                Some(name) => {
                    let dest = join_path(dir.as_str(), name.as_str());
                    script_of_two(
                        file_step(
                            Action::Copy { from: String::from_str(path), to: dest.clone() },
                            Some("Failed to copy binary"),
                        ),
                        file_step(Action::SetMode { path: dest, mode: EXECUTABLE }, None),
                    )
                },
            };
            script_of_both(prepare, place)
        },
    }
}

/// The question whether the package manager `dnf` is at hand.
pub fn dnf_question() -> (probe: Action)
    ensures
        probe@ == dnf_probe(),
{
    let process = command("which", &["dnf"]);
    assert(process@.args == seq!["dnf"@]);
    Action::Probe(process)
}

} // verus!
