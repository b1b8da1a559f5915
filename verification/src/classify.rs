//! Classification of an asset by its file name.
//!
//! Nothing but the name is looked at: neither the declared content type nor
//! the file itself. Each predicate is stated over the name in lower case.

use crate::models::InstallType;
use crate::text::{
    chars_of, contains, ends_with, has_char, has_infix, has_suffix, same_text, texts_of,
};
use vstd::prelude::*;

verus! {

/// The name ends in the suffix of a package format that only Linux uses.
pub open spec fn has_linux_package_suffix(lower: Seq<char>) -> bool {
    ||| ends_with(lower, ".deb"@)
    ||| ends_with(lower, ".rpm"@)
    ||| ends_with(lower, ".appimage"@)
    ||| ends_with(lower, ".snap"@)
    ||| ends_with(lower, ".flatpak"@)
}

/// The name ends in the suffix of a compressed tar archive.
pub open spec fn has_archive_suffix(lower: Seq<char>) -> bool {
    ||| ends_with(lower, ".tar.gz"@)
    ||| ends_with(lower, ".tar.xz"@)
    ||| ends_with(lower, ".tar.bz2"@)
}

/// The name marks the asset as made for Windows or macOS.
pub open spec fn names_other_system(lower: Seq<char>) -> bool {
    ||| contains(lower, "windows"@)
    ||| contains(lower, ".exe"@)
    ||| contains(lower, ".msi"@)
    ||| contains(lower, "macos"@)
    ||| contains(lower, "darwin"@)
    ||| contains(lower, ".dmg"@)
}

/// An asset of this lower-case name may run on Linux: it names no other
/// system, and it is a Linux package, says "linux", or is a tar archive.
pub open spec fn linux_compatible(lower: Seq<char>) -> bool {
    &&& !names_other_system(lower)
    &&& (has_linux_package_suffix(lower) || contains(lower, "linux"@) || has_archive_suffix(lower))
}

/// The packaging format that the suffix of a lower-case name stands for. The
/// suffixes are tried in a fixed order; a name without a dot, or one that
/// ends in `.bin`, is a bare executable; any other name has no format.
pub open spec fn format_of(lower: Seq<char>) -> Option<InstallType> {
    if ends_with(lower, ".deb"@) {
        Some(InstallType::Deb)
    } else if ends_with(lower, ".rpm"@) {
        Some(InstallType::Rpm)
    } else if ends_with(lower, ".appimage"@) {
        Some(InstallType::AppImage)
    } else if ends_with(lower, ".flatpak"@) || ends_with(lower, ".flatpakref"@) {
        Some(InstallType::Flatpak)
    } else if ends_with(lower, ".snap"@) {
        Some(InstallType::Snap)
    } else if has_archive_suffix(lower) {
        Some(InstallType::Source)
    } else if !lower.contains('.') || ends_with(lower, ".bin"@) {
        Some(InstallType::Binary)
    } else {
        None
    }
}

/// The name fragments that stand for the architecture `arch`. An
/// architecture without a list of its own is looked for under its own name.
pub open spec fn arch_fragments(arch: Seq<char>) -> Seq<Seq<char>> {
    if arch == "x86_64"@ {
        seq!["x86_64"@, "amd64"@, "x64"@, "linux64"@]
    } else if arch == "aarch64"@ {
        seq!["aarch64"@, "arm64"@]
    } else if arch == "x86"@ {
        seq!["i386"@, "i686"@, "x86"@, "linux32"@]
    } else {
        seq![arch]
    }
}

/// The name says for which architecture the asset is built.
pub open spec fn names_architecture(lower: Seq<char>) -> bool {
    ||| contains(lower, "x86"@)
    ||| contains(lower, "amd64"@)
    ||| contains(lower, "arm"@)
    ||| contains(lower, "aarch"@)
    ||| contains(lower, "i386"@)
    ||| contains(lower, "i686"@)
}

/// The name holds one of `fragments`.
pub open spec fn contains_any(lower: Seq<char>, fragments: Seq<Seq<char>>) -> bool {
    exists|i: int| 0 <= i < fragments.len() && contains(lower, #[trigger] fragments[i])
}

/// An asset of this lower-case name suits a host of architecture `arch`: it
/// names no architecture at all, or it holds a fragment that stands for
/// `arch`.
pub open spec fn arch_compatible(lower: Seq<char>, arch: Seq<char>) -> bool {
    !names_architecture(lower) || contains_any(lower, arch_fragments(arch))
}

/// What the suffix of a name shows to be a package or an archive may run
/// on Linux, unless the name marks another system. Two recognized names
/// are left out: a bare executable, and a reference to a Flatpak remote,
/// which count for Linux only where the name says so.
pub proof fn lemma_recognized_packages_run_on_linux(lower: Seq<char>)
    requires
        format_of(lower) is Some,
        format_of(lower) != Some(InstallType::Binary),
        !ends_with(lower, ".flatpakref"@),
        !names_other_system(lower),
    ensures
        linux_compatible(lower),
{
}

fn name_ends_with(name: &Vec<char>, suffix: &str) -> (found: bool)
    ensures
        found == ends_with(name@, suffix@),
{
    let needle = chars_of(suffix);
    has_suffix(name, &needle)
}

fn name_contains(name: &Vec<char>, fragment: &str) -> (found: bool)
    ensures
        found == contains(name@, fragment@),
{
    let needle = chars_of(fragment);
    has_infix(name, &needle)
}

/// Whether an asset of the lower-case name `lower` may run on Linux.
pub fn is_linux_name(lower: &str) -> (linux: bool)
    ensures
        linux == linux_compatible(lower@),
{
    let name = chars_of(lower);
    if name_contains(&name, "windows") || name_contains(&name, ".exe") || name_contains(
        &name,
        ".msi",
    ) || name_contains(&name, "macos") || name_contains(&name, "darwin") || name_contains(
        &name,
        ".dmg",
    ) {
        return false;
    }
    if name_ends_with(&name, ".deb") || name_ends_with(&name, ".rpm") || name_ends_with(
        &name,
        ".appimage",
    ) || name_ends_with(&name, ".snap") || name_ends_with(&name, ".flatpak") {
        return true;
    }
    if name_contains(&name, "linux") {
        return true;
    }
    name_ends_with(&name, ".tar.gz") || name_ends_with(&name, ".tar.xz") || name_ends_with(
        &name,
        ".tar.bz2",
    )
}

/// The packaging format of an asset of the lower-case name `lower`.
pub fn format_of_name(lower: &str) -> (format: Option<InstallType>)
    ensures
        format == format_of(lower@),
{
    let name = chars_of(lower);
    if name_ends_with(&name, ".deb") {
        Some(InstallType::Deb)
    } else if name_ends_with(&name, ".rpm") {
        Some(InstallType::Rpm)
    } else if name_ends_with(&name, ".appimage") {
        Some(InstallType::AppImage)
    } else if name_ends_with(&name, ".flatpak") || name_ends_with(&name, ".flatpakref") {
        Some(InstallType::Flatpak)
    } else if name_ends_with(&name, ".snap") {
        Some(InstallType::Snap)
    } else if name_ends_with(&name, ".tar.gz") || name_ends_with(&name, ".tar.xz")
        || name_ends_with(&name, ".tar.bz2") {
        Some(InstallType::Source)
    } else if !has_char(&name, '.') || name_ends_with(&name, ".bin") {
        Some(InstallType::Binary)
    } else {
        None
    }
}

/// The name fragments that stand for the architecture `arch`.
pub fn fragments_for(arch: &str) -> (fragments: Vec<Vec<char>>)
    ensures
        texts_of(fragments@) == arch_fragments(arch@),
{
    let mut fragments: Vec<Vec<char>> = Vec::new();
    if same_text(arch, "x86_64") {
        fragments.push(chars_of("x86_64"));
        fragments.push(chars_of("amd64"));
        fragments.push(chars_of("x64"));
        fragments.push(chars_of("linux64"));
    } else if same_text(arch, "aarch64") {
        fragments.push(chars_of("aarch64"));
        fragments.push(chars_of("arm64"));
    } else if same_text(arch, "x86") {
        fragments.push(chars_of("i386"));
        fragments.push(chars_of("i686"));
        fragments.push(chars_of("x86"));
        fragments.push(chars_of("linux32"));
    } else {
        fragments.push(chars_of(arch));
    }
    fragments
}

/// Whether an asset of the lower-case name `lower` suits a host of
/// architecture `arch`.
pub fn is_arch_name(lower: &str, arch: &str) -> (suits: bool)
    ensures
        suits == arch_compatible(lower@, arch@),
{
    let name = chars_of(lower);
    let named = name_contains(&name, "x86") || name_contains(&name, "amd64") || name_contains(
        &name,
        "arm",
    ) || name_contains(&name, "aarch") || name_contains(&name, "i386") || name_contains(
        &name,
        "i686",
    );
    if !named {
        return true;
    }
    let fragments = fragments_for(arch);
    let mut i: usize = 0;
    while i < fragments.len()
        invariant
            i <= fragments.len(),
            name@ == lower@,
            texts_of(fragments@) == arch_fragments(arch@),
            forall|j: int| 0 <= j < i ==> !contains(name@, #[trigger] arch_fragments(arch@)[j]),
        decreases fragments.len() - i,
    {
        assert(texts_of(fragments@)[i as int] == fragments@[i as int]@);
        if has_infix(&name, &fragments[i]) {
            return true;
        }
        i += 1;
    }
    false
}

} // verus!
