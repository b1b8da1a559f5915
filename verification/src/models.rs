//! The data the library works on: package formats, release assets, releases
//! and tracked applications.

use crate::classify::{
    arch_compatible, format_of, format_of_name, is_arch_name, is_linux_name, linux_compatible,
};
use crate::text::{lowercase_of, same_text, to_lowercase};
use crate::time::Timestamp;
use crate::version::{has_update, update_available};
use vstd::prelude::*;

verus! {

/// The packaging format of an asset, and with it the way it is installed.
#[derive(Debug, Clone, Copy, PartialEq, Eq, Structural)]
pub enum InstallType {
    Deb,
    Rpm,
    AppImage,
    Flatpak,
    Snap,
    Binary,
    Source,
}

impl InstallType {
    /// The tag under which the format is stored.
    pub open spec fn tag(self) -> Seq<char> {
        match self {
            InstallType::Deb => "deb"@,
            InstallType::Rpm => "rpm"@,
            InstallType::AppImage => "appimage"@,
            InstallType::Flatpak => "flatpak"@,
            InstallType::Snap => "snap"@,
            InstallType::Binary => "binary"@,
            InstallType::Source => "source"@,
        }
    }

    /// The name under which the format is shown.
    pub open spec fn label(self) -> Seq<char> {
        match self {
            InstallType::Deb => "Debian Package"@,
            InstallType::Rpm => "RPM Package"@,
            InstallType::AppImage => "AppImage"@,
            InstallType::Flatpak => "Flatpak"@,
            InstallType::Snap => "Snap"@,
            InstallType::Binary => "Binary"@,
            InstallType::Source => "Source"@,
        }
    }

    /// The format whose tag is exactly `tag`, if there is one.
    pub open spec fn of_tag(tag: Seq<char>) -> Option<InstallType> {
        if tag == "deb"@ {
            Some(InstallType::Deb)
        } else if tag == "rpm"@ {
            Some(InstallType::Rpm)
        } else if tag == "appimage"@ {
            Some(InstallType::AppImage)
        } else if tag == "flatpak"@ {
            Some(InstallType::Flatpak)
        } else if tag == "snap"@ {
            Some(InstallType::Snap)
        } else if tag == "binary"@ {
            Some(InstallType::Binary)
        } else if tag == "source"@ {
            Some(InstallType::Source)
        } else {
            None
        }
    }

    /// The formats in the order in which installation prefers them: native
    /// packages first, then self-contained formats, source archives last.
    pub open spec fn priority() -> Seq<InstallType> {
        seq![
            InstallType::Deb,
            InstallType::Rpm,
            InstallType::AppImage,
            InstallType::Flatpak,
            InstallType::Snap,
            InstallType::Binary,
            InstallType::Source,
        ]
    }

    /// Installing and removing this format reads or writes directories of
    /// the user, so that what is done depends on the host.
    #[verifier::when_used_as_spec(spec_uses_host_dirs)]
    pub fn uses_host_dirs(self) -> (uses: bool)
        ensures
            uses == self.spec_uses_host_dirs(),
    {
        match self {
            InstallType::AppImage | InstallType::Binary => true,
            _ => false,
        }
    }

    /// Installing and removing this format reads or writes directories of
    /// the user, so that what is done depends on the host.
    pub open spec fn spec_uses_host_dirs(self) -> bool {
        self is AppImage || self is Binary
    }

    /// The format that `s` names: the one whose tag `s` is, or else the one
    /// whose tag `s` is once it is put in lower case.
    pub open spec fn named_by(s: Seq<char>) -> Option<InstallType> {
        match Self::of_tag(s) {
            Some(format) => Some(format),
            None => Self::of_tag(lowercase_of(s)),
        }
    }

    /// The format that `s` names, whatever the case of its letters.
    pub fn from_str(s: &str) -> (parsed: Option<Self>)
        ensures
            parsed == Self::named_by(s@),
    {
        match Self::from_tag(s) {
            Some(format) => Some(format),
            None => {
                let lower = to_lowercase(s);
                Self::from_tag(lower.as_str())
            },
        }
    }

    /// The format whose tag is exactly `tag`.
    pub fn from_tag(tag: &str) -> (parsed: Option<Self>)
        ensures
            parsed == Self::of_tag(tag@),
    {
        if same_text(tag, "deb") {
            Some(InstallType::Deb)
        } else if same_text(tag, "rpm") {
            Some(InstallType::Rpm)
        } else if same_text(tag, "appimage") {
            Some(InstallType::AppImage)
        } else if same_text(tag, "flatpak") {
            Some(InstallType::Flatpak)
        } else if same_text(tag, "snap") {
            Some(InstallType::Snap)
        } else if same_text(tag, "binary") {
            Some(InstallType::Binary)
        } else if same_text(tag, "source") {
            Some(InstallType::Source)
        } else {
            None
        }
    }

    /// The tag under which the format is stored.
    pub fn as_str(&self) -> (tag: &'static str)
        ensures
            tag@ == self.tag(),
    {
        match self {
            InstallType::Deb => "deb",
            InstallType::Rpm => "rpm",
            InstallType::AppImage => "appimage",
            InstallType::Flatpak => "flatpak",
            InstallType::Snap => "snap",
            InstallType::Binary => "binary",
            InstallType::Source => "source",
        }
    }

    /// The name under which the format is shown.
    pub fn display_name(&self) -> (label: &'static str)
        ensures
            label@ == self.label(),
    {
        match self {
            InstallType::Deb => "Debian Package",
            InstallType::Rpm => "RPM Package",
            InstallType::AppImage => "AppImage",
            InstallType::Flatpak => "Flatpak",
            InstallType::Snap => "Snap",
            InstallType::Binary => "Binary",
            InstallType::Source => "Source",
        }
    }

    /// A tag names the format it belongs to and no other: the tag of a
    /// format parses back to that format, and a text parses to a format
    /// only if it, or its form in lower case, is that format's tag. Every
    /// other text parses to none.
    pub proof fn lemma_tag_round_trip(format: InstallType, text: Seq<char>)
        ensures
            Self::of_tag(format.tag()) == Some(format),
            Self::named_by(format.tag()) == Some(format),
            Self::of_tag(text) == Some(format) <==> text == format.tag(),
            Self::of_tag(text) is None <==> forall|f: InstallType| text != #[trigger] f.tag(),
            Self::named_by(text) == Some(format) ==> text == format.tag() || lowercase_of(text)
                == format.tag(),
            Self::named_by(text) is None <==> forall|f: InstallType|
                text != #[trigger] f.tag() && lowercase_of(text) != f.tag(),
    {
        reveal_strlit("deb");
        reveal_strlit("rpm");
        reveal_strlit("appimage");
        reveal_strlit("flatpak");
        reveal_strlit("snap");
        reveal_strlit("binary");
        reveal_strlit("source");
        assert("deb"@[0] != "rpm"@[0]);
        assert("binary"@[0] != "source"@[0]);
        assert("deb"@.len() == 3 && "rpm"@.len() == 3 && "appimage"@.len() == 8);
        assert("flatpak"@.len() == 7 && "snap"@.len() == 4);
        assert("binary"@.len() == 6 && "source"@.len() == 6);
        if Self::of_tag(text) is Some {
            let f = Self::of_tag(text)->0;
            assert(text == f.tag());
        }
        let lower = lowercase_of(text);
        if Self::of_tag(lower) is Some {
            let f = Self::of_tag(lower)->0;
            assert(lower == f.tag());
        }
    }
}

/// One downloadable file of a release.
#[derive(Debug, Clone)]
pub struct ReleaseAsset {
    pub name: String,
    pub browser_download_url: String,
    pub content_type: String,
    pub size: u64,
}

impl ReleaseAsset {
    /// The file name in lower case, which is all that classification reads.
    pub open spec fn lower_name(&self) -> Seq<char> {
        lowercase_of(self.name@)
    }

    /// The packaging format that the file name stands for.
    pub fn detect_install_type(&self) -> (format: Option<InstallType>)
        ensures
            format == format_of(self.lower_name()),
    {
        let name_lower = to_lowercase(self.name.as_str());
        format_of_name(name_lower.as_str())
    }

    /// Whether the file name suits a host of architecture `arch`.
    pub fn matches_architecture(&self, arch: &str) -> (suits: bool)
        ensures
            suits == arch_compatible(self.lower_name(), arch@),
    {
        let name_lower = to_lowercase(self.name.as_str());
        is_arch_name(name_lower.as_str(), arch)
    }

    /// Whether the file name says that the asset may run on Linux.
    pub fn is_linux(&self) -> (linux: bool)
        ensures
            linux == linux_compatible(self.lower_name()),
    {
        let name_lower = to_lowercase(self.name.as_str());
        is_linux_name(name_lower.as_str())
    }
}

/// A release of a repository.
#[derive(Debug, Clone)]
pub struct Release {
    pub tag_name: String,
    pub name: Option<String>,
    pub body: Option<String>,
    pub published_at: Option<Timestamp>,
    pub prerelease: bool,
    pub draft: bool,
    pub assets: Vec<ReleaseAsset>,
}

/// An application that is tracked: where it is published, which version is
/// installed and how, and which version was last seen published.
#[derive(Debug, Clone)]
pub struct TrackedApp {
    pub id: i64,
    pub repo_owner: String,
    pub repo_name: String,
    pub display_name: String,
    pub installed_version: Option<String>,
    pub latest_version: Option<String>,
    pub install_type: Option<InstallType>,
    pub last_checked: Option<Timestamp>,
    pub created_at: Timestamp,
}

impl TrackedApp {
    /// The address of the repository's page.
    pub open spec fn url(&self) -> Seq<char> {
        "https://github.com/"@ + self.repo_owner@ + "/"@ + self.repo_name@
    }

    /// An update is there to install: both versions are known, and the
    /// latest is an update of the installed one.
    pub open spec fn update_known(&self) -> bool {
        match (self.installed_version, self.latest_version) {
            (Some(installed), Some(latest)) => update_available(installed@, latest@),
            _ => false,
        }
    }

    /// The address of the repository's page.
    pub fn repo_url(&self) -> (url: String)
        ensures
            url@ == self.url(),
    {
        let mut url = String::from_str("https://github.com/");
        url.append(self.repo_owner.as_str());
        url.append("/");
        url.append(self.repo_name.as_str());
        url
    }

    /// Whether an update is there to install.
    pub fn has_update(&self) -> (update: bool)
        ensures
            update == self.update_known(),
    {
        match (&self.installed_version, &self.latest_version) {
            (Some(installed), Some(latest)) => has_update(installed.as_str(), latest.as_str()),
            _ => false,
        }
    }

    /// Whether a version of the application is installed.
    pub fn is_installed(&self) -> (installed: bool)
        ensures
            installed == self.installed_version.is_some(),
    {
        self.installed_version.is_some()
    }
}

} // verus!
