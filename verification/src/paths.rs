//! Paths, carried as text, and the directories of the user that the
//! library builds them from.

use crate::text::text_of;
use vstd::prelude::*;

verus! {

/// What `Path::join` yields for two paths given as text: `child` adjoined
/// to `base`.
pub uninterp spec fn joined_path(base: Seq<char>, child: Seq<char>) -> Seq<char>;

/// What `Path::file_name` yields for a path given as text: its final
/// component, if it has one.
pub uninterp spec fn final_component(path: Seq<char>) -> Option<Seq<char>>;

/// `Path::join`: the result is the named adjoining of the two paths.
#[verifier::external_body]
pub(crate) fn join_path(base: &str, child: &str) -> (joined: String)
    ensures
        joined@ == joined_path(base@, child@),
{
    std::path::Path::new(base).join(child).to_string_lossy().into_owned()
}

/// `Path::file_name`: the result is the named final component of the path.
#[verifier::external_body]
pub(crate) fn file_name_of(path: &str) -> (name: Option<String>)
    ensures
        match name {
            Some(n) => final_component(path@) == Some(n@),
            None => final_component(path@) is None,
        },
{
    match std::path::Path::new(path).file_name() {
        Some(name) => Some(name.to_string_lossy().into_owned()),
        None => None,
    }
}

/// `dirs::home_dir`: the home directory of the user, as the environment of
/// the process gives it. Nothing is promised of it.
#[verifier::external_body]
fn home_dir() -> Option<String> {
    match dirs::home_dir() {
        Some(dir) => Some(dir.to_string_lossy().into_owned()),
        None => None,
    }
}

/// `dirs::data_dir`: the data directory of the user, as the environment of
/// the process gives it. Nothing is promised of it.
#[verifier::external_body]
fn data_dir() -> Option<String> {
    match dirs::data_dir() {
        Some(dir) => Some(dir.to_string_lossy().into_owned()),
        None => None,
    }
}

/// `dirs::config_dir`: the configuration directory of the user, as the
/// environment of the process gives it. Nothing is promised of it.
#[verifier::external_body]
fn config_dir() -> Option<String> {
    match dirs::config_dir() {
        Some(dir) => Some(dir.to_string_lossy().into_owned()),
        None => None,
    }
}

/// The directories of the user, as far as the host has them.
#[derive(Debug)]
pub struct HostDirs {
    pub home: Option<String>,
    pub data: Option<String>,
    pub config: Option<String>,
}

/// A directory of the user that the host does not have.
#[derive(Debug, Clone, Copy, PartialEq, Eq, Structural)]
pub enum MissingDirectory {
    Data,
    Config,
}

impl MissingDirectory {
    /// What is said of the missing directory.
    pub open spec fn message(self) -> Seq<char> {
        match self {
            MissingDirectory::Data => "Could not find data directory"@,
            MissingDirectory::Config => "Could not find config directory"@,
        }
    }

    /// What is said of the missing directory.
    pub fn describe(&self) -> (message: &'static str)
        ensures
            message@ == self.message(),
    {
        match self {
            MissingDirectory::Data => "Could not find data directory",
            MissingDirectory::Config => "Could not find config directory",
        }
    }
}

impl HostDirs {
    /// The directories of the user on this host, whatever they are.
    pub fn detect() -> HostDirs {
        HostDirs { home: home_dir(), data: data_dir(), config: config_dir() }
    }

    /// A host on which the user has no directory at all.
    pub fn none() -> (dirs: HostDirs)
        ensures
            dirs.home is None,
            dirs.data is None,
            dirs.config is None,
    {
        HostDirs { home: None, data: None, config: None }
    }

    /// The directory in which the user's own programs lie: `.local/bin`
    /// under the home directory.
    pub open spec fn bin_path(self) -> Option<Seq<char>> {
        match self.home {
            Some(home) => Some(joined_path(joined_path(home@, ".local"@), "bin"@)),
            None => None,
        }
    }

    /// The directory of the user's desktop entries: `applications` under
    /// the data directory.
    pub open spec fn applications_path(self) -> Option<Seq<char>> {
        match self.data {
            Some(data) => Some(joined_path(data@, "applications"@)),
            None => None,
        }
    }

    /// The directory in which the user's own programs lie.
    pub fn bin_dir(&self) -> (dir: Option<String>)
        ensures
            text_of(dir) == self.bin_path(),
    {
        match &self.home {
            Some(home) => {
                let local = join_path(home.as_str(), ".local");
                Some(join_path(local.as_str(), "bin"))
            },
            None => None,
        }
    }

    /// The directory of the user's desktop entries.
    pub fn applications_dir(&self) -> (dir: Option<String>)
        ensures
            text_of(dir) == self.applications_path(),
    {
        match &self.data {
            Some(data) => Some(join_path(data.as_str(), "applications")),
            None => None,
        }
    }
}

} // verus!
