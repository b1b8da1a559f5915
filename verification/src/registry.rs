//! What the library decides about the store of registered applications: where
//! the store lies, how a stored row becomes a registered application, and how
//! the running application registers itself for its own updates.

use crate::models::{InstallType, TrackedApp};
use crate::paths::{join_path, joined_path, MissingDirectory};
use crate::text::text_of;
use crate::time::{instant_of, parse_optional_timestamp, parse_timestamp, Timestamp};
use vstd::prelude::*;

verus! {

/// Where the store lies: the directory that has to exist, and the file in
/// it.
#[derive(Debug)]
pub struct StoreLocation {
    pub dir: String,
    pub file: String,
}

/// The place of the store on a host with the configuration directory
/// `config`: the file `autonomix.db` in the directory `autonomix` under it.
/// Without a configuration directory the store has no place.
pub fn default_path(config: &Option<String>) -> (location: Result<StoreLocation, MissingDirectory>)
    ensures
        match location {
            Ok(place) => {
                &&& text_of(*config) is Some
                &&& place.dir@ == joined_path(text_of(*config)->0, "autonomix"@)
                &&& place.file@ == joined_path(place.dir@, "autonomix.db"@)
            },
            Err(missing) => config is None && missing == MissingDirectory::Config,
        },
{
    match config {
        Some(base) => {
            let dir = join_path(base.as_str(), "autonomix");
            let file = join_path(dir.as_str(), "autonomix.db");
            Ok(StoreLocation { dir, file })
        },
        None => Err(MissingDirectory::Config),
    }
}

/// A row of the store, as it is read: every column as the store holds it.
#[derive(Debug)]
pub struct StoredApp {
    pub id: i64,
    pub repo_owner: String,
    pub repo_name: String,
    pub display_name: String,
    pub installed_version: Option<String>,
    pub latest_version: Option<String>,
    pub install_type: Option<String>,
    pub last_checked: Option<String>,
    pub created_at: String,
}

/// The format that a stored tag names, whatever its case; none where
/// nothing is stored or the tag names no format.
pub open spec fn stored_format(tag: Option<String>) -> Option<InstallType> {
    match tag {
        Some(text) => InstallType::named_by(text@),
        None => None,
    }
}

/// The instant that a stored date spells as RFC 3339; none where nothing
/// is stored or the text is no such date.
pub open spec fn stored_instant(text: Option<String>) -> Option<Timestamp> {
    match text {
        Some(t) => instant_of(t@),
        None => None,
    }
}

/// `app` is what `row` stores, read at the instant `now`: the texts as they
/// are, the format and the dates parsed, and a date of creation that cannot
/// be read taken to be `now`.
pub open spec fn is_app_of(app: TrackedApp, row: StoredApp, now: Timestamp) -> bool {
    &&& app.id == row.id
    &&& app.repo_owner == row.repo_owner
    &&& app.repo_name == row.repo_name
    &&& app.display_name == row.display_name
    &&& app.installed_version == row.installed_version
    &&& app.latest_version == row.latest_version
    &&& app.install_type == stored_format(row.install_type)
    &&& app.last_checked == stored_instant(row.last_checked)
    &&& app.created_at == match instant_of(row.created_at@) {
        Some(instant) => instant,
        None => now,
    }
}

impl TrackedApp {
    /// The registered application that `row` stores, read at the instant
    /// `now`.
    pub fn from_stored(row: StoredApp, now: Timestamp) -> (app: TrackedApp)
        ensures
            is_app_of(app, row, now),
    {
        let install_type = match &row.install_type {
            Some(tag) => InstallType::from_str(tag.as_str()),
            None => None,
        };
        let last_checked = parse_optional_timestamp(&row.last_checked);
        let created_at = match parse_timestamp(row.created_at.as_str()) {
            Some(instant) => instant,
            None => now,
        };
        TrackedApp {
            id: row.id,
            repo_owner: row.repo_owner,
            repo_name: row.repo_name,
            display_name: row.display_name,
            installed_version: row.installed_version,
            latest_version: row.latest_version,
            install_type,
            last_checked,
            created_at,
        }
    }
}

/// What the store is to do so that the running application tracks itself.
#[derive(Debug)]
pub enum SelfRegistration {
    /// Track the application, as installed in `version`, and as installed
    /// by `install_type` where that is known.
    Track {
        repo_owner: String,
        repo_name: String,
        display_name: String,
        version: String,
        install_type: Option<InstallType>,
    },
    /// Record `version` as installed for the application stored under `id`,
    /// and `install_type`, where there is one, as the way it was installed.
    Refresh { id: i64, version: String, install_type: Option<InstallType> },
    /// Leave the store as it is.
    Nothing,
}

/// The format to record for an application that is stored with `stored`
/// and was detected as `detected`: the detected one where something was
/// detected that the store does not say already.
pub open spec fn format_to_record(stored: Option<InstallType>, detected: Option<InstallType>)
    -> Option<InstallType> {
    if detected is Some && stored != detected {
        detected
    } else {
        None
    }
}

/// `plan` is what the store is to do for the running application of
/// version `version`, which was detected as installed by `detected`:
/// track it where it is not registered; bring its version, and its format if
/// that changed, up to date where it is; nothing where it is said to be
/// registered and is not found.
pub open spec fn is_self_registration(
    plan: SelfRegistration,
    registered: bool,
    existing: Option<TrackedApp>,
    detected: Option<InstallType>,
    version: Seq<char>,
) -> bool {
    match plan {
        SelfRegistration::Track {
            repo_owner,
            repo_name,
            display_name,
            version: recorded,
            install_type,
        } => {
            &&& !registered
            &&& repo_owner@ == "PlebOne"@
            &&& repo_name@ == "autonomix"@
            &&& display_name@ == "Autonomix"@
            &&& recorded@ == version
            &&& install_type == detected
        },
        SelfRegistration::Refresh { id, version: recorded, install_type } => {
            &&& registered
            &&& existing matches Some(app)
            &&& id == app.id
            &&& recorded@ == version
            &&& install_type == format_to_record(app.install_type, detected)
        },
        SelfRegistration::Nothing => registered && existing is None,
    }
}

/// What the store is to do so that the running application, of version
/// `current_version` and detected as installed by `detected`, tracks
/// itself. `registered` says whether the store tracks it already, `existing`
/// is what the store holds of it.
pub fn plan_self_registration(
    registered: bool,
    existing: Option<&TrackedApp>,
    detected: Option<InstallType>,
    current_version: &str,
) -> (plan: SelfRegistration)
    ensures
        is_self_registration(
            plan,
            registered,
            match existing {
                Some(app) => Some(*app),
                None => None,
            },
            detected,
            current_version@,
        ),
{
    if !registered {
        return SelfRegistration::Track {
            repo_owner: String::from_str("PlebOne"),
            repo_name: String::from_str("autonomix"),
            display_name: String::from_str("Autonomix"),
            version: String::from_str(current_version),
            install_type: detected,
        };
    }
    match existing {
        Some(app) => {
            let changed = match (detected, app.install_type) {
                (Some(found), Some(stored)) => found != stored,
                (Some(_), None) => true,
                (None, _) => false,
            };
            SelfRegistration::Refresh {
                id: app.id,
                version: String::from_str(current_version),
                install_type: if changed {
                    detected
                } else {
                    None
                },
            }
        },
        None => SelfRegistration::Nothing,
    }
}

} // verus!
