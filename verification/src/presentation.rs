//! What a list of tracked applications shows of each of them.

use crate::models::{InstallType, TrackedApp};
use vstd::prelude::*;

verus! {

/// What a list shows of one tracked application.
#[derive(Debug, Clone)]
pub struct AppData {
    pub id: i64,
    pub display_name: String,
    pub repo_owner: String,
    pub repo_name: String,
    pub installed_version: String,
    pub latest_version: String,
    pub install_type: String,
    pub has_update: bool,
    pub is_installed: bool,
}

/// The text of an optional string, empty where there is none.
pub open spec fn text_or_empty(text: Option<String>) -> Seq<char> {
    match text {
        Some(t) => t@,
        None => Seq::empty(),
    }
}

/// The name under which an optional format is shown, empty where there is
/// none.
pub open spec fn label_or_empty(format: Option<InstallType>) -> Seq<char> {
    match format {
        Some(f) => f.label(),
        None => Seq::empty(),
    }
}

/// `data` shows `app`: its names as they are, its versions and the name of
/// its format, each empty where unknown, and whether it is installed and
/// has an update.
pub open spec fn shows(data: AppData, app: TrackedApp) -> bool {
    &&& data.id == app.id
    &&& data.display_name@ == app.display_name@
    &&& data.repo_owner@ == app.repo_owner@
    &&& data.repo_name@ == app.repo_name@
    &&& data.installed_version@ == text_or_empty(app.installed_version)
    &&& data.latest_version@ == text_or_empty(app.latest_version)
    &&& data.install_type@ == label_or_empty(app.install_type)
    &&& data.has_update == app.update_known()
    &&& data.is_installed == app.installed_version.is_some()
}

fn owned_or_empty(text: &Option<String>) -> (out: String)
    ensures
        out@ == text_or_empty(*text),
{
    match text {
        Some(t) => t.clone(),
        None => String::new(),
    }
}

impl AppData {
    /// What a list shows of `app`.
    pub fn from_tracked_app(app: &TrackedApp) -> (data: Self)
        ensures
            shows(data, *app),
    {
        AppData {
            id: app.id,
            display_name: app.display_name.clone(),
            repo_owner: app.repo_owner.clone(),
            repo_name: app.repo_name.clone(),
            installed_version: owned_or_empty(&app.installed_version),
            latest_version: owned_or_empty(&app.latest_version),
            install_type: match app.install_type {
                Some(format) => String::from_str(format.display_name()),
                None => String::new(),
            },
            has_update: app.has_update(),
            is_installed: app.is_installed(),
        }
    }
}

/// The state of a tracked application, as a list marks it.
#[derive(Debug, Clone, Copy, PartialEq, Eq, Structural)]
pub enum AppStatus {
    /// A newer version than the installed one is published.
    UpdateAvailable,
    /// A version is installed, and none newer is known.
    Installed,
    /// No version is installed.
    NotInstalled,
}

/// The state of `app`.
pub open spec fn status(app: TrackedApp) -> AppStatus {
    if app.update_known() {
        AppStatus::UpdateAvailable
    } else if app.installed_version.is_some() {
        AppStatus::Installed
    } else {
        AppStatus::NotInstalled
    }
}

/// The state of `app`.
pub fn status_of(app: &TrackedApp) -> (state: AppStatus)
    ensures
        state == status(*app),
{
    if app.has_update() {
        AppStatus::UpdateAvailable
    } else if app.is_installed() {
        AppStatus::Installed
    } else {
        AppStatus::NotInstalled
    }
}

/// The line under the name of `app`: its repository, then the name of its
/// format if it has one, then the note of an update if there is one, with a
/// bullet between them.
pub open spec fn subtitle(app: TrackedApp) -> Seq<char> {
    app.repo_owner@ + "/"@ + app.repo_name@ + match app.install_type {
        Some(format) => " \u{2022} "@ + format.label(),
        None => Seq::empty(),
    } + if app.update_known() {
        " \u{2022} Update available"@
    } else {
        Seq::empty()
    }
}

/// The line under the name of `app`.
pub fn build_subtitle(app: &TrackedApp) -> (line: String)
    ensures
        line@ == subtitle(*app),
{
    let mut line = app.repo_owner.clone();
    line.append("/");
    line.append(app.repo_name.as_str());
    if let Some(format) = app.install_type {
        line.append(" \u{2022} ");
        line.append(format.display_name());
    }
    if app.has_update() {
        line.append(" \u{2022} Update available");
    }
    line
}

} // verus!
