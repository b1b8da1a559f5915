//! Release-asset resolution and installation dispatch for applications
//! published as GitHub releases.
//!
//! Given the assets of a release and the host they are meant for, the
//! library picks the one asset to install (`classify`, `resolver`), and
//! says step by step how a package of each format is installed and removed
//! (`scripts`, `procedure`, `installer`). It compares versions to tell
//! whether an update is there (`version`), finds out how the running
//! application was itself installed (`detect`), and decides what the store
//! of tracked applications is to hold of it (`registry`).
//!
//! Of the host the library reads nothing but where the directories of the
//! user lie. It touches neither the network nor a file and starts no
//! program: whatever has to be done on the host is handed out as an
//! `actions::Action`, and what came of it is taken back as an
//! `actions::Outcome`.

pub mod actions;
pub mod classify;
pub mod detect;
pub mod github_api;
pub mod installer;
pub mod models;
pub mod paths;
pub mod presentation;
pub mod procedure;
pub mod registry;
pub mod resolver;
pub mod scripts;
pub mod text;
pub mod time;
pub mod version;
