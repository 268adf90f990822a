//! The values that the parts of the launcher hand to each other.
use vstd::prelude::*;

verus! {

/// What stands at a place in the file system.
#[derive(Clone, Copy, Debug, PartialEq, Eq, Structural)]
pub enum Presence {
    Missing,
    File,
    Folder,
    /// Something that is neither a file nor a folder.
    Other,
}

impl Presence {
    /// Whether anything stands there.
    pub fn is_present(self) -> (r: bool)
        ensures
            r == (self != Presence::Missing),
    {
        match self {
            Presence::Missing => false,
            _ => true,
        }
    }

    /// Whether a file stands there.
    pub fn is_file(self) -> (r: bool)
        ensures
            r == (self == Presence::File),
    {
        match self {
            Presence::File => true,
            _ => false,
        }
    }

    /// Whether a folder stands there.
    pub fn is_dir(self) -> (r: bool)
        ensures
            r == (self == Presence::Folder),
    {
        match self {
            Presence::Folder => true,
            _ => false,
        }
    }
}

/// A file of a published release, as it is to be downloaded.
#[derive(Debug)]
pub struct ReleaseInfo {
    pub tag: String,
    pub asset_name: String,
    pub download_url: String,
    pub size: u64,
    pub digest: Option<String>,
}

/// What the launcher reports while it works.
#[derive(Debug)]
pub enum OperationEvent {
    /// `percent` is from 0 to 100.
    Progress { stage: String, message: String, percent: u8 },
}

/// What the launcher recorded when it installed Sunrise.
#[derive(Debug)]
pub struct InstallerState {
    pub release_tag: String,
    pub release_asset_digest: Option<String>,
    pub installed_dll_sha256: String,
    pub installed_at_utc: String,
    pub steam_language: Option<String>,
    pub missions_commit: Option<String>,
}

/// What the launcher shows of an installation folder.
#[derive(Debug)]
pub struct InstallationSnapshot {
    pub status: String,
    pub message: String,
    pub game_found: bool,
    pub installed_release: Option<String>,
    pub installed_release_digest: Option<String>,
    pub installed_at: Option<String>,
    pub local_file_changed: bool,
    pub steam_language: Option<String>,
    pub missions_commit: Option<String>,
}

/// The view of a text that may be absent.
pub open spec fn text_view(text: Option<String>) -> Option<Seq<char>> {
    match text {
        Some(text) => Some(text@),
        None => None,
    }
}

} // verus!
