//! The commands that the program understands, as values.

use vstd::prelude::*;

verus! {

/// What the program was asked to do.
#[derive(Debug, PartialEq, Eq)]
pub struct BaseCommand {
    pub commands: Commands,
}

#[derive(Debug, PartialEq, Eq)]
pub enum Commands {
    /// Print the location of the config dir and exit
    ConfigDir,
    Auth(Auth),
    Torrent(Torrent),
    Global(Global),
}

/// Control authentication for different urls
#[derive(Debug, PartialEq, Eq)]
pub struct Auth {
    pub commands: AuthCommands,
}

#[derive(Debug, PartialEq, Eq)]
pub enum AuthCommands {
    /// Set a url as the default
    SetDefault { url: String },
    /// List all stored urls
    List {
        /// Print the actual cookies
        show_secrets: bool,
    },
    /// Authenticate a url with a username and password. The resulting
    /// cookie is stored.
    Add {
        /// URL of the qbittorrent api
        url: String,
        /// The username to use
        username: String,
        /// The password; it is asked for where none is given
        password: Option<String>,
    },
    /// Removes the given url
    Remove { url: String },
    /// Log out of the provided url
    Logout { url: String },
}

/// Controls global settings etc. for the qbittorrent app
#[derive(Debug, PartialEq, Eq)]
pub struct Global {
    pub commands: GlobalCommands,
}

#[derive(Debug, PartialEq, Eq)]
pub enum GlobalCommands {
    /// Shuts down the app
    Shutdown,
    /// Displays the version the app is running
    Version,
    /// Displays the logs
    Log,
    /// Displays or toggles alternative speed limits
    AltSpeed { toggle: bool },
}

/// Control torrents with actions such as add, pause, etc.
#[derive(Debug, PartialEq, Eq)]
pub struct Torrent {
    pub commands: TorrentCommands,
}

#[derive(Debug, PartialEq, Eq)]
pub enum TorrentCommands {
    /// List all torrents
    List {
        /// Sort the torrents by this value
        sort: Option<TorrentSortingOptions>,
        /// Reverse the display order
        reverse: bool,
        /// Limit the number of displayed torrents
        limit: Option<u32>,
        /// Refresh the screen every X milliseconds
        interval: Option<u64>,
    },
    /// Show the contents of a specific torrent
    Content {
        /// The hash of the torrent
        hash: String,
    },
    /// Add a new torrent from a file or URL
    Add {
        /// A url (magnet) or a path to a torrent file
        url_or_path: String,
        /// Pause the torrent upon creation
        pause: bool,
    },
    /// Delete one or multiple torrents (and optionally their files on disk)
    Delete {
        /// The hashes of the torrents to be deleted
        hashes: Vec<String>,
        /// This will also delete the downloaded files from the filesystem
        delete_files: bool,
    },
    /// Pause a torrent
    Pause {
        /// The hash of the torrent
        hash: String,
    },
    /// Resume a torrent
    Resume {
        /// The hash of the torrent
        hash: String,
    },
    /// Forces the recheck of a torrent
    Recheck { hash: String },
    /// Forces the reannounce of a torrent
    Reannounce { hash: String },
}

/// What the list of torrents is sorted by.
#[derive(Debug, Copy, Clone, PartialEq, Eq, Structural)]
#[allow(non_camel_case_types)]
pub enum TorrentSortingOptions {
    Name,
    Hash,
    Progress,
    Size,
    Ratio,
    State,
    Added_On,
}

impl TorrentSortingOptions {
    /// The name of the option as the service knows it.
    pub open spec fn sort_name(self) -> Seq<char> {
        match self {
            TorrentSortingOptions::Name => "name"@,
            TorrentSortingOptions::Hash => "hash"@,
            TorrentSortingOptions::Progress => "progress"@,
            TorrentSortingOptions::Size => "size"@,
            TorrentSortingOptions::Ratio => "ratio"@,
            TorrentSortingOptions::State => "state"@,
            TorrentSortingOptions::Added_On => "added_on"@,
        }
    }

    /// The name of the option as the service knows it.
    pub fn name(&self) -> (r: &'static str)
        ensures
            r@ == self.sort_name(),
    {
        match self {
            TorrentSortingOptions::Name => "name",
            TorrentSortingOptions::Hash => "hash",
            TorrentSortingOptions::Progress => "progress",
            TorrentSortingOptions::Size => "size",
            TorrentSortingOptions::Ratio => "ratio",
            TorrentSortingOptions::State => "state",
            TorrentSortingOptions::Added_On => "added_on",
        }
    }
}

} // verus!
