//! Where recordings, transcriptions, status files and signals are kept, and
//! how the storage directory is chosen.

use vstd::prelude::*;
use vstd::string::*;

use crate::paths::{join_path, joined_path};
use crate::text::{has_infix, str_contains};

verus! {

/// Longest manual recording, in seconds (two hours).
pub const MAX_MANUAL_DURATION_SECS: u64 = 7200;

/// Interval between status updates while recording, in milliseconds.
pub const STATUS_UPDATE_INTERVAL_MS: u64 = 1000;

/// Pause that lets a file be written completely, in milliseconds.
pub const FILE_WRITE_DELAY_MS: u64 = 500;

/// The recorder's directories and timings.
pub struct RecorderConfig {
    pub storage_dir: String,
    pub recordings_dir: String,
    pub transcriptions_dir: String,
    pub status_dir: String,
    pub signals_dir: String,
    pub max_manual_duration_secs: u64,
    pub status_update_interval_ms: u64,
    pub file_write_delay_ms: u64,
}

/// `c` is the configuration rooted at `storage`.
pub open spec fn rooted_at(c: RecorderConfig, storage: Seq<char>) -> bool {
    &&& c.storage_dir@ == storage
    &&& c.recordings_dir@ == joined_path(storage, "recordings"@)
    &&& c.transcriptions_dir@ == joined_path(storage, "transcriptions"@)
    &&& c.status_dir@ == joined_path(storage, "status"@)
    &&& c.signals_dir@ == joined_path(storage, "signals"@)
    &&& c.max_manual_duration_secs == MAX_MANUAL_DURATION_SECS
    &&& c.status_update_interval_ms == STATUS_UPDATE_INTERVAL_MS
    &&& c.file_write_delay_ms == FILE_WRITE_DELAY_MS
}

/// What a saved configuration file holds.
pub struct StoredConfig {
    pub storage_dir: Option<String>,
    pub recordings_dir: Option<String>,
}

/// What `Path::parent` gives for a path: the path without its last
/// component, if it has one.
pub uninterp spec fn parent_of(path: Seq<char>) -> Option<Seq<char>>;

/// std's `Path::parent`, rendered back as text. The result is a function
/// of the path alone; which prefix it is is left to `parent_of`.
#[verifier::external_body]
fn parent_dir(path: &str) -> (r: Option<String>)
    ensures
        match r {
            Some(p) => parent_of(path@) == Some(p@),
            None => parent_of(path@) is None,
        },
{
    std::path::Path::new(path).parent().map(|p| p.to_string_lossy().into_owned())
}

/// The storage directory a saved configuration selects: its storage
/// directory, else the parent of its recordings directory, else `fallback`.
pub open spec fn stored_storage(stored: StoredConfig, fallback: Seq<char>) -> Seq<char> {
    match stored.storage_dir {
        Some(s) => s@,
        None => match stored.recordings_dir {
            Some(r) => match parent_of(r@) {
                Some(p) => p,
                None => fallback,
            },
            None => fallback,
        },
    }
}

/// The first candidate directory whose `Cargo.toml` declares a workspace.
pub open spec fn first_workspace(cands: Seq<(String, Option<String>)>) -> Option<Seq<char>>
    decreases cands.len(),
{
    if cands.len() == 0 {
        None
    } else {
        let c = cands[0];
        if c.1 matches Some(content) && has_infix(content@, "[workspace]"@) {
            Some(c.0@)
        } else {
            first_workspace(cands.drop_first())
        }
    }
}

/// A manifest that declares a workspace.
pub fn is_workspace_manifest(content: &str) -> (r: bool)
    ensures
        r == has_infix(content@, "[workspace]"@),
{
    str_contains(content, "[workspace]")
}

/// The storage directory used when none is configured: `storage` in the
/// nearest of `candidates` (the current directory and its ancestors, each
/// with the contents of its `Cargo.toml` when it has one) that holds the
/// workspace manifest, else `storage` in the current directory.
pub fn workspace_storage_dir(current_dir: &str, candidates: &Vec<(String, Option<String>)>) -> (r:
    String)
    ensures
        r@ == match first_workspace(candidates@) {
            Some(d) => joined_path(d, "storage"@),
            None => joined_path(current_dir@, "storage"@),
        },
{
    let mut i: usize = 0;
    assert(candidates@.skip(0) =~= candidates@);
    while i < candidates.len()
        invariant
            i <= candidates@.len(),
            first_workspace(candidates@) == first_workspace(candidates@.skip(i as int)),
        decreases candidates.len() - i,
    {
        assert(candidates@.skip(i as int).drop_first() =~= candidates@.skip(i + 1));
        assert(candidates@.skip(i as int)[0] == candidates@[i as int]);
        let found = match &candidates[i].1 {
            Some(content) => is_workspace_manifest(content.as_str()),
            None => false,
        };
        if found {
            return join_path(candidates[i].0.as_str(), "storage");
        }
        i = i + 1;
    }
    join_path(current_dir, "storage")
}

impl RecorderConfig {
    /// The configuration rooted at `storage_dir`: its `recordings`,
    /// `transcriptions`, `status` and `signals` subdirectories.
    pub fn from_storage_dir(storage_dir: String) -> (r: Self)
        ensures
            rooted_at(r, storage_dir@),
    {
        let recordings_dir = join_path(storage_dir.as_str(), "recordings");
        let transcriptions_dir = join_path(storage_dir.as_str(), "transcriptions");
        let status_dir = join_path(storage_dir.as_str(), "status");
        let signals_dir = join_path(storage_dir.as_str(), "signals");
        RecorderConfig {
            storage_dir,
            recordings_dir,
            transcriptions_dir,
            status_dir,
            signals_dir,
            max_manual_duration_secs: MAX_MANUAL_DURATION_SECS,
            status_update_interval_ms: STATUS_UPDATE_INTERVAL_MS,
            file_write_delay_ms: FILE_WRITE_DELAY_MS,
        }
    }

    /// The configuration in effect: the saved one when it could be read
    /// (`loaded`), else the default rooted at `workspace_storage`.
    pub fn new(loaded: Option<StoredConfig>, workspace_storage: String) -> (r: Self)
        ensures
            rooted_at(
                r,
                match loaded {
                    Some(c) => stored_storage(c, workspace_storage@),
                    None => workspace_storage@,
                },
            ),
    {
        let storage = match loaded {
            None => workspace_storage,
            Some(c) => match c.storage_dir {
                Some(s) => s,
                None => match c.recordings_dir {
                    Some(rd) => match parent_dir(rd.as_str()) {
                        Some(p) => p,
                        None => workspace_storage,
                    },
                    None => workspace_storage,
                },
            },
        };
        Self::from_storage_dir(storage)
    }
}

} // verus!
