//! Where audio files go: the directories beside a save file or under the
//! application's data directory.
//!
//! Paths are held as text. What the platform's path rules make of them is
//! left to `std::path`, whose results are named here and not spelled out.

use std::path::Path;
use vstd::prelude::*;

verus! {

/// The text of an optional string.
pub open spec fn option_text(text: Option<String>) -> Option<Seq<char>> {
    match text {
        Some(t) => Some(t@),
        None => None,
    }
}

/// The text of an optional string slice.
pub open spec fn option_str_text(text: Option<&str>) -> Option<Seq<char>> {
    match text {
        Some(t) => Some(t@),
        None => None,
    }
}

/// The parent of a path, as `Path::parent` of `std` gives it: the path
/// without its last component, or `None` where the path ends in a root or is
/// empty.
pub uninterp spec fn path_parent(path: Seq<char>) -> Option<Seq<char>>;

/// A base path extended by a further path, as `Path::join` of `std` gives it.
pub uninterp spec fn path_join(base: Seq<char>, child: Seq<char>) -> Seq<char>;

/// Trusted: calls `Path::parent` of `std`. The contract only gives the result
/// its name, `path_parent`; nothing is claimed of what the parent looks like.
#[verifier::external_body]
fn parent_of(path: &str) -> (parent: Option<String>)
    ensures
        option_text(parent) == path_parent(path@),
{
    match Path::new(path).parent() {
        Some(dir) => Some(dir.to_string_lossy().into_owned()),
        None => None,
    }
}

/// Trusted: calls `Path::join` of `std`. The contract only gives the result
/// its name, `path_join`.
#[verifier::external_body]
fn join_path(base: &str, child: &str) -> (joined: String)
    ensures
        joined@ == path_join(base@, child@),
{
    Path::new(base).join(child).to_string_lossy().into_owned()
}

/// Name of the directory that holds audio beside a save file.
pub open spec fn logs_dir_name() -> Seq<char> {
    "logs"@
}

/// Name of the directory that holds audio when no save file is active.
pub open spec fn temp_logs_dir_name() -> Seq<char> {
    "temp_logs"@
}

/// The `logs` directory beside a save file, where the save file's path has a
/// parent.
pub open spec fn spec_logs_dir_beside(save_path: Seq<char>) -> Option<Seq<char>> {
    match path_parent(save_path) {
        Some(dir) => Some(path_join(dir, logs_dir_name())),
        None => None,
    }
}

/// The `temp_logs` directory under the application's data directory.
pub open spec fn spec_temp_logs_dir(data_dir: Seq<char>) -> Seq<char> {
    path_join(data_dir, temp_logs_dir_name())
}

/// The `logs` directory beside a save file, or `None` where the save file's
/// path has no parent.
pub fn logs_dir_beside(save_path: &str) -> (dir: Option<String>)
    ensures
        option_text(dir) == spec_logs_dir_beside(save_path@),
{
    match parent_of(save_path) {
        Some(parent) => Some(join_path(parent.as_str(), "logs")),
        None => None,
    }
}

/// The `temp_logs` directory under the application's data directory.
pub fn temp_logs_dir(data_dir: &str) -> (dir: String)
    ensures
        dir@ == spec_temp_logs_dir(data_dir@),
{
    join_path(data_dir, "temp_logs")
}

/// Joins a file name to a directory.
pub fn file_in_dir(dir: &str, file_name: &str) -> (path: String)
    ensures
        path@ == path_join(dir@, file_name@),
{
    join_path(dir, file_name)
}

/// Where a session keeps its audio: beside the save file of the current
/// game, or in a temporary place when the game has no save file. Chosen once,
/// when the session is created.
#[derive(Debug, PartialEq, Eq)]
pub enum AudioDir {
    GameDir(String),
    TempDir(String),
}

/// An audio destination with its path as text.
pub enum AudioDirView {
    GameDir(Seq<char>),
    TempDir(Seq<char>),
}

impl View for AudioDir {
    type V = AudioDirView;

    open spec fn view(&self) -> AudioDirView {
        match *self {
            AudioDir::GameDir(path) => AudioDirView::GameDir(path@),
            AudioDir::TempDir(path) => AudioDirView::TempDir(path@),
        }
    }
}

/// The view of an optional destination.
pub open spec fn option_dir_view(dir: Option<AudioDir>) -> Option<AudioDirView> {
    match dir {
        Some(d) => Some(d@),
        None => None,
    }
}

impl AudioDir {
    /// The directory's path.
    pub open spec fn location(self) -> Seq<char> {
        match self {
            AudioDir::GameDir(path) => path@,
            AudioDir::TempDir(path) => path@,
        }
    }

    /// The destination that belongs to a game: `logs` beside its save file
    /// if it has one, else `temp_logs` under the data directory. There is
    /// none where the save file's path has no parent.
    pub open spec fn spec_for_game(save_path: Option<Seq<char>>, data_dir: Seq<char>) -> Option<
        AudioDirView,
    > {
        match save_path {
            Some(path) => match spec_logs_dir_beside(path) {
                Some(logs) => Some(AudioDirView::GameDir(logs)),
                None => None,
            },
            None => Some(AudioDirView::TempDir(spec_temp_logs_dir(data_dir))),
        }
    }

    /// The directory's path.
    pub fn path(&self) -> (path: &str)
        ensures
            path@ == self.location(),
    {
        match self {
            AudioDir::GameDir(path) => path.as_str(),
            AudioDir::TempDir(path) => path.as_str(),
        }
    }

    /// Whether the directory lies beside a save file.
    pub fn is_game_dir(&self) -> (persistent: bool)
        ensures
            persistent == (*self is GameDir),
    {
        match self {
            AudioDir::GameDir(_) => true,
            AudioDir::TempDir(_) => false,
        }
    }

    /// Picks the destination for a session from the save file of the current
    /// game, if it has one. `None` is returned exactly where a save file is
    /// given whose path has no parent.
    pub fn for_game(save_path: Option<&str>, data_dir: &str) -> (dir: Option<AudioDir>)
        ensures
            option_dir_view(dir) == Self::spec_for_game(option_str_text(save_path), data_dir@),
    {
        match save_path {
            Some(path) => match logs_dir_beside(path) {
                Some(logs) => Some(AudioDir::GameDir(logs)),
                None => None,
            },
            None => Some(AudioDir::TempDir(temp_logs_dir(data_dir))),
        }
    }
}

impl Clone for AudioDir {
    fn clone(&self) -> (copy: AudioDir)
        ensures
            copy == *self,
    {
        match self {
            AudioDir::GameDir(path) => AudioDir::GameDir(path.clone()),
            AudioDir::TempDir(path) => AudioDir::TempDir(path.clone()),
        }
    }
}

} // verus!
