//! Lookup of the sound files that are embedded in the program.
//!
//! The embedded files are a directory tree of `include_dir`. The tree is read
//! through one trusted function, and what is read is described by a tree of
//! plain values, [`AssetNode`].

use crate::paths::option_text;
use include_dir::{Dir, DirEntry};
use std::path::Path;
use vstd::prelude::*;
use vstd::string::StringExecFns;

verus! {

/// Declares the directory type of `include_dir` to the verifier. Nothing of
/// its inside is visible to proofs.
#[verifier::external_type_specification]
#[verifier::external_body]
pub struct ExDir<'a>(Dir<'a>);

/// An entry of an embedded directory as plain data: a file with its path, or
/// a directory with its path and its own entries.
pub enum AssetNode {
    File { path: Seq<char> },
    Dir { path: Seq<char>, entries: Seq<AssetNode> },
}

/// An entry of an embedded directory as the program sees it.
#[derive(Debug)]
pub enum AssetEntry<'a> {
    /// A file, with its path.
    File(String),
    /// A directory.
    Dir(&'a Dir<'a>),
}

/// What an embedded directory holds: its entries, in the order the directory
/// keeps them.
pub uninterp spec fn dir_entries(dir: Dir) -> Seq<AssetNode>;

/// The stem of a path's file name, as `Path::file_stem` of `std` gives it:
/// the file name without its last extension, or `None` where the path has no
/// file name.
pub uninterp spec fn path_file_stem(path: Seq<char>) -> Option<Seq<char>>;

/// The extension of a path's file name, as `Path::extension` of `std` gives
/// it, without the dot, or `None` where there is none.
pub uninterp spec fn path_extension(path: Seq<char>) -> Option<Seq<char>>;

/// Whether an entry as the program sees it is the given entry of the tree.
pub open spec fn shows(entry: AssetEntry, node: AssetNode) -> bool {
    match node {
        AssetNode::File { path } => entry matches AssetEntry::File(text) && text@ == path,
        AssetNode::Dir { path, entries } => entry matches AssetEntry::Dir(dir) && dir_entries(*dir)
            == entries,
    }
}

/// Trusted: reads one entry of a directory through `Dir::entries` of
/// `include_dir`, and a file's path through `File::path`. The contract says
/// that the entry at a position is the one that `dir_entries` names there,
/// that the number of entries fits the machine's index type, as the length
/// of a slice does, and that there is none past the last position. That a
/// directory holds finitely many entries, each a file or a directory of the
/// same kind, is what `dir_entries` itself assumes.
#[verifier::external_body]
fn entry_at<'a>(dir: &'a Dir<'a>, at: usize) -> (entry: Option<AssetEntry<'a>>)
    ensures
        match entry {
            Some(found) => {
                &&& at < dir_entries(*dir).len() <= usize::MAX
                &&& shows(found, dir_entries(*dir)[at as int])
            },
            None => at >= dir_entries(*dir).len(),
        },
{
    match dir.entries().get(at) {
        Some(DirEntry::File(file)) => Some(
            AssetEntry::File(file.path().to_string_lossy().into_owned()),
        ),
        Some(DirEntry::Dir(sub)) => Some(AssetEntry::Dir(sub)),
        None => None,
    }
}

/// Trusted: calls `Path::file_stem` of `std`. The contract only gives the
/// result its name, `path_file_stem`.
#[verifier::external_body]
fn file_stem_of(path: &str) -> (stem: Option<String>)
    ensures
        option_text(stem) == path_file_stem(path@),
{
    match Path::new(path).file_stem() {
        Some(stem) => Some(stem.to_string_lossy().into_owned()),
        None => None,
    }
}

/// Trusted: calls `Path::extension` of `std`. The contract only gives the
/// result its name, `path_extension`.
#[verifier::external_body]
fn extension_of(path: &str) -> (extension: Option<String>)
    ensures
        option_text(extension) == path_extension(path@),
{
    match Path::new(path).extension() {
        Some(extension) => Some(extension.to_string_lossy().into_owned()),
        None => None,
    }
}

/// Whether an entry is a file whose name, without its extension, is `name`.
pub open spec fn is_sound_named(node: AssetNode, name: Seq<char>) -> bool {
    node matches AssetNode::File { path } && path_file_stem(path) == Some(name)
}

/// The path of the first file among `entries` whose name, without its
/// extension, is `name`. Directories among the entries are not entered.
pub open spec fn spec_sound_asset_path(entries: Seq<AssetNode>, name: Seq<char>) -> Option<
    Seq<char>,
>
    decreases entries.len(),
{
    if entries.len() == 0 {
        None
    } else if is_sound_named(entries.first(), name) {
        Some(entries.first()->File_path)
    } else {
        spec_sound_asset_path(entries.drop_first(), name)
    }
}

/// Whether a path ends in the extension of a sound file.
pub open spec fn is_sound_path(path: Seq<char>) -> bool {
    path_extension(path) == Some("mp3"@)
}

/// The paths of all sound files in a tree of entries: every file with the
/// `mp3` extension, in the order of the entries, a directory standing for all
/// that is found in it.
pub open spec fn spec_all_sounds(entries: Seq<AssetNode>) -> Seq<Seq<char>>
    decreases entries,
{
    if entries.len() == 0 {
        Seq::empty()
    } else {
        let before = spec_all_sounds(entries.drop_last());
        match entries.last() {
            AssetNode::File { path } => if is_sound_path(path) {
                before.push(path)
            } else {
                before
            },
            AssetNode::Dir { path, entries: inner } => before + spec_all_sounds(inner),
        }
    }
}

/// The texts of a sequence of strings.
pub open spec fn texts(strings: Seq<String>) -> Seq<Seq<char>> {
    Seq::new(strings.len(), |i: int| strings[i]@)
}

/// Looks a sound up by its name: the path of the first file directly in
/// `sounds` whose name, without its extension, is `file_name`.
pub fn get_sound_asset_path(sounds: &Dir, file_name: &str) -> (path: Option<String>)
    ensures
        option_text(path) == spec_sound_asset_path(dir_entries(*sounds), file_name@),
{
    let ghost entries = dir_entries(*sounds);
    let wanted = String::from_str(file_name);
    let mut at: usize = 0;
    assert(entries.skip(0) == entries);
    loop
        invariant
            entries == dir_entries(*sounds),
            wanted@ == file_name@,
            at <= entries.len(),
            spec_sound_asset_path(entries, file_name@) == spec_sound_asset_path(
                entries.skip(at as int),
                file_name@,
            ),
        decreases entries.len() - at,
    {
        match entry_at(sounds, at) {
            Some(AssetEntry::File(path)) => {
                let is_named = match file_stem_of(path.as_str()) {
                    Some(stem) => stem == wanted,
                    None => false,
                };
                if is_named {
                    return Some(path);
                }
            },
            Some(AssetEntry::Dir(_)) => {},
            None => {
                return None;
            },
        }
        assert(entries.skip(at as int).drop_first() == entries.skip(at as int + 1));
        at += 1;
    }
}

/// Adds the paths of all sound files under `dir` to `found`.
fn collect_sounds<'a>(dir: &'a Dir<'a>, found: &mut Vec<String>)
    ensures
        texts(final(found)@) == texts(old(found)@) + spec_all_sounds(dir_entries(*dir)),
    decreases dir_entries(*dir),
{
    let ghost entries = dir_entries(*dir);
    let ghost start = texts(found@);
    let sound_extension = String::from_str("mp3");
    let mut at: usize = 0;
    assert(texts(found@) == start + spec_all_sounds(entries.take(0)));
    loop
        invariant
            entries == dir_entries(*dir),
            start == texts(old(found)@),
            sound_extension@ == "mp3"@,
            at <= entries.len(),
            texts(found@) == start + spec_all_sounds(entries.take(at as int)),
        decreases entries.len() - at,
    {
        let ghost before = texts(found@);
        match entry_at(dir, at) {
            Some(AssetEntry::File(path)) => {
                let is_sound = match extension_of(path.as_str()) {
                    Some(extension) => extension == sound_extension,
                    None => false,
                };
                if is_sound {
                    found.push(path);
                    assert(texts(found@) == before.push(path@));
                }
            },
            Some(AssetEntry::Dir(sub)) => {
                collect_sounds(sub, found);
            },
            None => {
                assert(entries.take(at as int) == entries);
                return ;
            },
        }
        assert(entries.take(at as int + 1).drop_last() == entries.take(at as int));
        at += 1;
    }
}

/// The paths of all sound files under `sounds`, directories included.
pub fn get_all_sounds(sounds: &Dir) -> (paths: Vec<String>)
    ensures
        texts(paths@) == spec_all_sounds(dir_entries(*sounds)),
{
    let mut found: Vec<String> = Vec::new();
    collect_sounds(sounds, &mut found);
    assert(texts(Seq::<String>::empty()) == Seq::<Seq<char>>::empty());
    found
}

} // verus!
