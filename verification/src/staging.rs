//! The decisions of the download-and-staging step.
//!
//! The download itself, the directory listing and the final move are file
//! system work done by the surrounding binary; this module makes the
//! decisions: which directory entries count as spreadsheets, and which of
//! them is the freshly downloaded one (the most recently modified match,
//! since the staging directory is recreated empty before every download).
use vstd::prelude::*;
use vstd::string::*;

use crate::textutil::{ends_with, ends_with_str};

verus! {

/// One entry of the staging directory: its file name and its modification
/// time, in any unit that grows with time.
pub struct DirectoryEntry {
    pub file_name: String,
    pub modified: u64,
}

/// `name` has the extension `ext`: it ends in a dot followed by `ext`,
/// with at least one character before the dot.
pub open spec fn has_extension(name: Seq<char>, ext: Seq<char>) -> bool {
    ends_with(name, seq!['.'] + ext) && name.len() > ext.len() + 1
}

/// Whether a file name carries the expected spreadsheet extension.
pub fn is_xlsx(file_name: &str, extension: &str) -> (b: bool)
    ensures
        b == has_extension(file_name@, extension@),
{
    proof {
        reveal_strlit(".");
    }
    let pattern = ".".to_owned().concat(extension);
    proof {
        assert(pattern@ =~= seq!['.'] + extension@);
    }
    let fl = file_name.unicode_len();
    let el = extension.unicode_len();
    if fl == 0 {
        proof {
            assert(!has_extension(file_name@, extension@));
        }
        return false;
    }
    let suffix_hit = ends_with_str(file_name, pattern.as_str());
    suffix_hit && fl - 1 > el
}

/// An entry whose name carries the expected extension.
pub open spec fn entry_matches(e: DirectoryEntry, ext: Seq<char>) -> bool {
    has_extension(e.file_name@, ext)
}

/// The index of the downloaded spreadsheet among the staging directory's
/// entries: the last entry, among those with the expected extension,
/// whose modification time is maximal; nothing when no entry matches.
pub fn get_path_to_file_downloaded(entries: &Vec<DirectoryEntry>, extension: &str) -> (r: Option<
    usize,
>)
    ensures
        match r {
            Some(ix) => ix < entries@.len() && entry_matches(entries@[ix as int], extension@)
                && (forall|j: int|
                0 <= j < entries@.len() && entry_matches(#[trigger] entries@[j], extension@)
                    ==> entries@[j].modified <= entries@[ix as int].modified) && (forall|j: int|
                ix < j < entries@.len() && entry_matches(#[trigger] entries@[j], extension@)
                    ==> entries@[j].modified < entries@[ix as int].modified),
            None => forall|j: int|
                0 <= j < entries@.len() ==> !entry_matches(#[trigger] entries@[j], extension@),
        },
{
    let mut best: Option<usize> = None;
    let mut i: usize = 0;
    while i < entries.len()
        invariant
            i <= entries@.len(),
            match best {
                Some(ix) => ix < i && entry_matches(entries@[ix as int], extension@) && (forall|
                    j: int,
                |
                    0 <= j < i && entry_matches(#[trigger] entries@[j], extension@)
                        ==> entries@[j].modified <= entries@[ix as int].modified) && (forall|j: int|
                    ix < j < i && entry_matches(#[trigger] entries@[j], extension@)
                        ==> entries@[j].modified < entries@[ix as int].modified),
                None => forall|j: int|
                    0 <= j < i ==> !entry_matches(#[trigger] entries@[j], extension@),
            },
        decreases entries@.len() - i,
    {
        let entry: &DirectoryEntry = &entries[i];
        if is_xlsx(entry.file_name.as_str(), extension) {
            let take = match best {
                None => true,
                Some(ix) => {
                    let current_best: &DirectoryEntry = &entries[ix];
                    entry.modified >= current_best.modified
                },
            };
            if take {
                best = Some(i);
            }
        }
        i += 1;
    }
    best
}

} // verus!
