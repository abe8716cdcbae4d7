//! Which entries of a directory are listed as `.txt` files.
//!
//! Reading the directory is the caller's part; it hands in, for each entry,
//! the file name and whether the entry is a regular file.

use crate::selection::labels;
use vstd::prelude::*;
use vstd::string::StrSliceExecFns;

verus! {

/// What is known of one directory entry.
#[derive(Debug)]
pub struct Entry {
    /// The file name, without the directory.
    pub name: String,
    /// Whether the entry is a regular file.
    pub is_file: bool,
}

/// The extension looked for: `txt`, in lower case.
pub open spec fn txt() -> Seq<char> {
    seq!['t', 'x', 't']
}

/// `ext` is the extension of the file name `name`: the name is a non-empty
/// stem, a `.`, and `ext`, which holds no `.` itself. A name that only starts
/// with a `.` has no extension. Characters are compared as they are, so case
/// matters.
pub open spec fn has_extension(name: Seq<char>, ext: Seq<char>) -> bool {
    &&& !ext.contains('.')
    &&& exists|stem: Seq<char>| stem.len() > 0 && name == #[trigger] (stem + seq!['.']) + ext
}

/// The name under which `entry` is listed, if it is: regular files with the
/// extension `txt` are, under their file name.
pub open spec fn listed_name(entry: Entry) -> Option<Seq<char>> {
    if entry.is_file && has_extension(entry.name@, txt()) {
        Some(entry.name@)
    } else {
        None
    }
}

/// The names listed for `entries`, in the order of the entries.
pub open spec fn listed_names(entries: Seq<Entry>) -> Seq<Seq<char>> {
    entries.filter_map(|entry: Entry| listed_name(entry))
}

/// A name has the extension `txt` exactly when it has at least five
/// characters and ends in `.txt`.
pub proof fn lemma_txt_suffix(name: Seq<char>)
    ensures
        has_extension(name, txt()) <==> {
            &&& name.len() >= 5
            &&& name[name.len() - 4] == '.'
            &&& name[name.len() - 3] == 't'
            &&& name[name.len() - 2] == 'x'
            &&& name[name.len() - 1] == 't'
        },
{
    let n = name.len() as int;
    if has_extension(name, txt()) {
        let stem = choose|stem: Seq<char>|
            stem.len() > 0 && name == #[trigger] (stem + seq!['.']) + txt();
        assert(n == stem.len() + 4);
    }
    if n >= 5 && name[n - 4] == '.' && name[n - 3] == 't' && name[n - 2] == 'x' && name[n - 1]
        == 't' {
        let stem = name.take(n - 4);
        assert(name =~= (stem + seq!['.']) + txt());
    }
}

/// Whether the file name `name` has the extension `txt`.
pub fn has_txt_extension(name: &str) -> (yes: bool)
    ensures
        yes == has_extension(name@, txt()),
{
    proof {
        lemma_txt_suffix(name@);
    }
    let n: usize = name.unicode_len();
    if n < 5 {
        return false;
    }
    name.get_char(n - 4) == '.' && name.get_char(n - 3) == 't' && name.get_char(n - 2) == 'x'
        && name.get_char(n - 1) == 't'
}

/// The names of the regular files among `entries` that have the extension
/// `txt`, in the order of the entries.
pub fn list_txt_files(entries: &Vec<Entry>) -> (names: Vec<String>)
    ensures
        labels(names@) == listed_names(entries@),
{
    let mut names: Vec<String> = Vec::new();
    let mut i: usize = 0;
    while i < entries.len()
        invariant
            i <= entries.len(),
            labels(names@) == listed_names(entries@.take(i as int)),
        decreases entries.len() - i,
    {
        let entry = &entries[i];
        proof {
            entries@.lemma_filter_map_take_succ(|entry: Entry| listed_name(entry), i as int);
        }
        if entry.is_file && has_txt_extension(entry.name.as_str()) {
            names.push(entry.name.clone());
        }
        i += 1;
    }
    assert(entries@.take(entries@.len() as int) =~= entries@);
    names
}

/// The file list to show for the outcome of a scan: the listed names of its
/// entries, or nothing at all when the directory could not be read.
pub fn file_list(scan: Option<Vec<Entry>>) -> (names: Vec<String>)
    ensures
        labels(names@) == match scan {
            Some(entries) => listed_names(entries@),
            None => Seq::empty(),
        },
{
    match scan {
        Some(entries) => list_txt_files(&entries),
        None => Vec::new(),
    }
}

} // verus!
