//! The directories that a run goes through.

use crate::paths::opt_text;
use vstd::prelude::*;
use vstd::string::*;

verus! {

/// The texts of a list of strings.
pub open spec fn texts(v: Seq<String>) -> Seq<Seq<char>> {
    v.map_values(|s: String| s@)
}

/// The texts of a list of entries of which some could not be read.
pub open spec fn entry_texts(v: Seq<Option<String>>) -> Seq<Option<Seq<char>>> {
    v.map_values(|o: Option<String>| opt_text(o))
}

/// The entries that could be read, in the order in which they were found.
pub open spec fn found_spec(entries: Seq<Option<Seq<char>>>) -> Seq<Seq<char>>
    decreases entries.len(),
{
    if entries.len() == 0 {
        Seq::empty()
    } else {
        let before = found_spec(entries.drop_last());
        match entries.last() {
            Some(path) => before.push(path),
            None => before,
        }
    }
}

/// The root, then every directory found below it.
pub open spec fn recursive_gather_dirs_spec(
    dir_path: Seq<char>,
    entries: Seq<Option<Seq<char>>>,
) -> Seq<Seq<char>> {
    seq![dir_path] + found_spec(entries)
}

/// The directories of a run: the root alone, or with all that was found
/// below it where the run is recursive.
pub open spec fn collect_dirs_spec(
    root: Seq<char>,
    recursive: bool,
    entries: Seq<Option<Seq<char>>>,
) -> Seq<Seq<char>> {
    if recursive {
        recursive_gather_dirs_spec(root, entries)
    } else {
        seq![root]
    }
}

/// Lists the directories of a recursive run. `entries` is what a traversal
/// below `dir_path` came upon, in its order; `None` stands for an entry that
/// could not be read, which is left out.
pub fn recursive_gather_dirs(dir_path: &str, entries: &Vec<Option<String>>) -> (paths: Vec<String>)
    ensures
        texts(paths@) == recursive_gather_dirs_spec(dir_path@, entry_texts(entries@)),
{
    let mut paths: Vec<String> = Vec::new();
    paths.push(dir_path.to_owned());
    assert(texts(paths@) =~= seq![dir_path@] + found_spec(entry_texts(entries@).take(0)));
    let mut i: usize = 0;
    while i < entries.len()
        invariant
            i <= entries.len(),
            texts(paths@) == seq![dir_path@] + found_spec(entry_texts(entries@).take(i as int)),
        decreases entries.len() - i,
    {
        let ghost before = entry_texts(entries@).take(i as int);
        let ghost now = entry_texts(entries@).take(i + 1);
        assert(now.drop_last() =~= before);
        assert(now.last() == opt_text(entries@[i as int]));
        match &entries[i] {
            Some(path) => {
                let ghost old_paths = texts(paths@);
                paths.push(path.clone());
                assert(texts(paths@) =~= old_paths.push(path@));
                assert(texts(paths@) =~= seq![dir_path@] + found_spec(now));
            },
            None => {},
        }
        i += 1;
    }
    assert(entry_texts(entries@).take(i as int) =~= entry_texts(entries@));
    paths
}

/// Lists the directories of a run. Where the run is not recursive nothing
/// but the root is listed, whatever `entries` holds.
pub fn collect_dirs(root: &str, recursive: bool, entries: &Vec<Option<String>>) -> (dirs: Vec<
    String,
>)
    ensures
        texts(dirs@) == collect_dirs_spec(root@, recursive, entry_texts(entries@)),
{
    if recursive {
        recursive_gather_dirs(root, entries)
    } else {
        let mut dirs: Vec<String> = Vec::new();
        dirs.push(root.to_owned());
        assert(texts(dirs@) =~= seq![root@]);
        dirs
    }
}

/// Exactly the readable entries are listed: a path is among what was found
/// if and only if some entry holds it.
pub proof fn lemma_found_complete(entries: Seq<Option<Seq<char>>>, path: Seq<char>)
    ensures
        found_spec(entries).contains(path) <==> entries.contains(Some(path)),
    decreases entries.len(),
{
    if entries.len() == 0 {
    } else {
        let init = entries.drop_last();
        let before = found_spec(init);
        lemma_found_complete(init, path);
        if entries.contains(Some(path)) {
            let i = choose|i: int| 0 <= i < entries.len() && entries[i] == Some(path);
            if i < entries.len() - 1 {
                assert(init[i] == Some(path));
                let j = choose|j: int| 0 <= j < before.len() && before[j] == path;
                match entries.last() {
                    Some(p) => {
                        assert(before.push(p)[j] == path);
                    },
                    None => {},
                }
            } else {
                assert(before.push(path)[before.len() as int] == path);
            }
        }
        if found_spec(entries).contains(path) {
            let j = choose|j: int| 0 <= j < found_spec(entries).len() && found_spec(entries)[j] == path;
            if j < before.len() {
                assert(before[j] == path);
                let i = choose|i: int| 0 <= i < init.len() && init[i] == Some(path);
                assert(entries[i] == Some(path));
            } else {
                assert(entries[entries.len() - 1] == Some(path));
            }
        }
    }
}

/// The listing of a run starts with the root, and a directory other than the
/// root is listed only where the run is recursive and the traversal found it.
pub proof fn lemma_collect_scope(
    root: Seq<char>,
    recursive: bool,
    entries: Seq<Option<Seq<char>>>,
    path: Seq<char>,
)
    ensures
        collect_dirs_spec(root, recursive, entries)[0] == root,
        collect_dirs_spec(root, recursive, entries).contains(path) <==> (path == root || (recursive
            && entries.contains(Some(path)))),
{
    let dirs = collect_dirs_spec(root, recursive, entries);
    let found = found_spec(entries);
    lemma_found_complete(entries, path);
    assert(dirs[0] == root);
    if recursive {
        if found.contains(path) {
            let j = choose|j: int| 0 <= j < found.len() && found[j] == path;
            assert(dirs[j + 1] == path);
        }
        if dirs.contains(path) {
            let k = choose|k: int| 0 <= k < dirs.len() && dirs[k] == path;
            if k > 0 {
                assert(found[k - 1] == path);
            }
        }
    } else {
        if dirs.contains(path) {
            let k = choose|k: int| 0 <= k < dirs.len() && dirs[k] == path;
            assert(k == 0);
        }
    }
}

} // verus!
