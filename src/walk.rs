use vstd::prelude::*;

verus! {

/// What a directory entry is, as its file type says.
#[derive(Debug, Clone, Copy, PartialEq, Eq, Structural)]
pub enum EntryKind {
    Directory,
    File,
    Symlink,
    Other,
}

/// What the walk does with a directory entry.
#[derive(Debug, Clone, Copy, PartialEq, Eq, Structural)]
pub enum EntryAction {
    /// Crawl the subdirectory.
    Descend,
    /// Read and search the asset file.
    Scan,
    /// A file of another kind: nothing to do.
    Ignore,
    /// A symbolic link: skipped with a warning, never followed.
    SkipSymlink,
    /// Neither file, directory nor link: skipped with a warning.
    SkipUnknown,
}

/// Whether `i` is the position of the last `.` of `name`.
pub open spec fn is_last_dot(name: Seq<char>, i: int) -> bool {
    0 <= i < name.len() && name[i] == '.' && forall|j: int| i < j < name.len() ==> name[j] != '.'
}

/// The extension of a file name: what follows its last `.`, where that dot
/// is not the first character; none for `..`.
pub open spec fn extension_of(name: Seq<char>) -> Option<Seq<char>> {
    if name =~= seq!['.', '.'] {
        None
    } else if exists|i: int| is_last_dot(name, i) {
        let i = choose|i: int| is_last_dot(name, i);
        if i == 0 {
            None
        } else {
            Some(name.subrange(i + 1, name.len() as int))
        }
    } else {
        None
    }
}

/// Whether an extension is one of the asset kinds searched: scenes and
/// prefabs.
pub open spec fn is_asset_extension(ext: Seq<char>) -> bool {
    ext == "unity"@ || ext == "prefab"@
}

/// What the walk does with an entry of the given kind and file name.
pub open spec fn entry_action(kind: EntryKind, name: Seq<char>) -> EntryAction {
    match kind {
        EntryKind::Directory => EntryAction::Descend,
        EntryKind::File => match extension_of(name) {
            Some(ext) => if is_asset_extension(ext) {
                EntryAction::Scan
            } else {
                EntryAction::Ignore
            },
            None => EntryAction::Ignore,
        },
        EntryKind::Symlink => EntryAction::SkipSymlink,
        EntryKind::Other => EntryAction::SkipUnknown,
    }
}

/// The extension of a file name, as a path's extension is read.
pub fn file_extension(name: &str) -> (r: Option<String>)
    ensures
        match r {
            Some(e) => extension_of(name@) == Some(e@),
            None => extension_of(name@) is None,
        },
{
    let n = name.unicode_len();
    if n == 2 && name.get_char(0) == '.' && name.get_char(1) == '.' {
        assert(name@ =~= seq!['.', '.']);
        return None;
    }
    assert(!(name@ =~= seq!['.', '.'])) by {
        if name@ =~= seq!['.', '.'] {
            assert(name@[0] == '.' && name@[1] == '.');
        }
    }
    let mut i: usize = n;
    while i > 0
        invariant
            n == name@.len(),
            !(name@ =~= seq!['.', '.']),
            i <= n,
            forall|j: int| i <= j < n ==> name@[j] != '.',
        decreases i,
    {
        if name.get_char(i - 1) == '.' {
            let d = i - 1;
            assert(is_last_dot(name@, d as int));
            let ghost c = choose|c: int| is_last_dot(name@, c);
            assert(c == d) by {
                if c < d {
                    assert(name@[d as int] != '.');
                } else if c > d {
                    assert(name@[c] != '.');
                }
            }
            if d == 0 {
                return None;
            }
            return Some(name.substring_char(i, n).to_owned());
        }
        i = i - 1;
    }
    assert(forall|j: int| !is_last_dot(name@, j));
    None
}

/// Whether a file name carries the extension of a searched asset kind.
pub fn is_asset_file(name: &str) -> (r: bool)
    ensures
        r == (extension_of(name@) matches Some(ext) && is_asset_extension(ext)),
{
    match file_extension(name) {
        Some(ext) => {
            crate::node::same_text(ext.as_str(), "unity") || crate::node::same_text(ext.as_str(), "prefab")
        },
        None => false,
    }
}

/// Classifies one directory entry: subdirectories are crawled, asset files
/// are searched, other files are ignored, and symbolic links and entries of
/// any other type are skipped.
pub fn crawl_dir_entry(kind: EntryKind, name: &str) -> (r: EntryAction)
    ensures
        r == entry_action(kind, name@),
{
    match kind {
        EntryKind::Directory => EntryAction::Descend,
        EntryKind::File => if is_asset_file(name) {
            EntryAction::Scan
        } else {
            EntryAction::Ignore
        },
        EntryKind::Symlink => EntryAction::SkipSymlink,
        EntryKind::Other => EntryAction::SkipUnknown,
    }
}

} // verus!
