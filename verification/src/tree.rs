//! The listing of the content tree that the read-only route serves.

use vstd::prelude::*;
use std::path::Path;

verus! {

/// A file or directory as it was found on disk: its path, whether it is a
/// directory, and, for a directory, the entries that could be read from it
/// (none when it could not be read).
#[derive(Debug)]
pub struct FsEntry {
    pub path: String,
    pub is_dir: bool,
    pub entries: Vec<FsEntry>,
}

/// A file or directory as it is listed: its name, its path relative to the
/// content root, whether it is a directory, and the listing of its entries
/// when it is one.
#[derive(Debug)]
pub struct FileNode {
    pub name: String,
    pub path: String,
    pub is_dir: bool,
    pub children: Option<Vec<FileNode>>,
}

/// `Path::file_name` of `path`, as characters.
pub uninterp spec fn path_file_name(path: Seq<char>) -> Option<Seq<char>>;

/// `Path::strip_prefix(base)` of `path`, as characters: the rest of `path`
/// below `base`, or `None` when `base` is not a leading part of `path`.
pub uninterp spec fn path_below(path: Seq<char>, base: Seq<char>) -> Option<Seq<char>>;

/// `std::path::Path::file_name` of `path`, read back lossily as text. The
/// result is named, not stated: which final component a path has follows the
/// platform's path rules.
#[verifier::external_body]
fn file_name_of(path: &str) -> (name: Option<String>)
    ensures
        name matches Some(n) ==> path_file_name(path@) == Some(n@),
        name is None ==> path_file_name(path@) is None,
{
    match Path::new(path).file_name() {
        Some(name) => Some(name.to_string_lossy().into_owned()),
        None => None,
    }
}

/// `std::path::Path::strip_prefix` of `path` by `base`, read back lossily as
/// text; `None` stands for its error. The result is named, not stated.
#[verifier::external_body]
fn strip_base(path: &str, base: &str) -> (rest: Option<String>)
    ensures
        rest matches Some(r) ==> path_below(path@, base@) == Some(r@),
        rest is None ==> path_below(path@, base@) is None,
{
    match Path::new(path).strip_prefix(base) {
        Ok(rest) => Some(rest.to_string_lossy().into_owned()),
        Err(_) => None,
    }
}

/// The name under which an entry is listed: its final component, or nothing.
pub open spec fn listed_name(path: Seq<char>) -> Seq<char> {
    match path_file_name(path) {
        Some(name) => name,
        None => Seq::empty(),
    }
}

/// The path under which an entry is listed: the rest of it after `root`
/// when `root` is a leading part of it (`Path::strip_prefix`), else as found.
pub open spec fn shown_path(path: Seq<char>, root: Seq<char>) -> Seq<char> {
    match path_below(path, root) {
        Some(rest) => rest,
        None => path,
    }
}

/// Whether `node` is the listing of `entry` below `root`, all the way down.
pub open spec fn lists(node: FileNode, entry: FsEntry, root: Seq<char>) -> bool
    decreases entry,
{
    &&& node.name@ == listed_name(entry.path@)
    &&& node.path@ == shown_path(entry.path@, root)
    &&& node.is_dir == entry.is_dir
    &&& if entry.is_dir {
        &&& node.children is Some
        &&& node.children->0@.len() == entry.entries@.len()
        &&& forall|i: int|
            #![trigger node.children->0@[i]]
            0 <= i < entry.entries@.len() ==> lists(node.children->0@[i], entry.entries@[i], root)
    } else {
        node.children is None
    }
}

/// A directory node lists a directory entry when its own fields match and
/// each of its children lists the entry at the same position.
proof fn lemma_directory_listed(node: FileNode, entry: FsEntry, root: Seq<char>)
    requires
        node.name@ == listed_name(entry.path@),
        node.path@ == shown_path(entry.path@, root),
        node.is_dir == entry.is_dir,
        entry.is_dir,
        node.children is Some,
        node.children->0@.len() == entry.entries@.len(),
        forall|i: int|
            #![trigger node.children->0@[i]]
            0 <= i < entry.entries@.len() ==> lists(node.children->0@[i], entry.entries@[i], root),
    ensures
        lists(node, entry, root),
{
}

/// Lists `entry` and, for a directory, everything found below it, with paths
/// relative to `root`. The root is the configured content root, so a
/// deployment whose root is `../root` lists paths relative to `../root`.
pub fn build_tree(entry: &FsEntry, root: &str) -> (node: FileNode)
    ensures
        lists(node, *entry, root@),
        path_file_name(entry.path@) matches Some(n) ==> node.name@ == n,
        path_file_name(entry.path@) is None ==> node.name@.len() == 0,
        path_below(entry.path@, root@) matches Some(rest) ==> node.path@ == rest,
        path_below(entry.path@, root@) is None ==> node.path@ == entry.path@,
        node.is_dir == entry.is_dir,
        node.children is Some <==> entry.is_dir,
    decreases entry,
{
    let name = match file_name_of(entry.path.as_str()) {
        Some(name) => name,
        None => String::new(),
    };
    let path = match strip_base(entry.path.as_str(), root) {
        Some(rest) => rest,
        None => entry.path.clone(),
    };
    let children = if entry.is_dir {
        let mut nodes: Vec<FileNode> = Vec::new();
        let mut i: usize = 0;
        while i < entry.entries.len()
            invariant
                i <= entry.entries@.len(),
                nodes@.len() == i,
                forall|j: int| 0 <= j < i ==> #[trigger] lists(nodes@[j], entry.entries@[j], root@),
            decreases entry.entries@.len() - i,
        {
            let child = build_tree(&entry.entries[i], root);
            nodes.push(child);
            i = i + 1;
        }
        Some(nodes)
    } else {
        None
    };
    let node = FileNode { name, path, is_dir: entry.is_dir, children };
    proof {
        if entry.is_dir {
            lemma_directory_listed(node, *entry, root@);
        }
    }
    node
}

/// In a listing, every node, at any depth, is named by the whole final
/// component of its entry's path (or nothing, for a path without one), shows
/// that path below the root (or whole, when it does not lie below the root),
/// and has children exactly when its entry is a directory, one for each
/// entry read from it.
pub proof fn lemma_listing_names_whole_components(node: FileNode, entry: FsEntry, root: Seq<char>)
    requires
        lists(node, entry, root),
    ensures
        path_file_name(entry.path@) matches Some(n) ==> node.name@ == n,
        path_file_name(entry.path@) is None ==> node.name@.len() == 0,
        path_below(entry.path@, root) matches Some(rest) ==> node.path@ == rest,
        path_below(entry.path@, root) is None ==> node.path@ == entry.path@,
        node.is_dir == entry.is_dir,
        node.children is Some <==> entry.is_dir,
        node.children matches Some(c) ==> c@.len() == entry.entries@.len(),
{
}

} // verus!
