//! Where under the content root each route reads and writes its files.

use vstd::prelude::*;
use vstd::string::*;

verus! {

/// The markdown page `tail` of the content: `<root>/<tail>.md`.
pub open spec fn page_file(root: Seq<char>, tail: Seq<char>) -> Seq<char> {
    root + "/"@ + tail + ".md"@
}

/// The component `tail`: `<root>/component/<tail>`.
pub open spec fn component_file(root: Seq<char>, tail: Seq<char>) -> Seq<char> {
    root + "/component/"@ + tail
}

/// The navigation file `tail`: `<root>/navigation/<tail>`.
pub open spec fn navigation_file(root: Seq<char>, tail: Seq<char>) -> Seq<char> {
    root + "/navigation/"@ + tail
}

/// The navigation component in use: `<root>/navigation/default.vue`.
pub open spec fn active_navigation_file(root: Seq<char>) -> Seq<char> {
    root + "/navigation/default.vue"@
}

/// An uploaded image: `<root>/images/<file_name>`.
pub open spec fn image_file(root: Seq<char>, file_name: Seq<char>) -> Seq<char> {
    root + "/images/"@ + file_name
}

/// A directory or file of the content listed by the read-only route:
/// `<root>/<tail>`.
pub open spec fn listed_path(root: Seq<char>, tail: Seq<char>) -> Seq<char> {
    root + "/"@ + tail
}

/// Whether the text of `path` begins with `<root>/`: the text of `root`
/// followed by a separator. This is a property of the text alone; it does not
/// resolve `..` components, so a path that begins with `<root>/` may still name
/// a file outside the directory `root` on disk (`<root>/../x` does).
pub open spec fn begins_with_root(root: Seq<char>, path: Seq<char>) -> bool {
    path.len() > root.len() && path.subrange(0, root.len() as int) == root && path[root.len() as int]
        == '/'
}

/// The page file that the carbon route reads and writes.
pub fn carbon_path(root: &str, tail: &str) -> (path: String)
    ensures
        path@ == page_file(root@, tail@),
{
    let mut path = String::from_str(root);
    path.append("/");
    path.append(tail);
    path.append(".md");
    path
}

/// The component file that the component route reads and writes.
pub fn component_path(root: &str, tail: &str) -> (path: String)
    ensures
        path@ == component_file(root@, tail@),
{
    let mut path = String::from_str(root);
    path.append("/component/");
    path.append(tail);
    path
}

/// The navigation file that the navigation route reads and writes.
pub fn navigation_path(root: &str, tail: &str) -> (path: String)
    ensures
        path@ == navigation_file(root@, tail@),
{
    let mut path = String::from_str(root);
    path.append("/navigation/");
    path.append(tail);
    path
}

/// The navigation component that the active-navigation route reads.
pub fn active_navigation_path(root: &str) -> (path: String)
    ensures
        path@ == active_navigation_file(root@),
{
    let mut path = String::from_str(root);
    path.append("/navigation/default.vue");
    path
}

/// The file that an uploaded image named `file_name` is written to.
pub fn image_path(root: &str, file_name: &str) -> (path: String)
    ensures
        path@ == image_file(root@, file_name@),
{
    let mut path = String::from_str(root);
    path.append("/images/");
    path.append(file_name);
    path
}

/// Where an uploaded part is written: under the images directory with the
/// file name that the part declares; a part without a file name is not
/// written.
pub fn image_target(root: &str, file_name: Option<&str>) -> (path: Option<String>)
    ensures
        file_name matches Some(f) ==> path matches Some(p) && p@ == image_file(root@, f@),
        file_name is None ==> path is None,
{
    match file_name {
        Some(f) => Some(image_path(root, f)),
        None => None,
    }
}

/// The directory or file whose tree the read-only route lists.
pub fn listing_path(root: &str, tail: &str) -> (path: String)
    ensures
        path@ == listed_path(root@, tail@),
{
    let mut path = String::from_str(root);
    path.append("/");
    path.append(tail);
    path
}

proof fn lemma_separator_after_root(root: Seq<char>, rest: Seq<char>)
    requires
        rest.len() > 0,
        rest[0] == '/',
    ensures
        begins_with_root(root, root + rest),
{
    assert((root + rest).subrange(0, root.len() as int) =~= root);
}

/// The path of every file that a route reads or writes begins, as text, with
/// the content root followed by a separator, whatever the requested tail or
/// file name. The tail is inserted as it was requested: `..` components in it
/// are kept, and may lead out of the content root on disk.
pub proof fn lemma_paths_begin_with_root(root: Seq<char>, tail: Seq<char>)
    ensures
        begins_with_root(root, page_file(root, tail)),
        begins_with_root(root, component_file(root, tail)),
        begins_with_root(root, navigation_file(root, tail)),
        begins_with_root(root, active_navigation_file(root)),
        begins_with_root(root, image_file(root, tail)),
        begins_with_root(root, listed_path(root, tail)),
{
    reveal_strlit("/");
    reveal_strlit("/component/");
    reveal_strlit("/navigation/");
    reveal_strlit("/navigation/default.vue");
    reveal_strlit("/images/");
    reveal_strlit(".md");
    lemma_separator_after_root(root, "/"@ + tail + ".md"@);
    assert(page_file(root, tail) =~= root + ("/"@ + tail + ".md"@));
    lemma_separator_after_root(root, "/component/"@ + tail);
    assert(component_file(root, tail) =~= root + ("/component/"@ + tail));
    lemma_separator_after_root(root, "/navigation/"@ + tail);
    assert(navigation_file(root, tail) =~= root + ("/navigation/"@ + tail));
    lemma_separator_after_root(root, "/navigation/default.vue"@);
    lemma_separator_after_root(root, "/images/"@ + tail);
    assert(image_file(root, tail) =~= root + ("/images/"@ + tail));
    lemma_separator_after_root(root, "/"@ + tail);
    assert(listed_path(root, tail) =~= root + ("/"@ + tail));
}

} // verus!
