//! File-system paths, held as text and combined by the standard library.
//!
//! The library never looks inside a path: it hands texts to the standard
//! library and takes what that gives. The names below stand for what it
//! gives; nothing here says what that is.

use vstd::prelude::*;

verus! {

/// The path that `std::path::Path::join` gives for a base and a child.
pub uninterp spec fn joined_path(base: Seq<char>, child: Seq<char>) -> Seq<char>;

/// The directory part that `std::path::Path::parent` gives for a path;
/// nothing where the path has none.
pub uninterp spec fn path_parent(path: Seq<char>) -> Option<Seq<char>>;

/// The last component that `std::path::Path::file_name` gives for a path;
/// empty where the path has none.
pub uninterp spec fn path_file_name(path: Seq<char>) -> Seq<char>;

/// Appends `child` to `base`.
///
/// Trusted: calls `std::path::Path::join` and hands the result back as text.
/// Nothing is claimed of the result but that it is the one `join` gives for
/// these two texts.
#[verifier::external_body]
pub(crate) fn join_path(base: &str, child: &str) -> (path: String)
    ensures
        path@ == joined_path(base@, child@),
{
    std::path::Path::new(base).join(child).to_string_lossy().into_owned()
}

/// The directory that holds `path`.
///
/// Trusted: calls `std::path::Path::parent` and hands the result back as
/// text. Nothing is claimed of the result but that it is the one `parent`
/// gives for this text.
#[verifier::external_body]
pub(crate) fn parent_of(path: &str) -> (parent: Option<String>)
    ensures
        match parent {
            Some(p) => path_parent(path@) == Some(p@),
            None => path_parent(path@) is None,
        },
{
    match std::path::Path::new(path).parent() {
        Some(p) => Some(p.to_string_lossy().into_owned()),
        None => None,
    }
}

/// The file name at the end of `path`.
///
/// Trusted: calls `std::path::Path::file_name`; a path without a file name
/// gives the empty text.
#[verifier::external_body]
pub(crate) fn file_name_of(path: &str) -> (name: String)
    ensures
        name@ == path_file_name(path@),
{
    std::path::Path::new(path).file_name().and_then(|e| e.to_str()).unwrap_or_default().to_string()
}

/// A base path with each of `parts` appended in turn.
pub open spec fn joined_all(base: Seq<char>, parts: Seq<Seq<char>>) -> Seq<char>
    decreases parts.len(),
{
    if parts.len() == 0 {
        base
    } else {
        joined_path(joined_all(base, parts.drop_last()), parts.last())
    }
}

/// The texts of a list of string slices.
pub open spec fn views_of(parts: Seq<&str>) -> Seq<Seq<char>> {
    Seq::new(parts.len(), |i: int| parts[i]@)
}

/// Appends each of `parts` to `base`, in order.
pub fn join_all(base: &str, parts: &[&str]) -> (path: String)
    ensures
        path@ == joined_all(base@, views_of(parts@)),
{
    let mut path = base.to_string();
    let mut i: usize = 0;
    assert(views_of(parts@).take(0) =~= Seq::<Seq<char>>::empty());
    while i < parts.len()
        invariant
            i <= parts.len(),
            path@ == joined_all(base@, views_of(parts@).take(i as int)),
        decreases parts.len() - i,
    {
        path = join_path(path.as_str(), parts[i]);
        proof {
            let all = views_of(parts@);
            assert(all.take(i + 1).drop_last() =~= all.take(i as int));
            assert(all.take(i + 1).last() == parts@[i as int]@);
        }
        i += 1;
    }
    assert(views_of(parts@).take(parts.len() as int) =~= views_of(parts@));
    path
}

} // verus!
