//! File system paths, held as strings.

use vstd::prelude::*;

verus! {

/// The relative path that leads from directory `base` to `path`, as
/// `pathdiff::diff_paths` computes it; `None` where no such path exists.
pub uninterp spec fn spec_diff_paths(path: Seq<char>, base: Seq<char>) -> Option<Seq<char>>;

/// `base` joined with `path`, as `std::path::Path::join` computes it.
pub uninterp spec fn spec_path_join(base: Seq<char>, path: Seq<char>) -> Seq<char>;

/// Calls `pathdiff::diff_paths(path, base)`. Its result depends on its two
/// arguments alone; the contract names it `spec_diff_paths` and says nothing
/// more of it (which paths come back, and when `None` does).
#[verifier::external_body]
pub(crate) fn diff_paths(path: &str, base: &str) -> (r: Option<String>)
    ensures
        match r {
            Some(s) => spec_diff_paths(path@, base@) == Some(s@),
            None => spec_diff_paths(path@, base@) is None,
        },
{
    pathdiff::diff_paths(path, base).map(|p| p.to_string_lossy().into_owned())
}

/// Calls `std::path::Path::join(base, path)`. Its result depends on its two
/// arguments alone; the contract names it `spec_path_join` and says nothing
/// more of it.
#[verifier::external_body]
pub(crate) fn path_join(base: &str, path: &str) -> (r: String)
    ensures
        r@ == spec_path_join(base@, path@),
{
    std::path::Path::new(base).join(path).to_string_lossy().into_owned()
}

/// The directory that holds `path`, as `std::path::PathBuf::pop` leaves
/// it: `path` without its last component, or `path` itself where it has
/// none to remove.
pub uninterp spec fn spec_path_pop(path: Seq<char>) -> Seq<char>;

/// Calls `std::path::PathBuf::pop` on a copy of `path`. Its result depends
/// on `path` alone; the contract names it `spec_path_pop` and says nothing
/// more of it.
#[verifier::external_body]
pub(crate) fn path_pop(path: &str) -> (r: String)
    ensures
        r@ == spec_path_pop(path@),
{
    let mut directory = std::path::PathBuf::from(path);
    directory.pop();
    directory.to_string_lossy().into_owned()
}

/// `paths` in the order in which `std` sorts `Path`s: component by
/// component.
pub uninterp spec fn spec_sorted_paths(paths: Seq<Seq<char>>) -> Seq<Seq<char>>;

/// Sorts `paths` with `sort_unstable` as `PathBuf`s. The result is a
/// reordering of `paths`; which reordering is named `spec_sorted_paths`, a
/// function of `paths` alone, and not stated further.
#[verifier::external_body]
pub(crate) fn sorted_paths(paths: Vec<String>) -> (r: Vec<String>)
    ensures
        r@.map_values(|s: String| s@) == spec_sorted_paths(paths@.map_values(|s: String| s@)),
        r@.map_values(|s: String| s@).to_multiset() == paths@.map_values(|s: String| s@).to_multiset(),
{
    let mut sorted: Vec<std::path::PathBuf> = paths.into_iter().map(std::path::PathBuf::from).collect();
    sorted.sort_unstable();
    sorted.into_iter().map(|p| p.to_string_lossy().into_owned()).collect()
}

/// Whether `std` takes `a` and `b` for the same path: `Path`'s `==`, which
/// compares paths component by component.
pub uninterp spec fn spec_same_path(a: Seq<char>, b: Seq<char>) -> bool;

/// Compares `a` and `b` as `std::path::Path`s with `==`. Its result depends
/// on the two paths alone and is named `spec_same_path`; `Path` is `Eq`, so
/// a path is the same as itself. Which other paths it takes for the same
/// is not stated.
#[verifier::external_body]
pub(crate) fn same_path(a: &str, b: &str) -> (r: bool)
    ensures
        r == spec_same_path(a@, b@),
        a@ == b@ ==> r,
{
    std::path::Path::new(a) == std::path::Path::new(b)
}

} // verus!
