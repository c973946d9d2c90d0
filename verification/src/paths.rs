//! File-system paths as text, with the two path operations the scheduler
//! relies on: adjoining a child to a directory and deciding whether two
//! texts denote the same entry.

use vstd::prelude::*;

verus! {

/// The text of the path that results from adjoining `child` to `base`,
/// by the rules of the platform the library is built for.
pub uninterp spec fn joined_path(base: Seq<char>, child: Seq<char>) -> Seq<char>;

/// The components a path text is made of, by the rules of the platform
/// the library is built for. Two texts denote the same entry exactly if
/// their components agree, so `a/b` and `a//b/` are the same.
pub uninterp spec fn path_components(path: Seq<char>) -> Seq<Seq<char>>;

/// Whether two path texts denote the same entry.
pub open spec fn same_entry(left: Seq<char>, right: Seq<char>) -> bool {
    path_components(left) == path_components(right)
}

/// Calls `camino::Utf8Path::join`, which hands both paths to
/// `std::path::Path::join`. Not verified: the result is only given the name
/// [`joined_path`], which claims no more than that adjoining depends on the
/// two texts alone.
#[verifier::external_body]
pub(crate) fn join(base: &str, child: &str) -> (joined: String)
    ensures
        joined@ == joined_path(base@, child@),
{
    camino::Utf8Path::new(base).join(child).into_string()
}

/// Calls `==` of `camino::Utf8Path`, which compares the components of the
/// two paths. Not verified: the components are only given the name
/// [`path_components`], which claims no more than that the comparison is
/// the equality of something that each text has on its own.
#[verifier::external_body]
pub(crate) fn is_same_entry(left: &str, right: &str) -> (same: bool)
    ensures
        same == (path_components(left@) == path_components(right@)),
{
    camino::Utf8Path::new(left) == camino::Utf8Path::new(right)
}

/// Directory below the working directory that holds one directory per plan.
pub fn plans_working_directory(working_directory: &str) -> (directory: String)
    ensures
        directory@ == joined_path(working_directory@, "plans"@),
{
    join(working_directory, "plans")
}

/// Directory below the working directory that is used while the package
/// manager is set up, with one directory per session.
pub fn rcc_setup_working_directory(working_directory: &str) -> (directory: String)
    ensures
        directory@ == joined_path(working_directory@, "rcc_setup"@),
{
    join(working_directory, "rcc_setup")
}

/// Directory below the working directory that is used while environments
/// are built, with one directory per session.
pub fn environment_building_working_directory(working_directory: &str) -> (directory: String)
    ensures
        directory@ == joined_path(working_directory@, "environment_building"@),
{
    join(working_directory, "environment_building")
}

/// Directory below the results directory that holds one result file per plan.
pub fn plan_results_directory(results_directory: &str) -> (directory: String)
    ensures
        directory@ == joined_path(results_directory@, "plans"@),
{
    join(results_directory, "plans")
}

/// Whether `path` denotes the same entry as one of `entries`.
pub open spec fn denotes_one_of(path: Seq<char>, entries: Seq<Seq<char>>) -> bool {
    exists|i: int| 0 <= i < entries.len() && same_entry(path, #[trigger] entries[i])
}

/// Whether `path` denotes the same entry as one of `entries`.
pub fn is_one_of(path: &str, entries: &Vec<String>) -> (found: bool)
    ensures
        found == denotes_one_of(path@, crate::command_spec::texts(entries@)),
{
    let ghost all = crate::command_spec::texts(entries@);
    let mut i: usize = 0;
    while i < entries.len()
        invariant
            i <= entries.len(),
            all == crate::command_spec::texts(entries@),
            forall|j: int| 0 <= j < i ==> !same_entry(path@, #[trigger] all[j]),
        decreases entries.len() - i,
    {
        if is_same_entry(path, entries[i].as_str()) {
            assert(same_entry(path@, all[i as int]));
            return true;
        }
        i += 1;
    }
    false
}

} // verus!
