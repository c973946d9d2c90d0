//! Removal of entries that no configured plan owns.

use crate::command_spec::texts;
use crate::internal_config::{plan_results_files, results_files, Plan};
use crate::lock::LockOutcome;
use crate::paths::{denotes_one_of, is_one_of, same_entry};
use crate::setup::general::SetupError;
use vstd::prelude::*;

verus! {

/// What a directory entry is.
#[derive(Debug, Clone, Copy, PartialEq, Eq)]
pub enum EntryKind {
    File,
    Directory,
    Other,
}

/// An entry found in a directory.
#[derive(Debug, Clone, PartialEq, Eq)]
pub struct DirectoryEntry {
    pub path: String,
    pub kind: EntryKind,
}

/// The entries that are files.
pub open spec fn is_file() -> spec_fn(DirectoryEntry) -> bool {
    |entry: DirectoryEntry| entry.kind is File
}

/// The entries that are directories.
pub open spec fn is_directory() -> spec_fn(DirectoryEntry) -> bool {
    |entry: DirectoryEntry| entry.kind is Directory
}

/// The paths of a sequence of entries, in order.
pub open spec fn entry_paths(entries: Seq<DirectoryEntry>) -> Seq<Seq<char>> {
    entries.map_values(|entry: DirectoryEntry| entry.path@)
}

fn paths_of_kind(entries: &Vec<DirectoryEntry>, directories: bool) -> (paths: Vec<String>)
    ensures
        texts(paths@) == entry_paths(
            entries@.filter(
                if directories {
                    is_directory()
                } else {
                    is_file()
                },
            ),
        ),
{
    let ghost wanted = if directories {
        is_directory()
    } else {
        is_file()
    };
    let mut paths: Vec<String> = Vec::new();
    let mut i: usize = 0;
    proof {
        reveal(Seq::filter);
        assert(entries@.take(0).filter(wanted) =~= Seq::empty());
        assert(texts(paths@) =~= entry_paths(entries@.take(0).filter(wanted)));
    }
    while i < entries.len()
        invariant
            i <= entries.len(),
            wanted == if directories {
                is_directory()
            } else {
                is_file()
            },
            texts(paths@) == entry_paths(entries@.take(i as int).filter(wanted)),
        decreases entries.len() - i,
    {
        let ghost done = entries@.take(i as int);
        let ghost before = paths@;
        proof {
            assert(entries@.take(i + 1) =~= done.push(entries@[i as int]));
            done.lemma_filter_push(entries@[i as int], wanted);
        }
        let matches = match entries[i].kind {
            EntryKind::File => !directories,
            EntryKind::Directory => directories,
            EntryKind::Other => false,
        };
        if matches {
            paths.push(entries[i].path.clone());
            assert(texts(paths@) =~= texts(before).push(entries@[i as int].path@));
            assert(entry_paths(done.filter(wanted).push(entries@[i as int])) =~= entry_paths(
                done.filter(wanted),
            ).push(entries@[i as int].path@));
        }
        i += 1;
    }
    assert(entries@.take(entries.len() as int) =~= entries@);
    paths
}

/// The directories among the entries of a directory, in order.
pub fn top_level_directories(entries: &Vec<DirectoryEntry>) -> (paths: Vec<String>)
    ensures
        texts(paths@) == entry_paths(entries@.filter(is_directory())),
{
    paths_of_kind(entries, true)
}

/// The files among the entries of a directory, in order.
pub fn top_level_files(entries: &Vec<DirectoryEntry>) -> (paths: Vec<String>)
    ensures
        texts(paths@) == entry_paths(entries@.filter(is_file())),
{
    paths_of_kind(entries, false)
}

/// The entries to remove: those of `present` that denote none of `keep`,
/// each entry once, in the order in which they are present.
pub open spec fn stale_entries(keep: Seq<Seq<char>>, present: Seq<Seq<char>>) -> Seq<Seq<char>>
    decreases present.len(),
{
    if present.len() == 0 {
        Seq::empty()
    } else {
        let earlier = stale_entries(keep, present.drop_last());
        if denotes_one_of(present.last(), keep) || denotes_one_of(
            present.last(),
            present.drop_last(),
        ) {
            earlier
        } else {
            earlier.push(present.last())
        }
    }
}

/// The entries that are still present after the stale ones were removed.
pub open spec fn remaining_entries(keep: Seq<Seq<char>>, present: Seq<Seq<char>>) -> Seq<Seq<char>> {
    present.filter(|entry: Seq<char>| !denotes_one_of(entry, stale_entries(keep, present)))
}

/// Cleanup is conservative: whatever it removes is present and denotes
/// none of the entries to keep.
pub proof fn lemma_removes_only_stale_entries(
    keep: Seq<Seq<char>>,
    present: Seq<Seq<char>>,
    i: int,
)
    requires
        0 <= i < stale_entries(keep, present).len(),
    ensures
        present.contains(stale_entries(keep, present)[i]),
        !denotes_one_of(stale_entries(keep, present)[i], keep),
    decreases present.len(),
{
    if present.len() > 0 {
        let earlier = stale_entries(keep, present.drop_last());
        if i < earlier.len() {
            lemma_removes_only_stale_entries(keep, present.drop_last(), i);
            let entry = earlier[i];
            let j = choose|j: int| 0 <= j < present.drop_last().len() && present.drop_last()[j] == entry;
            assert(present[j] == entry);
        } else {
            assert(present[present.len() - 1] == present.last());
        }
    }
}

/// Cleanup is complete: every present entry that denotes none of the
/// entries to keep is removed, itself or as the same entry under another
/// text.
pub proof fn lemma_removes_every_stale_entry(
    keep: Seq<Seq<char>>,
    present: Seq<Seq<char>>,
    i: int,
)
    requires
        0 <= i < present.len(),
        !denotes_one_of(present[i], keep),
    ensures
        denotes_one_of(present[i], stale_entries(keep, present)),
    decreases present.len(),
{
    let front = present.drop_last();
    let earlier = stale_entries(keep, front);
    let stale = stale_entries(keep, present);
    if i < present.len() - 1 {
        lemma_removes_every_stale_entry(keep, front, i);
        let k = choose|k: int| 0 <= k < earlier.len() && same_entry(front[i], #[trigger] earlier[k]);
        assert(stale[k] == earlier[k]);
        assert(same_entry(present[i], stale[k]));
    } else if denotes_one_of(present.last(), front) {
        let j = choose|j: int| 0 <= j < front.len() && same_entry(present.last(), #[trigger] front[j]);
        assert(!denotes_one_of(front[j], keep)) by {
            if denotes_one_of(front[j], keep) {
                let k = choose|k: int| 0 <= k < keep.len() && same_entry(front[j], #[trigger] keep[k]);
                assert(same_entry(present.last(), keep[k]));
            }
        }
        lemma_removes_every_stale_entry(keep, front, j);
        let k = choose|k: int| 0 <= k < earlier.len() && same_entry(front[j], #[trigger] earlier[k]);
        assert(stale[k] == earlier[k]);
        assert(same_entry(present[i], stale[k]));
    } else {
        assert(stale[stale.len() - 1] == present.last());
        assert(same_entry(present[i], stale[stale.len() - 1]));
    }
}

/// No entry is removed twice: the entries to remove denote different
/// entries.
pub proof fn lemma_removes_each_entry_once(
    keep: Seq<Seq<char>>,
    present: Seq<Seq<char>>,
    i: int,
    j: int,
)
    requires
        0 <= i < j < stale_entries(keep, present).len(),
    ensures
        !same_entry(stale_entries(keep, present)[i], stale_entries(keep, present)[j]),
    decreases present.len(),
{
    if present.len() > 0 {
        let front = present.drop_last();
        let earlier = stale_entries(keep, front);
        if j < earlier.len() {
            lemma_removes_each_entry_once(keep, front, i, j);
        } else {
            lemma_removes_only_stale_entries(keep, front, i);
            let k = choose|k: int| 0 <= k < front.len() && front[k] == earlier[i];
            if same_entry(earlier[i], present.last()) {
                assert(same_entry(present.last(), front[k]));
            }
        }
    }
}

/// Where every present entry denotes one of the entries to keep, nothing
/// is removed.
pub proof fn lemma_nothing_stale(keep: Seq<Seq<char>>, present: Seq<Seq<char>>)
    requires
        forall|i: int| 0 <= i < present.len() ==> denotes_one_of(#[trigger] present[i], keep),
    ensures
        stale_entries(keep, present) == Seq::<Seq<char>>::empty(),
    decreases present.len(),
{
    if present.len() > 0 {
        assert forall|i: int| 0 <= i < present.drop_last().len() implies denotes_one_of(
            #[trigger] present.drop_last()[i],
            keep,
        ) by {
            assert(present.drop_last()[i] == present[i]);
        }
        lemma_nothing_stale(keep, present.drop_last());
        assert(present.last() == present[present.len() - 1]);
    }
}

/// Cleanup is idempotent: once the stale entries were removed, a second
/// cleanup with the same entries to keep removes nothing.
pub proof fn lemma_cleanup_is_idempotent(keep: Seq<Seq<char>>, present: Seq<Seq<char>>)
    ensures
        stale_entries(keep, remaining_entries(keep, present)) == Seq::<Seq<char>>::empty(),
{
    let stale = stale_entries(keep, present);
    let untouched = |entry: Seq<char>| !denotes_one_of(entry, stale);
    let remaining = present.filter(untouched);
    assert forall|i: int| 0 <= i < remaining.len() implies denotes_one_of(
        #[trigger] remaining[i],
        keep,
    ) by {
        present.lemma_filter_pred(untouched, i);
        let entry = remaining[i];
        assert(remaining.contains(entry));
        present.lemma_filter_contains_rev(untouched, entry);
        let j = choose|j: int| 0 <= j < present.len() && present[j] == entry;
        if !denotes_one_of(entry, keep) {
            lemma_removes_every_stale_entry(keep, present, j);
        }
    }
    lemma_nothing_stale(keep, remaining);
}

/// Names the entries to remove so that only entries to keep stay: every
/// present entry that denotes none of the entries to keep, once.
pub fn clean_up_file_system_entries(
    entries_to_keep: &Vec<String>,
    currently_present_entries: &Vec<String>,
) -> (stale: Vec<String>)
    ensures
        texts(stale@) == stale_entries(texts(entries_to_keep@), texts(currently_present_entries@)),
{
    let ghost keep = texts(entries_to_keep@);
    let ghost present = texts(currently_present_entries@);
    let mut stale: Vec<String> = Vec::new();
    let mut i: usize = 0;
    assert(texts(stale@) =~= stale_entries(keep, present.take(0)));
    while i < currently_present_entries.len()
        invariant
            i <= currently_present_entries.len(),
            keep == texts(entries_to_keep@),
            present == texts(currently_present_entries@),
            texts(stale@) == stale_entries(keep, present.take(i as int)),
        decreases currently_present_entries.len() - i,
    {
        let entry = currently_present_entries[i].as_str();
        let ghost before = stale@;
        proof {
            assert(present.take(i + 1).drop_last() =~= present.take(i as int));
            assert(present.take(i + 1).last() == entry@);
        }
        if !is_one_of(entry, entries_to_keep) && !is_repeated(currently_present_entries, i) {
            stale.push(currently_present_entries[i].clone());
            assert(texts(stale@) =~= texts(before).push(entry@));
        }
        i += 1;
    }
    assert(present.take(currently_present_entries.len() as int) =~= present);
    stale
}

fn is_repeated(entries: &Vec<String>, index: usize) -> (repeated: bool)
    requires
        index < entries.len(),
    ensures
        repeated == denotes_one_of(texts(entries@)[index as int], texts(entries@).take(index as int)),
{
    let ghost all = texts(entries@);
    let ghost earlier = all.take(index as int);
    let mut i: usize = 0;
    while i < index
        invariant
            i <= index < entries.len(),
            all == texts(entries@),
            earlier == all.take(index as int),
            forall|j: int| 0 <= j < i ==> !same_entry(all[index as int], #[trigger] earlier[j]),
        decreases index - i,
    {
        if crate::paths::is_same_entry(entries[index].as_str(), entries[i].as_str()) {
            assert(same_entry(all[index as int], earlier[i as int]));
            return true;
        }
        i += 1;
    }
    false
}

/// Names what to remove from the results directory, which requires its
/// lock: every file at its top level, and every file in the directory of
/// the plan results that is not the result file of a plan. Without the
/// lock nothing is removed and the setup cannot go on.
pub fn clean_up_results_directory(
    plans: &Vec<Plan>,
    lock: LockOutcome,
    results_directory_entries: &Vec<DirectoryEntry>,
    plan_results_directory_entries: &Vec<DirectoryEntry>,
) -> (result: Result<Vec<String>, SetupError>)
    ensures
        match lock {
            LockOutcome::Cancelled => result == Err::<Vec<String>, SetupError>(
                SetupError::Cancelled,
            ),
            LockOutcome::Failed(message) => result == Err::<Vec<String>, SetupError>(
                SetupError::Unrecoverable(message),
            ),
            LockOutcome::Acquired => result is Ok && texts(result->Ok_0@) == entry_paths(
                results_directory_entries@.filter(is_file()),
            ) + stale_entries(
                plan_results_files(plans@),
                entry_paths(plan_results_directory_entries@.filter(is_file())),
            ),
        },
{
    match lock {
        LockOutcome::Cancelled => Err(SetupError::Cancelled),
        LockOutcome::Failed(message) => Err(SetupError::Unrecoverable(message)),
        LockOutcome::Acquired => {
            let mut stale = top_level_files(results_directory_entries);
            let ghost first = stale@;
            let keep = results_files(plans);
            let present = top_level_files(plan_results_directory_entries);
            let mut more = clean_up_file_system_entries(&keep, &present);
            let ghost second = more@;
            stale.append(&mut more);
            assert(texts(stale@) =~= texts(first) + texts(second));
            Ok(stale)
        },
    }
}

} // verus!
