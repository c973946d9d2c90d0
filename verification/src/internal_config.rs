//! The configuration the scheduler works with: global paths and one
//! descriptor per plan.

use crate::command_spec::texts;
use crate::environment::Environment;
use crate::paths::{join, joined_path, plan_results_directory, plans_working_directory};
use crate::session::Session;
use vstd::prelude::*;
use vstd::string::StringExecFns;

verus! {

/// Whether the machine keeps per-user access control lists on directories.
#[derive(Debug, Clone, Copy, PartialEq, Eq)]
pub enum Platform {
    Unix,
    Windows,
}

/// Paths shared by all plans.
#[derive(Debug, Clone, PartialEq, Eq)]
pub struct GlobalConfig {
    pub working_directory: String,
    pub results_directory: String,
    pub managed_directory: String,
    pub platform: Platform,
}

/// Where the files of a plan come from.
#[derive(Debug, Clone, PartialEq, Eq)]
pub enum Source {
    /// The user keeps the files in place.
    Manual,
    /// The scheduler unpacks the archive at `tar_gz_path` into `target`.
    Managed { tar_gz_path: String, target: String },
}

/// Position of a plan in the configured groups of plans.
#[derive(Debug, Clone, Copy, PartialEq, Eq)]
pub struct GroupAffiliation {
    pub group_index: usize,
    pub position_in_group: usize,
    pub execution_interval: u64,
}

/// How the test runner is invoked for a plan.
#[derive(Debug, Clone, PartialEq, Eq)]
pub struct Robot {
    pub robot_target: String,
    pub command_line_args: Vec<String>,
    pub n_attempts_max: usize,
}

/// One configured, independently schedulable test unit.
#[derive(Debug, Clone, PartialEq, Eq)]
pub struct Plan {
    pub id: String,
    pub source: Source,
    pub session: Session,
    pub environment: Environment,
    pub working_directory: String,
    pub results_file: String,
    pub timeout: u64,
    pub robot: Robot,
    pub group_affiliation: GroupAffiliation,
}

/// The runtime view of a plan that is being executed.
#[derive(Debug, Clone, PartialEq, Eq)]
pub struct Suite {
    pub id: String,
    pub working_directory: String,
    pub results_file: String,
    pub execution_interval_seconds: u64,
    pub timeout: u64,
    pub robot: Robot,
    pub environment: Environment,
    pub session: Session,
}

/// The paths that belong to a plan. They follow from the ID of the plan
/// alone, so that the entries of a plan can be told from entries that no
/// plan owns.
#[derive(Debug, Clone, PartialEq, Eq)]
pub struct PlanPaths {
    /// The directory the plan works in.
    pub working_directory: String,
    /// The file the results of the plan are written to.
    pub results_file: String,
    /// The directory the files of the plan are unpacked into, if the plan
    /// is managed.
    pub managed_directory: String,
}

/// The working directory of the plan with the given ID.
pub open spec fn working_directory_of(global_config: GlobalConfig, id: Seq<char>) -> Seq<char> {
    joined_path(joined_path(global_config.working_directory@, "plans"@), id)
}

/// The results file of the plan with the given ID.
pub open spec fn results_file_of(global_config: GlobalConfig, id: Seq<char>) -> Seq<char> {
    joined_path(joined_path(global_config.results_directory@, "plans"@), id + ".json"@)
}

/// The directory the plan with the given ID is unpacked into.
pub open spec fn managed_directory_of(global_config: GlobalConfig, id: Seq<char>) -> Seq<char> {
    joined_path(global_config.managed_directory@, id)
}

/// Whether the paths of a plan are those that follow from its ID.
pub open spec fn has_derived_paths(global_config: GlobalConfig, plan: Plan) -> bool {
    &&& plan.working_directory@ == working_directory_of(global_config, plan.id@)
    &&& plan.results_file@ == results_file_of(global_config, plan.id@)
    &&& plan.source matches Source::Managed { target, .. } ==> target@ == managed_directory_of(
        global_config,
        plan.id@,
    )
}

/// Derives the paths of a plan from its ID.
pub fn plan_paths(global_config: &GlobalConfig, id: &str) -> (paths: PlanPaths)
    ensures
        paths.working_directory@ == working_directory_of(*global_config, id@),
        paths.results_file@ == results_file_of(*global_config, id@),
        paths.managed_directory@ == managed_directory_of(*global_config, id@),
{
    let plans_directory = plans_working_directory(global_config.working_directory.as_str());
    let results_directory = plan_results_directory(global_config.results_directory.as_str());
    let file_name = String::from_str(id).concat(".json");
    PlanPaths {
        working_directory: join(plans_directory.as_str(), id),
        results_file: join(results_directory.as_str(), file_name.as_str()),
        managed_directory: join(global_config.managed_directory.as_str(), id),
    }
}

impl Plan {
    /// Describes a plan whose paths follow from its ID. The plan is managed
    /// if it comes with an archive to unpack.
    pub fn new(
        global_config: &GlobalConfig,
        id: String,
        tar_gz_path: Option<String>,
        session: Session,
        environment: Environment,
        timeout: u64,
        robot: Robot,
        group_affiliation: GroupAffiliation,
    ) -> (plan: Plan)
        ensures
            has_derived_paths(*global_config, plan),
            plan.id == id,
            plan.session == session,
            plan.environment == environment,
            plan.timeout == timeout,
            plan.robot == robot,
            plan.group_affiliation == group_affiliation,
            match tar_gz_path {
                Some(path) => plan.source matches Source::Managed { tar_gz_path: archive, .. }
                    && archive == path,
                None => plan.source is Manual,
            },
    {
        let paths = plan_paths(global_config, id.as_str());
        let source = match tar_gz_path {
            Some(tar_gz_path) => Source::Managed { tar_gz_path, target: paths.managed_directory },
            None => Source::Manual,
        };
        Plan {
            id,
            source,
            session,
            environment,
            working_directory: paths.working_directory,
            results_file: paths.results_file,
            timeout,
            robot,
            group_affiliation,
        }
    }
}

/// Whether no two of the plans share their ID.
pub fn ids_are_unique(plans: &Vec<Plan>) -> (unique: bool)
    ensures
        unique == plan_ids(plans@).no_duplicates(),
{
    let ghost ids = plan_ids(plans@);
    let mut i: usize = 0;
    while i < plans.len()
        invariant
            i <= plans.len(),
            ids == plan_ids(plans@),
            forall|a: int, b: int| 0 <= a < i && 0 <= b < plans.len() && a != b ==> ids[a] != ids[b],
        decreases plans.len() - i,
    {
        let mut j: usize = i + 1;
        while j < plans.len()
            invariant
                i < j <= plans.len(),
                ids == plan_ids(plans@),
                forall|b: int| i < b < j ==> ids[i as int] != ids[b],
            decreases plans.len() - j,
        {
            if plans[i].id == plans[j].id {
                assert(ids[i as int] == ids[j as int]);
                return false;
            }
            j += 1;
        }
        i += 1;
    }
    true
}

/// The IDs of a sequence of plans, in order.
pub open spec fn plan_ids(plans: Seq<Plan>) -> Seq<Seq<char>> {
    plans.map_values(|plan: Plan| plan.id@)
}

/// The working directories of a sequence of plans, in order.
pub open spec fn plan_working_directories(plans: Seq<Plan>) -> Seq<Seq<char>> {
    plans.map_values(|plan: Plan| plan.working_directory@)
}

/// The result files of a sequence of plans, in order.
pub open spec fn plan_results_files(plans: Seq<Plan>) -> Seq<Seq<char>> {
    plans.map_values(|plan: Plan| plan.results_file@)
}

/// The working directories of the plans, in order.
pub fn working_directories(plans: &Vec<Plan>) -> (directories: Vec<String>)
    ensures
        texts(directories@) == plan_working_directories(plans@),
{
    let mut directories: Vec<String> = Vec::new();
    let mut i: usize = 0;
    while i < plans.len()
        invariant
            i <= plans.len(),
            texts(directories@) == plan_working_directories(plans@.take(i as int)),
        decreases plans.len() - i,
    {
        let ghost before = directories@;
        directories.push(plans[i].working_directory.clone());
        assert(texts(directories@) =~= texts(before).push(plans@[i as int].working_directory@));
        assert(plan_working_directories(plans@.take(i + 1)) =~= plan_working_directories(
            plans@.take(i as int),
        ).push(plans@[i as int].working_directory@));
        i += 1;
    }
    assert(plans@.take(plans.len() as int) =~= plans@);
    directories
}

/// The result files of the plans, in order.
pub fn results_files(plans: &Vec<Plan>) -> (files: Vec<String>)
    ensures
        texts(files@) == plan_results_files(plans@),
{
    let mut files: Vec<String> = Vec::new();
    let mut i: usize = 0;
    while i < plans.len()
        invariant
            i <= plans.len(),
            texts(files@) == plan_results_files(plans@.take(i as int)),
        decreases plans.len() - i,
    {
        let ghost before = files@;
        files.push(plans[i].results_file.clone());
        assert(texts(files@) =~= texts(before).push(plans@[i as int].results_file@));
        assert(plan_results_files(plans@.take(i + 1)) =~= plan_results_files(
            plans@.take(i as int),
        ).push(plans@[i as int].results_file@));
        i += 1;
    }
    assert(plans@.take(plans.len() as int) =~= plans@);
    files
}

/// Whether `left` may stand before `right` in the order of the groups:
/// plans are ordered by the index of their group and, within a group, by
/// their position.
pub open spec fn may_precede(left: Plan, right: Plan) -> bool {
    let l = left.group_affiliation;
    let r = right.group_affiliation;
    l.group_index < r.group_index || (l.group_index == r.group_index && l.position_in_group
        <= r.position_in_group)
}

/// Whether the plans stand in the order of the groups.
pub open spec fn is_ordered_by_grouping(plans: Seq<Plan>) -> bool {
    forall|i: int, j: int| 0 <= i < j < plans.len() ==> may_precede(plans[i], plans[j])
}

/// The plans that stand at the given position of the given group.
pub open spec fn placed_at(group_index: usize, position_in_group: usize) -> spec_fn(Plan) -> bool {
    |plan: Plan|
        plan.group_affiliation.group_index == group_index
            && plan.group_affiliation.position_in_group == position_in_group
}

/// Filtering a sequence that holds no matching element leaves nothing.
proof fn lemma_filter_none<A>(s: Seq<A>, pred: spec_fn(A) -> bool)
    requires
        forall|i: int| 0 <= i < s.len() ==> !pred(#[trigger] s[i]),
    ensures
        s.filter(pred) == Seq::<A>::empty(),
    decreases s.len(),
{
    reveal(Seq::filter);
    if s.len() > 0 {
        lemma_filter_none(s.drop_last(), pred);
    }
}

fn must_follow(left: &Plan, right: &Plan) -> (follows: bool)
    ensures
        follows == !may_precede(*left, *right),
{
    let l = left.group_affiliation;
    let r = right.group_affiliation;
    l.group_index > r.group_index || (l.group_index == r.group_index && l.position_in_group
        > r.position_in_group)
}

/// Reorders the plans by group and position within the group. Plans that
/// share group and position keep their order. No plan is added or lost.
pub fn sort_plans_by_grouping(plans: &mut Vec<Plan>)
    ensures
        is_ordered_by_grouping(final(plans)@),
        final(plans)@.to_multiset() == old(plans)@.to_multiset(),
        plan_ids(final(plans)@).to_multiset() == plan_ids(old(plans)@).to_multiset(),
        forall|group_index: usize, position_in_group: usize|
            final(plans)@.filter(#[trigger] placed_at(group_index, position_in_group)) == old(
                plans,
            )@.filter(placed_at(group_index, position_in_group)),
{
    let ghost original = plans@;
    let mut unsorted: Vec<Plan> = Vec::new();
    std::mem::swap(plans, &mut unsorted);
    proof {
        reveal(Seq::filter);
        assert(original.take(0) =~= Seq::<Plan>::empty());
        assert(plans@ =~= original.take(0));
    }
    for plan in it: unsorted
        invariant
            it.seq() == original,
            is_ordered_by_grouping(plans@),
            plans@.to_multiset() == original.take(it.index() as int).to_multiset(),
            plan_ids(plans@).to_multiset() == plan_ids(
                original.take(it.index() as int),
            ).to_multiset(),
            forall|group_index: usize, position_in_group: usize|
                plans@.filter(#[trigger] placed_at(group_index, position_in_group))
                    == original.take(it.index() as int).filter(
                    placed_at(group_index, position_in_group),
                ),
    {
        let ghost before = plans@;
        let ghost done = original.take(it.index() as int);
        let mut position: usize = plans.len();
        while position > 0 && must_follow(&plans[position - 1], &plan)
            invariant
                position <= plans.len(),
                plans@ == before,
                forall|j: int| position <= j < before.len() ==> !may_precede(#[trigger] before[j], plan),
            decreases position,
        {
            position -= 1;
        }
        plans.insert(position, plan);
        proof {
            let head = before.subrange(0, position as int);
            let tail = before.subrange(position as int, before.len() as int);
            assert(before =~= head + tail);
            assert(plans@ =~= head.push(plan) + tail);
            assert(original.take(it.index() + 1) =~= done.push(plan));
            assert(plans@ == before.insert(position as int, plan));
            vstd::seq_lib::to_multiset_insert(before, position as int, plan);
            vstd::seq_lib::to_multiset_build(done, plan);
            assert(plan_ids(plans@) =~= plan_ids(before).insert(position as int, plan.id@));
            assert(plan_ids(done.push(plan)) =~= plan_ids(done).push(plan.id@));
            vstd::seq_lib::to_multiset_insert(plan_ids(before), position as int, plan.id@);
            vstd::seq_lib::to_multiset_build(plan_ids(done), plan.id@);
            assert forall|i: int, j: int| 0 <= i < j < plans@.len() implies may_precede(
                plans@[i],
                plans@[j],
            ) by {
                if position > 0 {
                    assert(may_precede(before[position - 1], plan));
                }
                if i < position && j == position {
                    assert(i == position - 1 || may_precede(before[i], before[position - 1]));
                } else if i < position && j > position {
                    assert(may_precede(before[i], before[j - 1]));
                } else if i == position {
                    assert(!may_precede(before[j - 1], plan));
                } else if i > position {
                    assert(may_precede(before[i - 1], before[j - 1]));
                } else {
                    assert(may_precede(before[i], before[j]));
                }
            }
            assert forall|group_index: usize, position_in_group: usize|
                plans@.filter(#[trigger] placed_at(group_index, position_in_group)) == done.push(
                    plan,
                ).filter(placed_at(group_index, position_in_group)) by {
                let here = placed_at(group_index, position_in_group);
                Seq::filter_distributes_over_add(head, tail, here);
                Seq::filter_distributes_over_add(head.push(plan), tail, here);
                head.lemma_filter_push(plan, here);
                done.lemma_filter_push(plan, here);
                assert(before.filter(here) == done.filter(here));
                if here(plan) {
                    assert forall|k: int| 0 <= k < tail.len() implies !here(#[trigger] tail[k]) by {
                        assert(!may_precede(before[position + k], plan));
                    }
                    lemma_filter_none(tail, here);
                    assert(head.filter(here).push(plan) + tail.filter(here) =~= (head.filter(here)
                        + tail.filter(here)).push(plan));
                }
            }
        }
    }
    proof {
        assert(original.take(original.len() as int) =~= original);
    }
}

} // verus!
