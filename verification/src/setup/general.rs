//! The stages of the setup and the partition of the plans into those that
//! survive and those that are excluded with a recorded failure.

use crate::internal_config::{
    is_ordered_by_grouping, placed_at, plan_ids, sort_plans_by_grouping, GlobalConfig, Plan,
    Platform, Source,
};
use crate::paths::{
    environment_building_working_directory, join, joined_path, plan_results_directory,
    plans_working_directory, rcc_setup_working_directory,
};
use crate::results::{failed_plan_ids, failure_views, SetupFailure, SetupFailureView};
use crate::session::{session_id, Session, SessionView};
use crate::setup::{
    find_failure, first_failure, report_views, reported_details, step_views, DirectoryOperation,
    DirectoryOperationView, FailedOperation, FailedOperationView, SetupStep, SetupStepView,
};
use vstd::prelude::*;
use vstd::string::StringExecFns;

verus! {

/// A stage of the setup that can exclude single plans.
#[derive(Debug, Clone, PartialEq, Eq)]
pub enum SetupStage {
    /// The directory a managed plan is unpacked into.
    ManagedDirectories,
    /// The working directory of each plan.
    PlanWorkingDirectories,
    /// One directory below `target` for each session, shared by the plans
    /// of that session.
    SessionDirectories { target: String, description: String },
    /// The directory below `target` for the session of the scheduler itself.
    CurrentSessionDirectory { target: String, description: String },
}

/// Mathematical content of a [`SetupStage`].
pub ghost enum SetupStageView {
    ManagedDirectories,
    PlanWorkingDirectories,
    SessionDirectories { target: Seq<char>, description: Seq<char> },
    CurrentSessionDirectory { target: Seq<char>, description: Seq<char> },
}

impl View for SetupStage {
    type V = SetupStageView;

    open spec fn view(&self) -> SetupStageView {
        match self {
            SetupStage::ManagedDirectories => SetupStageView::ManagedDirectories,
            SetupStage::PlanWorkingDirectories => SetupStageView::PlanWorkingDirectories,
            SetupStage::SessionDirectories { target, description } => {
                SetupStageView::SessionDirectories { target: target@, description: description@ }
            },
            SetupStage::CurrentSessionDirectory { target, description } => {
                SetupStageView::CurrentSessionDirectory {
                    target: target@,
                    description: description@,
                }
            },
        }
    }
}

/// What has to succeed for the managed directory of a plan.
pub open spec fn managed_directory_steps(platform: Platform, plan: Plan) -> Seq<SetupStepView> {
    match plan.source {
        Source::Manual => seq![],
        Source::Managed { target, .. } => {
            let create = SetupStepView {
                operation: DirectoryOperationView::Create { path: target@ },
                summary: "Failed to create managed directory"@,
            };
            match (platform, plan.session@) {
                (Platform::Windows, SessionView::User(user)) => seq![
                    create,
                    SetupStepView {
                        operation: DirectoryOperationView::GrantFullAccess {
                            user: user,
                            path: target@,
                        },
                        summary: "Failed to adjust permissions of managed directory"@,
                    },
                ],
                _ => seq![create],
            }
        },
    }
}

/// What has to succeed for the working directory of a plan.
pub open spec fn working_directory_steps(platform: Platform, plan: Plan) -> Seq<SetupStepView> {
    let create = SetupStepView {
        operation: DirectoryOperationView::Create { path: plan.working_directory@ },
        summary: "Failed to create working directory"@,
    };
    let reset = SetupStepView {
        operation: DirectoryOperationView::ResetAccess { path: plan.working_directory@ },
        summary: "Failed to reset permissions for working directory"@,
    };
    match (platform, plan.session@) {
        (Platform::Unix, _) => seq![create],
        (Platform::Windows, SessionView::Current) => seq![create, reset],
        (Platform::Windows, SessionView::User(user)) => seq![
            create,
            reset,
            SetupStepView {
                operation: DirectoryOperationView::GrantFullAccess {
                    user: user,
                    path: plan.working_directory@,
                },
                summary: "Failed to set permissions for working directory"@,
            },
        ],
    }
}

/// What has to succeed for the directory below `target` that the plans of
/// one session share.
pub open spec fn session_directory_steps(
    target: Seq<char>,
    description: Seq<char>,
    platform: Platform,
    session: SessionView,
) -> Seq<SetupStepView> {
    let user_target = joined_path(target, session_id(session));
    let create = SetupStepView {
        operation: DirectoryOperationView::Create { path: target },
        summary: "Failed to create "@ + description + " directory"@,
    };
    let create_for_session = SetupStepView {
        operation: DirectoryOperationView::Create { path: user_target },
        summary: "Failed to create user-specific "@ + description + " directory"@,
    };
    match (platform, session) {
        (Platform::Windows, SessionView::User(user)) => seq![
            create,
            create_for_session,
            SetupStepView {
                operation: DirectoryOperationView::GrantFullAccess {
                    user: user,
                    path: user_target,
                },
                summary: "Failed to adjust permissions for user-specific "@ + description
                    + " directory"@,
            },
        ],
        _ => seq![create, create_for_session],
    }
}

/// What has to succeed for the directory below `target` that belongs to
/// the session of the scheduler itself.
pub open spec fn current_session_directory_steps(
    target: Seq<char>,
    description: Seq<char>,
) -> Seq<SetupStepView> {
    seq![
        SetupStepView {
            operation: DirectoryOperationView::Create {
                path: joined_path(target, session_id(SessionView::Current)),
            },
            summary: "Failed to create "@ + description + " directory"@,
        },
    ]
}

/// What has to succeed for a plan in a stage, in the order in which it is
/// to be performed. A step is only performed if all steps before it
/// succeeded.
pub open spec fn stage_steps(stage: SetupStageView, platform: Platform, plan: Plan) -> Seq<
    SetupStepView,
> {
    match stage {
        SetupStageView::ManagedDirectories => managed_directory_steps(platform, plan),
        SetupStageView::PlanWorkingDirectories => working_directory_steps(platform, plan),
        SetupStageView::SessionDirectories { target, description } => session_directory_steps(
            target,
            description,
            platform,
            plan.session@,
        ),
        SetupStageView::CurrentSessionDirectory { target, description } => {
            current_session_directory_steps(target, description)
        },
    }
}

/// Whether one of the steps a plan depends on in a stage was reported as
/// failed.
pub open spec fn is_excluded(
    stage: SetupStageView,
    platform: Platform,
    reports: Seq<FailedOperationView>,
    plan: Plan,
) -> bool {
    first_failure(stage_steps(stage, platform, plan), reports) is Some
}

/// The plans that a stage excludes.
pub open spec fn excluded_by(
    stage: SetupStageView,
    platform: Platform,
    reports: Seq<FailedOperationView>,
) -> spec_fn(Plan) -> bool {
    |plan: Plan| is_excluded(stage, platform, reports, plan)
}

/// The plans that a stage lets pass.
pub open spec fn passed_by(
    stage: SetupStageView,
    platform: Platform,
    reports: Seq<FailedOperationView>,
) -> spec_fn(Plan) -> bool {
    |plan: Plan| !is_excluded(stage, platform, reports, plan)
}

/// The failure that is recorded for a plan that a stage excludes: the
/// summary of the first step that failed, with the reported details.
pub open spec fn recorded_failure(
    stage: SetupStageView,
    platform: Platform,
    reports: Seq<FailedOperationView>,
) -> spec_fn(Plan) -> SetupFailureView {
    |plan: Plan|
        {
            let failure = first_failure(stage_steps(stage, platform, plan), reports)->0;
            SetupFailureView { plan_id: plan.id@, summary: failure.0, details: failure.1 }
        }
}

/// The plans that survive a stage, in their order.
pub open spec fn surviving_plans(
    stage: SetupStageView,
    platform: Platform,
    plans: Seq<Plan>,
    reports: Seq<FailedOperationView>,
) -> Seq<Plan> {
    plans.filter(passed_by(stage, platform, reports))
}

/// The failures a stage records, one for each plan it excludes, in the
/// order of the plans.
pub open spec fn recorded_failures(
    stage: SetupStageView,
    platform: Platform,
    plans: Seq<Plan>,
    reports: Seq<FailedOperationView>,
) -> Seq<SetupFailureView> {
    plans.filter(excluded_by(stage, platform, reports)).map_values(
        recorded_failure(stage, platform, reports),
    )
}

/// Every plan is accounted for exactly once: the IDs of the surviving
/// plans together with the IDs named by the failures are the IDs of the
/// plans, each as often as it occurs among the plans.
pub open spec fn accounts_for(
    plans: Seq<Plan>,
    surviving: Seq<Plan>,
    failures: Seq<SetupFailureView>,
) -> bool {
    plan_ids(surviving).to_multiset().add(failed_plan_ids(failures).to_multiset())
        == plan_ids(plans).to_multiset()
}

fn create_step(path: &str, summary: String) -> (step: SetupStep)
    ensures
        step@ == (SetupStepView {
            operation: DirectoryOperationView::Create { path: path@ },
            summary: summary@,
        }),
{
    SetupStep { operation: DirectoryOperation::Create { path: String::from_str(path) }, summary }
}

fn reset_step(path: &str, summary: String) -> (step: SetupStep)
    ensures
        step@ == (SetupStepView {
            operation: DirectoryOperationView::ResetAccess { path: path@ },
            summary: summary@,
        }),
{
    SetupStep {
        operation: DirectoryOperation::ResetAccess { path: String::from_str(path) },
        summary,
    }
}

fn grant_step(user: &str, path: &str, summary: String) -> (step: SetupStep)
    ensures
        step@ == (SetupStepView {
            operation: DirectoryOperationView::GrantFullAccess { user: user@, path: path@ },
            summary: summary@,
        }),
{
    SetupStep {
        operation: DirectoryOperation::GrantFullAccess {
            user: String::from_str(user),
            path: String::from_str(path),
        },
        summary,
    }
}

fn described(start: &str, description: &str) -> (summary: String)
    ensures
        summary@ == start@ + description@ + " directory"@,
{
    String::from_str(start).concat(description).concat(" directory")
}

impl SetupStage {
    /// The steps a plan depends on in this stage.
    pub fn steps(&self, platform: Platform, plan: &Plan) -> (steps: Vec<SetupStep>)
        ensures
            step_views(steps@) == stage_steps(self@, platform, *plan),
    {
        let mut steps: Vec<SetupStep> = Vec::new();
        match self {
            SetupStage::ManagedDirectories => {
                match &plan.source {
                    Source::Manual => {},
                    Source::Managed { target, .. } => {
                        steps.push(
                            create_step(
                                target.as_str(),
                                String::from_str("Failed to create managed directory"),
                            ),
                        );
                        match (platform, plan.session.user_name()) {
                            (Platform::Windows, Some(user)) => {
                                steps.push(
                                    grant_step(
                                        user.as_str(),
                                        target.as_str(),
                                        String::from_str(
                                            "Failed to adjust permissions of managed directory",
                                        ),
                                    ),
                                );
                            },
                            _ => {},
                        }
                    },
                }
            },
            SetupStage::PlanWorkingDirectories => {
                let directory = plan.working_directory.as_str();
                steps.push(
                    create_step(directory, String::from_str("Failed to create working directory")),
                );
                match platform {
                    Platform::Unix => {},
                    Platform::Windows => {
                        steps.push(
                            reset_step(
                                directory,
                                String::from_str(
                                    "Failed to reset permissions for working directory",
                                ),
                            ),
                        );
                        match plan.session.user_name() {
                            Some(user) => {
                                steps.push(
                                    grant_step(
                                        user.as_str(),
                                        directory,
                                        String::from_str(
                                            "Failed to set permissions for working directory",
                                        ),
                                    ),
                                );
                            },
                            None => {},
                        }
                    },
                }
            },
            SetupStage::SessionDirectories { target, description } => {
                let session_id = plan.session.id();
                let user_target = join(target.as_str(), session_id.as_str());
                steps.push(
                    create_step(target.as_str(), described("Failed to create ", description.as_str())),
                );
                steps.push(
                    create_step(
                        user_target.as_str(),
                        described("Failed to create user-specific ", description.as_str()),
                    ),
                );
                match (platform, plan.session.user_name()) {
                    (Platform::Windows, Some(user)) => {
                        steps.push(
                            grant_step(
                                user.as_str(),
                                user_target.as_str(),
                                described(
                                    "Failed to adjust permissions for user-specific ",
                                    description.as_str(),
                                ),
                            ),
                        );
                    },
                    _ => {},
                }
            },
            SetupStage::CurrentSessionDirectory { target, description } => {
                let session_id = Session::Current.id();
                let directory = join(target.as_str(), session_id.as_str());
                steps.push(
                    create_step(
                        directory.as_str(),
                        described("Failed to create ", description.as_str()),
                    ),
                );
            },
        }
        assert(step_views(steps@) =~= stage_steps(self@, platform, *plan));
        steps
    }
}

/// No plan is lost and none appears from nowhere: an ID is the ID of a
/// plan exactly if it is the ID of a survivor or named by a failure. Where
/// the IDs of the plans are unique, no ID occurs twice in the outcome:
/// not among the survivors, not among the failures, and not in both.
pub proof fn lemma_no_plan_lost_or_doubled(
    plans: Seq<Plan>,
    surviving: Seq<Plan>,
    failures: Seq<SetupFailureView>,
)
    requires
        accounts_for(plans, surviving, failures),
    ensures
        forall|id: Seq<char>|
            plan_ids(plans).contains(id) <==> (#[trigger] plan_ids(surviving).contains(id)
                || failed_plan_ids(failures).contains(id)),
        plan_ids(plans).no_duplicates() ==> {
            &&& plan_ids(surviving).no_duplicates()
            &&& failed_plan_ids(failures).no_duplicates()
            &&& forall|id: Seq<char>|
                !(#[trigger] plan_ids(surviving).contains(id) && failed_plan_ids(
                    failures,
                ).contains(id))
        },
{
    broadcast use vstd::multiset::group_multiset_axioms;

    let all = plan_ids(plans);
    let kept = plan_ids(surviving);
    let failed = failed_plan_ids(failures);
    all.to_multiset_ensures();
    kept.to_multiset_ensures();
    failed.to_multiset_ensures();
    assert forall|id: Seq<char>|
        all.to_multiset().count(id) == kept.to_multiset().count(id) + failed.to_multiset().count(
            id,
        ) by {
        assert(kept.to_multiset().add(failed.to_multiset()).count(id) == kept.to_multiset().count(
            id,
        ) + failed.to_multiset().count(id));
    }
    assert forall|id: Seq<char>|
        all.contains(id) <==> (#[trigger] kept.contains(id) || failed.contains(id)) by {
        assert(all.contains(id) <==> all.to_multiset().count(id) > 0);
        assert(kept.contains(id) <==> kept.to_multiset().count(id) > 0);
        assert(failed.contains(id) <==> failed.to_multiset().count(id) > 0);
    }
    if all.no_duplicates() {
        all.lemma_multiset_has_no_duplicates();
        assert forall|id: Seq<char>| kept.to_multiset().contains(id) implies kept.to_multiset().count(
            id,
        ) == 1 by {
            assert(all.to_multiset().count(id) > 0);
            assert(all.to_multiset().contains(id));
        }
        kept.lemma_multiset_has_no_duplicates_conv();
        assert forall|id: Seq<char>|
            failed.to_multiset().contains(id) implies failed.to_multiset().count(id) == 1 by {
            assert(all.to_multiset().count(id) > 0);
            assert(all.to_multiset().contains(id));
        }
        failed.lemma_multiset_has_no_duplicates_conv();
        assert forall|id: Seq<char>| !(#[trigger] kept.contains(id) && failed.contains(id)) by {
            if kept.contains(id) && failed.contains(id) {
                assert(kept.to_multiset().count(id) > 0);
                assert(failed.to_multiset().count(id) > 0);
                assert(all.to_multiset().contains(id));
            }
        }
    }
}

/// A stage accounts for every plan: each plan either survives or is named
/// by exactly one recorded failure.
pub proof fn lemma_stage_accounts_for_every_plan(
    stage: SetupStageView,
    platform: Platform,
    plans: Seq<Plan>,
    reports: Seq<FailedOperationView>,
)
    ensures
        accounts_for(
            plans,
            surviving_plans(stage, platform, plans, reports),
            recorded_failures(stage, platform, plans, reports),
        ),
    decreases plans.len(),
{
    broadcast use vstd::seq_lib::to_multiset_build;
    broadcast use vstd::seq_lib::to_multiset_len;
    broadcast use vstd::multiset::lemma_multiset_empty_len;

    let passed = passed_by(stage, platform, reports);
    let excluded = excluded_by(stage, platform, reports);
    let record = recorded_failure(stage, platform, reports);
    if plans.len() == 0 {
        reveal(Seq::filter);
        assert(plans.filter(passed) =~= Seq::empty());
        assert(plans.filter(excluded) =~= Seq::empty());
        assert(plan_ids(plans) =~= Seq::empty());
        assert(plan_ids(plans.filter(passed)) =~= Seq::empty());
        assert(failed_plan_ids(plans.filter(excluded).map_values(record)) =~= Seq::empty());
        assert(plan_ids(plans).to_multiset().len() == 0);
        assert(plan_ids(plans).to_multiset().add(plan_ids(plans).to_multiset()) =~= plan_ids(
            plans,
        ).to_multiset());
    } else {
        let front = plans.drop_last();
        let last = plans.last();
        lemma_stage_accounts_for_every_plan(stage, platform, front, reports);
        assert(plans =~= front.push(last));
        front.lemma_filter_push(last, passed);
        front.lemma_filter_push(last, excluded);
        assert(plan_ids(plans) =~= plan_ids(front).push(last.id@));
        if is_excluded(stage, platform, reports, last) {
            assert(plans.filter(excluded) == front.filter(excluded).push(last));
            assert(failed_plan_ids(plans.filter(excluded).map_values(record)) =~= failed_plan_ids(
                front.filter(excluded).map_values(record),
            ).push(last.id@));
            assert(plan_ids(front.filter(passed)).to_multiset().add(
                failed_plan_ids(front.filter(excluded).map_values(record)).to_multiset().insert(
                    last.id@,
                ),
            ) =~= plan_ids(front.filter(passed)).to_multiset().add(
                failed_plan_ids(front.filter(excluded).map_values(record)).to_multiset(),
            ).insert(last.id@));
        } else {
            assert(plans.filter(passed) == front.filter(passed).push(last));
            assert(plan_ids(plans.filter(passed)) =~= plan_ids(front.filter(passed)).push(last.id@));
            assert(plan_ids(front.filter(passed)).to_multiset().insert(last.id@).add(
                failed_plan_ids(front.filter(excluded).map_values(record)).to_multiset(),
            ) =~= plan_ids(front.filter(passed)).to_multiset().add(
                failed_plan_ids(front.filter(excluded).map_values(record)).to_multiset(),
            ).insert(last.id@));
        }
    }
}

/// Divides the plans by what was reported of the steps they depend on in
/// a stage: a plan survives if none of its steps was reported as failed,
/// and is excluded with one recorded failure otherwise.
pub fn exclude_failed(
    stage: &SetupStage,
    platform: Platform,
    plans: Vec<Plan>,
    reports: &Vec<FailedOperation>,
) -> (outcome: (Vec<Plan>, Vec<SetupFailure>))
    ensures
        outcome.0@ == surviving_plans(stage@, platform, plans@, report_views(reports@)),
        failure_views(outcome.1@) == recorded_failures(
            stage@,
            platform,
            plans@,
            report_views(reports@),
        ),
        accounts_for(plans@, outcome.0@, failure_views(outcome.1@)),
{
    let ghost reported = report_views(reports@);
    let ghost passed = passed_by(stage@, platform, reported);
    let ghost excluded = excluded_by(stage@, platform, reported);
    let ghost record = recorded_failure(stage@, platform, reported);
    let mut surviving: Vec<Plan> = Vec::new();
    let mut failures: Vec<SetupFailure> = Vec::new();
    proof {
        reveal(Seq::filter);
        assert(plans@.take(0).filter(passed) =~= Seq::empty());
        assert(plans@.take(0).filter(excluded) =~= Seq::empty());
        assert(failure_views(failures@) =~= Seq::empty());
    }
    for plan in it: plans
        invariant
            it.seq() == plans@,
            reported == report_views(reports@),
            passed == passed_by(stage@, platform, reported),
            excluded == excluded_by(stage@, platform, reported),
            record == recorded_failure(stage@, platform, reported),
            surviving@ == it.seq().take(it.index() as int).filter(passed),
            failure_views(failures@) == it.seq().take(it.index() as int).filter(
                excluded,
            ).map_values(record),
    {
        let ghost done = it.seq().take(it.index() as int);
        let ghost recorded = failures@;
        proof {
            assert(it.seq().take(it.index() + 1) =~= done.push(plan));
            done.lemma_filter_push(plan, passed);
            done.lemma_filter_push(plan, excluded);
        }
        let steps = stage.steps(platform, &plan);
        match find_failure(&plan.id, &steps, reports) {
            Some(failure) => {
                failures.push(failure);
                assert(failure_views(failures@) =~= failure_views(recorded).push(failure@));
                assert(done.push(plan).filter(excluded).map_values(record) =~= done.filter(
                    excluded,
                ).map_values(record).push(record(plan)));
            },
            None => {
                surviving.push(plan);
            },
        }
    }
    proof {
        assert(plans@.take(plans@.len() as int) =~= plans@);
        lemma_stage_accounts_for_every_plan(stage@, platform, plans@, reported);
    }
    (surviving, failures)
}

/// Accounting composes: if a first stage accounts for the plans and a
/// second stage accounts for the survivors of the first, then both
/// together account for the plans.
pub proof fn lemma_accounting_composes(
    plans: Seq<Plan>,
    first_surviving: Seq<Plan>,
    first_failures: Seq<SetupFailureView>,
    surviving: Seq<Plan>,
    failures: Seq<SetupFailureView>,
)
    requires
        accounts_for(plans, first_surviving, first_failures),
        accounts_for(first_surviving, surviving, failures),
    ensures
        accounts_for(plans, surviving, first_failures + failures),
{
    assert(failed_plan_ids(first_failures + failures) =~= failed_plan_ids(first_failures)
        + failed_plan_ids(failures));
    vstd::seq_lib::lemma_multiset_commutative(
        failed_plan_ids(first_failures),
        failed_plan_ids(failures),
    );
    assert(plan_ids(surviving).to_multiset().add(
        failed_plan_ids(first_failures).to_multiset().add(failed_plan_ids(failures).to_multiset()),
    ) =~= plan_ids(surviving).to_multiset().add(failed_plan_ids(failures).to_multiset()).add(
        failed_plan_ids(first_failures).to_multiset(),
    ));
}

/// Setting plans aside and adding them again after a stage loses none of
/// them: if a stage accounts for one part of the plans, then its survivors
/// together with the other part account for all plans.
pub proof fn lemma_accounting_of_parts(
    plans: Seq<Plan>,
    chosen: spec_fn(Plan) -> bool,
    others: spec_fn(Plan) -> bool,
    surviving: Seq<Plan>,
    failures: Seq<SetupFailureView>,
)
    requires
        forall|plan: Plan| #[trigger] chosen(plan) != others(plan),
        accounts_for(plans.filter(chosen), surviving, failures),
    ensures
        accounts_for(plans, surviving + plans.filter(others), failures),
{
    lemma_parts_hold_every_plan(plans, chosen, others);
    assert(plan_ids(surviving + plans.filter(others)) =~= plan_ids(surviving) + plan_ids(
        plans.filter(others),
    ));
    vstd::seq_lib::lemma_multiset_commutative(plan_ids(surviving), plan_ids(plans.filter(others)));
    assert(plan_ids(surviving).to_multiset().add(plan_ids(plans.filter(others)).to_multiset()).add(
        failed_plan_ids(failures).to_multiset(),
    ) =~= plan_ids(surviving).to_multiset().add(failed_plan_ids(failures).to_multiset()).add(
        plan_ids(plans.filter(others)).to_multiset(),
    ));
}

/// Two complementary parts of the plans hold every plan exactly once.
pub proof fn lemma_parts_hold_every_plan(
    plans: Seq<Plan>,
    chosen: spec_fn(Plan) -> bool,
    others: spec_fn(Plan) -> bool,
)
    requires
        forall|plan: Plan| #[trigger] chosen(plan) != others(plan),
    ensures
        plan_ids(plans.filter(chosen)).to_multiset().add(
            plan_ids(plans.filter(others)).to_multiset(),
        ) == plan_ids(plans).to_multiset(),
    decreases plans.len(),
{
    broadcast use vstd::seq_lib::to_multiset_build;
    broadcast use vstd::seq_lib::to_multiset_len;
    broadcast use vstd::multiset::lemma_multiset_empty_len;

    if plans.len() == 0 {
        reveal(Seq::filter);
        assert(plans.filter(chosen) =~= Seq::empty());
        assert(plans.filter(others) =~= Seq::empty());
        assert(plan_ids(plans) =~= Seq::empty());
        assert(plan_ids(plans.filter(chosen)) =~= Seq::empty());
        assert(plan_ids(plans.filter(others)) =~= Seq::empty());
        assert(plan_ids(plans).to_multiset().len() == 0);
        assert(plan_ids(plans).to_multiset().add(plan_ids(plans).to_multiset()) =~= plan_ids(
            plans,
        ).to_multiset());
    } else {
        let front = plans.drop_last();
        let last = plans.last();
        lemma_parts_hold_every_plan(front, chosen, others);
        assert(plans =~= front.push(last));
        front.lemma_filter_push(last, chosen);
        front.lemma_filter_push(last, others);
        assert(plan_ids(plans) =~= plan_ids(front).push(last.id@));
        assert(chosen(last) != others(last));
        if chosen(last) {
            assert(plan_ids(plans.filter(chosen)) =~= plan_ids(front.filter(chosen)).push(last.id@));
            assert(plan_ids(front.filter(chosen)).to_multiset().insert(last.id@).add(
                plan_ids(front.filter(others)).to_multiset(),
            ) =~= plan_ids(front.filter(chosen)).to_multiset().add(
                plan_ids(front.filter(others)).to_multiset(),
            ).insert(last.id@));
        } else {
            assert(plan_ids(plans.filter(others)) =~= plan_ids(front.filter(others)).push(last.id@));
            assert(plan_ids(front.filter(chosen)).to_multiset().add(
                plan_ids(front.filter(others)).to_multiset().insert(last.id@),
            ) =~= plan_ids(front.filter(chosen)).to_multiset().add(
                plan_ids(front.filter(others)).to_multiset(),
            ).insert(last.id@));
        }
    }
}

/// Creates the directory a managed plan is unpacked into and, where the
/// platform keeps access control lists, hands it to the user of the plan.
/// A plan whose directory could not be prepared is excluded.
pub fn setup_managed_directories(
    platform: Platform,
    plans: Vec<Plan>,
    reports: &Vec<FailedOperation>,
) -> (outcome: (Vec<Plan>, Vec<SetupFailure>))
    ensures
        outcome.0@ == surviving_plans(
            SetupStageView::ManagedDirectories,
            platform,
            plans@,
            report_views(reports@),
        ),
        failure_views(outcome.1@) == recorded_failures(
            SetupStageView::ManagedDirectories,
            platform,
            plans@,
            report_views(reports@),
        ),
        accounts_for(plans@, outcome.0@, failure_views(outcome.1@)),
{
    exclude_failed(&SetupStage::ManagedDirectories, platform, plans, reports)
}

/// Creates the working directory of each plan and, where the platform
/// keeps access control lists, resets its permissions and hands it to the
/// user of the plan. A plan whose directory could not be prepared is
/// excluded.
pub fn setup_plans_working_directory(
    platform: Platform,
    plans: Vec<Plan>,
    reports: &Vec<FailedOperation>,
) -> (outcome: (Vec<Plan>, Vec<SetupFailure>))
    ensures
        outcome.0@ == surviving_plans(
            SetupStageView::PlanWorkingDirectories,
            platform,
            plans@,
            report_views(reports@),
        ),
        failure_views(outcome.1@) == recorded_failures(
            SetupStageView::PlanWorkingDirectories,
            platform,
            plans@,
            report_views(reports@),
        ),
        accounts_for(plans@, outcome.0@, failure_views(outcome.1@)),
{
    exclude_failed(&SetupStage::PlanWorkingDirectories, platform, plans, reports)
}

/// Creates `target` and below it one directory per session. If `target`
/// could not be created, every plan is excluded; if the directory of a
/// session could not be prepared, every plan of that session is excluded.
pub fn setup_with_one_directory_per_user(
    target: &str,
    plans: Vec<Plan>,
    description_for_failure_reporting: &str,
    platform: Platform,
    reports: &Vec<FailedOperation>,
) -> (outcome: (Vec<Plan>, Vec<SetupFailure>))
    ensures
        outcome.0@ == surviving_plans(
            SetupStageView::SessionDirectories {
                target: target@,
                description: description_for_failure_reporting@,
            },
            platform,
            plans@,
            report_views(reports@),
        ),
        failure_views(outcome.1@) == recorded_failures(
            SetupStageView::SessionDirectories {
                target: target@,
                description: description_for_failure_reporting@,
            },
            platform,
            plans@,
            report_views(reports@),
        ),
        accounts_for(plans@, outcome.0@, failure_views(outcome.1@)),
{
    let stage = SetupStage::SessionDirectories {
        target: String::from_str(target),
        description: String::from_str(description_for_failure_reporting),
    };
    exclude_failed(&stage, platform, plans, reports)
}

/// Creates below `target` the directory of the session the scheduler
/// itself runs in. If it could not be created, every plan is excluded.
pub fn setup_with_one_directory_for_current_session(
    target: &str,
    plans: Vec<Plan>,
    description_for_failure_reporting: &str,
    reports: &Vec<FailedOperation>,
) -> (outcome: (Vec<Plan>, Vec<SetupFailure>))
    ensures
        outcome.0@ == surviving_plans(
            SetupStageView::CurrentSessionDirectory {
                target: target@,
                description: description_for_failure_reporting@,
            },
            Platform::Windows,
            plans@,
            report_views(reports@),
        ),
        failure_views(outcome.1@) == recorded_failures(
            SetupStageView::CurrentSessionDirectory {
                target: target@,
                description: description_for_failure_reporting@,
            },
            Platform::Windows,
            plans@,
            report_views(reports@),
        ),
        accounts_for(plans@, outcome.0@, failure_views(outcome.1@)),
{
    let stage = SetupStage::CurrentSessionDirectory {
        target: String::from_str(target),
        description: String::from_str(description_for_failure_reporting),
    };
    exclude_failed(&stage, Platform::Windows, plans, reports)
}

/// The operation that is due for a plan: its first step that was neither
/// performed nor reported as failed. Nothing is due once one of its steps
/// was reported as failed.
pub open spec fn pending_operation(
    steps: Seq<SetupStepView>,
    performed: Seq<DirectoryOperationView>,
    reports: Seq<FailedOperationView>,
) -> Option<DirectoryOperationView>
    decreases steps.len(),
{
    if steps.len() == 0 {
        None
    } else if reported_details(steps.first().operation, reports) is Some {
        None
    } else if performed.contains(steps.first().operation) {
        pending_operation(steps.drop_first(), performed, reports)
    } else {
        Some(steps.first().operation)
    }
}

/// The operation that is due in a stage: the pending operation of the
/// first plan that has one.
pub open spec fn due_operation(
    stage: SetupStageView,
    platform: Platform,
    plans: Seq<Plan>,
    performed: Seq<DirectoryOperationView>,
    reports: Seq<FailedOperationView>,
) -> Option<DirectoryOperationView>
    decreases plans.len(),
{
    if plans.len() == 0 {
        None
    } else {
        match pending_operation(stage_steps(stage, platform, plans.first()), performed, reports) {
            Some(operation) => Some(operation),
            None => due_operation(stage, platform, plans.drop_first(), performed, reports),
        }
    }
}

/// The contents of a sequence of operations.
pub open spec fn operation_views(operations: Seq<DirectoryOperation>) -> Seq<
    DirectoryOperationView,
> {
    operations.map_values(|operation: DirectoryOperation| operation@)
}

/// A pending operation was neither performed nor reported as failed, so
/// no operation is asked for twice.
pub proof fn lemma_pending_operation_is_new(
    steps: Seq<SetupStepView>,
    performed: Seq<DirectoryOperationView>,
    reports: Seq<FailedOperationView>,
)
    requires
        pending_operation(steps, performed, reports) is Some,
    ensures
        !performed.contains(pending_operation(steps, performed, reports)->0),
        reported_details(pending_operation(steps, performed, reports)->0, reports) is None,
    decreases steps.len(),
{
    if steps.len() > 0 && reported_details(steps.first().operation, reports) is None
        && performed.contains(steps.first().operation) {
        lemma_pending_operation_is_new(steps.drop_first(), performed, reports);
    }
}

/// The operation that is due in a stage was neither performed nor
/// reported as failed: every operation is asked for at most once, however
/// many plans depend on it.
pub proof fn lemma_due_operation_is_new(
    stage: SetupStageView,
    platform: Platform,
    plans: Seq<Plan>,
    performed: Seq<DirectoryOperationView>,
    reports: Seq<FailedOperationView>,
)
    requires
        due_operation(stage, platform, plans, performed, reports) is Some,
    ensures
        !performed.contains(due_operation(stage, platform, plans, performed, reports)->0),
        reported_details(due_operation(stage, platform, plans, performed, reports)->0, reports)
            is None,
    decreases plans.len(),
{
    let steps = stage_steps(stage, platform, plans.first());
    if pending_operation(steps, performed, reports) is Some {
        lemma_pending_operation_is_new(steps, performed, reports);
    } else {
        lemma_due_operation_is_new(stage, platform, plans.drop_first(), performed, reports);
    }
}

/// When nothing is pending for a plan and none of its steps was reported
/// as failed, all of its steps were performed.
pub proof fn lemma_nothing_pending(
    steps: Seq<SetupStepView>,
    performed: Seq<DirectoryOperationView>,
    reports: Seq<FailedOperationView>,
)
    requires
        pending_operation(steps, performed, reports) is None,
        first_failure(steps, reports) is None,
    ensures
        forall|i: int| 0 <= i < steps.len() ==> performed.contains(#[trigger] steps[i].operation),
    decreases steps.len(),
{
    if steps.len() > 0 {
        lemma_no_failure_at(steps, reports, 0);
        lemma_no_failure_in_rest(steps, reports);
        lemma_nothing_pending(steps.drop_first(), performed, reports);
        assert forall|i: int| 0 <= i < steps.len() implies performed.contains(
            #[trigger] steps[i].operation,
        ) by {
            if i > 0 {
                assert(steps[i] == steps.drop_first()[i - 1]);
            }
        }
    }
}

/// Without a failure among the steps, no single step was reported.
pub proof fn lemma_no_failure_at(
    steps: Seq<SetupStepView>,
    reports: Seq<FailedOperationView>,
    i: int,
)
    requires
        first_failure(steps, reports) is None,
        0 <= i < steps.len(),
    ensures
        reported_details(steps[i].operation, reports) is None,
    decreases steps.len(),
{
    if i < steps.len() - 1 {
        lemma_no_failure_at(steps.drop_last(), reports, i);
    }
}

/// Without a failure among the steps, there is none among the steps after
/// the first.
pub proof fn lemma_no_failure_in_rest(steps: Seq<SetupStepView>, reports: Seq<FailedOperationView>)
    requires
        first_failure(steps, reports) is None,
        steps.len() > 0,
    ensures
        first_failure(steps.drop_first(), reports) is None,
    decreases steps.len(),
{
    if steps.len() > 1 {
        lemma_no_failure_in_rest(steps.drop_last(), reports);
        assert(steps.drop_last().drop_first() =~= steps.drop_first().drop_last());
        assert(steps.drop_first().last() == steps.last());
    }
}

/// When no operation is due in a stage, every plan is settled: it is
/// excluded, or all of its steps were performed.
pub proof fn lemma_stage_is_settled(
    stage: SetupStageView,
    platform: Platform,
    plans: Seq<Plan>,
    performed: Seq<DirectoryOperationView>,
    reports: Seq<FailedOperationView>,
    i: int,
    j: int,
)
    requires
        due_operation(stage, platform, plans, performed, reports) is None,
        0 <= i < plans.len(),
        !is_excluded(stage, platform, reports, plans[i]),
        0 <= j < stage_steps(stage, platform, plans[i]).len(),
    ensures
        performed.contains(stage_steps(stage, platform, plans[i])[j].operation),
    decreases plans.len(),
{
    if i == 0 {
        lemma_nothing_pending(stage_steps(stage, platform, plans[0]), performed, reports);
    } else {
        assert(plans.drop_first()[i - 1] == plans[i]);
        lemma_stage_is_settled(stage, platform, plans.drop_first(), performed, reports, i - 1, j);
    }
}

fn is_performed(operation: &DirectoryOperation, performed: &Vec<DirectoryOperation>) -> (found: bool)
    ensures
        found == operation_views(performed@).contains(operation@),
{
    let ghost all = operation_views(performed@);
    let mut i: usize = 0;
    while i < performed.len()
        invariant
            i <= performed.len(),
            all == operation_views(performed@),
            forall|j: int| 0 <= j < i ==> all[j] != operation@,
        decreases performed.len() - i,
    {
        if performed[i].is_same(operation) {
            assert(all[i as int] == operation@);
            return true;
        }
        i += 1;
    }
    false
}

fn pending_step(
    steps: &Vec<SetupStep>,
    performed: &Vec<DirectoryOperation>,
    reports: &Vec<FailedOperation>,
) -> (pending: Option<usize>)
    ensures
        match pending_operation(
            step_views(steps@),
            operation_views(performed@),
            report_views(reports@),
        ) {
            Some(operation) => pending is Some && pending->0 < steps.len()
                && steps@[pending->0 as int].operation@ == operation,
            None => pending is None,
        },
{
    let ghost all = step_views(steps@);
    let ghost done = operation_views(performed@);
    let ghost reported = report_views(reports@);
    let mut i: usize = 0;
    assert(all.skip(0) =~= all);
    while i < steps.len()
        invariant
            i <= steps.len(),
            all == step_views(steps@),
            done == operation_views(performed@),
            reported == report_views(reports@),
            pending_operation(all, done, reported) == pending_operation(
                all.skip(i as int),
                done,
                reported,
            ),
        decreases steps.len() - i,
    {
        assert(all.skip(i as int).drop_first() =~= all.skip(i + 1));
        assert(all.skip(i as int).first() == all[i as int]);
        if crate::setup::find_report(&steps[i].operation, reports).is_some() {
            return None;
        }
        if !is_performed(&steps[i].operation, performed) {
            return Some(i);
        }
        i += 1;
    }
    None
}

/// Names the operation to perform next in a stage, given the operations
/// that were performed with success and those that were reported as
/// failed. Returns `None` when every plan is settled.
pub fn next_operation(
    stage: &SetupStage,
    platform: Platform,
    plans: &Vec<Plan>,
    performed: &Vec<DirectoryOperation>,
    reports: &Vec<FailedOperation>,
) -> (next: Option<DirectoryOperation>)
    ensures
        match due_operation(
            stage@,
            platform,
            plans@,
            operation_views(performed@),
            report_views(reports@),
        ) {
            Some(operation) => next is Some && next->0@ == operation,
            None => next is None,
        },
{
    let ghost done = operation_views(performed@);
    let ghost reported = report_views(reports@);
    let mut i: usize = 0;
    assert(plans@.skip(0) =~= plans@);
    while i < plans.len()
        invariant
            i <= plans.len(),
            done == operation_views(performed@),
            reported == report_views(reports@),
            due_operation(stage@, platform, plans@, done, reported) == due_operation(
                stage@,
                platform,
                plans@.skip(i as int),
                done,
                reported,
            ),
        decreases plans.len() - i,
    {
        assert(plans@.skip(i as int).drop_first() =~= plans@.skip(i + 1));
        assert(plans@.skip(i as int).first() == plans@[i as int]);
        let mut steps = stage.steps(platform, &plans[i]);
        match pending_step(&steps, performed, reports) {
            Some(index) => {
                let step = steps.swap_remove(index);
                return Some(step.operation);
            },
            None => {},
        }
        i += 1;
    }
    None
}

/// Why the setup as a whole could not be completed.
#[derive(Debug, Clone, PartialEq, Eq)]
pub enum SetupError {
    /// The scheduler is shutting down.
    Cancelled,
    /// A prerequisite shared by all plans could not be established.
    Unrecoverable(String),
}

/// What was observed while the operations of the setup were performed.
#[derive(Debug)]
pub struct SetupObservations {
    /// Set if a prerequisite shared by all plans could not be established:
    /// a top-level directory, the removal of stale entries, or the lock on
    /// the results directory.
    pub shared_failure: Option<SetupError>,
    /// Operations that failed for the managed directories.
    pub managed_directories: Vec<FailedOperation>,
    /// Operations that failed for the working directories of the plans.
    pub working_directories: Vec<FailedOperation>,
    /// Operations that failed for the directories used to build environments.
    pub environment_building: Vec<FailedOperation>,
    /// Operations that failed for the directories used to set up the
    /// package manager.
    pub rcc_setup: Vec<FailedOperation>,
    /// Operations that failed for the directory of the scheduler's own
    /// session below the directory used to set up the package manager.
    pub rcc_setup_long_paths: Vec<FailedOperation>,
}

/// A directory that all plans depend on.
#[derive(Debug, Clone, PartialEq, Eq)]
pub struct SharedDirectory {
    pub path: String,
    /// Whether the directory is emptied: removed, if it exists, and
    /// created anew.
    pub reset: bool,
}

/// The directories that all plans depend on, in the order in which they
/// are prepared. Setup fails as a whole if one of them cannot be
/// prepared.
pub open spec fn shared_directory_paths(global_config: GlobalConfig) -> Seq<(Seq<char>, bool)> {
    seq![
        (global_config.working_directory@, false),
        (joined_path(global_config.working_directory@, "plans"@), false),
        (joined_path(global_config.working_directory@, "rcc_setup"@), true),
        (joined_path(global_config.working_directory@, "environment_building"@), true),
        (global_config.managed_directory@, true),
        (global_config.results_directory@, false),
        (joined_path(global_config.results_directory@, "plans"@), false),
    ]
}

/// Path and treatment of each of a sequence of shared directories.
pub open spec fn shared_directory_views(directories: Seq<SharedDirectory>) -> Seq<(Seq<char>, bool)> {
    directories.map_values(|directory: SharedDirectory| (directory.path@, directory.reset))
}

/// Names the directories that all plans depend on, in the order in which
/// they are prepared: the working directory with the directory of the
/// plans, the directories for setting up the package manager and for
/// building environments, which are emptied on every start, the directory
/// of the managed plans, emptied as well, and the results directory with
/// the directory of the plan results.
pub fn shared_directories(global_config: &GlobalConfig) -> (directories: Vec<SharedDirectory>)
    ensures
        shared_directory_views(directories@) == shared_directory_paths(*global_config),
{
    let working_directory = global_config.working_directory.as_str();
    let results_directory = global_config.results_directory.as_str();
    let mut directories: Vec<SharedDirectory> = Vec::new();
    directories.push(SharedDirectory { path: global_config.working_directory.clone(), reset: false });
    directories.push(
        SharedDirectory { path: plans_working_directory(working_directory), reset: false },
    );
    directories.push(
        SharedDirectory { path: rcc_setup_working_directory(working_directory), reset: true },
    );
    directories.push(
        SharedDirectory {
            path: environment_building_working_directory(working_directory),
            reset: true,
        },
    );
    directories.push(SharedDirectory { path: global_config.managed_directory.clone(), reset: true });
    directories.push(SharedDirectory { path: global_config.results_directory.clone(), reset: false });
    directories.push(SharedDirectory { path: plan_results_directory(results_directory), reset: false });
    assert(shared_directory_views(directories@) =~= shared_directory_paths(*global_config));
    directories
}

/// The plans whose environment is managed by the package manager.
pub open spec fn uses_rcc() -> spec_fn(Plan) -> bool {
    |plan: Plan| plan.environment.is_rcc()
}

/// The plans that run in the system environment.
pub open spec fn uses_system() -> spec_fn(Plan) -> bool {
    |plan: Plan| !plan.environment.is_rcc()
}

/// The stage that prepares the directories in which environments are built.
pub open spec fn environment_building_stage(working_directory: Seq<char>) -> SetupStageView {
    SetupStageView::SessionDirectories {
        target: joined_path(working_directory, "environment_building"@),
        description: "environment building"@,
    }
}

/// The stage that prepares the directories in which the package manager is
/// set up.
pub open spec fn rcc_setup_stage(working_directory: Seq<char>) -> SetupStageView {
    SetupStageView::SessionDirectories {
        target: joined_path(working_directory, "rcc_setup"@),
        description: "RCC setup"@,
    }
}

/// The stage that prepares the directory of the scheduler's own session
/// where the package manager is set up.
pub open spec fn long_path_stage(working_directory: Seq<char>) -> SetupStageView {
    SetupStageView::CurrentSessionDirectory {
        target: joined_path(working_directory, "rcc_setup"@),
        description: "RCC setup (long path support)"@,
    }
}

impl SetupStage {
    /// The stage that prepares the directories in which environments are
    /// built.
    pub fn environment_building(working_directory: &str) -> (stage: SetupStage)
        ensures
            stage@ == environment_building_stage(working_directory@),
    {
        SetupStage::SessionDirectories {
            target: environment_building_working_directory(working_directory),
            description: String::from_str("environment building"),
        }
    }

    /// The stage that prepares the directories in which the package
    /// manager is set up.
    pub fn rcc_setup(working_directory: &str) -> (stage: SetupStage)
        ensures
            stage@ == rcc_setup_stage(working_directory@),
    {
        SetupStage::SessionDirectories {
            target: rcc_setup_working_directory(working_directory),
            description: String::from_str("RCC setup"),
        }
    }

    /// The stage that prepares the directory of the scheduler's own
    /// session where the package manager is set up.
    pub fn rcc_setup_long_paths(working_directory: &str) -> (stage: SetupStage)
        ensures
            stage@ == long_path_stage(working_directory@),
    {
        SetupStage::CurrentSessionDirectory {
            target: rcc_setup_working_directory(working_directory),
            description: String::from_str("RCC setup (long path support)"),
        }
    }
}

/// Survivors and failures of the stages that prepare the directories
/// shared by the plans of a session. Only plans of the package manager
/// pass through these stages; plans of the system environment survive
/// and follow the others.
pub open spec fn rcc_directories_outcome(
    working_directory: Seq<char>,
    platform: Platform,
    plans: Seq<Plan>,
    observations: SetupObservations,
) -> (Seq<Plan>, Seq<SetupFailureView>) {
    let building = environment_building_stage(working_directory);
    let building_reports = report_views(observations.environment_building@);
    let rcc = rcc_setup_stage(working_directory);
    let rcc_reports = report_views(observations.rcc_setup@);
    let long_paths = long_path_stage(working_directory);
    let long_path_reports = report_views(observations.rcc_setup_long_paths@);
    let rcc_plans = plans.filter(uses_rcc());
    let built = surviving_plans(building, platform, rcc_plans, building_reports);
    let prepared = surviving_plans(rcc, platform, built, rcc_reports);
    let failures = recorded_failures(building, platform, rcc_plans, building_reports)
        + recorded_failures(rcc, platform, built, rcc_reports);
    match platform {
        Platform::Unix => (prepared + plans.filter(uses_system()), failures),
        Platform::Windows => (
            surviving_plans(long_paths, Platform::Windows, prepared, long_path_reports)
                + plans.filter(uses_system()),
            failures + recorded_failures(
                long_paths,
                Platform::Windows,
                prepared,
                long_path_reports,
            ),
        ),
    }
}

/// Survivors and failures of the stages that prepare working directories:
/// first the directory of each plan, then the directories shared by the
/// plans of a session.
pub open spec fn working_directories_outcome(
    global_config: GlobalConfig,
    plans: Seq<Plan>,
    observations: SetupObservations,
) -> (Seq<Plan>, Seq<SetupFailureView>) {
    let reports = report_views(observations.working_directories@);
    let stage = SetupStageView::PlanWorkingDirectories;
    let shared = rcc_directories_outcome(
        global_config.working_directory@,
        global_config.platform,
        surviving_plans(stage, global_config.platform, plans, reports),
        observations,
    );
    (shared.0, recorded_failures(stage, global_config.platform, plans, reports) + shared.1)
}

/// Survivors, before they are reordered, and failures of all stages that
/// can exclude single plans.
pub open spec fn stages_outcome(
    global_config: GlobalConfig,
    plans: Seq<Plan>,
    observations: SetupObservations,
) -> (Seq<Plan>, Seq<SetupFailureView>) {
    let reports = report_views(observations.managed_directories@);
    let stage = SetupStageView::ManagedDirectories;
    let working = working_directories_outcome(
        global_config,
        surviving_plans(stage, global_config.platform, plans, reports),
        observations,
    );
    (working.0, recorded_failures(stage, global_config.platform, plans, reports) + working.1)
}

/// Separates the plans of the package manager from those of the system
/// environment, each part in the order of the plans.
pub fn partition_by_environment(plans: Vec<Plan>) -> (parts: (Vec<Plan>, Vec<Plan>))
    ensures
        parts.0@ == plans@.filter(uses_rcc()),
        parts.1@ == plans@.filter(uses_system()),
{
    let mut rcc_plans: Vec<Plan> = Vec::new();
    let mut system_plans: Vec<Plan> = Vec::new();
    proof {
        reveal(Seq::filter);
        assert(plans@.take(0).filter(uses_rcc()) =~= Seq::empty());
        assert(plans@.take(0).filter(uses_system()) =~= Seq::empty());
    }
    for plan in it: plans
        invariant
            it.seq() == plans@,
            rcc_plans@ == it.seq().take(it.index() as int).filter(uses_rcc()),
            system_plans@ == it.seq().take(it.index() as int).filter(uses_system()),
    {
        proof {
            let done = it.seq().take(it.index() as int);
            assert(it.seq().take(it.index() + 1) =~= done.push(plan));
            done.lemma_filter_push(plan, uses_rcc());
            done.lemma_filter_push(plan, uses_system());
        }
        if plan.environment.uses_rcc() {
            rcc_plans.push(plan);
        } else {
            system_plans.push(plan);
        }
    }
    proof {
        assert(plans@.take(plans@.len() as int) =~= plans@);
    }
    (rcc_plans, system_plans)
}

/// Prepares, for the plans of the package manager, the directories that
/// the plans of a session share: one for building environments and one
/// for setting up the package manager. Where the platform keeps access
/// control lists, the latter also gets a directory for the session of the
/// scheduler itself. Plans of the system environment pass untouched.
pub fn setup_rcc_working_directories(
    working_directory: &str,
    plans: Vec<Plan>,
    platform: Platform,
    observations: &SetupObservations,
) -> (outcome: (Vec<Plan>, Vec<SetupFailure>))
    ensures
        outcome.0@ == rcc_directories_outcome(working_directory@, platform, plans@, *observations).0,
        failure_views(outcome.1@) == rcc_directories_outcome(
            working_directory@,
            platform,
            plans@,
            *observations,
        ).1,
        accounts_for(plans@, outcome.0@, failure_views(outcome.1@)),
{
    let (rcc_plans, mut system_plans) = partition_by_environment(plans);
    let ghost rcc_part = rcc_plans@;
    let ghost system_part = system_plans@;
    let building_target = environment_building_working_directory(working_directory);
    let (built, mut failures) = setup_with_one_directory_per_user(
        building_target.as_str(),
        rcc_plans,
        "environment building",
        platform,
        &observations.environment_building,
    );
    let ghost built_part = built@;
    let ghost building_failures = failure_views(failures@);
    let rcc_target = rcc_setup_working_directory(working_directory);
    let (prepared, mut rcc_failures) = setup_with_one_directory_per_user(
        rcc_target.as_str(),
        built,
        "RCC setup",
        platform,
        &observations.rcc_setup,
    );
    let ghost prepared_part = prepared@;
    let ghost rcc_setup_failures = failure_views(rcc_failures@);
    failures.append(&mut rcc_failures);
    proof {
        assert(failure_views(failures@) =~= building_failures + rcc_setup_failures);
        lemma_accounting_composes(
            rcc_part,
            built_part,
            building_failures,
            prepared_part,
            rcc_setup_failures,
        );
    }
    let mut surviving = match platform {
        Platform::Unix => prepared,
        Platform::Windows => {
            let (surviving, mut long_path_failures) = setup_with_one_directory_for_current_session(
                rcc_target.as_str(),
                prepared,
                "RCC setup (long path support)",
                &observations.rcc_setup_long_paths,
            );
            let ghost recorded = failure_views(failures@);
            let ghost added = failure_views(long_path_failures@);
            failures.append(&mut long_path_failures);
            proof {
                assert(failure_views(failures@) =~= recorded + added);
                lemma_accounting_composes(rcc_part, prepared_part, recorded, surviving@, added);
            }
            surviving
        },
    };
    proof {
        lemma_accounting_of_parts(
            plans@,
            uses_rcc(),
            uses_system(),
            surviving@,
            failure_views(failures@),
        );
    }
    surviving.append(&mut system_plans);
    (surviving, failures)
}

/// Prepares the working directory of each plan and then the directories
/// that the plans of a session share.
pub fn setup_working_directories(
    global_config: &GlobalConfig,
    plans: Vec<Plan>,
    observations: &SetupObservations,
) -> (outcome: (Vec<Plan>, Vec<SetupFailure>))
    ensures
        outcome.0@ == working_directories_outcome(*global_config, plans@, *observations).0,
        failure_views(outcome.1@) == working_directories_outcome(
            *global_config,
            plans@,
            *observations,
        ).1,
        accounts_for(plans@, outcome.0@, failure_views(outcome.1@)),
{
    let (surviving, mut failures) = setup_plans_working_directory(
        global_config.platform,
        plans,
        &observations.working_directories,
    );
    let ghost first_surviving = surviving@;
    let ghost first_failures = failure_views(failures@);
    let (surviving, mut shared_failures) = setup_rcc_working_directories(
        global_config.working_directory.as_str(),
        surviving,
        global_config.platform,
        observations,
    );
    let ghost added = failure_views(shared_failures@);
    failures.append(&mut shared_failures);
    proof {
        assert(failure_views(failures@) =~= first_failures + added);
        lemma_accounting_composes(plans@, first_surviving, first_failures, surviving@, added);
    }
    (surviving, failures)
}

/// Decides the outcome of the setup from what was observed while its
/// operations were performed.
///
/// If a prerequisite shared by all plans could not be established, the
/// setup fails as a whole with that error. Otherwise every plan passes
/// through the stages in their order, is excluded by the first stage in
/// which one of its steps failed, and is not considered by later stages.
/// The survivors are returned in the order of their groups, the failures
/// in the order of the stages.
///
/// No plan is lost: every ID among `plans` is either the ID of a survivor
/// or named by exactly one failure.
pub fn setup(global_config: &GlobalConfig, plans: Vec<Plan>, observations: SetupObservations) -> (result:
    Result<(Vec<Plan>, Vec<SetupFailure>), SetupError>)
    ensures
        match observations.shared_failure {
            Some(error) => result == Err::<(Vec<Plan>, Vec<SetupFailure>), SetupError>(error),
            None => {
                let expected = stages_outcome(*global_config, plans@, observations);
                &&& result matches Ok(outcome)
                &&& failure_views(outcome.1@) == expected.1
                &&& is_ordered_by_grouping(outcome.0@)
                &&& outcome.0@.to_multiset() == expected.0.to_multiset()
                &&& forall|group_index: usize, position_in_group: usize|
                    outcome.0@.filter(#[trigger] placed_at(group_index, position_in_group))
                        == expected.0.filter(placed_at(group_index, position_in_group))
                &&& accounts_for(plans@, outcome.0@, failure_views(outcome.1@))
            },
        },
{
    let SetupObservations {
        shared_failure,
        managed_directories,
        working_directories,
        environment_building,
        rcc_setup,
        rcc_setup_long_paths,
    } = observations;
    match shared_failure {
        Some(error) => Err(error),
        None => {
            let observations = SetupObservations {
                shared_failure: None,
                managed_directories,
                working_directories,
                environment_building,
                rcc_setup,
                rcc_setup_long_paths,
            };
            let (surviving, mut failures) = setup_managed_directories(
                global_config.platform,
                plans,
                &observations.managed_directories,
            );
            let ghost first_surviving = surviving@;
            let ghost first_failures = failure_views(failures@);
            let (mut surviving, mut working_failures) = setup_working_directories(
                global_config,
                surviving,
                &observations,
            );
            let ghost added = failure_views(working_failures@);
            failures.append(&mut working_failures);
            proof {
                assert(failure_views(failures@) =~= first_failures + added);
                lemma_accounting_composes(
                    plans@,
                    first_surviving,
                    first_failures,
                    surviving@,
                    added,
                );
            }
            sort_plans_by_grouping(&mut surviving);
            Ok((surviving, failures))
        },
    }
}

} // verus!
