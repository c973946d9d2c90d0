//! Commands that adjust access control lists, and the decisions that
//! follow from their results. The commands are built here and launched by
//! the caller.

use crate::command_spec::{pair_texts, slice_texts, texts, CommandSpec, CommandSpecView};
use crate::internal_config::{plan_ids, Plan};
use crate::session::{Session, SessionView};
use crate::setup::{DirectoryOperation, DirectoryOperationView};
use vstd::prelude::*;
use vstd::string::StringExecFns;

verus! {

/// The command that calls the access control utility with `arguments`.
pub open spec fn icacls(arguments: Seq<Seq<char>>) -> CommandSpecView {
    CommandSpecView { executable: "icacls.exe"@, arguments: arguments, envs: Seq::empty() }
}

/// The arguments that grant `user` the given permissions on `path`.
pub open spec fn grant_arguments(
    path: Seq<char>,
    user: Seq<char>,
    permissions: Seq<char>,
    additional: Seq<Seq<char>>,
) -> Seq<Seq<char>> {
    seq![path, "/grant"@, user + ":"@ + permissions] + additional
}

/// Builds the command that calls the access control utility.
pub fn icacls_command(arguments: Vec<&str>) -> (command: CommandSpec)
    ensures
        command@ == icacls(slice_texts(arguments@)),
{
    let mut command = CommandSpec::new("icacls.exe");
    command.add_arguments(arguments);
    assert(command@.arguments =~= slice_texts(arguments@));
    command
}

/// Decides whether a call of the access control utility succeeded. Any
/// exit that is not a success is a failure; its message shows the command
/// and everything the utility printed.
pub fn icacls_result(command: &str, success: bool, stdout: &str, stderr: &str) -> (result: Result<
    (),
    String,
>)
    ensures
        success ==> result is Ok,
        !success ==> result is Err && result->Err_0@ == "icacls.exe exited non-successfully.\n\nCommand:\n"@
            + command@ + "\n\nStdout:\n"@ + stdout@ + "\n\nStderr:\n"@ + stderr@,
{
    if success {
        Ok(())
    } else {
        Err(
            String::from_str("icacls.exe exited non-successfully.\n\nCommand:\n").concat(
                command,
            ).concat("\n\nStdout:\n").concat(stdout).concat("\n\nStderr:\n").concat(stderr),
        )
    }
}

/// Builds the command that recursively grants `user` full, inheritable
/// control of the tree at `target_path`.
pub fn grant_full_access(user: &str, target_path: &str) -> (command: CommandSpec)
    ensures
        command@ == icacls(grant_arguments(target_path@, user@, "(OI)(CI)F"@, seq!["/T"@])),
{
    let permission = String::from_str(user).concat(":").concat("(OI)(CI)F");
    let mut arguments: Vec<&str> = Vec::new();
    arguments.push(target_path);
    arguments.push("/grant");
    arguments.push(permission.as_str());
    arguments.push("/T");
    assert(slice_texts(arguments@) =~= grant_arguments(
        target_path@,
        user@,
        "(OI)(CI)F"@,
        seq!["/T"@],
    ));
    icacls_command(arguments)
}

/// Builds the command that recursively resets the access control lists of
/// the tree at `target_path` to what they inherit.
pub fn reset_access(target_path: &str) -> (command: CommandSpec)
    ensures
        command@ == icacls(seq![target_path@, "/reset"@, "/T"@]),
{
    let mut arguments: Vec<&str> = Vec::new();
    arguments.push(target_path);
    arguments.push("/reset");
    arguments.push("/T");
    assert(slice_texts(arguments@) =~= seq![target_path@, "/reset"@, "/T"@]);
    icacls_command(arguments)
}

/// The command that carries out an operation, for the operations that
/// adjust access control lists.
pub open spec fn operation_command(operation: DirectoryOperationView) -> Option<CommandSpecView> {
    match operation {
        DirectoryOperationView::Create { path } => None,
        DirectoryOperationView::ResetAccess { path } => Some(
            icacls(seq![path, "/reset"@, "/T"@]),
        ),
        DirectoryOperationView::GrantFullAccess { user, path } => Some(
            icacls(grant_arguments(path, user, "(OI)(CI)F"@, seq!["/T"@])),
        ),
    }
}

/// Builds the command that carries out an operation. Creating a directory
/// needs no command.
pub fn access_command(operation: &DirectoryOperation) -> (command: Option<CommandSpec>)
    ensures
        match operation_command(operation@) {
            Some(expected) => command is Some && command->0@ == expected,
            None => command is None,
        },
{
    match operation {
        DirectoryOperation::Create { path } => None,
        DirectoryOperation::ResetAccess { path } => Some(reset_access(path.as_str())),
        DirectoryOperation::GrantFullAccess { user, path } => Some(
            grant_full_access(user.as_str(), path.as_str()),
        ),
    }
}

/// Says what was being attempted when permissions could not be adjusted.
pub fn permission_failure_context(path: &str, user: &str) -> (message: String)
    ensures
        message@ == "Adjusting permissions of "@ + path@ + " for user `"@ + user@ + "` failed"@,
{
    String::from_str("Adjusting permissions of ").concat(path).concat(" for user `").concat(
        user,
    ).concat("` failed")
}

/// The users that need permissions: the users of the plans that run in
/// the session of a named user, each user once, in the order of the plans.
pub open spec fn users_to_grant(plans: Seq<Plan>) -> Seq<Seq<char>>
    decreases plans.len(),
{
    if plans.len() == 0 {
        Seq::empty()
    } else {
        let earlier = users_to_grant(plans.drop_last());
        match plans.last().session@ {
            SessionView::User(user) => if earlier.contains(user) {
                earlier
            } else {
                earlier.push(user)
            },
            SessionView::Current => earlier,
        }
    }
}

/// Permissions are granted once per user, not once per plan: no user is
/// named twice.
pub proof fn lemma_each_user_once(plans: Seq<Plan>)
    ensures
        users_to_grant(plans).no_duplicates(),
    decreases plans.len(),
{
    if plans.len() > 0 {
        lemma_each_user_once(plans.drop_last());
    }
}

/// The user of every plan that runs in the session of a named user is
/// granted permissions.
pub proof fn lemma_every_user_is_granted(plans: Seq<Plan>, i: int)
    requires
        0 <= i < plans.len(),
        plans[i].session@ is User,
    ensures
        users_to_grant(plans).contains(plans[i].session@->User_0),
    decreases plans.len(),
{
    let earlier = users_to_grant(plans.drop_last());
    let users = users_to_grant(plans);
    if i < plans.len() - 1 {
        lemma_every_user_is_granted(plans.drop_last(), i);
        let user = plans[i].session@->User_0;
        let k = choose|k: int| 0 <= k < earlier.len() && earlier[k] == user;
        assert(users[k] == user);
    } else {
        let user = plans.last().session@->User_0;
        if earlier.contains(user) {
        } else {
            assert(users[users.len() - 1] == user);
        }
    }
}

/// Only users of plans are granted permissions.
pub proof fn lemma_only_users_of_plans_are_granted(plans: Seq<Plan>, k: int)
    requires
        0 <= k < users_to_grant(plans).len(),
    ensures
        exists|i: int|
            0 <= i < plans.len() && #[trigger] plans[i].session@ == SessionView::User(
                users_to_grant(plans)[k],
            ),
    decreases plans.len(),
{
    if plans.len() > 0 {
        let earlier = users_to_grant(plans.drop_last());
        if k < earlier.len() {
            lemma_only_users_of_plans_are_granted(plans.drop_last(), k);
            let i = choose|i: int|
                0 <= i < plans.drop_last().len() && #[trigger] plans.drop_last()[i].session@
                    == SessionView::User(earlier[k]);
            assert(plans[i].session@ == SessionView::User(users_to_grant(plans)[k]));
        } else {
            assert(plans[plans.len() - 1].session@ == SessionView::User(users_to_grant(plans)[k]));
        }
    }
}

/// A call of the access control utility that grants one user permissions.
#[derive(Debug, Clone, PartialEq, Eq)]
pub struct PermissionGrant {
    pub user: String,
    pub command: CommandSpec,
}

/// The users a sequence of grants is for, in order.
pub open spec fn granted_users(grants: Seq<PermissionGrant>) -> Seq<Seq<char>> {
    grants.map_values(|grant: PermissionGrant| grant.user@)
}

fn is_granted(grants: &Vec<PermissionGrant>, user: &String) -> (found: bool)
    ensures
        found == granted_users(grants@).contains(user@),
{
    let ghost users = granted_users(grants@);
    let mut i: usize = 0;
    while i < grants.len()
        invariant
            i <= grants.len(),
            users == granted_users(grants@),
            forall|j: int| 0 <= j < i ==> users[j] != user@,
        decreases grants.len() - i,
    {
        if grants[i].user == *user {
            assert(users[i as int] == user@);
            return true;
        }
        i += 1;
    }
    false
}

/// Builds the calls that grant the users of the plans the given
/// permissions on `path`: one call for each distinct user, however many
/// plans run as that user.
pub fn permission_grants(
    path: &str,
    plans: &Vec<Plan>,
    permissions: &str,
    additional_icacls_args: &Vec<&str>,
) -> (grants: Vec<PermissionGrant>)
    ensures
        granted_users(grants@) == users_to_grant(plans@),
        forall|i: int|
            0 <= i < grants.len() ==> (#[trigger] grants[i]).command@ == icacls(
                grant_arguments(
                    path@,
                    grants[i].user@,
                    permissions@,
                    slice_texts(additional_icacls_args@),
                ),
            ),
{
    let mut grants: Vec<PermissionGrant> = Vec::new();
    let mut i: usize = 0;
    assert(granted_users(grants@) =~= users_to_grant(plans@.take(0)));
    while i < plans.len()
        invariant
            i <= plans.len(),
            granted_users(grants@) == users_to_grant(plans@.take(i as int)),
            forall|k: int|
                0 <= k < grants.len() ==> (#[trigger] grants[k]).command@ == icacls(
                    grant_arguments(
                        path@,
                        grants[k].user@,
                        permissions@,
                        slice_texts(additional_icacls_args@),
                    ),
                ),
        decreases plans.len() - i,
    {
        proof {
            assert(plans@.take(i + 1).drop_last() =~= plans@.take(i as int));
            assert(plans@.take(i + 1).last() == plans@[i as int]);
        }
        match plans[i].session.user_name() {
            Some(user) => {
                if !is_granted(&grants, user) {
                    let ghost before = grants@;
                    let permission = user.clone().concat(":").concat(permissions);
                    let mut arguments: Vec<&str> = Vec::new();
                    arguments.push(path);
                    arguments.push("/grant");
                    arguments.push(permission.as_str());
                    let ghost fixed = arguments@;
                    let mut k: usize = 0;
                    while k < additional_icacls_args.len()
                        invariant
                            k <= additional_icacls_args.len(),
                            arguments@ == fixed + additional_icacls_args@.take(k as int),
                        decreases additional_icacls_args.len() - k,
                    {
                        arguments.push(additional_icacls_args[k]);
                        assert(additional_icacls_args@.take(k + 1) =~= additional_icacls_args@.take(
                            k as int,
                        ).push(additional_icacls_args@[k as int]));
                        k += 1;
                    }
                    assert(additional_icacls_args@.take(additional_icacls_args.len() as int)
                        =~= additional_icacls_args@);
                    assert(slice_texts(arguments@) =~= grant_arguments(
                        path@,
                        user@,
                        permissions@,
                        slice_texts(additional_icacls_args@),
                    ));
                    let command = icacls_command(arguments);
                    grants.push(PermissionGrant { user: user.clone(), command });
                    assert(granted_users(grants@) =~= granted_users(before).push(user@));
                }
            },
            None => {},
        }
        i += 1;
    }
    assert(plans@.take(plans.len() as int) =~= plans@);
    grants
}

/// Report that granting a user permissions failed.
#[derive(Debug, Clone, PartialEq, Eq)]
pub struct FailedGrant {
    pub user: String,
    pub details: String,
}

/// The contents of a sequence of reports: user and details.
pub open spec fn grant_report_views(reports: Seq<FailedGrant>) -> Seq<(Seq<char>, Seq<char>)> {
    reports.map_values(|report: FailedGrant| (report.user@, report.details@))
}

/// The details of the first report about `user`, if there is one.
pub open spec fn grant_failure(user: Seq<char>, reports: Seq<(Seq<char>, Seq<char>)>) -> Option<
    Seq<char>,
>
    decreases reports.len(),
{
    if reports.len() == 0 {
        None
    } else {
        match grant_failure(user, reports.drop_last()) {
            Some(details) => Some(details),
            None => if reports.last().0 == user {
                Some(reports.last().1)
            } else {
                None
            },
        }
    }
}

/// A report that is found among the first reports stays the first one when
/// more reports follow.
pub proof fn lemma_grant_failure_extends(
    user: Seq<char>,
    reports: Seq<(Seq<char>, Seq<char>)>,
    n: int,
)
    requires
        0 <= n <= reports.len(),
        grant_failure(user, reports.take(n)) is Some,
    ensures
        grant_failure(user, reports) == grant_failure(user, reports.take(n)),
    decreases reports.len() - n,
{
    if n == reports.len() {
        assert(reports.take(n) =~= reports);
    } else {
        assert(reports.take(n + 1).drop_last() =~= reports.take(n));
        lemma_grant_failure_extends(user, reports, n + 1);
    }
}

/// The details with which a plan is denied: those reported for its user.
/// Plans in the session of the scheduler need no grant and are never
/// denied.
pub open spec fn denial(plan: Plan, reports: Seq<(Seq<char>, Seq<char>)>) -> Option<Seq<char>> {
    match plan.session@ {
        SessionView::Current => None,
        SessionView::User(user) => grant_failure(user, reports),
    }
}

/// The plans whose user was denied permissions.
pub open spec fn is_denied(reports: Seq<(Seq<char>, Seq<char>)>) -> spec_fn(Plan) -> bool {
    |plan: Plan| denial(plan, reports) is Some
}

/// The plans whose user has the permissions, or that need none.
pub open spec fn is_granted_or_exempt(reports: Seq<(Seq<char>, Seq<char>)>) -> spec_fn(Plan) -> bool {
    |plan: Plan| denial(plan, reports) is None
}

/// ID of a denied plan with the details reported for its user.
pub open spec fn denial_record(reports: Seq<(Seq<char>, Seq<char>)>) -> spec_fn(Plan) -> (
    Seq<char>,
    Seq<char>,
) {
    |plan: Plan| (plan.id@, denial(plan, reports)->0)
}

fn find_grant_failure<'a>(user: &String, reports: &'a Vec<FailedGrant>) -> (found: Option<
    &'a FailedGrant,
>)
    ensures
        match grant_failure(user@, grant_report_views(reports@)) {
            Some(details) => found is Some && found->0.details@ == details,
            None => found is None,
        },
{
    let ghost all = grant_report_views(reports@);
    let mut i: usize = 0;
    while i < reports.len()
        invariant
            i <= reports.len(),
            all == grant_report_views(reports@),
            grant_failure(user@, all.take(i as int)) is None,
        decreases reports.len() - i,
    {
        assert(all.take(i + 1).drop_last() =~= all.take(i as int));
        if reports[i].user == *user {
            proof {
                lemma_grant_failure_extends(user@, all, i + 1);
            }
            return Some(&reports[i]);
        }
        i += 1;
    }
    assert(all.take(reports.len() as int) =~= all);
    None
}

/// Divides the plans by the result of granting their users permissions on
/// `path`, which is attempted once per user with [`permission_grants`].
/// Returns the plans that may go on, in their order, and for every other
/// plan its ID with the details of the failure.
pub fn grant_permissions_to_all_plan_users(
    plans: Vec<Plan>,
    reports: &Vec<FailedGrant>,
) -> (outcome: (Vec<Plan>, Vec<(String, String)>))
    ensures
        outcome.0@ == plans@.filter(is_granted_or_exempt(grant_report_views(reports@))),
        pair_texts(outcome.1@) == plans@.filter(
            is_denied(grant_report_views(reports@)),
        ).map_values(denial_record(grant_report_views(reports@))),
{
    let ghost reported = grant_report_views(reports@);
    let ghost granted = is_granted_or_exempt(reported);
    let ghost denied = is_denied(reported);
    let ghost record = denial_record(reported);
    let mut surviving: Vec<Plan> = Vec::new();
    let mut failures_by_plan_id: Vec<(String, String)> = Vec::new();
    proof {
        reveal(Seq::filter);
        assert(plans@.take(0).filter(granted) =~= Seq::empty());
        assert(plans@.take(0).filter(denied) =~= Seq::empty());
        assert(pair_texts(failures_by_plan_id@) =~= Seq::empty());
    }
    for plan in it: plans
        invariant
            it.seq() == plans@,
            reported == grant_report_views(reports@),
            granted == is_granted_or_exempt(reported),
            denied == is_denied(reported),
            record == denial_record(reported),
            surviving@ == it.seq().take(it.index() as int).filter(granted),
            pair_texts(failures_by_plan_id@) == it.seq().take(it.index() as int).filter(
                denied,
            ).map_values(record),
    {
        let ghost done = it.seq().take(it.index() as int);
        let ghost recorded = failures_by_plan_id@;
        proof {
            assert(it.seq().take(it.index() + 1) =~= done.push(plan));
            done.lemma_filter_push(plan, granted);
            done.lemma_filter_push(plan, denied);
        }
        let failure = match plan.session.user_name() {
            Some(user) => match find_grant_failure(user, reports) {
                Some(report) => Some(report.details.clone()),
                None => None,
            },
            None => None,
        };
        match failure {
            Some(details) => {
                failures_by_plan_id.push((plan.id, details));
                assert(pair_texts(failures_by_plan_id@) =~= pair_texts(recorded).push(record(plan)));
                assert(done.push(plan).filter(denied).map_values(record) =~= done.filter(
                    denied,
                ).map_values(record).push(record(plan)));
            },
            None => {
                surviving.push(plan);
            },
        }
    }
    proof {
        assert(plans@.take(plans@.len() as int) =~= plans@);
    }
    (surviving, failures_by_plan_id)
}

} // verus!
