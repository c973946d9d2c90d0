use suite_scheduler::environment::Environment;
use suite_scheduler::internal_config::{
    ids_are_unique, plan_paths, results_files, working_directories, GlobalConfig,
    GroupAffiliation, Plan, PlanPaths, Platform, Robot, Source,
};
use suite_scheduler::lock::LockOutcome;
use suite_scheduler::session::Session;
use suite_scheduler::setup::cleanup::{
    clean_up_file_system_entries, clean_up_results_directory, top_level_directories,
    top_level_files, DirectoryEntry, EntryKind,
};
use suite_scheduler::setup::general::SetupError;

fn strings(texts: &[&str]) -> Vec<String> {
    texts.iter().map(|text| text.to_string()).collect()
}

fn entry(path: &str, kind: EntryKind) -> DirectoryEntry {
    DirectoryEntry {
        path: path.to_string(),
        kind,
    }
}

fn plan(id: &str) -> Plan {
    Plan {
        id: id.to_string(),
        source: Source::Manual,
        session: Session::Current,
        environment: Environment::System,
        working_directory: format!("/work/plans/{id}"),
        results_file: format!("/results/plans/{id}.json"),
        timeout: 60,
        robot: Robot {
            robot_target: "tasks.robot".into(),
            command_line_args: vec![],
            n_attempts_max: 1,
        },
        group_affiliation: GroupAffiliation {
            group_index: 0,
            position_in_group: 0,
            execution_interval: 300,
        },
    }
}

#[test]
fn cleanup_removes_what_is_present_and_not_kept() {
    let keep = strings(&["/work/plans/a", "/work/plans/b", "/work/plans/missing"]);
    let present = strings(&[
        "/work/plans/old",
        "/work/plans/a",
        "/work/plans/older",
        "/work/plans/b",
    ]);
    assert_eq!(
        clean_up_file_system_entries(&keep, &present),
        strings(&["/work/plans/old", "/work/plans/older"])
    );
}

#[test]
fn cleanup_keeps_an_entry_under_another_text() {
    let keep = strings(&["/work/plans/a/", "/work//plans/b"]);
    let present = strings(&["/work/plans/a", "/work/plans/b", "/work/plans/c"]);
    assert_eq!(
        clean_up_file_system_entries(&keep, &present),
        strings(&["/work/plans/c"])
    );
}

#[test]
fn cleanup_removes_each_entry_once() {
    let present = strings(&[
        "/work/plans/old",
        "/work/plans/old/",
        "/work/plans/a",
        "/work/plans/old",
    ]);
    assert_eq!(
        clean_up_file_system_entries(&strings(&["/work/plans/a"]), &present),
        strings(&["/work/plans/old"])
    );
}

#[test]
fn cleanup_is_idempotent() {
    let keep = strings(&["/work/plans/a", "/work/plans/b"]);
    let present = strings(&["/work/plans/a", "/work/plans/x", "/work/plans/b", "/work/plans/y"]);
    let stale = clean_up_file_system_entries(&keep, &present);
    assert_eq!(stale, strings(&["/work/plans/x", "/work/plans/y"]));
    let remaining: Vec<String> = present
        .into_iter()
        .filter(|entry| !stale.contains(entry))
        .collect();
    assert_eq!(remaining, strings(&["/work/plans/a", "/work/plans/b"]));
    assert_eq!(clean_up_file_system_entries(&keep, &remaining), strings(&[]));
}

#[test]
fn cleanup_at_the_edges() {
    assert_eq!(clean_up_file_system_entries(&vec![], &vec![]), strings(&[]));
    assert_eq!(
        clean_up_file_system_entries(&strings(&["/a"]), &vec![]),
        strings(&[])
    );
    assert_eq!(
        clean_up_file_system_entries(&vec![], &strings(&["/a", "/b"])),
        strings(&["/a", "/b"])
    );
    assert_eq!(
        clean_up_file_system_entries(&strings(&["/a", "/b"]), &strings(&["/b", "/a"])),
        strings(&[])
    );
}

#[test]
fn entries_are_told_apart_by_kind() {
    let entries = vec![
        entry("/results/a.json", EntryKind::File),
        entry("/results/plans", EntryKind::Directory),
        entry("/results/socket", EntryKind::Other),
        entry("/results/b.json", EntryKind::File),
        entry("/results/tmp", EntryKind::Directory),
    ];
    assert_eq!(
        top_level_files(&entries),
        strings(&["/results/a.json", "/results/b.json"])
    );
    assert_eq!(
        top_level_directories(&entries),
        strings(&["/results/plans", "/results/tmp"])
    );
    assert_eq!(top_level_files(&vec![]), strings(&[]));
    assert_eq!(top_level_directories(&vec![]), strings(&[]));
}

#[test]
fn paths_of_the_plans() {
    let plans = vec![plan("a"), plan("b")];
    assert_eq!(
        working_directories(&plans),
        strings(&["/work/plans/a", "/work/plans/b"])
    );
    assert_eq!(
        results_files(&plans),
        strings(&["/results/plans/a.json", "/results/plans/b.json"])
    );
}

#[test]
fn stale_working_directories_are_removed() {
    let plans = vec![plan("a"), plan("b")];
    let present = top_level_directories(&vec![
        entry("/work/plans/a", EntryKind::Directory),
        entry("/work/plans/gone", EntryKind::Directory),
        entry("/work/plans/notes.txt", EntryKind::File),
    ]);
    assert_eq!(
        clean_up_file_system_entries(&working_directories(&plans), &present),
        strings(&["/work/plans/gone"])
    );
}

#[test]
fn the_results_directory_is_cleaned_under_its_lock() {
    let plans = vec![plan("a"), plan("b")];
    let results = vec![
        entry("/results/scheduler_phase.json", EntryKind::File),
        entry("/results/plans", EntryKind::Directory),
        entry("/results/setup_failures.json", EntryKind::File),
    ];
    let plan_results = vec![
        entry("/results/plans/a.json", EntryKind::File),
        entry("/results/plans/gone.json", EntryKind::File),
        entry("/results/plans/b.json", EntryKind::File),
        entry("/results/plans/directory", EntryKind::Directory),
    ];
    assert_eq!(
        clean_up_results_directory(&plans, LockOutcome::Acquired, &results, &plan_results),
        Ok(strings(&[
            "/results/scheduler_phase.json",
            "/results/setup_failures.json",
            "/results/plans/gone.json",
        ]))
    );
}

#[test]
fn without_the_lock_nothing_is_removed() {
    let plans = vec![plan("a")];
    let results = vec![entry("/results/scheduler_phase.json", EntryKind::File)];
    assert_eq!(
        clean_up_results_directory(&plans, LockOutcome::Cancelled, &results, &vec![]),
        Err(SetupError::Cancelled)
    );
    assert_eq!(
        clean_up_results_directory(
            &plans,
            LockOutcome::Failed("lock file is gone".into()),
            &results,
            &vec![]
        ),
        Err(SetupError::Unrecoverable("lock file is gone".into()))
    );
}

fn global_config() -> GlobalConfig {
    GlobalConfig {
        working_directory: "/work".into(),
        results_directory: "/results".into(),
        managed_directory: "/managed".into(),
        platform: Platform::Unix,
    }
}

#[test]
fn the_paths_of_a_plan_follow_from_its_id() {
    assert_eq!(
        plan_paths(&global_config(), "a"),
        PlanPaths {
            working_directory: "/work/plans/a".into(),
            results_file: "/results/plans/a.json".into(),
            managed_directory: "/managed/a".into(),
        }
    );
}

#[test]
fn a_plan_is_described_with_its_derived_paths() {
    let robot = Robot {
        robot_target: "tasks.robot".into(),
        command_line_args: vec!["--dryrun".into()],
        n_attempts_max: 2,
    };
    let group_affiliation = GroupAffiliation {
        group_index: 1,
        position_in_group: 2,
        execution_interval: 300,
    };
    assert_eq!(
        Plan::new(
            &global_config(),
            "a".into(),
            Some("/archives/a.tar.gz".into()),
            Session::Current,
            Environment::System,
            60,
            robot.clone(),
            group_affiliation,
        ),
        Plan {
            id: "a".into(),
            source: Source::Managed {
                tar_gz_path: "/archives/a.tar.gz".into(),
                target: "/managed/a".into(),
            },
            session: Session::Current,
            environment: Environment::System,
            working_directory: "/work/plans/a".into(),
            results_file: "/results/plans/a.json".into(),
            timeout: 60,
            robot: robot.clone(),
            group_affiliation,
        }
    );
    let manual = Plan::new(
        &global_config(),
        "b".into(),
        None,
        Session::Current,
        Environment::System,
        60,
        robot,
        group_affiliation,
    );
    assert_eq!(manual.source, Source::Manual);
    assert_eq!(manual, {
        let mut expected = plan("b");
        expected.robot = manual.robot.clone();
        expected.group_affiliation = group_affiliation;
        expected
    });
}

#[test]
fn ids_are_unique_unless_two_plans_share_one() {
    assert!(ids_are_unique(&vec![]));
    assert!(ids_are_unique(&vec![plan("a")]));
    assert!(ids_are_unique(&vec![plan("a"), plan("b"), plan("c")]));
    assert!(!ids_are_unique(&vec![plan("a"), plan("b"), plan("a")]));
    assert!(!ids_are_unique(&vec![plan("a"), plan("b"), plan("b")]));
    assert!(!ids_are_unique(&vec![plan("a"), plan("a")]));
}
