use suite_scheduler::paths::{
    environment_building_working_directory, is_one_of, plan_results_directory,
    plans_working_directory, rcc_setup_working_directory,
};
use suite_scheduler::text::decimal_text;

#[test]
fn directories_below_the_working_directory() {
    assert_eq!(plans_working_directory("/work"), "/work/plans");
    assert_eq!(rcc_setup_working_directory("/work"), "/work/rcc_setup");
    assert_eq!(
        environment_building_working_directory("/work"),
        "/work/environment_building"
    );
}

#[test]
fn directory_of_the_plan_results() {
    assert_eq!(plan_results_directory("/results"), "/results/plans");
    assert_eq!(plan_results_directory("/results/"), "/results/plans");
}

#[test]
fn an_entry_is_found_under_another_text() {
    let entries = vec!["/work/plans/a".to_string(), "/work/plans/b".to_string()];
    assert!(is_one_of("/work/plans/a", &entries));
    assert!(is_one_of("/work//plans/b/", &entries));
    assert!(is_one_of("/work/plans/./b", &entries));
}

#[test]
fn an_entry_is_not_found_among_others() {
    let entries = vec!["/work/plans/a".to_string(), "/work/plans/b".to_string()];
    assert!(!is_one_of("/work/plans/c", &entries));
    assert!(!is_one_of("/work/plans", &entries));
    assert!(!is_one_of("/work/plans/a", &vec![]));
}

#[test]
fn decimal_text_of_numbers() {
    assert_eq!(decimal_text(0), "0");
    assert_eq!(decimal_text(7), "7");
    assert_eq!(decimal_text(10), "10");
    assert_eq!(decimal_text(123), "123");
    assert_eq!(decimal_text(9_007_199_254_740_991), "9007199254740991");
    assert_eq!(decimal_text(usize::MAX), usize::MAX.to_string());
}
