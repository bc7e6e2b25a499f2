use kunit::assertion::TestContext;
use kunit::case::{count_cases, kunit_case, kunit_null_test_case, HostHandle, Status, TestCase};
use kunit::registry::DiscoveryRegion;
use kunit::sample::{rust_sample_suite, RustMinimal};
use kunit::suite::TestSuite;

type TestFn = fn(&mut TestContext);

fn passing(ctx: &mut TestContext) {
    ctx.kunit_assert(true, "true", "suites.rs", 1);
}

fn failing(ctx: &mut TestContext) {
    ctx.kunit_assert(false, "false", "suites.rs", 2);
}

fn names(suite: &TestSuite<u32, u32>) -> Vec<Option<String>> {
    suite.test_cases.iter().map(|c| c.name.clone()).collect()
}

fn runs(suite: &TestSuite<u32, u32>) -> Vec<Option<u32>> {
    suite.test_cases.iter().map(|c| c.run_case).collect()
}

#[test]
fn case_record_initial_state() {
    let case = kunit_case(41u32, "answer_test");
    assert_eq!(case.run_case, Some(41));
    assert_eq!(case.name.as_deref(), Some("answer_test"));
    assert_eq!(case.generate_params, None);
    assert_eq!(case.status, Status::Success);
    assert_eq!(case.log, None);
    assert!(!case.ends_sequence());
}

#[test]
fn case_record_holds_the_function() {
    let case: TestCase<TestFn> = kunit_case(failing as TestFn, "failing");
    let mut ctx = TestContext::new();
    (case.run_case.unwrap())(&mut ctx);
    assert_eq!(ctx.failure_count(), 1);
    let case: TestCase<TestFn> = kunit_case(passing as TestFn, "passing");
    (case.run_case.unwrap())(&mut ctx);
    assert_eq!(ctx.failure_count(), 1);
}

#[test]
fn null_case_is_all_absent() {
    let case: TestCase<u32> = kunit_null_test_case();
    assert_eq!(case.run_case, None);
    assert_eq!(case.name, None);
    assert_eq!(case.generate_params, None);
    assert_eq!(case.status, Status::Success);
    assert_eq!(case.log, None);
    assert!(case.ends_sequence());
}

#[test]
fn status_codes() {
    assert_eq!(Status::Success.code(), 0);
    assert_eq!(Status::Failure.code(), 1);
    assert_eq!(Status::Skipped.code(), 2);
}

#[test]
fn three_cases_then_sentinel() {
    let cases = vec![kunit_case(1u32, "a"), kunit_case(2u32, "b"), kunit_case(3u32, "c")];
    let suite: TestSuite<u32, u32> = TestSuite::new("abc", cases);
    assert_eq!(suite.test_cases.len(), 4);
    assert_eq!(runs(&suite), vec![Some(1), Some(2), Some(3), None]);
    assert_eq!(
        names(&suite),
        vec![Some("a".to_string()), Some("b".to_string()), Some("c".to_string()), None]
    );
    assert!(suite.test_cases[3].ends_sequence());
    assert_eq!(suite.case_count(), 3);
}

#[test]
fn suite_without_hooks_has_absent_hooks() {
    let suite: TestSuite<u32, u32> = TestSuite::new("plain", vec![kunit_case(1u32, "a")]);
    assert_eq!(suite.suite_init, None);
    assert_eq!(suite.suite_exit, None);
    assert_eq!(suite.init, None);
    assert_eq!(suite.exit, None);
    assert_eq!(suite.name, "plain");
}

#[test]
fn suite_with_hooks_keeps_each_slot() {
    let suite: TestSuite<u32, u32> = TestSuite::with_hooks(
        "hooked",
        Some(10),
        Some(20),
        None,
        Some(40),
        vec![kunit_case(1u32, "a")],
    );
    assert_eq!(suite.suite_init, Some(10));
    assert_eq!(suite.suite_exit, Some(20));
    assert_eq!(suite.init, None);
    assert_eq!(suite.exit, Some(40));
    assert_eq!(suite.name, "hooked");
    assert_eq!(runs(&suite), vec![Some(1), None]);
}

#[test]
fn suite_host_fields_start_clear() {
    let suite: TestSuite<u32, u32> = TestSuite::new("clear", vec![kunit_case(1u32, "a")]);
    assert_eq!(suite.status_comment.len(), 256);
    assert!(suite.status_comment.iter().all(|b| *b == 0));
    assert_eq!(suite.debugfs, None);
    assert_eq!(suite.log, None);
    assert_eq!(suite.suite_init_err, 0);
    for case in suite.test_cases.iter() {
        assert_eq!(case.status, Status::Success);
        assert_eq!(case.log, None);
    }
}

#[test]
fn duplicate_names_pass_through() {
    let cases = vec![kunit_case(1u32, "same"), kunit_case(2u32, "same")];
    let suite: TestSuite<u32, u32> = TestSuite::new("dup", cases);
    assert_eq!(
        names(&suite),
        vec![Some("same".to_string()), Some("same".to_string()), None]
    );
    assert_eq!(runs(&suite), vec![Some(1), Some(2), None]);
    assert_eq!(suite.case_count(), 2);
}

#[test]
fn suite_without_cases_is_only_the_sentinel() {
    let suite: TestSuite<u32, u32> = TestSuite::new("empty", Vec::new());
    assert_eq!(runs(&suite), vec![None]);
    assert_eq!(suite.case_count(), 0);
}

#[test]
fn scan_stops_at_first_sentinel() {
    let cases: Vec<TestCase<u32>> = vec![
        kunit_case(1, "a"),
        kunit_null_test_case(),
        kunit_case(2, "b"),
        kunit_null_test_case(),
    ];
    assert_eq!(count_cases(&cases), 1);
    let cases: Vec<TestCase<u32>> = vec![kunit_null_test_case(), kunit_case(1, "a")];
    assert_eq!(count_cases(&cases), 0);
}

#[test]
fn scan_of_unterminated_sequence_ends_with_it() {
    let cases: Vec<TestCase<u32>> = vec![kunit_case(1, "a"), kunit_case(2, "b")];
    assert_eq!(count_cases(&cases), 2);
    let none: Vec<TestCase<u32>> = Vec::new();
    assert_eq!(count_cases(&none), 0);
}

#[test]
fn supplied_sentinel_cuts_the_scan_short() {
    let cases: Vec<TestCase<u32>> = vec![kunit_null_test_case(), kunit_case(1, "a")];
    let suite: TestSuite<u32, u32> = TestSuite::new("cut", cases);
    assert_eq!(runs(&suite), vec![None, Some(1), None]);
    assert_eq!(suite.case_count(), 0);
}

#[test]
fn termination_is_told_by_the_last_record() {
    let mut suite: TestSuite<u32, u32> = TestSuite::new("t", vec![kunit_case(1u32, "a")]);
    assert!(suite.is_terminated());
    suite.test_cases.pop();
    assert!(!suite.is_terminated());
    assert_eq!(suite.case_count(), 1);
    suite.test_cases.pop();
    assert!(!suite.is_terminated());
    suite.test_cases.push(kunit_null_test_case());
    assert!(suite.is_terminated());
}

#[test]
fn parameterised_case_is_kept_as_given() {
    let mut case = kunit_case(5u32, "p");
    case.generate_params = Some(HostHandle { addr: 64 });
    let suite: TestSuite<u32, u32> = TestSuite::new("params", vec![case]);
    assert_eq!(suite.test_cases[0].generate_params, Some(HostHandle { addr: 64 }));
    assert_eq!(suite.case_count(), 1);
}

#[test]
fn new_region_is_empty() {
    let region: DiscoveryRegion<u32, u32> = DiscoveryRegion::new();
    assert_eq!(region.len(), 0);
    assert!(region.get(0).is_none());
}

#[test]
fn single_case_suite_is_discovered() {
    let mut region: DiscoveryRegion<u32, u32> = DiscoveryRegion::new();
    region.kunit_test_suite("only", vec![kunit_case(9u32, "x")]);
    assert_eq!(region.len(), 1);
    let suite = region.get(0).unwrap();
    assert_eq!(suite.name, "only");
    assert_eq!(runs(suite), vec![Some(9), None]);
    assert_eq!(names(suite), vec![Some("x".to_string()), None]);
    assert_eq!(suite.suite_init, None);
    assert_eq!(suite.suite_exit, None);
    assert_eq!(suite.init, None);
    assert_eq!(suite.exit, None);
    assert_eq!(suite.case_count(), 1);
    assert!(region.get(1).is_none());
}

#[test]
fn region_keeps_definition_order() {
    let mut region: DiscoveryRegion<u32, u32> = DiscoveryRegion::new();
    region.kunit_test_suite("first", vec![kunit_case(1u32, "a")]);
    region.kunit_test_suite_with_hooks(
        "second",
        Some(100),
        None,
        Some(300),
        None,
        vec![kunit_case(2u32, "b"), kunit_case(3u32, "c")],
    );
    region.kunit_test_suite("third", vec![kunit_case(4u32, "d")]);
    assert_eq!(region.len(), 3);
    assert_eq!(region.get(0).unwrap().name, "first");
    assert_eq!(region.get(1).unwrap().name, "second");
    assert_eq!(region.get(2).unwrap().name, "third");
    let second = region.get(1).unwrap();
    assert_eq!(second.suite_init, Some(100));
    assert_eq!(second.suite_exit, None);
    assert_eq!(second.init, Some(300));
    assert_eq!(second.exit, None);
    assert_eq!(runs(second), vec![Some(2), Some(3), None]);
    assert!(region.get(3).is_none());
    assert!(region.get(usize::MAX).is_none());
}

#[test]
fn every_discovered_suite_is_terminated() {
    let mut region: DiscoveryRegion<u32, u32> = DiscoveryRegion::new();
    region.kunit_test_suite("a", Vec::new());
    region.kunit_test_suite("b", vec![kunit_case(1u32, "x"), kunit_case(2u32, "y")]);
    for i in 0..region.len() {
        let suite = region.get(i).unwrap();
        assert!(suite.case_count() < suite.test_cases.len());
        assert!(suite.test_cases[suite.case_count()].ends_sequence());
    }
}

#[test]
fn discovered_cases_can_be_run() {
    let mut region: DiscoveryRegion<TestFn, TestFn> = DiscoveryRegion::new();
    region.kunit_test_suite(
        "runnable",
        vec![kunit_case(failing as TestFn, "failing"), kunit_case(passing as TestFn, "passing")],
    );
    let suite = region.get(0).unwrap();
    let mut failures = Vec::new();
    for i in 0..suite.case_count() {
        let mut ctx = TestContext::new();
        (suite.test_cases[i].run_case.unwrap())(&mut ctx);
        failures.push(ctx.failure_count());
    }
    assert_eq!(failures, vec![1, 0]);
}

#[test]
fn sample_suite_is_registered() {
    let mut region: DiscoveryRegion<u32, u32> = DiscoveryRegion::new();
    rust_sample_suite(&mut region, 77);
    assert_eq!(region.len(), 1);
    let suite = region.get(0).unwrap();
    assert_eq!(suite.name, "rust_sample2");
    assert_eq!(runs(suite), vec![Some(77), None]);
    assert_eq!(names(suite), vec![Some("rust_sample_test".to_string()), None]);
    assert_eq!(suite.suite_init, None);
    assert_eq!(suite.exit, None);
    assert_eq!(suite.suite_init_err, 0);
}

#[test]
fn sample_module_state() {
    let state = RustMinimal::init();
    assert_eq!(state.message, "on the heap!");
}
