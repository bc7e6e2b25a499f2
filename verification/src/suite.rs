//! The record that describes a suite of test cases to the host.

use vstd::prelude::*;
use crate::case::{
    count_cases, kunit_null_test_case, lemma_scan_len, lemma_scan_stays_inside,
    lemma_scan_stops_at, null_case,
    scan_len, scanned, terminated, HostHandle, TestCase,
};

verus! {

/// The size of the buffer in which the host keeps a comment on a suite's
/// status.
pub const STATUS_COMMENT_SIZE: usize = 256;

/// A suite of test cases as the host sees it. `F` is the type of a test
/// function, `H` the type of a lifecycle hook.
///
/// `status_comment`, `debugfs`, `log` and `suite_init_err` belong to the host
/// once the record has been handed over.
#[derive(Debug)]
pub struct TestSuite<F, H> {
    pub name: String,
    /// Called once before the first case of the suite.
    pub suite_init: Option<H>,
    /// Called once after the last case of the suite.
    pub suite_exit: Option<H>,
    /// Called before each case.
    pub init: Option<H>,
    /// Called after each case.
    pub exit: Option<H>,
    /// The cases in the order in which they run, then the sentinel.
    pub test_cases: Vec<TestCase<F>>,
    pub status_comment: [u8; STATUS_COMMENT_SIZE],
    pub debugfs: Option<HostHandle>,
    pub log: Option<HostHandle>,
    pub suite_init_err: i32,
}

/// Whether every case of the sequence has a function to run.
pub open spec fn all_runnable<F>(cases: Seq<TestCase<F>>) -> bool {
    forall|i: int| 0 <= i < cases.len() ==> !(#[trigger] cases[i]).is_sentinel()
}

impl<F, H> TestSuite<F, H> {
    /// Whether the host can walk the case sequence: it ends with a sentinel.
    pub open spec fn wf(&self) -> bool {
        terminated(self.test_cases@)
    }

    /// Whether the fields that the host owns are in their initial state: an
    /// empty status comment, no debug entry, no log, no error from the suite's
    /// setup.
    pub open spec fn host_fields_clear(&self) -> bool {
        &&& forall|i: int| 0 <= i < STATUS_COMMENT_SIZE ==> self.status_comment@[i] == 0u8
        &&& self.debugfs is None
        &&& self.log is None
        &&& self.suite_init_err == 0
    }

    /// Whether all four hooks are absent.
    pub open spec fn no_hooks(&self) -> bool {
        &&& self.suite_init is None
        &&& self.suite_exit is None
        &&& self.init is None
        &&& self.exit is None
    }

    /// Whether this suite is the one assembled from the given name, hooks
    /// and cases: the cases unchanged and in the given order, then the
    /// sentinel, and the host's fields clear.
    pub open spec fn assembled_from(
        &self,
        name: Seq<char>,
        suite_init: Option<H>,
        suite_exit: Option<H>,
        init: Option<H>,
        exit: Option<H>,
        cases: Seq<TestCase<F>>,
    ) -> bool {
        &&& self.name@ == name
        &&& self.suite_init == suite_init
        &&& self.suite_exit == suite_exit
        &&& self.init == init
        &&& self.exit == exit
        &&& self.test_cases@ == cases.push(null_case::<F>())
        &&& self.host_fields_clear()
    }

    /// The cases that the host runs, in order.
    pub open spec fn cases(&self) -> Seq<TestCase<F>> {
        scanned(self.test_cases@)
    }

    /// Assembles a suite from its name, its four optional hooks and its
    /// cases. The case sequence of the suite is `cases`, unchanged and in the
    /// given order, followed by the sentinel; the host's fields start clear.
    pub fn with_hooks(
        name: &str,
        suite_init: Option<H>,
        suite_exit: Option<H>,
        init: Option<H>,
        exit: Option<H>,
        cases: Vec<TestCase<F>>,
    ) -> (suite: TestSuite<F, H>)
        ensures
            suite.assembled_from(name@, suite_init, suite_exit, init, exit, cases@),
            suite.wf(),
            suite.cases() == scanned(cases@),
            all_runnable(cases@) ==> suite.cases() == cases@,
    {
        let mut test_cases = cases;
        test_cases.push(kunit_null_test_case());
        proof {
            lemma_sentinel_keeps_scan(cases@);
            if all_runnable(cases@) {
                lemma_scan_yields_cases(cases@);
            }
        }
        TestSuite {
            name: String::from_str(name),
            suite_init,
            suite_exit,
            init,
            exit,
            test_cases,
            status_comment: [0u8; STATUS_COMMENT_SIZE],
            debugfs: None,
            log: None,
            suite_init_err: 0,
        }
    }

    /// Assembles a suite without hooks: all four hook slots are absent.
    pub fn new(name: &str, cases: Vec<TestCase<F>>) -> (suite: TestSuite<F, H>)
        ensures
            suite.assembled_from(name@, None, None, None, None, cases@),
            suite.no_hooks(),
            suite.wf(),
            suite.cases() == scanned(cases@),
            all_runnable(cases@) ==> suite.cases() == cases@,
    {
        TestSuite::with_hooks(name, None, None, None, None, cases)
    }

    /// Whether the case sequence ends with a sentinel.
    pub fn is_terminated(&self) -> (b: bool)
        ensures
            b == self.wf(),
    {
        let n = self.test_cases.len();
        n > 0 && self.test_cases[n - 1].ends_sequence()
    }

    /// The number of cases that the host runs: those in front of the first
    /// sentinel. In a well-formed suite the scan stops inside the sequence.
    pub fn case_count(&self) -> (n: usize)
        ensures
            n == self.cases().len(),
            n == scan_len(self.test_cases@),
            self.wf() ==> n < self.test_cases@.len() && self.test_cases@[n as int].is_sentinel(),
    {
        proof {
            if self.wf() {
                lemma_scan_stays_inside(self.test_cases@);
            }
        }
        count_cases(&self.test_cases)
    }
}

/// The sentinel behind a sequence does not change what a scan yields: the
/// cases in front of the first record without a function, or all of them
/// where every record has one.
pub proof fn lemma_sentinel_keeps_scan<F>(cases: Seq<TestCase<F>>)
    ensures
        scan_len(cases.push(null_case::<F>())) == scan_len(cases),
        scanned(cases.push(null_case::<F>())) == scanned(cases),
{
    let all = cases.push(null_case::<F>());
    let n = scan_len(cases) as int;
    lemma_scan_len(cases);
    assert forall|i: int| 0 <= i < n implies !(#[trigger] all[i]).is_sentinel() by {
        assert(all[i] == cases[i]);
    }
    if n < cases.len() {
        assert(all[n] == cases[n]);
    }
    lemma_scan_stops_at(all, n);
    assert(all.take(n) =~= cases.take(n));
}

/// Where every supplied case has a function to run, the scan of the
/// assembled sequence yields exactly the supplied cases, in their order, and
/// the record that follows them is the sentinel.
pub proof fn lemma_scan_yields_cases<F>(cases: Seq<TestCase<F>>)
    requires
        all_runnable(cases),
    ensures
        scanned(cases.push(null_case::<F>())) == cases,
        scan_len(cases.push(null_case::<F>())) == cases.len(),
        cases.push(null_case::<F>())[cases.len() as int] == null_case::<F>(),
        null_case::<F>().is_sentinel(),
{
    let all = cases.push(null_case::<F>());
    assert forall|i: int| 0 <= i < cases.len() implies !(#[trigger] all[i]).is_sentinel() by {
        assert(all[i] == cases[i]);
    }
    lemma_scan_stops_at(all, cases.len() as int);
    assert(all.take(cases.len() as int) =~= cases);
}

} // verus!
