//! The record that describes one test function to the host.

use vstd::prelude::*;

verus! {

/// The outcome the host has noted for a test case or a suite.
#[derive(Clone, Copy, Debug, PartialEq, Eq, Structural)]
pub enum Status {
    /// Nothing has gone wrong; also the state of a record that has not run.
    Success,
    Failure,
    Skipped,
}

impl Status {
    /// The number the host stores for this outcome. The initial state of a
    /// record is the one whose number is zero.
    pub fn code(self) -> (c: u32)
        ensures
            c == (match self {
                Status::Success => 0u32,
                Status::Failure => 1u32,
                Status::Skipped => 2u32,
            }),
            c == 0 <==> self == Status::Success,
    {
        match self {
            Status::Success => 0,
            Status::Failure => 1,
            Status::Skipped => 2,
        }
    }
}

/// The address of something the host owns or calls by itself: a log, a debug
/// entry, a generator of parameters. The guest only stores it.
#[derive(Clone, Copy, Debug, PartialEq, Eq, Structural)]
pub struct HostHandle {
    pub addr: usize,
}

/// One test function as the host sees it. `F` is the type of a test function.
///
/// `status` and `log` belong to the host once the record has been handed
/// over; the guest sets them to their initial state and never reads them again.
#[derive(Debug)]
pub struct TestCase<F> {
    /// The function to run; absent only in the record that ends a sequence.
    pub run_case: Option<F>,
    /// The name under which the host lists the case.
    pub name: Option<String>,
    /// The generator of a parameterised case; absent for a plain one.
    pub generate_params: Option<HostHandle>,
    pub status: Status,
    pub log: Option<HostHandle>,
}

impl<F> TestCase<F> {
    /// Whether this record ends a sequence of cases: the host stops its scan
    /// at the first record without a function to run.
    pub open spec fn is_sentinel(&self) -> bool {
        self.run_case is None
    }

    /// Whether the fields that the host owns are in the state of a case that
    /// has not run: no failure noted, no log attached.
    pub open spec fn host_fields_clear(&self) -> bool {
        self.status == Status::Success && self.log is None
    }

    /// Whether this record describes the plain test `run` under `name`, not
    /// yet run.
    pub open spec fn describes(&self, run: F, name: Seq<char>) -> bool {
        &&& self.run_case == Some(run)
        &&& self.name matches Some(n) && n@ == name
        &&& self.generate_params is None
        &&& self.host_fields_clear()
    }

    /// Whether the host would stop its scan at this record.
    pub fn ends_sequence(&self) -> (b: bool)
        ensures
            b == self.is_sentinel(),
    {
        self.run_case.is_none()
    }
}

/// The record of the test function `run`, listed under `name`: a plain case
/// without a parameter generator, with the host's fields in their initial
/// state.
pub fn kunit_case<F>(run: F, name: &str) -> (case: TestCase<F>)
    ensures
        case.describes(run, name@),
        !case.is_sentinel(),
{
    TestCase {
        run_case: Some(run),
        name: Some(String::from_str(name)),
        generate_params: None,
        status: Status::Success,
        log: None,
    }
}

/// The record that ends every sequence of cases.
pub open spec fn null_case<F>() -> TestCase<F> {
    TestCase {
        run_case: None,
        name: None,
        generate_params: None,
        status: Status::Success,
        log: None,
    }
}

/// Builds the record that ends a sequence of cases: no function, no name, no
/// generator, the host's fields clear.
pub fn kunit_null_test_case<F>() -> (case: TestCase<F>)
    ensures
        case == null_case::<F>(),
        case.is_sentinel(),
{
    TestCase { run_case: None, name: None, generate_params: None, status: Status::Success, log: None }
}

/// How many records the host visits before it stops: the position of the
/// first record without a function, or the length of the sequence if there is
/// none.
pub open spec fn scan_len<F>(cases: Seq<TestCase<F>>) -> nat
    decreases cases.len(),
{
    if cases.len() == 0 || cases[0].is_sentinel() {
        0
    } else {
        1 + scan_len(cases.drop_first())
    }
}

/// The cases that the host's scan yields, in order: those in front of the
/// first sentinel.
pub open spec fn scanned<F>(cases: Seq<TestCase<F>>) -> Seq<TestCase<F>> {
    cases.take(scan_len(cases) as int)
}

/// Whether the sequence ends with a sentinel, as the host expects of every
/// sequence it is given: it has no other way to find the end.
pub open spec fn terminated<F>(cases: Seq<TestCase<F>>) -> bool {
    cases.len() > 0 && cases.last().is_sentinel()
}

/// The scan stops inside the sequence or at its end; every record in front of
/// the stop has a function to run, and the record at the stop, if there is
/// one, has none.
pub proof fn lemma_scan_len<F>(cases: Seq<TestCase<F>>)
    ensures
        scan_len(cases) <= cases.len(),
        forall|i: int| 0 <= i < scan_len(cases) ==> !(#[trigger] cases[i]).is_sentinel(),
        scan_len(cases) < cases.len() ==> cases[scan_len(cases) as int].is_sentinel(),
    decreases cases.len(),
{
    if cases.len() == 0 || cases[0].is_sentinel() {
    } else {
        let rest = cases.drop_first();
        lemma_scan_len(rest);
        assert forall|i: int| 0 <= i < scan_len(cases) implies !(#[trigger] cases[i]).is_sentinel() by {
            if i > 0 {
                assert(cases[i] == rest[i - 1]);
            }
        }
        assert(scan_len(cases) < cases.len() ==> cases[scan_len(cases) as int] == rest[scan_len(
            rest,
        ) as int]);
    }
}

/// The scan stops at `n` where the first `n` records have a function to run
/// and the record at `n` has none, or the sequence ends there.
pub proof fn lemma_scan_stops_at<F>(cases: Seq<TestCase<F>>, n: int)
    requires
        0 <= n <= cases.len(),
        forall|i: int| 0 <= i < n ==> !(#[trigger] cases[i]).is_sentinel(),
        n < cases.len() ==> cases[n].is_sentinel(),
    ensures
        scan_len(cases) == n,
    decreases cases.len(),
{
    if cases.len() == 0 || cases[0].is_sentinel() {
        if n > 0 {
            assert(!cases[0].is_sentinel());
        }
    } else {
        let rest = cases.drop_first();
        assert forall|i: int| 0 <= i < n - 1 implies !(#[trigger] rest[i]).is_sentinel() by {
            assert(rest[i] == cases[i + 1]);
        }
        if n - 1 < rest.len() {
            assert(rest[n - 1] == cases[n]);
        }
        lemma_scan_stops_at(rest, n - 1);
    }
}

/// The scan of a terminated sequence never leaves it: it stops at a sentinel
/// inside the sequence.
pub proof fn lemma_scan_stays_inside<F>(cases: Seq<TestCase<F>>)
    requires
        terminated(cases),
    ensures
        scan_len(cases) < cases.len(),
        cases[scan_len(cases) as int].is_sentinel(),
{
    lemma_scan_len(cases);
    if scan_len(cases) == cases.len() {
        assert(!cases[cases.len() - 1].is_sentinel());
    }
}

/// Scans a sequence of cases as the host does and returns the number of
/// cases in front of the first sentinel.
pub fn count_cases<F>(cases: &Vec<TestCase<F>>) -> (n: usize)
    ensures
        n == scan_len(cases@),
        n <= cases@.len(),
{
    let mut n: usize = 0;
    while n < cases.len() && !cases[n].ends_sequence()
        invariant
            n <= cases@.len(),
            forall|i: int| 0 <= i < n ==> !(#[trigger] cases@[i]).is_sentinel(),
        decreases cases@.len() - n,
    {
        n = n + 1;
    }
    proof {
        lemma_scan_stops_at(cases@, n as int);
    }
    n
}

} // verus!
