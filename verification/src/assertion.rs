//! Assertion records and the forwarder that turns a failed condition into a
//! report for the host.

use vstd::prelude::*;
use vstd::std_specs::cmp::PartialEqSpec;

verus! {

/// A source position to which a failure is attributed.
#[derive(Debug, PartialEq, Eq)]
pub struct Location {
    pub file: String,
    pub line: u32,
}

/// The mathematical value of a [`Location`].
pub ghost struct LocationView {
    pub file: Seq<char>,
    pub line: u32,
}

impl View for Location {
    type V = LocationView;

    open spec fn view(&self) -> LocationView {
        LocationView { file: self.file@, line: self.line }
    }
}

/// The line number as the host's signed field holds it: unchanged up to the
/// largest signed value, and wrapped round to the negative numbers above it.
pub open spec fn host_line_of(line: u32) -> int {
    if line <= 0x7fff_ffff {
        line as int
    } else {
        line as int - 0x1_0000_0000
    }
}

impl Location {
    /// The line number in the signed form of the host's record.
    pub fn host_line(&self) -> (n: i32)
        ensures
            n == host_line_of(self.line),
    {
        if self.line <= 0x7fff_ffff {
            self.line as i32
        } else {
            let above: u32 = self.line - 0x8000_0000;
            (above as i32) + i32::MIN
        }
    }
}

/// What the host does with the test after it has recorded a failure: an
/// assertion marks the test as failed for good, an expectation lets it go on
/// being judged.
#[derive(Clone, Copy, Debug, PartialEq, Eq, Structural)]
pub enum AssertKind {
    Assertion,
    Expectation,
}

impl AssertKind {
    /// The number by which the host tells the kinds apart.
    pub fn discriminant(self) -> (d: u32)
        ensures
            d == (match self {
                AssertKind::Assertion => 0u32,
                AssertKind::Expectation => 1u32,
            }),
    {
        match self {
            AssertKind::Assertion => 0,
            AssertKind::Expectation => 1,
        }
    }
}

/// The host routine that renders an assertion record as a failure message.
#[derive(Clone, Copy, Debug, PartialEq, Eq, Structural)]
pub enum Formatter {
    /// Renders a record that holds one condition and its expected polarity.
    Unary,
    /// Renders a record that holds two operands and a comparison.
    Binary,
}

/// The description of one boolean assertion: the text of its condition, the
/// value the condition was expected to have, and the formatter the host calls.
#[derive(Debug, PartialEq, Eq)]
pub struct UnaryAssert {
    pub format: Option<Formatter>,
    pub condition: String,
    pub expected_true: bool,
}

/// The mathematical value of a [`UnaryAssert`].
pub ghost struct UnaryAssertView {
    pub format: Option<Formatter>,
    pub condition: Seq<char>,
    pub expected_true: bool,
}

impl View for UnaryAssert {
    type V = UnaryAssertView;

    open spec fn view(&self) -> UnaryAssertView {
        UnaryAssertView {
            format: self.format,
            condition: self.condition@,
            expected_true: self.expected_true,
        }
    }
}

/// One message for the host's failure-recording entry point: where the
/// assertion stands, what kind it is, its record, and the arguments for a
/// message format (absent when the record's own formatter writes the message).
#[derive(Debug, PartialEq, Eq)]
pub struct FailureReport {
    pub location: Location,
    pub kind: AssertKind,
    pub assertion: UnaryAssert,
    pub format_args: Option<String>,
}

/// The mathematical value of a [`FailureReport`].
pub ghost struct FailureReportView {
    pub location: LocationView,
    pub kind: AssertKind,
    pub assertion: UnaryAssertView,
    pub format_args: Option<Seq<char>>,
}

impl View for FailureReport {
    type V = FailureReportView;

    open spec fn view(&self) -> FailureReportView {
        FailureReportView {
            location: self.location@,
            kind: self.kind,
            assertion: self.assertion@,
            format_args: match self.format_args {
                Some(args) => Some(args@),
                None => None,
            },
        }
    }
}

/// The report that a failed boolean assertion produces: a simple assertion
/// that expected `condition` to be true at `file`:`line`, rendered by the
/// unary formatter, without format arguments.
pub open spec fn failure_of(condition: Seq<char>, file: Seq<char>, line: u32) -> FailureReportView {
    FailureReportView {
        location: LocationView { file, line },
        kind: AssertKind::Assertion,
        assertion: UnaryAssertView {
            format: Some(Formatter::Unary),
            condition,
            expected_true: true,
        },
        format_args: None,
    }
}

/// What forwarding one condition hands to the host: nothing when it holds,
/// one report when it does not.
pub open spec fn forwarded(cond: bool, condition: Seq<char>, file: Seq<char>, line: u32) -> Seq<
    FailureReportView,
> {
    if cond {
        Seq::empty()
    } else {
        seq![failure_of(condition, file, line)]
    }
}

/// The textual form of an equality between two rendered operands.
pub open spec fn equality_text(left: Seq<char>, right: Seq<char>) -> Seq<char> {
    left + seq![' ', '=', '=', ' '] + right
}

/// Builds the report for an assertion that failed at `file`:`line`.
pub fn failed_assertion(condition: &str, file: &str, line: u32) -> (report: FailureReport)
    ensures
        report@ == failure_of(condition@, file@, line),
{
    FailureReport {
        location: Location { file: String::from_str(file), line },
        kind: AssertKind::Assertion,
        assertion: UnaryAssert {
            format: Some(Formatter::Unary),
            condition: String::from_str(condition),
            expected_true: true,
        },
        format_args: None,
    }
}

/// Renders the condition of an equality assertion from the texts of its two
/// operands.
pub fn render_equality(left: &str, right: &str) -> (text: String)
    ensures
        text@ == equality_text(left@, right@),
{
    let mut text = String::from_str(left);
    text.append(" == ");
    text.append(right);
    proof {
        reveal_strlit(" == ");
        assert(" == "@ =~= seq![' ', '=', '=', ' ']);
    }
    text
}

/// The values of a sequence of reports, in order.
pub open spec fn report_views(reports: Seq<FailureReport>) -> Seq<FailureReportView> {
    reports.map_values(|r: FailureReport| r@)
}

/// The guest's handle for one running test case. It collects the failure
/// reports that the test has issued, in the order of the calls, until they are
/// handed to the host.
#[derive(Debug)]
pub struct TestContext {
    reports: Vec<FailureReport>,
}

impl View for TestContext {
    type V = Seq<FailureReportView>;

    closed spec fn view(&self) -> Seq<FailureReportView> {
        report_views(self.reports@)
    }
}

impl TestContext {
    /// A context for a test that has reported nothing yet.
    pub fn new() -> (ctx: TestContext)
        ensures
            ctx@ == Seq::<FailureReportView>::empty(),
    {
        let ctx = TestContext { reports: Vec::new() };
        assert(ctx@ =~= Seq::<FailureReportView>::empty());
        ctx
    }

    /// The number of failures reported so far and not yet handed over.
    pub fn failure_count(&self) -> (n: usize)
        ensures
            n == self@.len(),
    {
        self.reports.len()
    }

    /// The reports collected so far, oldest first.
    pub fn reports(&self) -> (reports: &Vec<FailureReport>)
        ensures
            report_views(reports@) == self@,
    {
        &self.reports
    }

    /// Forwards the outcome of a boolean assertion. A condition that holds
    /// leaves the context as it is; one that does not adds a single report
    /// behind those already there. Either way control returns to the test.
    pub fn kunit_assert(&mut self, cond: bool, condition: &str, file: &str, line: u32)
        ensures
            final(self)@ == old(self)@ + forwarded(cond, condition@, file@, line),
    {
        if !cond {
            let report = failed_assertion(condition, file, line);
            self.reports.push(report);
        }
        assert(final(self)@ =~= old(self)@ + forwarded(cond, condition@, file@, line));
    }

    /// Forwards the outcome of an equality assertion: compares the operands
    /// and forwards the result as a boolean assertion whose condition text is
    /// the two operand texts around `==`.
    pub fn kunit_assert_eq<T: PartialEq>(
        &mut self,
        left: &T,
        right: &T,
        left_text: &str,
        right_text: &str,
        file: &str,
        line: u32,
    )
        ensures
            T::obeys_eq_spec() ==> final(self)@ == old(self)@ + forwarded(
                left.eq_spec(right),
                equality_text(left_text@, right_text@),
                file@,
                line,
            ),
            exists|equal: bool| #[trigger]
                call_ensures(T::eq, (left, right), equal) && final(self)@ == old(self)@
                    + forwarded(equal, equality_text(left_text@, right_text@), file@, line),
            final(self)@ == old(self)@ || final(self)@ == old(self)@.push(
                failure_of(equality_text(left_text@, right_text@), file@, line),
            ),
    {
        let text = render_equality(left_text, right_text);
        let equal = left.eq(right);
        assert(call_ensures(T::eq, (left, right), equal));
        self.kunit_assert(equal, text.as_str(), file, line);
        assert(final(self)@ =~= old(self)@ || final(self)@ =~= old(self)@.push(
            failure_of(equality_text(left_text@, right_text@), file@, line),
        ));
    }

    /// Hands over the collected reports, oldest first, and leaves the context
    /// empty.
    pub fn take_reports(&mut self) -> (reports: Vec<FailureReport>)
        ensures
            report_views(reports@) == old(self)@,
            reports@.len() == old(self)@.len(),
            forall|i: int| 0 <= i < reports@.len() ==> (#[trigger] reports@[i])@ == old(self)@[i],
            final(self)@ == Seq::<FailureReportView>::empty(),
    {
        let mut reports: Vec<FailureReport> = Vec::new();
        std::mem::swap(&mut self.reports, &mut reports);
        assert(final(self)@ =~= Seq::<FailureReportView>::empty());
        reports
    }
}

/// A forwarded condition is reported if and only if it is false: a true one
/// leaves the reports as they were, a false one adds exactly one, which
/// carries the condition's text and location.
pub proof fn lemma_reported_iff_false(
    before: Seq<FailureReportView>,
    cond: bool,
    condition: Seq<char>,
    file: Seq<char>,
    line: u32,
)
    ensures
        cond <==> before + forwarded(cond, condition, file, line) == before,
        !cond <==> before + forwarded(cond, condition, file, line) == before.push(
            failure_of(condition, file, line),
        ),
        (before + forwarded(cond, condition, file, line)).len() == before.len() + (if cond {
            0int
        } else {
            1int
        }),
{
    let after = before + forwarded(cond, condition, file, line);
    if cond {
        assert(after =~= before);
        assert(before.push(failure_of(condition, file, line)).len() != after.len());
    } else {
        assert(after =~= before.push(failure_of(condition, file, line)));
    }
}

/// Reports are never merged: the same false condition forwarded twice adds
/// two reports, each a report of its own at its own position.
pub proof fn lemma_no_deduplication(
    before: Seq<FailureReportView>,
    condition: Seq<char>,
    file: Seq<char>,
    line: u32,
)
    ensures
        before + forwarded(false, condition, file, line) + forwarded(false, condition, file, line)
            == before.push(failure_of(condition, file, line)).push(
            failure_of(condition, file, line),
        ),
        (before + forwarded(false, condition, file, line) + forwarded(
            false,
            condition,
            file,
            line,
        )).len() == before.len() + 2,
{
    let once = forwarded(false, condition, file, line);
    assert(before + once + once =~= before.push(failure_of(condition, file, line)).push(
        failure_of(condition, file, line),
    ));
}

/// The condition text of an equality assertion depends on the texts of the
/// operands alone, and the assertion is reported if and only if the operands
/// differ.
pub proof fn lemma_equality_forwarding(
    before: Seq<FailureReportView>,
    equal: bool,
    left_text: Seq<char>,
    right_text: Seq<char>,
    file: Seq<char>,
    line: u32,
)
    ensures
        !equal <==> before + forwarded(equal, equality_text(left_text, right_text), file, line)
            == before.push(failure_of(equality_text(left_text, right_text), file, line)),
        equal <==> before + forwarded(equal, equality_text(left_text, right_text), file, line)
            == before,
        failure_of(equality_text(left_text, right_text), file, line).assertion.condition
            == left_text + seq![' ', '=', '=', ' '] + right_text,
{
    lemma_reported_iff_false(before, equal, equality_text(left_text, right_text), file, line);
}

} // verus!
