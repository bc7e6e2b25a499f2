//! The region in which suites are placed for the host to find them.

use vstd::prelude::*;
use crate::case::{scanned, TestCase};
use crate::suite::{all_runnable, TestSuite};

verus! {

/// The suites that the host enumerates when it starts, in the order in which
/// they were defined. A suite enters the region at the moment it is defined
/// and stays there, unchanged, for as long as the region exists: nothing
/// removes or replaces an entry.
pub struct DiscoveryRegion<F, H> {
    entries: Vec<TestSuite<F, H>>,
}

impl<F, H> View for DiscoveryRegion<F, H> {
    type V = Seq<TestSuite<F, H>>;

    closed spec fn view(&self) -> Seq<TestSuite<F, H>> {
        self.entries@
    }
}

impl<F, H> DiscoveryRegion<F, H> {
    /// Whether the host can walk every suite of the region: each case
    /// sequence is terminated. It holds of an empty region, and defining a
    /// suite keeps it.
    pub open spec fn wf(&self) -> bool {
        forall|i: int| 0 <= i < self@.len() ==> (#[trigger] self@[i]).wf()
    }

    /// A region without entries.
    pub fn new() -> (region: DiscoveryRegion<F, H>)
        ensures
            region@ == Seq::<TestSuite<F, H>>::empty(),
            region.wf(),
    {
        DiscoveryRegion { entries: Vec::new() }
    }

    /// Defines a suite with hooks and places it in the region. The region
    /// gains exactly one entry, behind those it had, and that entry is the
    /// suite assembled from the arguments.
    pub fn kunit_test_suite_with_hooks(
        &mut self,
        name: &str,
        suite_init: Option<H>,
        suite_exit: Option<H>,
        init: Option<H>,
        exit: Option<H>,
        cases: Vec<TestCase<F>>,
    )
        ensures
            old(self).wf() ==> final(self).wf(),
            final(self)@.len() == old(self)@.len() + 1,
            final(self)@.drop_last() == old(self)@,
            final(self)@.last().assembled_from(name@, suite_init, suite_exit, init, exit, cases@),
            final(self)@.last().cases() == scanned(cases@),
            all_runnable(cases@) ==> final(self)@.last().cases() == cases@,
    {
        let suite = TestSuite::with_hooks(name, suite_init, suite_exit, init, exit, cases);
        self.entries.push(suite);
        assert(final(self)@.drop_last() =~= old(self)@);
        assert forall|i: int| old(self).wf() && 0 <= i < final(self)@.len() implies (
        #[trigger] final(self)@[i]).wf() by {
            if i < old(self)@.len() {
                assert(final(self)@[i] == old(self)@[i]);
            }
        }
    }

    /// Defines a suite without hooks and places it in the region. The region
    /// gains exactly one entry, behind those it had; all four hook slots of
    /// that entry are absent.
    pub fn kunit_test_suite(&mut self, name: &str, cases: Vec<TestCase<F>>)
        ensures
            old(self).wf() ==> final(self).wf(),
            final(self)@.len() == old(self)@.len() + 1,
            final(self)@.drop_last() == old(self)@,
            final(self)@.last().assembled_from(name@, None, None, None, None, cases@),
            final(self)@.last().no_hooks(),
            final(self)@.last().cases() == scanned(cases@),
            all_runnable(cases@) ==> final(self)@.last().cases() == cases@,
    {
        self.kunit_test_suite_with_hooks(name, None, None, None, None, cases);
    }

    /// The number of entries.
    pub fn len(&self) -> (n: usize)
        ensures
            n == self@.len(),
    {
        self.entries.len()
    }

    /// The entry at `index`, as the host reads it during its scan: present
    /// for every index below the number of entries.
    pub fn get(&self, index: usize) -> (entry: Option<&TestSuite<F, H>>)
        ensures
            index < self@.len() ==> entry == Some(&self@[index as int]),
            index >= self@.len() ==> entry is None,
    {
        if index < self.entries.len() {
            Some(&self.entries[index])
        } else {
            None
        }
    }
}

} // verus!
