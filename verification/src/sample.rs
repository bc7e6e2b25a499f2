//! A minimal guest module with one suite of one test.

use vstd::prelude::*;
use crate::case::{kunit_case, null_case};
use crate::registry::DiscoveryRegion;

verus! {

/// The state that the sample module keeps while it is loaded.
#[derive(Debug)]
pub struct RustMinimal {
    pub message: String,
}

impl RustMinimal {
    /// The state of a freshly loaded module.
    pub fn init() -> (state: RustMinimal)
        ensures
            state.message@ == "on the heap!"@,
    {
        RustMinimal { message: String::from_str("on the heap!") }
    }
}

/// Defines the sample suite: the single case `test`, listed as
/// `rust_sample_test`, in the suite `rust_sample2`, without hooks.
pub fn rust_sample_suite<F, H>(region: &mut DiscoveryRegion<F, H>, test: F)
    ensures
        old(region).wf() ==> final(region).wf(),
        final(region)@.len() == old(region)@.len() + 1,
        final(region)@.drop_last() == old(region)@,
        final(region)@.last().name@ == "rust_sample2"@,
        final(region)@.last().no_hooks(),
        final(region)@.last().host_fields_clear(),
        final(region)@.last().test_cases@.len() == 2,
        final(region)@.last().test_cases@[0].describes(test, "rust_sample_test"@),
        final(region)@.last().test_cases@[1] == null_case::<F>(),
        final(region)@.last().cases().len() == 1,
{
    let mut cases = Vec::new();
    cases.push(kunit_case(test, "rust_sample_test"));
    region.kunit_test_suite("rust_sample2", cases);
}

} // verus!
