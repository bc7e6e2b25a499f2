//! A bridge between guest-side unit tests and a native test-execution host.
//!
//! The guest describes its test cases and suites as records, places each
//! suite in a discovery region that the host enumerates, and turns failed
//! assertions into failure reports that are handed to the host as plain
//! messages. A failed assertion never interrupts the test that issued it.

pub mod text;
pub mod assertion;
pub mod case;
pub mod suite;
pub mod registry;
pub mod sample;
