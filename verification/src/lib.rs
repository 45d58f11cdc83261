//! A revert-expectation matching engine for a smart-contract test runner's
//! cheatcode layer.
//!
//! A test declares, before invoking a nested contract call, which reverts are
//! acceptable: any revert at all, or only reverts whose data matches one of a
//! list of descriptors, optionally restricted to a particular reverting
//! contract. The engine accumulates those descriptors in a single directive
//! owned by the test-execution context, matches an actual revert against them,
//! and renders best-effort diagnostics when nothing matches.

pub mod decoder;
pub mod matcher;
pub mod registry;
pub mod types;
