//! A harness that runs a compiler against fixture test cases and classifies
//! each outcome: discovery of cases, staging, the staged compile / link /
//! execute pipeline, output comparison and ordered progress reporting.
pub mod error;
pub mod outcome;
pub mod discover;
pub mod executable;
pub mod staging;
pub mod tester;
