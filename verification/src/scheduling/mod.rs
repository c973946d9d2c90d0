//! Execution of the plans that survived the setup.

pub mod suites;
