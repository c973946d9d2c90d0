//! Decision core of a scheduler that periodically runs independently
//! configured test plans.
//!
//! The library decides; it never touches the file system and never launches
//! a process. Callers perform what it asks for and hand back what they
//! observed:
//!
//! - [`setup`] names the directory operations every plan depends on and
//!   divides the plans into survivors and recorded failures, so that no
//!   plan is lost.
//! - [`scheduling`] runs the attempts of a suite, at most as many as the
//!   suite allows and none after a success, and assembles the report.
//! - [`scheduler`] orders the steps of the main sequence and ends it
//!   cleanly on cancellation.
//! - [`command_spec`], [`environment`], [`rf`] and [`session`] describe the
//!   commands to launch; [`internal_config`] and [`results`] hold what goes
//!   in and what comes out; [`paths`], [`text`] and [`lock`] are what the
//!   others build on.

pub mod command_spec;
pub mod environment;
pub mod internal_config;
pub mod lock;
pub mod paths;
pub mod results;
pub mod rf;
pub mod scheduler;
pub mod scheduling;
pub mod session;
pub mod setup;
pub mod text;
