//! Automation: rule + record → prompt → model → result document + lineage.
//!
//! - `run`: every entry point (manual, tag match, schedule, browser results)
//! - `schedule`: when a cron rule is due
//! - `backend`: which backends a runtime can serve

pub mod backend;
pub mod error;
pub mod run;
pub mod schedule;

pub use backend::reject_browser_backend;
pub use error::AutomationError;
