//! Runs shell and PowerShell scripts when they change, and records each run.

pub mod report;
pub mod script;
pub mod stamp;
