//! Verified core of the Buzz supervisor tooling.
pub mod cli_error;
pub mod commands;
pub mod decision_gate;
pub mod dev_tools;
pub mod execution;
pub mod external;
pub mod ism;
pub mod summary;
pub mod text;
