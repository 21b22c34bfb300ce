//! Commands that the agent runs for a caller, and their checks.

pub mod site;
pub mod system_check;
pub mod types;
