//! Decision core of a developer-workspace launcher: project classification,
//! the bounded registry of recently opened projects, lazily provisioned
//! settings, and the dispatcher that sequences a launch.

pub mod cli;
pub mod config;
pub mod dispatcher;
pub mod errors;
pub mod paths;
pub mod project_type;
pub mod recent_projects;
pub mod text;
pub mod unity;
pub mod utils;
