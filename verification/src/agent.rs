//! Settings of the log-forwarding agent and how they are read.

pub mod rules;
pub mod settings;
pub mod configuration;
pub mod errors;
pub mod fold;
pub mod ini;
pub mod table;
