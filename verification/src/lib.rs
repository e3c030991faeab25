//! Verified core of the inferno command-line interface: argument
//! validation, option parsing and the decisions the commands make.

pub mod command;
pub mod optimization;
pub mod text;
pub mod upgrade;
pub mod net;
pub mod security;
pub mod streaming;
pub mod resilience;
pub mod serve;
pub mod response_cache;
pub mod repo;
pub mod package;
pub mod benchmark;
pub mod tuning;
pub mod qa;
pub mod run;
