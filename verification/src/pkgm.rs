//! The package managers: what they have in common, one adapter per tool, the
//! registry that hands adapters out, detection of the tool that governs a
//! project, and the dispatch of one command.

pub mod analyze;
pub mod bun;
pub mod cargo;
pub mod config;
pub mod detect;
pub mod helpers;
pub mod manager;
pub mod npm;
pub mod pdm;
pub mod pip;
pub mod pnpm;
pub mod poetry;
pub mod registry;
pub mod types;
pub mod yarn;
