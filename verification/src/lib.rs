//! A single front end over several package managers: it finds out which tool
//! governs a project, turns a tool-agnostic verb into that tool's command line,
//! and folds the outcome of the launched process into one error type.
//!
//! Everything here is a function of plain values. Reading the working
//! directory, probing for marker files and launching the tool are left to the
//! caller, who hands the library what it read and gets back what to run.

pub mod text;
pub mod utils;
pub mod pkgm;
pub mod commands;
pub mod file_ops;
pub mod package_manager;
