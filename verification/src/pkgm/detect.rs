//! Finding out which tool governs a project: from an explicit override, from
//! the result of an earlier detection, or from marker files up the tree.

pub mod cache;
pub mod config;
pub mod finder;
pub mod path;
