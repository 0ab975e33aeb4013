//! Inventory of data files under a set of root directories: which files count
//! (by extension), which subtrees are pruned (hidden names, excluded
//! fragments), what is kept of each file, and how results are gathered and
//! tallied.
use vstd::prelude::*;

pub mod category;
pub mod config;
pub mod filter;
pub mod report;
pub mod results;
pub mod scan;
pub mod text;
