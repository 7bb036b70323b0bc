//! Compares the entry names of two directories, or of two exported listings,
//! and shows for each side the names that only that side holds.

pub mod entries;
pub mod order;
pub mod loader;
pub mod state;
pub mod cli;
pub mod laws;
