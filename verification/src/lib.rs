//! Verified core of a file-system scanner that lists the largest files under a
//! directory and finds (and optionally deletes) byte-identical duplicates.
//!
//! The library holds the decisions; the program around it performs the file
//! system work and feeds the outcomes back into the state machines defined here.
pub mod sorting;

pub mod text;
pub mod grouping;
pub mod dedup;
pub mod clean;
pub mod util;
pub mod walk;
pub mod jobs;
pub mod ui;
pub mod app_state;
pub mod laws;
pub mod compare;
