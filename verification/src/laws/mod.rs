//! What holds across several functions.

pub mod derivations;
pub mod formats;
pub mod keys;
pub mod readings;
pub mod records;
pub mod tables;
pub mod verdicts;
