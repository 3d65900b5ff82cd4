//! Wraps a browser-automation script in a data-driven loop.
//!
//! A script is a named list of commands. Given one script and a table of
//! rows, the library builds a new script that declares the rows as an array,
//! walks it, exports the fields of each row into variables and replays the
//! commands of the given script once per row.

pub mod clock;
pub mod errors;
pub mod json;
pub mod selenium;
