//! A small search library: compile a content pattern and optional
//! file-name patterns, discover files in a directory tree while
//! pruning hidden directories, scan line sources for matches, and
//! compute the run's outcome and exit code.

pub mod config;
pub mod discover;
pub mod pattern;
pub mod scan;
