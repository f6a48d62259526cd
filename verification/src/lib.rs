//! Common building blocks: logging configuration (verbosity levels, builder-style
//! configuration, colour decisions) and the text side of percentage parsing.

pub mod log;
pub mod types;
