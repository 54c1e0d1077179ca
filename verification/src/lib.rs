//! quickreplace: the verified core of a command-line find-and-replace tool.
//!
//! The tool takes a target pattern, a replacement template, an input path and
//! an output path; it reads the input, replaces every non-overlapping match of
//! the pattern, and writes the result to the output path.  This crate holds
//! everything but the process edges: argument validation, the substitution
//! (through the `regex` crate), and the exact text of every diagnostic.

pub mod args;
pub mod report;
pub mod style;
pub mod substitution;
