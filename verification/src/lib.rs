//! An enhanced text-concatenation library.
//!
//! The core of the library is a line rendering pipeline: given a raw line of
//! text and a set of independently toggleable display options, it produces the
//! exact sequence of printed tokens (line-number prefix, transformed body,
//! highlight or rainbow coloring, length suffix, end-of-line marker).  A
//! stateful stream filter decides, per line, whether the line is emitted at
//! all (blank-squeezing, literal-substring grep) and how the numbering state
//! advances.  An interactive command grammar maps one shell input line to a
//! re-entry into the same pipeline with substituted options.

pub mod text;
pub mod theme;
pub mod options;
pub mod render;
pub mod filter;
pub mod driver;
pub mod shell;
