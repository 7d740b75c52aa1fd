//! Command-line grammar of the kata-ctl control tool, with a verified parser.
//!
//! - `cli`: the parsed invocation types and their model.
//! - `grammar`: verbs, subcommands, flags and positionals, and the outcome
//!   that each token sequence is owed.
//! - `parse`: the parser, proved to give exactly that outcome.
//! - `laws`: properties that hold of every command line.
//! - `help`: help text of each scope and the hint beside a refusal.
//! - `text`: character-level helpers.

pub mod cli;
pub mod grammar;
pub mod help;
pub mod laws;
pub mod parse;
pub mod text;
