//! A syntax recognizer for a small imperative language.
//!
//! The input is a sequence of classified tokens, each with the line it came
//! from. The recognizer accepts the sequence or reports the first place where
//! it departs from the grammar. The grammar is written down in `grammar` as
//! functions on token sequences; the recognizer in `parser` is proved to
//! compute them. `progress` and `laws` hold what is proved of the grammar
//! itself, and `samples` a few token sequences with their verdicts.

pub mod token;
pub mod error;
pub mod lexer;
pub mod grammar;
pub mod progress;
pub mod parser;
pub mod laws;
pub mod samples;
