//! A small interactive shell's verified core: a quote/escape-aware
//! command-line tokenizer with redirection-target extraction, and the
//! dispatch logic that classifies a token sequence as a builtin or an
//! external command and decides every line of output the shell writes.
//!
//! All input/output, environment access and process spawning live outside
//! this crate; the functions here work on plain values (the input line, a
//! snapshot of the `PATH` directories, the outcome of opening a redirect
//! target) and return plain values that say exactly what the shell must do.

pub mod builtins;
pub mod dispatch;
pub mod laws;
pub mod path_search;
pub mod strutil;
pub mod tokenizer;
