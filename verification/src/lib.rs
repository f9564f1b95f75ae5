//! Process execution for an embedded interpreter.
//!
//! The library holds every decision of the subsystem and performs no I/O:
//! it says which process to launch and how, and turns what the operating
//! system reports into values and classified errors. A host performs the
//! launch and hands the report back.
//!
//! - `errors`: the taxonomy of failures and their display strings.
//! - `types`: the options and the result of a run.
//! - `text`: decoding of captured bytes, and blank command lines.
//! - `engine`: direct and shell-mediated runs.
//! - `process`: the handle of a running child.
//! - `popen`: the handle of a child whose streams the caller holds.
//! - `values`: the interpreter values that built-in functions see.
//! - `registry`: the table of built-in functions.
//! - `builtins`: calls of built-in functions, step by step.
//! - `laws`: what holds of every run and of every call.

pub mod builtins;
pub mod engine;
pub mod errors;
pub mod laws;
pub mod popen;
pub mod process;
pub mod registry;
pub mod text;
pub mod types;
pub mod values;
