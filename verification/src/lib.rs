//! Publishing a directory of built pages to a dedicated branch: the option
//! handling, the git command lines and the order of the steps.
//!
//! The library decides; its caller runs git and prints. `cli` turns the
//! process arguments into an [`config::Invocation`], `git` builds the argument
//! lists of the three git commands, and `run` says, after each command's
//! outcome, what is printed and what is done next.

pub mod cli;
pub mod config;
pub mod git;
pub mod run;
