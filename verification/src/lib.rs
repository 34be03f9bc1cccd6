//! Worktree navigation: the rules, parsers and state machine behind the `wt` tool.
use vstd::prelude::*;

pub mod app;
pub mod cli;
pub mod config;
pub mod controller;
pub mod events;

pub mod git;
pub mod input;
pub mod order;
pub mod picking;
pub mod pr_checkout;
pub mod projects;
pub mod session;
pub mod store;
pub mod text;
pub mod text_input;
pub mod types;
pub mod update;
pub mod version;


verus! {

} // verus!
