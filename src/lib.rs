//! Dynamic state-transition engine for work items tracked by an external
//! issue-tracking service.
//!
//! The service offers no endpoint that lists the fields a state change needs.
//! This library plans the next state from what the service advertises, reads
//! the fields it demands out of the text of a validate-only rejection, turns
//! them into prompts, parks the transition under a correlation id until the
//! caller supplies values, and builds the final patch under a revision guard.
//! Performing requests is left to the caller, who hands each answer of the
//! service back as a plain value.

pub mod text;
pub mod json;
pub mod prompt;
pub mod parse;
pub mod patch;
pub mod planner;
pub mod store;
pub mod transition;
pub mod config;
