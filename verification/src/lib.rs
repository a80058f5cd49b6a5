//! Decisions behind a desktop application's native command handlers.
//!
//! Every handler of the application does one thing to the operating system
//! or the network. What it does is decided here, as plain values: which
//! program opens a URL or shows a file on which platform, what a path is
//! called once its metadata is known, and what is sent to start a
//! device-code sign-in. The surrounding program carries the decisions out.

pub mod graph;
pub mod launcher;
pub mod path_kind;
