//! Builds a Rust module as WebAssembly while another crate is compiled:
//! reads the request, lays out where the build goes, describes the compiler
//! run, and picks the one artifact out of what the run left behind.
//!
//! The library decides and computes; it touches neither files, processes
//! nor locks. A driver performs the actions that the build machine of
//! [`orchestrator`] asks for and reports the results back to it;
//! [`session::Build`] keeps a build's configuration and state together for
//! it.

pub mod artifact;
pub mod config;
pub mod error;
pub mod features;
pub mod invocation;
pub mod layout;
pub mod orchestrator;
pub mod parse;
pub mod runs;
pub mod session;
pub mod sharing;
pub mod syntax;
pub mod text;
pub mod views;
