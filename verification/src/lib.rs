//! The decisions of a video upscaling tool: everything between one piece of outside work
//! (a file looked up, a program run, a line typed) and the next.
//!
//! [`session::Session`] is the run as a whole. The other modules hold what it decides with.

pub mod commands;
pub mod config;
pub mod paths;
pub mod runs;
pub mod session;
pub mod steps;
pub mod text;
pub mod tools;
