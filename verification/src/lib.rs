//! Decisions of the Desplio host daemon: what to run, what to show, what to answer.
//!
//! The crate holds everything the daemon computes; running commands, talking to devices and
//! serving sockets is left to the program that links it.
pub mod capture;
pub mod config;
pub mod daemon;
pub mod discovery;
pub mod display;
pub mod encoder;
pub mod input;
pub mod listing;
pub mod number;
pub mod path;
pub mod peers;
pub mod process;
pub mod server;
pub mod sorting;
pub mod text;
pub mod webrtc;
