//! A desktop agent that prints labels from a cloud queue on a local printer.
//!
//! This crate is the verified core of the agent: what it asks of the print
//! server, how it reads the replies, which commands drive the system printer,
//! and how the polling loop moves from one step to the next. Sockets, files,
//! child processes and windows belong to the program around it, which performs
//! the actions decided here and reports back what happened.

pub mod agent;
pub mod api;
pub mod config;
pub mod headers;
pub mod pairing;
pub mod platform;
pub mod poller;
pub mod printer;
pub mod status;
pub mod text;
pub mod url;
