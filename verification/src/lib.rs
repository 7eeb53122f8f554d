//! Startup support for a small network service: a command-line selector and a
//! layered configuration resolver (environment over file over built-in
//! defaults) that always produces a fully populated configuration.

pub mod args;
pub mod config;
