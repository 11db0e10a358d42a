//! Core of a small local HTTP endpoint: an ordered route table with
//! first-match-wins lookup, a dispatcher that short-circuits CORS preflight
//! requests, a classifier that tells benign client disconnects from fatal
//! faults, a supervisor state machine for the serving loop's lifecycle, and
//! the formatting of the font-files payload.

pub mod classify;
pub mod config;
pub mod decimal;
pub mod get_files;
pub mod http;
pub mod server;
pub mod supervisor;
