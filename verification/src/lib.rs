//! Command-line client logic for the Icinga 2 HTTP API.
//!
//! The crate turns operator options into filter expressions and JSON action
//! payloads, decides what an HTTP status code means for each command, and
//! renders the server's replies as lines of text. Sending the request and
//! printing the lines is left to the caller.

pub mod command;
pub mod configuration;
pub mod constants;
pub mod error;
pub mod json_data;
pub mod request;
pub mod severity;
pub mod text;
pub mod usage;
pub mod util;
