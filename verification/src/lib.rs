//! A Signal client as an MCP server: the rules by which it serves requests, stores what is
//! sent and received, and reports to the command line.
//!
//! The library makes decisions and builds values; talking to Signal, to clients and to
//! the terminal is left to the program around it.

pub mod base64;
pub mod client;
pub mod daemon;
pub mod dispatch;
pub mod json;
pub mod json_text;
pub mod methods;
pub mod paths;
pub mod report_laws;
pub mod request_laws;
pub mod rpc;
pub mod server;
pub mod server_laws;
pub mod signal;
pub mod storage;
pub mod store_laws;
pub mod text;
pub mod text_laws;
pub mod tools;
