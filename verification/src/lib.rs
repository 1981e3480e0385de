//! Core logic of a command-line and MCP gateway for Nacos / r-nacos
//! configuration entries: configuration resolution, request shaping,
//! response interpretation, text rendering and stdio message framing.
//!
//! - [`text`]: trimming, searching, decimal numbers, as std defines them.
//! - [`config`]: resolving the connection settings from flags, file and environment.
//! - [`nacos`]: request parameters, response interpretation, login and tokens.
//! - [`cli`]: command-line arguments, content checks and messages.
//! - [`output`]: text renderings of results.
//! - [`mcp`]: stdio message framing and the answers of the MCP tools.
//! - [`laws`]: properties that span several functions.
//! - [`request_laws`]: what the requests carry and what their answers mean.

pub mod text;
pub mod config;
pub mod nacos;
pub mod cli;
pub mod output;
pub mod mcp;
pub mod laws;
pub mod request_laws;
