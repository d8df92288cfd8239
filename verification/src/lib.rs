//! A line-delimited JSON request/response server core that offers Perforce
//! operations as callable tools.
//!
//! The crate holds the logic of the server: the command model, the
//! execution backend with its mock strategy, the tool registry, the message
//! dispatcher and the wire format. It reads no input, writes no output and
//! starts no process. Whoever drives it hands it lines and the outcomes of
//! processes, and gets back lines and the processes to run.

pub mod json;
pub mod mcp;
pub mod p4;
pub mod text;

pub use mcp::{MCPMessage, MCPResponse, MCPServer};
pub use p4::{P4Command, P4Handler};
