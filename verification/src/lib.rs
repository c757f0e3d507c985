//! Decision logic of the Runebench agent host.
//!
//! The host runs an agent against the Runebench world: it selects a model provider, talks to the
//! provider over HTTP and to the rs-agent MCP server over the streams of a child process, lets
//! tool handlers reach that server, and ends the run on fatal failures or at its deadline. This
//! crate holds what the host decides and computes; files, processes, threads and the agent core
//! stay with the host itself, which does what the crate asks for and hands back what came of it.
//!
//! JSON text is read and written by a codec that the host supplies. The functions that need one
//! take it as a closure, and their contracts speak of the function that the closure computes.
pub mod args;
pub mod capability;
pub mod completion;
pub mod connection;
pub mod hook;
pub mod host;
pub mod json;
pub mod lines;
pub mod mcp;
pub mod messages;
pub mod process;
pub mod provider;
pub mod quote;
pub mod reader;
pub mod results;
pub mod session;
pub mod startup;
pub mod text;
pub mod transfer;
pub mod transport;
pub mod usage;
