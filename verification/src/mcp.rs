//! Shapes of the MCP tools' inputs and outputs: the transport envelopes that
//! exist only at the MCP boundary.

pub mod models;
pub mod tools;
