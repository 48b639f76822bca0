//! Verified core of a FreshBooks MCP server: the JSON model that responses
//! are read through, request paths and bodies, the text that tools answer
//! with, and the client's token and account state.

pub mod text;
pub mod json;
pub mod rows;
pub mod urlencode;
pub mod config;
pub mod params;
pub mod api;
pub mod server;
