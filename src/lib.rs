//! A small JSON-RPC client core for a wallet daemon: request framing,
//! correlation of responses, status handling and typed result decoding.

pub mod client;
pub mod commands;
pub mod config;
pub mod decode;
pub mod error;
pub mod json;
pub mod outside;
pub mod response;
pub mod text;
