//! The failures a remote call can end in.

use crate::json::Json;
use vstd::prelude::*;

verus! {

/// How a JSON value fails to have the shape a decoder expects.
#[derive(Debug)]
pub enum SchemaError {
    /// The value is of another JSON type than the one expected.
    WrongType,
    /// A mandatory member of an object, the one named, is absent.
    MissingField(&'static str),
    /// An object holds a member, the one named, that its strict schema does not know.
    UnknownField(String),
}

/// An error object, as the daemon reports it or as the client makes it up.
#[derive(Debug)]
pub struct RpcError {
    pub code: i32,
    pub message: String,
    pub data: Option<Json>,
}

/// Every way a call can fail.
#[derive(Debug)]
pub enum CallError {
    /// The HTTP exchange itself failed.
    Http(hyper::Error),
    /// The daemon answered with an HTTP status other than success or 401.
    Status(u16),
    /// The daemon refused the credentials (HTTP 401).
    Auth,
    /// A body could not be read or written as JSON text.
    Json(serde_json::Error),
    /// The JSON does not have the shape of a response to this call.
    Schema(SchemaError),
    /// An error object: the daemon's own, or one the client made up.
    Rpc(RpcError),
}

} // verus!
