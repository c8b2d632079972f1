//! The shapes of JSON-RPC 2.0: calls that go out and outputs that come back.

use vstd::prelude::*;
use crate::types::Param;

verus! {

/// A JSON value of `serde_json`, carried as it is.
#[verifier::external_type_specification]
#[verifier::external_body]
pub struct ExJsonValue(serde_json::Value);

/// A whole response of `jsonrpc_core`: one output or a batch of them.
#[verifier::external_type_specification]
#[verifier::external_body]
pub struct ExRpcResponse(jsonrpc_core::Response);

/// A notification of `jsonrpc_core`.
#[verifier::external_type_specification]
#[verifier::external_body]
pub struct ExRpcNotification(jsonrpc_core::Notification);

/// Why `serde_json` could not read a text.
#[verifier::external_type_specification]
#[verifier::external_body]
pub struct ExJsonError(serde_json::Error);

/// The protocol version.
#[derive(Clone, Copy, Debug, PartialEq, Eq)]
pub enum Version {
    V2,
}

/// The id that ties an output to its call.
#[derive(Clone, Debug, PartialEq, Eq)]
pub enum Id {
    Null,
    Num(u64),
    Str(String),
}

/// The parameters of a call.
#[derive(Clone, Debug, PartialEq, Eq)]
pub enum Params {
    /// No parameters at all.
    Absent,
    Array(Vec<Param>),
}

/// A call that is answered.
#[derive(Clone, Debug, PartialEq, Eq)]
pub struct MethodCall {
    pub jsonrpc: Option<Version>,
    pub method: String,
    pub params: Params,
    pub id: Id,
}

/// What is sent.
#[derive(Clone, Debug, PartialEq, Eq)]
pub enum Call {
    MethodCall(MethodCall),
    /// What could not be read as a call, with its id if it had one.
    Invalid { id: Id },
}

/// The error of a call that the node refused.
#[derive(Debug, PartialEq, Eq)]
pub struct RpcError {
    pub code: i64,
    pub message: String,
    pub data: Option<serde_json::Value>,
}

/// The output of a call that succeeded.
#[derive(Debug, PartialEq, Eq)]
pub struct Success {
    pub jsonrpc: Option<Version>,
    pub result: serde_json::Value,
    pub id: Id,
}

/// The output of a call that failed.
#[derive(Debug, PartialEq, Eq)]
pub struct Failure {
    pub jsonrpc: Option<Version>,
    pub error: RpcError,
    pub id: Id,
}

/// What comes back for one call.
#[derive(Debug, PartialEq, Eq)]
pub enum Output {
    Success(Success),
    Failure(Failure),
}

} // verus!
