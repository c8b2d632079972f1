//! The errors of the client.

use vstd::prelude::*;
use crate::rpc::RpcError;

verus! {

/// Why a request did not reach the node or its answer did not come back.
#[derive(Clone, Debug, PartialEq, Eq)]
pub enum TransportError {
    /// Any other failure, in words.
    Message(String),
}

/// What can go wrong between a call and its result.
#[derive(Debug, PartialEq, Eq)]
pub enum ClientError {
    /// The text could not be read as what was expected; the text.
    Decoder(String),
    /// The node's answer is no valid response.
    InvalidResponse(String),
    /// The transport failed.
    Transport(TransportError),
    /// The node answered with an error.
    Rpc(RpcError),
}

} // verus!
