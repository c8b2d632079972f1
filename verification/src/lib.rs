//! Building and signing Ethereum transactions, and the requests of an
//! Ethereum client.
//!
//! - `rlp`: the byte format, and its encoders.
//! - `types`: hashes, addresses, 256-bit integers, requests and their parts.
//! - `signing`: digests, signatures, the range of a signature's halves.
//! - `api`: the `accounts` namespace with the three transaction envelopes,
//!   and the `eth` namespace with one request for each method.
//! - `signer`: signing as a state machine whose caller signs and recovers.
//! - `decode` and `laws`: a parser of the format as a spec function, and
//!   what is proved of encodings and of signed transactions.
//! - `rpc`, `helpers`, `error`, `transports`: JSON-RPC calls and outputs.
//! - `contract`: the requests that call a contract with encoded call data.
//! - `transforms`: responses made comparable.

pub mod api;
pub mod contract;
pub mod decode;
pub mod error;
pub mod helpers;
pub mod laws;
pub mod rlp;
pub mod rpc;
pub mod signer;
pub mod signing;
pub mod transforms;
pub mod transports;
pub mod types;
