//! Building requests and reading outputs.

use vstd::prelude::*;
use crate::error::ClientError;
use crate::rpc::{Call, Id, MethodCall, Output, Params, Version};
use crate::types::Param;

verus! {

/// Assigned request id.
pub type RequestId = usize;

/// A call that was made, with the type `T` that its result is to be read
/// as.
#[derive(Debug)]
pub struct CallFuture<T, F> {
    inner: F,
    _marker: std::marker::PhantomData<T>,
}

impl<T, F> CallFuture<T, F> {
    /// The call that is wrapped.
    pub closed spec fn inner_of(&self) -> F {
        self.inner
    }

    /// Create a new CallFuture wrapping the inner future.
    pub fn new(inner: F) -> (out: Self)
        ensures
            out.inner_of() == inner,
    {
        CallFuture { inner, _marker: std::marker::PhantomData }
    }

    /// The call that is wrapped.
    pub fn into_inner(self) -> (out: F)
        ensures
            out == self.inner_of(),
    {
        self.inner
    }
}

/// Build a JSON-RPC request: a method call of version 2 with the parameters
/// as an array and the id as a number.
pub fn build_request(id: usize, method: &str, params: Vec<Param>) -> (call: Call)
    ensures
        call is MethodCall,
        call->MethodCall_0.jsonrpc == Some(Version::V2),
        call->MethodCall_0.method@ == method@,
        call->MethodCall_0.params == Params::Array(params),
        call->MethodCall_0.id == Id::Num(id as u64),
{
    Call::MethodCall(
        MethodCall {
            jsonrpc: Some(Version::V2),
            method: method.to_owned(),
            params: Params::Array(params),
            id: Id::Num(id as u64),
        },
    )
}

/// What an output stands for: its result, or the node's error.
pub open spec fn result_of(output: Output) -> Result<serde_json::Value, ClientError> {
    match output {
        Output::Success(success) => Ok(success.result),
        Output::Failure(failure) => Err(ClientError::Rpc(failure.error)),
    }
}

/// Parse an output into a result.
pub fn to_result_from_output(output: Output) -> (out: Result<serde_json::Value, ClientError>)
    ensures
        out == result_of(output),
{
    match output {
        Output::Success(success) => Ok(success.result),
        Output::Failure(failure) => Err(ClientError::Rpc(failure.error)),
    }
}

/// Parse outputs into results, one for each output and in their order.
pub fn to_results_from_outputs(outputs: Vec<Output>) -> (out: Result<
    Vec<Result<serde_json::Value, ClientError>>,
    ClientError,
>)
    ensures
        out is Ok,
        out->Ok_0@ == outputs@.map_values(|output: Output| result_of(output)),
{
    let ghost all = outputs@;
    let mut rest = outputs;
    let mut reversed: Vec<Result<serde_json::Value, ClientError>> = Vec::new();
    while rest.len() > 0
        invariant
            rest@.len() + reversed@.len() == all.len(),
            rest@ == all.take(rest@.len() as int),
            forall|i: int|
                0 <= i < reversed@.len() ==> #[trigger] reversed@[i] == result_of(
                    all[all.len() - 1 - i],
                ),
        decreases rest@.len(),
    {
        let output = rest.pop().unwrap();
        reversed.push(to_result_from_output(output));
        assert(rest@ =~= all.take(rest@.len() as int));
    }
    let mut results: Vec<Result<serde_json::Value, ClientError>> = Vec::new();
    while reversed.len() > 0
        invariant
            results@.len() + reversed@.len() == all.len(),
            forall|i: int|
                0 <= i < reversed@.len() ==> #[trigger] reversed@[i] == result_of(
                    all[all.len() - 1 - i],
                ),
            forall|i: int| 0 <= i < results@.len() ==> #[trigger] results@[i] == result_of(all[i]),
        decreases reversed@.len(),
    {
        let result = reversed.pop().unwrap();
        results.push(result);
    }
    assert(results@ =~= all.map_values(|output: Output| result_of(output)));
    Ok(results)
}

/// The id of an output as a request id: the number, cut to the size of a
/// request id. An id that is no number is no id of a request of this client.
pub fn id_of_output(output: &Output) -> (out: Result<RequestId, ClientError>)
    ensures
        match output_id(*output) {
            Id::Num(num) => out == Ok::<RequestId, ClientError>(num as usize),
            _ => out is Err && out->Err_0 is InvalidResponse
                && out->Err_0->InvalidResponse_0@ == "response id is not u64"@,
        },
{
    let id = match output {
        Output::Success(success) => &success.id,
        Output::Failure(failure) => &failure.id,
    };
    match id {
        Id::Num(num) => Ok(#[verifier::truncate] (*num as usize)),
        _ => Err(ClientError::InvalidResponse("response id is not u64".to_owned())),
    }
}

/// The id that an output carries.
pub open spec fn output_id(output: Output) -> Id {
    match output {
        Output::Success(success) => success.id,
        Output::Failure(failure) => failure.id,
    }
}

/// What `serde_json` reads from a text as a response: the response, or why
/// the text is none.
pub uninterp spec fn response_of(text: Seq<u8>) -> Result<jsonrpc_core::Response, serde_json::Error>;

/// What `serde_json` reads from a text as a notification: the notification,
/// or why the text is none.
pub uninterp spec fn notification_of(text: Seq<u8>) -> Result<
    jsonrpc_core::Notification,
    serde_json::Error,
>;

/// What `serde_json` says of a text that it could not read, as `{:?}`
/// writes it.
pub uninterp spec fn error_text(error: serde_json::Error) -> Seq<char>;

/// `serde_json::from_slice` for a response. Claimed: what is read, or why
/// the text is no response, depends on the text alone.
#[verifier::external_body]
fn read_response(text: &[u8]) -> (out: Result<jsonrpc_core::Response, serde_json::Error>)
    ensures
        out == response_of(text@),
{
    serde_json::from_slice(text)
}

/// `serde_json::from_slice` for a notification. Claimed: what is read, or
/// why the text is no notification, depends on the text alone.
#[verifier::external_body]
fn read_notification(text: &[u8]) -> (out: Result<jsonrpc_core::Notification, serde_json::Error>)
    ensures
        out == notification_of(text@),
{
    serde_json::from_slice(text)
}

/// The `Debug` text of an error of `serde_json`.
#[verifier::external_body]
fn debug_text(error: &serde_json::Error) -> (text: String)
    ensures
        text@ == error_text(*error),
{
    format!("{:?}", error)
}

/// Parse bytes slice into JSON-RPC response; what cannot be read is an
/// invalid response that says why, as `serde_json` put it.
pub fn to_response_from_slice(response: &[u8]) -> (out: Result<jsonrpc_core::Response, ClientError>)
    ensures
        match response_of(response@) {
            Ok(read) => out == Ok::<jsonrpc_core::Response, ClientError>(read),
            Err(why) => out is Err && out->Err_0 is InvalidResponse
                && out->Err_0->InvalidResponse_0@ == error_text(why),
        },
{
    match read_response(response) {
        Ok(read) => Ok(read),
        Err(e) => Err(invalid_response(&e)),
    }
}

/// Parse bytes slice into JSON-RPC notification; what cannot be read is an
/// invalid response that says why, as `serde_json` put it.
pub fn to_notification_from_slice(notification: &[u8]) -> (out: Result<
    jsonrpc_core::Notification,
    ClientError,
>)
    ensures
        match notification_of(notification@) {
            Ok(read) => out == Ok::<jsonrpc_core::Notification, ClientError>(read),
            Err(why) => out is Err && out->Err_0 is InvalidResponse
                && out->Err_0->InvalidResponse_0@ == error_text(why),
        },
{
    match read_notification(notification) {
        Ok(read) => Ok(read),
        Err(e) => Err(invalid_response(&e)),
    }
}

/// The error for a text that could not be read: an invalid response that
/// says what `serde_json` said.
pub fn invalid_response(error: &serde_json::Error) -> (out: ClientError)
    ensures
        out is InvalidResponse,
        out->InvalidResponse_0@ == error_text(*error),
{
    ClientError::InvalidResponse(debug_text(error))
}

} // verus!
