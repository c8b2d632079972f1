//! The transport over HTTP: where requests go, and the ids that they get.

use vstd::prelude::*;
use crate::error::ClientError;
use crate::helpers::{build_request, RequestId};
use crate::rpc::{Call, Id, Params, Version};
use crate::types::Param;

verus! {

/// What a transport does before anything is sent: it numbers the calls.
pub trait Transport: Clone {
    /// Prepare a call of `method` with `params`, under an id of its own.
    fn prepare(&mut self, method: &str, params: Vec<Param>) -> (RequestId, Call);

    /// Whether `after` is what setting the most bytes of a response to
    /// `bytes` makes of `before`. Each transport says what that is: one that
    /// keeps a limit has it set, one that keeps none stays as it is.
    spec fn limited(before: Self, bytes: u64, after: Self) -> bool;

    /// Sets the most bytes that a response may have.
    fn set_max_response_bytes(&mut self, bytes: u64)
        ensures
            Self::limited(*old(self), bytes, *final(self)),
    ;
}

/// An HTTP transport: the node's URL, the limit on the size of a response,
/// and the id of the next request.
#[derive(Clone, Debug, PartialEq, Eq)]
pub struct ICHttp {
    max_response_bytes: Option<u64>,
    url: String,
    id: usize,
}

impl ICHttp {
    /// The URL that requests go to.
    pub closed spec fn url(&self) -> Seq<char> {
        self.url@
    }

    /// The id that the next request will get.
    pub closed spec fn id(&self) -> usize {
        self.id
    }

    /// The most bytes that a response may have, if that is limited.
    pub closed spec fn max_response_bytes(&self) -> Option<u64> {
        self.max_response_bytes
    }

    /// Create new HTTP transport connecting to given URL; its first request
    /// gets the id zero.
    pub fn new(url: &str, max_resp: Option<u64>) -> (out: Result<ICHttp, ClientError>)
        ensures
            out is Ok,
            out->Ok_0.url() == url@,
            out->Ok_0.id() == 0,
            out->Ok_0.max_response_bytes() == max_resp,
    {
        Ok(ICHttp { max_response_bytes: max_resp, url: url.to_owned(), id: 0 })
    }

    /// Hands out the next id: each call gives the id after the one before,
    /// and zero follows the largest.
    pub fn next_id(&mut self) -> (id: RequestId)
        ensures
            id == old(self).id(),
            final(self).id() == (if old(self).id() == usize::MAX {
                0
            } else {
                old(self).id() + 1
            }),
            final(self).url() == old(self).url(),
            final(self).max_response_bytes() == old(self).max_response_bytes(),
    {
        let id = self.id;
        if self.id == usize::MAX {
            self.id = 0;
        } else {
            self.id = self.id + 1;
        }
        id
    }

    /// What a request needs of the transport: the limit on the response and
    /// the URL.
    pub fn new_request(&self) -> (out: (Option<u64>, String))
        ensures
            out.0 == self.max_response_bytes(),
            out.1@ == self.url(),
    {
        (self.max_response_bytes, self.url.clone())
    }

    /// Prepare a call of `method` with `params`: it gets the next id.
    pub fn prepare_call(&mut self, method: &str, params: Vec<Param>) -> (out: (RequestId, Call))
        ensures
            out.0 == old(self).id(),
            final(self).id() == (if old(self).id() == usize::MAX {
                0
            } else {
                old(self).id() + 1
            }),
            final(self).url() == old(self).url(),
            final(self).max_response_bytes() == old(self).max_response_bytes(),
            out.1 is MethodCall,
            out.1->MethodCall_0.jsonrpc == Some(Version::V2),
            out.1->MethodCall_0.method@ == method@,
            out.1->MethodCall_0.params == Params::Array(params),
            out.1->MethodCall_0.id == Id::Num(out.0 as u64),
    {
        let id = self.next_id();
        let request = build_request(id, method, params);
        (id, request)
    }

    /// Sets the most bytes that a response may have.
    pub fn limit_response(&mut self, v: u64)
        ensures
            final(self).max_response_bytes() == Some(v),
            final(self).url() == old(self).url(),
            final(self).id() == old(self).id(),
    {
        self.max_response_bytes = Some(v);
    }
}

impl Transport for ICHttp {
    /// The limit is `bytes`; the URL and the next id are as they were.
    open spec fn limited(before: Self, bytes: u64, after: Self) -> bool {
        &&& after.max_response_bytes() == Some(bytes)
        &&& after.url() == before.url()
        &&& after.id() == before.id()
    }

    fn prepare(&mut self, method: &str, params: Vec<Param>) -> (out: (RequestId, Call))
        ensures
            out.0 == old(self).id(),
            final(self).id() == (if old(self).id() == usize::MAX {
                0
            } else {
                old(self).id() + 1
            }),
            final(self).url() == old(self).url(),
            final(self).max_response_bytes() == old(self).max_response_bytes(),
            out.1 is MethodCall,
            out.1->MethodCall_0.jsonrpc == Some(Version::V2),
            out.1->MethodCall_0.method@ == method@,
            out.1->MethodCall_0.params == Params::Array(params),
            out.1->MethodCall_0.id == Id::Num(out.0 as u64),
    {
        self.prepare_call(method, params)
    }

    fn set_max_response_bytes(&mut self, bytes: u64)
        ensures
            final(self).max_response_bytes() == Some(bytes),
            final(self).url() == old(self).url(),
            final(self).id() == old(self).id(),
    {
        self.limit_response(bytes)
    }
}

} // verus!
