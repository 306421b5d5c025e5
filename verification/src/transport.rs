//! What a transport hands in: a status code and a body, or a failure.

use vstd::prelude::*;
use crate::error::NetworkError;

verus! {

/// A response as the transport received it: the status code and the body,
/// decoded as text.
#[derive(Debug, PartialEq, Eq)]
pub struct Response {
    pub status: u16,
    pub body: String,
}

/// A response as the contracts see it.
pub ghost struct ResponseView {
    pub status: u16,
    pub body: Seq<char>,
}

impl View for Response {
    type V = ResponseView;

    open spec fn view(&self) -> ResponseView {
        ResponseView { status: self.status, body: self.body@ }
    }
}

/// The outcome of one GET as the contracts see it: the response that arrived,
/// or the failure to get one.
pub type Reply = Result<ResponseView, NetworkError>;

/// The view of an outcome of one GET.
pub open spec fn reply_view(reply: Result<Response, NetworkError>) -> Reply {
    match reply {
        Ok(response) => Ok(response@),
        Err(e) => Err(e),
    }
}

/// The status codes of success: 200 to 299, both included.
pub open spec fn status_ok(status: u16) -> bool {
    200 <= status <= 299
}

/// Tells whether `status` is a code of success.
pub fn is_success(status: u16) -> (ok: bool)
    ensures
        ok == status_ok(status),
{
    200 <= status && status <= 299
}

/// The failure exit after the status line: passes a code of success, and
/// fails on every other code, before any of the body is read.
pub fn check_status(status: u16) -> (checked: Result<(), NetworkError>)
    ensures
        checked is Ok <==> status_ok(status),
{
    if is_success(status) {
        Ok(())
    } else {
        Err(NetworkError)
    }
}

/// Something that can perform a GET. A transport need not answer the same
/// URL twice in the same way, and a GET may change it, so it is described by
/// its steps: from a state, by a GET of a URL, to a reply and a next state.
pub trait Transport: Sized {
    /// Whether one GET of `url` may end in `reply` and leave this transport
    /// as `after`.
    spec fn may_get(&self, url: Seq<char>, reply: Reply, after: Self) -> bool;

    /// Performs one GET of `url`: the response, whatever its status, or a
    /// failure where none arrived.
    fn get(&mut self, url: &str) -> (reply: Result<Response, NetworkError>)
        ensures
            old(self).may_get(url@, reply_view(reply), *final(self)),
    ;
}

} // verus!
