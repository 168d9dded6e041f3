//! Delivery of deferred replies: the capability, a discarding
//! implementation, and the default delivery bound to a command's callback
//! address.

use vstd::prelude::*;

verus! {

use crate::json::json_of_response;
use crate::response::Response;

/// Deferred response capability: delivering a reply to the channel or user
/// that issued the original command, from any execution context, possibly
/// long after the original dispatch call has returned. A responder is
/// shared with whatever execution context delivers the reply, so it must be
/// safe to send and share across threads.
pub trait Responder: Send + Sync {
    /// Delivers `response` to the invocation's one-time callback address.
    /// Best-effort: no delivery guarantee is made, and at most one logical
    /// use per command is intended.
    fn respond(&self, response: Response);
}

/// A responder that discards every reply, for contexts where deferred
/// delivery is not applicable.
pub struct DiscardResponder;

impl Responder for DiscardResponder {
    fn respond(&self, _response: Response) {
    }
}

/// The default delivery: bound to one command's callback address, it shapes
/// a reply into the single outbound HTTP POST that delivers it. The
/// transport around the library performs the send; failures there are
/// swallowed, as the responder contract makes no delivery guarantee.
pub struct DefaultResponder {
    pub response_url: String,
}

impl DefaultResponder {
    /// A responder bound to one command's callback address.
    pub fn new(response_url: String) -> (r: DefaultResponder)
        ensures
            r.response_url == response_url,
    {
        DefaultResponder { response_url }
    }

    /// The one outbound POST that delivers `response`: the callback address
    /// to post to, and the serialized JSON body.
    pub fn delivery(&self, response: &Response) -> (r: (String, String))
        ensures
            r.0@ == self.response_url@,
            r.1@ == json_of_response(response@),
    {
        (self.response_url.clone(), response.to_json())
    }
}

} // verus!
