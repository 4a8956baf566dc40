//! A request on its way through the layers of a service.

use crate::outcome::OperationKind;
use vstd::prelude::*;

verus! {

/// A request as it arrives: the operation its route selects and its body.
///
/// The body is expected to hold a JSON document. It is not looked into here:
/// the engine parses it and reports what it finds wrong.
#[derive(Debug)]
pub struct Request {
    pub operation: OperationKind,
    pub body: String,
}

/// A request as the handler sees it: the body together with the trace
/// identifier of the request.
///
/// An envelope is made for one request and dropped with its reply. The
/// handler gets it by shared reference and so cannot change it.
#[derive(Debug)]
pub struct RequestEnvelope {
    pub body: String,
    pub trace_id: String,
}

impl RequestEnvelope {
    /// Attaches the trace identifier of a request to its body.
    pub fn new(body: String, trace_id: String) -> (envelope: Self)
        ensures
            envelope.body@ == body@,
            envelope.trace_id@ == trace_id@,
        no_unwind
    {
        RequestEnvelope { body, trace_id }
    }
}

} // verus!
