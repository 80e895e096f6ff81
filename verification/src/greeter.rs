//! The greeting service and its handler.

use crate::envelope::{open_request, request_message, response_message, seal_reply};
use crate::message::{greeting, HelloReply, HelloRequest};
use vstd::prelude::*;
use vstd::string::StringExecFns;

verus! {

/// The greeting service. It holds nothing: a call reads and changes no state,
/// so any number of calls may run at once and each is answered from its own
/// request alone.
#[derive(Debug, Default)]
pub struct MyGreeter {}

impl MyGreeter {
    /// Handles one call: the response carries the greeting for the name that
    /// the request carries. Every name is answered, the empty one and names
    /// outside ASCII too; no call is refused.
    pub fn say_hello(&self, request: tonic::Request<HelloRequest>) -> (result: Result<
        tonic::Response<HelloReply>,
        tonic::Status,
    >)
        ensures
            result is Ok,
            response_message(result->Ok_0) == greeting(request_message(request)),
    {
        let reply = self.greet(open_request(request));
        Ok(seal_reply(reply))
    }

    /// The reply to a request that has left its envelope: its message is the
    /// greeting for the request's name.
    pub fn greet(&self, request: HelloRequest) -> (reply: HelloReply)
        ensures
            reply@ == greeting(request@),
    {
        let mut message = String::from_str("Hello ");
        message.append(request.name.as_str());
        message.append("!");
        proof {
            reveal_strlit("Hello ");
            reveal_strlit("!");
            assert(message@ =~= greeting(request@));
        }
        HelloReply { message }
    }
}

} // verus!
