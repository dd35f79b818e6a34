//! The greeter and its one call.

use vstd::prelude::*;
use vstd::string::StringExecFns;
use crate::message::{HelloReply, HelloRequest, reply_to};

verus! {

/// The greeter. It holds no state: every call is answered from the request
/// alone.
#[derive(Debug)]
pub struct MyGreeter {}

impl Default for MyGreeter {
    fn default() -> (greeter: MyGreeter)
        ensures
            greeter == (MyGreeter {}),
    {
        MyGreeter {}
    }
}

impl MyGreeter {
    /// Answers `request` with the greeting for its name. Every name is
    /// accepted, the empty one too, and nothing is changed in it.
    pub fn say_hello(&self, request: HelloRequest) -> (reply: HelloReply)
        ensures
            reply@ == reply_to(request@),
    {
        let mut message = String::from_str("Hello ");
        message.append(request.name.as_str());
        message.append("!");
        HelloReply { message }
    }
}

/// Two calls that carry the same request are answered alike: a reply is
/// fixed by its request, whichever greeter serves it and whatever was served
/// before or is served beside it.
pub proof fn lemma_same_request_same_reply(
    first: HelloRequest,
    second: HelloRequest,
    first_reply: HelloReply,
    second_reply: HelloReply,
)
    requires
        first@ == second@,
        first_reply@ == reply_to(first@),
        second_reply@ == reply_to(second@),
    ensures
        first_reply@ == second_reply@,
{
}

} // verus!
