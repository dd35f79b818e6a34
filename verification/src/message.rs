//! The two records of the greeting call and the text of a greeting.

use vstd::prelude::*;

verus! {

/// What a caller sends: the name to greet.
#[derive(Debug, PartialEq, Eq)]
pub struct HelloRequest {
    pub name: String,
}

/// What the caller gets back: the greeting.
#[derive(Debug, PartialEq, Eq)]
pub struct HelloReply {
    pub message: String,
}

/// A request as a value of the model: its name as a sequence of characters.
pub struct HelloRequestView {
    pub name: Seq<char>,
}

/// A reply as a value of the model: its message as a sequence of characters.
pub struct HelloReplyView {
    pub message: Seq<char>,
}

impl View for HelloRequest {
    type V = HelloRequestView;

    open spec fn view(&self) -> HelloRequestView {
        HelloRequestView { name: self.name@ }
    }
}

impl View for HelloReply {
    type V = HelloReplyView;

    open spec fn view(&self) -> HelloReplyView {
        HelloReplyView { message: self.message@ }
    }
}

impl Clone for HelloRequest {
    fn clone(&self) -> (copy: HelloRequest)
        ensures
            copy@ == self@,
    {
        HelloRequest { name: self.name.clone() }
    }
}

impl Clone for HelloReply {
    fn clone(&self) -> (copy: HelloReply)
        ensures
            copy@ == self@,
    {
        HelloReply { message: self.message.clone() }
    }
}

/// The greeting for `name`: the word "Hello", a space, the name as it was
/// given, and an exclamation mark.
pub open spec fn greeting(name: Seq<char>) -> Seq<char> {
    "Hello "@ + name + "!"@
}

/// The one reply that answers `request`.
pub open spec fn reply_to(request: HelloRequestView) -> HelloReplyView {
    HelloReplyView { message: greeting(request.name) }
}

} // verus!
