//! A greeting service: the handler that answers a `HelloRequest` with a
//! `HelloReply`, and the fixed settings under which the service is offered.

pub mod cors;
pub mod header;
pub mod message;
pub mod service;
pub mod settings;
