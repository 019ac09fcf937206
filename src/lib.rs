//! A single-route HTTP responder: every connection whose request can be read
//! gets the same "Hello world" page, and nothing else.
//!
//! The library holds the decisions of the server as state machines over plain
//! values. The program around it opens the socket, performs each action the
//! machines return and hands the outcome back as an event.

pub mod handler;
pub mod listener;
pub mod response;
