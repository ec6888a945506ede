//! A message-oriented actor framework on top of tokio channels.
//!
//! The verified part of the crate holds the data that flows between actors
//! (gates, messages, the event bus) and the decision logic of an actor's
//! run loop, stated as a state machine; the asynchronous plumbing that
//! drives it lives outside the verified library.
#![allow(unused_imports)]

pub mod error;
pub mod channels;
pub mod handles;
pub mod actor;
pub mod handler;
pub mod gate;
pub mod bus;
pub mod system;
pub mod runner;
