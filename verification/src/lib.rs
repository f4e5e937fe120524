//! A plugin framework for a tool-using conversational agent.
//!
//! Plugins expose named operations over untyped structured payloads. Each
//! plugin owns a state object that answers those operations one at a time.
//! Call sites stay statically typed: [`dispatch::invoke`] encodes the request,
//! dispatches by name and decodes the answer, and every mismatch is reported
//! as a failure. The library performs no input or output itself: an operation
//! that needs an outside collaborator hands back the request to perform, and
//! is resumed with the collaborator's reply.

pub mod dispatch;
pub mod failure;
pub mod lookup;
pub mod payload;
pub mod plugins;
pub mod registration;
pub mod registry;
