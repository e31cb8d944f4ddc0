//! A one-way bridge from a publish/subscribe broker to a CoAP endpoint.
//!
//! Each message published on a subscribed topic carries a flat JSON object.
//! The bridge strips the leading segment of the topic, reads every top-level
//! member of the object as a number, and hands each reading on as one
//! `"<key> <value>"` request. This crate holds the rules of the bridge;
//! the network on both sides belongs to the program around it.

pub mod delivery;
pub mod dispatch;
pub mod flatten;
pub mod json;
pub mod startup;
pub mod text;
pub mod topic;

pub use startup::{Level, OptsCommon};
