//! What the operations of the library promise, in terms of what goes in and
//! what comes out: wire values, requests, responses, calls and packets.
//!
//! Each law starts from what a function ensures of its result, and says of the
//! result's own parts what they are.

pub mod calls;
pub mod operations;
pub mod packets;
pub mod requests;
pub mod responses;
pub mod values;
