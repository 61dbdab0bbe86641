//! Requests, responses and framing of TDS remote procedure calls: server-side
//! cursors, stored procedures, packets, and cancellation of a running call.
//!
//! Everything here is computation on values. A connection driver performs the
//! network work that the call machines ask for and reports back how it went.
pub mod buffer;
pub mod cancellation;
pub mod cursor;
pub mod direct;
pub mod error;
pub mod flags;
pub mod laws;
pub mod options;
pub mod outputs;
pub mod packet;
pub mod params;
pub mod prepared;
pub mod procedure;
pub mod rpc;
pub mod text;
pub mod types;
