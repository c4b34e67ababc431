//! Verified core of a small RPC framework: what a service definition expands
//! into, round-robin balancing, context adapters, the decisions of the HTTP,
//! channel and QUIC transports, and the counter service.

pub mod naming;
pub mod service;
pub mod balance;
pub mod context_mapper;
pub mod sync_channel;
pub mod client_box;
pub mod http;
pub mod channel;
pub mod coder;
pub mod counter;
pub mod cors;
pub mod quic;
