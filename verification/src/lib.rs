//! Configuration, wire-protocol and decision logic of the ngrok agent library.
//!
//! Everything here is plain data and pure decisions: the builders that
//! describe tunnels and endpoints, their conversion into the messages sent to
//! the ngrok service, the PROXY-protocol header reader, and the small state
//! machines that drive sessions and forwarding. The parts that perform I/O
//! live outside this crate and hand their results to the functions here.

pub mod agent;
pub mod certs;
pub mod config;
pub mod endpoint;
pub mod event;
pub mod ffi;
pub mod forward;
pub mod proto;
pub mod proxy_proto;
pub mod rpc;
pub mod session;
pub mod strmap;
pub mod text;
pub mod urls;
