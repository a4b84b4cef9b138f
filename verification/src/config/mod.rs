//! Tunnel configuration: builders for HTTP, TCP, TLS and labeled tunnels, and
//! their conversion into bind requests.

pub mod common;
pub mod headers;
pub mod http;
pub mod labeled;
pub mod oauth;
pub mod oidc;
pub mod policies;
pub mod tcp;
pub mod tls;
pub mod webhook_verification;
