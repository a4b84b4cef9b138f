//! Concrete option and error types for use across an FFI boundary, and
//! their translation into the library's endpoint options and upstreams.

use vstd::prelude::*;

use crate::endpoint::{EndpointOptions, Upstream};
use crate::rpc::{rpc_error_code, rpc_error_msg, RpcError};
use crate::text::{copy_strings, opt_view, push_char, push_str};

verus! {

/// Endpoint options with no type parameters.
#[derive(Clone, Debug, Default)]
pub struct FfiEndpointOptions {
    /// The endpoint URL (protocol inferred from scheme).
    pub url: Option<String>,
    /// Traffic policy as a YAML or JSON string.
    pub traffic_policy: Option<String>,
    /// Opaque metadata.
    pub metadata: Option<String>,
    /// Human-readable description.
    pub description: Option<String>,
    /// Binding configuration.
    pub bindings: Vec<String>,
    /// Whether endpoint pooling is enabled.
    pub pooling_enabled: Option<bool>,
}

impl FfiEndpointOptions {
    /// The endpoint options these describe: each one that is set is applied
    /// to options with nothing set.
    pub fn to_endpoint_options(&self) -> (r: EndpointOptions)
        ensures
            opt_view(r.url) == opt_view(self.url),
            opt_view(r.traffic_policy) == opt_view(self.traffic_policy),
            opt_view(r.metadata) == opt_view(self.metadata),
            opt_view(r.description) == opt_view(self.description),
            r.bindings@ == self.bindings@,
            r.pooling_enabled == self.pooling_enabled,
    {
        let mut o = EndpointOptions::new();
        match &self.url {
            Some(u) => {
                o = o.url(u.as_str());
            },
            None => {},
        }
        match &self.traffic_policy {
            Some(t) => {
                o = o.traffic_policy(t.as_str());
            },
            None => {},
        }
        match &self.metadata {
            Some(m) => {
                o = o.metadata(m.as_str());
            },
            None => {},
        }
        match &self.description {
            Some(d) => {
                o = o.description(d.as_str());
            },
            None => {},
        }
        if self.bindings.len() > 0 {
            o = o.bindings(copy_strings(&self.bindings));
        } else {
            assert(o.bindings@ =~= self.bindings@);
        }
        match self.pooling_enabled {
            Some(p) => {
                o = o.pooling_enabled(p);
            },
            None => {},
        }
        o
    }
}

/// An upstream with no type parameters.
#[derive(Clone, Debug)]
pub struct FfiUpstream {
    /// The upstream address (`host:port` or a URL).
    pub addr: String,
    /// The application protocol.
    pub protocol: Option<String>,
    /// Whether to verify upstream TLS certificates.
    pub verify_upstream_tls: bool,
}

impl Default for FfiUpstream {
    /// No address or protocol; upstream TLS certificates verified.
    fn default() -> (r: FfiUpstream)
        ensures
            r.addr@.len() == 0,
            r.protocol is None,
            r.verify_upstream_tls,
    {
        FfiUpstream { addr: String::new(), protocol: None, verify_upstream_tls: true }
    }
}

impl FfiUpstream {
    /// The upstream this describes: the address, the protocol when one is
    /// set, and verification turned off only when it is not wanted.
    pub fn to_upstream(&self) -> (r: Upstream)
        ensures
            r.addr@ == self.addr@,
            opt_view(r.protocol) == opt_view(self.protocol),
            r.proxy_proto is None,
            r.verify_upstream_tls == (if self.verify_upstream_tls {
                None::<bool>
            } else {
                Some(false)
            }),
    {
        let mut us = Upstream::new(self.addr.as_str());
        match &self.protocol {
            Some(p) => {
                us = us.protocol(p.as_str());
            },
            None => {},
        }
        if !self.verify_upstream_tls {
            us = us.verify_upstream_tls(false);
        }
        us
    }
}

/// An error with its ngrok code split out.
#[derive(Debug, Clone)]
pub struct FfiError {
    /// The ngrok error code, if any.
    pub code: Option<String>,
    /// The error message.
    pub message: String,
}

impl FfiError {
    /// The code and message of an RPC error.
    pub fn from_rpc_error(err: &RpcError) -> (r: FfiError)
        ensures
            opt_view(r.code) == rpc_error_code(*err),
            r.message@ == rpc_error_msg(*err),
    {
        FfiError { code: err.code(), message: err.message() }
    }

    /// The text shown for this error: `[code] message`, or the message
    /// alone when there is no code.
    pub fn to_display_string(&self) -> (r: String)
        ensures
            r@ == match self.code {
                Some(c) => seq!['['] + c@ + seq![']', ' '] + self.message@,
                None => self.message@,
            },
    {
        match &self.code {
            Some(c) => {
                let mut r = String::new();
                push_char(&mut r, '[');
                push_str(&mut r, c.as_str());
                push_char(&mut r, ']');
                push_char(&mut r, ' ');
                push_str(&mut r, self.message.as_str());
                assert(r@ =~= seq!['['] + c@ + seq![']', ' '] + self.message@);
                r
            },
            None => self.message.clone(),
        }
    }
}

} // verus!
