//! TCP endpoints: options, builder, and the bind request they produce.

use vstd::prelude::*;

use crate::config::common::{
    common_allowed, common_denied, common_with_forwards_to, common_with_metadata,
    ip_restriction_for, is_default_common, CommonOpts,
};
use crate::config::http::{bind_extra_for, bind_extra_of};
use crate::config::policies::{policy_same, rules_match, Policy};
use crate::proto::{BindExtra, BindOpts, ProxyProto, TcpEndpoint};
use crate::strmap::StringMap;
use crate::text::{copy_string, opt_view, owned};
use crate::urls::UrlParts;

verus! {

/// The options of a TCP endpoint.
#[derive(Clone)]
pub struct TcpOptions {
    pub common_opts: CommonOpts,
    /// The TCP address to request.
    pub remote_addr: Option<String>,
}

/// `o` with its common options replaced by `c`.
pub open spec fn tcp_with_common(o: TcpOptions, c: CommonOpts) -> TcpOptions {
    TcpOptions { common_opts: c, ..o }
}

/// The wire form of the options of a TCP endpoint.
pub open spec fn tcp_endpoint_matches(o: TcpOptions, e: TcpEndpoint) -> bool {
    &&& e.addr@ == match o.remote_addr {
        Some(a) => a@,
        None => Seq::<char>::empty(),
    }
    &&& e.proxy_proto == o.common_opts.proxy_proto
    &&& ip_restriction_for(o.common_opts.cidr_restrictions, e.ip_restriction)
    &&& (match o.common_opts.policy {
        Some(p) => e.policy matches Some(w) && rules_match(p.inbound@, w.inbound@) && rules_match(
            p.outbound@,
            w.outbound@,
        ),
        None => e.policy is None,
    })
    &&& e.traffic_policy is None
}

impl TcpOptions {
    /// The defaults: nothing set.
    pub fn new() -> (r: TcpOptions)
        ensures
            is_default_common(r.common_opts),
            r.remote_addr is None,
    {
        TcpOptions { common_opts: CommonOpts::new(), remote_addr: None }
    }

    /// The "forwards to" text: the one set, or else `default`.
    pub fn forwards_to(&self, default: &str) -> (r: String)
        ensures
            r@ == match self.common_opts.forwards_to {
                Some(f) => f@,
                None => default@,
            },
    {
        self.common_opts.forwards_to_or(default)
    }

    /// The L7 protocol of the upstream: not supported for TCP, so empty.
    pub fn forwards_proto(&self) -> (r: String)
        ensures
            r@.len() == 0,
    {
        String::new()
    }

    /// Whether backend TLS certificate verification is disabled.
    pub fn disable_app_cert_verification(&self) -> (r: bool)
        ensures
            r == self.common_opts.disable_app_cert_verification,
    {
        self.common_opts.disable_app_cert_verification
    }

    /// Whether forwards from this tunnel verify the upstream's TLS
    /// certificate: as set, unless backend certificate verification was
    /// disabled.
    pub fn verify_upstream_tls(&self) -> (r: bool)
        ensures
            r == (self.common_opts.verify_upstream_tls && !self.common_opts.disable_app_cert_verification),
    {
        self.common_opts.verify_upstream_tls && !self.common_opts.disable_app_cert_verification
    }

    /// The bind-request extras.
    pub fn extra(&self) -> (r: BindExtra)
        ensures
            bind_extra_for(self.common_opts, r),
    {
        bind_extra_of(&self.common_opts)
    }

    /// The protocol: `tcp`.
    pub fn proto(&self) -> (r: String)
        ensures
            r@ == seq!['t', 'c', 'p'],
    {
        let mut r = String::new();
        crate::text::push_char(&mut r, 't');
        crate::text::push_char(&mut r, 'c');
        crate::text::push_char(&mut r, 'p');
        r
    }

    /// The bind options: always a TCP endpoint.
    pub fn opts(&self) -> (r: Option<BindOpts>)
        ensures
            r matches Some(BindOpts::Tcp(e)) && tcp_endpoint_matches(*self, e),
    {
        let mut e = TcpEndpoint::empty();
        match &self.remote_addr {
            Some(a) => {
                e.addr = copy_string(a);
            },
            None => {
                assert(e.addr@ =~= Seq::<char>::empty());
            },
        }
        e.proxy_proto = self.common_opts.proxy_proto;
        e.ip_restriction = self.common_opts.ip_restriction();
        e.policy = match &self.common_opts.policy {
            Some(p) => Some(p.to_proto()),
            None => None,
        };
        Some(BindOpts::Tcp(e))
    }

    /// The labels: none.
    pub fn labels(&self) -> (r: StringMap)
        ensures
            r.view() == Map::<Seq<char>, Seq<char>>::empty(),
    {
        StringMap::new()
    }
}

/// A builder for a tunnel backing a TCP endpoint.
#[derive(Clone)]
pub struct TcpTunnelBuilder {
    /// The options built so far.
    pub options: TcpOptions,
}

impl TcpTunnelBuilder {
    /// A builder holding the default options.
    pub fn new() -> (r: TcpTunnelBuilder)
        ensures
            is_default_common(r.options.common_opts),
            r.options.remote_addr is None,
    {
        TcpTunnelBuilder { options: TcpOptions::new() }
    }

    /// Adds the provided CIDR to the allowlist.
    pub fn allow_cidr(&mut self, cidr: &str) -> (r: &mut Self)
        ensures
            common_allowed(old(self).options.common_opts, r.options.common_opts, cidr@),
            r.options == tcp_with_common(old(self).options, r.options.common_opts),
            *final(self) == *final(r),
    {
        self.options.common_opts.cidr_restrictions.allow(cidr);
        self
    }

    /// Adds the provided CIDR to the denylist.
    pub fn deny_cidr(&mut self, cidr: &str) -> (r: &mut Self)
        ensures
            common_denied(old(self).options.common_opts, r.options.common_opts, cidr@),
            r.options == tcp_with_common(old(self).options, r.options.common_opts),
            *final(self) == *final(r),
    {
        self.options.common_opts.cidr_restrictions.deny(cidr);
        self
    }

    /// Sets the PROXY protocol version for connections over this tunnel.
    pub fn proxy_proto(&mut self, proxy_proto: ProxyProto) -> (r: &mut Self)
        ensures
            r.options == tcp_with_common(
                old(self).options,
                (CommonOpts { proxy_proto, ..old(self).options.common_opts }),
            ),
            *final(self) == *final(r),
    {
        self.options.common_opts.proxy_proto = proxy_proto;
        self
    }

    /// Sets the opaque metadata string for this tunnel.
    pub fn metadata(&mut self, metadata: &str) -> (r: &mut Self)
        ensures
            common_with_metadata(old(self).options.common_opts, r.options.common_opts, metadata@),
            r.options == tcp_with_common(old(self).options, r.options.common_opts),
            *final(self) == *final(r),
    {
        self.options.common_opts.metadata = Some(owned(metadata));
        self
    }

    /// Sets the "forwards to" text for this tunnel, shown in the API and
    /// dashboard.
    pub fn forwards_to(&mut self, forwards_to: &str) -> (r: &mut Self)
        ensures
            common_with_forwards_to(old(self).options.common_opts, r.options.common_opts, forwards_to@),
            r.options == tcp_with_common(old(self).options, r.options.common_opts),
            *final(self) == *final(r),
    {
        self.options.common_opts.forwards_to = Some(owned(forwards_to));
        self
    }

    /// Disables backend TLS certificate verification for forwards from this
    /// tunnel.
    pub fn disable_app_cert_verification(&mut self) -> (r: &mut Self)
        ensures
            r.options == tcp_with_common(
                old(self).options,
                (CommonOpts { disable_app_cert_verification: true, ..old(self).options.common_opts }),
            ),
            *final(self) == *final(r),
    {
        self.options.common_opts.disable_app_cert_verification = true;
        self
    }

    /// Sets the TCP address to request for this endpoint.
    pub fn remote_addr(&mut self, remote_addr: &str) -> (r: &mut Self)
        ensures
            opt_view(r.options.remote_addr) == Some(remote_addr@),
            r.options == (TcpOptions { remote_addr: r.options.remote_addr, ..old(self).options }),
            *final(self) == *final(r),
    {
        self.options.remote_addr = Some(owned(remote_addr));
        self
    }

    /// Sets the traffic policy for this endpoint.
    pub fn policy(&mut self, policy: &Policy) -> (r: &mut Self)
        ensures
            r.options.common_opts.policy matches Some(p) && policy_same(p, *policy),
            r.options == tcp_with_common(
                old(self).options,
                (CommonOpts { policy: r.options.common_opts.policy, ..old(self).options.common_opts }),
            ),
            *final(self) == *final(r),
    {
        self.options.common_opts.policy = Some(policy.copy());
        self
    }

    /// Prepares the options for forwarding to a URL: records it as the
    /// "forwards to" text.
    pub fn for_forwarding_to(&mut self, to_url: &UrlParts) -> (r: &mut Self)
        ensures
            common_with_forwards_to(
                old(self).options.common_opts,
                r.options.common_opts,
                to_url.serialization@,
            ),
            r.options == tcp_with_common(old(self).options, r.options.common_opts),
            *final(self) == *final(r),
    {
        self.options.common_opts.forwards_to = Some(copy_string(&to_url.serialization));
        self
    }
}

} // verus!
