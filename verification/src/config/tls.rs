//! TLS endpoints: options, builder, and the bind request they produce.

use vstd::prelude::*;

use crate::config::common::{
    common_allowed, common_denied, common_with_forwards_to, common_with_metadata,
    ip_restriction_for, is_default_common, CommonOpts,
};
use crate::config::http::{bind_extra_for, bind_extra_of, concat_bytes, mutual_tls_of};
use crate::proto::{BindExtra, BindOpts, ProxyProto, SecretBytes, TlsEndpoint, TlsTermination};
use crate::strmap::StringMap;
use crate::text::{copy_bytes, copy_string, opt_view, owned, push_char};
use crate::urls::UrlParts;

verus! {

/// The options of a TLS endpoint.
#[derive(Clone)]
pub struct TlsOptions {
    pub common_opts: CommonOpts,
    /// The domain to request.
    pub domain: Option<String>,
    /// Certificates in PEM format that authenticate clients at the edge.
    pub mutual_tlsca: Vec<Vec<u8>>,
    /// The key in PEM format for TLS termination at the edge.
    pub key_pem: Option<Vec<u8>>,
    /// The certificate in PEM format for TLS termination at the edge.
    pub cert_pem: Option<Vec<u8>>,
}

/// `o` with its common options replaced by `c`.
pub open spec fn tls_with_common(o: TlsOptions, c: CommonOpts) -> TlsOptions {
    TlsOptions { common_opts: c, ..o }
}

/// The wire form of the options of a TLS endpoint: TLS termination only when
/// both a certificate and a key are set.
pub open spec fn tls_endpoint_matches(o: TlsOptions, e: TlsEndpoint) -> bool {
    &&& e.hostname@ == match o.domain {
        Some(d) => d@,
        None => Seq::<char>::empty(),
    }
    &&& e.domain@.len() == 0
    &&& e.subdomain@.len() == 0
    &&& e.proxy_proto == o.common_opts.proxy_proto
    &&& !e.mutual_tls_at_agent
    &&& (if o.mutual_tlsca@.len() == 0 {
        e.mutual_tls_at_edge is None
    } else {
        e.mutual_tls_at_edge matches Some(m) && m.mutual_tls_ca@ == concat_bytes(o.mutual_tlsca@)
    })
    &&& (match (o.cert_pem, o.key_pem) {
        (Some(c), Some(k)) => e.tls_termination matches Some(t) && t.cert@ == c@ && t.key.0@ == k@
            && t.sealed_key@.len() == 0,
        _ => e.tls_termination is None,
    })
    &&& ip_restriction_for(o.common_opts.cidr_restrictions, e.ip_restriction)
    &&& e.traffic_policy is None
}

impl TlsOptions {
    /// The defaults: nothing set.
    pub fn new() -> (r: TlsOptions)
        ensures
            is_default_common(r.common_opts),
            r.domain is None,
            r.mutual_tlsca@.len() == 0,
            r.key_pem is None,
            r.cert_pem is None,
    {
        TlsOptions {
            common_opts: CommonOpts::new(),
            domain: None,
            mutual_tlsca: Vec::new(),
            key_pem: None,
            cert_pem: None,
        }
    }

    /// The "forwards to" text: the one set, or else `default`.
    pub fn forwards_to(&self, default: &str) -> (r: String)
        ensures
            r@ == match self.common_opts.forwards_to {
                Some(f) => f@,
                None => default@,
            },
    {
        self.common_opts.forwards_to_or(default)
    }

    /// The L7 protocol of the upstream: not supported for TLS, so empty.
    pub fn forwards_proto(&self) -> (r: String)
        ensures
            r@.len() == 0,
    {
        String::new()
    }

    /// The bind-request extras.
    pub fn extra(&self) -> (r: BindExtra)
        ensures
            bind_extra_for(self.common_opts, r),
    {
        bind_extra_of(&self.common_opts)
    }

    /// The protocol: `tls`.
    pub fn proto(&self) -> (r: String)
        ensures
            r@ == seq!['t', 'l', 's'],
    {
        let mut r = String::new();
        push_char(&mut r, 't');
        push_char(&mut r, 'l');
        push_char(&mut r, 's');
        r
    }

    /// The bind options: always a TLS endpoint.
    pub fn opts(&self) -> (r: Option<BindOpts>)
        ensures
            r matches Some(BindOpts::Tls(e)) && tls_endpoint_matches(*self, e),
    {
        let mut e = TlsEndpoint::empty();
        match &self.domain {
            Some(d) => {
                e.hostname = copy_string(d);
            },
            None => {
                assert(e.hostname@ =~= Seq::<char>::empty());
            },
        }
        e.proxy_proto = self.common_opts.proxy_proto;
        e.tls_termination = match (&self.cert_pem, &self.key_pem) {
            (Some(c), Some(k)) => Some(
                TlsTermination {
                    cert: copy_bytes(c),
                    key: SecretBytes(copy_bytes(k)),
                    sealed_key: Vec::new(),
                },
            ),
            _ => None,
        };
        e.ip_restriction = self.common_opts.ip_restriction();
        e.mutual_tls_at_edge = if self.mutual_tlsca.len() > 0 {
            Some(mutual_tls_of(&self.mutual_tlsca))
        } else {
            None
        };
        Some(BindOpts::Tls(e))
    }

    /// The labels: none.
    pub fn labels(&self) -> (r: StringMap)
        ensures
            r.view() == Map::<Seq<char>, Seq<char>>::empty(),
    {
        StringMap::new()
    }
}

/// A builder for a tunnel backing a TLS endpoint.
#[derive(Clone)]
pub struct TlsTunnelBuilder {
    /// The options built so far.
    pub options: TlsOptions,
}

impl TlsTunnelBuilder {
    /// A builder holding the default options.
    pub fn new() -> (r: TlsTunnelBuilder)
        ensures
            is_default_common(r.options.common_opts),
            r.options.domain is None,
            r.options.mutual_tlsca@.len() == 0,
            r.options.key_pem is None,
            r.options.cert_pem is None,
    {
        TlsTunnelBuilder { options: TlsOptions::new() }
    }

    /// Adds the provided CIDR to the allowlist.
    pub fn allow_cidr(self, cidr: &str) -> (r: Self)
        ensures
            common_allowed(self.options.common_opts, r.options.common_opts, cidr@),
            r.options == tls_with_common(self.options, r.options.common_opts),
    {
        let mut b = self;
        b.options.common_opts.cidr_restrictions.allow(cidr);
        b
    }

    /// Adds the provided CIDR to the denylist.
    pub fn deny_cidr(self, cidr: &str) -> (r: Self)
        ensures
            common_denied(self.options.common_opts, r.options.common_opts, cidr@),
            r.options == tls_with_common(self.options, r.options.common_opts),
    {
        let mut b = self;
        b.options.common_opts.cidr_restrictions.deny(cidr);
        b
    }

    /// Sets the PROXY protocol version for connections over this tunnel.
    pub fn proxy_proto(self, proxy_proto: ProxyProto) -> (r: Self)
        ensures
            r.options == tls_with_common(
                self.options,
                (CommonOpts { proxy_proto, ..self.options.common_opts }),
            ),
    {
        let mut b = self;
        b.options.common_opts.proxy_proto = proxy_proto;
        b
    }

    /// Sets the opaque metadata string for this tunnel.
    pub fn metadata(self, metadata: &str) -> (r: Self)
        ensures
            common_with_metadata(self.options.common_opts, r.options.common_opts, metadata@),
            r.options == tls_with_common(self.options, r.options.common_opts),
    {
        let mut b = self;
        b.options.common_opts.metadata = Some(owned(metadata));
        b
    }

    /// Sets the "forwards to" text for this tunnel, shown in the API and
    /// dashboard.
    pub fn forwards_to(self, forwards_to: &str) -> (r: Self)
        ensures
            common_with_forwards_to(self.options.common_opts, r.options.common_opts, forwards_to@),
            r.options == tls_with_common(self.options, r.options.common_opts),
    {
        let mut b = self;
        b.options.common_opts.forwards_to = Some(owned(forwards_to));
        b
    }

    /// Sets the domain to request for this endpoint.
    pub fn domain(self, domain: &str) -> (r: Self)
        ensures
            opt_view(r.options.domain) == Some(domain@),
            r.options == (TlsOptions { domain: r.options.domain, ..self.options }),
    {
        let mut b = self;
        b.options.domain = Some(owned(domain));
        b
    }

    /// Adds a certificate in PEM format to use for mutual TLS authentication
    /// of clients at the ngrok edge.
    pub fn mutual_tlsca(self, mutual_tlsca: Vec<u8>) -> (r: Self)
        ensures
            r.options.mutual_tlsca@ == self.options.mutual_tlsca@.push(mutual_tlsca),
            r.options == (TlsOptions { mutual_tlsca: r.options.mutual_tlsca, ..self.options }),
    {
        let mut b = self;
        b.options.mutual_tlsca.push(mutual_tlsca);
        b
    }

    /// Sets the certificate and key in PEM format for TLS termination at the
    /// ngrok edge.
    pub fn termination(self, cert_pem: Vec<u8>, key_pem: Vec<u8>) -> (r: Self)
        ensures
            r.options == (TlsOptions { cert_pem: Some(cert_pem), key_pem: Some(key_pem), ..self.options }),
    {
        let mut b = self;
        b.options.key_pem = Some(key_pem);
        b.options.cert_pem = Some(cert_pem);
        b
    }

    /// Prepares the options for forwarding to a URL: records it as the
    /// "forwards to" text.
    pub fn for_forwarding_to(self, to_url: &UrlParts) -> (r: Self)
        ensures
            common_with_forwards_to(self.options.common_opts, r.options.common_opts, to_url.serialization@),
            r.options == tls_with_common(self.options, r.options.common_opts),
    {
        let mut b = self;
        b.options.common_opts.forwards_to = Some(copy_string(&to_url.serialization));
        b
    }
}

} // verus!
