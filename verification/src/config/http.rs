//! HTTP endpoints: options, builder, and the bind request they produce.

use vstd::prelude::*;

use crate::config::common::{
    common_allowed, common_denied, common_with_forwards_proto, common_with_forwards_to,
    common_with_metadata, ip_restriction_for, is_default_common, text_or_empty, CommonOpts,
};
use crate::config::headers::{header_lines, Headers};
use crate::config::oauth::{oauth_matches, oauth_same, OauthOptions};
use crate::config::oidc::{oidc_matches, oidc_same, OidcOptions};
use crate::config::policies::{policy_same, rules_match, Policy};
use crate::config::webhook_verification::WebhookVerification;
use crate::proto::{
    BasicAuth, BasicAuthCredential, BindExtra, BindOpts, CircuitBreaker, Compression,
    HttpEndpoint, MutualTls, ProxyProto, SecretString, UserAgentFilter, WebsocketTcpConverter,
};
use crate::strmap::{ordered_insert, StringMap};
use crate::text::{
    all_ascii, ascii_lower, copy_string, copy_strings, opt_view, owned, push_char, spec_to_lowercase,
    spec_to_uppercase, string_from_chars, strs_view, to_uppercase,
};
use crate::urls::UrlParts;

verus! {

/// Error for a string that names no URL scheme.
#[derive(Clone, Debug)]
pub struct InvalidSchemeString(pub String);

/// The URL scheme of an HTTP endpoint. `HTTPS` enables TLS termination at
/// the ngrok edge.
#[derive(Clone, Copy, Debug, PartialEq, Eq, Structural)]
pub enum Scheme {
    /// The `http` URL scheme.
    HTTP,
    /// The `https` URL scheme (the default).
    HTTPS,
}

/// `"HTTP"`.
pub open spec fn upper_http() -> Seq<char> {
    seq!['H', 'T', 'T', 'P']
}

/// `"HTTPS"`.
pub open spec fn upper_https() -> Seq<char> {
    seq!['H', 'T', 'T', 'P', 'S']
}

impl Default for Scheme {
    /// `https`.
    fn default() -> (r: Scheme)
        ensures
            r == Scheme::HTTPS,
    {
        Scheme::HTTPS
    }
}

impl Scheme {
    /// Parses a scheme name, ignoring case.
    pub fn from_str(s: &str) -> (r: Result<Scheme, InvalidSchemeString>)
        ensures
            spec_to_uppercase(s@) == upper_http() ==> r == Ok::<Scheme, InvalidSchemeString>(Scheme::HTTP),
            spec_to_uppercase(s@) == upper_https() ==> r == Ok::<Scheme, InvalidSchemeString>(Scheme::HTTPS),
            (spec_to_uppercase(s@) != upper_http() && spec_to_uppercase(s@) != upper_https()) <==> r is Err,
            r matches Err(e) ==> e.0@ == s@,
    {
        let up = to_uppercase(s);
        let a = vec!['H', 'T', 'T', 'P'];
        let b = vec!['H', 'T', 'T', 'P', 'S'];
        assert(a@ =~= upper_http());
        assert(b@ =~= upper_https());
        assert(upper_http().len() != upper_https().len());
        if crate::config::common::str_is(up.as_str(), &a) {
            Ok(Scheme::HTTP)
        } else if crate::config::common::str_is(up.as_str(), &b) {
            Ok(Scheme::HTTPS)
        } else {
            Err(InvalidSchemeString(owned(s)))
        }
    }
}

/// User agent filtering by regular expressions.
#[derive(Clone)]
pub struct UaFilter {
    /// Rejects connections whose user agent matches none of these.
    pub allow: Vec<String>,
    /// Rejects connections whose user agent matches one of these.
    pub deny: Vec<String>,
}

impl UaFilter {
    /// No filtering.
    pub fn new() -> (r: UaFilter)
        ensures
            r.allow@.len() == 0,
            r.deny@.len() == 0,
    {
        UaFilter { allow: Vec::new(), deny: Vec::new() }
    }

    /// Adds a regular expression to the allowlist.
    pub fn allow(&mut self, allow: &str)
        ensures
            strs_view(final(self).allow@) == strs_view(old(self).allow@).push(allow@),
            final(self).deny == old(self).deny,
    {
        let ghost before = self.allow@;
        self.allow.push(owned(allow));
        assert(strs_view(self.allow@) =~= strs_view(before).push(allow@));
    }

    /// Adds a regular expression to the denylist.
    pub fn deny(&mut self, deny: &str)
        ensures
            strs_view(final(self).deny@) == strs_view(old(self).deny@).push(deny@),
            final(self).allow == old(self).allow,
    {
        let ghost before = self.deny@;
        self.deny.push(owned(deny));
        assert(strs_view(self.deny@) =~= strs_view(before).push(deny@));
    }
}

/// The concatenation of byte strings, in order.
pub open spec fn concat_bytes(parts: Seq<Vec<u8>>) -> Seq<u8>
    decreases parts.len(),
{
    if parts.len() == 0 {
        Seq::empty()
    } else {
        concat_bytes(parts.drop_last()) + parts.last()@
    }
}

/// Concatenates PEM certificates into one mutual TLS configuration.
pub fn mutual_tls_of(certs: &Vec<Vec<u8>>) -> (r: MutualTls)
    ensures
        r.mutual_tls_ca@ == concat_bytes(certs@),
{
    let mut agg: Vec<u8> = Vec::new();
    let mut i: usize = 0;
    while i < certs.len()
        invariant
            i <= certs.len(),
            agg@ == concat_bytes(certs@.take(i as int)),
        decreases certs.len() - i,
    {
        let c = &certs[i];
        let mut j: usize = 0;
        let ghost start = agg@;
        while j < c.len()
            invariant
                j <= c.len(),
                agg@ == start + c@.take(j as int),
            decreases c.len() - j,
        {
            agg.push(c[j]);
            j = j + 1;
            assert(agg@ =~= start + c@.take(j as int));
        }
        assert(c@.take(c.len() as int) =~= c@);
        assert(certs@.take(i + 1).drop_last() =~= certs@.take(i as int));
        i = i + 1;
    }
    assert(certs@.take(certs.len() as int) =~= certs@);
    MutualTls { mutual_tls_ca: agg }
}

/// The wire form of basic authentication credentials: one credential per
/// pair, with the password in clear text and no hash.
pub open spec fn basic_auth_matches(v: Seq<(String, String)>, b: BasicAuth) -> bool {
    &&& b.credentials@.len() == v.len()
    &&& forall|i: int|
        0 <= i < v.len() ==> (#[trigger] b.credentials@[i]).username@ == v[i].0@
            && b.credentials@[i].cleartext_password@ == v[i].1@
            && b.credentials@[i].hashed_password@.len() == 0
}

fn basic_auth_of(v: &Vec<(String, String)>) -> (r: BasicAuth)
    ensures
        basic_auth_matches(v@, r),
{
    let mut creds: Vec<BasicAuthCredential> = Vec::new();
    let mut i: usize = 0;
    while i < v.len()
        invariant
            i <= v.len(),
            creds@.len() == i,
            forall|k: int|
                0 <= k < i ==> (#[trigger] creds@[k]).username@ == v@[k].0@
                    && creds@[k].cleartext_password@ == v@[k].1@
                    && creds@[k].hashed_password@.len() == 0,
        decreases v.len() - i,
    {
        creds.push(
            BasicAuthCredential {
                username: v[i].0.clone(),
                cleartext_password: v[i].1.clone(),
                hashed_password: Vec::new(),
            },
        );
        i = i + 1;
    }
    BasicAuth { credentials: creds }
}

/// The options of an HTTP endpoint.
#[derive(Clone)]
pub struct HttpOptions {
    pub common_opts: CommonOpts,
    pub scheme: Scheme,
    pub domain: Option<String>,
    pub mutual_tlsca: Vec<Vec<u8>>,
    pub compression: bool,
    pub websocket_tcp_conversion: bool,
    /// The 5XX response ratio as the bit pattern of a 64-bit float; 0 (or
    /// negative zero) disables the circuit breaker.
    pub circuit_breaker: u64,
    pub request_headers: Headers,
    pub response_headers: Headers,
    pub rewrite_host: bool,
    pub basic_auth: Vec<(String, String)>,
    pub oauth: Option<OauthOptions>,
    pub oidc: Option<OidcOptions>,
    pub webhook_verification: Option<WebhookVerification>,
    pub user_agent_filter: UaFilter,
}

/// Whether the float with these bits differs from zero (`!= 0.0`), which
/// holds for every bit pattern but those of `0.0` and `-0.0`.
pub open spec fn float_bits_nonzero(bits: u64) -> bool {
    bits & 0x7fff_ffff_ffff_ffff != 0
}

/// The wire form of the options of an HTTP endpoint.
pub open spec fn http_endpoint_matches(o: HttpOptions, e: HttpEndpoint) -> bool {
    &&& e.hostname@ == text_or_empty(o.domain)
    &&& e.domain@.len() == 0
    &&& e.auth@.len() == 0
    &&& e.subdomain@.len() == 0
    &&& !e.host_header_rewrite
    &&& e.local_url_scheme is None
    &&& e.proxy_proto == o.common_opts.proxy_proto
    &&& (e.compression is Some <==> o.compression)
    &&& (if float_bits_nonzero(o.circuit_breaker) {
        e.circuit_breaker matches Some(c) && c.error_threshold_bits == o.circuit_breaker
    } else {
        e.circuit_breaker is None
    })
    &&& ip_restriction_for(o.common_opts.cidr_restrictions, e.ip_restriction)
    &&& (if o.basic_auth@.len() == 0 {
        e.basic_auth is None
    } else {
        e.basic_auth matches Some(b) && basic_auth_matches(o.basic_auth@, b)
    })
    &&& (match o.oauth {
        Some(a) => e.oauth matches Some(p) && oauth_matches(a, p),
        None => e.oauth is None,
    })
    &&& (match o.oidc {
        Some(a) => e.oidc matches Some(p) && oidc_matches(a, p),
        None => e.oidc is None,
    })
    &&& (match o.webhook_verification {
        Some(w) => e.webhook_verification matches Some(p) && p.provider@ == w.provider@
            && p.secret.0@ == w.secret.0@ && p.sealed_secret@.len() == 0,
        None => e.webhook_verification is None,
    })
    &&& (if o.mutual_tlsca@.len() == 0 {
        e.mutual_tls_ca is None
    } else {
        e.mutual_tls_ca matches Some(m) && m.mutual_tls_ca@ == concat_bytes(o.mutual_tlsca@)
    })
    &&& headers_match(o.request_headers, e.request_headers)
    &&& headers_match(o.response_headers, e.response_headers)
    &&& (e.websocket_tcp_converter is Some <==> o.websocket_tcp_conversion)
    &&& (if o.user_agent_filter.allow@.len() == 0 && o.user_agent_filter.deny@.len() == 0 {
        e.user_agent_filter is None
    } else {
        e.user_agent_filter matches Some(f) && f.allow@ == o.user_agent_filter.allow@ && f.deny@
            == o.user_agent_filter.deny@
    })
    &&& (match o.common_opts.policy {
        Some(p) => e.policy matches Some(w) && rules_match(p.inbound@, w.inbound@) && rules_match(
            p.outbound@,
            w.outbound@,
        ),
        None => e.policy is None,
    })
    &&& e.traffic_policy is None
}

/// The wire form of header modifications: absent when there are none.
pub open spec fn headers_match(h: Headers, p: Option<crate::proto::Headers>) -> bool {
    if h.added.view().dom().len() == 0 && h.removed@.len() == 0 {
        p is None
    } else {
        p matches Some(w) && strs_view(w.add@) == header_lines(h.added.ordered()) && w.remove@
            == h.removed@ && w.add_parsed.view() == Map::<Seq<char>, Seq<char>>::empty()
    }
}

/// The bind-request extras shared by all tunnel kinds: no token or IP policy,
/// the metadata (empty when unset), no bindings, pooling off unless enabled.
pub open spec fn bind_extra_for(c: CommonOpts, x: BindExtra) -> bool {
    &&& x.token.0@.len() == 0
    &&& x.ip_policy_ref@.len() == 0
    &&& x.metadata@ == text_or_empty(c.metadata)
    &&& x.bindings@.len() == 0
    &&& x.pooling_enabled == (c.pooling_enabled == Some(true))
}

/// Builds the bind-request extras of the common options.
pub fn bind_extra_of(c: &CommonOpts) -> (r: BindExtra)
    ensures
        bind_extra_for(*c, r),
{
    BindExtra {
        token: SecretString::empty(),
        ip_policy_ref: String::new(),
        metadata: c.metadata_text(),
        bindings: Vec::new(),
        pooling_enabled: match c.pooling_enabled {
            Some(b) => b,
            None => false,
        },
    }
}

fn headers_proto(h: &Headers) -> (r: Option<crate::proto::Headers>)
    ensures
        headers_match(*h, r),
{
    if h.has_entries() {
        Some(h.to_proto())
    } else {
        None
    }
}

/// Whether HTTP options hold their defaults: HTTPS, nothing else set.
pub open spec fn is_default_http(r: HttpOptions) -> bool {
    &&& is_default_common(r.common_opts)
    &&& r.scheme == Scheme::HTTPS
    &&& r.domain is None
    &&& r.mutual_tlsca@.len() == 0
    &&& !r.compression
    &&& !r.websocket_tcp_conversion
    &&& r.circuit_breaker == 0
    &&& r.request_headers.added.view() == Map::<Seq<char>, Seq<char>>::empty()
    &&& r.request_headers.added.ordered() == Seq::<(Seq<char>, Seq<char>)>::empty()
    &&& r.request_headers.removed@.len() == 0
    &&& r.response_headers.added.view() == Map::<Seq<char>, Seq<char>>::empty()
    &&& r.response_headers.added.ordered() == Seq::<(Seq<char>, Seq<char>)>::empty()
    &&& r.response_headers.removed@.len() == 0
    &&& !r.rewrite_host
    &&& r.basic_auth@.len() == 0
    &&& r.oauth is None
    &&& r.oidc is None
    &&& r.webhook_verification is None
    &&& r.user_agent_filter.allow@.len() == 0
    &&& r.user_agent_filter.deny@.len() == 0
}

impl HttpOptions {
    /// The defaults: HTTPS, nothing else set.
    pub fn new() -> (r: HttpOptions)
        ensures
            is_default_http(r),
    {
        HttpOptions {
            common_opts: CommonOpts::new(),
            scheme: Scheme::HTTPS,
            domain: None,
            mutual_tlsca: Vec::new(),
            compression: false,
            websocket_tcp_conversion: false,
            circuit_breaker: 0,
            request_headers: Headers::new(),
            response_headers: Headers::new(),
            rewrite_host: false,
            basic_auth: Vec::new(),
            oauth: None,
            oidc: None,
            webhook_verification: None,
            user_agent_filter: UaFilter::new(),
        }
    }

    /// The user agent filter's wire form; absent when there are no rules.
    pub fn user_agent_filter_proto(&self) -> (r: Option<UserAgentFilter>)
        ensures
            if self.user_agent_filter.allow@.len() == 0 && self.user_agent_filter.deny@.len() == 0 {
                r is None
            } else {
                r matches Some(f) && f.allow@ == self.user_agent_filter.allow@ && f.deny@
                    == self.user_agent_filter.deny@
            },
    {
        if self.user_agent_filter.allow.len() > 0 || self.user_agent_filter.deny.len() > 0 {
            Some(
                UserAgentFilter {
                    allow: copy_strings(&self.user_agent_filter.allow),
                    deny: copy_strings(&self.user_agent_filter.deny),
                },
            )
        } else {
            None
        }
    }

    /// The "forwards to" text: the one set, or else `default`.
    pub fn forwards_to(&self, default: &str) -> (r: String)
        ensures
            r@ == match self.common_opts.forwards_to {
                Some(f) => f@,
                None => default@,
            },
    {
        self.common_opts.forwards_to_or(default)
    }

    /// The L7 protocol of the upstream; empty when unset.
    pub fn forwards_proto(&self) -> (r: String)
        ensures
            r@ == text_or_empty(self.common_opts.forwards_proto),
    {
        self.common_opts.forwards_proto_text()
    }

    /// Whether the upstream's TLS certificate is verified.
    pub fn verify_upstream_tls(&self) -> (r: bool)
        ensures
            r == self.common_opts.verify_upstream_tls,
    {
        self.common_opts.verify_upstream_tls
    }

    /// The bind-request extras.
    pub fn extra(&self) -> (r: BindExtra)
        ensures
            bind_extra_for(self.common_opts, r),
    {
        bind_extra_of(&self.common_opts)
    }

    /// The protocol: `http` or `https`, by scheme.
    pub fn proto(&self) -> (r: String)
        ensures
            r@ == if self.scheme == Scheme::HTTP {
                seq!['h', 't', 't', 'p']
            } else {
                seq!['h', 't', 't', 'p', 's']
            },
    {
        let mut r = String::new();
        push_char(&mut r, 'h');
        push_char(&mut r, 't');
        push_char(&mut r, 't');
        push_char(&mut r, 'p');
        if self.scheme != Scheme::HTTP {
            push_char(&mut r, 's');
        }
        r
    }

    /// The bind options: always an HTTP endpoint.
    pub fn opts(&self) -> (r: Option<BindOpts>)
        ensures
            r matches Some(BindOpts::Http(e)) && http_endpoint_matches(*self, e),
    {
        let circuit_breaker = if self.circuit_breaker & 0x7fff_ffff_ffff_ffff != 0 {
            Some(CircuitBreaker { error_threshold_bits: self.circuit_breaker })
        } else {
            None
        };
        let basic_auth = if self.basic_auth.len() > 0 {
            Some(basic_auth_of(&self.basic_auth))
        } else {
            None
        };
        let oauth = match &self.oauth {
            Some(o) => Some(o.to_proto()),
            None => None,
        };
        let oidc = match &self.oidc {
            Some(o) => Some(o.to_proto()),
            None => None,
        };
        let webhook_verification = match &self.webhook_verification {
            Some(w) => Some(w.to_proto()),
            None => None,
        };
        let mutual_tls_ca = if self.mutual_tlsca.len() > 0 {
            Some(mutual_tls_of(&self.mutual_tlsca))
        } else {
            None
        };
        let policy = match &self.common_opts.policy {
            Some(p) => Some(p.to_proto()),
            None => None,
        };
        let hostname = match &self.domain {
            Some(d) => d.clone(),
            None => String::new(),
        };
        let e = HttpEndpoint {
            hostname,
            domain: String::new(),
            auth: String::new(),
            subdomain: String::new(),
            host_header_rewrite: false,
            local_url_scheme: None,
            proxy_proto: self.common_opts.proxy_proto,
            compression: if self.compression {
                Some(Compression {  })
            } else {
                None
            },
            circuit_breaker,
            ip_restriction: self.common_opts.ip_restriction(),
            basic_auth,
            oauth,
            oidc,
            webhook_verification,
            mutual_tls_ca,
            request_headers: headers_proto(&self.request_headers),
            response_headers: headers_proto(&self.response_headers),
            websocket_tcp_converter: if self.websocket_tcp_conversion {
                Some(WebsocketTcpConverter {  })
            } else {
                None
            },
            user_agent_filter: self.user_agent_filter_proto(),
            policy,
            traffic_policy: None,
        };
        Some(BindOpts::Http(e))
    }

    /// The labels: none.
    pub fn labels(&self) -> (r: StringMap)
        ensures
            r.view() == Map::<Seq<char>, Seq<char>>::empty(),
    {
        StringMap::new()
    }
}

/// `o` with its common options replaced by `c`.
pub open spec fn with_common(o: HttpOptions, c: CommonOpts) -> HttpOptions {
    HttpOptions { common_opts: c, ..o }
}

/// A builder for a tunnel backing an HTTP endpoint.
#[derive(Clone)]
pub struct HttpTunnelBuilder {
    /// The options built so far.
    pub options: HttpOptions,
}

impl HttpTunnelBuilder {
    /// A builder holding the default options.
    pub fn new() -> (r: HttpTunnelBuilder)
        ensures
            is_default_http(r.options),
    {
        HttpTunnelBuilder { options: HttpOptions::new() }
    }

    /// Adds the provided CIDR to the allowlist.
    pub fn allow_cidr(&mut self, cidr: &str) -> (r: &mut Self)
        ensures
            common_allowed(old(self).options.common_opts, r.options.common_opts, cidr@),
            r.options == with_common(old(self).options, r.options.common_opts),
            *final(self) == *final(r),
    {
        self.options.common_opts.cidr_restrictions.allow(cidr);
        self
    }

    /// Adds the provided CIDR to the denylist.
    pub fn deny_cidr(&mut self, cidr: &str) -> (r: &mut Self)
        ensures
            common_denied(old(self).options.common_opts, r.options.common_opts, cidr@),
            r.options == with_common(old(self).options, r.options.common_opts),
            *final(self) == *final(r),
    {
        self.options.common_opts.cidr_restrictions.deny(cidr);
        self
    }

    /// Sets the PROXY protocol version for connections over this tunnel.
    pub fn proxy_proto(&mut self, proxy_proto: ProxyProto) -> (r: &mut Self)
        ensures
            r.options == with_common(
                old(self).options,
                (CommonOpts { proxy_proto, ..old(self).options.common_opts }),
            ),
            *final(self) == *final(r),
    {
        self.options.common_opts.proxy_proto = proxy_proto;
        self
    }

    /// Sets the opaque metadata string for this tunnel.
    pub fn metadata(&mut self, metadata: &str) -> (r: &mut Self)
        ensures
            common_with_metadata(old(self).options.common_opts, r.options.common_opts, metadata@),
            r.options == with_common(old(self).options, r.options.common_opts),
            *final(self) == *final(r),
    {
        self.options.common_opts.metadata = Some(owned(metadata));
        self
    }

    /// Sets the "forwards to" text for this tunnel, shown in the API and
    /// dashboard.
    pub fn forwards_to(&mut self, forwards_to: &str) -> (r: &mut Self)
        ensures
            common_with_forwards_to(old(self).options.common_opts, r.options.common_opts, forwards_to@),
            r.options == with_common(old(self).options, r.options.common_opts),
            *final(self) == *final(r),
    {
        self.options.common_opts.forwards_to = Some(owned(forwards_to));
        self
    }

    /// Sets the L7 protocol for this tunnel.
    pub fn app_protocol(&mut self, app_protocol: &str) -> (r: &mut Self)
        ensures
            common_with_forwards_proto(old(self).options.common_opts, r.options.common_opts, app_protocol@),
            r.options == with_common(old(self).options, r.options.common_opts),
            *final(self) == *final(r),
    {
        self.options.common_opts.forwards_proto = Some(owned(app_protocol));
        self
    }

    /// Sets the scheme for this edge.
    pub fn scheme(&mut self, scheme: Scheme) -> (r: &mut Self)
        ensures
            r.options == (HttpOptions { scheme, ..old(self).options }),
            *final(self) == *final(r),
    {
        self.options.scheme = scheme;
        self
    }

    /// Sets the domain to request for this edge.
    pub fn domain(&mut self, domain: &str) -> (r: &mut Self)
        ensures
            opt_view(r.options.domain) == Some(domain@),
            r.options == (HttpOptions { domain: r.options.domain, ..old(self).options }),
            *final(self) == *final(r),
    {
        self.options.domain = Some(owned(domain));
        self
    }

    /// Adds a certificate in PEM format to use for mutual TLS authentication
    /// of clients at the ngrok edge.
    pub fn mutual_tlsca(&mut self, mutual_tlsca: Vec<u8>) -> (r: &mut Self)
        ensures
            r.options.mutual_tlsca@ == old(self).options.mutual_tlsca@.push(mutual_tlsca),
            r.options == (HttpOptions { mutual_tlsca: r.options.mutual_tlsca, ..old(self).options }),
            *final(self) == *final(r),
    {
        self.options.mutual_tlsca.push(mutual_tlsca);
        self
    }

    /// Enables gzip compression.
    pub fn compression(&mut self) -> (r: &mut Self)
        ensures
            r.options == (HttpOptions { compression: true, ..old(self).options }),
            *final(self) == *final(r),
    {
        self.options.compression = true;
        self
    }

    /// Enables the websocket-to-tcp converter.
    pub fn websocket_tcp_conversion(&mut self) -> (r: &mut Self)
        ensures
            r.options == (HttpOptions { websocket_tcp_conversion: true, ..old(self).options }),
            *final(self) == *final(r),
    {
        self.options.websocket_tcp_conversion = true;
        self
    }

    /// Sets the 5XX response ratio at which the ngrok edge stops sending
    /// requests to this tunnel, given as the bit pattern of a 64-bit float.
    pub fn circuit_breaker(&mut self, circuit_breaker: u64) -> (r: &mut Self)
        ensures
            r.options == (HttpOptions { circuit_breaker, ..old(self).options }),
            *final(self) == *final(r),
    {
        self.options.circuit_breaker = circuit_breaker;
        self
    }

    /// Whether to rewrite the host header to the one in the URL traffic is
    /// forwarded to.
    pub fn host_header_rewrite(&mut self, rewrite: bool) -> (r: &mut Self)
        ensures
            r.options == (HttpOptions { rewrite_host: rewrite, ..old(self).options }),
            *final(self) == *final(r),
    {
        self.options.rewrite_host = rewrite;
        self
    }

    /// Adds a header to all requests to this edge.
    pub fn request_header(&mut self, name: &str, value: &str) -> (r: &mut Self)
        ensures
            r.options.request_headers.added.view() == old(self).options.request_headers.added.view().insert(
                spec_to_lowercase(name@),
                value@,
            ),
            !old(self).options.request_headers.added.view().dom().contains(spec_to_lowercase(name@))
                ==> r.options.request_headers.added.ordered()
                == old(self).options.request_headers.added.ordered().push((spec_to_lowercase(name@), value@)),
            r.options.request_headers.added.ordered() == ordered_insert(
                old(self).options.request_headers.added.ordered(),
                spec_to_lowercase(name@),
                value@,
            ),
            r.options.request_headers.removed == old(self).options.request_headers.removed,
            r.options == (HttpOptions { request_headers: r.options.request_headers, ..old(self).options }),
            all_ascii(name@) ==> spec_to_lowercase(name@) == name@.map_values(|c: char| ascii_lower(c)),
            *final(self) == *final(r),
    {
        self.options.request_headers.add(name, value);
        self
    }

    /// Adds a header to all responses coming from this edge.
    pub fn response_header(&mut self, name: &str, value: &str) -> (r: &mut Self)
        ensures
            r.options.response_headers.added.view() == old(self).options.response_headers.added.view().insert(
                spec_to_lowercase(name@),
                value@,
            ),
            !old(self).options.response_headers.added.view().dom().contains(spec_to_lowercase(name@))
                ==> r.options.response_headers.added.ordered()
                == old(self).options.response_headers.added.ordered().push((spec_to_lowercase(name@), value@)),
            r.options.response_headers.added.ordered() == ordered_insert(
                old(self).options.response_headers.added.ordered(),
                spec_to_lowercase(name@),
                value@,
            ),
            r.options.response_headers.removed == old(self).options.response_headers.removed,
            r.options == (HttpOptions { response_headers: r.options.response_headers, ..old(self).options }),
            all_ascii(name@) ==> spec_to_lowercase(name@) == name@.map_values(|c: char| ascii_lower(c)),
            *final(self) == *final(r),
    {
        self.options.response_headers.add(name, value);
        self
    }

    /// Removes a header from requests to this edge.
    pub fn remove_request_header(&mut self, name: &str) -> (r: &mut Self)
        ensures
            strs_view(r.options.request_headers.removed@) == strs_view(
                old(self).options.request_headers.removed@,
            ).push(spec_to_lowercase(name@)),
            r.options.request_headers.added == old(self).options.request_headers.added,
            r.options == (HttpOptions { request_headers: r.options.request_headers, ..old(self).options }),
            all_ascii(name@) ==> spec_to_lowercase(name@) == name@.map_values(|c: char| ascii_lower(c)),
            *final(self) == *final(r),
    {
        self.options.request_headers.remove(name);
        self
    }

    /// Removes a header from responses from this edge.
    pub fn remove_response_header(&mut self, name: &str) -> (r: &mut Self)
        ensures
            strs_view(r.options.response_headers.removed@) == strs_view(
                old(self).options.response_headers.removed@,
            ).push(spec_to_lowercase(name@)),
            r.options.response_headers.added == old(self).options.response_headers.added,
            r.options == (HttpOptions { response_headers: r.options.response_headers, ..old(self).options }),
            all_ascii(name@) ==> spec_to_lowercase(name@) == name@.map_values(|c: char| ascii_lower(c)),
            *final(self) == *final(r),
    {
        self.options.response_headers.remove(name);
        self
    }

    /// Adds the provided credentials to the list of basic authentication
    /// credentials.
    pub fn basic_auth(&mut self, username: &str, password: &str) -> (r: &mut Self)
        ensures
            r.options.basic_auth@.len() == old(self).options.basic_auth@.len() + 1,
            r.options.basic_auth@.drop_last() == old(self).options.basic_auth@,
            r.options.basic_auth@.last().0@ == username@,
            r.options.basic_auth@.last().1@ == password@,
            r.options == (HttpOptions { basic_auth: r.options.basic_auth, ..old(self).options }),
            *final(self) == *final(r),
    {
        let ghost before = self.options.basic_auth@;
        self.options.basic_auth.push((owned(username), owned(password)));
        assert(self.options.basic_auth@.drop_last() =~= before);
        self
    }

    /// Sets the OAuth configuration for this edge.
    pub fn oauth(&mut self, oauth: &OauthOptions) -> (r: &mut Self)
        ensures
            r.options.oauth matches Some(o) && oauth_same(o, *oauth),
            r.options == (HttpOptions { oauth: r.options.oauth, ..old(self).options }),
            *final(self) == *final(r),
    {
        self.options.oauth = Some(oauth.copy());
        self
    }

    /// Sets the OIDC configuration for this edge.
    pub fn oidc(&mut self, oidc: &OidcOptions) -> (r: &mut Self)
        ensures
            r.options.oidc matches Some(o) && oidc_same(o, *oidc),
            r.options == (HttpOptions { oidc: r.options.oidc, ..old(self).options }),
            *final(self) == *final(r),
    {
        self.options.oidc = Some(oidc.copy());
        self
    }

    /// Configures webhook verification for this edge.
    pub fn webhook_verification(&mut self, provider: &str, secret: &str) -> (r: &mut Self)
        ensures
            r.options.webhook_verification matches Some(w) && w.provider@ == provider@ && w.secret.0@
                == secret@,
            r.options == (HttpOptions { webhook_verification: r.options.webhook_verification, ..old(self).options }),
            *final(self) == *final(r),
    {
        self.options.webhook_verification = Some(WebhookVerification::new(provider, secret));
        self
    }

    /// Adds the provided regular expression to the user agent allowlist.
    pub fn allow_user_agent(&mut self, regex: &str) -> (r: &mut Self)
        ensures
            strs_view(r.options.user_agent_filter.allow@) == strs_view(
                old(self).options.user_agent_filter.allow@,
            ).push(regex@),
            r.options.user_agent_filter.deny == old(self).options.user_agent_filter.deny,
            r.options == (HttpOptions { user_agent_filter: r.options.user_agent_filter, ..old(self).options }),
            *final(self) == *final(r),
    {
        self.options.user_agent_filter.allow(regex);
        self
    }

    /// Adds the provided regular expression to the user agent denylist.
    pub fn deny_user_agent(&mut self, regex: &str) -> (r: &mut Self)
        ensures
            strs_view(r.options.user_agent_filter.deny@) == strs_view(
                old(self).options.user_agent_filter.deny@,
            ).push(regex@),
            r.options.user_agent_filter.allow == old(self).options.user_agent_filter.allow,
            r.options == (HttpOptions { user_agent_filter: r.options.user_agent_filter, ..old(self).options }),
            *final(self) == *final(r),
    {
        self.options.user_agent_filter.deny(regex);
        self
    }

    /// Sets the traffic policy for this edge.
    pub fn policies(&mut self, policy: &Policy) -> (r: &mut Self)
        ensures
            r.options.common_opts.policy matches Some(p) && policy_same(p, *policy),
            r.options == with_common(
                old(self).options,
                (CommonOpts { policy: r.options.common_opts.policy, ..old(self).options.common_opts }),
            ),
            *final(self) == *final(r),
    {
        self.options.common_opts.policy = Some(policy.copy());
        self
    }

    /// Prepares the options for forwarding to a URL: records it as the
    /// "forwards to" text and, when host header rewriting is on and the URL
    /// has a host, adds a `host` request header with it.
    pub fn for_forwarding_to(&mut self, to_url: &UrlParts) -> (r: &mut Self)
        ensures
            common_with_forwards_to(
                old(self).options.common_opts,
                r.options.common_opts,
                to_url.serialization@,
            ),
            match to_url.host {
                Some(h) if old(self).options.rewrite_host => {
                    &&& r.options.request_headers.added.view()
                        == old(self).options.request_headers.added.view().insert(
                        spec_to_lowercase(seq!['h', 'o', 's', 't']),
                        h@,
                    )
                    &&& r.options.request_headers.added.ordered() == ordered_insert(
                        old(self).options.request_headers.added.ordered(),
                        spec_to_lowercase(seq!['h', 'o', 's', 't']),
                        h@,
                    )
                    &&& r.options.request_headers.removed == old(self).options.request_headers.removed
                    &&& r.options == (HttpOptions {
                        common_opts: r.options.common_opts,
                        request_headers: r.options.request_headers,
                        ..old(self).options
                    })
                },
                _ => r.options == with_common(old(self).options, r.options.common_opts),
            },
            old(self).options.rewrite_host && to_url.host is Some ==> spec_to_lowercase(seq!['h', 'o', 's', 't']) == seq!['h', 'o', 's', 't'],
            *final(self) == *final(r),
    {
        self.options.common_opts.forwards_to = Some(copy_string(&to_url.serialization));
        if self.options.rewrite_host {
            match &to_url.host {
                Some(h) => {
                    let name = vec!['h', 'o', 's', 't'];
                    let name = string_from_chars(&name);
                    self.options.request_headers.add(name.as_str(), h.as_str());
                },
                None => {},
            }
        }
        self
    }
}

} // verus!
