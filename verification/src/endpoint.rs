//! Endpoints: options, upstreams, and the choice of tunnel kind that an
//! endpoint URL makes.

use vstd::prelude::*;

use crate::config::common::text_or_empty;
use crate::proto::{
    BindExtra, BindOpts, ErrResp, HttpEndpoint, PolicyWrapper, ProxyProto, SecretString,
    TcpEndpoint, TlsEndpoint, http_endpoint_is_empty,
};
use crate::strmap::StringMap;
use crate::text::{
    copy_opt_string, copy_string, copy_strings, decimal, opt_view, owned, push_char, push_decimal, push_str,
    spec_to_lowercase, to_lowercase,
};
use crate::urls::{parse_url, spec_parse_url, UrlModel, UrlParts};

verus! {

/// Options for configuring an ngrok endpoint. The protocol is inferred from
/// the URL scheme.
#[derive(Clone, Debug)]
pub struct EndpointOptions {
    /// The URL for this endpoint: `https://` or `http://` for HTTP, `tcp://`
    /// for TCP, `tls://` for TLS.
    pub url: Option<String>,
    /// Traffic policy as a YAML or JSON string.
    pub traffic_policy: Option<String>,
    /// Opaque metadata string.
    pub metadata: Option<String>,
    /// Human-readable description.
    pub description: Option<String>,
    /// Binding configuration (e.g. "public", "internal").
    pub bindings: Vec<String>,
    /// Whether endpoint pooling is enabled.
    pub pooling_enabled: Option<bool>,
}

impl Default for EndpointOptions {
    /// No options set.
    fn default() -> (r: EndpointOptions)
        ensures
            r.url is None,
            r.traffic_policy is None,
            r.metadata is None,
            r.description is None,
            r.bindings@.len() == 0,
            r.pooling_enabled is None,
    {
        EndpointOptions::new()
    }
}

impl EndpointOptions {
    /// Nothing set.
    pub fn new() -> (r: EndpointOptions)
        ensures
            r.url is None,
            r.traffic_policy is None,
            r.metadata is None,
            r.description is None,
            r.bindings@.len() == 0,
            r.pooling_enabled is None,
    {
        EndpointOptions {
            url: None,
            traffic_policy: None,
            metadata: None,
            description: None,
            bindings: Vec::new(),
            pooling_enabled: None,
        }
    }

    /// Sets the endpoint URL.
    pub fn url(self, url: &str) -> (r: EndpointOptions)
        ensures
            opt_view(r.url) == Some(url@),
            r == (EndpointOptions { url: r.url, ..self }),
    {
        EndpointOptions { url: Some(owned(url)), ..self }
    }

    /// Sets the traffic policy.
    pub fn traffic_policy(self, policy: &str) -> (r: EndpointOptions)
        ensures
            opt_view(r.traffic_policy) == Some(policy@),
            r == (EndpointOptions { traffic_policy: r.traffic_policy, ..self }),
    {
        EndpointOptions { traffic_policy: Some(owned(policy)), ..self }
    }

    /// Sets the metadata.
    pub fn metadata(self, meta: &str) -> (r: EndpointOptions)
        ensures
            opt_view(r.metadata) == Some(meta@),
            r == (EndpointOptions { metadata: r.metadata, ..self }),
    {
        EndpointOptions { metadata: Some(owned(meta)), ..self }
    }

    /// Sets the description.
    pub fn description(self, desc: &str) -> (r: EndpointOptions)
        ensures
            opt_view(r.description) == Some(desc@),
            r == (EndpointOptions { description: r.description, ..self }),
    {
        EndpointOptions { description: Some(owned(desc)), ..self }
    }

    /// Replaces the bindings.
    pub fn bindings(self, bindings: Vec<String>) -> (r: EndpointOptions)
        ensures
            r.bindings == bindings,
            r == (EndpointOptions { bindings: r.bindings, ..self }),
    {
        EndpointOptions { bindings, ..self }
    }

    /// Enables or disables endpoint pooling.
    pub fn pooling_enabled(self, enabled: bool) -> (r: EndpointOptions)
        ensures
            r.pooling_enabled == Some(enabled),
            r == (EndpointOptions { pooling_enabled: Some(enabled), ..self }),
    {
        EndpointOptions { pooling_enabled: Some(enabled), ..self }
    }
}

/// The upstream (backend) service that traffic is forwarded to.
#[derive(Clone, Debug)]
pub struct Upstream {
    /// A `host:port` pair or a URL.
    pub addr: String,
    /// The application protocol, e.g. "http2".
    pub protocol: Option<String>,
    /// The PROXY protocol version to use when forwarding.
    pub proxy_proto: Option<ProxyProto>,
    /// Whether to verify the upstream's TLS certificate (default: yes).
    pub verify_upstream_tls: Option<bool>,
}

impl Upstream {
    /// An upstream at the given address, with nothing else set.
    pub fn new(addr: &str) -> (r: Upstream)
        ensures
            r.addr@ == addr@,
            r.protocol is None,
            r.proxy_proto is None,
            r.verify_upstream_tls is None,
    {
        Upstream { addr: owned(addr), protocol: None, proxy_proto: None, verify_upstream_tls: None }
    }

    /// Sets the application protocol.
    pub fn protocol(self, proto: &str) -> (r: Upstream)
        ensures
            opt_view(r.protocol) == Some(proto@),
            r == (Upstream { protocol: r.protocol, ..self }),
    {
        Upstream { protocol: Some(owned(proto)), ..self }
    }

    /// Sets the PROXY protocol version.
    pub fn proxy_proto(self, version: ProxyProto) -> (r: Upstream)
        ensures
            r == (Upstream { proxy_proto: Some(version), ..self }),
    {
        Upstream { proxy_proto: Some(version), ..self }
    }

    /// Sets whether the upstream's TLS certificate is verified.
    pub fn verify_upstream_tls(self, verify: bool) -> (r: Upstream)
        ensures
            r == (Upstream { verify_upstream_tls: Some(verify), ..self }),
    {
        Upstream { verify_upstream_tls: Some(verify), ..self }
    }
}

/// Endpoint options as used when binding a tunnel.
#[derive(Clone)]
pub struct InternalEndpointOpts {
    pub traffic_policy: Option<String>,
    pub metadata: Option<String>,
    pub bindings: Vec<String>,
    pub pooling_enabled: Option<bool>,
    pub forwards_to: Option<String>,
    pub forwards_proto: Option<String>,
    pub verify_upstream_tls: bool,
}

impl InternalEndpointOpts {
    /// Takes over the policy, metadata, bindings and pooling; no forwarding
    /// target, and upstream TLS verified.
    pub fn from_endpoint_options(opts: &EndpointOptions) -> (r: InternalEndpointOpts)
        ensures
            opt_view(r.traffic_policy) == opt_view(opts.traffic_policy),
            opt_view(r.metadata) == opt_view(opts.metadata),
            r.bindings@ == opts.bindings@,
            r.pooling_enabled == opts.pooling_enabled,
            r.forwards_to is None,
            r.forwards_proto is None,
            r.verify_upstream_tls,
    {
        InternalEndpointOpts {
            traffic_policy: copy_opt_string(&opts.traffic_policy),
            metadata: copy_opt_string(&opts.metadata),
            bindings: copy_strings(&opts.bindings),
            pooling_enabled: opts.pooling_enabled,
            forwards_to: None,
            forwards_proto: None,
            verify_upstream_tls: true,
        }
    }

    /// Forwards to the given URL and takes over the upstream's protocol and
    /// TLS verification choice, where set.
    pub fn for_upstream(self, to_url: &UrlParts, upstream: &Upstream) -> (r: InternalEndpointOpts)
        ensures
            opt_view(r.forwards_to) == Some(to_url.serialization@),
            opt_view(r.forwards_proto) == match upstream.protocol {
                Some(p) => Some(p@),
                None => opt_view(self.forwards_proto),
            },
            r.verify_upstream_tls == match upstream.verify_upstream_tls {
                Some(v) => v,
                None => self.verify_upstream_tls,
            },
            r.traffic_policy == self.traffic_policy,
            r.metadata == self.metadata,
            r.bindings == self.bindings,
            r.pooling_enabled == self.pooling_enabled,
    {
        let mut o = self;
        o.forwards_to = Some(to_url.serialization.clone());
        match &upstream.protocol {
            Some(p) => {
                o.forwards_proto = Some(p.clone());
            },
            None => {},
        }
        match upstream.verify_upstream_tls {
            Some(v) => {
                o.verify_upstream_tls = v;
            },
            None => {},
        }
        o
    }

    /// The "forwards to" text: the one set, or else `default`.
    pub fn forwards_to_or(&self, default: &str) -> (r: String)
        ensures
            r@ == match self.forwards_to {
                Some(f) => f@,
                None => default@,
            },
    {
        match &self.forwards_to {
            Some(f) => f.clone(),
            None => owned(default),
        }
    }

    /// The bind-request extras: metadata (empty when unset), bindings, and
    /// pooling (off unless enabled).
    pub fn extra(&self) -> (r: BindExtra)
        ensures
            endpoint_extra_for(*self, r),
    {
        BindExtra {
            token: SecretString::empty(),
            ip_policy_ref: String::new(),
            metadata: match &self.metadata {
                Some(m) => m.clone(),
                None => String::new(),
            },
            bindings: copy_strings(&self.bindings),
            pooling_enabled: match self.pooling_enabled {
                Some(b) => b,
                None => false,
            },
        }
    }

    /// The traffic policy in its wire form.
    fn policy_wrapper(&self) -> (r: Option<PolicyWrapper>)
        ensures
            policy_wrapper_for(self.traffic_policy, r),
    {
        match &self.traffic_policy {
            Some(tp) => Some(PolicyWrapper::String(tp.clone())),
            None => None,
        }
    }
}

/// The wire form of an optional traffic policy.
pub open spec fn policy_wrapper_for(tp: Option<String>, w: Option<PolicyWrapper>) -> bool {
    match tp {
        Some(t) => w matches Some(PolicyWrapper::String(x)) && x@ == t@,
        None => w is None,
    }
}

/// The bind-request extras of endpoint options.
pub open spec fn endpoint_extra_for(o: InternalEndpointOpts, x: BindExtra) -> bool {
    &&& x.token.0@.len() == 0
    &&& x.ip_policy_ref@.len() == 0
    &&& x.metadata@ == text_or_empty(o.metadata)
    &&& x.bindings@ == o.bindings@
    &&& x.pooling_enabled == (o.pooling_enabled == Some(true))
}

/// An HTTP endpoint's tunnel configuration.
#[derive(Clone)]
pub struct HttpInternalConfig {
    pub domain: Option<String>,
    pub scheme: String,
    pub inner: InternalEndpointOpts,
}

/// A TCP endpoint's tunnel configuration.
#[derive(Clone)]
pub struct TcpInternalConfig {
    pub remote_addr: Option<String>,
    pub inner: InternalEndpointOpts,
}

/// A TLS endpoint's tunnel configuration.
#[derive(Clone)]
pub struct TlsInternalConfig {
    pub domain: Option<String>,
    pub inner: InternalEndpointOpts,
}

impl HttpInternalConfig {
    /// The protocol: the URL's scheme.
    pub fn proto(&self) -> (r: String)
        ensures
            r@ == self.scheme@,
    {
        self.scheme.clone()
    }

    /// The L7 protocol of the upstream; empty when unset.
    pub fn forwards_proto(&self) -> (r: String)
        ensures
            r@ == text_or_empty(self.inner.forwards_proto),
    {
        match &self.inner.forwards_proto {
            Some(p) => p.clone(),
            None => String::new(),
        }
    }

    /// The bind options: an HTTP endpoint with the domain and traffic policy.
    pub fn opts(&self) -> (r: Option<BindOpts>)
        ensures
            r matches Some(BindOpts::Http(e)) && e.domain@ == text_or_empty(self.domain)
                && policy_wrapper_for(self.inner.traffic_policy, e.traffic_policy)
                && http_endpoint_is_empty(HttpEndpoint { domain: e.hostname, traffic_policy: None, ..e }),
    {
        let mut e = HttpEndpoint::empty();
        match &self.domain {
            Some(d) => {
                e.domain = d.clone();
            },
            None => {},
        }
        e.traffic_policy = self.inner.policy_wrapper();
        Some(BindOpts::Http(e))
    }

    /// The labels: none.
    pub fn labels(&self) -> (r: StringMap)
        ensures
            r.view() == Map::<Seq<char>, Seq<char>>::empty(),
    {
        StringMap::new()
    }
}

impl TcpInternalConfig {
    /// The protocol: `tcp`.
    pub fn proto(&self) -> (r: String)
        ensures
            r@ == seq!['t', 'c', 'p'],
    {
        let mut r = String::new();
        push_char(&mut r, 't');
        push_char(&mut r, 'c');
        push_char(&mut r, 'p');
        r
    }

    /// The L7 protocol: not supported for TCP, always empty.
    pub fn forwards_proto(&self) -> (r: String)
        ensures
            r@ == Seq::<char>::empty(),
    {
        String::new()
    }

    /// The bind options: a TCP endpoint with the address and traffic policy.
    pub fn opts(&self) -> (r: Option<BindOpts>)
        ensures
            r matches Some(BindOpts::Tcp(e)) && e.addr@ == text_or_empty(self.remote_addr)
                && policy_wrapper_for(self.inner.traffic_policy, e.traffic_policy)
                && e.proxy_proto == ProxyProto::Disabled && e.ip_restriction is None
                && e.policy is None,
    {
        let mut e = TcpEndpoint::empty();
        match &self.remote_addr {
            Some(a) => {
                e.addr = a.clone();
            },
            None => {},
        }
        e.traffic_policy = self.inner.policy_wrapper();
        Some(BindOpts::Tcp(e))
    }

    /// The labels: none.
    pub fn labels(&self) -> (r: StringMap)
        ensures
            r.view() == Map::<Seq<char>, Seq<char>>::empty(),
    {
        StringMap::new()
    }
}

impl TlsInternalConfig {
    /// The protocol: `tls`.
    pub fn proto(&self) -> (r: String)
        ensures
            r@ == seq!['t', 'l', 's'],
    {
        let mut r = String::new();
        push_char(&mut r, 't');
        push_char(&mut r, 'l');
        push_char(&mut r, 's');
        r
    }

    /// The L7 protocol: not supported for TLS, always empty.
    pub fn forwards_proto(&self) -> (r: String)
        ensures
            r@ == Seq::<char>::empty(),
    {
        String::new()
    }

    /// The bind options: a TLS endpoint with the domain and traffic policy.
    pub fn opts(&self) -> (r: Option<BindOpts>)
        ensures
            r matches Some(BindOpts::Tls(e)) && e.domain@ == text_or_empty(self.domain)
                && policy_wrapper_for(self.inner.traffic_policy, e.traffic_policy)
                && e.hostname@.len() == 0 && e.proxy_proto == ProxyProto::Disabled
                && e.tls_termination is None && e.mutual_tls_at_edge is None
                && e.ip_restriction is None,
    {
        let mut e = TlsEndpoint::empty();
        match &self.domain {
            Some(d) => {
                e.domain = d.clone();
            },
            None => {},
        }
        e.traffic_policy = self.inner.policy_wrapper();
        Some(BindOpts::Tls(e))
    }

    /// The labels: none.
    pub fn labels(&self) -> (r: StringMap)
        ensures
            r.view() == Map::<Seq<char>, Seq<char>>::empty(),
    {
        StringMap::new()
    }
}

} // verus!

verus! {

/// `"tcp"`.
pub open spec fn tcp_text() -> Seq<char> {
    seq!['t', 'c', 'p']
}

/// `"tls"`.
pub open spec fn tls_text() -> Seq<char> {
    seq!['t', 'l', 's']
}

/// `"http"`.
pub open spec fn http_text() -> Seq<char> {
    seq!['h', 't', 't', 'p']
}

/// `"https"`.
pub open spec fn https_text() -> Seq<char> {
    seq!['h', 't', 't', 'p', 's']
}

/// The host and port of a TCP endpoint URL: `host:port`, or the host alone
/// when there is no port, or nothing when there is neither.
pub open spec fn tcp_host_port(host: Option<Seq<char>>, port: Option<u16>) -> Option<Seq<char>> {
    let h = match host {
        Some(h) => h,
        None => Seq::<char>::empty(),
    };
    if h.len() == 0 && port is None {
        None
    } else {
        match port {
            Some(p) => Some(h + seq![':'] + decimal(p as nat)),
            None => Some(h),
        }
    }
}

/// What an endpoint URL denotes: its lower-cased scheme and the host (and
/// for TCP the port) to request, or the error message.
pub open spec fn endpoint_url_of(url: Seq<char>) -> Result<(Seq<char>, Option<Seq<char>>), Seq<char>> {
    match spec_parse_url(url) {
        Err(e) => Err("invalid endpoint URL '"@ + url + "': "@ + e),
        Ok(m) => {
            let scheme = spec_to_lowercase(m.1);
            if scheme == tcp_text() {
                Ok((scheme, tcp_host_port(m.2, m.3)))
            } else if scheme == https_text() || scheme == http_text() || scheme == tls_text() {
                Ok((scheme, m.2))
            } else {
                Err("unsupported endpoint URL scheme '"@ + scheme + "'. Supported: https, http, tcp, tls"@)
            }
        },
    }
}

/// An endpoint URL keeps its own scheme: whenever it is accepted, the scheme
/// chosen is the URL's scheme lower-cased, one of `https`, `http`, `tcp` and
/// `tls`; the host is the URL's own for all but TCP.
pub proof fn lemma_endpoint_scheme_is_the_urls(url: Seq<char>)
    ensures
        endpoint_url_of(url) matches Ok((s, host)) ==> (spec_parse_url(url) matches Ok(m) && s
            == spec_to_lowercase(m.1) && (s == https_text() || s == http_text() || s == tcp_text() || s
            == tls_text()) && (s != tcp_text() ==> host == m.2)),
{
}

/// An error response with the given message and no code.
pub fn make_rpc_error(msg: String) -> (r: ErrResp)
    ensures
        r.msg == msg,
        r.error_code is None,
{
    ErrResp { msg, error_code: None }
}

/// Splits an endpoint URL into its lower-cased scheme and the host (and for
/// TCP the port) to request.
pub fn parse_endpoint_url(url: &str) -> (r: Result<(String, Option<String>), ErrResp>)
    ensures
        match r {
            Ok((s, h)) => endpoint_url_of(url@) == Ok::<(Seq<char>, Option<Seq<char>>), Seq<char>>((s@, opt_view(h))),
            Err(e) => endpoint_url_of(url@) == Err::<(Seq<char>, Option<Seq<char>>), Seq<char>>(e.msg@)
                && e.error_code is None,
        },
{
    let parsed = match parse_url(url) {
        Ok(u) => u,
        Err(e) => {
            let mut m = String::new();
            push_str(&mut m, "invalid endpoint URL '");
            push_str(&mut m, url);
            push_str(&mut m, "': ");
            push_str(&mut m, e.as_str());
            return Err(make_rpc_error(m));
        },
    };
    let ghost m = parsed.model();
    let scheme = to_lowercase(parsed.scheme.as_str());
    assert(scheme@ == spec_to_lowercase(m.1));
    let tcp = vec!['t', 'c', 'p'];
    let tls = vec!['t', 'l', 's'];
    let http = vec!['h', 't', 't', 'p'];
    let https = vec!['h', 't', 't', 'p', 's'];
    assert(tcp@ =~= tcp_text());
    assert(tls@ =~= tls_text());
    assert(http@ =~= http_text());
    assert(https@ =~= https_text());
    if crate::config::common::str_is(scheme.as_str(), &tcp) {
        let host = match &parsed.host {
            Some(h) => copy_string(h),
            None => String::new(),
        };
        let ghost h = match m.2 {
            Some(x) => x,
            None => Seq::<char>::empty(),
        };
        assert(host@ == h);
        let host_port = if host.as_str().unicode_len() == 0 && parsed.port.is_none() {
            None
        } else {
            match parsed.port {
                Some(p) => {
                    let mut hp = copy_string(&host);
                    push_char(&mut hp, ':');
                    push_decimal(&mut hp, p as u128);
                    assert(hp@ =~= h + seq![':'] + decimal(p as nat));
                    Some(hp)
                },
                None => Some(host),
            }
        };
        assert(opt_view(host_port) == tcp_host_port(m.2, m.3));
        Ok((scheme, host_port))
    } else if crate::config::common::str_is(scheme.as_str(), &https) || crate::config::common::str_is(
        scheme.as_str(),
        &http,
    ) || crate::config::common::str_is(scheme.as_str(), &tls) {
        let h = copy_opt_string(&parsed.host);
        assert(opt_view(h) == m.2);
        Ok((scheme, h))
    } else {
        let mut m = String::new();
        push_str(&mut m, "unsupported endpoint URL scheme '");
        push_str(&mut m, scheme.as_str());
        push_str(&mut m, "'. Supported: https, http, tcp, tls");
        Err(make_rpc_error(m))
    }
}

/// The tunnel configuration an endpoint is bound with.
#[derive(Clone)]
pub enum EndpointTunnelConfig {
    Http(HttpInternalConfig),
    Tcp(TcpInternalConfig),
    Tls(TlsInternalConfig),
}

/// Chooses the tunnel kind from the endpoint URL's scheme: HTTP(S) with the
/// URL's host as domain, TCP with `host:port` as address, TLS with the host
/// as domain. Without a URL, an HTTPS endpoint with a random domain.
pub fn endpoint_tunnel_config(url: &Option<String>, inner: InternalEndpointOpts) -> (r: Result<
    EndpointTunnelConfig,
    ErrResp,
>)
    ensures
        match url {
            None => r matches Ok(EndpointTunnelConfig::Http(c)) && c.domain is None && c.scheme@
                == https_text() && c.inner == inner,
            Some(u) => match endpoint_url_of(u@) {
                Err(m) => r matches Err(e) && e.msg@ == m && e.error_code is None,
                Ok((scheme, hp)) => if scheme == tcp_text() {
                    r matches Ok(EndpointTunnelConfig::Tcp(c)) && opt_view(c.remote_addr) == hp
                        && c.inner == inner
                } else if scheme == tls_text() {
                    r matches Ok(EndpointTunnelConfig::Tls(c)) && opt_view(c.domain) == hp
                        && c.inner == inner
                } else {
                    r matches Ok(EndpointTunnelConfig::Http(c)) && opt_view(c.domain) == hp
                        && c.scheme@ == scheme && c.inner == inner
                },
            },
        },
{
    match url {
        None => {
            let mut scheme = String::new();
            push_str(&mut scheme, "https");
            proof {
                reveal_strlit("https");
                assert(scheme@ =~= https_text());
            }
            Ok(EndpointTunnelConfig::Http(HttpInternalConfig { domain: None, scheme, inner }))
        },
        Some(u) => {
            let (scheme, host_port) = parse_endpoint_url(u.as_str())?;
            let tcp = vec!['t', 'c', 'p'];
            let tls = vec!['t', 'l', 's'];
            assert(tcp@ =~= tcp_text());
            assert(tls@ =~= tls_text());
            if crate::config::common::str_is(scheme.as_str(), &tcp) {
                Ok(EndpointTunnelConfig::Tcp(TcpInternalConfig { remote_addr: host_port, inner }))
            } else if crate::config::common::str_is(scheme.as_str(), &tls) {
                Ok(EndpointTunnelConfig::Tls(TlsInternalConfig { domain: host_port, inner }))
            } else {
                Ok(EndpointTunnelConfig::Http(HttpInternalConfig { domain: host_port, scheme, inner }))
            }
        },
    }
}

/// Whether a text holds `://`, the separator that follows a URL's scheme.
pub open spec fn has_scheme_separator(s: Seq<char>) -> bool {
    exists|i: int| 0 <= i && i + 3 <= s.len() && #[trigger] s.subrange(i, i + 3) == seq![':', '/', '/']
}

/// The URL `http://` followed by an address denotes, if any.
pub open spec fn http_url_of(addr: Seq<char>) -> Option<UrlModel> {
    match spec_parse_url("http://"@ + addr) {
        Ok(m) => Some(m),
        Err(_) => None,
    }
}

/// The URL traffic is forwarded to for an upstream address: an address with
/// a scheme (`scheme://...`) is taken as the URL when it parses; any other
/// address, such as a `host:port` pair, is reached over `http://`. `None`
/// when no URL comes of it.
pub open spec fn forward_url_of(addr: Seq<char>) -> Option<UrlModel> {
    if has_scheme_separator(addr) {
        match spec_parse_url(addr) {
            Ok(m) => Some(m),
            Err(_) => http_url_of(addr),
        }
    } else {
        http_url_of(addr)
    }
}

/// Whether a text holds `://`.
fn contains_scheme_separator(addr: &str) -> (r: bool)
    ensures
        r == has_scheme_separator(addr@),
{
    let cs = crate::text::chars_of(addr);
    let n = cs.len();
    if n < 3 {
        proof {
            assert forall|i: int| 0 <= i && i + 3 <= addr@.len() implies #[trigger] addr@.subrange(i, i + 3)
                != seq![':', '/', '/'] by {}
        }
        return false;
    }
    let mut i: usize = 0;
    while i < n - 2
        invariant
            cs@ == addr@,
            n == cs@.len(),
            n >= 3,
            i <= n - 2,
            forall|j: int| 0 <= j < i ==> #[trigger] addr@.subrange(j, j + 3) != seq![':', '/', '/'],
        decreases n - i,
    {
        if cs[i] == ':' && cs[i + 1] == '/' && cs[i + 2] == '/' {
            assert(addr@.subrange(i as int, i + 3) =~= seq![':', '/', '/']);
            return true;
        }
        proof {
            if addr@.subrange(i as int, i + 3) == seq![':', '/', '/'] {
                assert(addr@.subrange(i as int, i + 3)[0] == addr@[i as int]);
                assert(addr@.subrange(i as int, i + 3)[1] == addr@[i + 1]);
                assert(addr@.subrange(i as int, i + 3)[2] == addr@[i + 2]);
            }
        }
        i = i + 1;
    }
    false
}

/// Parses `http://` followed by an address.
fn http_url(addr: &str) -> (r: Option<UrlParts>)
    ensures
        match r {
            Some(u) => http_url_of(addr@) == Some(u.model()),
            None => http_url_of(addr@) is None,
        },
{
    let mut with_scheme = String::new();
    push_str(&mut with_scheme, "http://");
    push_str(&mut with_scheme, addr);
    proof {
        reveal_strlit("http://");
    }
    match parse_url(with_scheme.as_str()) {
        Ok(u) => Some(u),
        Err(_) => None,
    }
}

/// The URL traffic is forwarded to for an upstream address.
pub fn forward_url(addr: &str) -> (r: Option<UrlParts>)
    ensures
        match r {
            Some(u) => forward_url_of(addr@) == Some(u.model()),
            None => forward_url_of(addr@) is None,
        },
{
    if contains_scheme_separator(addr) {
        match parse_url(addr) {
            Ok(u) => Some(u),
            Err(_) => http_url(addr),
        }
    } else {
        http_url(addr)
    }
}

} // verus!
