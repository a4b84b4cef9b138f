//! Forwarding tunnel connections to an upstream: what a connection says of
//! itself, and the plan for reaching the upstream that a URL describes.

use vstd::prelude::*;

use crate::proto::{EdgeType, ProxyConnHeader, ProxyProto};
use crate::text::{copy_opt_string, copy_string, opt_view, owned, push_str};
use crate::urls::UrlParts;

verus! {

/// What is known of a proxied connection.
pub struct ConnInfo {
    /// The header the service sent ahead of the connection.
    pub header: ProxyConnHeader,
    /// The PROXY protocol version the tunnel uses.
    pub proxy_proto: ProxyProto,
    /// The application protocol of the upstream.
    pub app_protocol: Option<String>,
    /// Whether the upstream's TLS certificate is verified.
    pub verify_upstream_tls: bool,
}

/// What a bound tunnel hands on to each of its connections.
#[derive(Clone)]
pub struct TunnelSettings {
    /// The PROXY protocol version the tunnel uses.
    pub proxy_proto: ProxyProto,
    /// The application protocol of the upstream.
    pub app_protocol: Option<String>,
    /// Whether the upstream's TLS certificate is verified.
    pub verify_upstream_tls: bool,
}

/// Where a proxied connection goes: to the tunnel its header names, with
/// that tunnel's settings; nowhere (`None`, the connection is dropped) when
/// no tunnel by that id is bound.
pub fn route_connection(header: ProxyConnHeader, tunnel: Option<&TunnelSettings>) -> (r: Option<ConnInfo>)
    ensures
        match tunnel {
            None => r is None,
            Some(t) => r matches Some(c) && c.header == header && c.proxy_proto == t.proxy_proto
                && opt_view(c.app_protocol) == opt_view(t.app_protocol)
                && c.verify_upstream_tls == t.verify_upstream_tls,
        },
{
    match tunnel {
        None => None,
        Some(t) => Some(
            ConnInfo {
                header,
                proxy_proto: t.proxy_proto,
                app_protocol: copy_opt_string(&t.app_protocol),
                verify_upstream_tls: t.verify_upstream_tls,
            },
        ),
    }
}

/// Connection information for connections to edges.
pub trait EdgeConnInfo {
    /// The kind of edge the connection arrived through.
    fn edge_type(&self) -> EdgeType;
    /// Whether TLS passes through the edge untouched.
    fn passthrough_tls(&self) -> bool;
}

/// Connection information for connections to endpoints.
pub trait EndpointConnInfo {
    /// The endpoint's protocol.
    fn proto(&self) -> String;
}

impl EdgeConnInfo for ConnInfo {
    fn edge_type(&self) -> (r: EdgeType)
        ensures
            r == self.header.edge_type,
    {
        self.header.edge_type
    }

    fn passthrough_tls(&self) -> (r: bool)
        ensures
            r == self.header.passthrough_tls,
    {
        self.header.passthrough_tls
    }
}

impl EndpointConnInfo for ConnInfo {
    fn proto(&self) -> (r: String)
        ensures
            r@ == self.header.proto@,
    {
        copy_string(&self.header.proto)
    }
}

impl ConnInfo {
    /// Whether TLS from the client reaches the upstream untouched on an
    /// edge connection: a TLS edge passing TLS through.
    pub fn edge_tunnel_tls(&self) -> (r: bool)
        ensures
            r == (self.header.edge_type is Tls && self.header.passthrough_tls),
    {
        match self.header.edge_type {
            EdgeType::Tls => self.header.passthrough_tls,
            _ => false,
        }
    }

    /// Whether TLS from the client reaches the upstream untouched on an
    /// endpoint connection: a `tls` endpoint passing TLS through.
    pub fn endpoint_tunnel_tls(&self) -> (r: bool)
        ensures
            r == (self.header.proto@ == seq!['t', 'l', 's'] && self.header.passthrough_tls),
    {
        let tls = vec!['t', 'l', 's'];
        crate::config::common::str_is(self.header.proto.as_str(), &tls) && self.header.passthrough_tls
    }

    /// Whether a PROXY protocol header is read from the connection before
    /// forwarding: when the tunnel uses one.
    pub fn reads_proxy_header(&self) -> (r: bool)
        ensures
            r == (self.proxy_proto != ProxyProto::Disabled),
    {
        self.proxy_proto != ProxyProto::Disabled
    }
}

/// Where an upstream connection goes.
#[derive(Clone, Debug)]
pub enum Target {
    /// A TCP connection to this host and port.
    Tcp { host: String, port: u16 },
    /// A Unix socket at this path.
    Unix { path: String },
    /// A Windows named pipe of this full name.
    Pipe { name: String },
}

/// How to reach an upstream.
#[derive(Clone, Debug)]
pub struct ConnectPlan {
    /// Where to connect.
    pub target: Target,
    /// Whether the upstream speaks TLS.
    pub backend_tls: bool,
    /// Whether this agent performs the TLS handshake with the upstream: when
    /// it speaks TLS and the client's TLS is not passed through.
    pub handshake: bool,
    /// The server name for the handshake.
    pub server_name: String,
}

/// The host of a forwarding URL: its own, or `localhost`.
pub open spec fn url_host(u: UrlParts) -> Seq<char> {
    match u.host {
        Some(h) => h@,
        None => "localhost"@,
    }
}

/// A TCP target with the given port.
pub open spec fn is_tcp_target(t: Target, host: Seq<char>, port: u16) -> bool {
    t matches Target::Tcp { host: h, port: p } && h@ == host && p == port
}

/// The name of a Windows named pipe: `\\host\pipe\name`, the host being `.`
/// for none or `localhost`.
pub open spec fn pipe_name_spec(host: Option<Seq<char>>, path: Seq<char>) -> Seq<char> {
    let h = match host {
        Some(h) => if h == "localhost"@ {
            "."@
        } else {
            h
        },
        None => "."@,
    };
    "\\\\"@ + h + "\\pipe\\"@ + path
}

/// The pipe name part of a `pipe` URL: the path, without its leading `/`
/// when the URL has a host.
pub open spec fn pipe_path(u: UrlParts) -> Seq<char> {
    if u.host is Some && u.path@.len() > 0 && u.path@[0] == '/' {
        u.path@.skip(1)
    } else {
        u.path@
    }
}

/// The path of a Unix socket named by a `unix` URL: the host followed by the
/// path, or the path alone.
pub open spec fn unix_path(u: UrlParts) -> Seq<char> {
    match u.host {
        Some(h) => h@ + u.path@,
        None => u.path@,
    }
}

/// A `unix` URL with a host names a relative socket path: the host followed
/// by the URL's path. The planned path starts with the host and ends with
/// the path, and so differs from the path alone whenever the host is not
/// empty.
pub proof fn lemma_unix_path_keeps_host(u: UrlParts)
    requires
        u.host is Some,
    ensures
        ({
            let h = u.host.unwrap()@;
            &&& unix_path(u).len() == h.len() + u.path@.len()
            &&& unix_path(u).take(h.len() as int) == h
            &&& unix_path(u).skip(h.len() as int) == u.path@
            &&& h.len() > 0 ==> unix_path(u) != u.path@
        }),
{
    let h = u.host.unwrap()@;
    assert((h + u.path@).take(h.len() as int) =~= h);
    assert((h + u.path@).skip(h.len() as int) =~= u.path@);
}

/// The port given, or the scheme's default.
pub open spec fn port_or(p: Option<u16>, default: u16) -> u16 {
    match p {
        Some(x) => x,
        None => default,
    }
}

/// Whether a scheme is one a forwarding URL may have on this platform.
pub open spec fn known_scheme(scheme: Seq<char>, windows: bool) -> bool {
    ||| scheme == "tcp"@
    ||| scheme == "http"@
    ||| scheme == "https"@
    ||| scheme == "tls"@
    ||| (scheme == "unix"@ && !windows)
    ||| (scheme == "pipe"@ && windows)
}

fn port_default(p: Option<u16>, default: u16) -> (r: u16)
    ensures
        r == port_or(p, default),
{
    match p {
        Some(x) => x,
        None => default,
    }
}

fn scheme_is(u: &UrlParts, name: &str) -> (r: bool)
    ensures
        r == (u.scheme@ == name@),
{
    let cs = crate::text::chars_of(name);
    crate::config::common::str_is(u.scheme.as_str(), &cs)
}

/// Plans the connection to the upstream at a URL: `tcp` needs a port;
/// `http` defaults to port 80; `https` and `tls` to port 443 and speak TLS;
/// `unix` (not on Windows) names a socket by the host and path; `pipe` (on
/// Windows) names a named pipe, which must not be empty. TLS is handshaken
/// here unless the client's TLS passes through (`tunnel_tls`). Other schemes
/// are refused.
pub fn connect_plan(tunnel_tls: bool, u: &UrlParts, windows: bool) -> (r: Result<ConnectPlan, String>)
    ensures
        u.scheme@ == "tcp"@ ==> match u.port {
            Some(p) => r matches Ok(c) && is_tcp_target(c.target, url_host(*u), p) && !c.backend_tls,
            None => r matches Err(m) && m@ == "missing port for tcp forwarding url "@ + u.serialization@,
        },
        u.scheme@ == "http"@ ==> (r matches Ok(c) && is_tcp_target(c.target, url_host(*u), port_or(u.port, 80))
            && !c.backend_tls),
        (u.scheme@ == "https"@ || u.scheme@ == "tls"@) ==> (r matches Ok(c) && is_tcp_target(
            c.target,
            url_host(*u),
            port_or(u.port, 443),
        ) && c.backend_tls),
        (u.scheme@ == "unix"@ && !windows) ==> (r matches Ok(c) && c.target matches Target::Unix { path }
            && path@ == unix_path(*u) && !c.backend_tls),
        (u.scheme@ == "pipe"@ && windows) ==> if pipe_path(*u).len() == 0 {
            r matches Err(m) && m@ == "missing pipe name in forwarding url "@ + u.serialization@
        } else {
            r matches Ok(c) && c.target matches Target::Pipe { name } && name@ == pipe_name_spec(
                opt_view(u.host),
                pipe_path(*u),
            ) && !c.backend_tls
        },
        !known_scheme(u.scheme@, windows) ==> (r matches Err(m) && m@ == "unrecognized scheme in forwarding url: "@
            + u.serialization@),
        r matches Ok(c) ==> c.handshake == (c.backend_tls && !tunnel_tls) && c.server_name@ == url_host(*u),
{
    proof {
        reveal_strlit("tcp");
        reveal_strlit("http");
        reveal_strlit("https");
        reveal_strlit("tls");
        reveal_strlit("unix");
        reveal_strlit("pipe");
        assert("tcp"@[1] != "tls"@[1]);
        assert("unix"@[0] != "pipe"@[0]);
        assert("tcp"@.len() != "http"@.len() && "tcp"@.len() != "https"@.len() && "tcp"@.len() != "unix"@.len());
        assert("http"@.len() != "https"@.len() && "http"@.len() != "tls"@.len());
        assert("https"@.len() != "tls"@.len() && "https"@.len() != "unix"@.len() && "https"@.len() != "pipe"@.len());
        assert("tls"@.len() != "unix"@.len() && "tls"@.len() != "pipe"@.len() && "tcp"@.len() != "pipe"@.len());
        assert("http"@[0] != "unix"@[0] && "http"@[0] != "pipe"@[0]);
    }
    let host = match &u.host {
        Some(h) => copy_string(h),
        None => owned("localhost"),
    };
    let (target, backend_tls) = if scheme_is(u, "tcp") {
        match u.port {
            Some(p) => (Target::Tcp { host: copy_string(&host), port: p }, false),
            None => {
                let mut m = owned("missing port for tcp forwarding url ");
                push_str(&mut m, u.serialization.as_str());
                return Err(m);
            },
        }
    } else if scheme_is(u, "http") {
        (Target::Tcp { host: copy_string(&host), port: port_default(u.port, 80) }, false)
    } else if scheme_is(u, "https") || scheme_is(u, "tls") {
        (Target::Tcp { host: copy_string(&host), port: port_default(u.port, 443) }, true)
    } else if scheme_is(u, "unix") && !windows {
        let mut path = String::new();
        match &u.host {
            Some(h) => push_str(&mut path, h.as_str()),
            None => {},
        }
        push_str(&mut path, u.path.as_str());
        (Target::Unix { path }, false)
    } else if scheme_is(u, "pipe") && windows {
        let cs = crate::text::chars_of(u.path.as_str());
        let mut start: usize = 0;
        if u.host.is_some() && cs.len() > 0 && cs[0] == '/' {
            start = 1;
        }
        if start == cs.len() {
            let mut m = owned("missing pipe name in forwarding url ");
            push_str(&mut m, u.serialization.as_str());
            return Err(m);
        }
        let mut name = owned("\\\\");
        match &u.host {
            Some(h) => {
                let localhost = crate::text::chars_of("localhost");
                if crate::config::common::str_is(h.as_str(), &localhost) {
                    push_str(&mut name, ".");
                } else {
                    push_str(&mut name, h.as_str());
                }
            },
            None => push_str(&mut name, "."),
        }
        push_str(&mut name, "\\pipe\\");
        let mut i: usize = start;
        let ghost prefix = name@;
        while i < cs.len()
            invariant
                start <= i <= cs.len(),
                cs@ == u.path@,
                name@ == prefix + cs@.subrange(start as int, i as int),
            decreases cs.len() - i,
        {
            crate::text::push_char(&mut name, cs[i]);
            i = i + 1;
            assert(name@ =~= prefix + cs@.subrange(start as int, i as int));
        }
        assert(cs@.subrange(start as int, cs.len() as int) =~= pipe_path(*u));
        (Target::Pipe { name }, false)
    } else {
        let mut m = owned("unrecognized scheme in forwarding url: ");
        push_str(&mut m, u.serialization.as_str());
        return Err(m);
    };
    Ok(ConnectPlan { target, backend_tls, handshake: backend_tls && !tunnel_tls, server_name: host })
}

/// The TLS client configuration flag for HTTP/2 upstreams.
pub const TLS_FLAG_HTTP2: u8 = 0b01;

/// The TLS client configuration flag for verifying the upstream's
/// certificate.
pub const TLS_FLAG_VERIFY_UPSTREAM_TLS: u8 = 0b10;

/// The key of a TLS client configuration: the HTTP/2 flag for an HTTP/2
/// upstream, plus the verification flag when the upstream's certificate is
/// verified.
pub open spec fn tls_key(http2: bool, verify_upstream_tls: bool) -> int {
    (if http2 { TLS_FLAG_HTTP2 as int } else { 0 }) + (if verify_upstream_tls {
        TLS_FLAG_VERIFY_UPSTREAM_TLS as int
    } else {
        0
    })
}

/// The key of the TLS client configuration to reach an upstream with: the
/// HTTP/2 flag when the application protocol is `http2`, and the
/// verification flag when the upstream's certificate is verified.
pub fn tls_config_key(app_protocol: Option<&str>, verify_upstream_tls: bool) -> (r: u8)
    ensures
        r == tls_key(app_protocol matches Some(p) && p@ == "http2"@, verify_upstream_tls),
{
    let mut key: u8 = 0;
    match app_protocol {
        Some(p) => {
            let http2 = crate::text::chars_of("http2");
            if crate::config::common::str_is(p, &http2) {
                key = key + TLS_FLAG_HTTP2;
            }
        },
        None => {},
    }
    if verify_upstream_tls {
        key = key + TLS_FLAG_VERIFY_UPSTREAM_TLS;
    }
    key
}

/// The largest TLS client configuration key: both flags set.
pub const TLS_FLAG_MAX: u8 = 0b11;

/// What a TLS client configuration is built for.
#[derive(Clone, Copy, Debug, PartialEq, Eq, Structural)]
pub struct TlsProfile {
    /// The upstream speaks HTTP/2: ALPN offers `h2` and `http/1.1`.
    pub http2: bool,
    /// The upstream's certificate is verified.
    pub verify_upstream_tls: bool,
}

/// The profile that a TLS client configuration key stands for: HTTP/2 when
/// the HTTP/2 flag is set, verification when the verification flag is.
pub open spec fn profile_of(key: int) -> TlsProfile {
    TlsProfile {
        http2: key == TLS_FLAG_HTTP2 || key == TLS_FLAG_MAX,
        verify_upstream_tls: key == TLS_FLAG_VERIFY_UPSTREAM_TLS || key == TLS_FLAG_MAX,
    }
}

/// The profile that a TLS client configuration key stands for.
pub fn tls_profile(key: u8) -> (r: TlsProfile)
    requires
        key <= TLS_FLAG_MAX,
    ensures
        r == profile_of(key as int),
{
    TlsProfile { http2: key % 2 == 1, verify_upstream_tls: key >= TLS_FLAG_VERIFY_UPSTREAM_TLS }
}

/// `h2`, the ALPN protocol id of HTTP/2.
pub open spec fn alpn_h2() -> Seq<u8> {
    seq![0x68u8, 0x32u8]
}

/// `http/1.1`, the ALPN protocol id of HTTP/1.1.
pub open spec fn alpn_http11() -> Seq<u8> {
    seq![0x68u8, 0x74u8, 0x74u8, 0x70u8, 0x2fu8, 0x31u8, 0x2eu8, 0x31u8]
}

/// The protocols offered by ALPN to an upstream: `h2` then `http/1.1` for
/// an HTTP/2 upstream, none otherwise.
pub fn alpn_protocols(http2: bool) -> (r: Vec<Vec<u8>>)
    ensures
        http2 ==> r@.len() == 2 && r@[0]@ == alpn_h2() && r@[1]@ == alpn_http11(),
        !http2 ==> r@.len() == 0,
{
    let mut r: Vec<Vec<u8>> = Vec::new();
    if http2 {
        let h2: Vec<u8> = vec![0x68u8, 0x32u8];
        let h11: Vec<u8> = vec![0x68u8, 0x74u8, 0x74u8, 0x70u8, 0x2fu8, 0x31u8, 0x2eu8, 0x31u8];
        assert(h2@ =~= alpn_h2());
        assert(h11@ =~= alpn_http11());
        r.push(h2);
        r.push(h11);
    }
    r
}

/// The configuration chosen for an upstream is built for it: the key of
/// every upstream is a configuration key, and stands for HTTP/2 exactly when
/// the upstream speaks HTTP/2, and for verification exactly when its
/// certificate is verified.
pub proof fn lemma_tls_key_profile(http2: bool, verify_upstream_tls: bool)
    ensures
        0 <= tls_key(http2, verify_upstream_tls) <= TLS_FLAG_MAX,
        profile_of(tls_key(http2, verify_upstream_tls)) == (TlsProfile { http2, verify_upstream_tls }),
{
}

} // verus!
