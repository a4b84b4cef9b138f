//! Sessions with the ngrok service: the settings a session is built from,
//! the authentication request they produce, the errors connecting ends in,
//! and the bookkeeping of the tunnels a session has bound.

use vstd::prelude::*;
use std::collections::VecDeque;

use crate::proto::{
    AuthExtra, AuthResp, BindOpts, BindResp, BindExtra, NgrokError, SecretString,
    StartTunnelWithLabelResp,
};
use crate::rpc::{not_implemented_text, rpc_error_code, rpc_error_msg, RpcError, StartSessionError};
use crate::strmap::StringMap;
use crate::text::{
    chars_of, copy_string, decimal, opt_view, owned, push_char, push_decimal,
    push_str,
};
use crate::proto::join;

verus! {

#[verifier::external_type_specification]
#[verifier::external_body]
pub struct ExParseIntError(std::num::ParseIntError);

#[verifier::external_type_specification]
#[verifier::external_body]
pub struct ExInvalidDnsNameError(futures_rustls::rustls::pki_types::InvalidDnsNameError);

/// Whether a character may stand as is in a user agent product token: the
/// token characters of RFC 7230 and `/`.
pub open spec fn ua_allowed(c: char) -> bool {
    ||| c == '/' || c == '!' || c == '#' || c == '$' || c == '%' || c == '&' || c == '\''
    ||| c == '*' || ('+' <= c && c <= '.') || c == '^' || c == '_' || c == '`' || c == '|'
    ||| c == '~' || ('0' <= c && c <= '9') || ('a' <= c && c <= 'z') || ('A' <= c && c <= 'Z')
}

/// A character of a sanitized user agent token: `#` for one that may not
/// stand there, `-` for `/`.
pub open spec fn ua_char(c: char) -> char {
    if !ua_allowed(c) {
        '#'
    } else if c == '/' {
        '-'
    } else {
        c
    }
}

/// A text made fit for a user agent product token, character by character.
pub open spec fn sanitize_ua_spec(s: Seq<char>) -> Seq<char> {
    s.map_values(|c: char| ua_char(c))
}

fn ua_char_exec(c: char) -> (r: char)
    ensures
        r == ua_char(c),
{
    let allowed = c == '/' || c == '!' || c == '#' || c == '$' || c == '%' || c == '&' || c == '\''
        || c == '*' || ('+' <= c && c <= '.') || c == '^' || c == '_' || c == '`' || c == '|'
        || c == '~' || ('0' <= c && c <= '9') || ('a' <= c && c <= 'z') || ('A' <= c && c <= 'Z');
    if !allowed {
        '#'
    } else if c == '/' {
        '-'
    } else {
        c
    }
}

/// Makes a text fit for a user agent product token: each character outside
/// the token characters becomes `#`, and each `/` becomes `-`.
pub fn sanitize_ua_string(s: &str) -> (r: String)
    ensures
        r@ == sanitize_ua_spec(s@),
{
    let cs = chars_of(s);
    let mut r = String::new();
    let mut i: usize = 0;
    while i < cs.len()
        invariant
            i <= cs.len(),
            cs@ == s@,
            r@ == sanitize_ua_spec(s@).take(i as int),
        decreases cs.len() - i,
    {
        push_char(&mut r, ua_char_exec(cs[i]));
        i = i + 1;
        assert(r@ =~= sanitize_ua_spec(s@).take(i as int));
    }
    assert(sanitize_ua_spec(s@).take(cs.len() as int) =~= sanitize_ua_spec(s@));
    r
}

/// One entry of the user agent: `name/version`, sanitized, followed by
/// ` (comments)` when there are comments.
pub open spec fn ua_entry(e: (String, String, Option<String>)) -> Seq<char> {
    sanitize_ua_spec(e.0@) + seq!['/'] + sanitize_ua_spec(e.1@) + match e.2 {
        Some(c) => seq![' ', '('] + c@ + seq![')'],
        None => Seq::<char>::empty(),
    }
}

/// The user agent: the entries, most significant first, separated by spaces.
pub open spec fn user_agent_spec(versions: Seq<(String, String, Option<String>)>) -> Seq<char> {
    join(versions.map_values(|e: (String, String, Option<String>)| ua_entry(e)), seq![' '])
}

/// The name the ngrok service knows an operating system by: `darwin` for
/// macOS, otherwise the name as given.
pub open spec fn os_name_spec(os: Seq<char>) -> Seq<char> {
    if os == "macos"@ {
        "darwin"@
    } else {
        os
    }
}

/// The name the ngrok service knows an operating system by.
pub fn os_name(os: &str) -> (r: String)
    ensures
        r@ == os_name_spec(os@),
{
    let macos = vec!['m', 'a', 'c', 'o', 's'];
    proof {
        reveal_strlit("macos");
        reveal_strlit("darwin");
    }
    assert(macos@ =~= "macos"@);
    if crate::config::common::str_is(os, &macos) {
        owned("darwin")
    } else {
        owned(os)
    }
}

/// What the agent reports for a dashboard command: supported (empty) when
/// a handler is set, else the reason it is not.
pub fn unsupported_error(has_handler: bool) -> (r: Option<String>)
    ensures
        opt_view(r) == Some(if has_handler {
            Seq::<char>::empty()
        } else {
            not_implemented_text()
        }),
{
    if has_handler {
        Some(String::new())
    } else {
        Some(owned("the agent has not defined a callback for this operation"))
    }
}

/// Errors arising when connecting a session.
#[derive(Debug)]
pub enum ConnectError {
    /// The heartbeat interval, in nanoseconds, is beyond what the service
    /// accepts.
    InvalidHeartbeatInterval(u128),
    /// The heartbeat tolerance, in nanoseconds, is beyond what the service
    /// accepts.
    InvalidHeartbeatTolerance(u128),
    /// The server address holds an invalid port.
    InvalidServerPort(std::num::ParseIntError),
    /// The server address holds an invalid server name.
    InvalidServerName(futures_rustls::rustls::pki_types::InvalidDnsNameError),
    /// The TCP connection to the ngrok server failed.
    Tcp(std::io::Error),
    /// The TLS handshake failed.
    Tls(std::io::Error),
    /// The session could not be started.
    Start(StartSessionError),
    /// Authentication failed.
    Auth(RpcError),
    /// Rebinding a tunnel after a reconnect failed.
    Rebind(RpcError),
    /// The connect function gave up.
    Canceled,
}

/// The text shown for a connect error.
pub open spec fn connect_error_text(e: ConnectError) -> Seq<char> {
    match e {
        ConnectError::InvalidHeartbeatInterval(n) => "invalid heartbeat interval: "@ + decimal(n as nat),
        ConnectError::InvalidHeartbeatTolerance(n) => "invalid heartbeat tolerance: "@ + decimal(n as nat),
        ConnectError::InvalidServerPort(_) => "invalid server port"@,
        ConnectError::InvalidServerName(_) => "invalid server name"@,
        ConnectError::Tcp(_) => "failed to establish tcp connection"@,
        ConnectError::Tls(_) => "tls handshake error"@,
        ConnectError::Start(_) => "failed to start ngrok session"@,
        ConnectError::Auth(_) => "authentication failure"@,
        ConnectError::Rebind(_) => "error rebinding tunnel after reconnect"@,
        ConnectError::Canceled => "the connect function gave up"@,
    }
}

/// The ngrok error code of a connect error: that of the service's response
/// when authentication or rebinding failed.
pub open spec fn connect_error_code(e: ConnectError) -> Option<Seq<char>> {
    match e {
        ConnectError::Auth(r) => rpc_error_code(r),
        ConnectError::Rebind(r) => rpc_error_code(r),
        _ => None,
    }
}

/// The message of a connect error: that of the RPC error when
/// authentication or rebinding failed, else its text.
pub open spec fn connect_error_msg(e: ConnectError) -> Seq<char> {
    match e {
        ConnectError::Auth(r) => rpc_error_msg(r),
        ConnectError::Rebind(r) => rpc_error_msg(r),
        _ => connect_error_text(e),
    }
}

impl ConnectError {
    /// The text shown for this error.
    pub fn to_display_string(&self) -> (r: String)
        ensures
            r@ == connect_error_text(*self),
    {
        match self {
            ConnectError::InvalidHeartbeatInterval(n) => {
                let mut r = owned("invalid heartbeat interval: ");
                push_decimal(&mut r, *n);
                r
            },
            ConnectError::InvalidHeartbeatTolerance(n) => {
                let mut r = owned("invalid heartbeat tolerance: ");
                push_decimal(&mut r, *n);
                r
            },
            ConnectError::InvalidServerPort(_) => owned("invalid server port"),
            ConnectError::InvalidServerName(_) => owned("invalid server name"),
            ConnectError::Tcp(_) => owned("failed to establish tcp connection"),
            ConnectError::Tls(_) => owned("tls handshake error"),
            ConnectError::Start(_) => owned("failed to start ngrok session"),
            ConnectError::Auth(_) => owned("authentication failure"),
            ConnectError::Rebind(_) => owned("error rebinding tunnel after reconnect"),
            ConnectError::Canceled => owned("the connect function gave up"),
        }
    }

    /// Whether reconnecting goes on after this error: every error but a
    /// canceled connect is retried.
    pub fn is_retryable(&self) -> (r: bool)
        ensures
            r == !(*self is Canceled),
    {
        match self {
            ConnectError::Canceled => false,
            _ => true,
        }
    }
}

impl NgrokError for ConnectError {
    fn error_code(&self) -> (r: Option<String>)
        ensures
            opt_view(r) == connect_error_code(*self),
    {
        match self {
            ConnectError::Auth(e) => e.code(),
            ConnectError::Rebind(e) => e.code(),
            _ => None,
        }
    }

    fn msg(&self) -> (r: String)
        ensures
            r@ == connect_error_msg(*self),
    {
        match self {
            ConnectError::Auth(e) => e.message(),
            ConnectError::Rebind(e) => e.message(),
            _ => self.to_display_string(),
        }
    }
}

/// The heartbeat interval used when none is set: 10 seconds, in
/// nanoseconds.
pub const DEFAULT_HEARTBEAT_INTERVAL: u128 = 10_000_000_000;

/// The heartbeat tolerance used when none is set: 15 seconds, in
/// nanoseconds.
pub const DEFAULT_HEARTBEAT_TOLERANCE: u128 = 15_000_000_000;

/// The settings an ngrok session is built from.
#[derive(Clone)]
pub struct SessionBuilder {
    /// Client types and versions, most significant first: name, version,
    /// comments.
    pub versions: VecDeque<(String, String, Option<String>)>,
    /// The authtoken to authenticate with.
    pub authtoken: Option<SecretString>,
    /// Opaque metadata for the session.
    pub metadata: Option<String>,
    /// How often heartbeats are sent, in nanoseconds.
    pub heartbeat_interval: Option<u128>,
    /// How long a heartbeat response may take, in nanoseconds.
    pub heartbeat_tolerance: Option<u128>,
    /// The address of the ngrok service.
    pub server_addr: String,
    /// The CA certificate in PEM format that the service's certificate is
    /// checked against.
    pub ca_cert: Option<Vec<u8>>,
    /// The cookie the service handed out at the last authentication.
    pub cookie: Option<SecretString>,
    /// The session id the service handed out at the last authentication.
    pub id: Option<String>,
}

/// `text` or, when unset, `default`.
pub open spec fn or_default(text: Option<u128>, default: u128) -> u128 {
    match text {
        Some(n) => n,
        None => default,
    }
}

/// The text of an optional secret, empty when unset.
pub open spec fn secret_text(s: Option<SecretString>) -> Seq<char> {
    match s {
        Some(t) => t.0@,
        None => Seq::<char>::empty(),
    }
}

fn copy_secret(s: &Option<SecretString>) -> (r: SecretString)
    ensures
        r.0@ == secret_text(*s),
{
    match s {
        Some(t) => SecretString(copy_string(&t.0)),
        None => SecretString(String::new()),
    }
}

impl SessionBuilder {
    /// The default settings, reporting this library's client type
    /// (`ngrok-rust`) with the given version, and connecting to
    /// `tunnel.ngrok.com:443`.
    pub fn new(version: &str) -> (r: SessionBuilder)
        ensures
            r.versions@.len() == 1,
            r.versions@[0].0@ == "ngrok-rust"@,
            r.versions@[0].1@ == version@,
            r.versions@[0].2 is None,
            r.server_addr@ == "tunnel.ngrok.com:443"@,
            r.authtoken is None,
            r.metadata is None,
            r.heartbeat_interval is None,
            r.heartbeat_tolerance is None,
            r.ca_cert is None,
            r.cookie is None,
            r.id is None,
    {
        let mut versions: VecDeque<(String, String, Option<String>)> = VecDeque::new();
        versions.push_back((owned("ngrok-rust"), owned(version), None));
        SessionBuilder {
            versions,
            authtoken: None,
            metadata: None,
            heartbeat_interval: None,
            heartbeat_tolerance: None,
            server_addr: owned("tunnel.ngrok.com:443"),
            ca_cert: None,
            cookie: None,
            id: None,
        }
    }

    /// Authenticates with the given authtoken.
    pub fn authtoken(self, authtoken: &str) -> (r: SessionBuilder)
        ensures
            r.authtoken matches Some(t) && t.0@ == authtoken@,
            r == (SessionBuilder { authtoken: r.authtoken, ..self }),
    {
        SessionBuilder { authtoken: Some(SecretString(owned(authtoken))), ..self }
    }

    /// Authenticates with the given authtoken, or without one when `None`
    /// (as when the environment holds none).
    pub fn authtoken_opt(self, authtoken: Option<String>) -> (r: SessionBuilder)
        ensures
            match authtoken {
                Some(a) => r.authtoken matches Some(t) && t.0@ == a@,
                None => r.authtoken is None,
            },
            r == (SessionBuilder { authtoken: r.authtoken, ..self }),
    {
        let authtoken = match authtoken {
            Some(a) => Some(SecretString(a)),
            None => None,
        };
        SessionBuilder { authtoken, ..self }
    }

    /// Sets how often heartbeats are sent, in nanoseconds.
    pub fn heartbeat_interval(self, nanos: u128) -> (r: SessionBuilder)
        ensures
            r == (SessionBuilder { heartbeat_interval: Some(nanos), ..self }),
    {
        SessionBuilder { heartbeat_interval: Some(nanos), ..self }
    }

    /// Sets how long a heartbeat response may take before the connection is
    /// considered dead, in nanoseconds.
    pub fn heartbeat_tolerance(self, nanos: u128) -> (r: SessionBuilder)
        ensures
            r == (SessionBuilder { heartbeat_tolerance: Some(nanos), ..self }),
    {
        SessionBuilder { heartbeat_tolerance: Some(nanos), ..self }
    }

    /// Sets the opaque metadata of the session.
    pub fn metadata(self, metadata: &str) -> (r: SessionBuilder)
        ensures
            opt_view(r.metadata) == Some(metadata@),
            r == (SessionBuilder { metadata: r.metadata, ..self }),
    {
        SessionBuilder { metadata: Some(owned(metadata)), ..self }
    }

    /// Sets the address of the ngrok service.
    pub fn server_addr(self, addr: &str) -> (r: SessionBuilder)
        ensures
            r.server_addr@ == addr@,
            r == (SessionBuilder { server_addr: r.server_addr, ..self }),
    {
        SessionBuilder { server_addr: owned(addr), ..self }
    }

    /// Sets the CA certificate in PEM format that the service is checked
    /// against.
    pub fn ca_cert(self, ca_cert: Vec<u8>) -> (r: SessionBuilder)
        ensures
            r == (SessionBuilder { ca_cert: Some(ca_cert), ..self }),
    {
        SessionBuilder { ca_cert: Some(ca_cert), ..self }
    }

    /// Adds a client type and version, with optional comments, in the most
    /// significant (first) position of the user agent.
    pub fn client_info(self, client_type: &str, version: &str, comments: Option<&str>) -> (r:
        SessionBuilder)
        ensures
            r.versions@.len() == self.versions@.len() + 1,
            r.versions@.drop_first() == self.versions@,
            r.versions@[0].0@ == client_type@,
            r.versions@[0].1@ == version@,
            match comments {
                Some(c) => r.versions@[0].2 matches Some(x) && x@ == c@,
                None => r.versions@[0].2 is None,
            },
            r == (SessionBuilder { versions: r.versions, ..self }),
    {
        let mut b = self;
        let comments = match comments {
            Some(c) => Some(owned(c)),
            None => None,
        };
        b.versions.push_front((owned(client_type), owned(version), comments));
        assert(b.versions@.drop_first() =~= self.versions@);
        b
    }

    /// The user agent reported to the service.
    pub fn user_agent(&self) -> (r: String)
        ensures
            r@ == user_agent_spec(self.versions@),
    {
        broadcast use vstd::std_specs::vecdeque::axiom_spec_len;
        let n = self.versions.len();
        let ghost entries = self.versions@.map_values(|e: (String, String, Option<String>)| ua_entry(e));
        let mut r = String::new();
        let mut i: usize = 0;
        while i < n
            invariant
                n == self.versions@.len(),
                i <= n,
                entries == self.versions@.map_values(|e: (String, String, Option<String>)| ua_entry(e)),
                r@ == join(entries.take(i as int), seq![' ']),
            decreases n - i,
        {
            let ghost before = r@;
            let e = &self.versions[i];
            if i > 0 {
                push_char(&mut r, ' ');
            }
            let name = sanitize_ua_string(e.0.as_str());
            push_str(&mut r, name.as_str());
            push_char(&mut r, '/');
            let version = sanitize_ua_string(e.1.as_str());
            push_str(&mut r, version.as_str());
            match &e.2 {
                Some(c) => {
                    push_char(&mut r, ' ');
                    push_char(&mut r, '(');
                    push_str(&mut r, c.as_str());
                    push_char(&mut r, ')');
                },
                None => {},
            }
            proof {
                let t = entries.take(i + 1);
                assert(t.drop_last() =~= entries.take(i as int));
                assert(t.last() == ua_entry(self.versions@[i as int]));
                if i == 0 {
                    assert(before =~= Seq::<char>::empty());
                    assert(r@ =~= t[0]);
                } else {
                    assert(r@ =~= before + seq![' '] + t.last());
                }
            }
            i = i + 1;
        }
        assert(entries.take(n as int) =~= entries);
        r
    }

    /// The heartbeat interval and tolerance reported to the service, in
    /// nanoseconds: those set, or the defaults; an error for one beyond
    /// what a signed 64-bit count holds.
    pub fn heartbeat_nanos(&self) -> (r: Result<(i64, i64), ConnectError>)
        ensures
            ({
                let interval = or_default(self.heartbeat_interval, DEFAULT_HEARTBEAT_INTERVAL);
                let tolerance = or_default(self.heartbeat_tolerance, DEFAULT_HEARTBEAT_TOLERANCE);
                if interval > i64::MAX {
                    r matches Err(ConnectError::InvalidHeartbeatInterval(n)) && n == interval
                } else if tolerance > i64::MAX {
                    r matches Err(ConnectError::InvalidHeartbeatTolerance(n)) && n == tolerance
                } else {
                    r matches Ok((i, t)) && i == interval && t == tolerance
                }
            }),
    {
        let interval = match self.heartbeat_interval {
            Some(n) => n,
            None => DEFAULT_HEARTBEAT_INTERVAL,
        };
        let tolerance = match self.heartbeat_tolerance {
            Some(n) => n,
            None => DEFAULT_HEARTBEAT_TOLERANCE,
        };
        if interval > 0x7fff_ffff_ffff_ffff {
            return Err(ConnectError::InvalidHeartbeatInterval(interval));
        }
        if tolerance > 0x7fff_ffff_ffff_ffff {
            return Err(ConnectError::InvalidHeartbeatTolerance(tolerance));
        }
        Ok((interval as i64, tolerance as i64))
    }

    /// The session id to authenticate with: the one handed out last, or
    /// empty for a new session.
    pub fn auth_id(&self) -> (r: String)
        ensures
            r@ == match self.id {
                Some(i) => i@,
                None => Seq::<char>::empty(),
            },
    {
        match &self.id {
            Some(i) => copy_string(i),
            None => String::new(),
        }
    }

    /// The client information sent with the authentication request, on the
    /// given operating system and architecture, and with or without handlers
    /// for the restart, stop and update commands.
    pub fn auth_extra(&self, os: &str, arch: &str, has_restart: bool, has_stop: bool, has_update: bool) -> (r:
        Result<AuthExtra, ConnectError>)
        requires
            self.versions@.len() > 0,
        ensures
            match self.heartbeat_nanos_spec() {
                Err(()) => r is Err,
                Ok((i, t)) => r matches Ok(x) && auth_extra_matches(*self, os@, arch@, has_restart, has_stop, has_update, i, t, x),
            },
            ({
                let interval = or_default(self.heartbeat_interval, DEFAULT_HEARTBEAT_INTERVAL);
                let tolerance = or_default(self.heartbeat_tolerance, DEFAULT_HEARTBEAT_TOLERANCE);
                &&& interval > i64::MAX ==> (r matches Err(ConnectError::InvalidHeartbeatInterval(n)) && n
                    == interval)
                &&& interval <= i64::MAX && tolerance > i64::MAX ==> (r matches Err(
                    ConnectError::InvalidHeartbeatTolerance(n),
                ) && n == tolerance)
            }),
    {
        broadcast use vstd::std_specs::vecdeque::axiom_spec_len;
        let (heartbeat_interval, heartbeat_tolerance) = match self.heartbeat_nanos() {
            Ok(p) => p,
            Err(e) => return Err(e),
        };
        let first = &self.versions[0];
        Ok(
            AuthExtra {
                os: os_name(os),
                arch: owned(arch),
                auth_token: copy_secret(&self.authtoken),
                version: copy_string(&first.1),
                hostname: String::new(),
                user_agent: self.user_agent(),
                metadata: match &self.metadata {
                    Some(m) => copy_string(m),
                    None => String::new(),
                },
                cookie: copy_secret(&self.cookie),
                heartbeat_interval,
                heartbeat_tolerance,
                update_unsupported_error: unsupported_error(has_update),
                stop_unsupported_error: unsupported_error(has_stop),
                restart_unsupported_error: unsupported_error(has_restart),
                proxy_type: String::new(),
                mutual_tls: false,
                service_run: false,
                config_version: String::new(),
                custom_interface: false,
                custom_cas: false,
                client_type: copy_string(&first.0),
            },
        )
    }

    /// The heartbeat interval and tolerance reported to the service, or
    /// `Err` when one is beyond a signed 64-bit count.
    pub open spec fn heartbeat_nanos_spec(&self) -> Result<(i64, i64), ()> {
        let interval = or_default(self.heartbeat_interval, DEFAULT_HEARTBEAT_INTERVAL);
        let tolerance = or_default(self.heartbeat_tolerance, DEFAULT_HEARTBEAT_TOLERANCE);
        if interval > i64::MAX || tolerance > i64::MAX {
            Err(())
        } else {
            Ok((interval as i64, tolerance as i64))
        }
    }

    /// The settings after a successful authentication: the cookie and the
    /// session id the service handed out are kept for reconnecting.
    pub fn after_auth(self, resp: AuthResp) -> (r: SessionBuilder)
        ensures
            r.cookie == resp.extra.cookie,
            opt_view(r.id) == Some(resp.client_id@),
            r == (SessionBuilder { cookie: r.cookie, id: r.id, ..self }),
    {
        SessionBuilder { cookie: resp.extra.cookie, id: Some(resp.client_id), ..self }
    }
}

/// The client information sent with the authentication request.
pub open spec fn auth_extra_matches(
    b: SessionBuilder,
    os: Seq<char>,
    arch: Seq<char>,
    has_restart: bool,
    has_stop: bool,
    has_update: bool,
    interval: i64,
    tolerance: i64,
    x: AuthExtra,
) -> bool {
    let unsupported = |h: bool| if h {
        Seq::<char>::empty()
    } else {
        not_implemented_text()
    };
    &&& x.os@ == os_name_spec(os)
    &&& x.arch@ == arch
    &&& x.auth_token.0@ == secret_text(b.authtoken)
    &&& x.version@ == b.versions@[0].1@
    &&& x.client_type@ == b.versions@[0].0@
    &&& x.hostname@.len() == 0
    &&& x.user_agent@ == user_agent_spec(b.versions@)
    &&& x.metadata@ == match b.metadata {
        Some(m) => m@,
        None => Seq::<char>::empty(),
    }
    &&& x.cookie.0@ == secret_text(b.cookie)
    &&& x.heartbeat_interval == interval
    &&& x.heartbeat_tolerance == tolerance
    &&& opt_view(x.restart_unsupported_error) == Some(unsupported(has_restart))
    &&& opt_view(x.stop_unsupported_error) == Some(unsupported(has_stop))
    &&& opt_view(x.update_unsupported_error) == Some(unsupported(has_update))
    &&& x.proxy_type@.len() == 0
    &&& !x.mutual_tls
    &&& !x.service_run
    &&& x.config_version@.len() == 0
    &&& !x.custom_interface
    &&& !x.custom_cas
}

/// A tunnel as the session keeps it, to bind it again after reconnecting:
/// its protocol (empty for a labeled tunnel), bind options, extras, labels
/// and "forwards to" text.
pub struct BoundTunnel {
    pub proto: String,
    pub opts: Option<BindOpts>,
    pub extra: BindExtra,
    pub labels: StringMap,
    pub forwards_to: String,
}

/// What is known of a started tunnel.
pub struct TunnelInfo {
    /// The id the service gave the tunnel.
    pub id: String,
    /// The protocol of the tunnel's endpoint; empty for a labeled tunnel.
    pub proto: String,
    /// The URL of the tunnel's endpoint; empty for a labeled tunnel.
    pub url: String,
    /// The labels the tunnel was started with; none for other tunnels.
    pub labels: StringMap,
    /// The "forwards to" text.
    pub forwards_to: String,
    /// The tunnel's metadata.
    pub metadata: String,
}

/// Information about a tunnel backing an endpoint.
pub trait EndpointInfo {
    /// The URL of the tunnel's endpoint.
    fn url(&self) -> String;
    /// The protocol of the tunnel's endpoint.
    fn proto(&self) -> String;
}

/// Information about a tunnel backing an edge.
pub trait EdgeInfo {
    /// The labels the tunnel was started with.
    fn labels(&self) -> StringMap;
}

impl EndpointInfo for TunnelInfo {
    fn url(&self) -> (r: String)
        ensures
            r@ == self.url@,
    {
        copy_string(&self.url)
    }

    fn proto(&self) -> (r: String)
        ensures
            r@ == self.proto@,
    {
        copy_string(&self.proto)
    }
}

impl EdgeInfo for TunnelInfo {
    fn labels(&self) -> (r: StringMap)
        ensures
            r.view() == self.labels.view(),
    {
        self.labels.copy()
    }
}

/// Whether a tunnel with this protocol is started by its labels rather than
/// bound to an endpoint: exactly when the protocol is empty.
pub fn starts_by_label(proto: &str) -> (r: bool)
    ensures
        r == (proto@.len() == 0),
{
    proto.unicode_len() == 0
}

/// The tunnel once the service bound it: the id, protocol and URL it gave,
/// and the bind options and token it answered with, kept for rebinding.
pub fn bound_after_listen(tunnel: BoundTunnel, resp: BindResp<BindOpts>) -> (r: (TunnelInfo, BoundTunnel))
    ensures
        r.0.id@ == resp.client_id@,
        r.0.proto@ == resp.proto@,
        r.0.url@ == resp.url@,
        r.0.labels.view() == Map::<Seq<char>, Seq<char>>::empty(),
        r.0.forwards_to@ == tunnel.forwards_to@,
        r.0.metadata@ == tunnel.extra.metadata@,
        r.1.proto@ == resp.proto@,
        r.1.opts == Some(resp.bind_opts),
        r.1.extra == (BindExtra { token: resp.extra.token, ..tunnel.extra }),
        r.1.labels == tunnel.labels,
        r.1.forwards_to == tunnel.forwards_to,
{
    let BindResp { client_id, url, proto, bind_opts, extra } = resp;
    let info = TunnelInfo {
        id: client_id,
        proto: copy_string(&proto),
        url,
        labels: StringMap::new(),
        forwards_to: copy_string(&tunnel.forwards_to),
        metadata: copy_string(&tunnel.extra.metadata),
    };
    let BoundTunnel { proto: _, opts: _, extra: bound_extra, labels, forwards_to } = tunnel;
    let bound = BoundTunnel {
        proto,
        opts: Some(bind_opts),
        extra: BindExtra { token: extra.token, ..bound_extra },
        labels,
        forwards_to,
    };
    (info, bound)
}

/// The labeled tunnel once the service started it: the id it gave, and the
/// tunnel kept as it was.
pub fn bound_after_label(tunnel: BoundTunnel, resp: StartTunnelWithLabelResp) -> (r: (TunnelInfo, BoundTunnel))
    ensures
        r.0.id@ == resp.id@,
        r.0.proto@.len() == 0,
        r.0.url@.len() == 0,
        r.0.labels.view() == tunnel.labels.view(),
        r.0.forwards_to@ == tunnel.forwards_to@,
        r.0.metadata@ == tunnel.extra.metadata@,
        r.1 == tunnel,
{
    let info = TunnelInfo {
        id: resp.id,
        proto: String::new(),
        url: String::new(),
        labels: tunnel.labels.copy(),
        forwards_to: copy_string(&tunnel.forwards_to),
        metadata: copy_string(&tunnel.extra.metadata),
    };
    (info, tunnel)
}

/// The id a tunnel is kept under after rebinding: a labeled tunnel takes
/// the id the service answered with, unless that is empty; other tunnels
/// keep their id.
pub fn rebound_id(old_id: &str, label_resp_id: Option<&str>) -> (r: String)
    ensures
        r@ == match label_resp_id {
            Some(n) => if n@.len() > 0 {
                n@
            } else {
                old_id@
            },
            None => old_id@,
        },
{
    match label_resp_id {
        Some(n) => if n.unicode_len() > 0 {
            owned(n)
        } else {
            owned(old_id)
        },
        None => owned(old_id),
    }
}

/// Whether a session may reconnect: a closed session may not, and its
/// reconnect ends in `Canceled` before anything is dialed.
pub fn reconnect_allowed(closed: bool) -> (r: Result<(), ConnectError>)
    ensures
        closed ==> r matches Err(ConnectError::Canceled),
        !closed ==> r is Ok,
{
    if closed {
        Err(ConnectError::Canceled)
    } else {
        Ok(())
    }
}

/// The key a tunnel is kept under after a reconnect: a labeled tunnel
/// (empty protocol) takes the id its new start answered with, unless that
/// is empty or missing; any other tunnel keeps its key.
pub open spec fn rebound_key(id: Seq<char>, proto: Seq<char>, label_id: Option<Seq<char>>) -> Seq<char> {
    if proto.len() == 0 {
        match label_id {
            Some(n) => if n.len() > 0 {
                n
            } else {
                id
            },
            None => id,
        }
    } else {
        id
    }
}

/// The tunnels of a session after every one of them was bound again on the
/// new connection, each under the key it is kept under from then on
/// (`rebound_key`), in the same order and unchanged otherwise.
/// `label_ids[i]` is the id the service answered when the i-th tunnel,
/// a labeled one, was started again.
pub fn rebound_tunnels(old: Vec<(String, BoundTunnel)>, label_ids: Vec<Option<String>>) -> (r: Vec<
    (String, BoundTunnel),
>)
    requires
        old@.len() == label_ids@.len(),
    ensures
        r@.len() == old@.len(),
        forall|i: int|
            0 <= i < r@.len() ==> (#[trigger] r@[i]).1 == old@[i].1 && r@[i].0@ == rebound_key(
                old@[i].0@,
                old@[i].1.proto@,
                opt_view(label_ids@[i]),
            ),
{
    let ghost orig = old@;
    let ghost orig_ids = label_ids@;
    let mut old = old;
    let mut label_ids = label_ids;
    let mut r: Vec<(String, BoundTunnel)> = Vec::new();
    while old.len() > 0
        invariant
            old@.len() == label_ids@.len(),
            r@.len() + old@.len() == orig.len(),
            orig.len() == orig_ids.len(),
            old@ == orig.skip(r@.len() as int),
            label_ids@ == orig_ids.skip(r@.len() as int),
            forall|i: int|
                0 <= i < r@.len() ==> (#[trigger] r@[i]).1 == orig[i].1 && r@[i].0@ == rebound_key(
                    orig[i].0@,
                    orig[i].1.proto@,
                    opt_view(orig_ids[i]),
                ),
        decreases old@.len(),
    {
        let ghost k = r@.len() as int;
        let (id, t) = old.remove(0);
        let label_id = label_ids.remove(0);
        assert(orig[k] == (id, t));
        assert(orig_ids[k] == label_id);
        let key = if starts_by_label(t.proto.as_str()) {
            match &label_id {
                Some(n) => rebound_id(id.as_str(), Some(n.as_str())),
                None => id,
            }
        } else {
            id
        };
        r.push((key, t));
        assert(old@ =~= orig.skip(r@.len() as int));
        assert(label_ids@ =~= orig_ids.skip(r@.len() as int));
    }
    r
}

/// Errors arising when accepting a connection from a tunnel.
#[derive(Debug)]
pub enum AcceptError {
    /// An error occurred in the underlying transport protocol.
    Transport(muxado::Error),
    /// An error arose during reconnect.
    Reconnect(std::sync::Arc<ConnectError>),
    /// The listener was closed.
    ListenerClosed {
        /// The error message.
        message: String,
        /// The error code, if any.
        error_code: Option<String>,
    },
}

/// The text shown for an accept error.
pub open spec fn accept_error_text(e: AcceptError) -> Seq<char> {
    match e {
        AcceptError::Transport(_) => "transport error"@,
        AcceptError::Reconnect(_) => "reconnect error"@,
        AcceptError::ListenerClosed { message, error_code } => "listener closed: "@ + message@ + match error_code {
            Some(c) => seq![',', ' '] + c@,
            None => Seq::<char>::empty(),
        },
    }
}

impl AcceptError {
    /// The text shown for this error.
    pub fn to_display_string(&self) -> (r: String)
        ensures
            r@ == accept_error_text(*self),
    {
        match self {
            AcceptError::Transport(_) => owned("transport error"),
            AcceptError::Reconnect(_) => owned("reconnect error"),
            AcceptError::ListenerClosed { message, error_code } => {
                let mut r = owned("listener closed: ");
                push_str(&mut r, message.as_str());
                match error_code {
                    Some(c) => {
                        push_char(&mut r, ',');
                        push_char(&mut r, ' ');
                        push_str(&mut r, c.as_str());
                    },
                    None => {},
                }
                r
            },
        }
    }
}

/// The value of a decimal digit character.
pub open spec fn digit_value(c: char) -> nat {
    (c as u32 - '0' as u32) as nat
}

/// The number a string of decimal digits denotes.
pub open spec fn digits_value(s: Seq<char>) -> nat
    decreases s.len(),
{
    if s.len() == 0 {
        0
    } else {
        digits_value(s.drop_last()) * 10 + digit_value(s.last())
    }
}

/// Whether every character is a decimal digit.
pub open spec fn all_digits(s: Seq<char>) -> bool {
    forall|i: int| 0 <= i < s.len() ==> '0' <= #[trigger] s[i] && s[i] <= '9'
}

/// The port a text denotes as `u16::from_str` reads it: an optional `+`,
/// then one or more decimal digits, of value at most 65535.
pub open spec fn port_text(s: Seq<char>) -> Option<u16> {
    let d = if s.len() > 0 && s[0] == '+' {
        s.skip(1)
    } else {
        s
    };
    if d.len() > 0 && all_digits(d) && digits_value(d) <= 65535 {
        Some(digits_value(d) as u16)
    } else {
        None
    }
}

/// Parses a port (`u16::from_str`).
///
/// Trusted: as its documentation states, an optional `+` sign followed by
/// one or more digits parses, unless the value overflows; anything else is
/// an error.
#[verifier::external_body]
fn parse_port(s: &str) -> (r: Result<u16, std::num::ParseIntError>)
    ensures
        match r {
            Ok(n) => port_text(s@) == Some(n),
            Err(_) => port_text(s@) is None,
        },
{
    s.parse::<u16>()
}

/// The index of the first `:` at or after `from`, or the length when there
/// is none.
pub open spec fn colon_from(s: Seq<char>, from: int) -> int
    decreases s.len() - from,
{
    if from >= s.len() {
        s.len() as int
    } else if s[from] == ':' {
        from
    } else {
        colon_from(s, from + 1)
    }
}

proof fn lemma_colon_from(s: Seq<char>, from: int)
    requires
        0 <= from <= s.len(),
    ensures
        from <= colon_from(s, from) <= s.len(),
        forall|k: int| from <= k < colon_from(s, from) ==> s[k] != ':',
        colon_from(s, from) < s.len() ==> s[colon_from(s, from)] == ':',
    decreases s.len() - from,
{
    if from < s.len() && s[from] != ':' {
        lemma_colon_from(s, from + 1);
    }
}

fn find_colon(cs: &Vec<char>, from: usize) -> (r: usize)
    requires
        from <= cs@.len(),
    ensures
        r == colon_from(cs@, from as int),
{
    let mut i = from;
    while i < cs.len() && cs[i] != ':'
        invariant
            from <= i <= cs@.len(),
            colon_from(cs@, from as int) == colon_from(cs@, i as int),
        decreases cs.len() - i,
    {
        i = i + 1;
    }
    i
}

/// The host and port of a server address: the text up to the first `:`,
/// and the port between it and the next `:`, or 443 when there is none.
pub fn server_host_port(addr: &str) -> (r: Result<(String, u16), ConnectError>)
    ensures
        ({
            let s = addr@;
            let c = colon_from(s, 0);
            if c == s.len() {
                r matches Ok((h, p)) && h@ == s && p == 443
            } else {
                let port = s.subrange(c + 1, colon_from(s, c + 1));
                match port_text(port) {
                    Some(p) => r matches Ok((h, q)) && h@ == s.take(c) && q == p,
                    None => r matches Err(ConnectError::InvalidServerPort(_)),
                }
            }
        }),
{
    let cs = chars_of(addr);
    proof {
        lemma_colon_from(cs@, 0);
    }
    let c = find_colon(&cs, 0);
    let mut host = String::new();
    let mut i: usize = 0;
    while i < c
        invariant
            i <= c <= cs@.len(),
            host@ == cs@.take(i as int),
        decreases c - i,
    {
        push_char(&mut host, cs[i]);
        i = i + 1;
        assert(host@ =~= cs@.take(i as int));
    }
    if c == cs.len() {
        assert(cs@.take(c as int) =~= cs@);
        return Ok((host, 443));
    }
    proof {
        lemma_colon_from(cs@, c + 1);
    }
    let e = find_colon(&cs, c + 1);
    let mut port = String::new();
    let mut j: usize = c + 1;
    while j < e
        invariant
            c + 1 <= j <= e <= cs@.len(),
            port@ == cs@.subrange(c + 1, j as int),
        decreases e - j,
    {
        push_char(&mut port, cs[j]);
        j = j + 1;
        assert(port@ =~= cs@.subrange(c + 1, j as int));
    }
    match parse_port(port.as_str()) {
        Ok(p) => Ok((host, p)),
        Err(err) => Err(ConnectError::InvalidServerPort(err)),
    }
}

/// A sanitized user agent token has as many characters as the text, each a
/// token character other than `/`.
pub proof fn lemma_sanitized_is_token(s: Seq<char>)
    ensures
        sanitize_ua_spec(s).len() == s.len(),
        forall|i: int|
            0 <= i < s.len() ==> ua_allowed(#[trigger] sanitize_ua_spec(s)[i]) && sanitize_ua_spec(s)[i] != '/',
{
}

/// Sanitizing a sanitized token changes nothing.
pub proof fn lemma_sanitize_idempotent(s: Seq<char>)
    ensures
        sanitize_ua_spec(sanitize_ua_spec(s)) == sanitize_ua_spec(s),
{
    assert(sanitize_ua_spec(sanitize_ua_spec(s)) =~= sanitize_ua_spec(s));
}

} // verus!
