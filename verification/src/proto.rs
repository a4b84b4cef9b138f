//! Messages exchanged with the ngrok service, and the conversions between
//! their textual and numeric encodings.

use vstd::prelude::*;

use crate::strmap::StringMap;
use crate::text::{copy_opt_string, has_prefix, is_whitespace, trim_end, trim_start, opt_view, owned, push_char, push_chars, push_str, starts_with, string_from_chars, trim, trim_chars, chars_of};

verus! {

/// Stream type of an authentication request.
pub const AUTH_REQ: u32 = 0;
/// Stream type of a bind request.
pub const BIND_REQ: u32 = 1;
/// Stream type of an unbind request.
pub const UNBIND_REQ: u32 = 2;
/// Stream type of an incoming proxied connection.
pub const PROXY_REQ: u32 = 3;
/// Stream type of a restart command.
pub const RESTART_REQ: u32 = 4;
/// Stream type of a stop command.
pub const STOP_REQ: u32 = 5;
/// Stream type of an update command.
pub const UPDATE_REQ: u32 = 6;
/// Stream type of a labeled bind request.
pub const BIND_LABELED_REQ: u32 = 7;
/// Stream type of a server information request.
pub const SRV_INFO_REQ: u32 = 8;

/// The protocol version this agent speaks.
pub fn protocol_version() -> (r: String)
    ensures
        r@ == seq!['2'],
{
    let mut r = String::new();
    push_char(&mut r, '2');
    r
}

/// An error that may carry an ngrok error code.
/// All ngrok error codes are documented at https://ngrok.com/docs/errors
pub trait NgrokError {
    /// The ngrok error code, if one exists for this error.
    fn error_code(&self) -> Option<String>;
    /// The error message minus the ngrok error code.
    fn msg(&self) -> String;
}

/// An error response from the ngrok service.
#[derive(Clone, Debug)]
pub struct ErrResp {
    /// The human-readable message.
    pub msg: String,
    /// The `ERR_NGROK_...` code, if the response carried one.
    pub error_code: Option<String>,
}

/// Drops one trailing carriage return.
pub open spec fn strip_cr(l: Seq<char>) -> Seq<char> {
    if l.len() > 0 && l.last() == '\r' {
        l.drop_last()
    } else {
        l
    }
}

/// Scans `s` left to right: the lines completed so far and the line in
/// progress.
pub open spec fn lines_acc(s: Seq<char>) -> (Seq<Seq<char>>, Seq<char>)
    decreases s.len(),
{
    if s.len() == 0 {
        (Seq::empty(), Seq::empty())
    } else {
        let (done, cur) = lines_acc(s.drop_last());
        if s.last() == '\n' {
            (done.push(strip_cr(cur)), Seq::empty())
        } else {
            (done, cur.push(s.last()))
        }
    }
}

/// `str::lines`: lines end at `\n` or `\r\n`; a last line without a line
/// ending is kept if it is not empty.
pub open spec fn lines(s: Seq<char>) -> Seq<Seq<char>> {
    let (done, cur) = lines_acc(s);
    if cur.len() > 0 {
        done.push(cur)
    } else {
        done
    }
}

/// The prefix that marks a line holding an ngrok error code.
pub open spec fn err_code_prefix() -> Seq<char> {
    seq!['E', 'R', 'R', '_', 'N', 'G', 'R', 'O', 'K', '_']
}

/// Folds the lines of an error text into the last error code seen and the
/// non-empty message lines, in order.
pub open spec fn err_fold(ls: Seq<Seq<char>>) -> (Option<Seq<char>>, Seq<Seq<char>>)
    decreases ls.len(),
{
    if ls.len() == 0 {
        (None, Seq::empty())
    } else {
        let (code, msgs) = err_fold(ls.drop_last());
        let l = ls.last();
        if l.len() == 0 {
            (code, msgs)
        } else if has_prefix(l, err_code_prefix()) {
            (Some(trim(l)), msgs)
        } else {
            (code, msgs.push(l))
        }
    }
}

/// Joins `parts` with `sep` between consecutive parts.
pub open spec fn join(parts: Seq<Seq<char>>, sep: Seq<char>) -> Seq<char>
    decreases parts.len(),
{
    if parts.len() == 0 {
        Seq::empty()
    } else if parts.len() == 1 {
        parts[0]
    } else {
        join(parts.drop_last(), sep) + sep + parts.last()
    }
}

/// The error response that an error text denotes: non-empty lines starting
/// with `ERR_NGROK_` give the code (trimmed; the last one wins), the other
/// non-empty lines, joined by newlines, give the message.
pub open spec fn err_resp_of(s: Seq<char>) -> (Option<Seq<char>>, Seq<char>) {
    let (code, msgs) = err_fold(lines(s));
    (code, join(msgs, seq!['\n']))
}

fn err_code_prefix_chars() -> (r: Vec<char>)
    ensures
        r@ == err_code_prefix(),
{
    let r = vec!['E', 'R', 'R', '_', 'N', 'G', 'R', 'O', 'K', '_'];
    assert(r@ =~= err_code_prefix());
    r
}

fn strip_cr_chars(l: Vec<char>) -> (r: Vec<char>)
    ensures
        r@ == strip_cr(l@),
{
    let mut l = l;
    if l.len() > 0 && l[l.len() - 1] == '\r' {
        l.pop();
    }
    l
}

/// Folds one line into the error code and message lines.
fn fold_line(
    code: &mut Option<Vec<char>>,
    msgs: &mut Vec<Vec<char>>,
    l: Vec<char>,
    prefix: &Vec<char>,
    Ghost(done): Ghost<Seq<Seq<char>>>,
)
    requires
        prefix@ == err_code_prefix(),
        err_fold(done) == (chars_opt(*old(code)), chars_seq(old(msgs)@)),
    ensures
        err_fold(done.push(l@)) == (chars_opt(*final(code)), chars_seq(final(msgs)@)),
{
    assert(done.push(l@).drop_last() =~= done);
    if l.len() == 0 {
    } else if starts_with(&l, prefix) {
        *code = Some(trim_chars(&l));
    } else {
        let ghost before = msgs@;
        msgs.push(l);
        assert(chars_seq(msgs@) =~= chars_seq(before).push(msgs@.last()@));
    }
}

/// Character sequences of an optional list of characters.
pub open spec fn chars_opt(o: Option<Vec<char>>) -> Option<Seq<char>> {
    match o {
        Some(v) => Some(v@),
        None => None,
    }
}

/// Character sequences of a list of character lists.
pub open spec fn chars_seq(v: Seq<Vec<char>>) -> Seq<Seq<char>> {
    v.map_values(|x: Vec<char>| x@)
}

/// Joins lines with newlines.
fn join_lines(parts: &Vec<Vec<char>>) -> (r: String)
    ensures
        r@ == join(chars_seq(parts@), seq!['\n']),
{
    let mut r = String::new();
    let mut k: usize = 0;
    while k < parts.len()
        invariant
            k <= parts.len(),
            r@ == join(chars_seq(parts@.take(k as int)), seq!['\n']),
        decreases parts.len() - k,
    {
        let ghost before = r@;
        if k > 0 {
            push_char(&mut r, '\n');
        }
        push_chars(&mut r, &parts[k]);
        proof {
            let t = chars_seq(parts@.take(k + 1));
            assert(t.drop_last() =~= chars_seq(parts@.take(k as int)));
            assert(t.last() == parts@[k as int]@);
            if k == 0 {
                assert(before =~= Seq::<char>::empty());
                assert(r@ =~= t[0]);
            } else {
                assert(r@ =~= before + seq!['\n'] + t.last());
            }
        }
        k = k + 1;
    }
    assert(parts@.take(parts.len() as int) =~= parts@);
    r
}

impl ErrResp {
    /// Parses an error text as sent by the ngrok service.
    pub fn from_message(value: &str) -> (r: ErrResp)
        ensures
            opt_view(r.error_code) == err_resp_of(value@).0,
            r.msg@ == err_resp_of(value@).1,
    {
        let s = chars_of(value);
        let prefix = err_code_prefix_chars();
        let mut code: Option<Vec<char>> = None;
        let mut msgs: Vec<Vec<char>> = Vec::new();
        let mut cur: Vec<char> = Vec::new();
        let ghost mut done: Seq<Seq<char>> = Seq::empty();
        let mut i: usize = 0;
        assert(s@.take(0) =~= Seq::<char>::empty());
        assert(chars_seq(msgs@) =~= Seq::<Seq<char>>::empty());
        while i < s.len()
            invariant
                i <= s.len(),
                prefix@ == err_code_prefix(),
                lines_acc(s@.take(i as int)) == (done, cur@),
                err_fold(done) == (chars_opt(code), chars_seq(msgs@)),
            decreases s.len() - i,
        {
            let c = s[i];
            assert(s@.take(i + 1).drop_last() =~= s@.take(i as int));
            if c == '\n' {
                let line = strip_cr_chars(cur);
                let ghost lv = line@;
                fold_line(&mut code, &mut msgs, line, &prefix, Ghost(done));
                proof {
                    done = done.push(lv);
                }
                cur = Vec::new();
                assert(cur@ =~= Seq::<char>::empty());
            } else {
                cur.push(c);
            }
            i = i + 1;
        }
        assert(s@.take(s.len() as int) =~= s@);
        if cur.len() > 0 {
            let ghost cv = cur@;
            fold_line(&mut code, &mut msgs, cur, &prefix, Ghost(done));
        }
        let msg = join_lines(&msgs);
        let error_code = match code {
            Some(c) => Some(string_from_chars(&c)),
            None => None,
        };
        ErrResp { msg, error_code }
    }

    /// The text shown for this error: the message, followed by the error
    /// code on its own paragraph when there is one.
    pub fn to_display_string(&self) -> (r: String)
        ensures
            r@ == match self.error_code {
                Some(c) => self.msg@ + seq!['\n', '\n', 'E', 'R', 'R', '_', 'N', 'G', 'R', 'O', 'K', '_'] + c@,
                None => self.msg@,
            },
    {
        let mut r = self.msg.clone();
        match &self.error_code {
            Some(c) => {
                let p = vec!['\n', '\n', 'E', 'R', 'R', '_', 'N', 'G', 'R', 'O', 'K', '_'];
                push_chars(&mut r, &p);
                push_str(&mut r, c.as_str());
                assert(p@ =~= seq!['\n', '\n', 'E', 'R', 'R', '_', 'N', 'G', 'R', 'O', 'K', '_']);
            },
            None => {},
        }
        r
    }
}

impl NgrokError for ErrResp {
    fn error_code(&self) -> (r: Option<String>)
        ensures
            opt_view(r) == opt_view(self.error_code),
    {
        copy_opt_string(&self.error_code)
    }

    fn msg(&self) -> (r: String)
        ensures
            r@ == self.msg@,
    {
        self.msg.clone()
    }
}

/// A secret string; its contents are never shown in logs.
#[derive(Clone, Default)]
pub struct SecretString(pub String);

/// The text shown in place of a secret: eight asterisks.
pub open spec fn masked_text() -> Seq<char> {
    seq!['*', '*', '*', '*', '*', '*', '*', '*']
}

fn masked() -> (r: String)
    ensures
        r@ == masked_text(),
{
    let r = owned("********");
    proof {
        reveal_strlit("********");
    }
    assert(r@ =~= masked_text());
    r
}

impl SecretString {
    /// The text shown for this secret: `********`, whatever it holds.
    pub fn to_display_string(&self) -> (r: String)
        ensures
            r@ == masked_text(),
    {
        masked()
    }

    /// Wraps a string as a secret.
    pub fn new(s: String) -> (r: SecretString)
        ensures
            r.0@ == s@,
    {
        SecretString(s)
    }

    /// An empty secret.
    pub fn empty() -> (r: SecretString)
        ensures
            r.0@ == Seq::<char>::empty(),
    {
        SecretString(String::new())
    }

    /// The secret's contents.
    pub fn expose(&self) -> (r: &String)
        ensures
            r@ == self.0@,
    {
        &self.0
    }
}

/// Secret bytes; their contents are never shown in logs.
#[derive(Clone, Default)]
pub struct SecretBytes(pub Vec<u8>);

impl SecretBytes {
    /// The text shown for these secret bytes: `********`, whatever they hold.
    pub fn to_display_string(&self) -> (r: String)
        ensures
            r@ == masked_text(),
    {
        masked()
    }

    /// The secret's contents.
    pub fn expose(&self) -> (r: &Vec<u8>)
        ensures
            r@ == self.0@,
    {
        &self.0
    }
}

/// The authentication request.
#[derive(Clone)]
pub struct Auth {
    /// Protocol versions supported, ordered by preference.
    pub version: Vec<String>,
    /// Empty for new sessions.
    pub client_id: String,
    /// Client information.
    pub extra: AuthExtra,
}

/// Client information sent with the authentication request.
#[derive(Clone, Default)]
pub struct AuthExtra {
    pub os: String,
    pub arch: String,
    pub auth_token: SecretString,
    pub version: String,
    pub hostname: String,
    pub user_agent: String,
    pub metadata: String,
    pub cookie: SecretString,
    pub heartbeat_interval: i64,
    pub heartbeat_tolerance: i64,
    /// `None`: the operation is disallowed; empty: supported; otherwise the
    /// reason it is not supported.
    pub update_unsupported_error: Option<String>,
    pub stop_unsupported_error: Option<String>,
    pub restart_unsupported_error: Option<String>,
    pub proxy_type: String,
    pub mutual_tls: bool,
    pub service_run: bool,
    pub config_version: String,
    pub custom_interface: bool,
    pub custom_cas: bool,
    pub client_type: String,
}

/// The authentication response.
#[derive(Clone)]
pub struct AuthResp {
    pub version: String,
    pub client_id: String,
    pub extra: AuthRespExtra,
}

/// Extra data in the authentication response.
#[derive(Clone, Default)]
pub struct AuthRespExtra {
    pub version: Option<String>,
    pub region: Option<String>,
    pub cookie: Option<SecretString>,
    pub account_name: Option<String>,
    pub session_duration: Option<i64>,
    pub plan_name: Option<String>,
    pub banner: Option<String>,
}

/// A bind (listen) request.
#[derive(Clone)]
pub struct Bind<T> {
    pub client_id: String,
    pub proto: String,
    pub forwards_to: String,
    pub opts: T,
    pub extra: BindExtra,
}

/// The protocol-specific options of a bind request.
#[derive(Clone)]
pub enum BindOpts {
    Http(HttpEndpoint),
    Tcp(TcpEndpoint),
    Tls(TlsEndpoint),
}

/// Extra data in a bind request.
#[derive(Clone, Default)]
pub struct BindExtra {
    pub token: SecretString,
    pub ip_policy_ref: String,
    pub metadata: String,
    pub bindings: Vec<String>,
    pub pooling_enabled: bool,
}

/// A bind (listen) response.
#[derive(Clone)]
pub struct BindResp<T> {
    pub client_id: String,
    pub url: String,
    pub proto: String,
    pub bind_opts: T,
    pub extra: BindRespExtra,
}

/// Extra data in a bind response.
#[derive(Clone, Default)]
pub struct BindRespExtra {
    pub token: SecretString,
}

/// A request to start a labeled tunnel.
#[derive(Clone)]
pub struct StartTunnelWithLabel {
    pub labels: StringMap,
    pub forwards_to: String,
    pub metadata: String,
}

/// The response to a labeled tunnel request.
#[derive(Clone)]
pub struct StartTunnelWithLabelResp {
    pub id: String,
}

/// A request to stop a tunnel.
#[derive(Clone)]
pub struct Unbind {
    pub client_id: String,
}

/// The response to an unbind request.
#[derive(Clone)]
pub struct UnbindResp {}

/// The header preceding every proxied connection.
#[derive(Clone)]
pub struct ProxyConnHeader {
    pub id: String,
    pub client_addr: String,
    pub proto: String,
    pub edge_type: EdgeType,
    pub passthrough_tls: bool,
}

/// The kind of edge a connection arrived through.
#[derive(Copy, Clone, Debug, PartialEq, Eq, Structural)]
pub enum EdgeType {
    Undefined,
    Tcp,
    Tls,
    Https,
}

/// The wire code of an edge type.
pub open spec fn edge_type_code(e: EdgeType) -> Seq<char> {
    match e {
        EdgeType::Undefined => seq!['0'],
        EdgeType::Tcp => seq!['1'],
        EdgeType::Tls => seq!['2'],
        EdgeType::Https => seq!['3'],
    }
}

/// The edge type a wire code denotes; unknown codes are `Undefined`.
pub open spec fn edge_type_of(s: Seq<char>) -> EdgeType {
    if s == seq!['1'] {
        EdgeType::Tcp
    } else if s == seq!['2'] {
        EdgeType::Tls
    } else if s == seq!['3'] {
        EdgeType::Https
    } else {
        EdgeType::Undefined
    }
}

/// Whether a character sequence is exactly one given character.
fn is_single(s: &str, c: char) -> (r: bool)
    ensures
        r == (s@ == seq![c]),
{
    let n = s.unicode_len();
    if n != 1 {
        return false;
    }
    let d = s.get_char(0);
    if d == c {
        assert(s@ =~= seq![c]);
        true
    } else {
        false
    }
}

impl EdgeType {
    /// Parses a wire code; any unknown code is `Undefined`.
    pub fn from_str(s: &str) -> (r: EdgeType)
        ensures
            r == edge_type_of(s@),
    {
        if is_single(s, '1') {
            EdgeType::Tcp
        } else if is_single(s, '2') {
            EdgeType::Tls
        } else if is_single(s, '3') {
            EdgeType::Https
        } else {
            EdgeType::Undefined
        }
    }

    /// The wire code.
    pub fn as_str(self) -> (r: String)
        ensures
            r@ == edge_type_code(self),
    {
        let mut r = String::new();
        match self {
            EdgeType::Undefined => push_char(&mut r, '0'),
            EdgeType::Tcp => push_char(&mut r, '1'),
            EdgeType::Tls => push_char(&mut r, '2'),
            EdgeType::Https => push_char(&mut r, '3'),
        }
        r
    }
}

/// A request from the ngrok dashboard for the agent to stop.
#[derive(Clone, Copy, Default)]
pub struct Stop {}

/// Common response to the remote commands of the ngrok dashboard.
#[derive(Clone, Default)]
pub struct CommandResp {
    /// The error arising from command handling, if any.
    pub error: Option<String>,
}

/// A request from the ngrok dashboard for the agent to restart.
#[derive(Clone, Copy, Default)]
pub struct Restart {}

/// A request from the ngrok dashboard for the agent to update itself.
#[derive(Clone, Default)]
pub struct Update {
    /// The version that the agent is requested to update to.
    pub version: String,
    /// Whether or not updating to the same major version is sufficient.
    pub permit_major_version: bool,
}

/// A request for server information.
#[derive(Clone, Copy, Default)]
pub struct SrvInfo {}

/// Server information.
#[derive(Clone, Default)]
pub struct SrvInfoResp {
    pub region: String,
}

/// The version of PROXY protocol to use with a tunnel.
#[derive(Copy, Clone, Debug, PartialEq, Eq, Structural)]
pub enum ProxyProto {
    /// No PROXY protocol
    Disabled,
    /// PROXY protocol v1
    V1,
    /// PROXY protocol v2
    V2,
}

/// The number that encodes a PROXY protocol version on the wire.
pub open spec fn proxy_proto_code(p: ProxyProto) -> i64 {
    match p {
        ProxyProto::Disabled => 0,
        ProxyProto::V1 => 1,
        ProxyProto::V2 => 2,
    }
}

/// The PROXY protocol version a wire number denotes; unknown numbers mean
/// none.
pub open spec fn proxy_proto_of(n: i64) -> ProxyProto {
    if n == 1 {
        ProxyProto::V1
    } else if n == 2 {
        ProxyProto::V2
    } else {
        ProxyProto::Disabled
    }
}

/// Error for a string that names no PROXY protocol version.
#[derive(Clone, Debug)]
pub struct InvalidProxyProtoString(pub String);

impl Default for ProxyProto {
    /// No PROXY protocol.
    fn default() -> (r: ProxyProto)
        ensures
            r == ProxyProto::Disabled,
    {
        ProxyProto::Disabled
    }
}

impl ProxyProto {
    /// The wire number of this version.
    pub fn to_i64(self) -> (r: i64)
        ensures
            r == proxy_proto_code(self),
    {
        match self {
            ProxyProto::Disabled => 0,
            ProxyProto::V1 => 1,
            ProxyProto::V2 => 2,
        }
    }

    /// The version a wire number denotes.
    pub fn from_i64(n: i64) -> (r: ProxyProto)
        ensures
            r == proxy_proto_of(n),
    {
        if n == 1 {
            ProxyProto::V1
        } else if n == 2 {
            ProxyProto::V2
        } else {
            ProxyProto::Disabled
        }
    }

    /// Parses `""`, `"1"` or `"2"`.
    pub fn from_str(s: &str) -> (r: Result<ProxyProto, InvalidProxyProtoString>)
        ensures
            s@ == Seq::<char>::empty() ==> r == Ok::<ProxyProto, InvalidProxyProtoString>(ProxyProto::Disabled),
            s@ == seq!['1'] ==> r == Ok::<ProxyProto, InvalidProxyProtoString>(ProxyProto::V1),
            s@ == seq!['2'] ==> r == Ok::<ProxyProto, InvalidProxyProtoString>(ProxyProto::V2),
            (s@ != Seq::<char>::empty() && s@ != seq!['1'] && s@ != seq!['2']) <==> r is Err,
            r matches Err(e) ==> e.0@ == s@,
    {
        proof {
            lemma_distinct_singletons('1', '2');
        }
        if s.unicode_len() == 0 {
            assert(s@ =~= Seq::<char>::empty());
            Ok(ProxyProto::Disabled)
        } else if is_single(s, '1') {
            Ok(ProxyProto::V1)
        } else if is_single(s, '2') {
            Ok(ProxyProto::V2)
        } else {
            Err(InvalidProxyProtoString(owned(s)))
        }
    }
}

proof fn lemma_trim_end_keeps_prefix(l: Seq<char>, p: Seq<char>)
    requires
        has_prefix(l, p),
        p.len() > 0,
        !is_whitespace(p.last()),
    ensures
        has_prefix(trim_end(l), p),
    decreases l.len(),
{
    if l.len() > 0 && is_whitespace(l.last()) {
        if l.len() == p.len() {
            assert(l.take(p.len() as int) =~= l);
            assert(false);
        }
        assert(l.drop_last().take(p.len() as int) =~= l.take(p.len() as int));
        lemma_trim_end_keeps_prefix(l.drop_last(), p);
    }
}

proof fn lemma_err_fold_separates(ls: Seq<Seq<char>>)
    ensures
        forall|i: int|
            0 <= i < err_fold(ls).1.len() ==> (#[trigger] err_fold(ls).1[i]).len() > 0 && !has_prefix(
                err_fold(ls).1[i],
                err_code_prefix(),
            ),
        err_fold(ls).0 matches Some(c) ==> has_prefix(c, err_code_prefix()),
    decreases ls.len(),
{
    if ls.len() > 0 {
        lemma_err_fold_separates(ls.drop_last());
        let l = ls.last();
        if l.len() > 0 && has_prefix(l, err_code_prefix()) {
            assert(l[0] == err_code_prefix()[0]) by {
                assert(l.take(10)[0] == l[0]);
            };
            assert(!is_whitespace(l[0]));
            assert(trim_start(l) == l);
            lemma_trim_end_keeps_prefix(l, err_code_prefix());
        }
    }
}

/// An error response parsed from text separates the code from the message:
/// every message line is non-empty and does not start with `ERR_NGROK_`,
/// and the code, when there is one, does.
pub proof fn lemma_err_resp_separates_code(s: Seq<char>)
    ensures
        forall|i: int|
            0 <= i < err_fold(lines(s)).1.len() ==> (#[trigger] err_fold(lines(s)).1[i]).len() > 0
                && !has_prefix(err_fold(lines(s)).1[i], err_code_prefix()),
        err_resp_of(s).0 matches Some(c) ==> has_prefix(c, err_code_prefix()),
{
    lemma_err_fold_separates(lines(s));
}

/// A known wire number of a PROXY protocol version is that version's code.
pub proof fn lemma_proxy_proto_code_roundtrip(n: i64)
    requires
        0 <= n <= 2,
    ensures
        proxy_proto_code(proxy_proto_of(n)) == n,
{
}

/// Two one-character sequences are equal only if their characters are.
pub proof fn lemma_distinct_singletons(a: char, b: char)
    requires
        a != b,
    ensures
        seq![a] != seq![b],
        seq![a] != Seq::<char>::empty(),
        seq![b] != Seq::<char>::empty(),
{
    assert(seq![a][0] != seq![b][0]);
    assert(seq![a].len() != Seq::<char>::empty().len());
}

/// Decoding the wire number of a version gives the version back.
pub proof fn lemma_proxy_proto_roundtrip(p: ProxyProto)
    ensures
        proxy_proto_of(proxy_proto_code(p)) == p,
{
}

/// The wire codes of edge types are fixed: `0` undefined, `1` TCP, `2` TLS,
/// `3` HTTPS, both ways; any other code reads as undefined.
pub proof fn lemma_edge_type_codes(s: Seq<char>)
    ensures
        edge_type_code(EdgeType::Undefined) == seq!['0'],
        edge_type_code(EdgeType::Tcp) == seq!['1'],
        edge_type_code(EdgeType::Tls) == seq!['2'],
        edge_type_code(EdgeType::Https) == seq!['3'],
        edge_type_of(seq!['1']) == EdgeType::Tcp,
        edge_type_of(seq!['2']) == EdgeType::Tls,
        edge_type_of(seq!['3']) == EdgeType::Https,
        s != seq!['1'] && s != seq!['2'] && s != seq!['3'] ==> edge_type_of(s) == EdgeType::Undefined,
{
    assert(seq!['2'] != seq!['1']) by { assert(seq!['2'][0] != seq!['1'][0]); }
    assert(seq!['3'] != seq!['1']) by { assert(seq!['3'][0] != seq!['1'][0]); }
    assert(seq!['3'] != seq!['2']) by { assert(seq!['3'][0] != seq!['2'][0]); }
}

/// Parsing the wire code of an edge type gives the edge type back.
pub proof fn lemma_edge_type_roundtrip(e: EdgeType)
    ensures
        edge_type_of(edge_type_code(e)) == e,
{
    assert(seq!['0'] != seq!['1']) by { assert(seq!['0'][0] != seq!['1'][0]); }
    assert(seq!['0'] != seq!['2']) by { assert(seq!['0'][0] != seq!['2'][0]); }
    assert(seq!['0'] != seq!['3']) by { assert(seq!['0'][0] != seq!['3'][0]); }
    assert(seq!['1'] != seq!['2']) by { assert(seq!['1'][0] != seq!['2'][0]); }
    assert(seq!['1'] != seq!['3']) by { assert(seq!['1'][0] != seq!['3'][0]); }
    assert(seq!['2'] != seq!['3']) by { assert(seq!['2'][0] != seq!['3'][0]); }
}

/// Options of an HTTP endpoint.
#[derive(Clone)]
pub struct HttpEndpoint {
    pub hostname: String,
    pub domain: String,
    pub auth: String,
    pub subdomain: String,
    pub host_header_rewrite: bool,
    pub local_url_scheme: Option<String>,
    pub proxy_proto: ProxyProto,
    pub compression: Option<Compression>,
    pub circuit_breaker: Option<CircuitBreaker>,
    pub ip_restriction: Option<IpRestriction>,
    pub basic_auth: Option<BasicAuth>,
    pub oauth: Option<Oauth>,
    pub oidc: Option<Oidc>,
    pub webhook_verification: Option<WebhookVerification>,
    pub mutual_tls_ca: Option<MutualTls>,
    pub request_headers: Option<Headers>,
    pub response_headers: Option<Headers>,
    pub websocket_tcp_converter: Option<WebsocketTcpConverter>,
    pub user_agent_filter: Option<UserAgentFilter>,
    pub policy: Option<Policy>,
    pub traffic_policy: Option<PolicyWrapper>,
}

impl HttpEndpoint {
    /// An HTTP endpoint with nothing set.
    pub fn empty() -> (r: HttpEndpoint)
        ensures
            http_endpoint_is_empty(r),
    {
        HttpEndpoint {
            hostname: String::new(),
            domain: String::new(),
            auth: String::new(),
            subdomain: String::new(),
            host_header_rewrite: false,
            local_url_scheme: None,
            proxy_proto: ProxyProto::Disabled,
            compression: None,
            circuit_breaker: None,
            ip_restriction: None,
            basic_auth: None,
            oauth: None,
            oidc: None,
            webhook_verification: None,
            mutual_tls_ca: None,
            request_headers: None,
            response_headers: None,
            websocket_tcp_converter: None,
            user_agent_filter: None,
            policy: None,
            traffic_policy: None,
        }
    }
}

/// Whether an HTTP endpoint has nothing set.
pub open spec fn http_endpoint_is_empty(r: HttpEndpoint) -> bool {
    &&& r.hostname@.len() == 0
    &&& r.domain@.len() == 0
    &&& r.auth@.len() == 0
    &&& r.subdomain@.len() == 0
    &&& !r.host_header_rewrite
    &&& r.local_url_scheme is None
    &&& r.proxy_proto == ProxyProto::Disabled
    &&& r.compression is None
    &&& r.circuit_breaker is None
    &&& r.ip_restriction is None
    &&& r.basic_auth is None
    &&& r.oauth is None
    &&& r.oidc is None
    &&& r.webhook_verification is None
    &&& r.mutual_tls_ca is None
    &&& r.request_headers is None
    &&& r.response_headers is None
    &&& r.websocket_tcp_converter is None
    &&& r.user_agent_filter is None
    &&& r.policy is None
    &&& r.traffic_policy is None
}

/// Enables gzip compression.
#[derive(Clone, Copy)]
pub struct Compression {}

/// Stops sending requests to the tunnel above a 5XX response ratio.
///
/// The ratio is a 64-bit float; it is carried here by its bit pattern
/// (`f64::to_bits`).
#[derive(Clone, Copy)]
pub struct CircuitBreaker {
    pub error_threshold_bits: u64,
}

/// Basic authentication credentials.
#[derive(Clone)]
pub struct BasicAuth {
    pub credentials: Vec<BasicAuthCredential>,
}

/// One basic authentication credential.
#[derive(Clone)]
pub struct BasicAuthCredential {
    pub username: String,
    pub cleartext_password: String,
    pub hashed_password: Vec<u8>,
}

/// Restrictions on the origin of incoming connections.
#[derive(Clone)]
pub struct IpRestriction {
    pub allow_cidrs: Vec<String>,
    pub deny_cidrs: Vec<String>,
}

/// OAuth configuration.
#[derive(Clone)]
pub struct Oauth {
    pub provider: String,
    pub client_id: String,
    pub client_secret: SecretString,
    pub sealed_client_secret: Vec<u8>,
    pub allow_emails: Vec<String>,
    pub allow_domains: Vec<String>,
    pub scopes: Vec<String>,
}

/// OpenID Connect configuration.
#[derive(Clone)]
pub struct Oidc {
    pub issuer_url: String,
    pub client_id: String,
    pub client_secret: SecretString,
    pub sealed_client_secret: Vec<u8>,
    pub allow_emails: Vec<String>,
    pub allow_domains: Vec<String>,
    pub scopes: Vec<String>,
}

/// Webhook verification configuration.
#[derive(Clone)]
pub struct WebhookVerification {
    pub provider: String,
    pub secret: SecretString,
    pub sealed_secret: Vec<u8>,
}

/// Mutual TLS certificate authorities, concatenated in PEM format.
#[derive(Clone)]
pub struct MutualTls {
    pub mutual_tls_ca: Vec<u8>,
}

/// Header modifications: `name:value` entries to add, names to remove.
#[derive(Clone)]
pub struct Headers {
    pub add: Vec<String>,
    pub remove: Vec<String>,
    pub add_parsed: StringMap,
}

/// Enables the websocket-to-TCP converter.
#[derive(Clone, Copy)]
pub struct WebsocketTcpConverter {}

/// User agent filtering by regular expressions.
#[derive(Clone)]
pub struct UserAgentFilter {
    pub allow: Vec<String>,
    pub deny: Vec<String>,
}

/// Options of a TCP endpoint.
#[derive(Clone)]
pub struct TcpEndpoint {
    pub addr: String,
    pub proxy_proto: ProxyProto,
    pub ip_restriction: Option<IpRestriction>,
    pub policy: Option<Policy>,
    pub traffic_policy: Option<PolicyWrapper>,
}

impl TcpEndpoint {
    /// A TCP endpoint with nothing set.
    pub fn empty() -> (r: TcpEndpoint)
        ensures
            r.addr@.len() == 0,
            r.proxy_proto == ProxyProto::Disabled,
            r.ip_restriction is None,
            r.policy is None,
            r.traffic_policy is None,
    {
        TcpEndpoint {
            addr: String::new(),
            proxy_proto: ProxyProto::Disabled,
            ip_restriction: None,
            policy: None,
            traffic_policy: None,
        }
    }
}

/// Options of a TLS endpoint.
#[derive(Clone)]
pub struct TlsEndpoint {
    pub hostname: String,
    pub domain: String,
    pub subdomain: String,
    pub proxy_proto: ProxyProto,
    pub mutual_tls_at_agent: bool,
    pub mutual_tls_at_edge: Option<MutualTls>,
    pub tls_termination: Option<TlsTermination>,
    pub ip_restriction: Option<IpRestriction>,
    pub traffic_policy: Option<PolicyWrapper>,
}

impl TlsEndpoint {
    /// A TLS endpoint with nothing set.
    pub fn empty() -> (r: TlsEndpoint)
        ensures
            r.hostname@.len() == 0,
            r.domain@.len() == 0,
            r.subdomain@.len() == 0,
            r.proxy_proto == ProxyProto::Disabled,
            !r.mutual_tls_at_agent,
            r.mutual_tls_at_edge is None,
            r.tls_termination is None,
            r.ip_restriction is None,
            r.traffic_policy is None,
    {
        TlsEndpoint {
            hostname: String::new(),
            domain: String::new(),
            subdomain: String::new(),
            proxy_proto: ProxyProto::Disabled,
            mutual_tls_at_agent: false,
            mutual_tls_at_edge: None,
            tls_termination: None,
            ip_restriction: None,
            traffic_policy: None,
        }
    }
}

/// TLS termination at the edge.
#[derive(Clone)]
pub struct TlsTermination {
    pub cert: Vec<u8>,
    pub key: SecretBytes,
    pub sealed_key: Vec<u8>,
}

/// Options of a labeled endpoint.
#[derive(Clone)]
pub struct LabelEndpoint {
    pub labels: StringMap,
}

/// A traffic policy as sent on the wire.
#[derive(Clone)]
pub struct Policy {
    pub inbound: Vec<Rule>,
    pub outbound: Vec<Rule>,
}

/// A traffic policy rule as sent on the wire.
#[derive(Clone)]
pub struct Rule {
    pub name: String,
    pub expressions: Vec<String>,
    pub actions: Vec<Action>,
}

/// A traffic policy action as sent on the wire; `config` is JSON text.
#[derive(Clone)]
pub struct Action {
    pub type_: String,
    pub config: Vec<u8>,
}

/// A traffic policy document given as text.
#[derive(Clone)]
pub enum PolicyWrapper {
    String(String),
}

} // verus!
