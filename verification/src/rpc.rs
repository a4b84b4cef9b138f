//! Remote procedure calls to the ngrok service: the requests an agent
//! sends, how responses and incoming streams are told apart, and the errors
//! that calls end in.

use vstd::prelude::*;

use crate::proto::{
    err_resp_of, protocol_version, Auth, AuthExtra, Bind, BindExtra, BindOpts, CommandResp, ErrResp,
    NgrokError, StartTunnelWithLabel, Unbind, PROXY_REQ, RESTART_REQ, STOP_REQ, UPDATE_REQ,
};
use crate::strmap::StringMap;
use crate::text::{copy_opt_string, opt_view, owned, push_str};

verus! {

#[verifier::external_type_specification]
#[verifier::external_body]
pub struct ExMuxadoError(muxado::Error);

#[verifier::external_type_specification]
#[verifier::external_body]
pub struct ExIoError(std::io::Error);

/// Errors arising from tunneling protocol RPC calls.
#[derive(Debug)]
pub enum RpcError {
    /// Failed to open a new stream to start the RPC call.
    Open(muxado::Error),
    /// Some other transport error occurred.
    Transport(muxado::Error),
    /// Failed to send the request over the stream.
    Send(std::io::Error),
    /// Failed to read the RPC response from the stream.
    Receive(std::io::Error),
    /// The RPC response was invalid.
    InvalidResponse(serde_json::Error),
    /// There was an error in the RPC response.
    Response(ErrResp),
}

/// The ngrok error code of an RPC error: only a service response carries one.
pub open spec fn rpc_error_code(e: RpcError) -> Option<Seq<char>> {
    match e {
        RpcError::Response(r) => opt_view(r.error_code),
        _ => None,
    }
}

/// The message of an RPC error: the service's message for an error
/// response, otherwise a fixed description of what failed.
pub open spec fn rpc_error_msg(e: RpcError) -> Seq<char> {
    match e {
        RpcError::Open(_) => "failed to open muxado stream"@,
        RpcError::Transport(_) => "transport error"@,
        RpcError::Send(_) => "error sending rpc request"@,
        RpcError::Receive(_) => "error reading rpc response"@,
        RpcError::InvalidResponse(_) => "failed to deserialize rpc response"@,
        RpcError::Response(r) => r.msg@,
    }
}

impl RpcError {
    /// The message, as a string.
    pub fn message(&self) -> (r: String)
        ensures
            r@ == rpc_error_msg(*self),
    {
        match self {
            RpcError::Open(_) => owned("failed to open muxado stream"),
            RpcError::Transport(_) => owned("transport error"),
            RpcError::Send(_) => owned("error sending rpc request"),
            RpcError::Receive(_) => owned("error reading rpc response"),
            RpcError::InvalidResponse(_) => owned("failed to deserialize rpc response"),
            RpcError::Response(r) => r.msg.clone(),
        }
    }

    /// The code, as a string.
    pub fn code(&self) -> (r: Option<String>)
        ensures
            opt_view(r) == rpc_error_code(*self),
    {
        match self {
            RpcError::Response(r) => copy_opt_string(&r.error_code),
            _ => None,
        }
    }

    /// The text shown for this error: an error response is introduced and
    /// shown in full, other errors by their description.
    pub fn to_display_string(&self) -> (r: String)
        ensures
            r@ == match *self {
                RpcError::Response(resp) => "rpc error response:\n"@ + match resp.error_code {
                    Some(c) => resp.msg@ + "\n\nERR_NGROK_"@ + c@,
                    None => resp.msg@,
                },
                _ => rpc_error_msg(*self),
            },
    {
        match self {
            RpcError::Response(resp) => {
                let mut r = owned("rpc error response:\n");
                let shown = resp.to_display_string();
                push_str(&mut r, shown.as_str());
                proof {
                    reveal_strlit("\n\nERR_NGROK_");
                    assert(seq!['\n', '\n', 'E', 'R', 'R', '_', 'N', 'G', 'R', 'O', 'K', '_'] =~= "\n\nERR_NGROK_"@);
                }
                r
            },
            _ => self.message(),
        }
    }
}

impl NgrokError for RpcError {
    fn error_code(&self) -> (r: Option<String>)
        ensures
            opt_view(r) == rpc_error_code(*self),
    {
        self.code()
    }

    fn msg(&self) -> (r: String)
        ensures
            r@ == rpc_error_msg(*self),
    {
        self.message()
    }
}

/// Errors arising when starting a session.
#[derive(Debug)]
pub enum StartSessionError {
    /// The heartbeat task could not be started.
    StartHeartbeat(std::io::Error),
}

/// The error that an RPC response's `Error` field reports: none when the
/// field is empty, else the field parsed as an error response.
pub fn response_error(error: &str) -> (r: Option<ErrResp>)
    ensures
        error@.len() == 0 ==> r is None,
        error@.len() > 0 ==> (r matches Some(e) && opt_view(e.error_code) == err_resp_of(error@).0
            && e.msg@ == err_resp_of(error@).1),
{
    if error.unicode_len() == 0 {
        None
    } else {
        Some(ErrResp::from_message(error))
    }
}

/// The authentication request for a session: the session id (empty for a
/// new session), the client information, and the protocol version spoken.
pub fn auth_request(id: &str, extra: AuthExtra) -> (r: Auth)
    ensures
        r.client_id@ == id@,
        r.extra == extra,
        r.version@.len() == 1,
        r.version@[0]@ == seq!['2'],
{
    let mut version: Vec<String> = Vec::new();
    version.push(protocol_version());
    Auth { client_id: owned(id), extra, version }
}

/// The request to bind a tunnel.
pub fn bind_request(protocol: &str, opts: BindOpts, extra: BindExtra, id: &str, forwards_to: &str) -> (r:
    Bind<BindOpts>)
    ensures
        r.client_id@ == id@,
        r.proto@ == protocol@,
        r.forwards_to@ == forwards_to@,
        r.opts == opts,
        r.extra == extra,
{
    Bind { client_id: owned(id), proto: owned(protocol), forwards_to: owned(forwards_to), opts, extra }
}

/// The request to start a labeled tunnel.
pub fn label_request(labels: StringMap, metadata: &str, forwards_to: &str) -> (r: StartTunnelWithLabel)
    ensures
        r.labels == labels,
        r.metadata@ == metadata@,
        r.forwards_to@ == forwards_to@,
{
    StartTunnelWithLabel { labels, metadata: owned(metadata), forwards_to: owned(forwards_to) }
}

/// The request to stop a tunnel.
pub fn unbind_request(id: &str) -> (r: Unbind)
    ensures
        r.client_id@ == id@,
{
    Unbind { client_id: owned(id) }
}

/// The answer given to a dashboard command for which the agent has no
/// handler.
pub open spec fn not_implemented_text() -> Seq<char> {
    "the agent has not defined a callback for this operation"@
}

/// The response to a dashboard command: no error when the handler succeeded,
/// the handler's error when it failed, and a fixed error when there was no
/// handler (`None`).
pub fn command_response(outcome: Option<Result<(), String>>) -> (r: CommandResp)
    ensures
        match outcome {
            None => opt_view(r.error) == Some(not_implemented_text()),
            Some(Ok(())) => r.error is None,
            Some(Err(e)) => opt_view(r.error) == Some(e@),
        },
{
    match outcome {
        None => CommandResp { error: Some(owned("the agent has not defined a callback for this operation")) },
        Some(Ok(())) => CommandResp { error: None },
        Some(Err(e)) => CommandResp { error: Some(e) },
    }
}

/// What an incoming stream carries, by its stream type.
#[derive(Clone, Copy, Debug, PartialEq, Eq, Structural)]
pub enum IncomingStream {
    /// A restart command from the dashboard.
    Restart,
    /// An update command from the dashboard.
    Update,
    /// A stop command from the dashboard.
    Stop,
    /// A proxied connection.
    Proxy,
    /// An unknown stream type.
    Invalid(u32),
}

/// Classifies an incoming stream by its type.
pub fn classify_stream(typ: u32) -> (r: IncomingStream)
    ensures
        r == (if typ == RESTART_REQ {
            IncomingStream::Restart
        } else if typ == UPDATE_REQ {
            IncomingStream::Update
        } else if typ == STOP_REQ {
            IncomingStream::Stop
        } else if typ == PROXY_REQ {
            IncomingStream::Proxy
        } else {
            IncomingStream::Invalid(typ)
        }),
{
    if typ == RESTART_REQ {
        IncomingStream::Restart
    } else if typ == UPDATE_REQ {
        IncomingStream::Update
    } else if typ == STOP_REQ {
        IncomingStream::Stop
    } else if typ == PROXY_REQ {
        IncomingStream::Proxy
    } else {
        IncomingStream::Invalid(typ)
    }
}

/// Whether bytes hold one complete JSON value (`serde_json::from_slice`
/// into a `serde_json::Value` succeeds).
pub uninterp spec fn spec_json_value_bytes(b: Seq<u8>) -> bool;

/// Whether bytes hold one complete JSON value.
///
/// Trusted: the answer is the deterministic `spec_json_value_bytes` of the
/// bytes; JSON syntax is not stated.
#[verifier::external_body]
fn json_value_complete(b: &[u8]) -> (r: bool)
    ensures
        r == spec_json_value_bytes(b@),
{
    serde_json::from_slice::<serde_json::Value>(b).is_ok()
}

/// The bytes of a dashboard command read so far: a command is read chunk by
/// chunk until the bytes hold one complete JSON value.
pub struct CommandReader {
    pub buf: Vec<u8>,
}

impl CommandReader {
    /// Nothing read yet.
    pub fn new() -> (r: CommandReader)
        ensures
            r.buf@ == Seq::<u8>::empty(),
    {
        CommandReader { buf: Vec::new() }
    }

    /// Adds a chunk read from the stream; whether the bytes now hold a
    /// complete JSON value.
    pub fn feed(&mut self, chunk: &[u8]) -> (r: bool)
        ensures
            final(self).buf@ == old(self).buf@ + chunk@,
            r == spec_json_value_bytes(final(self).buf@),
    {
        let mut i: usize = 0;
        let ghost start = self.buf@;
        while i < chunk.len()
            invariant
                i <= chunk@.len(),
                self.buf@ == start + chunk@.take(i as int),
            decreases chunk.len() - i,
        {
            self.buf.push(chunk[i]);
            i = i + 1;
            assert(self.buf@ =~= start + chunk@.take(i as int));
        }
        assert(chunk@.take(chunk.len() as int) =~= chunk@);
        json_value_complete(self.buf.as_slice())
    }
}

#[verifier::external_type_specification]
#[verifier::external_body]
pub struct ExFromUtf8Error(std::string::FromUtf8Error);

/// Errors reading the header that precedes a proxied connection.
#[derive(Debug)]
pub enum ReadHeaderError {
    /// Reading the header failed.
    Io(std::io::Error),
    /// The header is not UTF-8.
    InvalidUtf8(std::string::FromUtf8Error),
    /// The header is not the expected JSON.
    InvalidHeader(serde_json::Error),
}

/// Errors accepting an incoming stream.
#[derive(Debug)]
pub enum AcceptError {
    /// The transport failed.
    Transport(muxado::Error),
    /// The header of a proxied connection could not be read.
    Header(ReadHeaderError),
    /// The stream has an unknown type.
    InvalidType(u32),
}

/// The text shown for an error accepting a stream.
pub open spec fn accept_error_text(e: AcceptError) -> Seq<char> {
    match e {
        AcceptError::Transport(_) => "transport error when accepting connection"@,
        AcceptError::Header(ReadHeaderError::Io(_)) => "error reading proxy header"@,
        AcceptError::Header(ReadHeaderError::InvalidUtf8(_)) => "invalid utf-8 in proxy header"@,
        AcceptError::Header(ReadHeaderError::InvalidHeader(_)) => "invalid proxy header json"@,
        AcceptError::InvalidType(t) => "invalid stream type: "@ + crate::text::decimal(t as nat),
    }
}

impl AcceptError {
    /// Whether the session is broken: only a transport error is; a bad
    /// header or stream type is skipped.
    pub fn is_fatal(&self) -> (r: bool)
        ensures
            r == (*self is Transport),
    {
        match self {
            AcceptError::Transport(_) => true,
            _ => false,
        }
    }

    /// The text shown for this error.
    pub fn to_display_string(&self) -> (r: String)
        ensures
            r@ == accept_error_text(*self),
    {
        match self {
            AcceptError::Transport(_) => owned("transport error when accepting connection"),
            AcceptError::Header(ReadHeaderError::Io(_)) => owned("error reading proxy header"),
            AcceptError::Header(ReadHeaderError::InvalidUtf8(_)) => owned("invalid utf-8 in proxy header"),
            AcceptError::Header(ReadHeaderError::InvalidHeader(_)) => owned("invalid proxy header json"),
            AcceptError::InvalidType(t) => {
                let mut r = owned("invalid stream type: ");
                crate::text::push_decimal(&mut r, *t as u128);
                r
            },
        }
    }
}

} // verus!
