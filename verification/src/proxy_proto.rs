//! The PROXY-protocol header at the start of a connection: reading it from
//! incoming bytes, and writing it before outgoing ones.
//!
//! Reading is a state machine. The caller performs the reads; each step takes
//! what a read produced and decides the next state and what the caller does
//! next. Once a header has been found, or it is known that none is coming,
//! the state no longer changes, and the bytes read past the header are handed
//! back before any further reads of the connection.

use vstd::prelude::*;

verus! {

/// The most bytes read while looking for a header: 536 is the smallest
/// possible TCP segment, which both versions are guaranteed to fit into.
pub const MAX_HEADER_LEN: usize = 536;

/// The fewest bytes a parse is attempted on: a version 2 header starts with
/// at least 16 bytes.
pub const MIN_HEADER_LEN: usize = 16;

#[verifier::external_type_specification]
#[verifier::external_body]
pub struct ExProxyHeader(proxy_protocol::ProxyHeader);

#[verifier::external_type_specification]
#[verifier::external_body]
pub struct ExParseError(proxy_protocol::ParseError);

#[verifier::external_type_specification]
#[verifier::external_body]
pub struct ExEncodeError(proxy_protocol::EncodeError);

/// The outcome of a parse, as values.
pub enum ParseStatus {
    /// This header, followed by this many unread bytes.
    Parsed(proxy_protocol::ProxyHeader, usize),
    /// The bytes do not start a PROXY header at all.
    NotProxyHeader,
    /// Another parse error: malformed, or not enough bytes yet.
    Invalid,
}

/// The outcome of a parse.
#[derive(Debug)]
pub enum ParseOutcome {
    /// A header, followed by this many unread bytes.
    Header(proxy_protocol::ProxyHeader, usize),
    /// The bytes do not start a PROXY header at all.
    NotProxyHeader,
    /// Another parse error.
    Invalid(proxy_protocol::ParseError),
}

/// The plain status of a parse outcome.
pub open spec fn outcome_status(o: ParseOutcome) -> ParseStatus {
    match o {
        ParseOutcome::Header(h, n) => ParseStatus::Parsed(h, n),
        ParseOutcome::NotProxyHeader => ParseStatus::NotProxyHeader,
        ParseOutcome::Invalid(_) => ParseStatus::Invalid,
    }
}

/// What `proxy_protocol::parse` makes of a byte string: the header it reads
/// and how many bytes follow it, or which kind of error.
pub uninterp spec fn spec_proxy_parse(b: Seq<u8>) -> ParseStatus;

/// The bytes `proxy_protocol::encode` writes for a header.
pub uninterp spec fn spec_proxy_encode(h: proxy_protocol::ProxyHeader) -> Seq<u8>;

/// `"PROXY "`, which starts every version 1 header.
pub open spec fn v1_signature() -> Seq<u8> {
    seq![0x50u8, 0x52u8, 0x4Fu8, 0x58u8, 0x59u8, 0x20u8]
}

/// The twelve bytes that start every version 2 header.
pub open spec fn v2_signature() -> Seq<u8> {
    seq![0x0Du8, 0x0Au8, 0x0Du8, 0x0Au8, 0x00u8, 0x0Du8, 0x0Au8, 0x51u8, 0x55u8, 0x49u8, 0x54u8, 0x0Au8]
}

/// Whether bytes start with neither version's signature, so that they
/// cannot begin a PROXY header.
pub open spec fn lacks_proxy_signature(b: Seq<u8>) -> bool {
    b.len() < 6 || (b.take(6) != v1_signature() && (b.len() < 13 || b.take(12) != v2_signature()))
}

/// The address block length that a version 2 header's address family needs
/// (IPv4, IPv6, Unix).
pub open spec fn v2_needed(family: int) -> int {
    if family == 1 {
        12
    } else if family == 2 {
        36
    } else {
        216
    }
}

/// Whether bytes hold a well-formed version 2 header start whose declared
/// length, though covering the addresses present, runs past the bytes at
/// hand. The parser does not return on such input.
pub open spec fn v2_overruns(b: Seq<u8>) -> bool {
    &&& b.len() >= 16
    &&& b.take(12) == v2_signature()
    &&& b[12] / 16 == 2
    &&& b[12] % 16 <= 1
    &&& 1 <= b[13] / 16 <= 3
    &&& b[13] % 16 <= 2
    &&& b[14] * 256 + b[15] >= v2_needed((b[13] / 16) as int)
    &&& b.len() - 16 >= v2_needed((b[13] / 16) as int)
    &&& b[14] * 256 + b[15] > b.len() - 16
}

/// The inputs on which the parser returns: not ending in a carriage return
/// (a version 1 header cut before its line feed), and not a version 2
/// header overrunning its bytes.
pub open spec fn parse_is_safe(b: Seq<u8>) -> bool {
    &&& (b.len() == 0 || b.last() != 13u8)
    &&& !v2_overruns(b)
}

/// Parses a PROXY header at the start of `buf` (`proxy_protocol::parse`),
/// reporting how many bytes follow it.
///
/// Trusted: the outcome, the header read included, is the deterministic
/// `spec_proxy_parse` of the bytes; "not a PROXY header" is reported exactly
/// when neither signature starts the bytes (as `parse_version` in the
/// crate's source shows); what follows a header is a part of the input.
/// Which headers parse is not stated.
#[verifier::external_body]
fn parse_raw(buf: &[u8]) -> (r: ParseOutcome)
    requires
        parse_is_safe(buf@),
    ensures
        outcome_status(r) == spec_proxy_parse(buf@),
        r is NotProxyHeader <==> lacks_proxy_signature(buf@),
        r matches ParseOutcome::Header(_, n) ==> n <= buf@.len(),
{
    let mut rest = buf;
    match proxy_protocol::parse(&mut rest) {
        Ok(h) => ParseOutcome::Header(h, rest.len()),
        Err(proxy_protocol::ParseError::NotProxyHeader) => ParseOutcome::NotProxyHeader,
        Err(e) => ParseOutcome::Invalid(e),
    }
}

/// Encodes a PROXY header (`proxy_protocol::encode`).
///
/// Trusted: encoding succeeds; the bytes are the deterministic
/// `spec_proxy_encode` of the header (the function reads nothing but the
/// header); and they start with the signature of the header's version
/// (`PROXY ` for version 1, the twelve signature bytes and at least four
/// more for version 2), as the crate's source shows: its only error comes
/// from writing into a growable in-memory buffer, which does not fail. Which
/// bytes follow the signature is not stated.
#[verifier::external_body]
fn encode_raw(header: proxy_protocol::ProxyHeader) -> (r: Result<Vec<u8>, proxy_protocol::EncodeError>)
    ensures
        r is Ok,
        match r {
            Ok(b) => b@ == spec_proxy_encode(header) && !lacks_proxy_signature(b@),
            Err(_) => true,
        },
{
    match proxy_protocol::encode(header) {
        Ok(b) => Ok(b.to_vec()),
        Err(e) => Err(e),
    }
}

/// Whether the bytes hold a version 2 header overrunning them.
pub fn v2_length_overruns(b: &[u8]) -> (r: bool)
    ensures
        r == v2_overruns(b@),
{
    let n = b.len();
    if n < 16 {
        return false;
    }
    let sig: [u8; 12] = [0x0D, 0x0A, 0x0D, 0x0A, 0x00, 0x0D, 0x0A, 0x51, 0x55, 0x49, 0x54, 0x0A];
    let mut i: usize = 0;
    while i < 12
        invariant
            i <= 12,
            n == b@.len(),
            n >= 16,
            sig@ == v2_signature(),
            forall|j: int| 0 <= j < i ==> b@[j] == sig@[j],
        decreases 12 - i,
    {
        if b[i] != sig[i] {
            assert(b@.take(12)[i as int] != v2_signature()[i as int]);
            return false;
        }
        i = i + 1;
    }
    assert(b@.take(12) =~= v2_signature());
    let ver = b[12];
    let fam = b[13];
    if ver / 16 != 2 || ver % 16 > 1 || fam / 16 < 1 || fam / 16 > 3 || fam % 16 > 2 {
        return false;
    }
    let needed: usize = if fam / 16 == 1 {
        12
    } else if fam / 16 == 2 {
        36
    } else {
        216
    };
    let declared: usize = (b[14] as usize) * 256 + (b[15] as usize);
    declared >= needed && n - 16 >= needed && declared > n - 16
}

/// Parses a PROXY header at the start of `buf`; `None` for inputs the parser
/// would not return on (see `parse_is_safe`).
pub fn parse_header(buf: &[u8]) -> (r: Option<ParseOutcome>)
    ensures
        parse_is_safe(buf@) <==> r is Some,
        r matches Some(o) ==> outcome_status(o) == spec_proxy_parse(buf@) && (o is NotProxyHeader
            <==> lacks_proxy_signature(buf@)),
        r matches Some(ParseOutcome::Header(_, n)) ==> n <= buf@.len(),
{
    if buf.len() > 0 && buf[buf.len() - 1] == 13 {
        return None;
    }
    if v2_length_overruns(buf) {
        return None;
    }
    Some(parse_raw(buf))
}

/// How a read of the connection ended.
#[derive(Clone, Copy, Debug, PartialEq, Eq, Structural)]
pub enum PollStatus {
    /// The read completed.
    ReadyOk,
    /// The read failed.
    ReadyErr,
    /// No data yet; the caller will be woken.
    Pending,
}

/// What one read of the connection produced.
#[derive(Clone, Debug)]
pub struct ReadEvent {
    /// The bytes read, whatever the status.
    pub filled: Vec<u8>,
    /// How the read ended.
    pub status: PollStatus,
}

/// What the caller does after a step of header reading.
#[derive(Clone, Copy, Debug, PartialEq, Eq, Structural)]
pub enum Step {
    /// Take another step.
    Continue,
    /// Stop: header reading is settled.
    Ready,
    /// Stop, and report the read's own outcome (its error, its end, or that
    /// it is pending).
    ReturnRead,
}

/// The state of header reading.
#[derive(Debug)]
pub enum ReadState {
    /// Still reading; the last parse error, if any, and the bytes read.
    Reading(Option<proxy_protocol::ParseError>, Vec<u8>),
    /// Reading ended in a parse error; the bytes read.
    Error(proxy_protocol::ParseError, Vec<u8>),
    /// Reading ended with the header, if there was one, and the bytes after
    /// it.
    Header(Option<proxy_protocol::ProxyHeader>, Vec<u8>),
    /// No header is read on this connection.
    Inactive,
}

/// The phase of header reading.
pub enum ReadPhase {
    /// Still reading; whether a parse has failed.
    Reading { failed: bool },
    /// Ended in a parse error.
    Error,
    /// Ended; the header, if one was found.
    Header { header: Option<proxy_protocol::ProxyHeader> },
    /// No header is read.
    Inactive,
}

/// The outcome of a read as plain values.
pub open spec fn event_view(e: Option<ReadEvent>) -> Option<(Seq<u8>, PollStatus)> {
    match e {
        Some(ev) => Some((ev.filled@, ev.status)),
        None => None,
    }
}

/// The part of a reading step that follows the read: the parse attempt on
/// the bytes at hand.
pub open spec fn parse_step(failed: bool, b: Seq<u8>) -> (ReadPhase, Seq<u8>, Step) {
    if b.len() < MIN_HEADER_LEN || b.last() == 13u8 {
        (ReadPhase::Reading { failed }, b, Step::Continue)
    } else {
        match spec_proxy_parse(b) {
            ParseStatus::Parsed(h, rest) => (
                ReadPhase::Header { header: Some(h) },
                b.skip(b.len() - rest),
                Step::Ready,
            ),
            ParseStatus::NotProxyHeader => (ReadPhase::Header { header: None }, b, Step::Ready),
            ParseStatus::Invalid => if b.len() >= MAX_HEADER_LEN {
                (ReadPhase::Error, b, Step::Continue)
            } else {
                (ReadPhase::Reading { failed: true }, b, Step::Continue)
            },
        }
    }
}

/// The phase a read's end leads to: the last parse error becomes final, or
/// else the connection carries no header.
pub open spec fn ended_phase(failed: bool) -> ReadPhase {
    if failed {
        ReadPhase::Error
    } else {
        ReadPhase::Header { header: None }
    }
}

/// One step of header reading: from the phase, the bytes held and what the
/// read (made only while fewer than the maximum bytes are held) produced, to
/// the next phase, the bytes then held, and what the caller does next.
pub open spec fn read_step(p: ReadPhase, buf: Seq<u8>, read: Option<(Seq<u8>, PollStatus)>) -> (
    ReadPhase,
    Seq<u8>,
    Step,
) {
    match p {
        ReadPhase::Reading { failed } => {
            if buf.len() < MAX_HEADER_LEN {
                match read {
                    Some((filled, status)) => {
                        let b = buf + filled;
                        if status == PollStatus::ReadyErr || (status == PollStatus::ReadyOk
                            && filled.len() == 0) {
                            (ended_phase(failed), b, Step::ReturnRead)
                        } else if status == PollStatus::Pending {
                            (ReadPhase::Reading { failed }, b, Step::ReturnRead)
                        } else {
                            parse_step(failed, b)
                        }
                    },
                    None => (p, buf, Step::Continue),
                }
            } else {
                parse_step(failed, buf)
            }
        },
        _ => (p, buf, Step::Ready),
    }
}

/// The bytes a step may parse: those held plus those just read.
pub open spec fn step_input(buf: Seq<u8>, read: Option<(Seq<u8>, PollStatus)>) -> Seq<u8> {
    match read {
        Some((filled, _)) => buf + filled,
        None => buf,
    }
}

impl ReadState {
    /// Ready to read a header: nothing read, no error.
    pub fn new() -> (r: ReadState)
        ensures
            r.phase() == (ReadPhase::Reading { failed: false }),
            r.buffer() == Seq::<u8>::empty(),
    {
        ReadState::Reading(None, Vec::new())
    }

    /// The phase.
    pub open spec fn phase(&self) -> ReadPhase {
        match self {
            ReadState::Reading(e, _) => ReadPhase::Reading { failed: e is Some },
            ReadState::Error(_, _) => ReadPhase::Error,
            ReadState::Header(h, _) => ReadPhase::Header { header: *h },
            ReadState::Inactive => ReadPhase::Inactive,
        }
    }

    /// The bytes held: read so far, or left over after the header.
    pub open spec fn buffer(&self) -> Seq<u8> {
        match self {
            ReadState::Reading(_, b) => b@,
            ReadState::Error(_, b) => b@,
            ReadState::Header(_, b) => b@,
            ReadState::Inactive => Seq::empty(),
        }
    }

    /// The last parse error, if one is held.
    pub open spec fn last_error(&self) -> Option<proxy_protocol::ParseError> {
        match self {
            ReadState::Reading(e, _) => *e,
            ReadState::Error(e, _) => Some(*e),
            _ => None,
        }
    }

    /// Whether reading is settled.
    pub open spec fn is_settled(&self) -> bool {
        !(self is Reading)
    }

    /// Whether the next step reads the connection first: while reading and
    /// holding fewer than the maximum bytes.
    pub open spec fn wants_read(&self) -> bool {
        self matches ReadState::Reading(_, b) && b@.len() < MAX_HEADER_LEN
    }

    /// Whether the next step reads the connection first.
    pub fn needs_read(&self) -> (r: bool)
        ensures
            r == self.wants_read(),
    {
        match self {
            ReadState::Reading(_, b) => b.len() < MAX_HEADER_LEN,
            _ => false,
        }
    }

    /// Whether the next step, given what the read produced, would hand the
    /// parser input it does not return on.
    pub fn step_would_overrun(&self, read: &Option<ReadEvent>) -> (r: bool)
        ensures
            r == (self is Reading && v2_overruns(step_input(self.buffer(), event_view(*read)))),
    {
        match self {
            ReadState::Reading(_, b) => {
                let mut input: Vec<u8> = Vec::new();
                let mut i: usize = 0;
                while i < b.len()
                    invariant
                        i <= b.len(),
                        input@ == b@.take(i as int),
                    decreases b.len() - i,
                {
                    input.push(b[i]);
                    i = i + 1;
                    assert(input@ =~= b@.take(i as int));
                }
                assert(b@.take(b.len() as int) =~= b@);
                match read {
                    Some(ev) => {
                        let mut k: usize = 0;
                        while k < ev.filled.len()
                            invariant
                                k <= ev.filled.len(),
                                input@ == b@ + ev.filled@.take(k as int),
                            decreases ev.filled.len() - k,
                        {
                            input.push(ev.filled[k]);
                            k = k + 1;
                            assert(input@ =~= b@ + ev.filled@.take(k as int));
                        }
                        assert(ev.filled@.take(ev.filled.len() as int) =~= ev.filled@);
                    },
                    None => {},
                }
                v2_length_overruns(input.as_slice())
            },
            _ => false,
        }
    }

    /// One step of header reading, given what the read produced when
    /// `needs_read` asked for one.
    pub fn step(self, read: Option<ReadEvent>) -> (r: (ReadState, Step))
        requires
            self.wants_read() <==> read is Some,
            self is Reading ==> !v2_overruns(step_input(self.buffer(), event_view(read))),
        ensures
            (r.0.phase(), r.0.buffer(), r.1) == read_step(self.phase(), self.buffer(), event_view(read)),
            r.1 == Step::ReturnRead ==> r.0.last_error() == self.last_error(),
            self.is_settled() ==> r.0 == self && r.1 == Step::Ready,
            self is Reading && r.1 != Step::ReturnRead && parse_is_safe(step_input(self.buffer(), event_view(read)))
                && step_input(self.buffer(), event_view(read)).len() >= MIN_HEADER_LEN
                && lacks_proxy_signature(step_input(self.buffer(), event_view(read)))
                ==> (r.0 matches ReadState::Header(None, b) && b@ == step_input(self.buffer(), event_view(read))),
    {
        match self {
            ReadState::Reading(err, buf) => {
                let mut buf = buf;
                if buf.len() < MAX_HEADER_LEN {
                    let ev = read.unwrap();
                    let ReadEvent { filled, status } = ev;
                    let mut filled = filled;
                    let n = filled.len();
                    buf.append(&mut filled);
                    match status {
                        PollStatus::ReadyErr => {
                            return match err {
                                Some(e) => (ReadState::Error(e, buf), Step::ReturnRead),
                                None => (ReadState::Header(None, buf), Step::ReturnRead),
                            };
                        },
                        PollStatus::Pending => {
                            return (ReadState::Reading(err, buf), Step::ReturnRead);
                        },
                        PollStatus::ReadyOk => {
                            if n == 0 {
                                return match err {
                                    Some(e) => (ReadState::Error(e, buf), Step::ReturnRead),
                                    None => (ReadState::Header(None, buf), Step::ReturnRead),
                                };
                            }
                        },
                    }
                }
                Self::parse_held(err, buf)
            },
            other => (other, Step::Ready),
        }
    }

    /// The parse attempt of a reading step, on the bytes held.
    fn parse_held(err: Option<proxy_protocol::ParseError>, buf: Vec<u8>) -> (r: (ReadState, Step))
        requires
            !v2_overruns(buf@),
        ensures
            (r.0.phase(), r.0.buffer(), r.1) == parse_step(err is Some, buf@),
            buf@.len() >= MIN_HEADER_LEN && buf@.last() != 13u8 && lacks_proxy_signature(buf@)
                ==> (r.0 matches ReadState::Header(None, b) && b@ == buf@),
    {
        let n = buf.len();
        if n < MIN_HEADER_LEN || buf[n - 1] == 13 {
            return (ReadState::Reading(err, buf), Step::Continue);
        }
        match parse_raw(buf.as_slice()) {
            ParseOutcome::Header(h, rest) => {
                let ghost orig = buf@;
                let mut buf = buf;
                let remainder = buf.split_off(n - rest);
                assert(remainder@ =~= orig.skip(n - rest));
                (ReadState::Header(Some(h), remainder), Step::Ready)
            },
            ParseOutcome::NotProxyHeader => (ReadState::Header(None, buf), Step::Ready),
            ParseOutcome::Invalid(e) => {
                if n >= MAX_HEADER_LEN {
                    (ReadState::Error(e, buf), Step::Continue)
                } else {
                    (ReadState::Reading(Some(e), buf), Step::Continue)
                }
            },
        }
    }

    /// The header result: the parse error that reading ended in (or the last
    /// one while still reading), else the header if one was found.
    pub fn header(&self) -> (r: Result<Option<&proxy_protocol::ProxyHeader>, &proxy_protocol::ParseError>)
        ensures
            match self {
                ReadState::Error(e, _) => r == Err::<Option<&proxy_protocol::ProxyHeader>, &proxy_protocol::ParseError>(e),
                ReadState::Reading(Some(e), _) => r == Err::<Option<&proxy_protocol::ProxyHeader>, &proxy_protocol::ParseError>(e),
                ReadState::Reading(None, _) => r == Ok::<Option<&proxy_protocol::ProxyHeader>, &proxy_protocol::ParseError>(None),
                ReadState::Inactive => r == Ok::<Option<&proxy_protocol::ProxyHeader>, &proxy_protocol::ParseError>(None),
                ReadState::Header(Some(h), _) => r == Ok::<Option<&proxy_protocol::ProxyHeader>, &proxy_protocol::ParseError>(Some(h)),
                ReadState::Header(None, _) => r == Ok::<Option<&proxy_protocol::ProxyHeader>, &proxy_protocol::ParseError>(None),
            },
    {
        match self {
            ReadState::Error(e, _) => Err(e),
            ReadState::Reading(Some(e), _) => Err(e),
            ReadState::Reading(None, _) => Ok(None),
            ReadState::Inactive => Ok(None),
            ReadState::Header(Some(h), _) => Ok(Some(h)),
            ReadState::Header(None, _) => Ok(None),
        }
    }

    /// Hands out bytes left over after reading settled, up to `room` of
    /// them, before the connection itself is read again. `None` when none
    /// are left.
    pub fn take_remainder(&mut self, room: usize) -> (r: Option<Vec<u8>>)
        requires
            old(self).is_settled(),
        ensures
            final(self).phase() == old(self).phase(),
            final(self).last_error() == old(self).last_error(),
            old(self).buffer().len() == 0 ==> r is None && final(self).buffer() == old(self).buffer(),
            old(self).buffer().len() > 0 ==> (r matches Some(c) && c@ == old(self).buffer().take(
                min_len(old(self).buffer().len(), room as nat) as int,
            ) && final(self).buffer() == old(self).buffer().skip(
                min_len(old(self).buffer().len(), room as nat) as int,
            )),
    {
        let mut state = ReadState::Inactive;
        std::mem::swap(&mut state, self);
        match state {
            ReadState::Error(e, buf) => {
                if buf.len() == 0 {
                    *self = ReadState::Error(e, buf);
                    return None;
                }
                let (chunk, rest) = split_front(buf, room);
                *self = ReadState::Error(e, rest);
                Some(chunk)
            },
            ReadState::Header(h, buf) => {
                if buf.len() == 0 {
                    *self = ReadState::Header(h, buf);
                    return None;
                }
                let (chunk, rest) = split_front(buf, room);
                *self = ReadState::Header(h, rest);
                Some(chunk)
            },
            other => {
                *self = other;
                None
            },
        }
    }
}

/// Once header reading has settled, a step changes nothing and reports it
/// settled: the header is read once.
pub proof fn lemma_settled_step_is_stable(p: ReadPhase, buf: Seq<u8>, read: Option<(Seq<u8>, PollStatus)>)
    requires
        !(p is Reading),
    ensures
        read_step(p, buf, read) == (p, buf, Step::Ready),
{
}

/// While no header has been found, a reading step keeps every byte read: the
/// bytes held afterwards are those held before followed by those just read.
pub proof fn lemma_step_keeps_bytes(failed: bool, buf: Seq<u8>, read: Option<(Seq<u8>, PollStatus)>)
    requires
        buf.len() < MAX_HEADER_LEN <==> read is Some,
        !(read_step(ReadPhase::Reading { failed }, buf, read).0 matches ReadPhase::Header { header: Some(_) }),
    ensures
        read_step(ReadPhase::Reading { failed }, buf, read).1 == step_input(buf, read),
{
}

/// Handing out the bytes left after the header, chunk by chunk, hands out
/// each of them once and in order: a chunk and what stays make up what was
/// there.
pub proof fn lemma_remainder_reassembles(buf: Seq<u8>, room: nat)
    ensures
        buf.take(min_len(buf.len(), room) as int) + buf.skip(min_len(buf.len(), room) as int) == buf,
{
    assert(buf.take(min_len(buf.len(), room) as int) + buf.skip(min_len(buf.len(), room) as int) =~= buf);
}

/// Bytes that start with neither signature are not a PROXY header: once at
/// least 16 of them are held, and the last is not a carriage return,
/// reading settles with no header and keeps all of them for the connection.
pub proof fn lemma_no_signature_passes_through(failed: bool, b: Seq<u8>)
    requires
        b.len() >= MIN_HEADER_LEN,
        b.last() != 13u8,
        spec_proxy_parse(b) == ParseStatus::NotProxyHeader,
    ensures
        parse_step(failed, b) == (ReadPhase::Header { header: None }, b, Step::Ready),
{
}

/// A header and the bytes that follow it in one read are told apart, and
/// nothing is lost: when the bytes at hand (at least 16, not ending in a
/// carriage return) parse as a header followed by `n` bytes, reading settles
/// with that header and holds exactly the last `n` bytes, so the header's
/// bytes followed by what is held make up everything read.
pub proof fn lemma_header_keeps_following_bytes(failed: bool, b: Seq<u8>, h: proxy_protocol::ProxyHeader, n: usize)
    requires
        b.len() >= MIN_HEADER_LEN,
        b.last() != 13u8,
        spec_proxy_parse(b) == ParseStatus::Parsed(h, n),
        n <= b.len(),
    ensures
        parse_step(failed, b).0 == (ReadPhase::Header { header: Some(h) }),
        parse_step(failed, b).2 == Step::Ready,
        parse_step(failed, b).1.len() == n,
        b.take(b.len() - n) + parse_step(failed, b).1 == b,
{
    let held = parse_step(failed, b).1;
    assert(held == b.skip(b.len() - n));
    assert(b.take(b.len() - n) + b.skip(b.len() - n) =~= b);
}

/// The same through a whole reading step: a read that completes a header
/// leaves held exactly the bytes after it, out of those held before and
/// those just read.
pub proof fn lemma_read_step_keeps_following_bytes(
    failed: bool,
    buf: Seq<u8>,
    filled: Seq<u8>,
    h: proxy_protocol::ProxyHeader,
    n: usize,
)
    requires
        buf.len() < MAX_HEADER_LEN,
        filled.len() > 0,
        (buf + filled).len() >= MIN_HEADER_LEN,
        (buf + filled).last() != 13u8,
        spec_proxy_parse(buf + filled) == ParseStatus::Parsed(h, n),
        n <= (buf + filled).len(),
    ensures
        ({
            let r = read_step(ReadPhase::Reading { failed }, buf, Some((filled, PollStatus::ReadyOk)));
            &&& r.0 == (ReadPhase::Header { header: Some(h) })
            &&& r.1.len() == n
            &&& (buf + filled).take((buf + filled).len() - n) + r.1 == buf + filled
            &&& r.2 == Step::Ready
        }),
{
    lemma_header_keeps_following_bytes(failed, buf + filled, h, n);
}

/// The smaller of two lengths.
pub open spec fn min_len(a: nat, b: nat) -> nat {
    if a < b {
        a
    } else {
        b
    }
}

/// Splits off the first `room` bytes (or all of them, when fewer).
fn split_front(buf: Vec<u8>, room: usize) -> (r: (Vec<u8>, Vec<u8>))
    ensures
        r.0@ == buf@.take(min_len(buf@.len(), room as nat) as int),
        r.1@ == buf@.skip(min_len(buf@.len(), room as nat) as int),
{
    let n = buf.len();
    let avail = if n < room {
        n
    } else {
        room
    };
    let ghost orig = buf@;
    let mut buf = buf;
    let rest = buf.split_off(avail);
    assert(buf@ =~= orig.take(avail as int));
    assert(rest@ =~= orig.skip(avail as int));
    (buf, rest)
}

/// The state of header writing.
#[derive(Debug)]
pub enum WriteState {
    /// These bytes of the header are still to be written.
    Writing(Vec<u8>),
    /// Nothing (more) is written before the connection's own bytes.
    Inactive,
}

impl WriteState {
    /// Writing the encoding of a header; an encoding error is handed back.
    pub fn new(header: proxy_protocol::ProxyHeader) -> (r: Result<WriteState, proxy_protocol::EncodeError>)
        ensures
            r matches Ok(WriteState::Writing(b)) && b@ == spec_proxy_encode(header) && !lacks_proxy_signature(b@),
    {
        match encode_raw(header) {
            Ok(b) => Ok(WriteState::Writing(b)),
            Err(e) => Err(e),
        }
    }

    /// The bytes still to be written, if any.
    pub fn pending(&self) -> (r: Option<&Vec<u8>>)
        ensures
            match self {
                WriteState::Writing(b) => r == Some(b),
                WriteState::Inactive => r is None,
            },
    {
        match self {
            WriteState::Writing(b) => Some(b),
            WriteState::Inactive => None,
        }
    }

    /// Records that `written` bytes of the header were written: the rest is
    /// still to be written, and once none is left writing is done (`true`).
    pub fn advance(self, written: usize) -> (r: (WriteState, bool))
        requires
            self matches WriteState::Writing(b) ==> written <= b@.len(),
        ensures
            self is Writing ==> pending_bytes(r.0) == pending_bytes(self).skip(written as int),
            r.1 <==> pending_bytes(r.0).len() == 0,
            r.1 ==> r.0 is Inactive,
            match self {
                WriteState::Writing(b) => if written == b@.len() {
                    r.0 is Inactive && r.1
                } else {
                    r.0 matches WriteState::Writing(rest) && rest@ == b@.skip(written as int) && !r.1
                },
                WriteState::Inactive => r.0 is Inactive && r.1,
            },
    {
        match self {
            WriteState::Writing(b) => {
                let n = b.len();
                let ghost orig = b@;
                let mut b = b;
                let rest = b.split_off(written);
                if written == n {
                    (WriteState::Inactive, true)
                } else {
                    assert(rest@ =~= orig.skip(written as int));
                    (WriteState::Writing(rest), false)
                }
            },
            WriteState::Inactive => (WriteState::Inactive, true),
        }
    }
}

/// The bytes a write state still has to write.
pub open spec fn pending_bytes(w: WriteState) -> Seq<u8> {
    match w {
        WriteState::Writing(b) => b@,
        WriteState::Inactive => Seq::empty(),
    }
}

/// What is still to be written of `header` after writes of the given sizes.
pub open spec fn left_after(header: Seq<u8>, ns: Seq<nat>) -> Seq<u8>
    decreases ns.len(),
{
    if ns.len() == 0 {
        header
    } else {
        left_after(header, ns.drop_last()).skip(ns.last() as int)
    }
}

/// The bytes handed to the writer by writes of the given sizes, in order.
pub open spec fn written_by(header: Seq<u8>, ns: Seq<nat>) -> Seq<u8>
    decreases ns.len(),
{
    if ns.len() == 0 {
        Seq::empty()
    } else {
        written_by(header, ns.drop_last()) + left_after(header, ns.drop_last()).take(ns.last() as int)
    }
}

/// Every write takes at most what is left to write.
pub open spec fn writes_fit(header: Seq<u8>, ns: Seq<nat>) -> bool {
    forall|i: int| 0 <= i < ns.len() ==> ns[i] <= #[trigger] left_after(header, ns.take(i)).len()
}

/// Writing a header in writes of any sizes, however short, hands the writer
/// every byte once and in order: what was written so far followed by what is
/// still pending is the header, and nothing is pending once the sizes add
/// up to its length.
pub proof fn lemma_writes_reassemble(header: Seq<u8>, ns: Seq<nat>)
    requires
        writes_fit(header, ns),
    ensures
        written_by(header, ns) + left_after(header, ns) == header,
        written_by(header, ns).len() + left_after(header, ns).len() == header.len(),
    decreases ns.len(),
{
    if ns.len() > 0 {
        let p = ns.drop_last();
        assert forall|i: int| 0 <= i < p.len() implies p[i] <= #[trigger] left_after(header, p.take(i)).len() by {
            assert(p.take(i) =~= ns.take(i));
            assert(ns[i] <= left_after(header, ns.take(i)).len());
        }
        lemma_writes_reassemble(header, p);
        let l = left_after(header, p);
        assert(ns.take(ns.len() - 1) =~= p);
        assert(ns[ns.len() - 1] <= left_after(header, ns.take(ns.len() - 1)).len());
        let n = ns.last() as int;
        assert(l.take(n) + l.skip(n) =~= l);
        assert(written_by(header, ns) + left_after(header, ns) =~= written_by(header, p) + (l.take(n) + l.skip(n)));
    }
}

/// The header states of a connection.
#[derive(Debug)]
pub struct StreamState {
    pub read_state: ReadState,
    pub write_state: WriteState,
}

impl StreamState {
    /// An outgoing connection: the header is written first, nothing is read.
    pub fn outgoing(header: proxy_protocol::ProxyHeader) -> (r: Result<StreamState, proxy_protocol::EncodeError>)
        ensures
            r matches Ok(s) && s.read_state is Inactive && (s.write_state matches WriteState::Writing(b)
                && b@ == spec_proxy_encode(header) && !lacks_proxy_signature(b@)),
    {
        match WriteState::new(header) {
            Ok(w) => Ok(StreamState { read_state: ReadState::Inactive, write_state: w }),
            Err(e) => Err(e),
        }
    }

    /// An incoming connection: a header is read first, nothing is written.
    pub fn incoming() -> (r: StreamState)
        ensures
            r.read_state.phase() == (ReadPhase::Reading { failed: false }),
            r.read_state.buffer() == Seq::<u8>::empty(),
            r.write_state is Inactive,
    {
        StreamState { read_state: ReadState::new(), write_state: WriteState::Inactive }
    }

    /// A connection without PROXY protocol.
    pub fn disabled() -> (r: StreamState)
        ensures
            r.read_state is Inactive,
            r.write_state is Inactive,
    {
        StreamState { read_state: ReadState::Inactive, write_state: WriteState::Inactive }
    }
}

} // verus!
