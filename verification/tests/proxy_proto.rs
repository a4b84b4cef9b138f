use ngrok::proxy_proto::{
    parse_header, v2_length_overruns, ParseOutcome, PollStatus, ReadEvent, ReadState, StreamState,
    Step, WriteState, MAX_HEADER_LEN,
};
use proxy_protocol::version2::{ProxyAddresses, ProxyCommand, ProxyTransportProtocol};
use proxy_protocol::ProxyHeader;

const INPUT: &str = "PROXY TCP4 192.168.0.1 192.168.0.11 56324 443\r\n";
const PARTIAL_INPUT: &str = "PROXY TCP4 192.168.0.1";
const FINAL_INPUT: &str = " 192.168.0.11 56324 443\r\n";

// Feeds `data` to header reading in short reads (2 to 5 bytes), ending with
// end of stream; returns the settled state and the bytes not read yet.
fn drive(data: &[u8]) -> (ReadState, Vec<u8>) {
    let mut state = ReadState::new();
    let mut pos = 0;
    let mut turn = 0;
    loop {
        let read = if state.needs_read() {
            let want = 2 + turn % 4;
            turn += 1;
            let end = std::cmp::min(pos + want, data.len());
            let filled = data[pos..end].to_vec();
            pos = end;
            Some(ReadEvent { filled, status: PollStatus::ReadyOk })
        } else {
            None
        };
        assert!(!state.step_would_overrun(&read));
        let (next, step) = state.step(read);
        state = next;
        match step {
            Step::Continue => continue,
            Step::Ready | Step::ReturnRead => break,
        }
    }
    (state, data[pos..].to_vec())
}

// Everything the connection yields after the header: the bytes left over
// from header reading, then those not read yet.
fn rest_of_stream(state: &mut ReadState, unread: Vec<u8>) -> Vec<u8> {
    let mut out = Vec::new();
    while let Some(chunk) = state.take_remainder(3) {
        out.extend(chunk);
    }
    out.extend(unread);
    out
}

#[test]
fn test_proxy_protocol() {
    let buf = INPUT.as_bytes().to_vec();
    assert!(matches!(parse_header(&buf), Some(ParseOutcome::Header(_, 0))));

    let mut buf = PARTIAL_INPUT.as_bytes().to_vec();
    assert!(matches!(parse_header(&buf), Some(ParseOutcome::Invalid(_))));

    buf.extend_from_slice(FINAL_INPUT.as_bytes());
    assert!(matches!(parse_header(&buf), Some(ParseOutcome::Header(_, 0))));
}

#[test]
fn test_header_stream() {
    let mut data = INPUT.as_bytes().to_vec();
    data.extend_from_slice(b"Hello, world!");
    let (mut state, unread) = drive(&data);

    let hdr = state.header().expect("decode header").expect("header exists");
    assert!(matches!(hdr, ProxyHeader::Version1 { .. }));

    let rest = rest_of_stream(&mut state, unread);
    assert_eq!(String::from_utf8(rest).unwrap(), "Hello, world!");

    // Get the header again - should be the same.
    let hdr = state.header().expect("decode header").expect("header exists");
    assert!(matches!(hdr, ProxyHeader::Version1 { .. }));
}

#[test]
fn test_header_stream_v2() {
    let header = ProxyHeader::Version2 {
        command: ProxyCommand::Proxy,
        transport_protocol: ProxyTransportProtocol::Stream,
        addresses: ProxyAddresses::Ipv4 {
            source: "127.0.0.1:1".parse().unwrap(),
            destination: "127.0.0.2:2".parse().unwrap(),
        },
    };
    let mut data = proxy_protocol::encode(header).unwrap().to_vec();
    data.extend_from_slice(b"Hello, world!");
    let (mut state, unread) = drive(&data);

    let hdr = state.header().expect("decode header").expect("header exists");
    assert!(matches!(hdr, ProxyHeader::Version2 { .. }));

    let rest = rest_of_stream(&mut state, unread);
    assert_eq!(String::from_utf8(rest).unwrap(), "Hello, world!");

    let hdr = state.header().expect("decode header").expect("header exists");
    assert!(matches!(hdr, ProxyHeader::Version2 { .. }));
}

#[test]
fn test_noheader() {
    let (mut state, unread) = drive(b"Hello, world!");
    assert!(state.header().unwrap().is_none());
    let rest = rest_of_stream(&mut state, unread);
    assert_eq!(String::from_utf8(rest).unwrap(), "Hello, world!");
}

#[test]
fn long_plain_stream_passes_through() {
    let text = b"GET / HTTP/1.1\r\nHost: example.com\r\n\r\n".to_vec();
    let (mut state, unread) = drive(&text);
    assert!(state.header().unwrap().is_none());
    assert_eq!(rest_of_stream(&mut state, unread), text);
}

#[test]
fn garbage_after_signature_is_an_error_once_long() {
    let mut data = b"PROXY TCP4 not-an-address at all".to_vec();
    data.resize(MAX_HEADER_LEN + 10, b'x');
    let (mut state, unread) = drive(&data);
    assert!(state.header().is_err());
    assert_eq!(rest_of_stream(&mut state, unread), data);
}

#[test]
fn read_failure_settles_reading() {
    let state = ReadState::new();
    let (state, step) = state.step(Some(ReadEvent { filled: b"abc".to_vec(), status: PollStatus::ReadyErr }));
    assert_eq!(Step::ReturnRead, step);
    assert!(state.header().unwrap().is_none());
    let (state, step) = state.step(None);
    assert_eq!(Step::Ready, step);
    let mut state = state;
    assert_eq!(Some(b"ab".to_vec()), state.take_remainder(2));
    assert_eq!(Some(b"c".to_vec()), state.take_remainder(2));
    assert_eq!(None, state.take_remainder(2));
}

#[test]
fn pending_read_keeps_reading() {
    let state = ReadState::new();
    let (state, step) = state.step(Some(ReadEvent { filled: Vec::new(), status: PollStatus::Pending }));
    assert_eq!(Step::ReturnRead, step);
    assert!(state.needs_read());
}

#[test]
fn overrunning_v2_header_is_not_parsed() {
    let mut data = vec![0x0D, 0x0A, 0x0D, 0x0A, 0x00, 0x0D, 0x0A, 0x51, 0x55, 0x49, 0x54, 0x0A];
    data.push(0x21); // version 2, PROXY
    data.push(0x11); // IPv4, stream
    data.extend_from_slice(&[0x00, 0x14]); // 20 bytes declared
    data.extend_from_slice(&[127, 0, 0, 1, 127, 0, 0, 2, 0, 1, 0, 2]); // 12 given
    assert!(v2_length_overruns(&data));
    assert!(parse_header(&data).is_none());
    data.extend_from_slice(&[0u8; 8]);
    assert!(!v2_length_overruns(&data));
    assert!(matches!(parse_header(&data), Some(ParseOutcome::Header(_, 0))));
}

#[test]
fn header_ending_in_carriage_return_is_not_parsed() {
    let data = b"PROXY TCP4 192.168.0.1 192.168.0.11 56324 443\r".to_vec();
    assert!(parse_header(&data).is_none());
}

#[test]
fn outgoing_header_is_written_in_parts() {
    let header = ProxyHeader::Version1 {
        addresses: proxy_protocol::version1::ProxyAddresses::Unknown,
    };
    let state = StreamState::outgoing(header).unwrap();
    assert!(state.read_state.header().unwrap().is_none());
    let w = state.write_state;
    assert_eq!(Some(&b"PROXY UNKNOWN\r\n".to_vec()), w.pending());
    let (w, done) = w.advance(6);
    assert!(!done);
    assert_eq!(Some(&b"UNKNOWN\r\n".to_vec()), w.pending());
    let (w, done) = w.advance(9);
    assert!(done);
    assert!(w.pending().is_none());
    let (_, done) = WriteState::Inactive.advance(0);
    assert!(done);
}

#[test]
fn disabled_and_incoming_states() {
    let s = StreamState::disabled();
    assert!(!s.read_state.needs_read());
    assert!(s.write_state.pending().is_none());
    let s = StreamState::incoming();
    assert!(s.read_state.needs_read());
    assert!(s.write_state.pending().is_none());
}

#[test]
fn written_headers_start_with_their_signature() {
    let v1 = ProxyHeader::Version1 {
        addresses: proxy_protocol::version1::ProxyAddresses::Unknown,
    };
    let w = WriteState::new(v1).unwrap();
    assert!(w.pending().unwrap().starts_with(b"PROXY "));
    let v2 = ProxyHeader::Version2 {
        command: ProxyCommand::Proxy,
        transport_protocol: ProxyTransportProtocol::Stream,
        addresses: ProxyAddresses::Ipv4 {
            source: "127.0.0.1:1".parse().unwrap(),
            destination: "127.0.0.2:2".parse().unwrap(),
        },
    };
    let s = StreamState::outgoing(v2).unwrap();
    let sig = [0x0D, 0x0A, 0x0D, 0x0A, 0x00, 0x0D, 0x0A, 0x51, 0x55, 0x49, 0x54, 0x0A];
    assert!(s.write_state.pending().unwrap().starts_with(&sig));
}

#[test]
fn short_writes_hand_out_the_header_once() {
    let header = ProxyHeader::Version1 {
        addresses: proxy_protocol::version1::ProxyAddresses::Unknown,
    };
    let mut w = WriteState::new(header).unwrap();
    let whole = w.pending().unwrap().clone();
    let mut out: Vec<u8> = Vec::new();
    loop {
        let chunk: Vec<u8> = w.pending().unwrap().iter().take(2).cloned().collect();
        out.extend(&chunk);
        let (next, done) = w.advance(chunk.len());
        w = next;
        if done {
            break;
        }
    }
    assert_eq!(whole, out);
    assert!(w.pending().is_none());
    assert_eq!(b"PROXY UNKNOWN\r\n".to_vec(), out);
}
