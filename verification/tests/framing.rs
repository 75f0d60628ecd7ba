use bytes::BytesMut;
use raft::client::{RaftClientCodec, RaftClientProto};
use raft::codec::{decode_frame, encode_frame};
use raft::messages::{RaftRequest, RaftResponse};
use raft::server::{handle_request, RaftCodec, RaftProto};

#[test]
fn decode_takes_the_bytes_before_the_first_newline() {
    let mut buf = BytesMut::from(&b"abc\ndef\nxy"[..]);
    let line = decode_frame(&mut buf).unwrap();
    assert_eq!(&line[..], b"abc");
    assert_eq!(&buf[..], b"def\nxy");
    let line = decode_frame(&mut buf).unwrap();
    assert_eq!(&line[..], b"def");
    assert_eq!(&buf[..], b"xy");
}

#[test]
fn decode_without_newline_leaves_buffer() {
    let mut buf = BytesMut::from(&b"partial"[..]);
    assert!(decode_frame(&mut buf).is_none());
    assert_eq!(&buf[..], b"partial");
}

#[test]
fn decode_empty_frame() {
    let mut buf = BytesMut::from(&b"\nrest"[..]);
    let line = decode_frame(&mut buf).unwrap();
    assert_eq!(line.len(), 0);
    assert_eq!(&buf[..], b"rest");
}

#[test]
fn encode_appends_payload_and_newline() {
    let mut buf = BytesMut::from(&b"xy"[..]);
    encode_frame(b"hello", &mut buf);
    assert_eq!(&buf[..], b"xyhello\n");
}

#[test]
fn encoded_frame_decodes_back() {
    let mut buf = BytesMut::new();
    let mut client = RaftClientProto.codec();
    let mut server = RaftProto.codec();
    client.encode(&[1, 2, 3], &mut buf);
    client.encode(&[4, 5], &mut buf);
    let first = server.decode(&mut buf).unwrap();
    assert_eq!(&first[..], &[1, 2, 3]);
    let second = server.decode(&mut buf).unwrap();
    assert_eq!(&second[..], &[4, 5]);
    assert!(server.decode(&mut buf).is_none());
    assert_eq!(buf.len(), 0);
}

#[test]
fn payload_with_newline_byte_splits_into_two_frames() {
    let mut buf = BytesMut::new();
    let mut codec = RaftCodec;
    codec.encode(&[1, 10, 2], &mut buf);
    let first = codec.decode(&mut buf).unwrap();
    assert_eq!(&first[..], &[1]);
    let mut client = RaftClientCodec;
    let second = client.decode(&mut buf).unwrap();
    assert_eq!(&second[..], &[2]);
}

#[test]
fn vote_request_is_granted_and_forwarded() {
    let (resp, forward) = handle_request(RaftRequest::RequestVote(5, String::from("n1")));
    assert_eq!(resp, RaftResponse::Vote(5, true));
    assert_eq!(forward, Some(5));
}

#[test]
fn heartbeat_is_answered_with_heartbeat() {
    let (resp, forward) = handle_request(RaftRequest::Heartbeat);
    assert_eq!(resp, RaftResponse::Heartbeat);
    assert_eq!(forward, None);
}

#[test]
fn frame_fits_for_ordinary_sizes() {
    let buf = BytesMut::from(&b"abc"[..]);
    assert!(raft::codec::frame_fits(&buf, b"payload"));
    assert!(raft::codec::frame_fits(&BytesMut::new(), &[]));
}

#[test]
fn server_decodes_client_frames_in_order_then_none() {
    let mut buf = BytesMut::new();
    let mut client = RaftClientCodec;
    let mut server = RaftCodec;
    client.encode(b"first", &mut buf);
    client.encode(b"second", &mut buf);
    assert_eq!(&server.decode(&mut buf).unwrap()[..], b"first");
    assert_eq!(&server.decode(&mut buf).unwrap()[..], b"second");
    assert!(server.decode(&mut buf).is_none());
    assert!(buf.is_empty());
}
