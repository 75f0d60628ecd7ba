//! The server side of the node protocol: framing of requests read and
//! responses written, and how a request is answered.

use bytes::BytesMut;
use vstd::prelude::*;

use crate::codec::{bytes_mut_contents, decode_frame, encode_frame, frame, next_frame};
use crate::messages::{RaftRequest, RaftResponse};

verus! {

/// Frames the requests a server reads and the responses it writes.
pub struct RaftCodec;

impl RaftCodec {
    /// Takes the next complete request frame out of `buf`, if it holds one.
    pub fn decode(&mut self, buf: &mut BytesMut) -> (r: Option<BytesMut>)
        ensures
            match next_frame(bytes_mut_contents(*old(buf))) {
                None => r is None && bytes_mut_contents(*final(buf)) == bytes_mut_contents(*old(buf)),
                Some((line, rest)) => r matches Some(l) && bytes_mut_contents(l) == line
                    && bytes_mut_contents(*final(buf)) == rest,
            },
    {
        decode_frame(buf)
    }

    /// Appends the encoded response `msg` to `buf` as one frame.
    pub fn encode(&mut self, msg: &[u8], buf: &mut BytesMut)
        requires
            bytes_mut_contents(*old(buf)).len() + msg@.len() < isize::MAX / 4,
        ensures
            bytes_mut_contents(*final(buf)) == bytes_mut_contents(*old(buf)) + frame(msg@),
    {
        encode_frame(msg, buf)
    }
}

/// The server protocol: a connection is framed with `RaftCodec`.
pub struct RaftProto;

impl RaftProto {
    /// The codec a server connection is framed with.
    pub fn codec(&self) -> RaftCodec {
        RaftCodec
    }
}

} // verus!

verus! {

/// How a node answers `req`: the response, and the term to pass on to the
/// node's own election loop (for a vote request). A vote is always granted
/// for the requested term.
pub fn handle_request(req: RaftRequest) -> (out: (RaftResponse, Option<usize>))
    ensures
        match req {
            RaftRequest::RequestVote(term, _) => out == (RaftResponse::Vote(term, true), Some(term)),
            RaftRequest::Heartbeat => out == (RaftResponse::Heartbeat, None::<usize>),
        },
{
    match req {
        RaftRequest::RequestVote(term, _candidate) => (RaftResponse::Vote(term, true), Some(term)),
        RaftRequest::Heartbeat => (RaftResponse::Heartbeat, None),
    }
}

} // verus!
