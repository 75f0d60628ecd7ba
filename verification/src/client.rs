//! The client side of the node protocol: framing of responses read and
//! requests written.

use bytes::BytesMut;
use vstd::prelude::*;

use crate::codec::{bytes_mut_contents, decode_frame, encode_frame, frame, next_frame};

verus! {

/// Frames the requests a client writes and the responses it reads.
pub struct RaftClientCodec;

impl RaftClientCodec {
    /// Takes the next complete response frame out of `buf`, if it holds one.
    pub fn decode(&mut self, buf: &mut BytesMut) -> (r: Option<BytesMut>)
        ensures
            match next_frame(bytes_mut_contents(*old(buf))) {
                None => r is None && bytes_mut_contents(*final(buf)) == bytes_mut_contents(*old(buf)),
                Some((line, rest)) => r matches Some(l) && bytes_mut_contents(l) == line
                    && bytes_mut_contents(*final(buf)) == rest,
            },
    {
        decode_frame(buf)
    }

    /// Appends the encoded request `msg` to `buf` as one frame.
    pub fn encode(&mut self, msg: &[u8], buf: &mut BytesMut)
        requires
            bytes_mut_contents(*old(buf)).len() + msg@.len() < isize::MAX / 4,
        ensures
            bytes_mut_contents(*final(buf)) == bytes_mut_contents(*old(buf)) + frame(msg@),
    {
        encode_frame(msg, buf)
    }
}

/// The client protocol: a connection is framed with `RaftClientCodec`.
pub struct RaftClientProto;

impl RaftClientProto {
    /// The codec a client connection is framed with.
    pub fn codec(&self) -> RaftClientCodec {
        RaftClientCodec
    }
}

} // verus!
