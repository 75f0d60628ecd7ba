//! Newline-delimited framing of encoded messages in a byte buffer.
//!
//! A frame is the encoded message followed by one newline byte. Decoding takes
//! the bytes before the first newline of the buffer as one frame and drops the
//! newline; a buffer without a newline holds no complete frame yet.

use bytes::BytesMut;
use vstd::prelude::*;

verus! {

#[verifier::external_type_specification]
#[verifier::external_body]
pub struct ExBytesMut(BytesMut);

/// The bytes a `BytesMut` holds, in order.
pub uninterp spec fn bytes_mut_contents(buf: BytesMut) -> Seq<u8>;

/// `BytesMut::len`: the number of bytes the buffer holds.
#[verifier::external_body]
fn buf_len(buf: &BytesMut) -> (n: usize)
    ensures
        n == bytes_mut_contents(*buf).len(),
{
    buf.len()
}

/// Indexing a `BytesMut` (through its `Deref` to `[u8]`): the byte at `i`.
#[verifier::external_body]
fn buf_byte(buf: &BytesMut, i: usize) -> (b: u8)
    requires
        i < bytes_mut_contents(*buf).len(),
    ensures
        b == bytes_mut_contents(*buf)[i as int],
{
    buf[i]
}

/// `BytesMut::split_to`: the buffer keeps the bytes from `at` on, and the
/// bytes before `at` are returned. It panics when `at` exceeds the length.
#[verifier::external_body]
fn buf_split_to(buf: &mut BytesMut, at: usize) -> (head: BytesMut)
    requires
        at <= bytes_mut_contents(*old(buf)).len(),
    ensures
        bytes_mut_contents(head) == bytes_mut_contents(*old(buf)).take(at as int),
        bytes_mut_contents(*final(buf)) == bytes_mut_contents(*old(buf)).skip(at as int),
{
    buf.split_to(at)
}

/// `BytesMut::extend_from_slice`: appends `data`. It reserves room first, and
/// that may allocate up to twice the buffer's backing allocation (a shared
/// buffer left by `split_to` is copied into a new one of double the old
/// capacity, and a vector-backed one grows through `Vec::reserve`), which
/// panics beyond `isize::MAX` bytes. The backing allocation is not part of the
/// contents, so the bound asks the new length to stay within a quarter of
/// `isize::MAX`, where none of these growths can reach the limit.
#[verifier::external_body]
fn buf_extend_from_slice(buf: &mut BytesMut, data: &[u8])
    requires
        bytes_mut_contents(*old(buf)).len() + data@.len() <= isize::MAX / 4,
    ensures
        bytes_mut_contents(*final(buf)) == bytes_mut_contents(*old(buf)) + data@,
{
    buf.extend_from_slice(data)
}

/// The byte that ends a frame.
pub const NEWLINE: u8 = 10u8;

/// No byte of `s` is a newline.
pub open spec fn newline_free(s: Seq<u8>) -> bool {
    forall|k: int| 0 <= k < s.len() ==> s[k] != NEWLINE
}

/// `i` is the position of the first newline in `s`.
pub open spec fn first_newline_at(s: Seq<u8>, i: int) -> bool {
    &&& 0 <= i < s.len()
    &&& s[i] == NEWLINE
    &&& newline_free(s.take(i))
}

/// The first complete frame of `s` and what follows its newline, if `s` holds one.
pub open spec fn next_frame(s: Seq<u8>) -> Option<(Seq<u8>, Seq<u8>)> {
    if exists|i: int| first_newline_at(s, i) {
        let i = choose|i: int| first_newline_at(s, i);
        Some((s.take(i), s.skip(i + 1)))
    } else {
        None
    }
}

/// The bytes that encoding `payload` appends: the payload and a newline.
pub open spec fn frame(payload: Seq<u8>) -> Seq<u8> {
    payload.push(NEWLINE)
}

proof fn lemma_first_newline_unique(s: Seq<u8>, i: int, j: int)
    requires
        first_newline_at(s, i),
        first_newline_at(s, j),
    ensures
        i == j,
{
    if i < j {
        assert(s.take(j)[i] == s[i]);
    } else if j < i {
        assert(s.take(i)[j] == s[j]);
    }
}

/// A buffer holds a complete frame exactly when it holds a newline.
pub proof fn lemma_frame_iff_newline(s: Seq<u8>)
    ensures
        next_frame(s) is None <==> newline_free(s),
{
    if !newline_free(s) {
        let k = choose|k: int| 0 <= k < s.len() && s[k] == NEWLINE;
        lemma_some_first_newline(s, k);
    } else {
        assert forall|j: int| !first_newline_at(s, j) by {
            if first_newline_at(s, j) {
                assert(s[j] == NEWLINE);
            }
        }
    }
}

proof fn lemma_some_first_newline(s: Seq<u8>, k: int)
    requires
        0 <= k < s.len(),
        s[k] == NEWLINE,
    ensures
        exists|i: int| first_newline_at(s, i),
    decreases k,
{
    if newline_free(s.take(k)) {
        assert(first_newline_at(s, k));
    } else {
        let k2 = choose|k2: int| 0 <= k2 < s.take(k).len() && s.take(k)[k2] == NEWLINE;
        lemma_some_first_newline(s, k2);
    }
}

/// Decoding gives back what encoding framed: when the bytes already pending in
/// a buffer and the payload hold no newline, the next frame of
/// `pending + frame(payload) + more` is `pending + payload`, and `more` is
/// what stays in the buffer.
pub proof fn lemma_decode_encoded_frame(pending: Seq<u8>, payload: Seq<u8>, more: Seq<u8>)
    requires
        newline_free(pending + payload),
    ensures
        next_frame(pending + frame(payload) + more) == Some((pending + payload, more)),
{
    let s = pending + frame(payload) + more;
    let i = (pending + payload).len() as int;
    assert(s.take(i) =~= pending + payload);
    assert(s[i] == NEWLINE);
    assert(first_newline_at(s, i));
    let j = choose|j: int| first_newline_at(s, j);
    lemma_first_newline_unique(s, i, j);
    assert(s.skip(i + 1) =~= more);
}

/// The bytes of the frames of `payloads`, one after the other.
pub open spec fn frames(payloads: Seq<Seq<u8>>) -> Seq<u8>
    decreases payloads.len(),
{
    if payloads.len() == 0 {
        Seq::empty()
    } else {
        frame(payloads[0]) + frames(payloads.drop_first())
    }
}

/// Encoding one more payload appends its frame to the frames written so far.
pub proof fn lemma_frames_push(payloads: Seq<Seq<u8>>, payload: Seq<u8>)
    ensures
        frames(payloads.push(payload)) == frames(payloads) + frame(payload),
    decreases payloads.len(),
{
    if payloads.len() == 0 {
        let one = payloads.push(payload);
        assert(one.drop_first() =~= Seq::<Seq<u8>>::empty());
        assert(one[0] == payload);
        assert(frames(one.drop_first()) == Seq::<u8>::empty());
        assert(frames(payloads) == Seq::<u8>::empty());
        assert(frames(one) =~= frames(payloads) + frame(payload));
    } else {
        lemma_frames_push(payloads.drop_first(), payload);
        let rest = payloads.drop_first();
        assert(payloads.push(payload).drop_first() =~= rest.push(payload));
        assert(payloads.push(payload)[0] == payloads[0]);
        assert(frames(payloads.push(payload)) == frame(payloads[0]) + frames(rest.push(payload)));
        assert(frames(payloads) == frame(payloads[0]) + frames(rest));
        assert(frame(payloads[0]) + (frames(rest) + frame(payload)) =~= (frame(payloads[0])
            + frames(rest)) + frame(payload));
    }
}

/// Frames come back in the order they were encoded: when no payload holds a
/// newline, the next frame of the encoded payloads is the first payload and
/// the buffer keeps the frames of the others; once all are taken, nothing is
/// left to decode.
pub proof fn lemma_frames_decode_in_order(payloads: Seq<Seq<u8>>)
    requires
        forall|i: int| 0 <= i < payloads.len() ==> newline_free(#[trigger] payloads[i]),
    ensures
        payloads.len() == 0 ==> next_frame(frames(payloads)) is None,
        payloads.len() > 0 ==> next_frame(frames(payloads)) == Some(
            (payloads[0], frames(payloads.drop_first())),
        ),
{
    if payloads.len() == 0 {
        lemma_frame_iff_newline(frames(payloads));
    } else {
        let empty = Seq::<u8>::empty();
        assert(empty + payloads[0] =~= payloads[0]);
        assert(newline_free(payloads[0]));
        lemma_decode_encoded_frame(empty, payloads[0], frames(payloads.drop_first()));
        assert(empty + frame(payloads[0]) + frames(payloads.drop_first()) =~= frames(payloads));
    }
}

/// Whether `payload` can be encoded as one more frame of `buf`: the buffer
/// and the payload together must stay below a quarter of the largest
/// allocation, the room that growing the buffer may take.
pub fn frame_fits(buf: &BytesMut, payload: &[u8]) -> (ok: bool)
    ensures
        ok == (bytes_mut_contents(*buf).len() + payload@.len() < isize::MAX / 4),
{
    let n = buf_len(buf);
    let limit = (isize::MAX / 4) as usize;
    n < limit && payload.len() < limit - n
}

/// Takes the first complete frame out of `buf`: the bytes before the first
/// newline are returned and the newline is dropped. Without a newline the
/// buffer is left as it is and `None` comes back.
pub fn decode_frame(buf: &mut BytesMut) -> (r: Option<BytesMut>)
    ensures
        match next_frame(bytes_mut_contents(*old(buf))) {
            None => r is None && bytes_mut_contents(*final(buf)) == bytes_mut_contents(*old(buf)),
            Some((line, rest)) => r matches Some(l) && bytes_mut_contents(l) == line
                && bytes_mut_contents(*final(buf)) == rest,
        },
{
    let ghost s = bytes_mut_contents(*buf);
    let n = buf_len(buf);
    let mut i: usize = 0;
    while i < n
        invariant
            s == bytes_mut_contents(*buf),
            s == bytes_mut_contents(*old(buf)),
            n == s.len(),
            i <= n,
            newline_free(s.take(i as int)),
        decreases n - i,
    {
        let b = buf_byte(buf, i);
        if b == NEWLINE {
            proof {
                assert(first_newline_at(s, i as int));
                let j = choose|j: int| first_newline_at(s, j);
                lemma_first_newline_unique(s, i as int, j);
                assert(next_frame(s) == Some((s.take(i as int), s.skip(i + 1))));
            }
            let line = buf_split_to(buf, i);
            let _newline = buf_split_to(buf, 1);
            proof {
                assert(s.skip(i as int).skip(1) =~= s.skip(i + 1));
            }
            return Some(line);
        }
        proof {
            assert(s.take(i + 1) =~= s.take(i as int).push(b));
        }
        i = i + 1;
    }
    proof {
        assert(s.take(n as int) =~= s);
        assert forall|j: int| !first_newline_at(s, j) by {
            if first_newline_at(s, j) {
                assert(s[j] == NEWLINE);
            }
        }
    }
    None
}

/// Appends one frame to `buf`: the payload bytes and then a newline.
pub fn encode_frame(payload: &[u8], buf: &mut BytesMut)
    requires
        bytes_mut_contents(*old(buf)).len() + payload@.len() < isize::MAX / 4,
    ensures
        bytes_mut_contents(*final(buf)) == bytes_mut_contents(*old(buf)) + frame(payload@),
{
    buf_extend_from_slice(buf, payload);
    let newline: [u8; 1] = [NEWLINE];
    buf_extend_from_slice(buf, newline.as_slice());
    proof {
        assert(newline@ =~= seq![NEWLINE]);
        assert(bytes_mut_contents(*old(buf)) + payload@ + seq![NEWLINE] =~= bytes_mut_contents(*old(buf)) + frame(payload@));
    }
}

} // verus!
