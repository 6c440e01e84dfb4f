//! What travels over the Unix socket between publisher and subscriber.
//!
//! Once per session the publisher sends a [`Handshake`] (24 bytes) together
//! with the DMA-BUF descriptors of all capture buffers. Then, per frame, it
//! sends the 4-byte index of the filled buffer and waits for a 1-byte ack.
//! All integers travel little-endian.

use vstd::prelude::*;
use crate::layout::{
    le32, u32_at, lemma_le_facts, lemma_u32_at_piece, lemma_le32_of_u32_at, lemma_u32_at_encoded,
    push_u32, read_u32,
};

verus! {

/// Sent once at connection time: buffer geometry + count of DMA-BUF fds
/// that follow in the same message.
#[derive(Debug, Clone, Copy, Default, PartialEq, Eq, Structural)]
pub struct Handshake {
    pub buf_count: u32,
    pub width: u32,
    pub height: u32,
    /// DRM FOURCC.
    pub format: u32,
    /// Bytes per line of plane 0.
    pub stride: u32,
    /// Total buffer size in bytes.
    pub size: u32,
}

/// Geometry of one frame, as handed to the EGL import; not sent over the socket.
#[derive(Debug, Clone, Copy, Default, PartialEq, Eq, Structural)]
pub struct FrameMeta {
    pub width: u32,
    pub height: u32,
    pub format: u32,
    pub stride: u32,
    pub size: u32,
}

/// Where the publisher listens unless told otherwise.
pub const DEFAULT_SOCKET_PATH: &'static str = "/tmp/dma_buf_socket";

/// Length of an encoded [`Handshake`].
pub const HANDSHAKE_LEN: usize = 24;

/// Length of an encoded buffer index.
pub const IDX_LEN: usize = 4;

/// The byte the subscriber sends once it has released a frame.
pub const ACK_BYTE: u8 = 1;

/// What can go wrong on the socket, beyond the system call's own error.
#[derive(Debug, Clone, Copy, PartialEq, Eq, Structural)]
pub enum SocketError {
    /// The system call failed with this `errno`.
    Os(i32),
    /// `sendmsg` took fewer bytes than the handshake has.
    ShortSendHandshake,
    /// `recvmsg` delivered fewer or more bytes than the handshake has.
    ShortRecvHandshake,
    /// The number of descriptors received differs from `buf_count`.
    FdCountMismatch { expected: u32, got: usize },
    /// `sendmsg` took fewer bytes than an index has.
    ShortSendIdx,
    /// `recv` delivered some, but not all, bytes of an index.
    ShortRecvIdx,
    /// The subscriber closed the connection instead of acknowledging.
    PeerDisconnected,
}

/// Outcome of waiting for a buffer index.
#[derive(Debug, Clone, Copy, PartialEq, Eq, Structural)]
pub enum RecvIdx {
    Idx(u32),
    PeerClosed,
    Error(SocketError),
}

/// One control message received next to a payload: descriptors passed with
/// `SCM_RIGHTS`, or anything else.
#[derive(Debug, PartialEq, Eq)]
pub enum ControlMessage {
    Rights(Vec<i32>),
    Other,
}

impl Handshake {
    /// The encoded handshake: the six fields in declaration order.
    pub open spec fn spec_bytes(self) -> Seq<u8> {
        le32(self.buf_count) + le32(self.width) + le32(self.height) + le32(self.format)
            + le32(self.stride) + le32(self.size)
    }

    /// The handshake that 24 bytes hold.
    pub open spec fn spec_decode(b: Seq<u8>) -> Handshake {
        Handshake {
            buf_count: u32_at(b, 0),
            width: u32_at(b, 4),
            height: u32_at(b, 8),
            format: u32_at(b, 12),
            stride: u32_at(b, 16),
            size: u32_at(b, 20),
        }
    }

    /// Encodes the handshake for `sendmsg`.
    pub fn to_bytes(&self) -> (r: Vec<u8>)
        ensures
            r@ == self.spec_bytes(),
            r@.len() == HANDSHAKE_LEN,
    {
        proof {
            lemma_le_facts();
        }
        let mut out: Vec<u8> = Vec::new();
        push_u32(&mut out, self.buf_count);
        push_u32(&mut out, self.width);
        push_u32(&mut out, self.height);
        push_u32(&mut out, self.format);
        push_u32(&mut out, self.stride);
        push_u32(&mut out, self.size);
        assert(out@ =~= self.spec_bytes());
        out
    }

    /// Decodes the 24 bytes of a received handshake.
    pub fn from_bytes(b: &[u8]) -> (r: Handshake)
        requires
            b@.len() == HANDSHAKE_LEN,
        ensures
            r == Handshake::spec_decode(b@),
    {
        Handshake {
            buf_count: read_u32(b, 0),
            width: read_u32(b, 4),
            height: read_u32(b, 8),
            format: read_u32(b, 12),
            stride: read_u32(b, 16),
            size: read_u32(b, 20),
        }
    }
}

impl FrameMeta {
    /// The frame geometry a handshake announces; the same for every frame of the session.
    pub fn from_handshake(hs: &Handshake) -> (r: FrameMeta)
        ensures
            r.width == hs.width,
            r.height == hs.height,
            r.format == hs.format,
            r.stride == hs.stride,
            r.size == hs.size,
    {
        FrameMeta {
            width: hs.width,
            height: hs.height,
            format: hs.format,
            stride: hs.stride,
            size: hs.size,
        }
    }
}

/// The descriptors that the `SCM_RIGHTS` messages among `msgs` carry, in order.
pub open spec fn passed_fds(msgs: Seq<ControlMessage>) -> Seq<i32>
    decreases msgs.len(),
{
    if msgs.len() == 0 {
        Seq::empty()
    } else {
        let rest = passed_fds(msgs.drop_last());
        match msgs.last() {
            ControlMessage::Rights(fds) => rest + fds@,
            ControlMessage::Other => rest,
        }
    }
}

/// Gathers, in order, the descriptors passed in the control messages of one
/// received message; `None` (unreadable control data) gives none.
pub fn collect_passed_fds(msgs: Option<&Vec<ControlMessage>>) -> (r: Vec<i32>)
    ensures
        r@ == match msgs {
            Some(m) => passed_fds(m@),
            None => Seq::empty(),
        },
{
    let mut out: Vec<i32> = Vec::new();
    match msgs {
        None => {},
        Some(m) => {
            let mut i: usize = 0;
            while i < m.len()
                invariant
                    i <= m@.len(),
                    out@ == passed_fds(m@.subrange(0, i as int)),
                decreases m@.len() - i,
            {
                assert(m@.subrange(0, i + 1).drop_last() =~= m@.subrange(0, i as int));
                match &m[i] {
                    ControlMessage::Rights(fds) => {
                        out.extend_from_slice(fds.as_slice());
                    },
                    ControlMessage::Other => {},
                }
                i = i + 1;
            }
            assert(m@.subrange(0, m@.len() as int) =~= m@);
        },
    }
    out
}

/// The result of receiving a handshake: the payload must be exactly one
/// handshake, and exactly `buf_count` descriptors must have come with it.
pub open spec fn handshake_outcome(received: usize, payload: Seq<u8>, fd_count: usize) -> Result<
    Handshake,
    SocketError,
> {
    if received != HANDSHAKE_LEN {
        Err(SocketError::ShortRecvHandshake)
    } else if fd_count != Handshake::spec_decode(payload).buf_count {
        Err(
            SocketError::FdCountMismatch {
                expected: Handshake::spec_decode(payload).buf_count,
                got: fd_count,
            },
        )
    } else {
        Ok(Handshake::spec_decode(payload))
    }
}

/// Checks a received handshake: `received` bytes landed in `payload`, and
/// `fd_count` descriptors were passed with them.
pub fn accept_handshake(received: usize, payload: &[u8], fd_count: usize) -> (r: Result<
    Handshake,
    SocketError,
>)
    requires
        payload@.len() == HANDSHAKE_LEN,
    ensures
        r == handshake_outcome(received, payload@, fd_count),
{
    if received != HANDSHAKE_LEN {
        return Err(SocketError::ShortRecvHandshake);
    }
    let hs = Handshake::from_bytes(payload);
    if fd_count != hs.buf_count as usize {
        return Err(SocketError::FdCountMismatch { expected: hs.buf_count, got: fd_count });
    }
    Ok(hs)
}

/// A send of `expected` bytes that took `sent` of them: anything short is `short`.
pub fn check_sent(sent: usize, expected: usize, short: SocketError) -> (r: Result<(), SocketError>)
    ensures
        r == (if sent == expected {
            Ok::<(), SocketError>(())
        } else {
            Err(short)
        }),
{
    if sent != expected {
        Err(short)
    } else {
        Ok(())
    }
}

/// Encodes a buffer index for `sendmsg`.
pub fn encode_idx(idx: u32) -> (r: Vec<u8>)
    ensures
        r@ == le32(idx),
        r@.len() == IDX_LEN,
{
    proof {
        lemma_le_facts();
    }
    let mut out: Vec<u8> = Vec::new();
    push_u32(&mut out, idx);
    assert(out@ =~= le32(idx));
    out
}

impl RecvIdx {
    /// The outcome of a `recv` of an index that returned `n` into `buf`,
    /// with `errno` the error it set.
    pub open spec fn spec_from_recv(n: isize, buf: Seq<u8>, errno: i32) -> RecvIdx {
        if n == 0 {
            RecvIdx::PeerClosed
        } else if n < 0 {
            RecvIdx::Error(SocketError::Os(errno))
        } else if n != IDX_LEN {
            RecvIdx::Error(SocketError::ShortRecvIdx)
        } else {
            RecvIdx::Idx(u32_at(buf, 0))
        }
    }

    /// Classifies what a `recv` of a buffer index returned.
    pub fn from_recv(n: isize, buf: &[u8], errno: i32) -> (r: RecvIdx)
        requires
            buf@.len() == IDX_LEN,
        ensures
            r == RecvIdx::spec_from_recv(n, buf@, errno),
    {
        if n == 0 {
            return RecvIdx::PeerClosed;
        }
        if n < 0 {
            return RecvIdx::Error(SocketError::Os(errno));
        }
        if n != 4 {
            return RecvIdx::Error(SocketError::ShortRecvIdx);
        }
        RecvIdx::Idx(read_u32(buf, 0))
    }
}

/// The message that acknowledges a frame.
pub fn ack_message() -> (r: Vec<u8>)
    ensures
        r@ == seq![ACK_BYTE],
{
    let mut out: Vec<u8> = Vec::new();
    out.push(ACK_BYTE);
    out
}

/// The outcome of waiting for an ack: a `recv` that returned `n`, with
/// `errno` the error it set. Any byte counts as the ack.
pub fn ack_outcome(n: isize, errno: i32) -> (r: Result<(), SocketError>)
    ensures
        n == 0 ==> r == Err::<(), SocketError>(SocketError::PeerDisconnected),
        n < 0 ==> r == Err::<(), SocketError>(SocketError::Os(errno)),
        n > 0 ==> r == Ok::<(), SocketError>(()),
{
    if n == 0 {
        Err(SocketError::PeerDisconnected)
    } else if n < 0 {
        Err(SocketError::Os(errno))
    } else {
        Ok(())
    }
}

/// Decoding gives back the handshake that was encoded.
pub proof fn lemma_handshake_roundtrip(h: Handshake)
    ensures
        Handshake::spec_decode(h.spec_bytes()) == h,
        h.spec_bytes().len() == HANDSHAKE_LEN,
{
    lemma_le_facts();
    let b = h.spec_bytes();
    lemma_u32_at_piece(Seq::empty(), h.buf_count, b.subrange(4, 24));
    assert(b =~= Seq::<u8>::empty() + le32(h.buf_count) + b.subrange(4, 24));
    lemma_u32_at_piece(b.subrange(0, 4), h.width, b.subrange(8, 24));
    assert(b =~= b.subrange(0, 4) + le32(h.width) + b.subrange(8, 24));
    lemma_u32_at_piece(b.subrange(0, 8), h.height, b.subrange(12, 24));
    assert(b =~= b.subrange(0, 8) + le32(h.height) + b.subrange(12, 24));
    lemma_u32_at_piece(b.subrange(0, 12), h.format, b.subrange(16, 24));
    assert(b =~= b.subrange(0, 12) + le32(h.format) + b.subrange(16, 24));
    lemma_u32_at_piece(b.subrange(0, 16), h.stride, b.subrange(20, 24));
    assert(b =~= b.subrange(0, 16) + le32(h.stride) + b.subrange(20, 24));
    lemma_u32_at_piece(b.subrange(0, 20), h.size, Seq::empty());
    assert(b =~= b.subrange(0, 20) + le32(h.size) + Seq::<u8>::empty());
}

/// Every 24 bytes are the encoding of the handshake they decode to.
pub proof fn lemma_handshake_bytes_roundtrip(b: Seq<u8>)
    requires
        b.len() == HANDSHAKE_LEN,
    ensures
        Handshake::spec_decode(b).spec_bytes() == b,
{
    lemma_le32_of_u32_at(b, 0);
    lemma_le32_of_u32_at(b, 4);
    lemma_le32_of_u32_at(b, 8);
    lemma_le32_of_u32_at(b, 12);
    lemma_le32_of_u32_at(b, 16);
    lemma_le32_of_u32_at(b, 20);
    assert(Handshake::spec_decode(b).spec_bytes() =~= b);
}

/// A handshake received whole, with the descriptors it announces, is accepted
/// as exactly the handshake that was sent.
pub proof fn lemma_sent_handshake_is_accepted(h: Handshake)
    ensures
        handshake_outcome(HANDSHAKE_LEN, h.spec_bytes(), h.buf_count as usize) == Ok::<
            Handshake,
            SocketError,
        >(h),
{
    lemma_handshake_roundtrip(h);
}

/// A handshake sent with as many descriptors as it announces is accepted,
/// unchanged, together with those descriptors.
pub proof fn lemma_announced_handshake_is_accepted(h: Handshake, fds: Seq<i32>)
    requires
        h.buf_count == fds.len(),
    ensures
        handshake_outcome(HANDSHAKE_LEN, h.spec_bytes(), fds.len() as usize) == Ok::<
            Handshake,
            SocketError,
        >(h),
{
    lemma_handshake_roundtrip(h);
}

/// An index received whole is the index that was sent.
pub proof fn lemma_sent_idx_is_received(idx: u32, errno: i32)
    ensures
        RecvIdx::spec_from_recv(IDX_LEN as isize, le32(idx), errno) == RecvIdx::Idx(idx),
{
    lemma_u32_at_piece(Seq::empty(), idx, Seq::empty());
    assert(Seq::<u8>::empty() + le32(idx) + Seq::<u8>::empty() =~= le32(idx));
}

/// The handshake's wire layout: the six fields as little-endian `u32`s at
/// offsets 0, 4, 8, 12, 16 and 20, in the order buffer count, width, height,
/// format, stride, size.
pub proof fn lemma_handshake_layout(h: Handshake)
    ensures
        h.spec_bytes().len() == 24,
        h.spec_bytes().subrange(0, 4) == le32(h.buf_count),
        h.spec_bytes().subrange(4, 8) == le32(h.width),
        h.spec_bytes().subrange(8, 12) == le32(h.height),
        h.spec_bytes().subrange(12, 16) == le32(h.format),
        h.spec_bytes().subrange(16, 20) == le32(h.stride),
        h.spec_bytes().subrange(20, 24) == le32(h.size),
        u32_at(h.spec_bytes(), 0) == h.buf_count,
        u32_at(h.spec_bytes(), 4) == h.width,
        u32_at(h.spec_bytes(), 8) == h.height,
        u32_at(h.spec_bytes(), 12) == h.format,
        u32_at(h.spec_bytes(), 16) == h.stride,
        u32_at(h.spec_bytes(), 20) == h.size,
{
    lemma_le_facts();
    let b = h.spec_bytes();
    assert(b.subrange(0, 4) =~= le32(h.buf_count));
    assert(b.subrange(4, 8) =~= le32(h.width));
    assert(b.subrange(8, 12) =~= le32(h.height));
    assert(b.subrange(12, 16) =~= le32(h.format));
    assert(b.subrange(16, 20) =~= le32(h.stride));
    assert(b.subrange(20, 24) =~= le32(h.size));
    lemma_u32_at_encoded(b, 0, h.buf_count);
    lemma_u32_at_encoded(b, 4, h.width);
    lemma_u32_at_encoded(b, 8, h.height);
    lemma_u32_at_encoded(b, 12, h.format);
    lemma_u32_at_encoded(b, 16, h.stride);
    lemma_u32_at_encoded(b, 20, h.size);
}

/// Receiving a handshake: it is accepted exactly when a whole handshake
/// arrived with as many descriptors as it announces, and then it is the
/// handshake the bytes hold; a short read is refused as such whatever came
/// with it; a whole read with a wrong number of descriptors is refused
/// naming the count announced and the count received.
pub proof fn lemma_handshake_outcome_cases(received: usize, payload: Seq<u8>, fd_count: usize)
    ensures
        handshake_outcome(received, payload, fd_count) matches Ok(h) ==> (received == HANDSHAKE_LEN
            && fd_count == h.buf_count && h.buf_count == u32_at(payload, 0) && h.width == u32_at(
            payload,
            4,
        ) && h.height == u32_at(payload, 8) && h.format == u32_at(payload, 12) && h.stride
            == u32_at(payload, 16) && h.size == u32_at(payload, 20)),
        (handshake_outcome(received, payload, fd_count) == Err::<Handshake, SocketError>(
            SocketError::ShortRecvHandshake,
        )) <==> received != HANDSHAKE_LEN,
        handshake_outcome(received, payload, fd_count) matches Err(
            SocketError::FdCountMismatch { expected, got },
        ) ==> (received == HANDSHAKE_LEN && got == fd_count && expected == u32_at(payload, 0)
            && got != expected),
        received == HANDSHAKE_LEN && fd_count == u32_at(payload, 0) ==> handshake_outcome(
            received,
            payload,
            fd_count,
        ) is Ok,
{
}

/// Receiving an index: an orderly close (0 bytes) and only that is the peer
/// closing; a failed call and only that is the call's error; an index is
/// delivered only from a read of all four bytes, and is the little-endian
/// value of those bytes; a partial read is a short read.
pub proof fn lemma_recv_idx_cases(n: isize, buf: Seq<u8>, errno: i32)
    ensures
        (RecvIdx::spec_from_recv(n, buf, errno) == RecvIdx::PeerClosed) <==> n == 0,
        (RecvIdx::spec_from_recv(n, buf, errno) == RecvIdx::Error(SocketError::Os(errno)))
            <==> n < 0,
        RecvIdx::spec_from_recv(n, buf, errno) matches RecvIdx::Idx(i) ==> (n == 4 && i == u32_at(
            buf,
            0,
        )),
        n == 4 ==> RecvIdx::spec_from_recv(n, buf, errno) == RecvIdx::Idx(u32_at(buf, 0)),
        (0 < n && n != 4) ==> RecvIdx::spec_from_recv(n, buf, errno) == RecvIdx::Error(
            SocketError::ShortRecvIdx,
        ),
{
}

/// The descriptors passed in two runs of control messages are those of the
/// first followed by those of the second.
pub proof fn lemma_passed_fds_concat(a: Seq<ControlMessage>, b: Seq<ControlMessage>)
    ensures
        passed_fds(a + b) == passed_fds(a) + passed_fds(b),
    decreases b.len(),
{
    if b.len() == 0 {
        assert(a + b =~= a);
        assert(passed_fds(a) + passed_fds(b) =~= passed_fds(a));
    } else {
        lemma_passed_fds_concat(a, b.drop_last());
        assert((a + b).drop_last() =~= a + b.drop_last());
        assert((a + b).last() == b.last());
        match b.last() {
            ControlMessage::Rights(fds) => {
                assert(passed_fds(a) + passed_fds(b.drop_last()) + fds@ =~= passed_fds(a) + (
                passed_fds(b.drop_last()) + fds@));
            },
            ControlMessage::Other => {},
        }
    }
}

/// One `SCM_RIGHTS` message passes exactly its descriptors, in order; any
/// other control message passes none.
pub proof fn lemma_passed_fds_single(m: ControlMessage)
    ensures
        passed_fds(seq![m]) == match m {
            ControlMessage::Rights(fds) => fds@,
            ControlMessage::Other => Seq::<i32>::empty(),
        },
{
    assert(seq![m].drop_last() =~= Seq::<ControlMessage>::empty());
    assert(seq![m].last() == m);
    assert(passed_fds(Seq::<ControlMessage>::empty()) =~= Seq::<i32>::empty());
    match m {
        ControlMessage::Rights(fds) => {
            assert(Seq::<i32>::empty() + fds@ =~= fds@);
        },
        ControlMessage::Other => {},
    }
}

} // verus!
