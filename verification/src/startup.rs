//! Bringing a capture up, and allocating DMA-BUFs from a heap, as state
//! machines: each phase names the request to issue, and the caller reports
//! whether the `ioctl` succeeded, with the reply it filled in.
//!
//! An MMAP capture, once the driver granted `granted` buffers, queries each
//! buffer's length, exports it as a DMA-BUF, records it and queues it, in
//! index order, then turns streaming on: each buffer is exported exactly once
//! at startup and its descriptor kept. A DMA-BUF capture queues each passed
//! descriptor, in order, then turns streaming on. A heap allocation makes
//! `count` allocations and, on a failure, hands back every descriptor it made.

use vstd::prelude::*;
use crate::layout::{le32, u32_at};
use crate::kabi::{
    spec_buffer_request, spec_expbuf_request, buffer_reply, expbuf_fd, expbuf_request,
    buffer_request, stream_type_arg, dma_heap_fd, V4L2_MEMORY_MMAP, V4L2_MEMORY_DMABUF,
    V4L2_BUF_TYPE_VIDEO_CAPTURE, BUFFER_LEN, EXPORTBUFFER_LEN, DMA_HEAP_ALLOC_LEN, VIDIOC_QUERYBUF,
    VIDIOC_EXPBUF, VIDIOC_QBUF, VIDIOC_STREAMON,
};
use crate::capture::{
    V4l2BufInfo, V4l2Capture, V4l2CaptureDma, CaptureError, MIN_BUFFERS, buffers_indexed,
    buffer_fds, same_format, same_format_dma,
};

verus! {

// ---- MMAP capture -------------------------------------------------------------

/// Where an MMAP capture is in its startup.
#[derive(Debug, Clone, Copy, PartialEq, Eq, Structural)]
pub enum StartPhase {
    /// Ask the driver about buffer `i` (`VIDIOC_QUERYBUF`).
    Query(u32),
    /// Export buffer `i`, of the given length, as a DMA-BUF (`VIDIOC_EXPBUF`).
    Export(u32, u32),
    /// Queue buffer `i` (`VIDIOC_QBUF`).
    Queue(u32),
    /// Turn streaming on (`VIDIOC_STREAMON`).
    StreamOn,
    /// The capture streams.
    Started,
    /// Startup stopped with this error.
    Failed(CaptureError),
}

/// What holds between the phase and the number `n` of recorded buffers.
pub open spec fn start_inv(p: StartPhase, granted: u32, n: nat) -> bool {
    match p {
        StartPhase::Query(i) => i < granted && n == i,
        StartPhase::Export(i, _) => i < granted && n == i,
        StartPhase::Queue(i) => i < granted && n == i + 1,
        StartPhase::StreamOn => n == granted,
        StartPhase::Started => n == granted,
        StartPhase::Failed(_) => true,
    }
}

/// The phase that works on buffer `k` next, or turns streaming on after the last.
pub open spec fn start_phase_at(k: nat, granted: u32) -> StartPhase {
    if k < granted {
        StartPhase::Query(k as u32)
    } else {
        StartPhase::StreamOn
    }
}

/// One step of the startup: the phase `p` with the buffers `bufs` recorded,
/// after its request succeeded (`ok`, with `reply` the bytes it filled) or
/// failed with `errno`.
pub open spec fn spec_start_step(
    p: StartPhase,
    bufs: Seq<V4l2BufInfo>,
    granted: u32,
    ok: bool,
    errno: i32,
    reply: Seq<u8>,
) -> (StartPhase, Seq<V4l2BufInfo>) {
    match p {
        StartPhase::Query(i) => if ok {
            (StartPhase::Export(i, u32_at(reply, 72)), bufs)
        } else {
            (StartPhase::Failed(CaptureError::Os(errno)), bufs)
        },
        StartPhase::Export(i, length) => if ok {
            (
                StartPhase::Queue(i),
                bufs.push(
                    V4l2BufInfo {
                        dmabuf_fd: u32_at(reply, 16) as i32,
                        index: i,
                        length,
                        bytesused: 0,
                    },
                ),
            )
        } else {
            (StartPhase::Failed(CaptureError::Os(errno)), bufs)
        },
        StartPhase::Queue(i) => if ok {
            (start_phase_at((i + 1) as nat, granted), bufs)
        } else {
            (StartPhase::Failed(CaptureError::Os(errno)), bufs)
        },
        StartPhase::StreamOn => if ok {
            (StartPhase::Started, bufs)
        } else {
            (StartPhase::Failed(CaptureError::Os(errno)), bufs)
        },
        _ => (p, bufs),
    }
}

/// The request each phase issues, as the `ioctl` number and its argument's
/// bytes; exports open the descriptor with `export_flags`.
pub open spec fn spec_start_request(p: StartPhase, export_flags: u32) -> Option<(u64, Seq<u8>)> {
    match p {
        StartPhase::Query(i) => Some((VIDIOC_QUERYBUF, spec_buffer_request(i, V4L2_MEMORY_MMAP, 0, 0))),
        StartPhase::Export(i, _) => Some((VIDIOC_EXPBUF, spec_expbuf_request(i, export_flags))),
        StartPhase::Queue(i) => Some((VIDIOC_QBUF, spec_buffer_request(i, V4L2_MEMORY_MMAP, 0, 0))),
        StartPhase::StreamOn => Some((VIDIOC_STREAMON, le32(V4L2_BUF_TYPE_VIDEO_CAPTURE))),
        _ => None,
    }
}

/// An optional request as plain values.
pub open spec fn opt_request(r: Option<(u64, Vec<u8>)>) -> Option<(u64, Seq<u8>)> {
    match r {
        Some(x) => Some((x.0, x.1@)),
        None => None,
    }
}

/// The requests of an MMAP startup: a query and a queue of buffer `i` name
/// buffer `i` of the capture queue with MMAP memory, an export names buffer
/// `i` with the given descriptor flags, and stream-on takes the capture
/// queue's type; started or failed startups issue nothing.
pub proof fn lemma_start_requests(i: u32, len: u32, flags: u32, e: CaptureError)
    ensures
        spec_start_request(StartPhase::Query(i), flags) matches Some(q) && q.0 == VIDIOC_QUERYBUF
            && u32_at(q.1, 0) == i && u32_at(q.1, 60) == V4L2_MEMORY_MMAP,
        spec_start_request(StartPhase::Export(i, len), flags) matches Some(q) && q.0
            == VIDIOC_EXPBUF && u32_at(q.1, 4) == i && u32_at(q.1, 12) == flags,
        spec_start_request(StartPhase::Queue(i), flags) matches Some(q) && q.0 == VIDIOC_QBUF
            && u32_at(q.1, 0) == i && u32_at(q.1, 60) == V4L2_MEMORY_MMAP,
        spec_start_request(StartPhase::StreamOn, flags) == Some(
            (VIDIOC_STREAMON, le32(V4L2_BUF_TYPE_VIDEO_CAPTURE)),
        ),
        spec_start_request(StartPhase::Started, flags) is None,
        spec_start_request(StartPhase::Failed(e), flags) is None,
{
    crate::kabi::lemma_buffer_request_fields(i, V4L2_MEMORY_MMAP, 0, 0);
    crate::kabi::lemma_expbuf_request_fields(i, flags);
}

impl V4l2Capture {
    /// Starts bringing the capture up once the driver granted `granted`
    /// buffers. Fewer than two fail the start and change nothing; otherwise the
    /// previous buffers are forgotten (their descriptors returned, for the
    /// caller to close) and the first buffer is queried.
    pub fn start_begin(&mut self, granted: u32) -> (r: (StartPhase, Vec<i32>))
        ensures
            same_format(*final(self), *old(self)),
            final(self).fd == old(self).fd,
            final(self).streaming == old(self).streaming,
            granted < MIN_BUFFERS ==> {
                &&& r.0 == StartPhase::Failed(CaptureError::TooFewBuffers(granted))
                &&& r.1@.len() == 0
                &&& final(self).buffers@ == old(self).buffers@
            },
            granted >= MIN_BUFFERS ==> {
                &&& r.0 == StartPhase::Query(0)
                &&& r.1@ == buffer_fds(old(self).buffers@)
                &&& final(self).buffers@.len() == 0
                &&& start_inv(r.0, granted, 0)
            },
    {
        if granted < MIN_BUFFERS {
            return (StartPhase::Failed(CaptureError::TooFewBuffers(granted)), Vec::new());
        }
        let old_fds = self.begin_buffers();
        (StartPhase::Query(0), old_fds)
    }

    /// The `ioctl` to issue in phase `p`, if any: its number and argument.
    pub fn start_request(p: StartPhase, export_flags: u32) -> (r: Option<(u64, Vec<u8>)>)
        ensures
            opt_request(r) == spec_start_request(p, export_flags),
    {
        match p {
            StartPhase::Query(i) => Some((VIDIOC_QUERYBUF, buffer_request(i, V4L2_MEMORY_MMAP, 0, 0))),
            StartPhase::Export(i, _) => Some((VIDIOC_EXPBUF, expbuf_request(i, export_flags))),
            StartPhase::Queue(i) => Some((VIDIOC_QBUF, buffer_request(i, V4L2_MEMORY_MMAP, 0, 0))),
            StartPhase::StreamOn => Some((VIDIOC_STREAMON, stream_type_arg())),
            _ => None,
        }
    }

    /// Moves the startup on after the request of phase `p` succeeded (`ok`,
    /// `reply` being the bytes it filled) or failed with `errno`. A buffer is
    /// recorded exactly when its export succeeded, and streaming is on exactly
    /// after a successful stream-on; nothing else changes.
    pub fn start_advance(
        &mut self,
        p: StartPhase,
        granted: u32,
        ok: bool,
        errno: i32,
        reply: &[u8],
    ) -> (next: StartPhase)
        requires
            start_inv(p, granted, old(self).buffers@.len()),
            buffers_indexed(old(self).buffers@),
            ok && p is Query ==> reply@.len() == BUFFER_LEN,
            ok && p is Export ==> reply@.len() == EXPORTBUFFER_LEN,
        ensures
            (next, final(self).buffers@) == spec_start_step(
                p,
                old(self).buffers@,
                granted,
                ok,
                errno,
                reply@,
            ),
            start_inv(next, granted, final(self).buffers@.len()),
            buffers_indexed(final(self).buffers@),
            final(self).streaming == (old(self).streaming || (p == StartPhase::StreamOn && ok)),
            final(self).fd == old(self).fd,
            same_format(*final(self), *old(self)),
    {
        match p {
            StartPhase::Query(i) => {
                if ok {
                    StartPhase::Export(i, buffer_reply(reply).length)
                } else {
                    StartPhase::Failed(CaptureError::Os(errno))
                }
            },
            StartPhase::Export(i, length) => {
                if ok {
                    self.add_buffer(expbuf_fd(reply), length);
                    StartPhase::Queue(i)
                } else {
                    StartPhase::Failed(CaptureError::Os(errno))
                }
            },
            StartPhase::Queue(i) => {
                if ok {
                    if i + 1 < granted {
                        StartPhase::Query(i + 1)
                    } else {
                        StartPhase::StreamOn
                    }
                } else {
                    StartPhase::Failed(CaptureError::Os(errno))
                }
            },
            StartPhase::StreamOn => {
                if ok {
                    self.mark_streaming();
                    StartPhase::Started
                } else {
                    StartPhase::Failed(CaptureError::Os(errno))
                }
            },
            _ => p,
        }
    }
}

/// A startup in which every request succeeds, from phase `p` with `bufs`
/// recorded, fed the replies `replies` in order.
pub open spec fn start_run(
    p: StartPhase,
    bufs: Seq<V4l2BufInfo>,
    granted: u32,
    replies: Seq<Seq<u8>>,
) -> (StartPhase, Seq<V4l2BufInfo>)
    decreases replies.len(),
{
    if replies.len() == 0 {
        (p, bufs)
    } else {
        let (q, b) = start_run(p, bufs, granted, replies.drop_last());
        spec_start_step(q, b, granted, true, 0, replies.last())
    }
}

/// The first `n` buffers recorded by a run fed `replies`: buffer `k` carries
/// the descriptor of its export reply (`3k + 1`) and the length of its query
/// reply (`3k`).
pub open spec fn exported(replies: Seq<Seq<u8>>, n: nat) -> Seq<V4l2BufInfo> {
    Seq::new(
        n,
        |k: int|
            V4l2BufInfo {
                dmabuf_fd: u32_at(replies[3 * k + 1], 16) as i32,
                index: k as u32,
                length: u32_at(replies[3 * k], 72),
                bytesused: 0,
            },
    )
}

proof fn lemma_start_run_step(
    p: StartPhase,
    bufs: Seq<V4l2BufInfo>,
    granted: u32,
    replies: Seq<Seq<u8>>,
    n: int,
)
    requires
        0 <= n < replies.len(),
    ensures
        start_run(p, bufs, granted, replies.take(n + 1)) == ({
            let (q, b) = start_run(p, bufs, granted, replies.take(n));
            spec_start_step(q, b, granted, true, 0, replies[n])
        }),
{
    assert(replies.take(n + 1).drop_last() =~= replies.take(n));
}

proof fn lemma_start_prefix(granted: u32, replies: Seq<Seq<u8>>, i: nat)
    requires
        1 <= granted,
        i <= granted,
        3 * i <= replies.len(),
    ensures
        start_run(StartPhase::Query(0), Seq::empty(), granted, replies.take(3 * i as int)) == (
            start_phase_at(i, granted),
            exported(replies, i),
        ),
    decreases i,
{
    let q0 = StartPhase::Query(0);
    let e = Seq::<V4l2BufInfo>::empty();
    if i == 0 {
        assert(replies.take(0) =~= Seq::<Seq<u8>>::empty());
        assert(exported(replies, 0) =~= e);
    } else {
        let j: int = i - 1;
        lemma_start_prefix(granted, replies, j as nat);
        let rec = V4l2BufInfo {
            dmabuf_fd: u32_at(replies[3 * j + 1], 16) as i32,
            index: j as u32,
            length: u32_at(replies[3 * j], 72),
            bytesused: 0,
        };
        assert(start_phase_at(j as nat, granted) == StartPhase::Query(j as u32));
        lemma_start_run_step(q0, e, granted, replies, 3 * j);
        assert(start_run(q0, e, granted, replies.take(3 * j + 1)) == (
            StartPhase::Export(j as u32, u32_at(replies[3 * j], 72)),
            exported(replies, j as nat),
        ));
        lemma_start_run_step(q0, e, granted, replies, 3 * j + 1);
        assert(start_run(q0, e, granted, replies.take(3 * j + 2)) == (
            StartPhase::Queue(j as u32),
            exported(replies, j as nat).push(rec),
        ));
        lemma_start_run_step(q0, e, granted, replies, 3 * j + 2);
        assert(3 * j + 3 == 3 * i as int);
        assert(start_run(q0, e, granted, replies.take(3 * j + 3)) == (
            start_phase_at(i, granted),
            exported(replies, j as nat).push(rec),
        ));
        assert(exported(replies, j as nat).push(rec
        ) =~= exported(replies, i));
    }
}

/// A startup in which every request succeeds ends streaming, with buffer `i`
/// recorded, for every `i` below `granted`, as the descriptor its export
/// returned, index `i`, the length its query reported, and nothing used.
pub proof fn lemma_start_all_ok(granted: u32, replies: Seq<Seq<u8>>)
    requires
        granted >= 1,
        replies.len() == 3 * granted + 1,
    ensures
        start_run(StartPhase::Query(0), Seq::empty(), granted, replies) == (
            StartPhase::Started,
            exported(replies, granted as nat),
        ),
        forall|i: int|
            0 <= i < granted ==> #[trigger] exported(replies, granted as nat)[i] == (V4l2BufInfo {
                dmabuf_fd: u32_at(replies[3 * i + 1], 16) as i32,
                index: i as u32,
                length: u32_at(replies[3 * i], 72),
                bytesused: 0,
            }),
{
    lemma_start_prefix(granted, replies, granted as nat);
    lemma_start_run_step(StartPhase::Query(0), Seq::empty(), granted, replies, 3 * granted as int);
    assert(replies.take(3 * granted as int + 1) =~= replies);
}

/// A failed request ends the startup with the buffers recorded so far kept
/// as they are: those whose export succeeded before it.
pub proof fn lemma_start_failure_keeps_recorded(
    p: StartPhase,
    bufs: Seq<V4l2BufInfo>,
    granted: u32,
    errno: i32,
    reply: Seq<u8>,
)
    requires
        !(p is Started),
        !(p is Failed),
    ensures
        spec_start_step(p, bufs, granted, false, errno, reply) == (
            StartPhase::Failed(CaptureError::Os(errno)),
            bufs,
        ),
{
}

// ---- DMA-BUF capture -----------------------------------------------------------

/// Where a DMA-BUF capture is in its startup.
#[derive(Debug, Clone, Copy, PartialEq, Eq, Structural)]
pub enum DmaStartPhase {
    /// Queue the `i`-th passed descriptor as buffer `i` (`VIDIOC_QBUF`).
    Queue(u32),
    /// Turn streaming on (`VIDIOC_STREAMON`).
    StreamOn,
    /// The capture streams.
    Started,
    /// Startup stopped with this error.
    Failed(CaptureError),
}

/// The phase that queues descriptor `k` next, or turns streaming on after the last of `n`.
pub open spec fn dma_phase_at(k: nat, n: nat) -> DmaStartPhase {
    if k < n {
        DmaStartPhase::Queue(k as u32)
    } else {
        DmaStartPhase::StreamOn
    }
}

/// What holds between the phase and the number `len` of recorded buffers,
/// for `n` passed descriptors.
pub open spec fn dma_start_inv(p: DmaStartPhase, n: nat, len: nat) -> bool {
    match p {
        DmaStartPhase::Queue(i) => i < n && len == i,
        DmaStartPhase::StreamOn => len == n,
        DmaStartPhase::Started => len == n,
        DmaStartPhase::Failed(_) => true,
    }
}

/// The record of passed descriptor `fd` as buffer `i` of a capture whose images take `size` bytes.
pub open spec fn dma_record(fd: i32, i: int, size: u32) -> V4l2BufInfo {
    V4l2BufInfo { dmabuf_fd: fd, index: i as u32, length: size, bytesused: 0 }
}

/// One step of the startup, for the passed descriptors `fds` and image size
/// `size`: the next phase, the buffers then recorded, and the descriptors the
/// caller must close because they will never be recorded.
pub open spec fn spec_dma_step(
    p: DmaStartPhase,
    bufs: Seq<V4l2BufInfo>,
    fds: Seq<i32>,
    size: u32,
    ok: bool,
    errno: i32,
) -> (DmaStartPhase, Seq<V4l2BufInfo>, Seq<i32>) {
    match p {
        DmaStartPhase::Queue(i) => if ok {
            (
                dma_phase_at((i + 1) as nat, fds.len()),
                bufs.push(dma_record(fds[i as int], i as int, size)),
                Seq::empty(),
            )
        } else {
            (
                DmaStartPhase::Failed(CaptureError::Os(errno)),
                bufs,
                fds.subrange(i as int, fds.len() as int),
            )
        },
        DmaStartPhase::StreamOn => if ok {
            (DmaStartPhase::Started, bufs, Seq::empty())
        } else {
            (DmaStartPhase::Failed(CaptureError::Os(errno)), bufs, Seq::empty())
        },
        _ => (p, bufs, Seq::empty()),
    }
}

/// The request each phase issues, as the `ioctl` number and its argument's
/// bytes, for the passed descriptors `fds`.
pub open spec fn spec_dma_start_request(p: DmaStartPhase, fds: Seq<i32>, size: u32) -> Option<
    (u64, Seq<u8>),
> {
    match p {
        DmaStartPhase::Queue(i) => Some(
            (
                VIDIOC_QBUF,
                spec_buffer_request(i, V4L2_MEMORY_DMABUF, (fds[i as int] as u32) as u64, size),
            ),
        ),
        DmaStartPhase::StreamOn => Some((VIDIOC_STREAMON, le32(V4L2_BUF_TYPE_VIDEO_CAPTURE))),
        _ => None,
    }
}

fn copy_tail(fds: &Vec<i32>, start: usize) -> (r: Vec<i32>)
    requires
        start <= fds@.len(),
    ensures
        r@ == fds@.subrange(start as int, fds@.len() as int),
{
    let mut out: Vec<i32> = Vec::new();
    let mut i = start;
    while i < fds.len()
        invariant
            start <= i <= fds@.len(),
            out@ == fds@.subrange(start as int, i as int),
        decreases fds@.len() - i,
    {
        out.push(fds[i]);
        i = i + 1;
        assert(out@ =~= fds@.subrange(start as int, i as int));
    }
    out
}

impl V4l2CaptureDma {
    /// Starts bringing the capture up with the passed descriptors `fds`, once
    /// the driver granted `granted` buffers. Fewer than two fail the start,
    /// change nothing, and hand all of `fds` back for closing; otherwise the
    /// previous buffers are forgotten (their descriptors returned, for the
    /// caller to close) and the first descriptor is queued next.
    pub fn start_begin(&mut self, granted: u32, fds: &Vec<i32>) -> (r: (DmaStartPhase, Vec<i32>))
        requires
            fds@.len() <= u32::MAX,
        ensures
            same_format_dma(*final(self), *old(self)),
            final(self).fd == old(self).fd,
            final(self).streaming == old(self).streaming,
            granted < MIN_BUFFERS ==> {
                &&& r.0 == DmaStartPhase::Failed(CaptureError::TooFewBuffers(granted))
                &&& r.1@ == fds@
                &&& final(self).buffers@ == old(self).buffers@
            },
            granted >= MIN_BUFFERS ==> {
                &&& r.0 == dma_phase_at(0, fds@.len())
                &&& r.1@ == buffer_fds(old(self).buffers@)
                &&& final(self).buffers@.len() == 0
                &&& dma_start_inv(r.0, fds@.len(), 0)
            },
    {
        if granted < MIN_BUFFERS {
            return (
                DmaStartPhase::Failed(CaptureError::TooFewBuffers(granted)),
                copy_tail(fds, 0),
            );
        }
        let old_fds = self.begin_buffers();
        if fds.len() > 0 {
            (DmaStartPhase::Queue(0), old_fds)
        } else {
            (DmaStartPhase::StreamOn, old_fds)
        }
    }

    /// The `ioctl` to issue in phase `p`, if any: its number and argument.
    pub fn start_request(&self, p: DmaStartPhase, fds: &Vec<i32>) -> (r: Option<(u64, Vec<u8>)>)
        requires
            p matches DmaStartPhase::Queue(i) ==> i < fds@.len(),
        ensures
            opt_request(r) == spec_dma_start_request(p, fds@, self.size_image),
    {
        match p {
            DmaStartPhase::Queue(i) => Some((VIDIOC_QBUF, self.queue_request(i, fds[i as usize]))),
            DmaStartPhase::StreamOn => Some((VIDIOC_STREAMON, stream_type_arg())),
            _ => None,
        }
    }

    /// Moves the startup on after the request of phase `p` succeeded (`ok`)
    /// or failed with `errno`, and returns the descriptors the caller must
    /// close: on a failed queue, the one that failed and all after it. A
    /// buffer is recorded exactly when its queueing succeeded, and streaming is
    /// on exactly after a successful stream-on; nothing else changes.
    pub fn start_advance(&mut self, p: DmaStartPhase, fds: &Vec<i32>, ok: bool, errno: i32) -> (r: (
        DmaStartPhase,
        Vec<i32>,
    ))
        requires
            fds@.len() <= u32::MAX,
            dma_start_inv(p, fds@.len(), old(self).buffers@.len()),
            buffers_indexed(old(self).buffers@),
        ensures
            (r.0, final(self).buffers@, r.1@) == spec_dma_step(
                p,
                old(self).buffers@,
                fds@,
                old(self).size_image,
                ok,
                errno,
            ),
            dma_start_inv(r.0, fds@.len(), final(self).buffers@.len()),
            buffers_indexed(final(self).buffers@),
            final(self).streaming == (old(self).streaming || (p == DmaStartPhase::StreamOn
                && ok)),
            final(self).fd == old(self).fd,
            same_format_dma(*final(self), *old(self)),
    {
        match p {
            DmaStartPhase::Queue(i) => {
                if ok {
                    self.add_buffer(fds[i as usize]);
                    let next = if (i as usize) + 1 < fds.len() {
                        DmaStartPhase::Queue(i + 1)
                    } else {
                        DmaStartPhase::StreamOn
                    };
                    (next, Vec::new())
                } else {
                    (DmaStartPhase::Failed(CaptureError::Os(errno)), copy_tail(fds, i as usize))
                }
            },
            DmaStartPhase::StreamOn => {
                if ok {
                    self.mark_streaming();
                    (DmaStartPhase::Started, Vec::new())
                } else {
                    (DmaStartPhase::Failed(CaptureError::Os(errno)), Vec::new())
                }
            },
            _ => (p, Vec::new()),
        }
    }
}

/// The requests of a DMA-BUF startup: queueing descriptor `i` names buffer
/// `i` with DMABUF memory, that descriptor in `m` and the image size as length.
pub proof fn lemma_dma_start_requests(i: u32, fds: Seq<i32>, size: u32)
    requires
        i < fds.len(),
    ensures
        spec_dma_start_request(DmaStartPhase::Queue(i), fds, size) matches Some(q) && q.0
            == VIDIOC_QBUF && u32_at(q.1, 0) == i && u32_at(q.1, 60) == V4L2_MEMORY_DMABUF
            && crate::layout::u64_at(q.1, 64) == (fds[i as int] as u32) as u64 && u32_at(q.1, 72)
            == size,
{
    crate::kabi::lemma_buffer_request_fields(i, V4L2_MEMORY_DMABUF, (fds[i as int] as u32) as u64, size);
}

/// `k` successful steps of a DMA-BUF startup from phase `p` with `bufs` recorded.
pub open spec fn dma_run(
    p: DmaStartPhase,
    bufs: Seq<V4l2BufInfo>,
    fds: Seq<i32>,
    size: u32,
    k: nat,
) -> (DmaStartPhase, Seq<V4l2BufInfo>)
    decreases k,
{
    if k == 0 {
        (p, bufs)
    } else {
        let (q, b) = dma_run(p, bufs, fds, size, (k - 1) as nat);
        let (q2, b2, _) = spec_dma_step(q, b, fds, size, true, 0);
        (q2, b2)
    }
}

/// The first `k` passed descriptors, recorded as buffers `0..k`.
pub open spec fn dma_recorded(fds: Seq<i32>, size: u32, k: nat) -> Seq<V4l2BufInfo> {
    Seq::new(k, |j: int| dma_record(fds[j], j, size))
}

proof fn lemma_dma_prefix(fds: Seq<i32>, size: u32, k: nat)
    requires
        k <= fds.len(),
        fds.len() <= u32::MAX,
    ensures
        dma_run(dma_phase_at(0, fds.len()), Seq::empty(), fds, size, k) == (
            dma_phase_at(k, fds.len()),
            dma_recorded(fds, size, k),
        ),
    decreases k,
{
    if k == 0 {
        assert(dma_recorded(fds, size, 0) =~= Seq::<V4l2BufInfo>::empty());
    } else {
        let j = (k - 1) as nat;
        lemma_dma_prefix(fds, size, j);
        assert(dma_phase_at(j, fds.len()) == DmaStartPhase::Queue(j as u32));
        assert(((j as u32) + 1) as nat == k);
        assert(dma_recorded(fds, size, j).push(dma_record(fds[j as int], j as int, size))
            =~= dma_recorded(fds, size, k));
    }
}

/// A DMA-BUF startup in which every request succeeds ends streaming, with
/// the `i`-th passed descriptor recorded as buffer `i`, of the image size, for
/// every `i`.
pub proof fn lemma_dma_start_all_ok(fds: Seq<i32>, size: u32)
    requires
        fds.len() <= u32::MAX,
    ensures
        dma_run(dma_phase_at(0, fds.len()), Seq::empty(), fds, size, fds.len() + 1) == (
            DmaStartPhase::Started,
            dma_recorded(fds, size, fds.len()),
        ),
        forall|i: int|
            0 <= i < fds.len() ==> #[trigger] dma_recorded(fds, size, fds.len())[i] == (
            V4l2BufInfo { dmabuf_fd: fds[i], index: i as u32, length: size, bytesused: 0 }),
{
    lemma_dma_prefix(fds, size, fds.len());
}

/// A failed queueing hands back exactly the descriptors not recorded: with
/// those recorded before, they are all the passed descriptors, each once.
pub proof fn lemma_dma_failure_returns_the_rest(fds: Seq<i32>, size: u32, i: u32, errno: i32)
    requires
        i < fds.len(),
    ensures
        ({
            let (_, bufs, close) = spec_dma_step(
                DmaStartPhase::Queue(i),
                dma_recorded(fds, size, i as nat),
                fds,
                size,
                false,
                errno,
            );
            buffer_fds(bufs) + close == fds
        }),
{
    let (_, bufs, close) = spec_dma_step(
        DmaStartPhase::Queue(i),
        dma_recorded(fds, size, i as nat),
        fds,
        size,
        false,
        errno,
    );
    assert(buffer_fds(bufs) + close =~= fds);
}

// ---- DMA heap ---------------------------------------------------------------------

/// Where an allocation of DMA-BUFs from a heap stands, as plain values.
pub enum HeapState {
    /// Allocate once more; these were allocated so far.
    Allocate(Seq<i32>),
    /// All allocations are made.
    Done(Seq<i32>),
    /// An allocation failed; these were allocated before it and must be closed.
    Failed(Seq<i32>),
}

/// Where an allocation of DMA-BUFs from a heap stands.
#[derive(Debug, PartialEq, Eq)]
pub enum HeapStep {
    /// Allocate once more; these were allocated so far.
    Allocate(Vec<i32>),
    /// All allocations are made.
    Done(Vec<i32>),
    /// An allocation failed; these were allocated before it and must be closed.
    Failed(Vec<i32>),
}

impl View for HeapStep {
    type V = HeapState;

    open spec fn view(&self) -> HeapState {
        match self {
            HeapStep::Allocate(v) => HeapState::Allocate(v@),
            HeapStep::Done(v) => HeapState::Done(v@),
            HeapStep::Failed(v) => HeapState::Failed(v@),
        }
    }
}

/// The state after one allocation request with `allocated` made before it,
/// of `count` in all: a success adds the descriptor of `reply`.
pub open spec fn spec_heap_step(allocated: Seq<i32>, count: u32, ok: bool, reply: Seq<u8>) -> HeapState {
    if !ok {
        HeapState::Failed(allocated)
    } else {
        let more = allocated.push(u32_at(reply, 8) as i32);
        if more.len() >= count {
            HeapState::Done(more)
        } else {
            HeapState::Allocate(more)
        }
    }
}

/// The start of an allocation of `count` DMA-BUFs.
pub fn dma_heap_begin(count: u32) -> (r: HeapStep)
    ensures
        r@ == (if count == 0 {
            HeapState::Done(Seq::empty())
        } else {
            HeapState::Allocate(Seq::empty())
        }),
{
    if count == 0 {
        HeapStep::Done(Vec::new())
    } else {
        HeapStep::Allocate(Vec::new())
    }
}

/// Moves an allocation of `count` DMA-BUFs on after one request, with
/// `allocated` the descriptors made before it: it succeeded (`ok`, `reply`
/// being the filled `dma_heap_allocation_data`) or failed.
pub fn dma_heap_advance(allocated: Vec<i32>, count: u32, ok: bool, reply: &[u8]) -> (r: HeapStep)
    requires
        allocated@.len() < count,
        ok ==> reply@.len() == DMA_HEAP_ALLOC_LEN,
    ensures
        r@ == spec_heap_step(allocated@, count, ok, reply@),
{
    if !ok {
        return HeapStep::Failed(allocated);
    }
    let mut more = allocated;
    more.push(dma_heap_fd(reply));
    if more.len() >= count as usize {
        HeapStep::Done(more)
    } else {
        HeapStep::Allocate(more)
    }
}

/// The state after the successful replies `replies`, from the start of an
/// allocation of `count`.
pub open spec fn heap_run(count: u32, replies: Seq<Seq<u8>>) -> HeapState
    decreases replies.len(),
{
    if replies.len() == 0 {
        if count == 0 {
            HeapState::Done(Seq::empty())
        } else {
            HeapState::Allocate(Seq::empty())
        }
    } else {
        match heap_run(count, replies.drop_last()) {
            HeapState::Allocate(a) => spec_heap_step(a, count, true, replies.last()),
            other => other,
        }
    }
}

/// The descriptors the first `k` replies carry.
pub open spec fn heap_fds(replies: Seq<Seq<u8>>, k: nat) -> Seq<i32> {
    Seq::new(k, |j: int| u32_at(replies[j], 8) as i32)
}

/// A failed allocation hands back exactly the descriptors made before it,
/// and a successful one keeps them, in order, adding the new one last.
pub proof fn lemma_heap_step_cases(allocated: Seq<i32>, count: u32, reply: Seq<u8>)
    ensures
        spec_heap_step(allocated, count, false, reply) matches HeapState::Failed(v) && v
            == allocated,
        match spec_heap_step(allocated, count, true, reply) {
            HeapState::Allocate(v) => v.len() == allocated.len() + 1 && v.len() < count
                && v.subrange(0, allocated.len() as int) == allocated && v.last() == u32_at(reply, 8)
                as i32,
            HeapState::Done(v) => v.len() == allocated.len() + 1 && v.len() >= count && v.subrange(
                0,
                allocated.len() as int,
            ) == allocated && v.last() == u32_at(reply, 8) as i32,
            HeapState::Failed(_) => false,
        },
{
    assert(allocated.push(u32_at(reply, 8) as i32).subrange(0, allocated.len() as int) =~= allocated);
}

/// `count` successful allocations give exactly the descriptors the replies
/// carry, in order; fewer leave the allocation asking for more.
pub proof fn lemma_heap_all_ok(count: u32, replies: Seq<Seq<u8>>, k: nat)
    requires
        k <= replies.len(),
        k <= count,
    ensures
        heap_run(count, replies.take(k as int)) == (if k == count {
            HeapState::Done(heap_fds(replies, k))
        } else {
            HeapState::Allocate(heap_fds(replies, k))
        }),
    decreases k,
{
    if k == 0 {
        assert(replies.take(0) =~= Seq::<Seq<u8>>::empty());
        assert(heap_fds(replies, 0) =~= Seq::<i32>::empty());
    } else {
        let j = (k - 1) as nat;
        lemma_heap_all_ok(count, replies, j);
        assert(replies.take(k as int).drop_last() =~= replies.take(j as int));
        assert(heap_fds(replies, j).push(u32_at(replies[j as int], 8) as i32) =~= heap_fds(
            replies,
            k,
        ));
    }
}

} // verus!
