//! Bookkeeping of a V4L2 capture device: negotiated format, the buffers and
//! their DMA-BUF descriptors, streaming state, and the requests that drive it.
//!
//! Two flavours share one shape: [`V4l2Capture`] lets the driver allocate the
//! buffers (`V4L2_MEMORY_MMAP`) and exports each as a DMA-BUF, while
//! [`V4l2CaptureDma`] is given DMA-BUF descriptors allocated elsewhere
//! (`V4L2_MEMORY_DMABUF`). The `ioctl` calls themselves are made by the caller
//! with the bytes built here.

use vstd::prelude::*;
use crate::layout::u32_at;
use crate::fourcc::{drm_format_of, v4l2_to_drm_fourcc};
use crate::wire::{Handshake, handshake_outcome, lemma_announced_handshake_is_accepted, HANDSHAKE_LEN, SocketError};
use crate::kabi::{
    NegotiatedFormat, BufferReply, spec_buffer_request, spec_reqbufs_request, buffer_request,
    reqbufs_request, V4L2_MEMORY_MMAP, V4L2_MEMORY_DMABUF,
};

verus! {

/// One capture buffer and its exported DMA-BUF descriptor.
#[derive(Debug, Clone, Copy, PartialEq, Eq, Structural)]
pub struct V4l2BufInfo {
    pub dmabuf_fd: i32,
    pub index: u32,
    pub length: u32,
    pub bytesused: u32,
}

/// Why a capture step failed.
#[derive(Debug, Clone, Copy, PartialEq, Eq, Structural)]
pub enum CaptureError {
    /// The system call failed with this `errno`.
    Os(i32),
    /// The device cannot both capture video and stream.
    Unsupported,
    /// The driver granted fewer than two buffers: this many.
    TooFewBuffers(u32),
    /// No frame became ready within the wait.
    Timeout,
}

/// The fewest buffers a capture can run with: one filling while one is shown.
pub const MIN_BUFFERS: u32 = 2;

/// Buffer `i` sits at position `i`.
pub open spec fn buffers_indexed(bufs: Seq<V4l2BufInfo>) -> bool {
    forall|i: int| 0 <= i < bufs.len() ==> (#[trigger] bufs[i]).index == i
}

/// What tearing a capture down takes, in order: stop the stream if it runs,
/// close the buffers' descriptors, release the driver's buffers, close the device.
#[derive(Debug, PartialEq, Eq)]
pub struct TeardownPlan {
    pub stream_off: bool,
    pub close_fds: Vec<i32>,
    /// The `VIDIOC_REQBUFS` request that frees all buffers, when the device is open.
    pub release_request: Option<Vec<u8>>,
    /// The device descriptor to close, when it is open.
    pub close_device: Option<i32>,
}

/// The descriptors of `bufs`, in order.
pub open spec fn buffer_fds(bufs: Seq<V4l2BufInfo>) -> Seq<i32> {
    bufs.map_values(|b: V4l2BufInfo| b.dmabuf_fd)
}

/// Checks the capabilities `VIDIOC_QUERYCAP` reported before the format is set.
pub fn check_capabilities(caps: u32) -> (r: Result<(), CaptureError>)
    ensures
        r is Ok <==> (caps & 0x0400_0001u32 == 0x0400_0001u32),
        r == (if crate::kabi::spec_can_capture_and_stream(caps) {
            Ok::<(), CaptureError>(())
        } else {
            Err(CaptureError::Unsupported)
        }),
{
    proof {
        crate::kabi::lemma_capabilities_only_two_bits_matter(caps, 0);
    }
    if crate::kabi::can_capture_and_stream(caps) {
        Ok(())
    } else {
        Err(CaptureError::Unsupported)
    }
}

/// Checks how many buffers `VIDIOC_REQBUFS` granted.
pub fn check_granted(granted: u32) -> (r: Result<(), CaptureError>)
    ensures
        r == (if granted >= MIN_BUFFERS {
            Ok::<(), CaptureError>(())
        } else {
            Err(CaptureError::TooFewBuffers(granted))
        }),
{
    if granted < MIN_BUFFERS {
        Err(CaptureError::TooFewBuffers(granted))
    } else {
        Ok(())
    }
}

/// The outcome of waiting (with `select`) for a frame: `r` is what `select`
/// returned, `errno` the error it set.
pub fn wait_outcome(r: i32, errno: i32) -> (res: Result<(), CaptureError>)
    ensures
        r < 0 ==> res == Err::<(), CaptureError>(CaptureError::Os(errno)),
        r == 0 ==> res == Err::<(), CaptureError>(CaptureError::Timeout),
        r > 0 ==> res == Ok::<(), CaptureError>(()),
{
    if r < 0 {
        Err(CaptureError::Os(errno))
    } else if r == 0 {
        Err(CaptureError::Timeout)
    } else {
        Ok(())
    }
}

/// Whether an interrupted `ioctl` is to be issued again: it returned -1 with
/// `errno` equal to `eintr`.
pub fn ioctl_should_retry(r: i32, errno: i32, eintr: i32) -> (retry: bool)
    ensures
        retry == (r == -1 && errno == eintr),
{
    r == -1 && errno == eintr
}

fn push_buffer(buffers: &mut Vec<V4l2BufInfo>, dmabuf_fd: i32, length: u32)
    requires
        buffers_indexed(old(buffers)@),
        old(buffers)@.len() < u32::MAX,
    ensures
        final(buffers)@ == old(buffers)@.push(
            V4l2BufInfo { dmabuf_fd, index: old(buffers)@.len() as u32, length, bytesused: 0 },
        ),
        buffers_indexed(final(buffers)@),
{
    let index = buffers.len() as u32;
    buffers.push(V4l2BufInfo { dmabuf_fd, index, length, bytesused: 0 });
}

fn record_bytesused(buffers: &mut Vec<V4l2BufInfo>, reply: BufferReply) -> (idx: u32)
    requires
        buffers_indexed(old(buffers)@),
        reply.index < old(buffers)@.len(),
    ensures
        idx == reply.index,
        final(buffers)@ == old(buffers)@.update(
            reply.index as int,
            V4l2BufInfo { bytesused: reply.bytesused, ..old(buffers)@[reply.index as int] },
        ),
        buffers_indexed(final(buffers)@),
{
    let i = reply.index as usize;
    let mut b = buffers[i];
    b.bytesused = reply.bytesused;
    buffers.set(i, b);
    reply.index
}

fn fds_of(buffers: &Vec<V4l2BufInfo>) -> (fds: Vec<i32>)
    ensures
        fds@ == buffer_fds(buffers@),
{
    let mut fds: Vec<i32> = Vec::new();
    let mut i: usize = 0;
    while i < buffers.len()
        invariant
            i <= buffers@.len(),
            fds@ == buffer_fds(buffers@.subrange(0, i as int)),
        decreases buffers@.len() - i,
    {
        fds.push(buffers[i].dmabuf_fd);
        i = i + 1;
        assert(fds@ =~= buffer_fds(buffers@.subrange(0, i as int)));
    }
    assert(buffers@.subrange(0, buffers@.len() as int) =~= buffers@);
    fds
}

fn take_fds(buffers: &mut Vec<V4l2BufInfo>) -> (fds: Vec<i32>)
    ensures
        fds@ == buffer_fds(old(buffers)@),
        final(buffers)@.len() == 0,
{
    let fds = fds_of(buffers);
    buffers.clear();
    fds
}

/// The handshake that announces a capture's buffers as frames of
/// `drm_format`, with one descriptor per buffer.
pub open spec fn spec_announce(
    bufs: Seq<V4l2BufInfo>,
    width: u32,
    height: u32,
    stride: u32,
    size_image: u32,
    drm_format: u32,
) -> Handshake {
    Handshake {
        buf_count: bufs.len() as u32,
        width,
        height,
        format: drm_format,
        stride,
        size: size_image,
    }
}

/// The teardown of a device open on `fd` whose buffers are `bufs`.
pub open spec fn spec_teardown(
    fd: i32,
    streaming: bool,
    bufs: Seq<V4l2BufInfo>,
    memory: u32,
) -> (bool, Seq<i32>, Option<Seq<u8>>, Option<i32>) {
    (
        streaming,
        buffer_fds(bufs),
        if fd >= 0 {
            Some(spec_reqbufs_request(0, memory))
        } else {
            None
        },
        if fd >= 0 {
            Some(fd)
        } else {
            None
        },
    )
}

/// The parts of a teardown plan, as plain values.
pub open spec fn plan_parts(p: TeardownPlan) -> (bool, Seq<i32>, Option<Seq<u8>>, Option<i32>) {
    (
        p.stream_off,
        p.close_fds@,
        match p.release_request {
            Some(v) => Some(v@),
            None => None,
        },
        p.close_device,
    )
}

/// What a capture announces is what the subscriber accepts: its handshake,
/// received whole with the descriptors sent beside it, passes every check and
/// decodes to the same geometry, format and buffer count.
pub proof fn lemma_announcement_is_accepted(
    bufs: Seq<V4l2BufInfo>,
    width: u32,
    height: u32,
    stride: u32,
    size_image: u32,
    drm_format: u32,
)
    requires
        bufs.len() <= u32::MAX,
    ensures
        handshake_outcome(
            HANDSHAKE_LEN,
            spec_announce(bufs, width, height, stride, size_image, drm_format).spec_bytes(),
            buffer_fds(bufs).len() as usize,
        ) == Ok::<Handshake, SocketError>(
            spec_announce(bufs, width, height, stride, size_image, drm_format),
        ),
{
    lemma_announced_handshake_is_accepted(
        spec_announce(bufs, width, height, stride, size_image, drm_format),
        buffer_fds(bufs),
    );
}

/// Tearing down an open device stops the stream exactly when it runs, frees
/// the driver's buffers with a request for zero buffers of the same memory
/// kind, and closes the device's own descriptor.
pub proof fn lemma_teardown_of_open_device(
    fd: i32,
    streaming: bool,
    bufs: Seq<V4l2BufInfo>,
    memory: u32,
)
    requires
        fd >= 0,
    ensures
        spec_teardown(fd, streaming, bufs, memory).0 == streaming,
        spec_teardown(fd, streaming, bufs, memory).2 == Some(spec_reqbufs_request(0, memory)),
        spec_teardown(fd, streaming, bufs, memory).3 == Some(fd),
        u32_at(spec_reqbufs_request(0, memory), 0) == 0,
        u32_at(spec_reqbufs_request(0, memory), 8) == memory,
{
    crate::kabi::lemma_reqbufs_request_fields(0, memory);
}

/// The handshake a capture announces carries its buffer count and its
/// negotiated geometry, each in its own field, and the given DRM format.
pub proof fn lemma_announce_fields(
    bufs: Seq<V4l2BufInfo>,
    width: u32,
    height: u32,
    stride: u32,
    size_image: u32,
    drm_format: u32,
)
    requires
        bufs.len() <= u32::MAX,
    ensures
        spec_announce(bufs, width, height, stride, size_image, drm_format).buf_count == bufs.len(),
        spec_announce(bufs, width, height, stride, size_image, drm_format).width == width,
        spec_announce(bufs, width, height, stride, size_image, drm_format).height == height,
        spec_announce(bufs, width, height, stride, size_image, drm_format).stride == stride,
        spec_announce(bufs, width, height, stride, size_image, drm_format).size == size_image,
        spec_announce(bufs, width, height, stride, size_image, drm_format).format == drm_format,
        buffer_fds(bufs).len() == bufs.len(),
{
}

/// Tearing down a capture that was already torn down asks for nothing: no
/// stream to stop, no descriptor to close, no buffers to release.
pub proof fn lemma_second_teardown_is_empty(memory: u32)
    ensures
        spec_teardown(-1i32, false, Seq::empty(), memory) == (
            false,
            Seq::<i32>::empty(),
            None::<Seq<u8>>,
            None::<i32>,
        ),
{
    assert(buffer_fds(Seq::<V4l2BufInfo>::empty()) =~= Seq::<i32>::empty());
}

/// Teardown closes the descriptor of every buffer exactly as recorded, in order.
pub proof fn lemma_teardown_closes_every_buffer(
    fd: i32,
    streaming: bool,
    bufs: Seq<V4l2BufInfo>,
    memory: u32,
    i: int,
)
    requires
        0 <= i < bufs.len(),
    ensures
        spec_teardown(fd, streaming, bufs, memory).1.len() == bufs.len(),
        spec_teardown(fd, streaming, bufs, memory).1[i] == bufs[i].dmabuf_fd,
{
}

/// Two MMAP captures have the same negotiated format.
pub open spec fn same_format(a: V4l2Capture, b: V4l2Capture) -> bool {
    &&& a.width == b.width
    &&& a.height == b.height
    &&& a.stride == b.stride
    &&& a.size_image == b.size_image
    &&& a.pixel_format == b.pixel_format
}

/// Two DMA-BUF captures have the same negotiated format.
pub open spec fn same_format_dma(a: V4l2CaptureDma, b: V4l2CaptureDma) -> bool {
    &&& a.width == b.width
    &&& a.height == b.height
    &&& a.stride == b.stride
    &&& a.size_image == b.size_image
    &&& a.pixel_format == b.pixel_format
}

/// A capture whose buffers the driver allocates (`V4L2_MEMORY_MMAP`) and
/// exports as DMA-BUFs.
pub struct V4l2Capture {
    /// The device descriptor; -1 once torn down.
    pub fd: i32,
    pub width: u32,
    pub height: u32,
    pub stride: u32,
    pub size_image: u32,
    pub pixel_format: u32,
    /// Whether `VIDIOC_STREAMON` succeeded and the stream was not stopped since.
    pub streaming: bool,
    pub buffers: Vec<V4l2BufInfo>,
}

/// A capture that streams into DMA-BUFs allocated elsewhere (`V4L2_MEMORY_DMABUF`).
pub struct V4l2CaptureDma {
    /// The device descriptor; -1 once torn down.
    pub fd: i32,
    pub width: u32,
    pub height: u32,
    pub stride: u32,
    pub size_image: u32,
    pub pixel_format: u32,
    /// Whether `VIDIOC_STREAMON` succeeded and the stream was not stopped since.
    pub streaming: bool,
    pub buffers: Vec<V4l2BufInfo>,
}

impl V4l2Capture {
    /// The handshake announcing this capture's buffers as frames of the DRM
    /// format that its negotiated pixel format is imported as, with the
    /// descriptors to pass; `None` when that pixel format has no DRM format.
    pub fn announce_frames(&self) -> (r: Option<(Handshake, Vec<i32>)>)
        requires
            self.buffers@.len() <= u32::MAX,
        ensures
            match drm_format_of(self.pixel_format) {
                None => r is None,
                Some(f) => r matches Some(x) && x.0 == spec_announce(
                    self.buffers@,
                    self.width,
                    self.height,
                    self.stride,
                    self.size_image,
                    f,
                ) && x.1@ == buffer_fds(self.buffers@),
            },
    {
        match v4l2_to_drm_fourcc(self.pixel_format) {
            None => None,
            Some(f) => Some(self.announce(f)),
        }
    }

    /// The handshake announcing this capture's buffers to a subscriber as
    /// frames of `drm_format`, and the descriptors to pass with it, in buffer order.
    pub fn announce(&self, drm_format: u32) -> (r: (Handshake, Vec<i32>))
        requires
            self.buffers@.len() <= u32::MAX,
        ensures
            r.0 == spec_announce(
                self.buffers@,
                self.width,
                self.height,
                self.stride,
                self.size_image,
                drm_format,
            ),
            r.1@ == buffer_fds(self.buffers@),
    {
        let hs = Handshake {
            buf_count: self.buffers.len() as u32,
            width: self.width,
            height: self.height,
            format: drm_format,
            stride: self.stride,
            size: self.size_image,
        };
        (hs, fds_of(&self.buffers))
    }

    /// A capture on device `fd`, with the format the driver settled on, not
    /// streaming yet and without buffers.
    pub fn new(fd: i32, fmt: NegotiatedFormat) -> (r: V4l2Capture)
        ensures
            r.fd == fd,
            r.width == fmt.width,
            r.height == fmt.height,
            r.stride == fmt.stride,
            r.size_image == fmt.size_image,
            r.pixel_format == fmt.pixel_format,
            !r.streaming,
            r.buffers@.len() == 0,
    {
        V4l2Capture {
            fd,
            width: fmt.width,
            height: fmt.height,
            stride: fmt.stride,
            size_image: fmt.size_image,
            pixel_format: fmt.pixel_format,
            streaming: false,
            buffers: Vec::new(),
        }
    }

    /// The `VIDIOC_REQBUFS` request for `count` driver-allocated buffers.
    pub fn reqbufs_request(count: u32) -> (r: Vec<u8>)
        ensures
            r@ == spec_reqbufs_request(count, V4L2_MEMORY_MMAP),
    {
        reqbufs_request(count, V4L2_MEMORY_MMAP)
    }

    /// The `v4l2_buffer` that queries, queues or re-queues buffer `index`;
    /// with index 0 it is also what `VIDIOC_DQBUF` is given to fill.
    pub fn buffer_request(index: u32) -> (r: Vec<u8>)
        ensures
            r@ == spec_buffer_request(index, V4L2_MEMORY_MMAP, 0, 0),
    {
        buffer_request(index, V4L2_MEMORY_MMAP, 0, 0)
    }

    /// Forgets any previous buffers before a new set is requested, and
    /// returns their descriptors, for the caller to close.
    pub fn begin_buffers(&mut self) -> (old_fds: Vec<i32>)
        ensures
            same_format(*final(self), *old(self)),
            old_fds@ == buffer_fds(old(self).buffers@),
            final(self).buffers@.len() == 0,
            final(self).fd == old(self).fd,
            final(self).streaming == old(self).streaming,
            final(self).size_image == old(self).size_image,
    {
        take_fds(&mut self.buffers)
    }

    /// Records the next buffer: its exported descriptor and its length as
    /// `VIDIOC_QUERYBUF` reported it.
    pub fn add_buffer(&mut self, dmabuf_fd: i32, length: u32)
        requires
            buffers_indexed(old(self).buffers@),
            old(self).buffers@.len() < u32::MAX,
        ensures
            same_format(*final(self), *old(self)),
            final(self).buffers@ == old(self).buffers@.push(
                V4l2BufInfo {
                    dmabuf_fd,
                    index: old(self).buffers@.len() as u32,
                    length,
                    bytesused: 0,
                },
            ),
            buffers_indexed(final(self).buffers@),
            final(self).fd == old(self).fd,
            final(self).streaming == old(self).streaming,
            final(self).size_image == old(self).size_image,
    {
        push_buffer(&mut self.buffers, dmabuf_fd, length);
    }

    /// Records that `VIDIOC_STREAMON` succeeded.
    pub fn mark_streaming(&mut self)
        ensures
            same_format(*final(self), *old(self)),
            final(self).streaming,
            final(self).buffers@ == old(self).buffers@,
            final(self).fd == old(self).fd,
    {
        self.streaming = true;
    }

    /// Records a dequeued buffer's fill level and returns its index.
    pub fn record_dequeue(&mut self, reply: BufferReply) -> (idx: u32)
        requires
            buffers_indexed(old(self).buffers@),
            reply.index < old(self).buffers@.len(),
        ensures
            same_format(*final(self), *old(self)),
            idx == reply.index,
            final(self).buffers@ == old(self).buffers@.update(
                reply.index as int,
                V4l2BufInfo { bytesused: reply.bytesused, ..old(self).buffers@[reply.index as int] },
            ),
            buffers_indexed(final(self).buffers@),
            final(self).fd == old(self).fd,
            final(self).streaming == old(self).streaming,
    {
        record_bytesused(&mut self.buffers, reply)
    }

    /// Tears the capture down and says what the caller must do for it. After
    /// it the capture is closed, not streaming, and holds no buffers, so a
    /// second teardown asks for nothing.
    pub fn teardown(&mut self) -> (p: TeardownPlan)
        ensures
            same_format(*final(self), *old(self)),
            plan_parts(p) == spec_teardown(
                old(self).fd,
                old(self).streaming,
                old(self).buffers@,
                V4L2_MEMORY_MMAP,
            ),
            final(self).fd == -1,
            !final(self).streaming,
            final(self).buffers@.len() == 0,
    {
        let stream_off = self.streaming;
        self.streaming = false;
        let close_fds = take_fds(&mut self.buffers);
        let (release_request, close_device) = if self.fd >= 0 {
            (Some(reqbufs_request(0, V4L2_MEMORY_MMAP)), Some(self.fd))
        } else {
            (None, None)
        };
        self.fd = -1;
        TeardownPlan { stream_off, close_fds, release_request, close_device }
    }
}

impl V4l2CaptureDma {
    /// The handshake announcing this capture's buffers to a subscriber as
    /// frames of `drm_format`, and the descriptors to pass with it, in buffer order.
    pub fn announce(&self, drm_format: u32) -> (r: (Handshake, Vec<i32>))
        requires
            self.buffers@.len() <= u32::MAX,
        ensures
            r.0 == spec_announce(
                self.buffers@,
                self.width,
                self.height,
                self.stride,
                self.size_image,
                drm_format,
            ),
            r.1@ == buffer_fds(self.buffers@),
    {
        let hs = Handshake {
            buf_count: self.buffers.len() as u32,
            width: self.width,
            height: self.height,
            format: drm_format,
            stride: self.stride,
            size: self.size_image,
        };
        (hs, fds_of(&self.buffers))
    }

    /// A capture on device `fd`, with the format the driver settled on, not
    /// streaming yet and without buffers.
    pub fn new(fd: i32, fmt: NegotiatedFormat) -> (r: V4l2CaptureDma)
        ensures
            r.fd == fd,
            r.width == fmt.width,
            r.height == fmt.height,
            r.stride == fmt.stride,
            r.size_image == fmt.size_image,
            r.pixel_format == fmt.pixel_format,
            !r.streaming,
            r.buffers@.len() == 0,
    {
        V4l2CaptureDma {
            fd,
            width: fmt.width,
            height: fmt.height,
            stride: fmt.stride,
            size_image: fmt.size_image,
            pixel_format: fmt.pixel_format,
            streaming: false,
            buffers: Vec::new(),
        }
    }

    /// The `VIDIOC_REQBUFS` request for `count` buffers backed by outside DMA-BUFs.
    pub fn reqbufs_request(count: u32) -> (r: Vec<u8>)
        ensures
            r@ == spec_reqbufs_request(count, V4L2_MEMORY_DMABUF),
    {
        reqbufs_request(count, V4L2_MEMORY_DMABUF)
    }

    /// The `v4l2_buffer` that `VIDIOC_DQBUF` is given to fill.
    pub fn dequeue_request() -> (r: Vec<u8>)
        ensures
            r@ == spec_buffer_request(0, V4L2_MEMORY_DMABUF, 0, 0),
    {
        buffer_request(0, V4L2_MEMORY_DMABUF, 0, 0)
    }

    /// The `VIDIOC_QBUF` request that queues DMA-BUF `dmabuf_fd` as buffer
    /// `index`: the descriptor in the low half of `m`, the image size as length.
    pub fn queue_request(&self, index: u32, dmabuf_fd: i32) -> (r: Vec<u8>)
        ensures
            r@ == spec_buffer_request(
                index,
                V4L2_MEMORY_DMABUF,
                (dmabuf_fd as u32) as u64,
                self.size_image,
            ),
    {
        buffer_request(index, V4L2_MEMORY_DMABUF, (dmabuf_fd as u32) as u64, self.size_image)
    }

    /// The `VIDIOC_QBUF` request that hands buffer `index` back to the driver,
    /// with the same descriptor it was first queued with.
    pub fn requeue_request(&self, index: u32) -> (r: Vec<u8>)
        requires
            index < self.buffers@.len(),
        ensures
            r@ == spec_buffer_request(
                index,
                V4L2_MEMORY_DMABUF,
                (self.buffers@[index as int].dmabuf_fd as u32) as u64,
                self.size_image,
            ),
    {
        let fd = self.buffers[index as usize].dmabuf_fd;
        self.queue_request(index, fd)
    }

    /// Forgets any previous buffers before a new set is queued, and returns
    /// their descriptors, for the caller to close.
    pub fn begin_buffers(&mut self) -> (old_fds: Vec<i32>)
        ensures
            same_format_dma(*final(self), *old(self)),
            old_fds@ == buffer_fds(old(self).buffers@),
            final(self).buffers@.len() == 0,
            final(self).fd == old(self).fd,
            final(self).streaming == old(self).streaming,
            final(self).size_image == old(self).size_image,
    {
        take_fds(&mut self.buffers)
    }

    /// Records the next buffer after it was queued: the DMA-BUF now owned by
    /// the capture, with the image size as its length.
    pub fn add_buffer(&mut self, dmabuf_fd: i32)
        requires
            buffers_indexed(old(self).buffers@),
            old(self).buffers@.len() < u32::MAX,
        ensures
            same_format_dma(*final(self), *old(self)),
            final(self).buffers@ == old(self).buffers@.push(
                V4l2BufInfo {
                    dmabuf_fd,
                    index: old(self).buffers@.len() as u32,
                    length: old(self).size_image,
                    bytesused: 0,
                },
            ),
            buffers_indexed(final(self).buffers@),
            final(self).fd == old(self).fd,
            final(self).streaming == old(self).streaming,
            final(self).size_image == old(self).size_image,
    {
        let len = self.size_image;
        push_buffer(&mut self.buffers, dmabuf_fd, len);
    }

    /// Records that `VIDIOC_STREAMON` succeeded.
    pub fn mark_streaming(&mut self)
        ensures
            same_format_dma(*final(self), *old(self)),
            final(self).streaming,
            final(self).buffers@ == old(self).buffers@,
            final(self).fd == old(self).fd,
            final(self).size_image == old(self).size_image,
    {
        self.streaming = true;
    }

    /// Records a dequeued buffer's fill level and returns its index.
    pub fn record_dequeue(&mut self, reply: BufferReply) -> (idx: u32)
        requires
            buffers_indexed(old(self).buffers@),
            reply.index < old(self).buffers@.len(),
        ensures
            same_format_dma(*final(self), *old(self)),
            idx == reply.index,
            final(self).buffers@ == old(self).buffers@.update(
                reply.index as int,
                V4l2BufInfo { bytesused: reply.bytesused, ..old(self).buffers@[reply.index as int] },
            ),
            buffers_indexed(final(self).buffers@),
            final(self).fd == old(self).fd,
            final(self).streaming == old(self).streaming,
            final(self).size_image == old(self).size_image,
    {
        record_bytesused(&mut self.buffers, reply)
    }

    /// Tears the capture down and says what the caller must do for it. After
    /// it the capture is closed, not streaming, and holds no buffers, so a
    /// second teardown asks for nothing.
    pub fn teardown(&mut self) -> (p: TeardownPlan)
        ensures
            same_format_dma(*final(self), *old(self)),
            plan_parts(p) == spec_teardown(
                old(self).fd,
                old(self).streaming,
                old(self).buffers@,
                V4L2_MEMORY_DMABUF,
            ),
            final(self).fd == -1,
            !final(self).streaming,
            final(self).buffers@.len() == 0,
    {
        let stream_off = self.streaming;
        self.streaming = false;
        let close_fds = take_fds(&mut self.buffers);
        let (release_request, close_device) = if self.fd >= 0 {
            (Some(reqbufs_request(0, V4L2_MEMORY_DMABUF)), Some(self.fd))
        } else {
            (None, None)
        };
        self.fd = -1;
        TeardownPlan { stream_off, close_fds, release_request, close_device }
    }
}

} // verus!
