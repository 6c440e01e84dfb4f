//! The kernel structures passed to `ioctl`: V4L2 and the DMA heap.
//!
//! Each request is built as the exact bytes of the C structure on 64-bit
//! Linux (offsets and sizes below), and each reply is read back from such
//! bytes. The caller hands the buffer's address to `ioctl` unchanged.

use vstd::prelude::*;
use crate::layout::{
    le32, le64, zeros, u32_at, u64_at, lemma_le_facts, lemma_u32_at_encoded, lemma_u64_at_encoded,
    push_u32, push_u64, push_zeros, read_u32,
};

verus! {

/// `V4L2_BUF_TYPE_VIDEO_CAPTURE`.
pub const V4L2_BUF_TYPE_VIDEO_CAPTURE: u32 = 1;
/// `V4L2_MEMORY_MMAP`.
pub const V4L2_MEMORY_MMAP: u32 = 1;
/// `V4L2_MEMORY_DMABUF`.
pub const V4L2_MEMORY_DMABUF: u32 = 4;
/// `V4L2_FIELD_ANY`.
pub const V4L2_FIELD_ANY: u32 = 0;
/// `V4L2_CAP_VIDEO_CAPTURE`.
pub const V4L2_CAP_VIDEO_CAPTURE: u32 = 0x0000_0001;
/// `V4L2_CAP_STREAMING`.
pub const V4L2_CAP_STREAMING: u32 = 0x0400_0000;

/// `sizeof(struct v4l2_capability)`.
pub const CAPABILITY_LEN: usize = 104;
/// `sizeof(struct v4l2_format)`.
pub const FORMAT_LEN: usize = 208;
/// `sizeof(struct v4l2_requestbuffers)`.
pub const REQUESTBUFFERS_LEN: usize = 20;
/// `sizeof(struct v4l2_buffer)`.
pub const BUFFER_LEN: usize = 88;
/// `sizeof(struct v4l2_exportbuffer)`.
pub const EXPORTBUFFER_LEN: usize = 64;
/// `sizeof(struct dma_heap_allocation_data)`.
pub const DMA_HEAP_ALLOC_LEN: usize = 24;
/// `sizeof(int)`, the argument of `VIDIOC_STREAMON`/`VIDIOC_STREAMOFF`.
pub const INT_LEN: usize = 4;

/// `_IOC` direction bits: the kernel writes the argument.
pub const IOC_READ: u64 = 2;
/// `_IOC` direction bits: the kernel reads the argument.
pub const IOC_WRITE: u64 = 1;

/// `_IOC(dir, type, nr, size)`: the request number of an `ioctl`.
pub open spec fn ioc(dir: int, ty: int, nr: int, size: int) -> int {
    dir * 0x4000_0000 + size * 0x1_0000 + ty * 0x100 + nr
}

/// `VIDIOC_QUERYCAP`, `_IOR('V', 0, struct v4l2_capability)`.
pub const VIDIOC_QUERYCAP: u64 = 0x8068_5600;
/// `VIDIOC_S_FMT`, `_IOWR('V', 5, struct v4l2_format)`.
pub const VIDIOC_S_FMT: u64 = 0xC0D0_5605;
/// `VIDIOC_REQBUFS`, `_IOWR('V', 8, struct v4l2_requestbuffers)`.
pub const VIDIOC_REQBUFS: u64 = 0xC014_5608;
/// `VIDIOC_QUERYBUF`, `_IOWR('V', 9, struct v4l2_buffer)`.
pub const VIDIOC_QUERYBUF: u64 = 0xC058_5609;
/// `VIDIOC_QBUF`, `_IOWR('V', 15, struct v4l2_buffer)`.
pub const VIDIOC_QBUF: u64 = 0xC058_560F;
/// `VIDIOC_EXPBUF`, `_IOWR('V', 16, struct v4l2_exportbuffer)`.
pub const VIDIOC_EXPBUF: u64 = 0xC040_5610;
/// `VIDIOC_DQBUF`, `_IOWR('V', 17, struct v4l2_buffer)`.
pub const VIDIOC_DQBUF: u64 = 0xC058_5611;
/// `VIDIOC_STREAMON`, `_IOW('V', 18, int)`.
pub const VIDIOC_STREAMON: u64 = 0x4004_5612;
/// `VIDIOC_STREAMOFF`, `_IOW('V', 19, int)`.
pub const VIDIOC_STREAMOFF: u64 = 0x4004_5613;
/// `DMA_HEAP_IOCTL_ALLOC`, `_IOWR('H', 0, struct dma_heap_allocation_data)`.
pub const DMA_HEAP_IOC_ALLOC: u64 = 0xC018_4800;

/// Every request number encodes the direction and the size of exactly the
/// buffer that this module encodes for it.
pub proof fn lemma_request_numbers_match_layouts()
    ensures
        VIDIOC_QUERYCAP == ioc(2, 0x56, 0, CAPABILITY_LEN as int),
        VIDIOC_S_FMT == ioc(3, 0x56, 5, FORMAT_LEN as int),
        VIDIOC_REQBUFS == ioc(3, 0x56, 8, REQUESTBUFFERS_LEN as int),
        VIDIOC_QUERYBUF == ioc(3, 0x56, 9, BUFFER_LEN as int),
        VIDIOC_QBUF == ioc(3, 0x56, 15, BUFFER_LEN as int),
        VIDIOC_EXPBUF == ioc(3, 0x56, 16, EXPORTBUFFER_LEN as int),
        VIDIOC_DQBUF == ioc(3, 0x56, 17, BUFFER_LEN as int),
        VIDIOC_STREAMON == ioc(1, 0x56, 18, INT_LEN as int),
        VIDIOC_STREAMOFF == ioc(1, 0x56, 19, INT_LEN as int),
        DMA_HEAP_IOC_ALLOC == ioc(3, 0x48, 0, DMA_HEAP_ALLOC_LEN as int),
{
}

/// The `int` argument of `VIDIOC_STREAMON`/`VIDIOC_STREAMOFF`: the capture queue.
pub fn stream_type_arg() -> (r: Vec<u8>)
    ensures
        r@ == le32(V4L2_BUF_TYPE_VIDEO_CAPTURE),
        r@.len() == INT_LEN,
{
    proof {
        lemma_le_facts();
    }
    let mut out: Vec<u8> = Vec::new();
    push_u32(&mut out, V4L2_BUF_TYPE_VIDEO_CAPTURE);
    assert(out@ =~= le32(V4L2_BUF_TYPE_VIDEO_CAPTURE));
    out
}

// ---- struct v4l2_capability -------------------------------------------------
// driver[16] +0, card[32] +16, bus_info[32] +48, version +80,
// capabilities +84, device_caps +88, reserved[3] +92.

/// An all-zero `v4l2_capability` for `VIDIOC_QUERYCAP` to fill.
pub fn capability_request() -> (r: Vec<u8>)
    ensures
        r@ == zeros(CAPABILITY_LEN as nat),
{
    let mut out: Vec<u8> = Vec::new();
    push_zeros(&mut out, CAPABILITY_LEN);
    assert(out@ =~= zeros(CAPABILITY_LEN as nat));
    out
}

/// The `capabilities` field of a filled `v4l2_capability`.
pub fn capability_flags(reply: &[u8]) -> (r: u32)
    requires
        reply@.len() == CAPABILITY_LEN,
    ensures
        r == u32_at(reply@, 84),
{
    read_u32(reply, 84)
}

/// Whether a device with these capability flags can both capture video and stream.
pub open spec fn spec_can_capture_and_stream(caps: u32) -> bool {
    caps & V4L2_CAP_VIDEO_CAPTURE != 0 && caps & V4L2_CAP_STREAMING != 0
}

/// Whether a device with these capability flags can both capture video and stream.
pub fn can_capture_and_stream(caps: u32) -> (r: bool)
    ensures
        r == spec_can_capture_and_stream(caps),
{
    caps & V4L2_CAP_VIDEO_CAPTURE != 0 && caps & V4L2_CAP_STREAMING != 0
}

/// Only the two bits matter: a device is accepted whatever other capability
/// bits it reports (more bits never turn an accepted device away), every flag
/// word with both bits set is accepted, and one without either bit is refused.
pub proof fn lemma_capabilities_only_two_bits_matter(caps: u32, extra: u32)
    ensures
        spec_can_capture_and_stream(caps) ==> spec_can_capture_and_stream(caps | extra),
        spec_can_capture_and_stream(caps | 0x0000_0001u32 | 0x0400_0000u32),
        !spec_can_capture_and_stream(caps & !0x0000_0001u32),
        !spec_can_capture_and_stream(caps & !0x0400_0000u32),
        spec_can_capture_and_stream(caps) <==> (caps & 0x0400_0001u32 == 0x0400_0001u32),
{
    assert(caps & 0x0000_0001u32 != 0 && caps & 0x0400_0000u32 != 0 ==> (caps | extra)
        & 0x0000_0001u32 != 0 && (caps | extra) & 0x0400_0000u32 != 0) by (bit_vector);
    assert((caps | 0x0000_0001u32 | 0x0400_0000u32) & 0x0000_0001u32 != 0 && (caps
        | 0x0000_0001u32 | 0x0400_0000u32) & 0x0400_0000u32 != 0) by (bit_vector);
    assert((caps & !0x0000_0001u32) & 0x0000_0001u32 == 0) by (bit_vector);
    assert((caps & !0x0400_0000u32) & 0x0400_0000u32 == 0) by (bit_vector);
    assert((caps & 0x0000_0001u32 != 0 && caps & 0x0400_0000u32 != 0) <==> (caps
        & 0x0400_0001u32 == 0x0400_0001u32)) by (bit_vector);
}

// ---- struct v4l2_format -----------------------------------------------------
// type +0, (pad) +4, fmt.pix at +8: width +8, height +12, pixelformat +16,
// field +20, bytesperline +24, sizeimage +28, ... ; union padded to 200 bytes.

/// The `VIDIOC_S_FMT` request for a capture of `width`×`height` in `pixel_format`,
/// any field order.
pub open spec fn spec_format_request(width: u32, height: u32, pixel_format: u32) -> Seq<u8> {
    le32(V4L2_BUF_TYPE_VIDEO_CAPTURE) + zeros(4) + le32(width) + le32(height) + le32(pixel_format)
        + le32(V4L2_FIELD_ANY) + zeros(184)
}

/// Builds the `VIDIOC_S_FMT` request.
pub fn format_request(width: u32, height: u32, pixel_format: u32) -> (r: Vec<u8>)
    ensures
        r@ == spec_format_request(width, height, pixel_format),
        r@.len() == FORMAT_LEN,
{
    proof {
        lemma_le_facts();
    }
    let mut out: Vec<u8> = Vec::new();
    push_u32(&mut out, V4L2_BUF_TYPE_VIDEO_CAPTURE);
    push_zeros(&mut out, 4);
    push_u32(&mut out, width);
    push_u32(&mut out, height);
    push_u32(&mut out, pixel_format);
    push_u32(&mut out, V4L2_FIELD_ANY);
    push_zeros(&mut out, 184);
    assert(out@ =~= spec_format_request(width, height, pixel_format));
    out
}

/// The format a driver settled on, as `VIDIOC_S_FMT` wrote it back.
#[derive(Debug, Clone, Copy, PartialEq, Eq, Structural)]
pub struct NegotiatedFormat {
    pub width: u32,
    pub height: u32,
    pub pixel_format: u32,
    /// `bytesperline`.
    pub stride: u32,
    /// `sizeimage`.
    pub size_image: u32,
}

/// The format that a `v4l2_format` reply holds.
pub open spec fn spec_negotiated(reply: Seq<u8>) -> NegotiatedFormat {
    NegotiatedFormat {
        width: u32_at(reply, 8),
        height: u32_at(reply, 12),
        pixel_format: u32_at(reply, 16),
        stride: u32_at(reply, 24),
        size_image: u32_at(reply, 28),
    }
}

/// Reads the negotiated format out of a `VIDIOC_S_FMT` reply.
pub fn negotiated_format(reply: &[u8]) -> (r: NegotiatedFormat)
    requires
        reply@.len() == FORMAT_LEN,
    ensures
        r == spec_negotiated(reply@),
{
    NegotiatedFormat {
        width: read_u32(reply, 8),
        height: read_u32(reply, 12),
        pixel_format: read_u32(reply, 16),
        stride: read_u32(reply, 24),
        size_image: read_u32(reply, 28),
    }
}

// ---- struct v4l2_requestbuffers --------------------------------------------
// count +0, type +4, memory +8, capabilities +12, flags +16, reserved +17.

/// The `VIDIOC_REQBUFS` request for `count` capture buffers of the given memory kind.
pub open spec fn spec_reqbufs_request(count: u32, memory: u32) -> Seq<u8> {
    le32(count) + le32(V4L2_BUF_TYPE_VIDEO_CAPTURE) + le32(memory) + zeros(8)
}

/// Builds the `VIDIOC_REQBUFS` request.
pub fn reqbufs_request(count: u32, memory: u32) -> (r: Vec<u8>)
    ensures
        r@ == spec_reqbufs_request(count, memory),
        r@.len() == REQUESTBUFFERS_LEN,
{
    proof {
        lemma_le_facts();
    }
    let mut out: Vec<u8> = Vec::new();
    push_u32(&mut out, count);
    push_u32(&mut out, V4L2_BUF_TYPE_VIDEO_CAPTURE);
    push_u32(&mut out, memory);
    push_zeros(&mut out, 8);
    assert(out@ =~= spec_reqbufs_request(count, memory));
    out
}

/// The number of buffers the driver granted, from a `VIDIOC_REQBUFS` reply.
pub fn reqbufs_granted(reply: &[u8]) -> (r: u32)
    requires
        reply@.len() == REQUESTBUFFERS_LEN,
    ensures
        r == u32_at(reply@, 0),
{
    read_u32(reply, 0)
}

// ---- struct v4l2_buffer (64-bit) -------------------------------------------
// index +0, type +4, bytesused +8, flags +12, field +16, (pad) +20,
// timestamp +24, timecode +40, sequence +56, memory +60, m +64 (8 bytes),
// length +72, reserved2/request_fd +76 → 88.

/// A `v4l2_buffer` for `QUERYBUF`/`QBUF`/`DQBUF`: buffer `index` of a capture
/// queue of the given memory kind, with the union `m` and `length` set.
pub open spec fn spec_buffer_request(index: u32, memory: u32, m: u64, length: u32) -> Seq<u8> {
    le32(index) + le32(V4L2_BUF_TYPE_VIDEO_CAPTURE) + zeros(52) + le32(memory) + le64(m) + le32(
        length,
    ) + zeros(12)
}

/// Builds a `v4l2_buffer` request.
pub fn buffer_request(index: u32, memory: u32, m: u64, length: u32) -> (r: Vec<u8>)
    ensures
        r@ == spec_buffer_request(index, memory, m, length),
        r@.len() == BUFFER_LEN,
{
    proof {
        lemma_le_facts();
    }
    let mut out: Vec<u8> = Vec::new();
    push_u32(&mut out, index);
    push_u32(&mut out, V4L2_BUF_TYPE_VIDEO_CAPTURE);
    push_zeros(&mut out, 52);
    push_u32(&mut out, memory);
    push_u64(&mut out, m);
    push_u32(&mut out, length);
    push_zeros(&mut out, 12);
    assert(out@ =~= spec_buffer_request(index, memory, m, length));
    out
}

/// What a `v4l2_buffer` reply reports: which buffer, how full, how long.
#[derive(Debug, Clone, Copy, PartialEq, Eq, Structural)]
pub struct BufferReply {
    pub index: u32,
    pub bytesused: u32,
    pub length: u32,
}

/// The fields a `v4l2_buffer` reply holds.
pub open spec fn spec_buffer_reply(reply: Seq<u8>) -> BufferReply {
    BufferReply { index: u32_at(reply, 0), bytesused: u32_at(reply, 8), length: u32_at(reply, 72) }
}

/// Reads a `v4l2_buffer` reply.
pub fn buffer_reply(reply: &[u8]) -> (r: BufferReply)
    requires
        reply@.len() == BUFFER_LEN,
    ensures
        r == spec_buffer_reply(reply@),
{
    BufferReply {
        index: read_u32(reply, 0),
        bytesused: read_u32(reply, 8),
        length: read_u32(reply, 72),
    }
}

// ---- struct v4l2_exportbuffer ----------------------------------------------
// type +0, index +4, plane +8, flags +12, fd +16, reserved[11] +20 → 64.

/// The `VIDIOC_EXPBUF` request exporting capture buffer `index` with the
/// given open flags for the new descriptor.
pub open spec fn spec_expbuf_request(index: u32, flags: u32) -> Seq<u8> {
    le32(V4L2_BUF_TYPE_VIDEO_CAPTURE) + le32(index) + zeros(4) + le32(flags) + zeros(48)
}

/// Builds the `VIDIOC_EXPBUF` request.
pub fn expbuf_request(index: u32, flags: u32) -> (r: Vec<u8>)
    ensures
        r@ == spec_expbuf_request(index, flags),
        r@.len() == EXPORTBUFFER_LEN,
{
    proof {
        lemma_le_facts();
    }
    let mut out: Vec<u8> = Vec::new();
    push_u32(&mut out, V4L2_BUF_TYPE_VIDEO_CAPTURE);
    push_u32(&mut out, index);
    push_zeros(&mut out, 4);
    push_u32(&mut out, flags);
    push_zeros(&mut out, 48);
    assert(out@ =~= spec_expbuf_request(index, flags));
    out
}

/// The exported DMA-BUF descriptor, from a `VIDIOC_EXPBUF` reply.
pub fn expbuf_fd(reply: &[u8]) -> (r: i32)
    requires
        reply@.len() == EXPORTBUFFER_LEN,
    ensures
        r == u32_at(reply@, 16) as i32,
{
    read_u32(reply, 16) as i32
}

// ---- struct dma_heap_allocation_data ---------------------------------------
// len +0 (u64), fd +8, fd_flags +12, heap_flags +16 (u64) → 24.

/// The `DMA_HEAP_IOCTL_ALLOC` request for one buffer of `len` bytes whose
/// descriptor is opened with `fd_flags`.
pub open spec fn spec_dma_heap_request(len: u64, fd_flags: u32) -> Seq<u8> {
    le64(len) + zeros(4) + le32(fd_flags) + zeros(8)
}

/// Builds the `DMA_HEAP_IOCTL_ALLOC` request.
pub fn dma_heap_request(len: u64, fd_flags: u32) -> (r: Vec<u8>)
    ensures
        r@ == spec_dma_heap_request(len, fd_flags),
        r@.len() == DMA_HEAP_ALLOC_LEN,
{
    proof {
        lemma_le_facts();
    }
    let mut out: Vec<u8> = Vec::new();
    push_u64(&mut out, len);
    push_zeros(&mut out, 4);
    push_u32(&mut out, fd_flags);
    push_zeros(&mut out, 8);
    assert(out@ =~= spec_dma_heap_request(len, fd_flags));
    out
}

/// The allocated DMA-BUF descriptor, from a `DMA_HEAP_IOCTL_ALLOC` reply.
pub fn dma_heap_fd(reply: &[u8]) -> (r: i32)
    requires
        reply@.len() == DMA_HEAP_ALLOC_LEN,
    ensures
        r == u32_at(reply@, 8) as i32,
{
    read_u32(reply, 8) as i32
}

// ---- what the requests carry ------------------------------------------------

/// A format request carries, for a capture queue with any field order, the
/// requested geometry and pixel format where the reply is read from, and
/// zeros where the driver reports the line and image sizes: a driver that
/// accepts the request unchanged reports exactly what was asked for.
pub proof fn lemma_format_request_fields(width: u32, height: u32, pixel_format: u32)
    ensures
        spec_format_request(width, height, pixel_format).len() == FORMAT_LEN,
        u32_at(spec_format_request(width, height, pixel_format), 0) == V4L2_BUF_TYPE_VIDEO_CAPTURE,
        u32_at(spec_format_request(width, height, pixel_format), 20) == V4L2_FIELD_ANY,
        spec_negotiated(spec_format_request(width, height, pixel_format)).width == width,
        spec_negotiated(spec_format_request(width, height, pixel_format)).height == height,
        spec_negotiated(spec_format_request(width, height, pixel_format)).pixel_format
            == pixel_format,
        spec_format_request(width, height, pixel_format).subrange(24, 32) == zeros(8),
{
    lemma_le_facts();
    let s = spec_format_request(width, height, pixel_format);
    assert(s.subrange(0, 4) =~= le32(V4L2_BUF_TYPE_VIDEO_CAPTURE));
    assert(s.subrange(8, 12) =~= le32(width));
    assert(s.subrange(12, 16) =~= le32(height));
    assert(s.subrange(16, 20) =~= le32(pixel_format));
    assert(s.subrange(20, 24) =~= le32(V4L2_FIELD_ANY));
    assert(s.subrange(24, 32) =~= zeros(8));
    lemma_u32_at_encoded(s, 0, V4L2_BUF_TYPE_VIDEO_CAPTURE);
    lemma_u32_at_encoded(s, 8, width);
    lemma_u32_at_encoded(s, 12, height);
    lemma_u32_at_encoded(s, 16, pixel_format);
    lemma_u32_at_encoded(s, 20, V4L2_FIELD_ANY);
}

/// A buffer request names its buffer, queue, memory kind, `m` and length at
/// the offsets the kernel reads them from, and reads back as an empty buffer
/// of that index and length.
pub proof fn lemma_buffer_request_fields(index: u32, memory: u32, m: u64, length: u32)
    ensures
        spec_buffer_request(index, memory, m, length).len() == BUFFER_LEN,
        u32_at(spec_buffer_request(index, memory, m, length), 4) == V4L2_BUF_TYPE_VIDEO_CAPTURE,
        u32_at(spec_buffer_request(index, memory, m, length), 60) == memory,
        u64_at(spec_buffer_request(index, memory, m, length), 64) == m,
        spec_buffer_reply(spec_buffer_request(index, memory, m, length)).index == index,
        spec_buffer_reply(spec_buffer_request(index, memory, m, length)).length == length,
        spec_buffer_request(index, memory, m, length).subrange(8, 60) == zeros(52),
{
    lemma_le_facts();
    let s = spec_buffer_request(index, memory, m, length);
    assert(s.subrange(0, 4) =~= le32(index));
    assert(s.subrange(4, 8) =~= le32(V4L2_BUF_TYPE_VIDEO_CAPTURE));
    assert(s.subrange(8, 60) =~= zeros(52));
    assert(s.subrange(60, 64) =~= le32(memory));
    assert(s.subrange(64, 72) =~= le64(m));
    assert(s.subrange(72, 76) =~= le32(length));
    lemma_u32_at_encoded(s, 0, index);
    lemma_u32_at_encoded(s, 4, V4L2_BUF_TYPE_VIDEO_CAPTURE);
    lemma_u32_at_encoded(s, 60, memory);
    lemma_u64_at_encoded(s, 64, m);
    lemma_u32_at_encoded(s, 72, length);
}

/// A buffer-count request carries the count, the capture queue and the memory kind.
pub proof fn lemma_reqbufs_request_fields(count: u32, memory: u32)
    ensures
        spec_reqbufs_request(count, memory).len() == REQUESTBUFFERS_LEN,
        u32_at(spec_reqbufs_request(count, memory), 0) == count,
        u32_at(spec_reqbufs_request(count, memory), 4) == V4L2_BUF_TYPE_VIDEO_CAPTURE,
        u32_at(spec_reqbufs_request(count, memory), 8) == memory,
{
    lemma_le_facts();
    let s = spec_reqbufs_request(count, memory);
    assert(s.subrange(0, 4) =~= le32(count));
    assert(s.subrange(4, 8) =~= le32(V4L2_BUF_TYPE_VIDEO_CAPTURE));
    assert(s.subrange(8, 12) =~= le32(memory));
    lemma_u32_at_encoded(s, 0, count);
    lemma_u32_at_encoded(s, 4, V4L2_BUF_TYPE_VIDEO_CAPTURE);
    lemma_u32_at_encoded(s, 8, memory);
}

/// An export request carries the capture queue, the buffer index and the
/// descriptor flags, and no descriptor yet.
pub proof fn lemma_expbuf_request_fields(index: u32, flags: u32)
    ensures
        spec_expbuf_request(index, flags).len() == EXPORTBUFFER_LEN,
        u32_at(spec_expbuf_request(index, flags), 0) == V4L2_BUF_TYPE_VIDEO_CAPTURE,
        u32_at(spec_expbuf_request(index, flags), 4) == index,
        u32_at(spec_expbuf_request(index, flags), 12) == flags,
        spec_expbuf_request(index, flags).subrange(16, 64) == zeros(48),
{
    lemma_le_facts();
    let s = spec_expbuf_request(index, flags);
    assert(s.subrange(0, 4) =~= le32(V4L2_BUF_TYPE_VIDEO_CAPTURE));
    assert(s.subrange(4, 8) =~= le32(index));
    assert(s.subrange(12, 16) =~= le32(flags));
    assert(s.subrange(16, 64) =~= zeros(48));
    lemma_u32_at_encoded(s, 0, V4L2_BUF_TYPE_VIDEO_CAPTURE);
    lemma_u32_at_encoded(s, 4, index);
    lemma_u32_at_encoded(s, 12, flags);
}

/// A heap allocation request carries the length and the descriptor flags,
/// and zeros for the descriptor (filled by the kernel) and the heap flags.
pub proof fn lemma_dma_heap_request_fields(len: u64, fd_flags: u32)
    ensures
        spec_dma_heap_request(len, fd_flags).len() == DMA_HEAP_ALLOC_LEN,
        u64_at(spec_dma_heap_request(len, fd_flags), 0) == len,
        spec_dma_heap_request(len, fd_flags).subrange(8, 12) == zeros(4),
        u32_at(spec_dma_heap_request(len, fd_flags), 12) == fd_flags,
        spec_dma_heap_request(len, fd_flags).subrange(16, 24) == zeros(8),
{
    lemma_le_facts();
    let s = spec_dma_heap_request(len, fd_flags);
    assert(s.subrange(0, 8) =~= le64(len));
    assert(s.subrange(8, 12) =~= zeros(4));
    assert(s.subrange(12, 16) =~= le32(fd_flags));
    assert(s.subrange(16, 24) =~= zeros(8));
    lemma_u64_at_encoded(s, 0, len);
    lemma_u32_at_encoded(s, 12, fd_flags);
}

/// The negotiated format is read where the kernel writes `v4l2_pix_format`:
/// width at 8, height at 12, pixel format at 16, bytes per line at 24, image
/// size at 28; a buffer reply's index at 0, bytes used at 8 and length at 72.
pub proof fn lemma_replies_read_kernel_offsets(reply: Seq<u8>)
    ensures
        spec_negotiated(reply).width == u32_at(reply, 8),
        spec_negotiated(reply).height == u32_at(reply, 12),
        spec_negotiated(reply).pixel_format == u32_at(reply, 16),
        spec_negotiated(reply).stride == u32_at(reply, 24),
        spec_negotiated(reply).size_image == u32_at(reply, 28),
        spec_buffer_reply(reply).index == u32_at(reply, 0),
        spec_buffer_reply(reply).bytesused == u32_at(reply, 8),
        spec_buffer_reply(reply).length == u32_at(reply, 72),
{
}

} // verus!
