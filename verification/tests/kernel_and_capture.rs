use dmabuf_pipeline::capture::{
    check_capabilities, check_granted, ioctl_should_retry, wait_outcome, CaptureError,
    V4l2BufInfo, V4l2Capture, V4l2CaptureDma,
};
use dmabuf_pipeline::wire::{accept_handshake, Handshake, HANDSHAKE_LEN};
use dmabuf_pipeline::kabi::{
    buffer_reply, buffer_request, capability_flags, capability_request, dma_heap_fd,
    dma_heap_request, expbuf_fd, expbuf_request, format_request, negotiated_format,
    reqbufs_granted, reqbufs_request, BufferReply, NegotiatedFormat, BUFFER_LEN, CAPABILITY_LEN,
    DMA_HEAP_ALLOC_LEN, DMA_HEAP_IOC_ALLOC, EXPORTBUFFER_LEN, FORMAT_LEN, INT_LEN,
    REQUESTBUFFERS_LEN, V4L2_CAP_STREAMING, V4L2_CAP_VIDEO_CAPTURE, V4L2_MEMORY_DMABUF,
    V4L2_MEMORY_MMAP, VIDIOC_DQBUF, VIDIOC_EXPBUF, VIDIOC_QBUF, VIDIOC_QUERYBUF, VIDIOC_QUERYCAP,
    VIDIOC_REQBUFS, VIDIOC_STREAMOFF, VIDIOC_STREAMON, VIDIOC_S_FMT,
};

fn u32_at(b: &[u8], off: usize) -> u32 {
    u32::from_le_bytes([b[off], b[off + 1], b[off + 2], b[off + 3]])
}

fn ioc(dir: u64, ty: u8, nr: u64, size: usize) -> u64 {
    (dir << 30) | ((size as u64) << 16) | ((ty as u64) << 8) | nr
}

#[test]
fn request_numbers_encode_struct_sizes() {
    assert_eq!(VIDIOC_QUERYCAP, ioc(2, b'V', 0, CAPABILITY_LEN));
    assert_eq!(VIDIOC_S_FMT, ioc(3, b'V', 5, FORMAT_LEN));
    assert_eq!(VIDIOC_REQBUFS, ioc(3, b'V', 8, REQUESTBUFFERS_LEN));
    assert_eq!(VIDIOC_QUERYBUF, ioc(3, b'V', 9, BUFFER_LEN));
    assert_eq!(VIDIOC_QBUF, ioc(3, b'V', 15, BUFFER_LEN));
    assert_eq!(VIDIOC_EXPBUF, ioc(3, b'V', 16, EXPORTBUFFER_LEN));
    assert_eq!(VIDIOC_DQBUF, ioc(3, b'V', 17, BUFFER_LEN));
    assert_eq!(VIDIOC_STREAMON, ioc(1, b'V', 18, INT_LEN));
    assert_eq!(VIDIOC_STREAMOFF, ioc(1, b'V', 19, INT_LEN));
    assert_eq!(DMA_HEAP_IOC_ALLOC, 0xC018_4800);
    assert_eq!(DMA_HEAP_IOC_ALLOC, ioc(3, b'H', 0, DMA_HEAP_ALLOC_LEN));
}

#[test]
fn capability_reply_is_read_at_its_offset() {
    let mut cap = capability_request();
    assert_eq!(cap, vec![0u8; CAPABILITY_LEN]);
    let flags = V4L2_CAP_VIDEO_CAPTURE | V4L2_CAP_STREAMING;
    cap[84..88].copy_from_slice(&flags.to_le_bytes());
    assert_eq!(capability_flags(&cap), flags);
}

#[test]
fn format_request_layout() {
    let f = format_request(640, 480, 0x5659_5559);
    assert_eq!(f.len(), FORMAT_LEN);
    assert_eq!(u32_at(&f, 0), 1);
    assert_eq!(u32_at(&f, 8), 640);
    assert_eq!(u32_at(&f, 12), 480);
    assert_eq!(u32_at(&f, 16), 0x5659_5559);
    assert_eq!(u32_at(&f, 20), 0);
    assert!(f[24..].iter().all(|b| *b == 0));
    assert!(f[4..8].iter().all(|b| *b == 0));
}

#[test]
fn negotiated_format_is_read_back() {
    let mut f = format_request(640, 480, 0x5659_5559);
    f[24..28].copy_from_slice(&1280u32.to_le_bytes());
    f[28..32].copy_from_slice(&614400u32.to_le_bytes());
    assert_eq!(
        negotiated_format(&f),
        NegotiatedFormat { width: 640, height: 480, pixel_format: 0x5659_5559, stride: 1280, size_image: 614400 }
    );
}

#[test]
fn reqbufs_layout() {
    let r = reqbufs_request(4, V4L2_MEMORY_MMAP);
    assert_eq!(r.len(), REQUESTBUFFERS_LEN);
    assert_eq!(u32_at(&r, 0), 4);
    assert_eq!(u32_at(&r, 4), 1);
    assert_eq!(u32_at(&r, 8), V4L2_MEMORY_MMAP);
    assert_eq!(reqbufs_granted(&r), 4);
    assert!(r[12..].iter().all(|b| *b == 0));
}

#[test]
fn buffer_layout() {
    let b = buffer_request(3, V4L2_MEMORY_DMABUF, 0x0000_0000_0000_0011, 614400);
    assert_eq!(b.len(), BUFFER_LEN);
    assert_eq!(u32_at(&b, 0), 3);
    assert_eq!(u32_at(&b, 4), 1);
    assert_eq!(u32_at(&b, 60), V4L2_MEMORY_DMABUF);
    assert_eq!(u64::from_le_bytes(b[64..72].try_into().unwrap()), 0x11);
    assert_eq!(u32_at(&b, 72), 614400);
    assert!(b[8..60].iter().all(|x| *x == 0));
    assert!(b[76..].iter().all(|x| *x == 0));
    let mut reply = b.clone();
    reply[8..12].copy_from_slice(&1000u32.to_le_bytes());
    assert_eq!(buffer_reply(&reply), BufferReply { index: 3, bytesused: 1000, length: 614400 });
}

#[test]
fn expbuf_layout() {
    let mut e = expbuf_request(2, 0x80002);
    assert_eq!(e.len(), EXPORTBUFFER_LEN);
    assert_eq!(u32_at(&e, 0), 1);
    assert_eq!(u32_at(&e, 4), 2);
    assert_eq!(u32_at(&e, 8), 0);
    assert_eq!(u32_at(&e, 12), 0x80002);
    e[16..20].copy_from_slice(&17i32.to_le_bytes());
    assert_eq!(expbuf_fd(&e), 17);
}

#[test]
fn dma_heap_layout() {
    let mut d = dma_heap_request(614400, 0x80002);
    assert_eq!(d.len(), DMA_HEAP_ALLOC_LEN);
    assert_eq!(u64::from_le_bytes(d[0..8].try_into().unwrap()), 614400);
    assert_eq!(u32_at(&d, 8), 0);
    assert_eq!(u32_at(&d, 12), 0x80002);
    assert!(d[16..].iter().all(|x| *x == 0));
    d[8..12].copy_from_slice(&9u32.to_le_bytes());
    assert_eq!(dma_heap_fd(&d), 9);
}

#[test]
fn capabilities_must_include_capture_and_streaming() {
    assert_eq!(check_capabilities(V4L2_CAP_VIDEO_CAPTURE | V4L2_CAP_STREAMING), Ok(()));
    assert_eq!(check_capabilities(V4L2_CAP_VIDEO_CAPTURE), Err(CaptureError::Unsupported));
    assert_eq!(check_capabilities(V4L2_CAP_STREAMING), Err(CaptureError::Unsupported));
    assert_eq!(check_capabilities(0), Err(CaptureError::Unsupported));
}

#[test]
fn at_least_two_buffers_are_needed() {
    assert_eq!(check_granted(4), Ok(()));
    assert_eq!(check_granted(2), Ok(()));
    assert_eq!(check_granted(1), Err(CaptureError::TooFewBuffers(1)));
    assert_eq!(check_granted(0), Err(CaptureError::TooFewBuffers(0)));
}

#[test]
fn wait_outcomes() {
    assert_eq!(wait_outcome(1, 0), Ok(()));
    assert_eq!(wait_outcome(0, 0), Err(CaptureError::Timeout));
    assert_eq!(wait_outcome(-1, 4), Err(CaptureError::Os(4)));
}

#[test]
fn only_interrupted_ioctls_are_retried() {
    assert!(ioctl_should_retry(-1, 4, 4));
    assert!(!ioctl_should_retry(-1, 22, 4));
    assert!(!ioctl_should_retry(0, 4, 4));
}

fn fmt() -> NegotiatedFormat {
    NegotiatedFormat { width: 640, height: 480, pixel_format: 0x5659_5559, stride: 1280, size_image: 614400 }
}

#[test]
fn mmap_capture_bookkeeping() {
    let mut cap = V4l2Capture::new(5, fmt());
    assert_eq!((cap.fd, cap.width, cap.height, cap.stride, cap.size_image), (5, 640, 480, 1280, 614400));
    assert!(!cap.streaming);
    assert!(cap.begin_buffers().is_empty());
    cap.add_buffer(10, 614400);
    cap.add_buffer(11, 614400);
    cap.mark_streaming();
    assert!(cap.streaming);
    assert_eq!(cap.buffers[1], V4l2BufInfo { dmabuf_fd: 11, index: 1, length: 614400, bytesused: 0 });
    let idx = cap.record_dequeue(BufferReply { index: 1, bytesused: 1234, length: 614400 });
    assert_eq!(idx, 1);
    assert_eq!(cap.buffers[1].bytesused, 1234);
    assert_eq!(cap.buffers[0].bytesused, 0);
    let mut other = V4l2Capture::new(8, fmt());
    other.add_buffer(30, 1);
    other.add_buffer(31, 1);
    assert_eq!(other.begin_buffers(), vec![30, 31]);
    assert!(other.buffers.is_empty());
    assert_eq!(V4l2Capture::buffer_request(1), buffer_request(1, V4L2_MEMORY_MMAP, 0, 0));
    assert_eq!(V4l2Capture::reqbufs_request(4), reqbufs_request(4, V4L2_MEMORY_MMAP));

    let (hs, fds) = cap.announce(0x5659_5559);
    assert_eq!(
        hs,
        Handshake { buf_count: 2, width: 640, height: 480, format: 0x5659_5559, stride: 1280, size: 614400 }
    );
    assert_eq!(fds, vec![10, 11]);
    assert_eq!(accept_handshake(HANDSHAKE_LEN, &hs.to_bytes(), fds.len()), Ok(hs));

    let plan = cap.teardown();
    assert!(plan.stream_off);
    assert_eq!(plan.close_fds, vec![10, 11]);
    assert_eq!(plan.release_request, Some(reqbufs_request(0, V4L2_MEMORY_MMAP)));
    assert_eq!(plan.close_device, Some(5));
    assert_eq!(cap.fd, -1);
    assert!(!cap.streaming);
    assert!(cap.buffers.is_empty());

    let again = cap.teardown();
    assert!(!again.stream_off);
    assert!(again.close_fds.is_empty());
    assert_eq!(again.release_request, None);
    assert_eq!(again.close_device, None);
}

#[test]
fn dma_capture_requeues_the_same_descriptor() {
    let mut cap = V4l2CaptureDma::new(6, fmt());
    assert!(cap.begin_buffers().is_empty());
    let q0 = cap.queue_request(0, 20);
    cap.add_buffer(20);
    let q1 = cap.queue_request(1, 21);
    cap.add_buffer(21);
    assert_eq!(cap.buffers[0], V4l2BufInfo { dmabuf_fd: 20, index: 0, length: 614400, bytesused: 0 });
    assert_eq!(cap.requeue_request(0), q0);
    assert_eq!(cap.requeue_request(1), q1);
    assert_eq!(q1, buffer_request(1, V4L2_MEMORY_DMABUF, 21, 614400));
    assert_eq!(V4l2CaptureDma::dequeue_request(), buffer_request(0, V4L2_MEMORY_DMABUF, 0, 0));
    let (hs, fds) = cap.announce(0x3231_564E);
    assert_eq!(hs.buf_count, 2);
    assert_eq!(fds, vec![20, 21]);
    let plan = cap.teardown();
    assert!(!plan.stream_off);
    assert_eq!(plan.close_fds, vec![20, 21]);
    assert_eq!(plan.release_request, Some(reqbufs_request(0, V4L2_MEMORY_DMABUF)));
}
