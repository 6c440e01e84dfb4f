use dmabuf_pipeline::capture::{CaptureError, V4l2BufInfo, V4l2Capture, V4l2CaptureDma};
use dmabuf_pipeline::kabi::{
    buffer_request, dma_heap_request, expbuf_request, stream_type_arg, NegotiatedFormat,
    V4L2_MEMORY_DMABUF, V4L2_MEMORY_MMAP, VIDIOC_EXPBUF, VIDIOC_QBUF, VIDIOC_QUERYBUF,
    VIDIOC_STREAMON,
};
use dmabuf_pipeline::startup::{dma_heap_advance, dma_heap_begin, DmaStartPhase, HeapStep, StartPhase};
use dmabuf_pipeline::wire::Handshake;

fn fmt(pixel_format: u32) -> NegotiatedFormat {
    NegotiatedFormat { width: 640, height: 480, pixel_format, stride: 1280, size_image: 614400 }
}

const FLAGS: u32 = 0x80002;

/// Plays the driver for an MMAP startup in which every request succeeds:
/// buffer `i` is `1000 + i` bytes long and exported as descriptor `40 + i`.
fn run_mmap(cap: &mut V4l2Capture, granted: u32, fail_at: Option<(u32, i32)>) -> StartPhase {
    let (mut phase, _) = cap.start_begin(granted);
    let mut step = 0u32;
    while let Some((req, mut arg)) = V4l2Capture::start_request(phase, FLAGS) {
        match phase {
            StartPhase::Query(i) => {
                assert_eq!(req, VIDIOC_QUERYBUF);
                assert_eq!(arg, buffer_request(i, V4L2_MEMORY_MMAP, 0, 0));
                arg[72..76].copy_from_slice(&(1000 + i).to_le_bytes());
            }
            StartPhase::Export(i, _) => {
                assert_eq!(req, VIDIOC_EXPBUF);
                assert_eq!(arg, expbuf_request(i, FLAGS));
                arg[16..20].copy_from_slice(&(40 + i).to_le_bytes());
            }
            StartPhase::Queue(i) => {
                assert_eq!(req, VIDIOC_QBUF);
                assert_eq!(arg, buffer_request(i, V4L2_MEMORY_MMAP, 0, 0));
            }
            StartPhase::StreamOn => {
                assert_eq!(req, VIDIOC_STREAMON);
                assert_eq!(arg, stream_type_arg());
            }
            _ => unreachable!(),
        }
        let ok = fail_at.map_or(true, |(s, _)| s != step);
        let errno = fail_at.map_or(0, |(_, e)| e);
        phase = cap.start_advance(phase, granted, ok, errno, &arg);
        step += 1;
    }
    phase
}

#[test]
fn mmap_start_exports_every_buffer_once() {
    let mut cap = V4l2Capture::new(5, fmt(0x5659_5559));
    let phase = run_mmap(&mut cap, 3, None);
    assert_eq!(phase, StartPhase::Started);
    assert!(cap.streaming);
    assert_eq!(
        cap.buffers,
        vec![
            V4l2BufInfo { dmabuf_fd: 40, index: 0, length: 1000, bytesused: 0 },
            V4l2BufInfo { dmabuf_fd: 41, index: 1, length: 1001, bytesused: 0 },
            V4l2BufInfo { dmabuf_fd: 42, index: 2, length: 1002, bytesused: 0 },
        ]
    );
    assert_eq!((cap.fd, cap.width, cap.size_image), (5, 640, 614400));
}

#[test]
fn mmap_start_needs_two_buffers() {
    let mut cap = V4l2Capture::new(5, fmt(0x5659_5559));
    cap.add_buffer(9, 1);
    let (phase, previous) = cap.start_begin(1);
    assert_eq!(phase, StartPhase::Failed(CaptureError::TooFewBuffers(1)));
    assert!(previous.is_empty());
    assert_eq!(cap.buffers.len(), 1);
    assert_eq!(V4l2Capture::start_request(phase, FLAGS), None);

    let (phase, previous) = cap.start_begin(2);
    assert_eq!(phase, StartPhase::Query(0));
    assert_eq!(previous, vec![9]);
    assert!(cap.buffers.is_empty());
}

#[test]
fn mmap_start_failure_keeps_what_was_recorded() {
    let mut cap = V4l2Capture::new(5, fmt(0x5659_5559));
    // steps: query 0, export 0, queue 0, query 1, export 1 (fails)
    let phase = run_mmap(&mut cap, 4, Some((4, 24)));
    assert_eq!(phase, StartPhase::Failed(CaptureError::Os(24)));
    assert_eq!(cap.buffers, vec![V4l2BufInfo { dmabuf_fd: 40, index: 0, length: 1000, bytesused: 0 }]);
    assert!(!cap.streaming);

    let mut cap = V4l2Capture::new(5, fmt(0x5659_5559));
    // 2 buffers: 6 steps, then stream-on (step 6) fails
    let phase = run_mmap(&mut cap, 2, Some((6, 19)));
    assert_eq!(phase, StartPhase::Failed(CaptureError::Os(19)));
    assert_eq!(cap.buffers.len(), 2);
    assert!(!cap.streaming);
}

#[test]
fn announced_frames_use_the_drm_format() {
    let mut cap = V4l2Capture::new(5, fmt(0x3231_564E));
    run_mmap(&mut cap, 2, None);
    let (hs, fds) = cap.announce_frames().unwrap();
    assert_eq!(hs, Handshake { buf_count: 2, width: 640, height: 480, format: 0x3231_564E, stride: 1280, size: 614400 });
    assert_eq!(fds, vec![40, 41]);

    let mut odd = V4l2Capture::new(5, fmt(u32::from_le_bytes(*b"MJPG")));
    run_mmap(&mut odd, 2, None);
    assert!(odd.announce_frames().is_none());
}

fn run_dma(cap: &mut V4l2CaptureDma, granted: u32, fds: &Vec<i32>, fail_at: Option<usize>) -> (DmaStartPhase, Vec<i32>) {
    let (mut phase, mut closed) = cap.start_begin(granted, fds);
    let mut step = 0usize;
    while let Some((req, arg)) = cap.start_request(phase, fds) {
        match phase {
            DmaStartPhase::Queue(i) => {
                assert_eq!(req, VIDIOC_QBUF);
                assert_eq!(arg, buffer_request(i, V4L2_MEMORY_DMABUF, fds[i as usize] as u32 as u64, 614400));
            }
            DmaStartPhase::StreamOn => assert_eq!(req, VIDIOC_STREAMON),
            _ => unreachable!(),
        }
        let ok = fail_at != Some(step);
        let (next, to_close) = cap.start_advance(phase, fds, ok, 22);
        closed.extend(to_close);
        phase = next;
        step += 1;
    }
    (phase, closed)
}

#[test]
fn dma_start_queues_every_descriptor() {
    let mut cap = V4l2CaptureDma::new(6, fmt(0x5659_5559));
    let fds = vec![20, 21, 22];
    let (phase, closed) = run_dma(&mut cap, 3, &fds, None);
    assert_eq!(phase, DmaStartPhase::Started);
    assert!(closed.is_empty());
    assert!(cap.streaming);
    assert_eq!(
        cap.buffers,
        vec![
            V4l2BufInfo { dmabuf_fd: 20, index: 0, length: 614400, bytesused: 0 },
            V4l2BufInfo { dmabuf_fd: 21, index: 1, length: 614400, bytesused: 0 },
            V4l2BufInfo { dmabuf_fd: 22, index: 2, length: 614400, bytesused: 0 },
        ]
    );
}

#[test]
fn dma_start_failures_hand_back_unrecorded_descriptors() {
    let mut cap = V4l2CaptureDma::new(6, fmt(0x5659_5559));
    let fds = vec![20, 21, 22];
    let (phase, closed) = run_dma(&mut cap, 1, &fds, None);
    assert_eq!(phase, DmaStartPhase::Failed(CaptureError::TooFewBuffers(1)));
    assert_eq!(closed, fds);
    assert!(cap.buffers.is_empty());

    let mut cap = V4l2CaptureDma::new(6, fmt(0x5659_5559));
    let (phase, closed) = run_dma(&mut cap, 3, &fds, Some(1));
    assert_eq!(phase, DmaStartPhase::Failed(CaptureError::Os(22)));
    assert_eq!(closed, vec![21, 22]);
    assert_eq!(cap.buffers.len(), 1);
    assert_eq!(cap.buffers[0].dmabuf_fd, 20);
}

fn heap_reply(fd: u32) -> Vec<u8> {
    let mut d = dma_heap_request(4096, FLAGS);
    d[8..12].copy_from_slice(&fd.to_le_bytes());
    d
}

#[test]
fn heap_allocates_count_buffers() {
    assert_eq!(dma_heap_begin(0), HeapStep::Done(vec![]));
    assert_eq!(dma_heap_begin(2), HeapStep::Allocate(vec![]));
    let s = dma_heap_advance(vec![], 2, true, &heap_reply(5));
    assert_eq!(s, HeapStep::Allocate(vec![5]));
    let s = dma_heap_advance(vec![5], 2, true, &heap_reply(6));
    assert_eq!(s, HeapStep::Done(vec![5, 6]));
}

#[test]
fn heap_failure_returns_everything_allocated() {
    let s = dma_heap_advance(vec![5, 6], 3, false, &[]);
    assert_eq!(s, HeapStep::Failed(vec![5, 6]));
    let s = dma_heap_advance(vec![], 3, false, &[]);
    assert_eq!(s, HeapStep::Failed(vec![]));
}
