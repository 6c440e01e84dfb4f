use dmabuf_pipeline::fourcc::{
    v4l2_to_drm_fourcc, DRM_FORMAT_ARGB8888, DRM_FORMAT_BGR888, DRM_FORMAT_NV12, DRM_FORMAT_NV21,
    DRM_FORMAT_RGB888, DRM_FORMAT_UYVY, DRM_FORMAT_XRGB8888, DRM_FORMAT_YUYV, V4L2_PIX_FMT_ABGR32,
    V4L2_PIX_FMT_BGR24, V4L2_PIX_FMT_NV12, V4L2_PIX_FMT_NV21, V4L2_PIX_FMT_RGB24,
    V4L2_PIX_FMT_UYVY, V4L2_PIX_FMT_XBGR32, V4L2_PIX_FMT_YUYV,
};
use dmabuf_pipeline::wire::{
    accept_handshake, ack_message, ack_outcome, check_sent, collect_passed_fds, encode_idx,
    ControlMessage, FrameMeta, Handshake, RecvIdx, SocketError, ACK_BYTE, HANDSHAKE_LEN, IDX_LEN,
};

fn fourcc(s: &[u8; 4]) -> u32 {
    u32::from_le_bytes(*s)
}

#[test]
fn fourcc_codes_spell_their_names() {
    assert_eq!(V4L2_PIX_FMT_YUYV, fourcc(b"YUYV"));
    assert_eq!(V4L2_PIX_FMT_UYVY, fourcc(b"UYVY"));
    assert_eq!(V4L2_PIX_FMT_NV12, fourcc(b"NV12"));
    assert_eq!(V4L2_PIX_FMT_NV21, fourcc(b"NV21"));
    assert_eq!(V4L2_PIX_FMT_RGB24, fourcc(b"RGB3"));
    assert_eq!(V4L2_PIX_FMT_BGR24, fourcc(b"BGR3"));
    assert_eq!(V4L2_PIX_FMT_ABGR32, fourcc(b"AR24"));
    assert_eq!(V4L2_PIX_FMT_XBGR32, fourcc(b"XR24"));
    assert_eq!(DRM_FORMAT_RGB888, fourcc(b"RG24"));
    assert_eq!(DRM_FORMAT_BGR888, fourcc(b"BG24"));
    assert_eq!(DRM_FORMAT_ARGB8888, fourcc(b"AR24"));
    assert_eq!(DRM_FORMAT_XRGB8888, fourcc(b"XR24"));
}

#[test]
fn v4l2_formats_map_to_drm() {
    assert_eq!(v4l2_to_drm_fourcc(V4L2_PIX_FMT_YUYV), Some(DRM_FORMAT_YUYV));
    assert_eq!(v4l2_to_drm_fourcc(V4L2_PIX_FMT_UYVY), Some(DRM_FORMAT_UYVY));
    assert_eq!(v4l2_to_drm_fourcc(V4L2_PIX_FMT_NV12), Some(DRM_FORMAT_NV12));
    assert_eq!(v4l2_to_drm_fourcc(V4L2_PIX_FMT_NV21), Some(DRM_FORMAT_NV21));
    assert_eq!(v4l2_to_drm_fourcc(V4L2_PIX_FMT_RGB24), Some(DRM_FORMAT_RGB888));
    assert_eq!(v4l2_to_drm_fourcc(V4L2_PIX_FMT_BGR24), Some(DRM_FORMAT_BGR888));
    assert_eq!(v4l2_to_drm_fourcc(V4L2_PIX_FMT_ABGR32), Some(DRM_FORMAT_ARGB8888));
    assert_eq!(v4l2_to_drm_fourcc(V4L2_PIX_FMT_XBGR32), Some(DRM_FORMAT_XRGB8888));
}

#[test]
fn unknown_v4l2_format_has_no_drm_format() {
    assert_eq!(v4l2_to_drm_fourcc(0), None);
    assert_eq!(v4l2_to_drm_fourcc(fourcc(b"MJPG")), None);
    // The DRM code of RGB888 is not itself a V4L2 code the pipeline handles.
    assert_eq!(v4l2_to_drm_fourcc(DRM_FORMAT_RGB888), None);
}

#[test]
fn drm_mapping_is_injective_on_supported_formats() {
    let all = [
        V4L2_PIX_FMT_YUYV, V4L2_PIX_FMT_UYVY, V4L2_PIX_FMT_NV12, V4L2_PIX_FMT_NV21,
        V4L2_PIX_FMT_RGB24, V4L2_PIX_FMT_BGR24, V4L2_PIX_FMT_ABGR32, V4L2_PIX_FMT_XBGR32,
    ];
    for (i, a) in all.iter().enumerate() {
        for (j, b) in all.iter().enumerate() {
            if i != j {
                assert_ne!(v4l2_to_drm_fourcc(*a), v4l2_to_drm_fourcc(*b));
            }
        }
    }
}

fn sample_handshake() -> Handshake {
    Handshake { buf_count: 4, width: 640, height: 480, format: DRM_FORMAT_YUYV, stride: 1280, size: 614400 }
}

#[test]
fn handshake_encodes_fields_little_endian_in_order() {
    let hs = sample_handshake();
    let b = hs.to_bytes();
    assert_eq!(b.len(), HANDSHAKE_LEN);
    assert_eq!(&b[0..4], &4u32.to_le_bytes());
    assert_eq!(&b[4..8], &640u32.to_le_bytes());
    assert_eq!(&b[8..12], &480u32.to_le_bytes());
    assert_eq!(&b[12..16], b"YUYV");
    assert_eq!(&b[16..20], &1280u32.to_le_bytes());
    assert_eq!(&b[20..24], &614400u32.to_le_bytes());
}

#[test]
fn handshake_roundtrips() {
    let hs = sample_handshake();
    assert_eq!(Handshake::from_bytes(&hs.to_bytes()), hs);
    let raw: Vec<u8> = (0u8..24).collect();
    assert_eq!(Handshake::from_bytes(&raw).to_bytes(), raw);
}

#[test]
fn sent_handshake_is_accepted() {
    let hs = sample_handshake();
    assert_eq!(accept_handshake(HANDSHAKE_LEN, &hs.to_bytes(), 4), Ok(hs));
}

#[test]
fn short_handshake_is_refused() {
    let hs = sample_handshake();
    assert_eq!(accept_handshake(20, &hs.to_bytes(), 4), Err(SocketError::ShortRecvHandshake));
    assert_eq!(accept_handshake(0, &hs.to_bytes(), 0), Err(SocketError::ShortRecvHandshake));
}

#[test]
fn handshake_with_wrong_fd_count_is_refused() {
    let hs = sample_handshake();
    assert_eq!(
        accept_handshake(HANDSHAKE_LEN, &hs.to_bytes(), 3),
        Err(SocketError::FdCountMismatch { expected: 4, got: 3 })
    );
}

#[test]
fn frame_meta_follows_handshake() {
    let hs = sample_handshake();
    let m = FrameMeta::from_handshake(&hs);
    assert_eq!(m, FrameMeta { width: 640, height: 480, format: DRM_FORMAT_YUYV, stride: 1280, size: 614400 });
}

#[test]
fn passed_fds_are_gathered_in_order() {
    let msgs = vec![
        ControlMessage::Rights(vec![7, 8]),
        ControlMessage::Other,
        ControlMessage::Rights(vec![]),
        ControlMessage::Rights(vec![9]),
    ];
    assert_eq!(collect_passed_fds(Some(&msgs)), vec![7, 8, 9]);
    assert_eq!(collect_passed_fds(None), Vec::<i32>::new());
    assert_eq!(collect_passed_fds(Some(&vec![ControlMessage::Other])), Vec::<i32>::new());
}

#[test]
fn sends_are_checked_for_length() {
    assert_eq!(check_sent(24, HANDSHAKE_LEN, SocketError::ShortSendHandshake), Ok(()));
    assert_eq!(check_sent(12, HANDSHAKE_LEN, SocketError::ShortSendHandshake), Err(SocketError::ShortSendHandshake));
    assert_eq!(check_sent(3, IDX_LEN, SocketError::ShortSendIdx), Err(SocketError::ShortSendIdx));
}

#[test]
fn index_roundtrips() {
    let b = encode_idx(0x0102_0304);
    assert_eq!(b, vec![4, 3, 2, 1]);
    assert_eq!(RecvIdx::from_recv(4, &b, 0), RecvIdx::Idx(0x0102_0304));
    assert_eq!(RecvIdx::from_recv(4, &encode_idx(3), 0), RecvIdx::Idx(3));
}

#[test]
fn index_receive_outcomes() {
    let b = [0u8; 4];
    assert_eq!(RecvIdx::from_recv(0, &b, 0), RecvIdx::PeerClosed);
    assert_eq!(RecvIdx::from_recv(-1, &b, 104), RecvIdx::Error(SocketError::Os(104)));
    assert_eq!(RecvIdx::from_recv(2, &b, 0), RecvIdx::Error(SocketError::ShortRecvIdx));
}

#[test]
fn ack_is_one_byte() {
    assert_eq!(ack_message(), vec![ACK_BYTE]);
    assert_eq!(ACK_BYTE, 1);
}

#[test]
fn ack_outcomes() {
    assert_eq!(ack_outcome(1, 0), Ok(()));
    assert_eq!(ack_outcome(0, 0), Err(SocketError::PeerDisconnected));
    assert_eq!(ack_outcome(-1, 32), Err(SocketError::Os(32)));
}

#[test]
fn default_socket_path() {
    assert_eq!(dmabuf_pipeline::wire::DEFAULT_SOCKET_PATH, "/tmp/dma_buf_socket");
}
