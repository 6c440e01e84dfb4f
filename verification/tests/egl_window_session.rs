use dmabuf_pipeline::egl::{
    GlObjects,
    config_attribs, contains_str, context_attribs, display_extensions, dmabuf_import_attribs,
    fragment_shader, samples_external, texture_target, use_platform_display, QuadRenderer,
    RendererState, EGL_DMA_BUF_PLANE0_FD_EXT, EGL_DMA_BUF_PLANE0_MODIFIER_HI_EXT,
    EGL_DMA_BUF_PLANE0_MODIFIER_LO_EXT, EGL_DMA_BUF_PLANE0_OFFSET_EXT,
    EGL_DMA_BUF_PLANE0_PITCH_EXT, EGL_DMA_BUF_PLANE1_FD_EXT, EGL_DMA_BUF_PLANE1_MODIFIER_HI_EXT,
    EGL_DMA_BUF_PLANE1_MODIFIER_LO_EXT, EGL_DMA_BUF_PLANE1_OFFSET_EXT,
    EGL_DMA_BUF_PLANE1_PITCH_EXT, EGL_HEIGHT, EGL_LINUX_DRM_FOURCC_EXT, EGL_NONE, EGL_WIDTH,
    FRAGMENT_SHADER_RGB, FRAGMENT_SHADER_YUV, GL_TEXTURE_2D, GL_TEXTURE_EXTERNAL_OES,
};
use dmabuf_pipeline::fourcc::{DRM_FORMAT_NV12, DRM_FORMAT_RGB888, DRM_FORMAT_UYVY, DRM_FORMAT_YUYV};
use dmabuf_pipeline::session::{
    PublisherAction, PublisherLoop, PublisherOutcome, PublisherPhase, SubscriberAction,
    SubscriberLoop, SubscriberOutcome, SubscriberPhase,
};
use dmabuf_pipeline::window::{WindowAction, WindowEvent, WindowState};
use dmabuf_pipeline::wire::FrameMeta;

#[test]
fn substring_search() {
    assert!(contains_str("abc", ""));
    assert!(contains_str("abc", "abc"));
    assert!(contains_str("xxabcxx", "bcx"));
    assert!(!contains_str("ab", "abc"));
    assert!(!contains_str("", "a"));
    assert!(contains_str("EGL_EXT_image_dma_buf_import_modifiers", "EGL_EXT_image_dma_buf_import"));
}

#[test]
fn display_extension_detection() {
    let both = display_extensions("EGL_KHR_image_base EGL_EXT_image_dma_buf_import EGL_EXT_image_dma_buf_import_modifiers");
    assert!(both.dma_buf_import && both.modifiers);
    let plain = display_extensions("EGL_KHR_image_base EGL_EXT_image_dma_buf_import");
    assert!(plain.dma_buf_import && !plain.modifiers);
    // The import extension is found inside the modifiers extension's name, as a substring search does.
    let mods_only = display_extensions("EGL_EXT_image_dma_buf_import_modifiers");
    assert!(mods_only.dma_buf_import && mods_only.modifiers);
    let none = display_extensions("EGL_KHR_image_base");
    assert!(!none.dma_buf_import && !none.modifiers);
}

#[test]
fn platform_display_choice() {
    assert!(use_platform_display(Some("EGL_EXT_platform_base EGL_EXT_platform_wayland")));
    assert!(use_platform_display(Some("EGL_KHR_platform_wayland")));
    assert!(!use_platform_display(Some("EGL_EXT_platform_x11")));
    assert!(!use_platform_display(None));
}

#[test]
fn config_and_context_attribs() {
    assert_eq!(
        config_attribs(),
        vec![0x3033, 0x0004, 0x3040, 0x0004, 0x3024, 8, 0x3023, 8, 0x3022, 8, 0x3021, 8, 0x3038]
    );
    assert_eq!(context_attribs(), vec![0x3098, 2, 0x3038]);
}

fn meta(format: u32) -> FrameMeta {
    FrameMeta { width: 640, height: 480, format, stride: 1280, size: 614400 }
}

#[test]
fn import_attribs_single_plane() {
    let a = dmabuf_import_attribs(7, &meta(DRM_FORMAT_YUYV), false);
    assert_eq!(
        a,
        vec![
            EGL_WIDTH, 640, EGL_HEIGHT, 480, EGL_LINUX_DRM_FOURCC_EXT, DRM_FORMAT_YUYV as i32,
            EGL_DMA_BUF_PLANE0_FD_EXT, 7, EGL_DMA_BUF_PLANE0_OFFSET_EXT, 0,
            EGL_DMA_BUF_PLANE0_PITCH_EXT, 1280, EGL_NONE,
        ]
    );
    let m = dmabuf_import_attribs(7, &meta(DRM_FORMAT_YUYV), true);
    assert_eq!(m.len(), 17);
    assert_eq!(&m[12..16], &[EGL_DMA_BUF_PLANE0_MODIFIER_LO_EXT, 0, EGL_DMA_BUF_PLANE0_MODIFIER_HI_EXT, 0]);
    assert_eq!(m[16], EGL_NONE);
}

#[test]
fn import_attribs_semi_planar() {
    let a = dmabuf_import_attribs(7, &meta(DRM_FORMAT_NV12), true);
    assert_eq!(
        a,
        vec![
            EGL_WIDTH, 640, EGL_HEIGHT, 480, EGL_LINUX_DRM_FOURCC_EXT, DRM_FORMAT_NV12 as i32,
            EGL_DMA_BUF_PLANE0_FD_EXT, 7, EGL_DMA_BUF_PLANE0_OFFSET_EXT, 0,
            EGL_DMA_BUF_PLANE0_PITCH_EXT, 1280,
            EGL_DMA_BUF_PLANE0_MODIFIER_LO_EXT, 0, EGL_DMA_BUF_PLANE0_MODIFIER_HI_EXT, 0,
            EGL_DMA_BUF_PLANE1_FD_EXT, 7, EGL_DMA_BUF_PLANE1_OFFSET_EXT, 1280 * 480,
            EGL_DMA_BUF_PLANE1_PITCH_EXT, 1280,
            EGL_DMA_BUF_PLANE1_MODIFIER_LO_EXT, 0, EGL_DMA_BUF_PLANE1_MODIFIER_HI_EXT, 0,
            EGL_NONE,
        ]
    );
    let b = dmabuf_import_attribs(3, &meta(dmabuf_pipeline::fourcc::DRM_FORMAT_NV21), false);
    assert_eq!(b.len(), 19);
    assert_eq!(&b[12..18], &[EGL_DMA_BUF_PLANE1_FD_EXT, 3, EGL_DMA_BUF_PLANE1_OFFSET_EXT, 614400, EGL_DMA_BUF_PLANE1_PITCH_EXT, 1280]);
}

#[test]
fn renderer_sampler_choice() {
    assert!(samples_external(DRM_FORMAT_YUYV));
    assert!(samples_external(DRM_FORMAT_NV12));
    assert!(!samples_external(DRM_FORMAT_UYVY));
    assert!(!samples_external(DRM_FORMAT_RGB888));
    assert_eq!(texture_target(DRM_FORMAT_YUYV), GL_TEXTURE_EXTERNAL_OES);
    assert_eq!(texture_target(DRM_FORMAT_RGB888), GL_TEXTURE_2D);
    assert_eq!(fragment_shader(DRM_FORMAT_NV12), FRAGMENT_SHADER_YUV);
    assert_eq!(fragment_shader(DRM_FORMAT_RGB888), FRAGMENT_SHADER_RGB);
    assert!(FRAGMENT_SHADER_YUV.contains("samplerExternalOES"));
    assert!(FRAGMENT_SHADER_RGB.ends_with('\0'));
}

#[test]
fn renderer_viewport() {
    let mut r = QuadRenderer::new(DRM_FORMAT_YUYV, 3, 4, 5, 0, 1, 2);
    assert_eq!(
        r.state(),
        RendererState {
            program: 3, texture: 4, vbo: 5, attr_pos: 0, attr_uv: 1, uni_tex: 2,
            tex_target: GL_TEXTURE_EXTERNAL_OES, viewport_w: 0, viewport_h: 0,
        }
    );
    r.set_viewport(640, 480);
    let s = r.state();
    assert_eq!((s.viewport_w, s.viewport_h), (640, 480));
    assert_eq!((s.program, s.texture, s.vbo), (3, 4, 5));
}

#[test]
fn window_binds_globals() {
    let mut w = WindowState::new();
    let a = w.handle(&WindowEvent::Global { name: 1, interface: b"wl_compositor".to_vec(), version: 6 });
    assert_eq!(a, WindowAction::BindCompositor { name: 1, version: 4 });
    let a = w.handle(&WindowEvent::Global { name: 2, interface: b"wl_compositor".to_vec(), version: 3 });
    assert_eq!(a, WindowAction::BindCompositor { name: 2, version: 3 });
    let a = w.handle(&WindowEvent::Global { name: 5, interface: b"xdg_wm_base".to_vec(), version: 5 });
    assert_eq!(a, WindowAction::BindWmBase { name: 5, version: 1 });
    let a = w.handle(&WindowEvent::Global { name: 9, interface: b"wl_seat".to_vec(), version: 7 });
    assert_eq!(a, WindowAction::Nothing);
    assert_eq!(w, WindowState { configured: false, should_close: false });
}

#[test]
fn window_configure_ping_close() {
    let mut w = WindowState::new();
    assert_eq!(w.handle(&WindowEvent::Ping { serial: 11 }), WindowAction::Pong { serial: 11 });
    assert!(!w.configured);
    assert_eq!(w.handle(&WindowEvent::Configure { serial: 12 }), WindowAction::AckConfigure { serial: 12 });
    assert!(w.configured);
    assert!(w.should_dispatch());
    assert!(w.keeps_running(true));
    assert!(!w.keeps_running(false));
    assert_eq!(w.handle(&WindowEvent::Close), WindowAction::Nothing);
    assert!(w.should_close);
    assert!(!w.should_dispatch());
    assert!(!w.keeps_running(true));
    w.handle(&WindowEvent::Other);
    assert!(w.should_close && w.configured);
}

#[test]
fn publisher_frame_cycle() {
    let mut p = PublisherLoop::new();
    assert_eq!(p.action(true), PublisherAction::Dequeue);
    p.advance(PublisherOutcome::Dequeued(2));
    assert_eq!(p.action(true), PublisherAction::SendIdx(2));
    p.advance(PublisherOutcome::Done);
    assert_eq!(p.action(true), PublisherAction::WaitAck);
    p.advance(PublisherOutcome::Done);
    assert_eq!(p.action(true), PublisherAction::Requeue(2));
    p.advance(PublisherOutcome::Done);
    assert_eq!(p.phase, PublisherPhase::Ready);
    assert_eq!(p.action(false), PublisherAction::Finish);
}

#[test]
fn publisher_hands_back_buffer_on_failure() {
    let mut p = PublisherLoop::new();
    p.advance(PublisherOutcome::Dequeued(1));
    p.advance(PublisherOutcome::Done);
    // the ack never comes
    p.advance(PublisherOutcome::Failed);
    assert_eq!(p.action(true), PublisherAction::Requeue(1));
    p.advance(PublisherOutcome::Failed);
    assert!(p.is_finished());
    assert_eq!(p.action(true), PublisherAction::Finish);

    let mut q = PublisherLoop::new();
    q.advance(PublisherOutcome::Dequeued(3));
    q.advance(PublisherOutcome::Failed);
    assert_eq!(q.action(false), PublisherAction::Requeue(3));
    q.advance(PublisherOutcome::Done);
    assert!(q.is_finished());

    let mut d = PublisherLoop::new();
    d.advance(PublisherOutcome::Failed);
    assert!(d.is_finished());
}

#[test]
fn subscriber_frame_cycle() {
    let mut s = SubscriberLoop::new(4);
    assert_eq!(s.action(true), SubscriberAction::ReceiveIdx);
    s.advance(SubscriberOutcome::Received(3));
    assert_eq!(s.action(true), SubscriberAction::Import(3));
    s.advance(SubscriberOutcome::Done);
    assert_eq!(s.action(true), SubscriberAction::DrawAndSwap);
    s.advance(SubscriberOutcome::Done);
    assert_eq!(s.action(true), SubscriberAction::DestroyImage);
    s.advance(SubscriberOutcome::Done);
    assert_eq!(s.phase, SubscriberPhase::Ack(3));
    assert_eq!(s.action(true), SubscriberAction::SendAck);
    s.advance(SubscriberOutcome::Done);
    assert_eq!(s.action(true), SubscriberAction::DispatchEvents);
    s.advance(SubscriberOutcome::Done);
    assert_eq!(s.phase, SubscriberPhase::Ready);
    assert_eq!(s.action(false), SubscriberAction::Finish);
}

#[test]
fn subscriber_stops_on_failures() {
    let mut s = SubscriberLoop::new(4);
    s.advance(SubscriberOutcome::Failed);
    assert!(s.is_finished());

    let mut t = SubscriberLoop::new(4);
    t.advance(SubscriberOutcome::Received(0));
    t.advance(SubscriberOutcome::Failed);
    assert!(t.is_finished());

    let mut u = SubscriberLoop::new(4);
    u.advance(SubscriberOutcome::Received(1));
    u.advance(SubscriberOutcome::Done);
    u.advance(SubscriberOutcome::Done);
    u.advance(SubscriberOutcome::Done);
    u.advance(SubscriberOutcome::Failed);
    assert!(u.is_finished());
}

#[test]
fn renderer_deletes_only_created_objects() {
    let r = QuadRenderer::new(DRM_FORMAT_RGB888, 7, 0, 9, 0, 1, 2);
    assert_eq!(r.owned_objects(), GlObjects { texture: None, vbo: Some(9), program: Some(7) });
}
