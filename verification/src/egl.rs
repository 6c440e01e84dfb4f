//! What the subscriber decides around EGL and GLES2: which extensions the
//! driver offers, the attribute lists handed to EGL, and the quad renderer's
//! choice of texture target and shader.

use vstd::prelude::*;
use vstd::string::StringSliceAdditionalSpecFns;
use crate::wire::FrameMeta;
use crate::fourcc::{DRM_FORMAT_NV12, DRM_FORMAT_NV21, DRM_FORMAT_YUYV};

verus! {

pub const EGL_EXTENSIONS: i32 = 0x3055;
pub const EGL_OPENGL_ES_API: u32 = 0x30A0;
pub const EGL_SURFACE_TYPE: i32 = 0x3033;
pub const EGL_WINDOW_BIT: i32 = 0x0004;
pub const EGL_RENDERABLE_TYPE: i32 = 0x3040;
pub const EGL_OPENGL_ES2_BIT: i32 = 0x0004;
pub const EGL_RED_SIZE: i32 = 0x3024;
pub const EGL_GREEN_SIZE: i32 = 0x3023;
pub const EGL_BLUE_SIZE: i32 = 0x3022;
pub const EGL_ALPHA_SIZE: i32 = 0x3021;
pub const EGL_NONE: i32 = 0x3038;
pub const EGL_CONTEXT_CLIENT_VERSION: i32 = 0x3098;
pub const EGL_WIDTH: i32 = 0x3057;
pub const EGL_HEIGHT: i32 = 0x3056;
pub const EGL_LINUX_DMA_BUF_EXT: u32 = 0x3270;
pub const EGL_LINUX_DRM_FOURCC_EXT: i32 = 0x3271;
pub const EGL_DMA_BUF_PLANE0_FD_EXT: i32 = 0x3272;
pub const EGL_DMA_BUF_PLANE0_OFFSET_EXT: i32 = 0x3273;
pub const EGL_DMA_BUF_PLANE0_PITCH_EXT: i32 = 0x3274;
pub const EGL_DMA_BUF_PLANE1_FD_EXT: i32 = 0x3275;
pub const EGL_DMA_BUF_PLANE1_OFFSET_EXT: i32 = 0x3276;
pub const EGL_DMA_BUF_PLANE1_PITCH_EXT: i32 = 0x3277;
pub const EGL_DMA_BUF_PLANE0_MODIFIER_LO_EXT: i32 = 0x3443;
pub const EGL_DMA_BUF_PLANE0_MODIFIER_HI_EXT: i32 = 0x3444;
pub const EGL_DMA_BUF_PLANE1_MODIFIER_LO_EXT: i32 = 0x3445;
pub const EGL_DMA_BUF_PLANE1_MODIFIER_HI_EXT: i32 = 0x3446;
pub const EGL_PLATFORM_WAYLAND_EXT: u32 = 0x31D8;

pub const GL_TEXTURE_2D: u32 = 0x0DE1;
pub const GL_TEXTURE_EXTERNAL_OES: u32 = 0x8D65;

// ---- extension strings -----------------------------------------------------

/// `needle` occurs somewhere in `hay`.
pub open spec fn contains_bytes(hay: Seq<u8>, needle: Seq<u8>) -> bool {
    exists|i: int|
        0 <= i && i + needle.len() <= hay.len() && #[trigger] hay.subrange(i, i + needle.len())
            == needle
}

/// `needle` occurs at offset `i` of `hay`.
pub open spec fn occurs_at(hay: Seq<u8>, needle: Seq<u8>, i: int) -> bool {
    0 <= i && i + needle.len() <= hay.len() && hay.subrange(i, i + needle.len()) == needle
}

fn matches_at(hay: &[u8], needle: &[u8], i: usize) -> (r: bool)
    requires
        i + needle@.len() <= hay@.len(),
    ensures
        r == (hay@.subrange(i as int, i + needle@.len()) == needle@),
{
    let hay_len = hay.len();
    let mut j: usize = 0;
    while j < needle.len()
        invariant
            hay_len == hay@.len(),
            i + needle@.len() <= hay@.len(),
            j <= needle@.len(),
            forall|k: int| 0 <= k < j ==> hay@[i + k] == needle@[k],
        decreases needle@.len() - j,
    {
        if hay[i + j] != needle[j] {
            assert(hay@.subrange(i as int, i + needle@.len())[j as int] != needle@[j as int]);
            return false;
        }
        j = j + 1;
    }
    assert(hay@.subrange(i as int, i + needle@.len()) =~= needle@);
    true
}

/// Whether `needle` occurs in `hay`, compared byte by byte (as `str::contains` does).
pub fn contains_str(hay: &str, needle: &str) -> (r: bool)
    ensures
        r == contains_bytes(hay.spec_bytes(), needle.spec_bytes()),
{
    let h = hay.as_bytes();
    let n = needle.as_bytes();
    if n.len() > h.len() {
        return false;
    }
    let last = h.len() - n.len();
    let mut i: usize = 0;
    while i < last
        invariant
            h@ == hay.spec_bytes(),
            n@ == needle.spec_bytes(),
            last == h@.len() - n@.len(),
            n@.len() <= h@.len(),
            i <= last,
            forall|k: int| 0 <= k < i ==> !occurs_at(h@, n@, k),
        decreases last - i,
    {
        if matches_at(h, n, i) {
            assert(occurs_at(h@, n@, i as int));
            return true;
        }
        i = i + 1;
    }
    if matches_at(h, n, last) {
        assert(occurs_at(h@, n@, last as int));
        return true;
    }
    assert forall|k: int| 0 <= k && k + n@.len() <= h@.len() implies #[trigger] h@.subrange(
        k,
        k + n@.len(),
    ) != n@ by {
        assert(!occurs_at(h@, n@, k));
    }
    false
}

/// What a display's extension string says the importer can use.
#[derive(Debug, Clone, Copy, PartialEq, Eq, Structural)]
pub struct DisplayExtensions {
    /// `EGL_EXT_image_dma_buf_import` is advertised (only a warning when not).
    pub dma_buf_import: bool,
    /// `EGL_EXT_image_dma_buf_import_modifiers` is advertised.
    pub modifiers: bool,
}

/// Reads the features the importer cares about out of a display's extension string.
pub fn display_extensions(exts: &str) -> (r: DisplayExtensions)
    ensures
        r.dma_buf_import == contains_bytes(
            exts.spec_bytes(),
            "EGL_EXT_image_dma_buf_import".spec_bytes(),
        ),
        r.modifiers == contains_bytes(
            exts.spec_bytes(),
            "EGL_EXT_image_dma_buf_import_modifiers".spec_bytes(),
        ),
{
    DisplayExtensions {
        dma_buf_import: contains_str(exts, "EGL_EXT_image_dma_buf_import"),
        modifiers: contains_str(exts, "EGL_EXT_image_dma_buf_import_modifiers"),
    }
}

/// Whether to ask for a Wayland platform display, given the client extension
/// string (`None` when EGL returned none).
pub fn use_platform_display(client_exts: Option<&str>) -> (r: bool)
    ensures
        r == match client_exts {
            None => false,
            Some(s) => contains_bytes(s.spec_bytes(), "EGL_EXT_platform_wayland".spec_bytes())
                || contains_bytes(s.spec_bytes(), "EGL_KHR_platform_wayland".spec_bytes()),
        },
{
    match client_exts {
        None => false,
        Some(s) => contains_str(s, "EGL_EXT_platform_wayland") || contains_str(
            s,
            "EGL_KHR_platform_wayland",
        ),
    }
}

// ---- attribute lists -------------------------------------------------------

/// The framebuffer configuration asked for: a window surface, GLES2, RGBA8888.
pub open spec fn spec_config_attribs() -> Seq<i32> {
    seq![
        EGL_SURFACE_TYPE, EGL_WINDOW_BIT,
        EGL_RENDERABLE_TYPE, EGL_OPENGL_ES2_BIT,
        EGL_RED_SIZE, 8,
        EGL_GREEN_SIZE, 8,
        EGL_BLUE_SIZE, 8,
        EGL_ALPHA_SIZE, 8,
        EGL_NONE,
    ]
}

/// The `eglChooseConfig` attribute list.
pub fn config_attribs() -> (r: Vec<i32>)
    ensures
        r@ == spec_config_attribs(),
{
    let r = vec![
        EGL_SURFACE_TYPE, EGL_WINDOW_BIT,
        EGL_RENDERABLE_TYPE, EGL_OPENGL_ES2_BIT,
        EGL_RED_SIZE, 8,
        EGL_GREEN_SIZE, 8,
        EGL_BLUE_SIZE, 8,
        EGL_ALPHA_SIZE, 8,
        EGL_NONE,
    ];
    assert(r@ =~= spec_config_attribs());
    r
}

/// The `eglCreateContext` attribute list: a GLES 2 context.
pub fn context_attribs() -> (r: Vec<i32>)
    ensures
        r@ == seq![EGL_CONTEXT_CLIENT_VERSION, 2i32, EGL_NONE],
{
    let r = vec![EGL_CONTEXT_CLIENT_VERSION, 2, EGL_NONE];
    assert(r@ =~= seq![EGL_CONTEXT_CLIENT_VERSION, 2i32, EGL_NONE]);
    r
}

/// Whether a DRM format keeps luma and interleaved chroma in two planes of one buffer.
pub open spec fn is_semi_planar(format: u32) -> bool {
    format == DRM_FORMAT_NV12 || format == DRM_FORMAT_NV21
}

/// Whether a DRM format keeps luma and interleaved chroma in two planes of one buffer.
pub fn is_semi_planar_format(format: u32) -> (r: bool)
    ensures
        r == is_semi_planar(format),
{
    format == DRM_FORMAT_NV12 || format == DRM_FORMAT_NV21
}

/// Plane 0 of an import: the whole buffer from offset 0, one row per `stride`.
pub open spec fn plane0_attribs(fd: i32, meta: FrameMeta) -> Seq<i32> {
    seq![
        EGL_WIDTH, meta.width as i32,
        EGL_HEIGHT, meta.height as i32,
        EGL_LINUX_DRM_FOURCC_EXT, meta.format as i32,
        EGL_DMA_BUF_PLANE0_FD_EXT, fd,
        EGL_DMA_BUF_PLANE0_OFFSET_EXT, 0,
        EGL_DMA_BUF_PLANE0_PITCH_EXT, meta.stride as i32,
    ]
}

/// Plane 1 of a semi-planar import: the chroma plane, in the same buffer,
/// right after `height` rows of luma.
pub open spec fn plane1_attribs(fd: i32, meta: FrameMeta) -> Seq<i32> {
    seq![
        EGL_DMA_BUF_PLANE1_FD_EXT, fd,
        EGL_DMA_BUF_PLANE1_OFFSET_EXT, (meta.stride * meta.height) as u32 as i32,
        EGL_DMA_BUF_PLANE1_PITCH_EXT, meta.stride as i32,
    ]
}

/// The linear-layout modifier of plane 0, when modifiers can be passed.
pub open spec fn plane0_modifier(modifiers: bool) -> Seq<i32> {
    if modifiers {
        seq![EGL_DMA_BUF_PLANE0_MODIFIER_LO_EXT, 0, EGL_DMA_BUF_PLANE0_MODIFIER_HI_EXT, 0]
    } else {
        Seq::empty()
    }
}

/// The linear-layout modifier of plane 1, when modifiers can be passed.
pub open spec fn plane1_modifier(modifiers: bool) -> Seq<i32> {
    if modifiers {
        seq![EGL_DMA_BUF_PLANE1_MODIFIER_LO_EXT, 0, EGL_DMA_BUF_PLANE1_MODIFIER_HI_EXT, 0]
    } else {
        Seq::empty()
    }
}

/// The attribute list that imports DMA-BUF `fd` holding a frame of `meta`.
pub open spec fn spec_import_attribs(fd: i32, meta: FrameMeta, modifiers: bool) -> Seq<i32> {
    plane0_attribs(fd, meta) + plane0_modifier(modifiers) + (if is_semi_planar(meta.format) {
        plane1_attribs(fd, meta) + plane1_modifier(modifiers)
    } else {
        Seq::empty()
    }) + seq![EGL_NONE]
}

/// Builds the `eglCreateImageKHR` attribute list for importing DMA-BUF `fd`
/// holding a frame of `meta`; `modifiers` says whether the display takes
/// explicit (linear) modifiers.
pub fn dmabuf_import_attribs(fd: i32, meta: &FrameMeta, modifiers: bool) -> (r: Vec<i32>)
    requires
        is_semi_planar(meta.format) ==> meta.stride * meta.height <= u32::MAX,
    ensures
        r@ == spec_import_attribs(fd, *meta, modifiers),
{
    let mut attrs: Vec<i32> = vec![
        EGL_WIDTH, meta.width as i32,
        EGL_HEIGHT, meta.height as i32,
        EGL_LINUX_DRM_FOURCC_EXT, meta.format as i32,
        EGL_DMA_BUF_PLANE0_FD_EXT, fd,
        EGL_DMA_BUF_PLANE0_OFFSET_EXT, 0,
        EGL_DMA_BUF_PLANE0_PITCH_EXT, meta.stride as i32,
    ];
    assert(attrs@ =~= plane0_attribs(fd, *meta));
    if modifiers {
        attrs.push(EGL_DMA_BUF_PLANE0_MODIFIER_LO_EXT);
        attrs.push(0);
        attrs.push(EGL_DMA_BUF_PLANE0_MODIFIER_HI_EXT);
        attrs.push(0);
    }
    assert(attrs@ =~= plane0_attribs(fd, *meta) + plane0_modifier(modifiers));
    let ghost before = attrs@;
    if is_semi_planar_format(meta.format) {
        let uv_off = (meta.stride * meta.height) as i32;
        attrs.push(EGL_DMA_BUF_PLANE1_FD_EXT);
        attrs.push(fd);
        attrs.push(EGL_DMA_BUF_PLANE1_OFFSET_EXT);
        attrs.push(uv_off);
        attrs.push(EGL_DMA_BUF_PLANE1_PITCH_EXT);
        attrs.push(meta.stride as i32);
        if modifiers {
            attrs.push(EGL_DMA_BUF_PLANE1_MODIFIER_LO_EXT);
            attrs.push(0);
            attrs.push(EGL_DMA_BUF_PLANE1_MODIFIER_HI_EXT);
            attrs.push(0);
        }
        assert(attrs@ =~= before + (plane1_attribs(fd, *meta) + plane1_modifier(modifiers)));
    } else {
        assert(attrs@ =~= before + Seq::<i32>::empty());
    }
    attrs.push(EGL_NONE);
    assert(attrs@ =~= spec_import_attribs(fd, *meta, modifiers));
    attrs
}

/// Every import list is a run of key/value pairs closed by `EGL_NONE`:
/// 13 entries for a single-plane format (17 with modifiers), 19 for a
/// semi-planar one (27 with modifiers).
pub proof fn lemma_import_attribs_shape(fd: i32, meta: FrameMeta, modifiers: bool)
    ensures
        spec_import_attribs(fd, meta, modifiers).len() == (if is_semi_planar(meta.format) {
            19 + (if modifiers {
                8int
            } else {
                0
            })
        } else {
            13 + (if modifiers {
                4int
            } else {
                0
            })
        }),
        spec_import_attribs(fd, meta, modifiers).last() == EGL_NONE,
        spec_import_attribs(fd, meta, modifiers)[6] == EGL_DMA_BUF_PLANE0_FD_EXT,
        spec_import_attribs(fd, meta, modifiers)[7] == fd,
        spec_import_attribs(fd, meta, modifiers)[9] == 0,
{
}

/// What each entry of an import list says: the frame's width, height and
/// format, plane 0 as the given descriptor from offset 0 with the frame's
/// stride as pitch, then (with modifiers) a zero, i.e. linear, modifier; for a
/// semi-planar format plane 1 as the same descriptor at `stride * height`
/// with the same stride as pitch (and a linear modifier), and nothing else.
pub proof fn lemma_import_attribs_entries(fd: i32, meta: FrameMeta, modifiers: bool)
    ensures
        ({
            let a = spec_import_attribs(fd, meta, modifiers);
            let b: int = if modifiers {
                16
            } else {
                12
            };
            &&& a[0] == EGL_WIDTH && a[1] == meta.width as i32
            &&& a[2] == EGL_HEIGHT && a[3] == meta.height as i32
            &&& a[4] == EGL_LINUX_DRM_FOURCC_EXT && a[5] == meta.format as i32
            &&& a[6] == EGL_DMA_BUF_PLANE0_FD_EXT && a[7] == fd
            &&& a[8] == EGL_DMA_BUF_PLANE0_OFFSET_EXT && a[9] == 0
            &&& a[10] == EGL_DMA_BUF_PLANE0_PITCH_EXT && a[11] == meta.stride as i32
            &&& modifiers ==> (a[12] == EGL_DMA_BUF_PLANE0_MODIFIER_LO_EXT && a[13] == 0
                && a[14] == EGL_DMA_BUF_PLANE0_MODIFIER_HI_EXT && a[15] == 0)
            &&& is_semi_planar(meta.format) ==> {
                &&& a[b] == EGL_DMA_BUF_PLANE1_FD_EXT && a[b + 1] == fd
                &&& a[b + 2] == EGL_DMA_BUF_PLANE1_OFFSET_EXT
                &&& a[b + 3] == (meta.stride * meta.height) as u32 as i32
                &&& a[b + 4] == EGL_DMA_BUF_PLANE1_PITCH_EXT && a[b + 5] == meta.stride as i32
                &&& modifiers ==> (a[b + 6] == EGL_DMA_BUF_PLANE1_MODIFIER_LO_EXT && a[b + 7]
                    == 0 && a[b + 8] == EGL_DMA_BUF_PLANE1_MODIFIER_HI_EXT && a[b + 9] == 0)
                &&& a.len() == b + 6 + (if modifiers {
                    4int
                } else {
                    0
                }) + 1
            }
            &&& !is_semi_planar(meta.format) ==> a.len() == b + 1
            &&& a[a.len() - 1] == EGL_NONE
        }),
{
}

/// A semi-planar frame is imported as two planes of the same DMA-BUF: the
/// chroma plane names the same descriptor, starts right after `height` rows
/// of `stride` bytes, and has the same pitch.
pub proof fn lemma_semi_planar_planes_share_buffer(fd: i32, meta: FrameMeta, modifiers: bool)
    requires
        is_semi_planar(meta.format),
    ensures
        ({
            let a = spec_import_attribs(fd, meta, modifiers);
            let b: int = if modifiers {
                16
            } else {
                12
            };
            &&& a[b] == EGL_DMA_BUF_PLANE1_FD_EXT
            &&& a[b + 1] == a[7]
            &&& a[b + 2] == EGL_DMA_BUF_PLANE1_OFFSET_EXT
            &&& a[b + 3] == (meta.stride * meta.height) as u32 as i32
            &&& a[b + 4] == EGL_DMA_BUF_PLANE1_PITCH_EXT
            &&& a[b + 5] == a[11]
        }),
{
}

// ---- quad renderer ---------------------------------------------------------

/// The vertex shader: passes position and texture coordinate through.
pub const VERTEX_SHADER: &'static str = "attribute vec2 a_pos;\nattribute vec2 a_uv;\nvarying vec2 v_uv;\nvoid main() {\n    v_uv = a_uv;\n    gl_Position = vec4(a_pos, 0.0, 1.0);\n}\n\0";

/// The fragment shader for RGB frames: an ordinary 2D texture.
pub const FRAGMENT_SHADER_RGB: &'static str = "precision mediump float;\nvarying vec2 v_uv;\nuniform sampler2D u_tex;\nvoid main() { gl_FragColor = texture2D(u_tex, v_uv); }\n\0";

/// The fragment shader for YUV frames: an external image, converted to RGB
/// by the GPU as it is sampled.
pub const FRAGMENT_SHADER_YUV: &'static str = "#extension GL_OES_EGL_image_external : require\nprecision mediump float;\nvarying vec2 v_uv;\nuniform samplerExternalOES u_tex;\nvoid main() { gl_FragColor = texture2D(u_tex, v_uv); }\n\0";

/// Whether frames of this DRM format are sampled as an external (YUV) image.
pub open spec fn spec_samples_external(drm_fourcc: u32) -> bool {
    drm_fourcc == DRM_FORMAT_YUYV || drm_fourcc == DRM_FORMAT_NV12 || drm_fourcc
        == DRM_FORMAT_NV21
}

/// Whether frames of this DRM format are sampled as an external (YUV) image.
pub fn samples_external(drm_fourcc: u32) -> (r: bool)
    ensures
        r == spec_samples_external(drm_fourcc),
        r <==> (drm_fourcc == DRM_FORMAT_YUYV || drm_fourcc == DRM_FORMAT_NV12 || drm_fourcc
            == DRM_FORMAT_NV21),
{
    drm_fourcc == DRM_FORMAT_YUYV || drm_fourcc == DRM_FORMAT_NV12 || drm_fourcc
        == DRM_FORMAT_NV21
}

/// The texture target frames of this DRM format are bound to.
pub fn texture_target(drm_fourcc: u32) -> (r: u32)
    ensures
        r == (if spec_samples_external(drm_fourcc) {
            GL_TEXTURE_EXTERNAL_OES
        } else {
            GL_TEXTURE_2D
        }),
        (r == GL_TEXTURE_EXTERNAL_OES) <==> (drm_fourcc == DRM_FORMAT_YUYV || drm_fourcc
            == DRM_FORMAT_NV12 || drm_fourcc == DRM_FORMAT_NV21),
{
    if samples_external(drm_fourcc) {
        GL_TEXTURE_EXTERNAL_OES
    } else {
        GL_TEXTURE_2D
    }
}

/// The fragment shader that samples frames of this DRM format.
pub fn fragment_shader(drm_fourcc: u32) -> (r: &'static str)
    ensures
        r == (if spec_samples_external(drm_fourcc) {
            FRAGMENT_SHADER_YUV
        } else {
            FRAGMENT_SHADER_RGB
        }),
        (drm_fourcc == DRM_FORMAT_YUYV || drm_fourcc == DRM_FORMAT_NV12 || drm_fourcc
            == DRM_FORMAT_NV21) ==> r == FRAGMENT_SHADER_YUV,
{
    if samples_external(drm_fourcc) {
        FRAGMENT_SHADER_YUV
    } else {
        FRAGMENT_SHADER_RGB
    }
}

/// The YUV formats the pipeline imports (YUYV, NV12, NV21), and only those,
/// are sampled as an external image with the YUV shader; every other format,
/// RGB ones included, as a plain 2D texture with the RGB shader. Target and
/// shader always agree, and every two-plane format is sampled externally.
pub proof fn lemma_yuv_formats_sampled_external(f: u32)
    ensures
        spec_samples_external(f) <==> (f == DRM_FORMAT_YUYV || f == DRM_FORMAT_NV12 || f
            == DRM_FORMAT_NV21),
        is_semi_planar(f) ==> spec_samples_external(f),
        spec_samples_external(DRM_FORMAT_YUYV),
        spec_samples_external(DRM_FORMAT_NV12),
        spec_samples_external(DRM_FORMAT_NV21),
        !spec_samples_external(crate::fourcc::DRM_FORMAT_RGB888),
        !spec_samples_external(crate::fourcc::DRM_FORMAT_BGR888),
        !spec_samples_external(crate::fourcc::DRM_FORMAT_ARGB8888),
        !spec_samples_external(crate::fourcc::DRM_FORMAT_XRGB8888),
{
}

/// The GL objects and settings of a [`QuadRenderer`].
#[derive(Debug, Clone, Copy, PartialEq, Eq, Structural)]
pub struct RendererState {
    pub program: u32,
    pub texture: u32,
    pub vbo: u32,
    pub attr_pos: i32,
    pub attr_uv: i32,
    pub uni_tex: i32,
    pub tex_target: u32,
    pub viewport_w: i32,
    pub viewport_h: i32,
}

/// The GL objects a renderer owns and must delete: those that were created (non-zero).
#[derive(Debug, Clone, Copy, PartialEq, Eq, Structural)]
pub struct GlObjects {
    pub texture: Option<u32>,
    pub vbo: Option<u32>,
    pub program: Option<u32>,
}

/// An object name, if GL created one (0 names no object).
pub open spec fn created(name: u32) -> Option<u32> {
    if name != 0 {
        Some(name)
    } else {
        None
    }
}

/// Draws a frame's EGL image onto a full-window quad.
pub struct QuadRenderer {
    program: u32,
    texture: u32,
    vbo: u32,
    attr_pos: i32,
    attr_uv: i32,
    uni_tex: i32,
    tex_target: u32,
    viewport_w: i32,
    viewport_h: i32,
}

impl View for QuadRenderer {
    type V = RendererState;

    closed spec fn view(&self) -> RendererState {
        RendererState {
            program: self.program,
            texture: self.texture,
            vbo: self.vbo,
            attr_pos: self.attr_pos,
            attr_uv: self.attr_uv,
            uni_tex: self.uni_tex,
            tex_target: self.tex_target,
            viewport_w: self.viewport_w,
            viewport_h: self.viewport_h,
        }
    }
}

impl QuadRenderer {
    /// A renderer over GL objects already created for frames of `drm_fourcc`;
    /// its viewport is empty until set.
    pub fn new(
        drm_fourcc: u32,
        program: u32,
        texture: u32,
        vbo: u32,
        attr_pos: i32,
        attr_uv: i32,
        uni_tex: i32,
    ) -> (r: QuadRenderer)
        ensures
            r@ == (RendererState {
                program,
                texture,
                vbo,
                attr_pos,
                attr_uv,
                uni_tex,
                tex_target: if spec_samples_external(drm_fourcc) {
                    GL_TEXTURE_EXTERNAL_OES
                } else {
                    GL_TEXTURE_2D
                },
                viewport_w: 0,
                viewport_h: 0,
            }),
    {
        QuadRenderer {
            program,
            texture,
            vbo,
            attr_pos,
            attr_uv,
            uni_tex,
            tex_target: texture_target(drm_fourcc),
            viewport_w: 0,
            viewport_h: 0,
        }
    }

    /// Sets the size of the area drawn into.
    pub fn set_viewport(&mut self, w: i32, h: i32)
        ensures
            final(self)@ == (RendererState { viewport_w: w, viewport_h: h, ..old(self)@ }),
    {
        self.viewport_w = w;
        self.viewport_h = h;
    }

    /// The GL objects to delete when the renderer goes away.
    pub fn owned_objects(&self) -> (r: GlObjects)
        ensures
            r == (GlObjects {
                texture: created(self@.texture),
                vbo: created(self@.vbo),
                program: created(self@.program),
            }),
    {
        GlObjects {
            texture: if self.texture != 0 { Some(self.texture) } else { None },
            vbo: if self.vbo != 0 { Some(self.vbo) } else { None },
            program: if self.program != 0 { Some(self.program) } else { None },
        }
    }

    /// The renderer's GL objects and settings.
    pub fn state(&self) -> (r: RendererState)
        ensures
            r == self@,
    {
        RendererState {
            program: self.program,
            texture: self.texture,
            vbo: self.vbo,
            attr_pos: self.attr_pos,
            attr_uv: self.attr_uv,
            uni_tex: self.uni_tex,
            tex_target: self.tex_target,
            viewport_w: self.viewport_w,
            viewport_h: self.viewport_h,
        }
    }
}

} // verus!
