//! FOURCC pixel-format codes of V4L2 and DRM, and the mapping between them.

use vstd::prelude::*;

verus! {

/// A FOURCC code: the four characters packed little-endian into a `u32`.
pub open spec fn fourcc_code(a: u8, b: u8, c: u8, d: u8) -> int {
    a + b * 0x100 + c * 0x1_0000 + d * 0x100_0000
}

/// `V4L2_PIX_FMT_YUYV`, `YUYV`.
pub const V4L2_PIX_FMT_YUYV: u32 = 0x5659_5559;
/// `V4L2_PIX_FMT_UYVY`, `UYVY`.
pub const V4L2_PIX_FMT_UYVY: u32 = 0x5956_5955;
/// `V4L2_PIX_FMT_NV12`, `NV12`.
pub const V4L2_PIX_FMT_NV12: u32 = 0x3231_564E;
/// `V4L2_PIX_FMT_NV21`, `NV21`.
pub const V4L2_PIX_FMT_NV21: u32 = 0x3132_564E;
/// `V4L2_PIX_FMT_RGB24`, `RGB3`.
pub const V4L2_PIX_FMT_RGB24: u32 = 0x3342_4752;
/// `V4L2_PIX_FMT_BGR24`, `BGR3`.
pub const V4L2_PIX_FMT_BGR24: u32 = 0x3352_4742;
/// `V4L2_PIX_FMT_ABGR32`, `AR24`.
pub const V4L2_PIX_FMT_ABGR32: u32 = 0x3432_5241;
/// `V4L2_PIX_FMT_XBGR32`, `XR24`.
pub const V4L2_PIX_FMT_XBGR32: u32 = 0x3432_5258;

/// `DRM_FORMAT_YUYV`, `YUYV`.
pub const DRM_FORMAT_YUYV: u32 = 0x5659_5559;
/// `DRM_FORMAT_UYVY`, `UYVY`.
pub const DRM_FORMAT_UYVY: u32 = 0x5956_5955;
/// `DRM_FORMAT_NV12`, `NV12`.
pub const DRM_FORMAT_NV12: u32 = 0x3231_564E;
/// `DRM_FORMAT_NV21`, `NV21`.
pub const DRM_FORMAT_NV21: u32 = 0x3132_564E;
/// `DRM_FORMAT_RGB888`, `RG24`.
pub const DRM_FORMAT_RGB888: u32 = 0x3432_4752;
/// `DRM_FORMAT_BGR888`, `BG24`.
pub const DRM_FORMAT_BGR888: u32 = 0x3432_4742;
/// `DRM_FORMAT_ARGB8888`, `AR24`.
pub const DRM_FORMAT_ARGB8888: u32 = 0x3432_5241;
/// `DRM_FORMAT_XRGB8888`, `XR24`.
pub const DRM_FORMAT_XRGB8888: u32 = 0x3432_5258;

/// The DRM format that a V4L2 capture format is imported as, where there is one.
pub open spec fn drm_format_of(v4l2: u32) -> Option<u32> {
    if v4l2 == V4L2_PIX_FMT_YUYV {
        Some(DRM_FORMAT_YUYV)
    } else if v4l2 == V4L2_PIX_FMT_UYVY {
        Some(DRM_FORMAT_UYVY)
    } else if v4l2 == V4L2_PIX_FMT_NV12 {
        Some(DRM_FORMAT_NV12)
    } else if v4l2 == V4L2_PIX_FMT_NV21 {
        Some(DRM_FORMAT_NV21)
    } else if v4l2 == V4L2_PIX_FMT_RGB24 {
        Some(DRM_FORMAT_RGB888)
    } else if v4l2 == V4L2_PIX_FMT_BGR24 {
        Some(DRM_FORMAT_BGR888)
    } else if v4l2 == V4L2_PIX_FMT_ABGR32 {
        Some(DRM_FORMAT_ARGB8888)
    } else if v4l2 == V4L2_PIX_FMT_XBGR32 {
        Some(DRM_FORMAT_XRGB8888)
    } else {
        None
    }
}

/// Maps a V4L2 pixel format to the DRM FOURCC that EGL imports it as;
/// `None` for a format the pipeline does not handle.
pub fn v4l2_to_drm_fourcc(v4l2: u32) -> (r: Option<u32>)
    ensures
        r == drm_format_of(v4l2),
{
    if v4l2 == V4L2_PIX_FMT_YUYV {
        Some(DRM_FORMAT_YUYV)
    } else if v4l2 == V4L2_PIX_FMT_UYVY {
        Some(DRM_FORMAT_UYVY)
    } else if v4l2 == V4L2_PIX_FMT_NV12 {
        Some(DRM_FORMAT_NV12)
    } else if v4l2 == V4L2_PIX_FMT_NV21 {
        Some(DRM_FORMAT_NV21)
    } else if v4l2 == V4L2_PIX_FMT_RGB24 {
        Some(DRM_FORMAT_RGB888)
    } else if v4l2 == V4L2_PIX_FMT_BGR24 {
        Some(DRM_FORMAT_BGR888)
    } else if v4l2 == V4L2_PIX_FMT_ABGR32 {
        Some(DRM_FORMAT_ARGB8888)
    } else if v4l2 == V4L2_PIX_FMT_XBGR32 {
        Some(DRM_FORMAT_XRGB8888)
    } else {
        None
    }
}

/// Every code above is the FOURCC of the four characters it is named by.
pub proof fn lemma_codes_spell_their_names()
    ensures
        V4L2_PIX_FMT_YUYV == fourcc_code(0x59, 0x55, 0x59, 0x56),
        V4L2_PIX_FMT_UYVY == fourcc_code(0x55, 0x59, 0x56, 0x59),
        V4L2_PIX_FMT_NV12 == fourcc_code(0x4E, 0x56, 0x31, 0x32),
        V4L2_PIX_FMT_NV21 == fourcc_code(0x4E, 0x56, 0x32, 0x31),
        V4L2_PIX_FMT_RGB24 == fourcc_code(0x52, 0x47, 0x42, 0x33),
        V4L2_PIX_FMT_BGR24 == fourcc_code(0x42, 0x47, 0x52, 0x33),
        V4L2_PIX_FMT_ABGR32 == fourcc_code(0x41, 0x52, 0x32, 0x34),
        V4L2_PIX_FMT_XBGR32 == fourcc_code(0x58, 0x52, 0x32, 0x34),
        DRM_FORMAT_YUYV == fourcc_code(0x59, 0x55, 0x59, 0x56),
        DRM_FORMAT_UYVY == fourcc_code(0x55, 0x59, 0x56, 0x59),
        DRM_FORMAT_NV12 == fourcc_code(0x4E, 0x56, 0x31, 0x32),
        DRM_FORMAT_NV21 == fourcc_code(0x4E, 0x56, 0x32, 0x31),
        DRM_FORMAT_RGB888 == fourcc_code(0x52, 0x47, 0x32, 0x34),
        DRM_FORMAT_BGR888 == fourcc_code(0x42, 0x47, 0x32, 0x34),
        DRM_FORMAT_ARGB8888 == fourcc_code(0x41, 0x52, 0x32, 0x34),
        DRM_FORMAT_XRGB8888 == fourcc_code(0x58, 0x52, 0x32, 0x34),
{
}

/// Two different capture formats are never imported as the same DRM format.
pub proof fn lemma_drm_mapping_injective(a: u32, b: u32)
    requires
        drm_format_of(a) is Some,
        drm_format_of(a) == drm_format_of(b),
    ensures
        a == b,
{
}

/// The YUV capture formats keep their sample layout: each maps to the DRM
/// format with the same FOURCC.
pub proof fn lemma_yuv_formats_keep_their_code(v4l2: u32)
    requires
        v4l2 == V4L2_PIX_FMT_YUYV || v4l2 == V4L2_PIX_FMT_UYVY || v4l2 == V4L2_PIX_FMT_NV12
            || v4l2 == V4L2_PIX_FMT_NV21,
    ensures
        drm_format_of(v4l2) == Some(v4l2),
{
}

/// Every capture format is imported as a DRM format spelled with the same
/// first two characters, and the mapping is defined on exactly the eight
/// supported capture formats, each landing on one of the eight DRM formats.
pub proof fn lemma_drm_mapping_keeps_leading_characters(v4l2: u32)
    ensures
        drm_format_of(v4l2) matches Some(d) ==> d % 0x1_0000 == v4l2 % 0x1_0000,
        (drm_format_of(v4l2) is Some) <==> (v4l2 == V4L2_PIX_FMT_YUYV || v4l2 == V4L2_PIX_FMT_UYVY
            || v4l2 == V4L2_PIX_FMT_NV12 || v4l2 == V4L2_PIX_FMT_NV21 || v4l2 == V4L2_PIX_FMT_RGB24
            || v4l2 == V4L2_PIX_FMT_BGR24 || v4l2 == V4L2_PIX_FMT_ABGR32 || v4l2
            == V4L2_PIX_FMT_XBGR32),
        drm_format_of(v4l2) matches Some(d) ==> (d == DRM_FORMAT_YUYV || d == DRM_FORMAT_UYVY || d
            == DRM_FORMAT_NV12 || d == DRM_FORMAT_NV21 || d == DRM_FORMAT_RGB888 || d
            == DRM_FORMAT_BGR888 || d == DRM_FORMAT_ARGB8888 || d == DRM_FORMAT_XRGB8888),
{
}

} // verus!
