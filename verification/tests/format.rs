//! Format negotiation behavior, checked against the real `drm_fourcc` and
//! `ash` crates.

use dmatex::error::ImportError;
use dmatex::format::{
    apply_srgb, map_format, negotiate_format, to_renderer_format, NativeFormat, RendererFormat,
    FOURCC_ABGR8888, FOURCC_ARGB8888, FOURCC_BGR888, FOURCC_R16, FOURCC_R8, FOURCC_RGB565,
    FOURCC_RGBA5551, FOURCC_XBGR8888, FOURCC_XRGB8888,
};

#[test]
fn fourcc_constants_match_drm_fourcc_crate() {
    assert_eq!(FOURCC_ABGR8888, drm_fourcc::DrmFourcc::Abgr8888 as u32);
    assert_eq!(FOURCC_XBGR8888, drm_fourcc::DrmFourcc::Xbgr8888 as u32);
    assert_eq!(FOURCC_ARGB8888, drm_fourcc::DrmFourcc::Argb8888 as u32);
    assert_eq!(FOURCC_XRGB8888, drm_fourcc::DrmFourcc::Xrgb8888 as u32);
    assert_eq!(FOURCC_BGR888, drm_fourcc::DrmFourcc::Bgr888 as u32);
    assert_eq!(FOURCC_R8, drm_fourcc::DrmFourcc::R8 as u32);
    assert_eq!(FOURCC_R16, drm_fourcc::DrmFourcc::R16 as u32);
    assert_eq!(FOURCC_RGB565, drm_fourcc::DrmFourcc::Rgb565 as u32);
    assert_eq!(FOURCC_RGBA5551, drm_fourcc::DrmFourcc::Rgba5551 as u32);
}

#[test]
fn map_format_known_codes() {
    assert_eq!(map_format(FOURCC_ABGR8888), Ok(NativeFormat::R8G8B8A8Unorm));
    assert_eq!(map_format(FOURCC_XBGR8888), Ok(NativeFormat::R8G8B8A8Unorm));
    assert_eq!(map_format(FOURCC_ARGB8888), Ok(NativeFormat::B8G8R8A8Unorm));
    assert_eq!(map_format(FOURCC_XRGB8888), Ok(NativeFormat::B8G8R8A8Unorm));
    assert_eq!(map_format(FOURCC_BGR888), Ok(NativeFormat::B8G8R8Unorm));
    assert_eq!(map_format(FOURCC_R8), Ok(NativeFormat::R8Unorm));
    assert_eq!(map_format(FOURCC_R16), Ok(NativeFormat::R16Unorm));
    assert_eq!(map_format(FOURCC_RGB565), Ok(NativeFormat::R5G6B5UnormPack16));
    assert_eq!(map_format(FOURCC_RGBA5551), Ok(NativeFormat::R5G5B5A1UnormPack16));
}

#[test]
fn map_format_unrecognized_code_fails_with_format_error() {
    assert_eq!(map_format(0), Err(ImportError::UnrecognizedFourcc(0)));
    assert_eq!(map_format(42), Err(ImportError::UnrecognizedFourcc(42)));
    // cross-check with the fourcc crate: 0 really is unrecognized there
    assert!(drm_fourcc::DrmFourcc::try_from(0u32).is_err());
}

#[test]
fn map_format_recognized_but_unmapped_code_fails_as_incompatible() {
    // a packed YUV code: a real DRM format, but outside the support table
    let yuyv = drm_fourcc::DrmFourcc::Yuyv as u32;
    assert!(drm_fourcc::DrmFourcc::try_from(yuyv).is_ok());
    assert_eq!(map_format(yuyv), Err(ImportError::VulkanIncompatibleFormat));
    // a multi-planar YUV code behaves the same
    let nv12 = drm_fourcc::DrmFourcc::Nv12 as u32;
    assert_eq!(map_format(nv12), Err(ImportError::VulkanIncompatibleFormat));
}

#[test]
fn map_format_is_total_and_deterministic_over_the_table() {
    let table = [
        FOURCC_ABGR8888,
        FOURCC_XBGR8888,
        FOURCC_ARGB8888,
        FOURCC_XRGB8888,
        FOURCC_BGR888,
        FOURCC_R8,
        FOURCC_R16,
        FOURCC_RGB565,
        FOURCC_RGBA5551,
    ];
    for code in table {
        for want_srgb in [false, true] {
            let first = negotiate_format(code, want_srgb);
            let second = negotiate_format(code, want_srgb);
            assert!(first.is_ok());
            assert_eq!(first, second);
        }
    }
}

#[test]
fn apply_srgb_substitutes_the_sibling() {
    assert_eq!(apply_srgb(NativeFormat::R8G8B8A8Unorm, true), NativeFormat::R8G8B8A8Srgb);
    assert_eq!(apply_srgb(NativeFormat::B8G8R8A8Unorm, true), NativeFormat::B8G8R8A8Srgb);
    assert_eq!(apply_srgb(NativeFormat::R8Unorm, true), NativeFormat::R8Srgb);
}

#[test]
fn apply_srgb_without_request_changes_nothing() {
    assert_eq!(apply_srgb(NativeFormat::R8G8B8A8Unorm, false), NativeFormat::R8G8B8A8Unorm);
    assert_eq!(apply_srgb(NativeFormat::R16Unorm, false), NativeFormat::R16Unorm);
}

#[test]
fn apply_srgb_without_sibling_falls_back_silently() {
    assert_eq!(apply_srgb(NativeFormat::R16Unorm, true), NativeFormat::R16Unorm);
    assert_eq!(
        apply_srgb(NativeFormat::A2B10G10R10UnormPack32, true),
        NativeFormat::A2B10G10R10UnormPack32
    );
}

#[test]
fn renderer_format_equivalents() {
    assert_eq!(to_renderer_format(NativeFormat::R8G8B8A8Unorm), Ok(RendererFormat::Rgba8Unorm));
    assert_eq!(to_renderer_format(NativeFormat::R8G8B8A8Srgb), Ok(RendererFormat::Rgba8UnormSrgb));
    assert_eq!(to_renderer_format(NativeFormat::B8G8R8A8Unorm), Ok(RendererFormat::Bgra8Unorm));
    assert_eq!(
        to_renderer_format(NativeFormat::A2B10G10R10UnormPack32),
        Ok(RendererFormat::Rgb10a2Unorm)
    );
}

#[test]
fn renderer_format_missing_equivalent_fails() {
    assert_eq!(
        to_renderer_format(NativeFormat::B8G8R8Unorm),
        Err(ImportError::WgpuIncompatibleFormat)
    );
    assert_eq!(
        to_renderer_format(NativeFormat::R5G6B5UnormPack16),
        Err(ImportError::WgpuIncompatibleFormat)
    );
    assert_eq!(
        to_renderer_format(NativeFormat::R8Srgb),
        Err(ImportError::WgpuIncompatibleFormat)
    );
}

#[test]
fn vk_format_codes_match_ash() {
    assert_eq!(
        NativeFormat::R8G8B8A8Unorm.vk_format_code(),
        ash::vk::Format::R8G8B8A8_UNORM.as_raw()
    );
    assert_eq!(
        NativeFormat::R8G8B8A8Srgb.vk_format_code(),
        ash::vk::Format::R8G8B8A8_SRGB.as_raw()
    );
    assert_eq!(
        NativeFormat::B8G8R8A8Unorm.vk_format_code(),
        ash::vk::Format::B8G8R8A8_UNORM.as_raw()
    );
    assert_eq!(
        NativeFormat::B5G5R5A1UnormPack16.vk_format_code(),
        ash::vk::Format::B5G5R5A1_UNORM_PACK16.as_raw()
    );
    assert_eq!(
        NativeFormat::A2B10G10R10UnormPack32.vk_format_code(),
        ash::vk::Format::A2B10G10R10_UNORM_PACK32.as_raw()
    );
    assert_eq!(
        NativeFormat::A4B4G4R4UnormPack16.vk_format_code(),
        ash::vk::Format::A4B4G4R4_UNORM_PACK16.as_raw()
    );
    assert_eq!(NativeFormat::R16G16Unorm.vk_format_code(), ash::vk::Format::R16G16_UNORM.as_raw());
}

#[test]
fn error_messages_name_the_failure() {
    assert_eq!(
        ImportError::UnrecognizedFourcc(7).message(),
        "Unrecognized Fourcc/Format"
    );
    assert_eq!(
        ImportError::VulkanIncompatibleFormat.message(),
        "Format is not compatible with Vulkan"
    );
    assert_eq!(ImportError::NoPlanes.message(), "No Planes to Import");
}
