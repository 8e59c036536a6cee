//! Format negotiation: from a DRM four-character format code to a native
//! (Vulkan) format, the optional sRGB-encoded sibling, and the
//! renderer-abstraction format.
//!
//! The support table is fixed: [`native_format_of`] is the reference lookup
//! table, [`srgb_sibling`] the sRGB sibling table, and [`renderer_format_of`]
//! the renderer equivalence table. An unmapped code fails; a missing sRGB
//! sibling silently falls back to the unmodified format, which is deliberate
//! policy rather than an error.

use vstd::prelude::*;

use crate::error::ImportError;

verus! {

// The DRM four-character format codes the support table maps, as the
// 32-bit values the producer hands over.
pub const FOURCC_ABGR1555: u32 = 0x35314241;
pub const FOURCC_XBGR1555: u32 = 0x35314258;
pub const FOURCC_ABGR2101010: u32 = 0x30334241;
pub const FOURCC_XBGR2101010: u32 = 0x30334258;
pub const FOURCC_ABGR4444: u32 = 0x32314241;
pub const FOURCC_XBGR4444: u32 = 0x32314258;
pub const FOURCC_ABGR8888: u32 = 0x34324241;
pub const FOURCC_XBGR8888: u32 = 0x34324258;
pub const FOURCC_ARGB1555: u32 = 0x35315241;
pub const FOURCC_XRGB1555: u32 = 0x35315258;
pub const FOURCC_ARGB2101010: u32 = 0x30335241;
pub const FOURCC_XRGB2101010: u32 = 0x30335258;
pub const FOURCC_ARGB4444: u32 = 0x32315241;
pub const FOURCC_XRGB4444: u32 = 0x32315258;
pub const FOURCC_ARGB8888: u32 = 0x34325241;
pub const FOURCC_XRGB8888: u32 = 0x34325258;
pub const FOURCC_BGR565: u32 = 0x36314742;
pub const FOURCC_BGR888: u32 = 0x34324742;
pub const FOURCC_BGR888_A8: u32 = 0x38413842;
pub const FOURCC_BGRA4444: u32 = 0x32314142;
pub const FOURCC_BGRX4444: u32 = 0x32315842;
pub const FOURCC_BGRA5551: u32 = 0x35314142;
pub const FOURCC_BGRX5551: u32 = 0x35315842;
pub const FOURCC_BGRA8888: u32 = 0x34324142;
pub const FOURCC_BGRX8888: u32 = 0x34325842;
pub const FOURCC_R16: u32 = 0x20363152;
pub const FOURCC_R8: u32 = 0x20203852;
pub const FOURCC_RG1616: u32 = 0x32334752;
pub const FOURCC_RG88: u32 = 0x38384752;
pub const FOURCC_RGB565: u32 = 0x36314752;
pub const FOURCC_RGB888: u32 = 0x34324752;
pub const FOURCC_RGB888_A8: u32 = 0x38413852;
pub const FOURCC_RGBA4444: u32 = 0x32314152;
pub const FOURCC_RGBX4444: u32 = 0x32315852;
pub const FOURCC_RGBA5551: u32 = 0x35314152;
pub const FOURCC_RGBX5551: u32 = 0x35315852;
pub const FOURCC_RGBA8888: u32 = 0x34324152;
pub const FOURCC_RGBX8888: u32 = 0x34325852;

/// A native (Vulkan) image format that the support table can negotiate.
#[derive(Clone, Copy, Debug, PartialEq, Eq, Structural)]
pub enum NativeFormat {
    R5G5B5A1UnormPack16,
    A2B10G10R10UnormPack32,
    A4B4G4R4UnormPack16,
    R8G8B8A8Unorm,
    A1R5G5B5UnormPack16,
    A2R10G10B10UnormPack32,
    B4G4R4A4UnormPack16,
    B8G8R8A8Unorm,
    B5G6R5UnormPack16,
    B8G8R8Unorm,
    B5G5R5A1UnormPack16,
    R16Unorm,
    R8Unorm,
    R16G16Unorm,
    R8G8Unorm,
    R5G6B5UnormPack16,
    R8G8B8Unorm,
    R4G4B4A4UnormPack16,
    R8Srgb,
    R8G8Srgb,
    R8G8B8Srgb,
    B8G8R8Srgb,
    R8G8B8A8Srgb,
    B8G8R8A8Srgb,
}

/// A renderer-abstraction (wgpu) texture format reachable from the
/// support table. Native formats without an entry here have no renderer
/// equivalent and must be rejected during negotiation.
#[derive(Clone, Copy, Debug, PartialEq, Eq, Structural)]
pub enum RendererFormat {
    R8Unorm,
    R16Unorm,
    Rg8Unorm,
    Rg16Unorm,
    Rgba8Unorm,
    Rgba8UnormSrgb,
    Bgra8Unorm,
    Bgra8UnormSrgb,
    Rgb10a2Unorm,
}

/// The fixed support table from DRM format codes to native formats.
pub open spec fn native_format_of(code: u32) -> Option<NativeFormat> {
    if code == FOURCC_ABGR1555 || code == FOURCC_XBGR1555 {
        Some(NativeFormat::R5G5B5A1UnormPack16)
    } else if code == FOURCC_ABGR2101010 || code == FOURCC_XBGR2101010 {
        Some(NativeFormat::A2B10G10R10UnormPack32)
    } else if code == FOURCC_ABGR4444 || code == FOURCC_XBGR4444 {
        Some(NativeFormat::A4B4G4R4UnormPack16)
    } else if code == FOURCC_ABGR8888 || code == FOURCC_XBGR8888 {
        Some(NativeFormat::R8G8B8A8Unorm)
    } else if code == FOURCC_ARGB1555 || code == FOURCC_XRGB1555 {
        Some(NativeFormat::A1R5G5B5UnormPack16)
    } else if code == FOURCC_ARGB2101010 || code == FOURCC_XRGB2101010 {
        Some(NativeFormat::A2R10G10B10UnormPack32)
    } else if code == FOURCC_ARGB4444 || code == FOURCC_XRGB4444 {
        Some(NativeFormat::B4G4R4A4UnormPack16)
    } else if code == FOURCC_ARGB8888 || code == FOURCC_XRGB8888 {
        Some(NativeFormat::B8G8R8A8Unorm)
    } else if code == FOURCC_BGR565 {
        Some(NativeFormat::B5G6R5UnormPack16)
    } else if code == FOURCC_BGR888 {
        Some(NativeFormat::B8G8R8Unorm)
    } else if code == FOURCC_BGR888_A8 {
        Some(NativeFormat::B8G8R8A8Unorm)
    } else if code == FOURCC_BGRA4444 || code == FOURCC_BGRX4444 {
        Some(NativeFormat::B4G4R4A4UnormPack16)
    } else if code == FOURCC_BGRA5551 || code == FOURCC_BGRX5551 {
        Some(NativeFormat::B5G5R5A1UnormPack16)
    } else if code == FOURCC_BGRA8888 || code == FOURCC_BGRX8888 {
        Some(NativeFormat::B8G8R8A8Unorm)
    } else if code == FOURCC_R16 {
        Some(NativeFormat::R16Unorm)
    } else if code == FOURCC_R8 {
        Some(NativeFormat::R8Unorm)
    } else if code == FOURCC_RG1616 {
        Some(NativeFormat::R16G16Unorm)
    } else if code == FOURCC_RG88 {
        Some(NativeFormat::R8G8Unorm)
    } else if code == FOURCC_RGB565 {
        Some(NativeFormat::R5G6B5UnormPack16)
    } else if code == FOURCC_RGB888 {
        Some(NativeFormat::R8G8B8Unorm)
    } else if code == FOURCC_RGB888_A8 {
        Some(NativeFormat::R8G8B8A8Unorm)
    } else if code == FOURCC_RGBA4444 || code == FOURCC_RGBX4444 {
        Some(NativeFormat::R4G4B4A4UnormPack16)
    } else if code == FOURCC_RGBA5551 || code == FOURCC_RGBX5551 {
        Some(NativeFormat::R5G5B5A1UnormPack16)
    } else if code == FOURCC_RGBA8888 || code == FOURCC_RGBX8888 {
        Some(NativeFormat::R8G8B8A8Unorm)
    } else {
        None
    }
}

/// Executable lookup in the support table.
fn native_format_lookup(code: u32) -> (r: Option<NativeFormat>)
    ensures
        r == native_format_of(code),
{
    if code == FOURCC_ABGR1555 || code == FOURCC_XBGR1555 {
        Some(NativeFormat::R5G5B5A1UnormPack16)
    } else if code == FOURCC_ABGR2101010 || code == FOURCC_XBGR2101010 {
        Some(NativeFormat::A2B10G10R10UnormPack32)
    } else if code == FOURCC_ABGR4444 || code == FOURCC_XBGR4444 {
        Some(NativeFormat::A4B4G4R4UnormPack16)
    } else if code == FOURCC_ABGR8888 || code == FOURCC_XBGR8888 {
        Some(NativeFormat::R8G8B8A8Unorm)
    } else if code == FOURCC_ARGB1555 || code == FOURCC_XRGB1555 {
        Some(NativeFormat::A1R5G5B5UnormPack16)
    } else if code == FOURCC_ARGB2101010 || code == FOURCC_XRGB2101010 {
        Some(NativeFormat::A2R10G10B10UnormPack32)
    } else if code == FOURCC_ARGB4444 || code == FOURCC_XRGB4444 {
        Some(NativeFormat::B4G4R4A4UnormPack16)
    } else if code == FOURCC_ARGB8888 || code == FOURCC_XRGB8888 {
        Some(NativeFormat::B8G8R8A8Unorm)
    } else if code == FOURCC_BGR565 {
        Some(NativeFormat::B5G6R5UnormPack16)
    } else if code == FOURCC_BGR888 {
        Some(NativeFormat::B8G8R8Unorm)
    } else if code == FOURCC_BGR888_A8 {
        Some(NativeFormat::B8G8R8A8Unorm)
    } else if code == FOURCC_BGRA4444 || code == FOURCC_BGRX4444 {
        Some(NativeFormat::B4G4R4A4UnormPack16)
    } else if code == FOURCC_BGRA5551 || code == FOURCC_BGRX5551 {
        Some(NativeFormat::B5G5R5A1UnormPack16)
    } else if code == FOURCC_BGRA8888 || code == FOURCC_BGRX8888 {
        Some(NativeFormat::B8G8R8A8Unorm)
    } else if code == FOURCC_R16 {
        Some(NativeFormat::R16Unorm)
    } else if code == FOURCC_R8 {
        Some(NativeFormat::R8Unorm)
    } else if code == FOURCC_RG1616 {
        Some(NativeFormat::R16G16Unorm)
    } else if code == FOURCC_RG88 {
        Some(NativeFormat::R8G8Unorm)
    } else if code == FOURCC_RGB565 {
        Some(NativeFormat::R5G6B5UnormPack16)
    } else if code == FOURCC_RGB888 {
        Some(NativeFormat::R8G8B8Unorm)
    } else if code == FOURCC_RGB888_A8 {
        Some(NativeFormat::R8G8B8A8Unorm)
    } else if code == FOURCC_RGBA4444 || code == FOURCC_RGBX4444 {
        Some(NativeFormat::R4G4B4A4UnormPack16)
    } else if code == FOURCC_RGBA5551 || code == FOURCC_RGBX5551 {
        Some(NativeFormat::R5G5B5A1UnormPack16)
    } else if code == FOURCC_RGBA8888 || code == FOURCC_RGBX8888 {
        Some(NativeFormat::R8G8B8A8Unorm)
    } else {
        None
    }
}

/// Whether a 32-bit value is one of the DRM four-character format codes
/// that the `drm_fourcc` crate recognizes.
pub uninterp spec fn fourcc_known(code: u32) -> bool;

/// Relies on `drm_fourcc::DrmFourcc::try_from(u32)`: it returns `Ok` exactly
/// when the value is one of the recognized DRM format codes (its `from_u32`
/// table), and the recognized set is a fixed function of the value alone.
#[verifier::external_body]
fn fourcc_recognized(code: u32) -> (r: bool)
    ensures
        r == fourcc_known(code),
{
    drm_fourcc::DrmFourcc::try_from(code).is_ok()
}

/// What mapping a format code must return: the table entry if there is one;
/// otherwise the format error that tells a recognized code apart from an
/// unrecognized one.
pub open spec fn map_format_spec(code: u32) -> Result<NativeFormat, ImportError> {
    match native_format_of(code) {
        Some(f) => Ok(f),
        None => if fourcc_known(code) {
            Err(ImportError::VulkanIncompatibleFormat)
        } else {
            Err(ImportError::UnrecognizedFourcc(code))
        },
    }
}

/// Maps a DRM four-character format code to its native format.
///
/// A code outside the support table fails: with
/// [`ImportError::UnrecognizedFourcc`] when it is no DRM format code at all,
/// and with [`ImportError::VulkanIncompatibleFormat`] when it is recognized
/// but has no native equivalent.
pub fn map_format(code: u32) -> (r: Result<NativeFormat, ImportError>)
    ensures
        r == map_format_spec(code),
{
    match native_format_lookup(code) {
        Some(f) => Ok(f),
        None => {
            if fourcc_recognized(code) {
                Err(ImportError::VulkanIncompatibleFormat)
            } else {
                Err(ImportError::UnrecognizedFourcc(code))
            }
        },
    }
}

/// The fixed sibling table from a native format to its sRGB-encoded
/// sibling, where one exists.
pub open spec fn srgb_sibling(f: NativeFormat) -> Option<NativeFormat> {
    match f {
        NativeFormat::R8Unorm => Some(NativeFormat::R8Srgb),
        NativeFormat::R8G8Unorm => Some(NativeFormat::R8G8Srgb),
        NativeFormat::R8G8B8Unorm => Some(NativeFormat::R8G8B8Srgb),
        NativeFormat::B8G8R8Unorm => Some(NativeFormat::B8G8R8Srgb),
        NativeFormat::R8G8B8A8Unorm => Some(NativeFormat::R8G8B8A8Srgb),
        NativeFormat::B8G8R8A8Unorm => Some(NativeFormat::B8G8R8A8Srgb),
        _ => None,
    }
}

/// What the sRGB policy must return: the sibling when one is wanted and
/// exists, and the input unchanged otherwise.
pub open spec fn apply_srgb_spec(f: NativeFormat, want_srgb: bool) -> NativeFormat {
    if want_srgb {
        match srgb_sibling(f) {
            Some(s) => s,
            None => f,
        }
    } else {
        f
    }
}

/// Substitutes the sRGB-encoded sibling of a native format when one is
/// requested and exists; otherwise returns the format unchanged. The silent
/// fallback is deliberate policy, not an error.
pub fn apply_srgb(f: NativeFormat, want_srgb: bool) -> (r: NativeFormat)
    ensures
        r == apply_srgb_spec(f, want_srgb),
{
    if want_srgb {
        match f {
            NativeFormat::R8Unorm => NativeFormat::R8Srgb,
            NativeFormat::R8G8Unorm => NativeFormat::R8G8Srgb,
            NativeFormat::R8G8B8Unorm => NativeFormat::R8G8B8Srgb,
            NativeFormat::B8G8R8Unorm => NativeFormat::B8G8R8Srgb,
            NativeFormat::R8G8B8A8Unorm => NativeFormat::R8G8B8A8Srgb,
            NativeFormat::B8G8R8A8Unorm => NativeFormat::B8G8R8A8Srgb,
            _ => f,
        }
    } else {
        f
    }
}

/// What full format negotiation must return: the mapped format with the
/// sRGB policy applied, or the mapping error.
pub open spec fn negotiated_format_spec(code: u32, want_srgb: bool) -> Result<
    NativeFormat,
    ImportError,
> {
    match map_format_spec(code) {
        Ok(f) => Ok(apply_srgb_spec(f, want_srgb)),
        Err(e) => Err(e),
    }
}

/// Negotiates the native format for a buffer: maps the format code and then
/// applies the sRGB policy.
pub fn negotiate_format(code: u32, want_srgb: bool) -> (r: Result<NativeFormat, ImportError>)
    ensures
        r == negotiated_format_spec(code, want_srgb),
{
    match map_format(code) {
        Ok(f) => Ok(apply_srgb(f, want_srgb)),
        Err(e) => Err(e),
    }
}

/// The raw value of each native format in the Vulkan format enumeration.
pub open spec fn vk_format_code_spec(f: NativeFormat) -> i32 {
    match f {
        NativeFormat::R4G4B4A4UnormPack16 => 2,
        NativeFormat::B4G4R4A4UnormPack16 => 3,
        NativeFormat::R5G6B5UnormPack16 => 4,
        NativeFormat::B5G6R5UnormPack16 => 5,
        NativeFormat::R5G5B5A1UnormPack16 => 6,
        NativeFormat::B5G5R5A1UnormPack16 => 7,
        NativeFormat::A1R5G5B5UnormPack16 => 8,
        NativeFormat::R8Unorm => 9,
        NativeFormat::R8Srgb => 15,
        NativeFormat::R8G8Unorm => 16,
        NativeFormat::R8G8Srgb => 22,
        NativeFormat::R8G8B8Unorm => 23,
        NativeFormat::R8G8B8Srgb => 29,
        NativeFormat::B8G8R8Unorm => 30,
        NativeFormat::B8G8R8Srgb => 36,
        NativeFormat::R8G8B8A8Unorm => 37,
        NativeFormat::R8G8B8A8Srgb => 43,
        NativeFormat::B8G8R8A8Unorm => 44,
        NativeFormat::B8G8R8A8Srgb => 50,
        NativeFormat::A2R10G10B10UnormPack32 => 58,
        NativeFormat::A2B10G10R10UnormPack32 => 64,
        NativeFormat::R16Unorm => 70,
        NativeFormat::R16G16Unorm => 77,
        NativeFormat::A4B4G4R4UnormPack16 => 1_000_340_001,
    }
}

impl NativeFormat {
    /// The raw value this format carries in the Vulkan format enumeration,
    /// for handing the negotiated format to the device.
    pub fn vk_format_code(&self) -> (r: i32)
        ensures
            r == vk_format_code_spec(*self),
    {
        match self {
            NativeFormat::R4G4B4A4UnormPack16 => 2,
            NativeFormat::B4G4R4A4UnormPack16 => 3,
            NativeFormat::R5G6B5UnormPack16 => 4,
            NativeFormat::B5G6R5UnormPack16 => 5,
            NativeFormat::R5G5B5A1UnormPack16 => 6,
            NativeFormat::B5G5R5A1UnormPack16 => 7,
            NativeFormat::A1R5G5B5UnormPack16 => 8,
            NativeFormat::R8Unorm => 9,
            NativeFormat::R8Srgb => 15,
            NativeFormat::R8G8Unorm => 16,
            NativeFormat::R8G8Srgb => 22,
            NativeFormat::R8G8B8Unorm => 23,
            NativeFormat::R8G8B8Srgb => 29,
            NativeFormat::B8G8R8Unorm => 30,
            NativeFormat::B8G8R8Srgb => 36,
            NativeFormat::R8G8B8A8Unorm => 37,
            NativeFormat::R8G8B8A8Srgb => 43,
            NativeFormat::B8G8R8A8Unorm => 44,
            NativeFormat::B8G8R8A8Srgb => 50,
            NativeFormat::A2R10G10B10UnormPack32 => 58,
            NativeFormat::A2B10G10R10UnormPack32 => 64,
            NativeFormat::R16Unorm => 70,
            NativeFormat::R16G16Unorm => 77,
            NativeFormat::A4B4G4R4UnormPack16 => 1_000_340_001,
        }
    }
}

/// The fixed equivalence table from native formats to renderer-abstraction
/// formats. Native formats without an entry have no renderer equivalent.
pub open spec fn renderer_format_of(f: NativeFormat) -> Option<RendererFormat> {
    match f {
        NativeFormat::R8Unorm => Some(RendererFormat::R8Unorm),
        NativeFormat::R16Unorm => Some(RendererFormat::R16Unorm),
        NativeFormat::R8G8Unorm => Some(RendererFormat::Rg8Unorm),
        NativeFormat::R16G16Unorm => Some(RendererFormat::Rg16Unorm),
        NativeFormat::R8G8B8A8Unorm => Some(RendererFormat::Rgba8Unorm),
        NativeFormat::R8G8B8A8Srgb => Some(RendererFormat::Rgba8UnormSrgb),
        NativeFormat::B8G8R8A8Unorm => Some(RendererFormat::Bgra8Unorm),
        NativeFormat::B8G8R8A8Srgb => Some(RendererFormat::Bgra8UnormSrgb),
        NativeFormat::A2B10G10R10UnormPack32 => Some(RendererFormat::Rgb10a2Unorm),
        _ => None,
    }
}

/// Maps a native format to the renderer-abstraction format, failing with
/// [`ImportError::WgpuIncompatibleFormat`] where no equivalent exists, so
/// that an incompatible buffer is rejected here rather than downstream.
pub fn to_renderer_format(f: NativeFormat) -> (r: Result<RendererFormat, ImportError>)
    ensures
        r matches Ok(w) ==> renderer_format_of(f) == Some(w),
        r is Err ==> renderer_format_of(f) is None && r == Err::<RendererFormat, ImportError>(
            ImportError::WgpuIncompatibleFormat,
        ),
{
    match f {
        NativeFormat::R8Unorm => Ok(RendererFormat::R8Unorm),
        NativeFormat::R16Unorm => Ok(RendererFormat::R16Unorm),
        NativeFormat::R8G8Unorm => Ok(RendererFormat::Rg8Unorm),
        NativeFormat::R16G16Unorm => Ok(RendererFormat::Rg16Unorm),
        NativeFormat::R8G8B8A8Unorm => Ok(RendererFormat::Rgba8Unorm),
        NativeFormat::R8G8B8A8Srgb => Ok(RendererFormat::Rgba8UnormSrgb),
        NativeFormat::B8G8R8A8Unorm => Ok(RendererFormat::Bgra8Unorm),
        NativeFormat::B8G8R8A8Srgb => Ok(RendererFormat::Bgra8UnormSrgb),
        NativeFormat::A2B10G10R10UnormPack32 => Ok(RendererFormat::Rgb10a2Unorm),
        _ => Err(ImportError::WgpuIncompatibleFormat),
    }
}

/// Law: for every format code in the support table, negotiation is total
/// and deterministic. Mapping the code succeeds with the table's entry, and
/// applying the sRGB policy yields, for either flag value, the unique format
/// that the sibling table defines.
pub proof fn lemma_format_negotiation_total(code: u32, want_srgb: bool)
    requires
        native_format_of(code) is Some,
    ensures
        map_format_spec(code) == Ok::<NativeFormat, ImportError>(native_format_of(code)->Some_0),
        negotiated_format_spec(code, want_srgb) == Ok::<NativeFormat, ImportError>(
            apply_srgb_spec(native_format_of(code)->Some_0, want_srgb),
        ),
{
}

} // verus!

