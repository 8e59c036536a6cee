//! The buffer descriptor handed over by an external producer.
//!
//! A [`Dmatex`] describes one externally-allocated buffer: an ordered,
//! non-empty sequence of memory planes, a resolution, a four-character
//! pixel-format code with a 64-bit tiling modifier, and an sRGB flag.
//! It is constructed once by the producer and consumed exactly once by the
//! import pipeline; ownership of every plane's file descriptor moves into
//! the import call.

use vstd::prelude::*;

verus! {

/// Width and height of the buffer, in pixels.
#[derive(Debug, Copy, Clone, Eq, PartialEq, Structural)]
pub struct Resolution {
    pub x: u32,
    pub y: u32,
}

/// One memory plane of a buffer: the raw file descriptor that owns the
/// plane's memory, the byte offset of the plane within it, and the row
/// stride in bytes.
///
/// The descriptor value is owned exclusively by the buffer until the plane
/// is imported; importing it passes ownership to the driver.
#[derive(Debug, Copy, Clone, Eq, PartialEq, Structural)]
pub struct DmatexPlane {
    pub dmabuf_fd: i32,
    pub offset: u32,
    pub stride: i32,
}

/// A DMA-BUF backed texture descriptor.
#[derive(Debug)]
pub struct Dmatex {
    pub planes: Vec<DmatexPlane>,
    pub res: Resolution,
    /// The DRM four-character format code.
    pub fourcc: u32,
    /// The DRM tiling modifier the planes were allocated with.
    pub modifier: u64,
    /// If the format has an sRGB-encoded sibling, use that.
    pub srgb: bool,
}

/// The mathematical value of a [`Dmatex`].
pub struct DmatexView {
    pub planes: Seq<DmatexPlane>,
    pub res: Resolution,
    pub fourcc: u32,
    pub modifier: u64,
    pub srgb: bool,
}

impl View for Dmatex {
    type V = DmatexView;

    open spec fn view(&self) -> DmatexView {
        DmatexView {
            planes: self.planes@,
            res: self.res,
            fourcc: self.fourcc,
            modifier: self.modifier,
            srgb: self.srgb,
        }
    }
}

/// How the host intends to use the imported texture; selects which
/// texture-usage flags are requested on the created image and view.
#[derive(Clone, Copy, Debug, PartialEq, Eq, Structural)]
pub enum DmatexUsage {
    /// The texture is sampled by the renderer.
    Sampling,
    /// The renderer draws into the texture.
    RenderTarget,
}

} // verus!
