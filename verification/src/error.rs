//! The closed error taxonomy of the import pipeline.
//!
//! Every error is terminal for the attempted import and is never retried;
//! a later, independent import is unaffected by an earlier failure.

use vstd::prelude::*;

verus! {

/// Why an import attempt failed.
///
/// Device failures carry the raw result code that the device reported.
#[derive(Clone, Copy, Debug, PartialEq, Eq, Structural)]
pub enum ImportError {
    /// The format code is recognized but has no native format equivalent.
    VulkanIncompatibleFormat,
    /// The negotiated native format has no renderer-abstraction equivalent.
    WgpuIncompatibleFormat,
    /// The requested tiling modifier is not supported for the format.
    ModifierInvalid,
    /// The device failed to create the native image object.
    VulkanImageCreationFailed(i32),
    /// The four-character format code is not a recognized DRM format.
    UnrecognizedFourcc(u32),
    /// The supplied device is not backed by the expected native graphics API.
    NotVulkan,
    /// No memory type is both compatible with the resource and eligible
    /// for imported external memory.
    NoValidMemoryTypes,
    /// The device failed to import a plane's memory.
    VulkanMemoryAllocFailed(i32),
    /// The device failed to bind the imported memory to the image.
    VulkanImageMemoryBindFailed(i32),
    /// The plane count does not match the plane count the modifier defines.
    IncorrectNumberOfPlanes,
    /// The buffer supplied no planes at all.
    NoPlanes,
}

impl ImportError {
    /// A human-readable description of the error.
    pub fn message(&self) -> &'static str {
        match self {
            ImportError::VulkanIncompatibleFormat => "Format is not compatible with Vulkan",
            ImportError::WgpuIncompatibleFormat => "Format is not compatible with Wgpu",
            ImportError::ModifierInvalid => "Unsupported Modifier for Format",
            ImportError::VulkanImageCreationFailed(_) => "Unable to create Vulkan Image",
            ImportError::UnrecognizedFourcc(_) => "Unrecognized Fourcc/Format",
            ImportError::NotVulkan => "RenderDevice is not a Vulkan Device",
            ImportError::NoValidMemoryTypes => "Unable to find valid Gpu Memory type index",
            ImportError::VulkanMemoryAllocFailed(_) => "Unable to allocate Vulkan Gpu Memory",
            ImportError::VulkanImageMemoryBindFailed(_) => {
                "Unable to bind Vulkan Gpu Memory to Vulkan Image"
            },
            ImportError::IncorrectNumberOfPlanes => {
                "The number of DmaTex planes does not equal the number of planes defined by the drm modifier"
            },
            ImportError::NoPlanes => "No Planes to Import",
        }
    }
}

} // verus!
