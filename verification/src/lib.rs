//! Zero-copy import of externally-allocated, DMA-BUF backed GPU buffers.
//!
//! The crate covers the decision logic of the import pipeline: negotiating a
//! native image format from a DRM four-character format code and tiling
//! modifier, deciding between combined and disjoint plane memory, selecting
//! an eligible memory type for imported external memory, planning the native
//! image creation and per-plane memory binding, planning the queue-family
//! ownership-transfer barriers, and guarding the release of the imported
//! resources so it runs exactly once.
//!
//! The device itself (a Vulkan implementation reached through `ash`) executes
//! these plans; every device call is unsafe foreign code and lives with the
//! host application. The library receives the device's answers (modifier
//! lists, memory requirements, memory properties, raw handles) as plain
//! values and is verified for every possible answer.

pub mod dmatex;
pub mod error;
pub mod format;
pub mod guard;
pub mod import;
pub mod memory;
pub mod table;
pub mod transfer;
