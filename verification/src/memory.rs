//! Memory-type selection and per-plane allocation planning.
//!
//! Each plane of an imported buffer becomes one device memory allocation.
//! The device reports, per plane, a required byte size, a bitmask of
//! compatible memory-type indices, and whether it mandates a dedicated
//! allocation. The library selects the lowest compatible memory-type index
//! whose property flags avoid the forbidden set: classes of device memory
//! (protected, lazily allocated, and similar device-local-only classes)
//! that are unsuitable for imported external memory.

use vstd::prelude::*;

use crate::error::ImportError;

verus! {

/// Memory that the driver allocates only when it is required.
pub const MEMORY_PROPERTY_LAZILY_ALLOCATED: u32 = 0x10;

/// Protected memory.
pub const MEMORY_PROPERTY_PROTECTED: u32 = 0x20;

/// Device-coherent memory (an AMD extension).
pub const MEMORY_PROPERTY_DEVICE_COHERENT_AMD: u32 = 0x40;

/// Memory capable of remote direct memory access (an NV extension).
pub const MEMORY_PROPERTY_RDMA_CAPABLE_NV: u32 = 0x100;

/// Property flags that disqualify a memory type from backing imported
/// external memory.
pub const FORBIDDEN_MEMORY_FLAGS: u32 = MEMORY_PROPERTY_LAZILY_ALLOCATED
    | MEMORY_PROPERTY_PROTECTED | MEMORY_PROPERTY_DEVICE_COHERENT_AMD
    | MEMORY_PROPERTY_RDMA_CAPABLE_NV;

/// What the device reported about one plane's memory needs: the required
/// byte size, the bitmask of compatible memory-type indices, and whether a
/// dedicated (single-resource) allocation is mandated.
#[derive(Clone, Copy, Debug, PartialEq, Eq, Structural)]
pub struct MemoryRequirementsInfo {
    pub size: u64,
    pub memory_type_bits: u32,
    pub requires_dedicated: bool,
}

/// Whether memory type `i` may back an imported plane: its bit is set in
/// the compatibility bitmask and its property flags avoid the forbidden set.
pub open spec fn eligible_memory_type(type_bits: u32, property_flags: Seq<u32>, i: int) -> bool {
    &&& 0 <= i < property_flags.len()
    &&& i < 32
    &&& type_bits & (1u32 << i as u32) != 0
    &&& property_flags[i] & FORBIDDEN_MEMORY_FLAGS == 0
}

/// Selects the memory type for an imported plane: the lowest index whose
/// bit is set in the compatibility bitmask and whose property flags do not
/// intersect [`FORBIDDEN_MEMORY_FLAGS`]. Returns `None` when no index is
/// eligible. The selected index never carries a forbidden property flag,
/// whatever the bitmask.
pub fn select_memory_type(type_bits: u32, property_flags: &Vec<u32>) -> (r: Option<u32>)
    ensures
        r matches Some(i) ==> {
            &&& eligible_memory_type(type_bits, property_flags@, i as int)
            &&& property_flags@[i as int] & FORBIDDEN_MEMORY_FLAGS == 0
            &&& forall|j: int|
                0 <= j < i ==> !eligible_memory_type(type_bits, property_flags@, j)
        },
        r is None ==> forall|j: int| !eligible_memory_type(type_bits, property_flags@, j),
{
    let n = property_flags.len();
    let mut i: usize = 0;
    while i < n
        invariant
            n == property_flags@.len(),
            i <= n,
            forall|j: int| 0 <= j < i ==> !eligible_memory_type(type_bits, property_flags@, j),
        decreases n - i,
    {
        if i < 32 {
            let bit: u32 = 1u32 << (i as u32);
            if type_bits & bit != 0 && property_flags[i] & FORBIDDEN_MEMORY_FLAGS == 0 {
                return Some(i as u32);
            }
        }
        i += 1;
    }
    None
}

/// One plane's allocation plan: import the plane's file descriptor as
/// device memory of the selected type and the required size; a mandated
/// dedicated allocation is tied to the target image.
#[derive(Clone, Copy, Debug, PartialEq, Eq, Structural)]
pub struct AllocationPlan {
    /// The file descriptor whose ownership moves to the driver.
    pub fd: i32,
    /// The allocation size in bytes, as the device required.
    pub size: u64,
    /// The selected memory-type index.
    pub memory_type_index: u32,
    /// Whether the allocation must be dedicated to the target image.
    pub dedicated: bool,
}

/// Plans one plane's memory import: selects an eligible memory type for the
/// reported requirements and fixes size, descriptor and dedication. Fails
/// with [`ImportError::NoValidMemoryTypes`] exactly when no memory type is
/// eligible.
pub fn plan_plane_allocation(
    fd: i32,
    req: &MemoryRequirementsInfo,
    property_flags: &Vec<u32>,
) -> (r: Result<AllocationPlan, ImportError>)
    ensures
        r matches Ok(plan) ==> {
            &&& plan.fd == fd
            &&& plan.size == req.size
            &&& plan.dedicated == req.requires_dedicated
            &&& eligible_memory_type(
                req.memory_type_bits,
                property_flags@,
                plan.memory_type_index as int,
            )
            &&& forall|j: int|
                0 <= j < plan.memory_type_index ==> !eligible_memory_type(
                    req.memory_type_bits,
                    property_flags@,
                    j,
                )
        },
        r is Err ==> r == Err::<AllocationPlan, ImportError>(ImportError::NoValidMemoryTypes)
            && forall|j: int| !eligible_memory_type(req.memory_type_bits, property_flags@, j),
{
    match select_memory_type(req.memory_type_bits, property_flags) {
        Some(idx) => Ok(
            AllocationPlan {
                fd,
                size: req.size,
                memory_type_index: idx,
                dedicated: req.requires_dedicated,
            },
        ),
        None => Err(ImportError::NoValidMemoryTypes),
    }
}

} // verus!
