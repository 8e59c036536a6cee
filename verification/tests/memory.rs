//! Memory-type selection, checked against the flag values of the real
//! `ash` crate.

use dmatex::error::ImportError;
use dmatex::memory::{
    plan_plane_allocation, select_memory_type, MemoryRequirementsInfo, FORBIDDEN_MEMORY_FLAGS,
    MEMORY_PROPERTY_DEVICE_COHERENT_AMD, MEMORY_PROPERTY_LAZILY_ALLOCATED,
    MEMORY_PROPERTY_PROTECTED, MEMORY_PROPERTY_RDMA_CAPABLE_NV,
};

#[test]
fn forbidden_flags_match_ash() {
    assert_eq!(
        MEMORY_PROPERTY_LAZILY_ALLOCATED,
        ash::vk::MemoryPropertyFlags::LAZILY_ALLOCATED.as_raw()
    );
    assert_eq!(MEMORY_PROPERTY_PROTECTED, ash::vk::MemoryPropertyFlags::PROTECTED.as_raw());
    assert_eq!(
        MEMORY_PROPERTY_DEVICE_COHERENT_AMD,
        ash::vk::MemoryPropertyFlags::DEVICE_COHERENT_AMD.as_raw()
    );
    assert_eq!(
        MEMORY_PROPERTY_RDMA_CAPABLE_NV,
        ash::vk::MemoryPropertyFlags::RDMA_CAPABLE_NV.as_raw()
    );
}

#[test]
fn selection_takes_the_lowest_compatible_index() {
    let device_local = ash::vk::MemoryPropertyFlags::DEVICE_LOCAL.as_raw();
    let host_visible = ash::vk::MemoryPropertyFlags::HOST_VISIBLE.as_raw();
    let flags = vec![device_local, host_visible, device_local];
    assert_eq!(select_memory_type(0b111, &flags), Some(0));
    assert_eq!(select_memory_type(0b110, &flags), Some(1));
    assert_eq!(select_memory_type(0b100, &flags), Some(2));
}

#[test]
fn selection_skips_indices_outside_the_bitmask() {
    let flags = vec![0u32, 0u32, 0u32];
    assert_eq!(select_memory_type(0b010, &flags), Some(1));
    assert_eq!(select_memory_type(0, &flags), None);
}

#[test]
fn selection_never_returns_a_forbidden_type() {
    let device_local = ash::vk::MemoryPropertyFlags::DEVICE_LOCAL.as_raw();
    // walk every bitmask over four memory types whose flags alternate
    // between forbidden and allowed, and check the forbidden ones never win
    let flags = vec![
        MEMORY_PROPERTY_PROTECTED,
        device_local,
        MEMORY_PROPERTY_LAZILY_ALLOCATED | device_local,
        MEMORY_PROPERTY_RDMA_CAPABLE_NV,
    ];
    for bits in 0u32..16u32 {
        match select_memory_type(bits, &flags) {
            Some(i) => {
                assert_eq!(flags[i as usize] & FORBIDDEN_MEMORY_FLAGS, 0);
                assert!(bits & (1 << i) != 0);
            }
            None => {
                // only the allowed index was outside the mask
                assert_eq!(bits & 0b10, 0);
            }
        }
    }
}

#[test]
fn selection_with_only_forbidden_types_fails() {
    let flags = vec![
        MEMORY_PROPERTY_PROTECTED,
        MEMORY_PROPERTY_LAZILY_ALLOCATED,
        MEMORY_PROPERTY_DEVICE_COHERENT_AMD,
        MEMORY_PROPERTY_RDMA_CAPABLE_NV,
    ];
    assert_eq!(select_memory_type(0b1111, &flags), None);
}

#[test]
fn plane_allocation_takes_size_and_dedication_from_the_requirements() {
    let flags = vec![0u32, 0u32];
    let req = MemoryRequirementsInfo {
        size: 65536,
        memory_type_bits: 0b10,
        requires_dedicated: true,
    };
    let plan = plan_plane_allocation(17, &req, &flags).unwrap();
    assert_eq!(plan.fd, 17);
    assert_eq!(plan.size, 65536);
    assert_eq!(plan.memory_type_index, 1);
    assert!(plan.dedicated);
}

#[test]
fn plane_allocation_without_eligible_type_fails() {
    let flags = vec![MEMORY_PROPERTY_PROTECTED];
    let req = MemoryRequirementsInfo {
        size: 4096,
        memory_type_bits: 0b1,
        requires_dedicated: false,
    };
    assert_eq!(plan_plane_allocation(3, &req, &flags), Err(ImportError::NoValidMemoryTypes));
}
