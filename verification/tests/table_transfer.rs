//! The image table, the ownership-transfer barriers over it, and the
//! release guard.

use dmatex::dmatex::{Dmatex, DmatexPlane, DmatexUsage, Resolution};
use dmatex::error::ImportError;
use dmatex::format::{RendererFormat, FOURCC_ABGR8888};
use dmatex::guard::{DropCallback, ReleasePlan};
use dmatex::import::ImportedTexture;
use dmatex::table::ImportedDmatexs;
use dmatex::transfer::{
    plan_barriers, ImageQueueTransfer, ACCESS_NONE, IMAGE_LAYOUT_GENERAL,
    PIPELINE_STAGE_BOTTOM_OF_PIPE, PIPELINE_STAGE_TOP_OF_PIPE, QUEUE_FAMILY_EXTERNAL,
};

fn sample_buffer(fd: i32) -> Dmatex {
    Dmatex {
        planes: vec![DmatexPlane { dmabuf_fd: fd, offset: 0, stride: 256 }],
        res: Resolution { x: 64, y: 64 },
        fourcc: FOURCC_ABGR8888,
        modifier: 0,
        srgb: false,
    }
}

fn sample_texture(handle: u64) -> ImportedTexture {
    ImportedTexture {
        texture: handle,
        texture_view: handle + 1,
        width: 64,
        height: 64,
        format: RendererFormat::Rgba8Unorm,
        usage: DmatexUsage::Sampling,
    }
}

#[test]
fn transfer_constants_match_ash() {
    assert_eq!(QUEUE_FAMILY_EXTERNAL, ash::vk::QUEUE_FAMILY_EXTERNAL);
    assert_eq!(
        PIPELINE_STAGE_TOP_OF_PIPE,
        ash::vk::PipelineStageFlags::TOP_OF_PIPE.as_raw()
    );
    assert_eq!(
        PIPELINE_STAGE_BOTTOM_OF_PIPE,
        ash::vk::PipelineStageFlags::BOTTOM_OF_PIPE.as_raw()
    );
    assert_eq!(ACCESS_NONE, ash::vk::AccessFlags::NONE.as_raw());
    assert_eq!(IMAGE_LAYOUT_GENERAL, ash::vk::ImageLayout::GENERAL.as_raw());
}

#[test]
fn acquire_then_release_on_empty_table_is_a_noop() {
    let table = ImportedDmatexs::new();
    let acquire = plan_barriers(&table, ImageQueueTransfer::Acquire, 3);
    assert!(acquire.is_empty());
    let release = plan_barriers(&table, ImageQueueTransfer::Release, 3);
    assert!(release.is_empty());
    // planning changed nothing: the table is still empty
    assert_eq!(table.len(), 0);
}

#[test]
fn pending_images_get_no_barrier() {
    let mut table = ImportedDmatexs::new();
    table.set(1, sample_buffer(10), DmatexUsage::Sampling);
    let barriers = plan_barriers(&table, ImageQueueTransfer::Acquire, 3);
    assert!(barriers.is_empty());
}

#[test]
fn one_barrier_per_imported_image_with_the_right_families() {
    let mut table = ImportedDmatexs::new();
    table.insert_imported_dmatex(1, sample_texture(100));
    table.set(2, sample_buffer(10), DmatexUsage::Sampling);
    table.insert_imported_dmatex(3, sample_texture(300));

    let local = 5u32;
    let acquire = plan_barriers(&table, ImageQueueTransfer::Acquire, local);
    assert_eq!(acquire.len(), 2);
    for b in &acquire {
        assert_eq!(b.src_queue_family, QUEUE_FAMILY_EXTERNAL);
        assert_eq!(b.dst_queue_family, local);
        assert_eq!(b.src_stage_mask, PIPELINE_STAGE_TOP_OF_PIPE);
        assert_eq!(b.dst_stage_mask, PIPELINE_STAGE_BOTTOM_OF_PIPE);
        assert_eq!(b.src_access_mask, ACCESS_NONE);
        assert_eq!(b.dst_access_mask, ACCESS_NONE);
        assert_eq!(b.old_layout, IMAGE_LAYOUT_GENERAL);
        assert_eq!(b.new_layout, IMAGE_LAYOUT_GENERAL);
    }
    assert_eq!(acquire[0].image, 100);
    assert_eq!(acquire[1].image, 300);

    let release = plan_barriers(&table, ImageQueueTransfer::Release, local);
    assert_eq!(release.len(), 2);
    for b in &release {
        assert_eq!(b.src_queue_family, local);
        assert_eq!(b.dst_queue_family, QUEUE_FAMILY_EXTERNAL);
    }
}

#[test]
fn failed_import_does_not_latch_across_attempts() {
    let mut table = ImportedDmatexs::new();

    // one import fails: its entry goes away, nothing else changes
    table.set(1, sample_buffer(10), DmatexUsage::Sampling);
    let r = table.resolve(1, Err(ImportError::NoValidMemoryTypes));
    assert_eq!(r, Err(ImportError::NoValidMemoryTypes));
    assert!(!table.contains(1));
    assert_eq!(table.len(), 0);

    // two later, independent imports succeed normally
    table.set(2, sample_buffer(20), DmatexUsage::Sampling);
    table.set(3, sample_buffer(30), DmatexUsage::Sampling);
    assert_eq!(table.resolve(2, Ok(sample_texture(200))), Ok(()));
    assert_eq!(table.resolve(3, Ok(sample_texture(300))), Ok(()));
    assert_eq!(table.imported_texture(2).map(|t| t.texture), Some(200));
    assert_eq!(table.imported_texture(3).map(|t| t.texture), Some(300));
    assert_eq!(table.len(), 2);
}

#[test]
fn table_replaces_state_under_the_same_id() {
    let mut table = ImportedDmatexs::new();
    table.set(7, sample_buffer(10), DmatexUsage::Sampling);
    assert!(table.contains(7));
    assert_eq!(table.imported_texture(7), None);
    table.insert_imported_dmatex(7, sample_texture(700));
    assert_eq!(table.len(), 1);
    assert_eq!(table.imported_texture(7).map(|t| t.texture), Some(700));
    table.remove(7);
    assert!(!table.contains(7));
    assert_eq!(table.len(), 0);
}

#[test]
fn release_guard_yields_its_plan_exactly_once() {
    let plan = ReleasePlan { memories: vec![100, 200], image: 300 };
    let mut guard = DropCallback::new(plan.clone());
    let first = guard.take();
    assert_eq!(first, Some(plan));
    let second = guard.take();
    assert_eq!(second, None);

    let mut unarmed = DropCallback::empty();
    assert_eq!(unarmed.take(), None);
}
