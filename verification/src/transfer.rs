//! Queue-family ownership transfer.
//!
//! An imported image is logically owned either by the external producer
//! (the foreign queue) or by the local render queue. Before the renderer
//! first touches a batch of imported images it must acquire them; after it
//! is done, and before the buffers are handed back to the producer, it
//! must release them. Both transitions are one pipeline barrier per
//! currently-imported image, recorded into a one-shot command buffer and
//! waited for synchronously on a timeline semaphore. This module plans
//! those barriers; executing the command buffer is the device's part.

use vstd::prelude::*;

use crate::table::{imported_textures_of, ImportedDmatexs, TableEntry};

verus! {

/// The queue family index that stands for the external (foreign) owner in
/// an ownership-transfer barrier.
pub const QUEUE_FAMILY_EXTERNAL: u32 = 0xFFFF_FFFE;

/// Earliest pipeline stage: the barrier waits for nothing.
pub const PIPELINE_STAGE_TOP_OF_PIPE: u32 = 0x1;

/// Latest pipeline stage: nothing waits for the barrier.
pub const PIPELINE_STAGE_BOTTOM_OF_PIPE: u32 = 0x2000;

/// No memory access is required on either side of the barrier.
pub const ACCESS_NONE: u32 = 0;

/// The `GENERAL` image layout; the transfer keeps the layout unchanged.
pub const IMAGE_LAYOUT_GENERAL: i32 = 1;

/// Which way ownership moves.
#[derive(Clone, Copy, Debug, PartialEq, Eq, Structural)]
pub enum ImageQueueTransfer {
    /// External producer to local render queue, before first local use.
    Acquire,
    /// Local render queue back to the external producer.
    Release,
}

/// The per-frame phases of the render-side protocol, in the order they
/// must run: newly imported images are published first, then the batch is
/// acquired before any rendering reads it, and released again when the
/// frame's work is done.
#[derive(Clone, Copy, Debug, PartialEq, Eq, Hash, Structural)]
pub enum DmatexRenderSystemSet {
    InsertIntoGpuImages,
    AcquireDmatexs,
    ReleaseDmatexs,
}

/// One ownership-transfer pipeline barrier, ready to record: full stage
/// scope, no access requirement, `GENERAL` layout on both sides, and the
/// queue-family pair that encodes the transfer direction.
#[derive(Clone, Copy, Debug, PartialEq, Eq, Structural)]
pub struct BarrierPlan {
    /// The raw handle of the imported image's texture.
    pub image: u64,
    pub src_queue_family: u32,
    pub dst_queue_family: u32,
    pub src_stage_mask: u32,
    pub dst_stage_mask: u32,
    pub src_access_mask: u32,
    pub dst_access_mask: u32,
    pub old_layout: i32,
    pub new_layout: i32,
}

/// The one barrier an image needs for a transfer direction: ownership
/// moves from the foreign queue family to the local one on acquire, and
/// back on release; everything else is fixed by the protocol.
pub open spec fn barrier_spec(
    image: u64,
    direction: ImageQueueTransfer,
    local_queue_family: u32,
) -> BarrierPlan {
    BarrierPlan {
        image,
        src_queue_family: match direction {
            ImageQueueTransfer::Acquire => QUEUE_FAMILY_EXTERNAL,
            ImageQueueTransfer::Release => local_queue_family,
        },
        dst_queue_family: match direction {
            ImageQueueTransfer::Acquire => local_queue_family,
            ImageQueueTransfer::Release => QUEUE_FAMILY_EXTERNAL,
        },
        src_stage_mask: PIPELINE_STAGE_TOP_OF_PIPE,
        dst_stage_mask: PIPELINE_STAGE_BOTTOM_OF_PIPE,
        src_access_mask: ACCESS_NONE,
        dst_access_mask: ACCESS_NONE,
        old_layout: IMAGE_LAYOUT_GENERAL,
        new_layout: IMAGE_LAYOUT_GENERAL,
    }
}

/// Plans the ownership-transfer barriers for one direction: exactly one
/// barrier per currently-imported image in the table, in table order, each
/// shaped by [`barrier_spec`]. A table without imported images plans no
/// barrier at all. Planning reads the table and changes nothing.
pub fn plan_barriers(
    table: &ImportedDmatexs,
    direction: ImageQueueTransfer,
    local_queue_family: u32,
) -> (r: Vec<BarrierPlan>)
    ensures
        r@.len() == imported_textures_of(table.entries()).len(),
        forall|i: int|
            0 <= i < r@.len() ==> r@[i] == barrier_spec(
                imported_textures_of(table.entries())[i].texture,
                direction,
                local_queue_family,
            ),
{
    let texes = table.imported_textures();
    let mut barriers: Vec<BarrierPlan> = Vec::new();
    let n = texes.len();
    let mut i: usize = 0;
    while i < n
        invariant
            n == texes@.len(),
            texes@ == imported_textures_of(table.entries()),
            i <= n,
            barriers@.len() == i,
            forall|k: int|
                0 <= k < i ==> barriers@[k] == barrier_spec(
                    texes@[k].texture,
                    direction,
                    local_queue_family,
                ),
        decreases n - i,
    {
        let b = BarrierPlan {
            image: texes[i].texture,
            src_queue_family: match direction {
                ImageQueueTransfer::Acquire => QUEUE_FAMILY_EXTERNAL,
                ImageQueueTransfer::Release => local_queue_family,
            },
            dst_queue_family: match direction {
                ImageQueueTransfer::Acquire => local_queue_family,
                ImageQueueTransfer::Release => QUEUE_FAMILY_EXTERNAL,
            },
            src_stage_mask: PIPELINE_STAGE_TOP_OF_PIPE,
            dst_stage_mask: PIPELINE_STAGE_BOTTOM_OF_PIPE,
            src_access_mask: ACCESS_NONE,
            dst_access_mask: ACCESS_NONE,
            old_layout: IMAGE_LAYOUT_GENERAL,
            new_layout: IMAGE_LAYOUT_GENERAL,
        };
        barriers.push(b);
        i += 1;
    }
    barriers
}

/// Law: a transfer over a table with no imported images is a safe no-op.
/// Acquire and Release each plan zero barriers there — in particular on an
/// empty table — and planning never touches the table, so acquire followed
/// immediately by release records nothing and leaves the table as it was.
pub proof fn lemma_transfer_on_empty_table_plans_nothing(s: Seq<TableEntry>)
    requires
        forall|i: int| 0 <= i < s.len() ==> !(s[i].img is Imported),
    ensures
        imported_textures_of(s).len() == 0,
    decreases s.len(),
{
    if s.len() > 0 {
        let pre = s.drop_last();
        assert(forall|i: int| 0 <= i < pre.len() ==> pre[i] == s[i]);
        lemma_transfer_on_empty_table_plans_nothing(pre);
        assert(!(s[s.len() - 1].img is Imported));
    }
}

} // verus!
