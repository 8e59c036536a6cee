//! Planning the zero-copy import of one buffer.
//!
//! The pipeline is staged. [`plan_import`] validates a descriptor against
//! the queried modifier support table and produces the [`ImagePlan`] for the
//! native image (format, extent, tiling layout, disjoint decision). The
//! device then creates the image and reports per-plane memory requirements;
//! [`plan_plane_imports`] turns those into one allocation plan per plane.
//! After the device performed the allocations, [`plan_binds`] pairs the
//! resulting memory handles with their memory-plane aspects for the single
//! atomic bind call. Every device answer enters as a plain value, so each
//! stage is verified for every possible answer.

use vstd::prelude::*;

use crate::dmatex::{Dmatex, DmatexPlane, DmatexUsage, DmatexView};
use crate::error::ImportError;
use crate::format::{
    fourcc_known, native_format_of, negotiated_format_spec, negotiate_format, renderer_format_of,
    to_renderer_format, NativeFormat, RendererFormat,
};
use crate::memory::{
    eligible_memory_type, plan_plane_allocation, AllocationPlan, MemoryRequirementsInfo,
};

verus! {

/// Image creation flag: the planes of the image are backed by separate
/// memory allocations.
pub const IMAGE_CREATE_DISJOINT: u32 = 0x200;

/// Image usage bit: source of transfer operations.
pub const IMAGE_USAGE_TRANSFER_SRC: u32 = 0x1;

/// Image usage bit: destination of transfer operations.
pub const IMAGE_USAGE_TRANSFER_DST: u32 = 0x2;

/// Image usage bit: the image can be sampled.
pub const IMAGE_USAGE_SAMPLED: u32 = 0x4;

/// Image usage bit: the image can be a color attachment.
pub const IMAGE_USAGE_COLOR_ATTACHMENT: u32 = 0x10;

/// The image usage flags requested on every imported image: color
/// attachment, sampling, and both transfer directions.
pub const IMAGE_USAGE_DEFAULT: u32 = IMAGE_USAGE_COLOR_ATTACHMENT | IMAGE_USAGE_SAMPLED
    | IMAGE_USAGE_TRANSFER_SRC | IMAGE_USAGE_TRANSFER_DST;

/// Image aspect naming the first memory plane of a disjoint binding.
pub const ASPECT_MEMORY_PLANE_0: u32 = 0x80;

/// Image aspect naming the second memory plane.
pub const ASPECT_MEMORY_PLANE_1: u32 = 0x100;

/// Image aspect naming the third memory plane.
pub const ASPECT_MEMORY_PLANE_2: u32 = 0x200;

/// Image aspect naming the fourth memory plane.
pub const ASPECT_MEMORY_PLANE_3: u32 = 0x400;

/// Renderer texture usage bit: the texture can be copied out of.
pub const TEXTURE_USAGE_COPY_SRC: u32 = 0x1;

/// Renderer texture usage bit: the texture can be copied into.
pub const TEXTURE_USAGE_COPY_DST: u32 = 0x2;

/// Renderer texture usage bit: the texture can be bound for sampling.
pub const TEXTURE_USAGE_TEXTURE_BINDING: u32 = 0x4;

/// Renderer texture usage bit: the texture can be rendered into.
pub const TEXTURE_USAGE_RENDER_ATTACHMENT: u32 = 0x10;

/// What the device reported about one tiling modifier it supports for a
/// format: the modifier value, the number of memory planes it defines, and
/// its tiling feature flags.
#[derive(Clone, Copy, Debug, PartialEq, Eq, Structural)]
pub struct ModifierInfo {
    pub modifier: u64,
    pub plane_count: u32,
    pub tiling_features: u64,
}

/// The first entry of the support table that carries the modifier, if any.
pub open spec fn find_modifier(supported: Seq<ModifierInfo>, modifier: u64) -> Option<ModifierInfo>
    decreases supported.len(),
{
    if supported.len() == 0 {
        None
    } else if supported[0].modifier == modifier {
        Some(supported[0])
    } else {
        find_modifier(supported.drop_first(), modifier)
    }
}

/// Validates that the buffer's modifier appears in the device's support
/// table for the negotiated format, and returns that table entry. Fails
/// with [`ImportError::ModifierInvalid`] exactly when the modifier appears
/// nowhere in the table; an empty table simply supports no modifier.
pub fn validate_modifier(supported: &Vec<ModifierInfo>, modifier: u64) -> (r: Result<
    ModifierInfo,
    ImportError,
>)
    ensures
        r matches Ok(info) ==> find_modifier(supported@, modifier) == Some(info)
            && info.modifier == modifier,
        r is Err ==> r == Err::<ModifierInfo, ImportError>(ImportError::ModifierInvalid)
            && find_modifier(supported@, modifier) is None,
{
    let n = supported.len();
    let mut i: usize = 0;
    proof {
        assert(supported@.skip(0) =~= supported@);
    }
    while i < n
        invariant
            n == supported@.len(),
            i <= n,
            find_modifier(supported@.skip(i as int), modifier) == find_modifier(
                supported@,
                modifier,
            ),
        decreases n - i,
    {
        proof {
            assert(supported@.skip(i as int).drop_first() =~= supported@.skip(i as int + 1));
        }
        if supported[i].modifier == modifier {
            proof {
                assert(supported@.skip(i as int)[0] == supported@[i as int]);
            }
            return Ok(supported[i]);
        }
        i += 1;
    }
    proof {
        assert(supported@.skip(n as int) =~= Seq::<ModifierInfo>::empty());
    }
    Err(ImportError::ModifierInvalid)
}

/// Whether the image's planes must be bound as separate, disjoint memory
/// allocations: exactly when the buffer carries more than one plane.
pub fn needs_disjoint(plane_count: usize) -> (r: bool)
    ensures
        r == (plane_count > 1),
{
    plane_count > 1
}

/// The image aspect naming memory plane `i`, for the first four planes.
pub open spec fn aspect_of_plane(i: int) -> u32 {
    if i == 0 {
        ASPECT_MEMORY_PLANE_0
    } else if i == 1 {
        ASPECT_MEMORY_PLANE_1
    } else if i == 2 {
        ASPECT_MEMORY_PLANE_2
    } else {
        ASPECT_MEMORY_PLANE_3
    }
}

/// The memory-plane aspect for plane index `i`, or the structural error for
/// an index past the fourth plane.
pub open spec fn memory_plane_aspect_spec(i: int) -> Result<u32, ImportError> {
    if 0 <= i < 4 {
        Ok(aspect_of_plane(i))
    } else {
        Err(ImportError::IncorrectNumberOfPlanes)
    }
}

/// Maps a plane index to the image aspect naming its memory plane. More
/// than four planes is invalid: [`ImportError::IncorrectNumberOfPlanes`].
pub fn memory_plane_aspect(i: usize) -> (r: Result<u32, ImportError>)
    ensures
        r == memory_plane_aspect_spec(i as int),
{
    if i == 0 {
        Ok(ASPECT_MEMORY_PLANE_0)
    } else if i == 1 {
        Ok(ASPECT_MEMORY_PLANE_1)
    } else if i == 2 {
        Ok(ASPECT_MEMORY_PLANE_2)
    } else if i == 3 {
        Ok(ASPECT_MEMORY_PLANE_3)
    } else {
        Err(ImportError::IncorrectNumberOfPlanes)
    }
}

/// The explicit tiling layout of one plane, taken verbatim from the buffer
/// descriptor.
#[derive(Clone, Copy, Debug, PartialEq, Eq, Structural)]
pub struct PlaneLayout {
    pub offset: u32,
    pub stride: i32,
}

/// The per-plane layouts a descriptor's planes dictate.
pub open spec fn layouts_of(planes: Seq<DmatexPlane>) -> Seq<PlaneLayout> {
    planes.map_values(|p: DmatexPlane| PlaneLayout { offset: p.offset, stride: p.stride })
}

/// Everything the device needs to create the native image: a 2D image of
/// the negotiated format and the declared resolution, one mip level, one
/// array layer, one sample, modifier-based tiling with the explicit
/// per-plane layout below, external-memory creation metadata, and the
/// disjoint creation flag exactly for a multi-planar buffer.
#[derive(Debug)]
pub struct ImagePlan {
    pub native_format: NativeFormat,
    pub renderer_format: RendererFormat,
    pub width: u32,
    pub height: u32,
    pub modifier: u64,
    pub disjoint: bool,
    pub create_flags: u32,
    pub plane_layouts: Vec<PlaneLayout>,
}

/// The mathematical value of an [`ImagePlan`].
pub struct ImagePlanView {
    pub native_format: NativeFormat,
    pub renderer_format: RendererFormat,
    pub width: u32,
    pub height: u32,
    pub modifier: u64,
    pub disjoint: bool,
    pub create_flags: u32,
    pub plane_layouts: Seq<PlaneLayout>,
}

impl View for ImagePlan {
    type V = ImagePlanView;

    open spec fn view(&self) -> ImagePlanView {
        ImagePlanView {
            native_format: self.native_format,
            renderer_format: self.renderer_format,
            width: self.width,
            height: self.height,
            modifier: self.modifier,
            disjoint: self.disjoint,
            create_flags: self.create_flags,
            plane_layouts: self.plane_layouts@,
        }
    }
}

/// What planning an import must produce for a descriptor and a queried
/// modifier support table, checked in this order: a buffer without planes
/// is structurally invalid; the format code must negotiate a native format
/// and that format must have a renderer equivalent; the modifier must
/// appear in the support table; and the plane count must equal the plane
/// count the modifier defines (never more than four). The resulting plan
/// fixes format, extent, tiling layout and the disjoint decision.
pub open spec fn plan_import_spec(buf: DmatexView, supported: Seq<ModifierInfo>) -> Result<
    ImagePlanView,
    ImportError,
> {
    if buf.planes.len() == 0 {
        Err(ImportError::NoPlanes)
    } else {
        match negotiated_format_spec(buf.fourcc, buf.srgb) {
            Err(e) => Err(e),
            Ok(native) => match renderer_format_of(native) {
                None => Err(ImportError::WgpuIncompatibleFormat),
                Some(renderer) => match find_modifier(supported, buf.modifier) {
                    None => Err(ImportError::ModifierInvalid),
                    Some(info) => if buf.planes.len() > 4 || buf.planes.len() != info.plane_count {
                        Err(ImportError::IncorrectNumberOfPlanes)
                    } else {
                        Ok(
                            ImagePlanView {
                                native_format: native,
                                renderer_format: renderer,
                                width: buf.res.x,
                                height: buf.res.y,
                                modifier: buf.modifier,
                                disjoint: buf.planes.len() > 1,
                                create_flags: if buf.planes.len() > 1 {
                                    IMAGE_CREATE_DISJOINT
                                } else {
                                    0
                                },
                                plane_layouts: layouts_of(buf.planes),
                            },
                        )
                    },
                },
            },
        }
    }
}

/// Plans the native image for a buffer descriptor, against the modifier
/// support table queried from the device for the negotiated format.
///
/// This performs no device work at all: a rejected descriptor — an
/// unrecognized or incompatible format, an unsupported modifier, a plane
/// count that does not match the modifier — fails before any device query
/// or allocation is even planned.
///
/// The plan always carries the explicit per-plane layout creation
/// metadata, for any plane count: the producer dictated each plane's
/// offset and stride, so the device must not pick its own layout.
pub fn plan_import(buf: &Dmatex, supported: &Vec<ModifierInfo>) -> (r: Result<
    ImagePlan,
    ImportError,
>)
    ensures
        r matches Ok(plan) ==> plan_import_spec(buf@, supported@) == Ok::<
            ImagePlanView,
            ImportError,
        >(plan@),
        r matches Err(e) ==> plan_import_spec(buf@, supported@) == Err::<
            ImagePlanView,
            ImportError,
        >(e),
{
    if buf.planes.len() == 0 {
        return Err(ImportError::NoPlanes);
    }
    let native = match negotiate_format(buf.fourcc, buf.srgb) {
        Ok(f) => f,
        Err(e) => { return Err(e); },
    };
    let renderer = match to_renderer_format(native) {
        Ok(w) => w,
        Err(e) => { return Err(e); },
    };
    let info = match validate_modifier(supported, buf.modifier) {
        Ok(info) => info,
        Err(e) => { return Err(e); },
    };
    if buf.planes.len() > 4 || buf.planes.len() as u32 != info.plane_count {
        return Err(ImportError::IncorrectNumberOfPlanes);
    }

    let n = buf.planes.len();
    let mut plane_layouts: Vec<PlaneLayout> = Vec::new();
    let mut i: usize = 0;
    while i < n
        invariant
            n == buf.planes@.len(),
            i <= n,
            plane_layouts@ == layouts_of(buf.planes@.take(i as int)),
        decreases n - i,
    {
        plane_layouts.push(
            PlaneLayout { offset: buf.planes[i].offset, stride: buf.planes[i].stride },
        );
        proof {
            assert(plane_layouts@ =~= layouts_of(buf.planes@.take(i as int + 1)));
        }
        i += 1;
    }
    proof {
        assert(buf.planes@.take(n as int) =~= buf.planes@);
    }

    let disjoint = needs_disjoint(n);
    Ok(
        ImagePlan {
            native_format: native,
            renderer_format: renderer,
            width: buf.res.x,
            height: buf.res.y,
            modifier: buf.modifier,
            disjoint,
            create_flags: if disjoint {
                IMAGE_CREATE_DISJOINT
            } else {
                0
            },
            plane_layouts,
        },
    )
}

/// Law: a descriptor whose format code is outside the support table and
/// unrecognized fails with the format error, for every descriptor and
/// every support table. The outcome of the attempt is exactly that error:
/// no image plan exists, so no memory allocation can even be planned.
pub proof fn lemma_unrecognized_code_plans_nothing(
    buf: DmatexView,
    supported: Seq<ModifierInfo>,
)
    requires
        buf.planes.len() > 0,
        native_format_of(buf.fourcc) is None,
        !fourcc_known(buf.fourcc),
    ensures
        plan_import_spec(buf, supported) == Err::<ImagePlanView, ImportError>(
            ImportError::UnrecognizedFourcc(buf.fourcc),
        ),
{
}

/// Law: a plane count that does not match the plane count the modifier
/// defines (or exceeds four) is a structural error, for every descriptor
/// whose format negotiates: the attempt's outcome is exactly that error,
/// before any per-plane device query or allocation is planned.
pub proof fn lemma_plane_count_mismatch_plans_nothing(
    buf: DmatexView,
    supported: Seq<ModifierInfo>,
    info: ModifierInfo,
)
    requires
        buf.planes.len() > 0,
        negotiated_format_spec(buf.fourcc, buf.srgb) matches Ok(f) && renderer_format_of(f)
            is Some,
        find_modifier(supported, buf.modifier) == Some(info),
        buf.planes.len() > 4 || buf.planes.len() != info.plane_count,
    ensures
        plan_import_spec(buf, supported) == Err::<ImagePlanView, ImportError>(
            ImportError::IncorrectNumberOfPlanes,
        ),
{
}

/// Whether some memory type can back a plane with this compatibility
/// bitmask.
pub open spec fn has_eligible_memory_type(type_bits: u32, property_flags: Seq<u32>) -> bool {
    exists|j: int| eligible_memory_type(type_bits, property_flags, j)
}

/// One plane's import instructions: the memory allocation to perform, and
/// the memory-plane aspect its later binding targets (`None` for the single
/// combined allocation of a non-disjoint image).
#[derive(Clone, Copy, Debug, PartialEq, Eq, Structural)]
pub struct PlaneImportPlan {
    pub alloc: AllocationPlan,
    pub memory_plane_aspect: Option<u32>,
}

/// What one plane's import plan must say, given the plane, the device's
/// reported requirements for it, and the device's memory-type property
/// flags.
pub open spec fn plane_plan_matches(
    plan: PlaneImportPlan,
    plane: DmatexPlane,
    req: MemoryRequirementsInfo,
    property_flags: Seq<u32>,
    disjoint: bool,
    i: int,
) -> bool {
    &&& plan.alloc.fd == plane.dmabuf_fd
    &&& plan.alloc.size == req.size
    &&& plan.alloc.dedicated == req.requires_dedicated
    &&& eligible_memory_type(req.memory_type_bits, property_flags, plan.alloc.memory_type_index as int)
    &&& forall|j: int|
        0 <= j < plan.alloc.memory_type_index ==> !eligible_memory_type(
            req.memory_type_bits,
            property_flags,
            j,
        )
    &&& plan.memory_plane_aspect == if disjoint {
        Some(aspect_of_plane(i))
    } else {
        None::<u32>
    }
}

/// Plans the memory import of every plane, in plane order.
///
/// In disjoint mode the device reported one set of requirements per plane,
/// scoped to that plane's memory aspect; each plane gets its own
/// allocation, tagged with that aspect. In combined mode the device
/// reported a single set of requirements for the whole image, and the
/// first (only) plane backs it with a single untagged allocation.
///
/// Succeeds exactly when every considered plane has an eligible memory
/// type; otherwise fails with [`ImportError::NoValidMemoryTypes`].
pub fn plan_plane_imports(
    buf: &Dmatex,
    disjoint: bool,
    reqs: &Vec<MemoryRequirementsInfo>,
    property_flags: &Vec<u32>,
) -> (r: Result<Vec<PlaneImportPlan>, ImportError>)
    requires
        buf.planes@.len() >= 1,
        disjoint ==> reqs@.len() == buf.planes@.len() && buf.planes@.len() <= 4,
        !disjoint ==> reqs@.len() == 1,
    ensures
        r matches Ok(plans) ==> {
            &&& plans@.len() == reqs@.len()
            &&& forall|i: int|
                0 <= i < plans@.len() ==> plane_plan_matches(
                    plans@[i],
                    buf.planes@[i],
                    reqs@[i],
                    property_flags@,
                    disjoint,
                    i,
                )
        },
        r is Err ==> {
            &&& r == Err::<Vec<PlaneImportPlan>, ImportError>(ImportError::NoValidMemoryTypes)
            &&& exists|i: int|
                0 <= i < reqs@.len() && !has_eligible_memory_type(
                    reqs@[i].memory_type_bits,
                    property_flags@,
                )
        },
{
    let mut plans: Vec<PlaneImportPlan> = Vec::new();
    if !disjoint {
        let alloc = match plan_plane_allocation(buf.planes[0].dmabuf_fd, &reqs[0], property_flags) {
            Ok(alloc) => alloc,
            Err(e) => { return Err(e); },
        };
        plans.push(PlaneImportPlan { alloc, memory_plane_aspect: None });
        return Ok(plans);
    }
    let n = buf.planes.len();
    let mut i: usize = 0;
    while i < n
        invariant
            disjoint,
            n == buf.planes@.len(),
            n == reqs@.len(),
            n <= 4,
            i <= n,
            plans@.len() == i,
            forall|k: int|
                0 <= k < i ==> plane_plan_matches(
                    plans@[k],
                    buf.planes@[k],
                    reqs@[k],
                    property_flags@,
                    disjoint,
                    k,
                ),
        decreases n - i,
    {
        let aspect = match memory_plane_aspect(i) {
            Ok(a) => a,
            Err(e) => { return Err(e); },
        };
        let alloc = match plan_plane_allocation(buf.planes[i].dmabuf_fd, &reqs[i], property_flags) {
            Ok(alloc) => alloc,
            Err(e) => { return Err(e); },
        };
        plans.push(PlaneImportPlan { alloc, memory_plane_aspect: Some(aspect) });
        i += 1;
    }
    Ok(plans)
}

/// One entry of the single atomic bind call: an imported memory handle
/// and, for a disjoint image, the memory-plane aspect it backs.
#[derive(Clone, Copy, Debug, PartialEq, Eq, Structural)]
pub struct BindPlan {
    pub memory: u64,
    pub memory_plane_aspect: Option<u32>,
}

/// What one entry of the bind call must say: the plane's memory handle,
/// tagged with the plane's memory aspect exactly for a disjoint image.
pub open spec fn bind_plan_matches(b: BindPlan, memory: u64, disjoint: bool, i: int) -> bool {
    &&& b.memory == memory
    &&& disjoint ==> b.memory_plane_aspect == Some(aspect_of_plane(i))
    &&& !disjoint ==> b.memory_plane_aspect is None
}

/// Pairs the imported plane memories, in plane order, with the aspects for
/// the single bind call that attaches every binding to the image
/// atomically: per-plane aspect tags for a disjoint image, a single
/// untagged binding otherwise.
pub fn plan_binds(memories: &Vec<u64>, disjoint: bool) -> (r: Result<Vec<BindPlan>, ImportError>)
    requires
        !disjoint ==> memories@.len() == 1,
    ensures
        r matches Ok(binds) ==> {
            &&& memories@.len() <= 4 || !disjoint
            &&& binds@.len() == memories@.len()
            &&& forall|i: int|
                0 <= i < binds@.len() ==> bind_plan_matches(binds@[i], memories@[i], disjoint, i)
        },
        r is Err ==> r == Err::<Vec<BindPlan>, ImportError>(ImportError::IncorrectNumberOfPlanes)
            && disjoint && memories@.len() > 4,
{
    let n = memories.len();
    if disjoint && n > 4 {
        return Err(ImportError::IncorrectNumberOfPlanes);
    }
    let mut binds: Vec<BindPlan> = Vec::new();
    let mut i: usize = 0;
    while i < n
        invariant
            n == memories@.len(),
            disjoint ==> n <= 4,
            i <= n,
            binds@.len() == i,
            forall|k: int| 0 <= k < i ==> bind_plan_matches(binds@[k], memories@[k], disjoint, k),
        decreases n - i,
    {
        let aspect = if disjoint {
            match memory_plane_aspect(i) {
                Ok(a) => Some(a),
                Err(e) => { return Err(e); },
            }
        } else {
            None
        };
        binds.push(BindPlan { memory: memories[i], memory_plane_aspect: aspect });
        i += 1;
    }
    Ok(binds)
}

/// The finished import: the raw handles of the native image's renderer
/// texture and view, together with the extent, format and usage the import
/// negotiated. Owned exclusively by whichever collaborator holds it.
#[derive(Clone, Copy, Debug, PartialEq, Eq, Structural)]
pub struct ImportedTexture {
    pub texture: u64,
    pub texture_view: u64,
    pub width: u32,
    pub height: u32,
    pub format: RendererFormat,
    pub usage: DmatexUsage,
}

impl ImportedTexture {
    /// Wraps the raw texture and view handles the device produced for an
    /// image plan, carrying over the plan's extent and format.
    pub fn new(texture: u64, texture_view: u64, plan: &ImagePlan, usage: DmatexUsage) -> (r:
        ImportedTexture)
        ensures
            r.texture == texture,
            r.texture_view == texture_view,
            r.width == plan.width,
            r.height == plan.height,
            r.format == plan.renderer_format,
            r.usage == usage,
    {
        ImportedTexture {
            texture,
            texture_view,
            width: plan.width,
            height: plan.height,
            format: plan.renderer_format,
            usage,
        }
    }
}

/// The renderer texture-usage flags a usage tag selects.
pub open spec fn texture_usages_spec(usage: DmatexUsage) -> u32 {
    match usage {
        DmatexUsage::Sampling => TEXTURE_USAGE_TEXTURE_BINDING | TEXTURE_USAGE_COPY_SRC,
        DmatexUsage::RenderTarget => TEXTURE_USAGE_RENDER_ATTACHMENT | TEXTURE_USAGE_COPY_DST,
    }
}

/// Selects the renderer texture-usage flags for a usage tag: binding and
/// copy-out for a sampled texture, attachment and copy-in for a render
/// target.
pub fn texture_usages(usage: DmatexUsage) -> (r: u32)
    ensures
        r == texture_usages_spec(usage),
{
    match usage {
        DmatexUsage::Sampling => TEXTURE_USAGE_TEXTURE_BINDING | TEXTURE_USAGE_COPY_SRC,
        DmatexUsage::RenderTarget => TEXTURE_USAGE_RENDER_ATTACHMENT | TEXTURE_USAGE_COPY_DST,
    }
}

/// The device extensions the import pipeline relies on: modifier-based
/// image tiling, DMA-BUF external memory with file-descriptor import, and
/// the swapchain.
pub fn required_device_extensions() -> (r: Vec<&'static str>)
    ensures
        r@.len() == 5,
        r@[0]@ == "VK_EXT_image_drm_format_modifier"@,
        r@[1]@ == "VK_EXT_external_memory_dma_buf"@,
        r@[2]@ == "VK_KHR_external_memory_fd"@,
        r@[3]@ == "VK_KHR_external_memory"@,
        r@[4]@ == "VK_KHR_swapchain"@,
{
    let mut v: Vec<&'static str> = Vec::new();
    v.push("VK_EXT_image_drm_format_modifier");
    v.push("VK_EXT_external_memory_dma_buf");
    v.push("VK_KHR_external_memory_fd");
    v.push("VK_KHR_external_memory");
    v.push("VK_KHR_swapchain");
    v
}

} // verus!
