//! What the presentation surface reports about itself, and the engine's
//! choices over those reports: which format, present mode, image count,
//! extent and transform a swapchain should be created with.
//!
//! Formats, color spaces, present modes and transforms are carried as the
//! numeric codes of the presentation backend, so the unverified backend
//! converts by value alone.

use vstd::prelude::*;

use crate::geom::Extent2D;

verus! {

/// The color-space code for non-linear sRGB, the space preferred when a
/// surface format is chosen.
pub const COLOR_SPACE_SRGB_NONLINEAR: u32 = 0;

/// The present-mode code for the low-latency, non-blocking (mailbox) mode.
pub const PRESENT_MODE_MAILBOX: u32 = 1;

/// The present-mode code for the always-available vsync (FIFO) mode.
pub const PRESENT_MODE_FIFO: u32 = 2;

/// The transform bit for the identity transform.
pub const TRANSFORM_IDENTITY: u32 = 1;

/// The sentinel width with which a surface reports that its extent is
/// undefined and the caller's requested extent should be used.
pub const UNDEFINED_EXTENT_WIDTH: u32 = u32::MAX;

/// A pixel format paired with a color space, as one entry of a surface's
/// supported-format list.
#[derive(Clone, Copy, Debug, PartialEq, Eq, Structural)]
pub struct SurfaceFormat {
    pub format: u32,
    pub color_space: u32,
}

/// What a surface reports about itself: image-count bounds (a zero maximum
/// meaning unbounded), its current extent (possibly the undefined sentinel),
/// and its supported and current transforms.
#[derive(Clone, Copy, Debug, PartialEq, Eq, Structural)]
pub struct SurfaceCapabilities {
    pub min_image_count: u32,
    pub max_image_count: u32,
    pub current_extent: Extent2D,
    pub supported_transforms: u32,
    pub current_transform: u32,
}

/// One full report from a surface query: supported formats, capabilities and
/// supported present modes.
#[derive(Clone, Debug)]
pub struct SurfaceInfo {
    pub formats: Vec<SurfaceFormat>,
    pub capabilities: SurfaceCapabilities,
    pub present_modes: Vec<u32>,
}

/// Whether a format advertises the non-linear sRGB color space.
pub open spec fn is_srgb_nonlinear(f: SurfaceFormat) -> bool {
    f.color_space == COLOR_SPACE_SRGB_NONLINEAR
}

/// The index of the first format with the non-linear sRGB color space, or
/// the list's length when none has it.
pub open spec fn first_srgb(formats: Seq<SurfaceFormat>) -> int
    decreases formats.len(),
{
    if formats.len() == 0 {
        0
    } else if is_srgb_nonlinear(formats[0]) {
        0
    } else {
        1 + first_srgb(formats.subrange(1, formats.len() as int))
    }
}

pub proof fn lemma_first_srgb(formats: Seq<SurfaceFormat>)
    ensures
        0 <= first_srgb(formats) <= formats.len(),
        first_srgb(formats) < formats.len() ==> is_srgb_nonlinear(formats[first_srgb(formats)]),
        forall|j: int| 0 <= j < first_srgb(formats) ==> !is_srgb_nonlinear(#[trigger] formats[j]),
        first_srgb(formats) == formats.len() ==> forall|j: int|
            0 <= j < formats.len() ==> !is_srgb_nonlinear(#[trigger] formats[j]),
    decreases formats.len(),
{
    if formats.len() == 0 {
    } else if is_srgb_nonlinear(formats[0]) {
    } else {
        let tail = formats.subrange(1, formats.len() as int);
        lemma_first_srgb(tail);
        assert forall|j: int| 0 <= j < first_srgb(formats) implies !is_srgb_nonlinear(
            #[trigger] formats[j],
        ) by {
            if j >= 1 {
                assert(formats[j] == tail[j - 1]);
            }
        }
        if first_srgb(formats) == formats.len() {
            assert forall|j: int| 0 <= j < formats.len() implies !is_srgb_nonlinear(
                #[trigger] formats[j],
            ) by {
                if j >= 1 {
                    assert(formats[j] == tail[j - 1]);
                }
            }
        }
    }
}

/// The format a swapchain is created with: the first entry advertising the
/// non-linear sRGB color space, or the first entry when none does.
pub open spec fn select_format_spec(formats: Seq<SurfaceFormat>) -> SurfaceFormat
    recommends
        formats.len() > 0,
{
    if first_srgb(formats) < formats.len() {
        formats[first_srgb(formats)]
    } else {
        formats[0]
    }
}

/// Surface-format selection is deterministic and total: the choice is a
/// function of the supported-format list alone, is always drawn from the
/// list, is the first sRGB non-linear entry when one exists, and is the
/// first entry when none does.
pub proof fn lemma_select_format_total(formats: Seq<SurfaceFormat>)
    requires
        formats.len() > 0,
    ensures
        exists|i: int| 0 <= i < formats.len() && select_format_spec(formats) == formats[i],
        (exists|i: int| 0 <= i < formats.len() && is_srgb_nonlinear(#[trigger] formats[i]))
            ==> {
                &&& 0 <= first_srgb(formats) < formats.len()
                &&& select_format_spec(formats) == formats[first_srgb(formats)]
                &&& is_srgb_nonlinear(formats[first_srgb(formats)])
                &&& forall|j: int| 0 <= j < first_srgb(formats)
                      ==> !is_srgb_nonlinear(#[trigger] formats[j])
            },
        (forall|i: int| 0 <= i < formats.len() ==> !is_srgb_nonlinear(#[trigger] formats[i]))
            ==> select_format_spec(formats) == formats[0],
{
    lemma_first_srgb(formats);
    if first_srgb(formats) < formats.len() {
        assert(select_format_spec(formats) == formats[first_srgb(formats)]);
    } else {
        assert(select_format_spec(formats) == formats[0]);
    }
}

/// Picks the surface format for swapchain creation: a scan for the first
/// entry with the non-linear sRGB color space, falling back to the first
/// entry of the list.
pub fn select_surface_format(formats: &Vec<SurfaceFormat>) -> (chosen: SurfaceFormat)
    requires
        formats@.len() > 0,
    ensures
        chosen == select_format_spec(formats@),
{
    let n: usize = formats.len();
    let mut i: usize = 0;
    while i < n
        invariant
            0 <= i <= n,
            n == formats@.len(),
            n > 0,
            forall|j: int| 0 <= j < i ==> !is_srgb_nonlinear(#[trigger] formats@[j]),
        decreases n - i,
    {
        if formats[i].color_space == COLOR_SPACE_SRGB_NONLINEAR {
            proof {
                lemma_first_srgb(formats@);
                assert(is_srgb_nonlinear(formats@[i as int]));
                assert(first_srgb(formats@) == i);
            }
            return formats[i];
        }
        i = i + 1;
    }
    proof {
        lemma_first_srgb(formats@);
        assert(first_srgb(formats@) == formats@.len());
    }
    formats[0]
}

/// The image count a swapchain asks for: one more than the surface's
/// minimum, clamped down to the maximum when the maximum is non-zero
/// (a zero maximum meaning no upper bound).
pub open spec fn desired_image_count_spec(min_image_count: u32, max_image_count: u32) -> int {
    if max_image_count > 0 && min_image_count + 1 > max_image_count {
        max_image_count as int
    } else {
        min_image_count as int + 1
    }
}

/// Computes the image count to request at swapchain creation.
pub fn desired_image_count(min_image_count: u32, max_image_count: u32) -> (count: u32)
    requires
        min_image_count < u32::MAX,
    ensures
        count == desired_image_count_spec(min_image_count, max_image_count),
{
    let desired: u32 = min_image_count + 1;
    if max_image_count > 0 && desired > max_image_count {
        max_image_count
    } else {
        desired
    }
}

/// The extent a swapchain is created with: the surface's reported current
/// extent always wins when defined; the caller's requested extent is used
/// only when the surface reports the undefined-extent sentinel.
pub open spec fn resolve_extent_spec(current_extent: Extent2D, requested: Extent2D) -> Extent2D {
    if current_extent.width == UNDEFINED_EXTENT_WIDTH {
        requested
    } else {
        current_extent
    }
}

/// Resolves the creation extent from the surface report and the caller's
/// request.
pub fn resolve_extent(current_extent: Extent2D, requested: Extent2D) -> (extent: Extent2D)
    ensures
        extent == resolve_extent_spec(current_extent, requested),
{
    if current_extent.width == UNDEFINED_EXTENT_WIDTH {
        requested
    } else {
        current_extent
    }
}

/// The present mode a swapchain is created with: the low-latency mailbox
/// mode when the surface supports it, else the always-available FIFO mode.
pub open spec fn select_present_mode_spec(modes: Seq<u32>) -> u32 {
    if modes.contains(PRESENT_MODE_MAILBOX) {
        PRESENT_MODE_MAILBOX
    } else {
        PRESENT_MODE_FIFO
    }
}

/// Picks the present mode from the surface's supported-mode list.
pub fn select_present_mode(modes: &Vec<u32>) -> (mode: u32)
    ensures
        mode == select_present_mode_spec(modes@),
{
    let n: usize = modes.len();
    let mut i: usize = 0;
    while i < n
        invariant
            0 <= i <= n,
            n == modes@.len(),
            forall|j: int| 0 <= j < i ==> #[trigger] modes@[j] != PRESENT_MODE_MAILBOX,
        decreases n - i,
    {
        if modes[i] == PRESENT_MODE_MAILBOX {
            assert(modes@.contains(PRESENT_MODE_MAILBOX)) by {
                assert(modes@[i as int] == PRESENT_MODE_MAILBOX);
            }
            return PRESENT_MODE_MAILBOX;
        }
        i = i + 1;
    }
    assert(!modes@.contains(PRESENT_MODE_MAILBOX));
    PRESENT_MODE_FIFO
}

/// The pre-transform a swapchain is created with: identity when the surface
/// supports it, else the surface's current transform.
pub open spec fn select_pre_transform_spec(supported_transforms: u32, current_transform: u32) -> u32 {
    if supported_transforms & TRANSFORM_IDENTITY != 0 {
        TRANSFORM_IDENTITY
    } else {
        current_transform
    }
}

/// Picks the pre-transform from the surface's capability report.
pub fn select_pre_transform(supported_transforms: u32, current_transform: u32) -> (transform: u32)
    ensures
        transform == select_pre_transform_spec(supported_transforms, current_transform),
{
    if supported_transforms & TRANSFORM_IDENTITY != 0 {
        TRANSFORM_IDENTITY
    } else {
        current_transform
    }
}

} // verus!
