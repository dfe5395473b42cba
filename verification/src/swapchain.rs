//! Swapchain planning and the engine's model of a live swapchain.
//!
//! The engine computes a `SwapchainConfig` from a surface report; the
//! unverified backend creates the real swapchain from that config and
//! reports how many presentable images the device gave it. The engine then
//! tracks the chain as a `Swapchain`: the chosen configuration plus one
//! init flag per image, recording whether that image has ever been
//! transitioned out of its undefined initial layout.

use vstd::prelude::*;

use crate::geom::Extent2D;
use crate::surface::SurfaceCapabilities;
use crate::surface::SurfaceFormat;
use crate::surface::SurfaceInfo;
use crate::surface::desired_image_count;
use crate::surface::desired_image_count_spec;
use crate::surface::resolve_extent;
use crate::surface::resolve_extent_spec;
use crate::surface::select_format_spec;
use crate::surface::select_present_mode;
use crate::surface::select_present_mode_spec;
use crate::surface::select_pre_transform;
use crate::surface::select_pre_transform_spec;
use crate::surface::select_surface_format;

verus! {

/// Everything a swapchain is created with: format, extent, the image count
/// to request, present mode and pre-transform. The backend passes these to
/// the real creation call, together with the old swapchain as a hand-off
/// hint when one exists.
#[derive(Clone, Copy, Debug, PartialEq, Eq, Structural)]
pub struct SwapchainConfig {
    pub format: SurfaceFormat,
    pub extent: Extent2D,
    pub min_image_count: u32,
    pub present_mode: u32,
    pub pre_transform: u32,
}

/// The backend's answer to a swapchain-creation request: the number of
/// presentable images the device actually allocated (the device may give
/// more than were requested), or the failure it reported.
#[derive(Debug)]
pub enum SwapchainCreateOutcome {
    Created { image_count: u32 },
    Failed { reason: String },
}

/// The engine's model of a live swapchain: its configuration and one init
/// flag per presentable image. A flag is true once that image has been
/// transitioned out of its undefined initial layout; recreation replaces
/// the whole image set, so every flag starts false again.
#[derive(Clone, Debug)]
pub struct Swapchain {
    pub format: SurfaceFormat,
    pub extent: Extent2D,
    pub present_mode: u32,
    pub pre_transform: u32,
    pub image_init_done: Vec<bool>,
}

impl Swapchain {
    /// The number of presentable images in the chain.
    pub open spec fn image_count(&self) -> int {
        self.image_init_done@.len() as int
    }

    /// Whether this model is exactly a just-created chain with the given
    /// configuration and image count: every init flag false.
    pub open spec fn is_fresh(&self, config: SwapchainConfig, image_count: int) -> bool {
        &&& self.format == config.format
        &&& self.extent == config.extent
        &&& self.present_mode == config.present_mode
        &&& self.pre_transform == config.pre_transform
        &&& self.image_init_done@.len() == image_count
        &&& forall|k: int| 0 <= k < image_count ==> !self.image_init_done@[k]
    }

    /// Whether two models describe the same chain state, image init flags
    /// included.
    pub open spec fn same_model(&self, other: &Swapchain) -> bool {
        &&& self.format == other.format
        &&& self.extent == other.extent
        &&& self.present_mode == other.present_mode
        &&& self.pre_transform == other.pre_transform
        &&& self.image_init_done@ == other.image_init_done@
    }

    /// Builds the model of a just-created chain.
    pub fn new_fresh(config: SwapchainConfig, image_count: u32) -> (chain: Swapchain)
        ensures
            chain.is_fresh(config, image_count as int),
    {
        let mut flags: Vec<bool> = Vec::new();
        let mut k: u32 = 0;
        while k < image_count
            invariant
                0 <= k <= image_count,
                flags@.len() == k,
                forall|j: int| 0 <= j < k ==> !flags@[j],
            decreases image_count - k,
        {
            flags.push(false);
            k = k + 1;
        }
        Swapchain {
            format: config.format,
            extent: config.extent,
            present_mode: config.present_mode,
            pre_transform: config.pre_transform,
            image_init_done: flags,
        }
    }
}

/// The configuration a swapchain is planned with, as a function of the
/// surface report and the caller's requested extent alone.
pub open spec fn plan_swapchain_spec(
    formats: Seq<SurfaceFormat>,
    capabilities: SurfaceCapabilities,
    present_modes: Seq<u32>,
    requested_extent: Extent2D,
) -> SwapchainConfig {
    SwapchainConfig {
        format: select_format_spec(formats),
        extent: resolve_extent_spec(capabilities.current_extent, requested_extent),
        min_image_count: desired_image_count_spec(
            capabilities.min_image_count,
            capabilities.max_image_count,
        ) as u32,
        present_mode: select_present_mode_spec(present_modes),
        pre_transform: select_pre_transform_spec(
            capabilities.supported_transforms,
            capabilities.current_transform,
        ),
    }
}

/// Plans a swapchain from a surface report: the two-step "query
/// capabilities, then create" protocol's first half, with every choice
/// deterministic in the report.
pub fn plan_swapchain(surface: &SurfaceInfo, requested_extent: Extent2D) -> (config:
    SwapchainConfig)
    requires
        surface.formats@.len() > 0,
        surface.capabilities.min_image_count < u32::MAX,
    ensures
        config == plan_swapchain_spec(
            surface.formats@,
            surface.capabilities,
            surface.present_modes@,
            requested_extent,
        ),
{
    SwapchainConfig {
        format: select_surface_format(&surface.formats),
        extent: resolve_extent(surface.capabilities.current_extent, requested_extent),
        min_image_count: desired_image_count(
            surface.capabilities.min_image_count,
            surface.capabilities.max_image_count,
        ),
        present_mode: select_present_mode(&surface.present_modes),
        pre_transform: select_pre_transform(
            surface.capabilities.supported_transforms,
            surface.capabilities.current_transform,
        ),
    }
}

} // verus!
