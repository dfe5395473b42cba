//! Per-frame values exchanged between the presentation engine and the
//! unverified backend: the work the engine plans for one frame, and the
//! outcomes the backend reports for the device calls it performed.

use vstd::prelude::*;

use crate::geom::Extent2D;
use crate::geom::Extent3D;
use crate::geom::Offset3D;

verus! {

/// How long an acquire call may block before it is reported as failed,
/// in nanoseconds. Finite, so a wedged surface cannot hang the render loop.
pub const ACQUIRE_TIMEOUT_NS: u64 = 5000000;

/// How long a completion-fence wait may block before it is reported as
/// timed out, in nanoseconds. Finite, so a stalled queue cannot hang the
/// render loop.
pub const FENCE_WAIT_TIMEOUT_NS: u64 = 15000000;

/// An image layout as the engine tracks it.
#[derive(Clone, Copy, Debug, PartialEq, Eq, Structural)]
pub enum ImageLayout {
    Undefined,
    TransferSrc,
    TransferDst,
    PresentSrc,
}

/// The sampling filter of a blit.
#[derive(Clone, Copy, Debug, PartialEq, Eq, Structural)]
pub enum Filter {
    Nearest,
    Linear,
}

/// The subresource of the source image a blit reads from.
#[derive(Clone, Copy, Debug, PartialEq, Eq, Structural)]
pub struct SubresourceLayers {
    pub mip_level: u32,
    pub base_array_layer: u32,
    pub layer_count: u32,
}

/// The caller-rendered image handed in for presentation: its extent and
/// the layout the caller put it in. It must already be in the
/// transfer-source layout when a frame is prepared.
#[derive(Clone, Copy, Debug, PartialEq, Eq, Structural)]
pub struct SourceImage {
    pub extent: Extent3D,
    pub layout: ImageLayout,
}

/// A reference to one synchronization primitive: a frame slot's
/// image-acquired semaphore, a frame slot's work-complete (blit) semaphore,
/// or a caller-supplied extra wait semaphore named by its id.
#[derive(Clone, Copy, Debug, PartialEq, Eq, Structural)]
pub enum SyncRef {
    AcquireSemaphore { slot: usize },
    BlitSemaphore { slot: usize },
    External { id: u64 },
}

/// What the backend's acquire call reported: a usable image index, a
/// suboptimal-surface index (treated as "refresh needed"), an out-of-date
/// surface, or a hard failure (a timeout included).
#[derive(Debug)]
pub enum AcquireOutcome {
    Acquired { image_index: u32 },
    Suboptimal { image_index: u32 },
    OutOfDate,
    Failed { reason: String },
}

/// What the backend's completion-fence wait reported. `NotAttempted` is
/// what a backend passes when the engine did not ask for a wait.
#[derive(Debug)]
pub enum FenceWaitOutcome {
    NotAttempted,
    Signaled,
    TimedOut,
    Failed { reason: String },
}

/// What the backend's queue submission reported.
#[derive(Debug)]
pub enum SubmitOutcome {
    Submitted,
    Failed { reason: String },
}

/// What the backend's present call reported: presented, an out-of-date
/// surface, or a failure for some other reason.
#[derive(Debug)]
pub enum PresentOutcome {
    Completed,
    OutOfDate,
    Failed { reason: String },
}

/// All of one frame's device outcomes in a bundle, for driving a whole
/// frame through the engine in a single call.
#[derive(Debug)]
pub struct FrameIo {
    pub acquire: AcquireOutcome,
    pub fence_wait: FenceWaitOutcome,
    pub submit: SubmitOutcome,
    pub present: PresentOutcome,
}

/// What a backend must do first on every frame: which ring slot the frame
/// uses, whether that slot's completion fence must be waited on and reset
/// before the slot's command buffer may be touched, and the semaphore and
/// timeouts for the wait and the acquire.
#[derive(Clone, Copy, Debug, PartialEq, Eq, Structural)]
pub struct FrameStart {
    pub slot: usize,
    pub must_wait_fence: bool,
    pub fence_wait_timeout_ns: u64,
    pub acquire_semaphore: SyncRef,
    pub acquire_timeout_ns: u64,
}

/// One step of the engine's teardown sequence, in the order the backend
/// must perform them.
#[derive(Clone, Copy, Debug, PartialEq, Eq, Structural)]
pub enum TeardownStep {
    WaitPresentingFence { slot: usize },
    DestroyCommandPool,
    DestroySyncObjects,
    DestroySwapchain,
    DestroySurface,
}

/// The blit recorded into a frame: the caller-given source subresource and
/// region, scaled onto the whole extent of the presentable image with the
/// caller-given filter.
#[derive(Clone, Copy, Debug, PartialEq, Eq, Structural)]
pub struct BlitCommand {
    pub src_subresource: SubresourceLayers,
    pub src_begin: Offset3D,
    pub src_end: Offset3D,
    pub dst_extent: Extent2D,
    pub filter: Filter,
}

/// Everything the backend must record and submit for one admitted frame:
/// the ring slot, the acquired image, whether the slot's fence was recycled
/// first, the pre-blit layout transition's old layout, the blit, and the
/// wait/signal wiring of the submission and the present.
///
/// The command buffer transitions the presentable image from
/// `pre_blit_old_layout` to the transfer-destination layout, blits, and
/// transitions it back to the present-ready layout. The submission waits on
/// the listed semaphores, signals the slot's work-complete semaphore and the
/// slot's fence; the present waits on the work-complete semaphore.
#[derive(Clone, Debug)]
pub struct FrameSubmission {
    pub slot: usize,
    pub image_index: u32,
    pub fence_recycled: bool,
    pub pre_blit_old_layout: ImageLayout,
    pub blit: BlitCommand,
    pub submit_waits: Vec<SyncRef>,
    pub submit_signal: SyncRef,
    pub fence_slot: usize,
    pub present_wait: SyncRef,
}

} // verus!
