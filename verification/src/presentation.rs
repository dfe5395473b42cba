//! The presentation engine: a fixed ring of frame slots, the model of the
//! live swapchain, and the acquire/blit/submit/present protocol with its
//! recovery path.
//!
//! The engine is a verified state machine over plain values. The unverified
//! backend owns the real device objects: on every frame it asks the engine
//! what to do (`begin_frame`, `prepare_frame`), performs the device calls,
//! and reports their outcomes back (`complete_frame`). The single-call
//! `present_image_content` drives a whole frame from one bundle of
//! outcomes.

use vstd::prelude::*;

use crate::errors::PresentManagerError;
use crate::frame::ACQUIRE_TIMEOUT_NS;
use crate::frame::AcquireOutcome;
use crate::frame::BlitCommand;
use crate::frame::FENCE_WAIT_TIMEOUT_NS;
use crate::frame::FenceWaitOutcome;
use crate::frame::Filter;
use crate::frame::FrameIo;
use crate::frame::FrameStart;
use crate::frame::FrameSubmission;
use crate::frame::ImageLayout;
use crate::frame::PresentOutcome;
use crate::frame::SourceImage;
use crate::frame::SubmitOutcome;
use crate::frame::SubresourceLayers;
use crate::frame::SyncRef;
use crate::frame::TeardownStep;
use crate::geom::Extent2D;
use crate::geom::Offset3D;
use crate::surface::SurfaceInfo;
use crate::swapchain::Swapchain;
use crate::swapchain::SwapchainConfig;
use crate::swapchain::SwapchainCreateOutcome;
use crate::swapchain::plan_swapchain;
use crate::swapchain::plan_swapchain_spec;

verus! {

/// The default ring depth: three frames in flight.
pub const DEFAULT_FRAMES_IN_FLIGHT: usize = 3;

/// One slot of the frame-resource ring. The real slot owns an
/// image-acquired semaphore, a work-complete semaphore, a completion fence
/// and a command buffer; the model tracks the one fact the protocol turns
/// on: whether a submission on this slot is still unconfirmed, so that its
/// fence must be waited on and reset before the slot is reused.
#[derive(Clone, Copy, Debug, PartialEq, Eq, Structural)]
pub struct FrameSlot {
    pub fence_armed: bool,
}

/// The frame most recently submitted for presentation: which ring slot
/// carried it and which swapchain image it presented.
#[derive(Clone, Copy, Debug, PartialEq, Eq, Structural)]
pub struct PresentingFrame {
    pub slot: usize,
    pub image_index: u32,
}

/// The presentation engine's state: the fixed frame-slot ring, the current
/// ring position, the most recently submitted frame (if any work may still
/// be in flight), and the model of the live swapchain. The ghost counters
/// record how many swapchains were ever created and retired; one chain is
/// live at all times, so creations always exceed retirements by exactly
/// one.
pub struct PresentManager {
    pub slots: Vec<FrameSlot>,
    pub current_slot: usize,
    pub presenting: Option<PresentingFrame>,
    pub swapchain: Swapchain,
    pub swapchains_created: Ghost<nat>,
    pub swapchains_retired: Ghost<nat>,
}

impl PresentManager {
    /// The engine's invariant: at least two ring slots, the ring position in
    /// range, at least one presentable image, any recorded in-flight frame
    /// pointing at a real slot and image with that slot's fence armed, and
    /// exactly one live swapchain (created = retired + 1).
    pub open spec fn wf(&self) -> bool {
        &&& 2 <= self.slots@.len()
        &&& (self.current_slot as int) < self.slots@.len()
        &&& 1 <= self.swapchain.image_count()
        &&& (self.presenting matches Some(p) ==> {
            &&& (p.slot as int) < self.slots@.len()
            &&& (p.image_index as int) < self.swapchain.image_count()
            &&& self.slots@[p.slot as int].fence_armed
        })
        &&& self.swapchains_created@ == self.swapchains_retired@ + 1
    }

    /// The layout the next pre-blit barrier must assume for an image:
    /// present-ready once the image has been presented since the last
    /// recreation, undefined on its first ever use.
    pub open spec fn pre_blit_layout_spec(&self, image_index: int) -> ImageLayout
        recommends
            0 <= image_index < self.swapchain.image_count(),
    {
        if self.swapchain.image_init_done@[image_index] {
            ImageLayout::PresentSrc
        } else {
            ImageLayout::Undefined
        }
    }

    /// When a frame is admitted to recording: the acquire produced a usable
    /// image index inside the chain, and, if the current slot still has an
    /// unconfirmed submission, its completion fence was observed signaled.
    pub open spec fn frame_admitted(
        &self,
        acquire: AcquireOutcome,
        fence_wait: FenceWaitOutcome,
    ) -> bool {
        &&& acquire matches AcquireOutcome::Acquired { image_index }
        &&& (acquire->Acquired_image_index as int) < self.swapchain.image_count()
        &&& (self.slots@[self.current_slot as int].fence_armed ==> fence_wait is Signaled)
    }

    /// Whether a planned submission belongs to this engine state: it uses
    /// the current slot, an image inside the chain, and records truthfully
    /// whether the slot's fence was recycled.
    pub open spec fn valid_submission(&self, sub: FrameSubmission) -> bool {
        &&& sub.slot == self.current_slot
        &&& (sub.image_index as int) < self.swapchain.image_count()
        &&& sub.fence_recycled == self.slots@[sub.slot as int].fence_armed
        &&& sub.fence_slot == sub.slot
    }

    /// Constructs the engine: the slot ring (all fences unarmed), ring
    /// position zero, nothing in flight, and the model of the swapchain
    /// just created from the planned configuration. A creation failure is
    /// a construction failure.
    pub fn new(
        frames_in_flight: usize,
        surface: &SurfaceInfo,
        requested_extent: Extent2D,
        create: SwapchainCreateOutcome,
    ) -> (result: Result<PresentManager, PresentManagerError>)
        requires
            2 <= frames_in_flight,
            surface.formats@.len() > 0,
            surface.capabilities.min_image_count < u32::MAX,
            create matches SwapchainCreateOutcome::Created { image_count } ==> image_count >= 1,
        ensures
            result is Ok <==> create is Created,
            create matches SwapchainCreateOutcome::Failed { reason } ==> (result matches Err(
                PresentManagerError::InitError(r),
            ) && r == reason),
            result matches Ok(engine) ==> {
                &&& engine.wf()
                &&& engine.slots@.len() == frames_in_flight
                &&& forall|i: int|
                    0 <= i < frames_in_flight ==> !(#[trigger] engine.slots@[i]).fence_armed
                &&& engine.current_slot == 0
                &&& engine.presenting is None
                &&& (create matches SwapchainCreateOutcome::Created { image_count }
                    ==> engine.swapchain.is_fresh(
                    plan_swapchain_spec(
                        surface.formats@,
                        surface.capabilities,
                        surface.present_modes@,
                        requested_extent,
                    ),
                    image_count as int,
                ))
                &&& engine.swapchains_created@ == 1
                &&& engine.swapchains_retired@ == 0
            },
    {
        match create {
            SwapchainCreateOutcome::Failed { reason } => {
                Err(PresentManagerError::InitError(reason))
            },
            SwapchainCreateOutcome::Created { image_count } => {
                let config = plan_swapchain(surface, requested_extent);
                let chain = Swapchain::new_fresh(config, image_count);
                let mut ring: Vec<FrameSlot> = Vec::new();
                let mut i: usize = 0;
                while i < frames_in_flight
                    invariant
                        0 <= i <= frames_in_flight,
                        ring@.len() == i,
                        forall|j: int| 0 <= j < i ==> !(#[trigger] ring@[j]).fence_armed,
                    decreases frames_in_flight - i,
                {
                    ring.push(FrameSlot { fence_armed: false });
                    i = i + 1;
                }
                Ok(
                    PresentManager {
                        slots: ring,
                        current_slot: 0,
                        presenting: None,
                        swapchain: chain,
                        swapchains_created: Ghost(1),
                        swapchains_retired: Ghost(0),
                    },
                )
            },
        }
    }

    /// Decides one frame from the acquire and fence-wait outcomes: either
    /// the exact submission to record, or the error classifying why the
    /// frame is dropped or a refresh is needed. Nothing may be recorded
    /// into the current slot's command buffer unless this returns the
    /// submission, and it never does so while the slot's previous
    /// completion fence stands unobserved — that gate is what bounds the
    /// frames in flight to the ring depth.
    pub fn prepare_frame(
        &self,
        src_image: &SourceImage,
        src_subresource: SubresourceLayers,
        src_range_begin: Offset3D,
        src_range_end: Offset3D,
        filter: Filter,
        wait_for: Vec<u64>,
        acquire: AcquireOutcome,
        fence_wait: FenceWaitOutcome,
    ) -> (result: Result<FrameSubmission, PresentManagerError>)
        requires
            self.wf(),
            src_image.layout is TransferSrc,
        ensures
            result is Ok <==> self.frame_admitted(acquire, fence_wait),
            result is Ok ==> (self.slots@[self.current_slot as int].fence_armed ==> fence_wait
                is Signaled),
            result matches Ok(sub) ==> {
                &&& self.valid_submission(sub)
                &&& sub.slot == self.current_slot
                &&& sub.image_index == acquire->Acquired_image_index
                &&& sub.fence_recycled == self.slots@[self.current_slot as int].fence_armed
                &&& sub.pre_blit_old_layout == self.pre_blit_layout_spec(sub.image_index as int)
                &&& sub.blit.src_subresource == src_subresource
                &&& sub.blit.src_begin == src_range_begin
                &&& sub.blit.src_end == src_range_end
                &&& sub.blit.dst_extent == self.swapchain.extent
                &&& sub.blit.filter == filter
                &&& sub.submit_waits@.len() == wait_for@.len() + 1
                &&& forall|i: int|
                    0 <= i < wait_for@.len() ==> #[trigger] sub.submit_waits@[i]
                        == (SyncRef::External { id: wait_for@[i] })
                &&& sub.submit_waits@[wait_for@.len() as int] == (SyncRef::AcquireSemaphore {
                    slot: self.current_slot,
                })
                &&& sub.submit_signal == (SyncRef::BlitSemaphore { slot: self.current_slot })
                &&& sub.fence_slot == self.current_slot
                &&& sub.present_wait == (SyncRef::BlitSemaphore { slot: self.current_slot })
            },
            result matches Err(PresentManagerError::RefreshNeeded) <==> (acquire is OutOfDate
                || acquire is Suboptimal),
            acquire matches AcquireOutcome::Failed { reason } ==> (result matches Err(
                PresentManagerError::PresentError(r),
            ) && r == reason),
            fence_wait matches FenceWaitOutcome::Failed { reason } ==> ((
            self.slots@[self.current_slot as int].fence_armed && acquire is Acquired && (
            acquire->Acquired_image_index as int) < self.swapchain.image_count()) ==> (result
                matches Err(PresentManagerError::PresentError(r)) && r == reason)),
            !(result matches Err(PresentManagerError::InitError(_))),
            !(result matches Err(PresentManagerError::RefreshError(_))),
    {
        let armed = self.slots[self.current_slot].fence_armed;
        let image_index: u32 = match acquire {
            AcquireOutcome::Acquired { image_index } => image_index,
            AcquireOutcome::Suboptimal { image_index: _ } => {
                return Err(PresentManagerError::RefreshNeeded);
            },
            AcquireOutcome::OutOfDate => {
                return Err(PresentManagerError::RefreshNeeded);
            },
            AcquireOutcome::Failed { reason } => {
                return Err(PresentManagerError::PresentError(reason));
            },
        };
        if image_index as usize >= self.swapchain.image_init_done.len() {
            return Err(
                PresentManagerError::PresentError(
                    "acquire returned an image index outside the swapchain".to_owned(),
                ),
            );
        }
        if armed {
            match fence_wait {
                FenceWaitOutcome::Signaled => {},
                FenceWaitOutcome::Failed { reason } => {
                    return Err(PresentManagerError::PresentError(reason));
                },
                FenceWaitOutcome::TimedOut => {
                    return Err(
                        PresentManagerError::PresentError(
                            "timed out waiting for the frame slot's completion fence".to_owned(),
                        ),
                    );
                },
                FenceWaitOutcome::NotAttempted => {
                    return Err(
                        PresentManagerError::PresentError(
                            "the frame slot's completion fence was not waited on".to_owned(),
                        ),
                    );
                },
            }
        }
        let pre_blit_old_layout = if self.swapchain.image_init_done[image_index as usize] {
            ImageLayout::PresentSrc
        } else {
            ImageLayout::Undefined
        };
        let mut submit_waits: Vec<SyncRef> = Vec::new();
        let mut i: usize = 0;
        let extra_count: usize = wait_for.len();
        while i < extra_count
            invariant
                0 <= i <= extra_count,
                extra_count == wait_for@.len(),
                submit_waits@.len() == i,
                forall|j: int|
                    0 <= j < i ==> #[trigger] submit_waits@[j] == (SyncRef::External {
                        id: wait_for@[j],
                    }),
            decreases extra_count - i,
        {
            submit_waits.push(SyncRef::External { id: wait_for[i] });
            i = i + 1;
        }
        submit_waits.push(SyncRef::AcquireSemaphore { slot: self.current_slot });
        Ok(
            FrameSubmission {
                slot: self.current_slot,
                image_index,
                fence_recycled: armed,
                pre_blit_old_layout,
                blit: BlitCommand {
                    src_subresource,
                    src_begin: src_range_begin,
                    src_end: src_range_end,
                    dst_extent: self.swapchain.extent,
                    filter,
                },
                submit_waits,
                submit_signal: SyncRef::BlitSemaphore { slot: self.current_slot },
                fence_slot: self.current_slot,
                present_wait: SyncRef::BlitSemaphore { slot: self.current_slot },
            },
        )
    }

    /// Records the outcome of one prepared frame. On a successful
    /// submission the slot's fence is armed again, the presented image's
    /// init flag is set (the submitted barriers transitioned it whatever
    /// the present call then did), and the frame is recorded as the one in
    /// flight; the ring advances only when the present itself completed.
    /// On a failed submission nothing was handed to the device: the slot's
    /// fence stays (or becomes) unarmed and the frame is dropped. An
    /// out-of-date present is the recoverable "refresh needed" signal.
    pub fn complete_frame(
        &mut self,
        sub: &FrameSubmission,
        submit: SubmitOutcome,
        present: PresentOutcome,
    ) -> (result: Result<(), PresentManagerError>)
        requires
            old(self).wf(),
            old(self).valid_submission(*sub),
        ensures
            final(self).wf(),
            final(self).slots@.len() == old(self).slots@.len(),
            final(self).swapchain.format == old(self).swapchain.format,
            final(self).swapchain.extent == old(self).swapchain.extent,
            final(self).swapchain.present_mode == old(self).swapchain.present_mode,
            final(self).swapchain.image_count() == old(self).swapchain.image_count(),
            final(self).swapchains_created@ == old(self).swapchains_created@,
            final(self).swapchains_retired@ == old(self).swapchains_retired@,
            forall|i: int|
                0 <= i < old(self).slots@.len() && i != sub.slot ==> final(self).slots@[i] == old(
                    self,
                ).slots@[i],
            result is Ok <==> (submit is Submitted && present is Completed),
            submit matches SubmitOutcome::Failed { reason } ==> {
                &&& result matches Err(PresentManagerError::PresentError(r)) && r == reason
                &&& !final(self).slots@[sub.slot as int].fence_armed
                &&& final(self).current_slot == old(self).current_slot
                &&& final(self).swapchain.image_init_done@ == old(
                    self,
                ).swapchain.image_init_done@
                &&& final(self).presenting == (if sub.fence_recycled && (old(self).presenting
                    matches Some(p) && p.slot == sub.slot) {
                    None::<PresentingFrame>
                } else {
                    old(self).presenting
                })
            },
            submit is Submitted ==> {
                &&& final(self).slots@[sub.slot as int].fence_armed
                &&& final(self).swapchain.image_init_done@ == old(
                    self,
                ).swapchain.image_init_done@.update(sub.image_index as int, true)
                &&& final(self).presenting == Some(
                    PresentingFrame { slot: sub.slot, image_index: sub.image_index },
                )
                &&& (present is Completed ==> final(self).current_slot as int == (old(
                    self,
                ).current_slot + 1) as int % (old(self).slots@.len() as int))
                &&& (!(present is Completed) ==> final(self).current_slot == old(
                    self,
                ).current_slot)
                &&& (present is OutOfDate ==> result matches Err(
                    PresentManagerError::RefreshNeeded,
                ))
                &&& (present matches PresentOutcome::Failed { reason } ==> (result matches Err(
                    PresentManagerError::PresentError(r),
                ) && r == reason))
            },
    {
        match submit {
            SubmitOutcome::Failed { reason } => {
                self.slots.set(sub.slot, FrameSlot { fence_armed: false });
                if sub.fence_recycled {
                    match self.presenting {
                        Some(p) => {
                            if p.slot == sub.slot {
                                self.presenting = None;
                            }
                        },
                        None => {},
                    }
                }
                Err(PresentManagerError::PresentError(reason))
            },
            SubmitOutcome::Submitted => {
                self.slots.set(sub.slot, FrameSlot { fence_armed: true });
                self.swapchain.image_init_done.set(sub.image_index as usize, true);
                self.presenting = Some(
                    PresentingFrame { slot: sub.slot, image_index: sub.image_index },
                );
                match present {
                    PresentOutcome::Completed => {
                        let ring_len: usize = self.slots.len();
                        assert(self.current_slot < ring_len);
                        self.current_slot = (self.current_slot + 1) % ring_len;
                        Ok(())
                    },
                    PresentOutcome::OutOfDate => Err(PresentManagerError::RefreshNeeded),
                    PresentOutcome::Failed { reason } => Err(
                        PresentManagerError::PresentError(reason),
                    ),
                }
            },
        }
    }

    /// Drains the frame currently mid-presentation, if any: returns which
    /// slot's completion fence the backend must wait on (bounded by
    /// `FENCE_WAIT_TIMEOUT_NS`) and reset, and records that nothing is in
    /// flight any more. Safe to call when nothing is presenting.
    pub fn wait_for_present(&mut self) -> (drained: Option<PresentingFrame>)
        requires
            old(self).wf(),
        ensures
            final(self).wf(),
            drained == old(self).presenting,
            final(self).presenting is None,
            final(self).current_slot == old(self).current_slot,
            final(self).swapchain.same_model(&old(self).swapchain),
            final(self).swapchains_created@ == old(self).swapchains_created@,
            final(self).swapchains_retired@ == old(self).swapchains_retired@,
            old(self).presenting matches Some(p) ==> final(self).slots@ == old(
                self,
            ).slots@.update(p.slot as int, (FrameSlot { fence_armed: false })),
            old(self).presenting is None ==> final(self).slots@ == old(self).slots@,
    {
        let drained = self.presenting;
        match drained {
            Some(p) => {
                self.slots.set(p.slot, FrameSlot { fence_armed: false });
            },
            None => {},
        }
        self.presenting = None;
        drained
    }

    /// Recreates the swapchain against the surface's current report: drains
    /// any frame mid-presentation, plans the new configuration (the
    /// caller's extent is used only where the surface reports the undefined
    /// sentinel), and, when the backend reports the creation succeeded,
    /// installs the fresh image set with every init flag false — the new
    /// images have undefined initial layout even though the old ones did
    /// not. The frame-slot ring is never destroyed or resized here. The old
    /// chain is retired exactly when the new one is created, so creations
    /// always exceed retirements by exactly one.
    pub fn refresh_swapchain(
        &mut self,
        new_size: Extent2D,
        surface: &SurfaceInfo,
        create: SwapchainCreateOutcome,
    ) -> (result: Result<(), PresentManagerError>)
        requires
            old(self).wf(),
            surface.formats@.len() > 0,
            surface.capabilities.min_image_count < u32::MAX,
            create matches SwapchainCreateOutcome::Created { image_count } ==> image_count >= 1,
        ensures
            final(self).wf(),
            result is Ok <==> create is Created,
            final(self).presenting is None,
            final(self).current_slot == old(self).current_slot,
            final(self).slots@.len() == old(self).slots@.len(),
            old(self).presenting matches Some(p) ==> final(self).slots@ == old(
                self,
            ).slots@.update(p.slot as int, (FrameSlot { fence_armed: false })),
            old(self).presenting is None ==> final(self).slots@ == old(self).slots@,
            create matches SwapchainCreateOutcome::Created { image_count } ==> {
                &&& final(self).swapchain.is_fresh(
                    plan_swapchain_spec(
                        surface.formats@,
                        surface.capabilities,
                        surface.present_modes@,
                        new_size,
                    ),
                    image_count as int,
                )
                &&& final(self).swapchains_created@ == old(self).swapchains_created@ + 1
                &&& final(self).swapchains_retired@ == old(self).swapchains_retired@ + 1
            },
            create matches SwapchainCreateOutcome::Failed { reason } ==> {
                &&& result matches Err(PresentManagerError::RefreshError(r)) && r == reason
                &&& final(self).swapchain.same_model(&old(self).swapchain)
                &&& final(self).swapchains_created@ == old(self).swapchains_created@
                &&& final(self).swapchains_retired@ == old(self).swapchains_retired@
            },
    {
        let _ = self.wait_for_present();
        match create {
            SwapchainCreateOutcome::Failed { reason } => {
                Err(PresentManagerError::RefreshError(reason))
            },
            SwapchainCreateOutcome::Created { image_count } => {
                let config = plan_swapchain(surface, new_size);
                self.swapchain = Swapchain::new_fresh(config, image_count);
                proof {
                    self.swapchains_created@ = self.swapchains_created@ + 1;
                    self.swapchains_retired@ = self.swapchains_retired@ + 1;
                }
                Ok(())
            },
        }
    }

    /// Drives one whole frame from a bundle of device outcomes: the
    /// acquire/fence-wait decision, then the submission/present
    /// bookkeeping. Returns the submission the backend was to record on
    /// success; the error otherwise classifies the frame exactly as the
    /// two-step path does. Blit the given source region onto the whole
    /// extent of the next presentable image and present it; the source
    /// image must already be in the transfer-source layout.
    pub fn present_image_content(
        &mut self,
        src_image: &SourceImage,
        src_subresource: SubresourceLayers,
        src_range_begin: Offset3D,
        src_range_end: Offset3D,
        filter: Filter,
        wait_for: Vec<u64>,
        io: FrameIo,
    ) -> (result: Result<FrameSubmission, PresentManagerError>)
        requires
            old(self).wf(),
            src_image.layout is TransferSrc,
        ensures
            final(self).wf(),
            final(self).slots@.len() == old(self).slots@.len(),
            final(self).swapchain.format == old(self).swapchain.format,
            final(self).swapchain.extent == old(self).swapchain.extent,
            final(self).swapchain.present_mode == old(self).swapchain.present_mode,
            final(self).swapchain.image_count() == old(self).swapchain.image_count(),
            final(self).swapchains_created@ == old(self).swapchains_created@,
            final(self).swapchains_retired@ == old(self).swapchains_retired@,
            result is Ok <==> (old(self).frame_admitted(io.acquire, io.fence_wait) && io.submit
                is Submitted && io.present is Completed),
            !old(self).frame_admitted(io.acquire, io.fence_wait) ==> *final(self) == *old(self),
            result matches Ok(sub) ==> {
                &&& sub.slot == old(self).current_slot
                &&& sub.image_index == io.acquire->Acquired_image_index
                &&& sub.fence_recycled == old(self).slots@[old(self).current_slot as int].fence_armed
                &&& sub.pre_blit_old_layout == old(self).pre_blit_layout_spec(
                    sub.image_index as int,
                )
                &&& sub.blit.dst_extent == old(self).swapchain.extent
                &&& sub.blit.filter == filter
                &&& final(self).slots@[sub.slot as int].fence_armed
                &&& final(self).swapchain.image_init_done@ == old(
                    self,
                ).swapchain.image_init_done@.update(sub.image_index as int, true)
                &&& final(self).presenting == Some(
                    PresentingFrame { slot: sub.slot, image_index: sub.image_index },
                )
                &&& final(self).current_slot as int == (old(self).current_slot + 1) as int % (old(
                    self,
                ).slots@.len() as int)
            },
            (io.acquire is OutOfDate || io.acquire is Suboptimal) ==> (result matches Err(
                PresentManagerError::RefreshNeeded,
            ) && *final(self) == *old(self)),
            (old(self).frame_admitted(io.acquire, io.fence_wait) && io.submit is Submitted
                && io.present is OutOfDate) ==> result matches Err(
                PresentManagerError::RefreshNeeded,
            ),
            io.submit matches SubmitOutcome::Failed { reason } ==> (old(self).frame_admitted(
                io.acquire,
                io.fence_wait,
            ) ==> {
                &&& result matches Err(PresentManagerError::PresentError(r)) && r == reason
                &&& !final(self).slots@[old(self).current_slot as int].fence_armed
                &&& final(self).swapchain.image_init_done@ == old(
                    self,
                ).swapchain.image_init_done@
                &&& final(self).current_slot == old(self).current_slot
            }),
            !(result matches Err(PresentManagerError::InitError(_))),
            !(result matches Err(PresentManagerError::RefreshError(_))),
    {
        let submission = match self.prepare_frame(
            src_image,
            src_subresource,
            src_range_begin,
            src_range_end,
            filter,
            wait_for,
            io.acquire,
            io.fence_wait,
        ) {
            Ok(sub) => sub,
            Err(e) => {
                return Err(e);
            },
        };
        match self.complete_frame(&submission, io.submit, io.present) {
            Ok(()) => Ok(submission),
            Err(e) => Err(e),
        }
    }

    /// The fixed teardown sequence: drain the frame mid-presentation when
    /// one exists, then destroy the command pool (which frees every slot's
    /// command buffer), the slots' synchronization objects, the swapchain,
    /// and the surface, in that dependency order. Destroying any of these
    /// while device work still references them is undefined behavior in
    /// the presentation backend, so the order is a correctness requirement.
    pub fn teardown_steps(&self) -> (steps: Vec<TeardownStep>)
        requires
            self.wf(),
        ensures
            self.presenting matches Some(p) ==> steps@ == seq![
                (TeardownStep::WaitPresentingFence { slot: p.slot }),
                TeardownStep::DestroyCommandPool,
                TeardownStep::DestroySyncObjects,
                TeardownStep::DestroySwapchain,
                TeardownStep::DestroySurface,
            ],
            self.presenting is None ==> steps@ == seq![
                TeardownStep::DestroyCommandPool,
                TeardownStep::DestroySyncObjects,
                TeardownStep::DestroySwapchain,
                TeardownStep::DestroySurface,
            ],
    {
        let mut steps: Vec<TeardownStep> = Vec::new();
        match self.presenting {
            Some(p) => {
                steps.push(TeardownStep::WaitPresentingFence { slot: p.slot });
            },
            None => {},
        }
        steps.push(TeardownStep::DestroyCommandPool);
        steps.push(TeardownStep::DestroySyncObjects);
        steps.push(TeardownStep::DestroySwapchain);
        steps.push(TeardownStep::DestroySurface);
        proof {
            match self.presenting {
                Some(p) => {
                    assert(steps@ =~= seq![
                        (TeardownStep::WaitPresentingFence { slot: p.slot }),
                        TeardownStep::DestroyCommandPool,
                        TeardownStep::DestroySyncObjects,
                        TeardownStep::DestroySwapchain,
                        TeardownStep::DestroySurface,
                    ]);
                },
                None => {
                    assert(steps@ =~= seq![
                        TeardownStep::DestroyCommandPool,
                        TeardownStep::DestroySyncObjects,
                        TeardownStep::DestroySwapchain,
                        TeardownStep::DestroySurface,
                    ]);
                },
            }
        }
        steps
    }

    /// What the backend must do first on this frame: which slot is current,
    /// whether that slot's completion fence must be waited on and reset
    /// before its command buffer is reused, and the semaphore and timeouts
    /// for the fence wait and the acquire.
    pub fn begin_frame(&self) -> (start: FrameStart)
        requires
            self.wf(),
        ensures
            start.slot == self.current_slot,
            start.must_wait_fence == self.slots@[self.current_slot as int].fence_armed,
            start.fence_wait_timeout_ns == FENCE_WAIT_TIMEOUT_NS,
            start.acquire_semaphore == (SyncRef::AcquireSemaphore { slot: self.current_slot }),
            start.acquire_timeout_ns == ACQUIRE_TIMEOUT_NS,
    {
        FrameStart {
            slot: self.current_slot,
            must_wait_fence: self.slots[self.current_slot].fence_armed,
            fence_wait_timeout_ns: FENCE_WAIT_TIMEOUT_NS,
            acquire_semaphore: SyncRef::AcquireSemaphore { slot: self.current_slot },
            acquire_timeout_ns: ACQUIRE_TIMEOUT_NS,
        }
    }
}

/// Whatever the ring depth (the invariant asks for at least two slots),
/// no frame is ever admitted to recording into a slot's command buffer
/// while that slot still has an unconfirmed submission whose completion
/// fence has not been observed signaled: `prepare_frame` returns a
/// submission exactly on admitted frames, so this gate bounds the frames
/// in flight to the ring depth.
pub proof fn lemma_no_recording_before_fence_observed(
    engine: PresentManager,
    acquire: AcquireOutcome,
    fence_wait: FenceWaitOutcome,
)
    requires
        engine.wf(),
        engine.frame_admitted(acquire, fence_wait),
        engine.slots@[engine.current_slot as int].fence_armed,
    ensures
        fence_wait is Signaled,
{
}

/// After any successful refresh — in particular after any run of
/// out-of-date acquires, each of which left the engine unchanged — the
/// engine owes presentation again: an acquire yielding any index inside
/// the new chain, with the slot's fence observed signaled, is admitted.
/// And no swapchain has leaked: in every well-formed state, chains ever
/// created exceed chains retired by exactly one (the live one).
pub proof fn lemma_refresh_restores_presentability(engine: PresentManager, image_index: u32)
    requires
        engine.wf(),
        (image_index as int) < engine.swapchain.image_count(),
    ensures
        engine.frame_admitted(
            AcquireOutcome::Acquired { image_index },
            FenceWaitOutcome::Signaled,
        ),
        engine.swapchains_created@ == engine.swapchains_retired@ + 1,
{
}

/// Refreshing is free of drift: two refreshes answered with the same
/// surface report and the same created image count install chains with
/// identical extent, image count, format and present mode — whatever
/// state each engine was in. Refreshing twice in a row with the same
/// extent is the special case of equal reports.
pub proof fn lemma_refresh_idempotent(
    a: PresentManager,
    b: PresentManager,
    config: SwapchainConfig,
    image_count: int,
)
    requires
        a.swapchain.is_fresh(config, image_count),
        b.swapchain.is_fresh(config, image_count),
    ensures
        a.swapchain.extent == b.swapchain.extent,
        a.swapchain.image_count() == b.swapchain.image_count(),
        a.swapchain.format == b.swapchain.format,
        a.swapchain.present_mode == b.swapchain.present_mode,
        forall|k: int|
            0 <= k < image_count ==> a.pre_blit_layout_spec(k) == b.pre_blit_layout_spec(k),
{
}

/// On a just-created chain every image's first presentation assumes the
/// undefined layout: recreation resets the per-image init flags even when
/// the old images had been presented.
pub proof fn lemma_fresh_chain_layouts(
    engine: PresentManager,
    config: SwapchainConfig,
    image_count: int,
    image_index: int,
)
    requires
        engine.swapchain.is_fresh(config, image_count),
        0 <= image_index < image_count,
    ensures
        engine.pre_blit_layout_spec(image_index) == ImageLayout::Undefined,
{
}

/// Once an image's submission went to the device — the relation a
/// successful `complete_frame` establishes — every later presentation of
/// that image assumes the present-ready layout, and no other image's
/// assumption changes. With `lemma_fresh_chain_layouts` this is the whole
/// init-flag story: undefined on first use, present-ready thereafter,
/// until the next recreation.
pub proof fn lemma_pre_blit_layout_progression(
    before: PresentManager,
    after: PresentManager,
    image_index: int,
)
    requires
        0 <= image_index < before.swapchain.image_count(),
        after.swapchain.image_init_done@ == before.swapchain.image_init_done@.update(
            image_index,
            true,
        ),
    ensures
        after.pre_blit_layout_spec(image_index) == ImageLayout::PresentSrc,
        forall|j: int|
            0 <= j < before.swapchain.image_count() && j != image_index
                ==> after.pre_blit_layout_spec(j) == before.pre_blit_layout_spec(j),
{
}

} // verus!
