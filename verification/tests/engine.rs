use prism_renderer::errors::PresentManagerError;
use prism_renderer::frame::AcquireOutcome;
use prism_renderer::frame::FenceWaitOutcome;
use prism_renderer::frame::Filter;
use prism_renderer::frame::FrameIo;
use prism_renderer::frame::ImageLayout;
use prism_renderer::frame::PresentOutcome;
use prism_renderer::frame::SourceImage;
use prism_renderer::frame::SubmitOutcome;
use prism_renderer::frame::SubresourceLayers;
use prism_renderer::frame::SyncRef;
use prism_renderer::frame::TeardownStep;
use prism_renderer::geom::Extent2D;
use prism_renderer::geom::Extent3D;
use prism_renderer::geom::Offset3D;
use prism_renderer::presentation::PresentManager;
use prism_renderer::surface::COLOR_SPACE_SRGB_NONLINEAR;
use prism_renderer::surface::PRESENT_MODE_FIFO;
use prism_renderer::surface::SurfaceCapabilities;
use prism_renderer::surface::SurfaceFormat;
use prism_renderer::surface::SurfaceInfo;
use prism_renderer::surface::TRANSFORM_IDENTITY;
use prism_renderer::surface::UNDEFINED_EXTENT_WIDTH;
use prism_renderer::swapchain::SwapchainCreateOutcome;

fn mock_surface(min_images: u32, max_images: u32) -> SurfaceInfo {
    SurfaceInfo {
        formats: vec![SurfaceFormat { format: 44, color_space: COLOR_SPACE_SRGB_NONLINEAR }],
        capabilities: SurfaceCapabilities {
            min_image_count: min_images,
            max_image_count: max_images,
            current_extent: Extent2D { width: UNDEFINED_EXTENT_WIDTH, height: 0 },
            supported_transforms: TRANSFORM_IDENTITY,
            current_transform: TRANSFORM_IDENTITY,
        },
        present_modes: vec![PRESENT_MODE_FIFO],
    }
}

fn source_image() -> SourceImage {
    SourceImage {
        extent: Extent3D { width: 800, height: 600, depth: 1 },
        layout: ImageLayout::TransferSrc,
    }
}

fn good_io(image_index: u32) -> FrameIo {
    FrameIo {
        acquire: AcquireOutcome::Acquired { image_index },
        fence_wait: FenceWaitOutcome::Signaled,
        submit: SubmitOutcome::Submitted,
        present: PresentOutcome::Completed,
    }
}

fn present_once(
    engine: &mut PresentManager,
    io: FrameIo,
) -> Result<prism_renderer::frame::FrameSubmission, PresentManagerError> {
    engine.present_image_content(
        &source_image(),
        SubresourceLayers { mip_level: 0, base_array_layer: 0, layer_count: 1 },
        Offset3D { x: 0, y: 0, z: 0 },
        Offset3D { x: 800, y: 600, z: 1 },
        Filter::Nearest,
        vec![],
        io,
    )
}

fn new_engine(frames_in_flight: usize, image_count: u32) -> PresentManager {
    PresentManager::new(
        frames_in_flight,
        &mock_surface(1, image_count),
        Extent2D { width: 800, height: 600 },
        SwapchainCreateOutcome::Created { image_count },
    )
    .unwrap()
}

#[test]
fn construction_builds_fresh_state() {
    let engine = new_engine(3, 2);
    assert_eq!(engine.slots.len(), 3);
    assert_eq!(engine.current_slot, 0);
    assert!(engine.presenting.is_none());
    assert_eq!(engine.swapchain.image_init_done, vec![false, false]);
    assert_eq!(engine.swapchain.extent, Extent2D { width: 800, height: 600 });
    assert!(engine.slots.iter().all(|s| !s.fence_armed));
}

#[test]
fn construction_failure_is_init_error() {
    let result = PresentManager::new(
        3,
        &mock_surface(1, 2),
        Extent2D { width: 800, height: 600 },
        SwapchainCreateOutcome::Failed { reason: String::from("no memory") },
    );
    match result {
        Err(PresentManagerError::InitError(reason)) => assert_eq!(reason, "no memory"),
        _ => panic!("expected an init error"),
    }
}

#[test]
fn five_presents_cycle_the_ring_over_two_images() {
    let mut engine = new_engine(3, 2);
    let mut slots_used: Vec<usize> = vec![];
    let mut images_used: Vec<u32> = vec![];
    for frame in 0..5u32 {
        let image_index = frame % 2;
        let sub = present_once(&mut engine, good_io(image_index)).unwrap();
        slots_used.push(sub.slot);
        images_used.push(sub.image_index);
        assert_eq!(engine.presenting.unwrap().image_index, sub.image_index);
    }
    assert_eq!(slots_used, vec![0, 1, 2, 0, 1]);
    assert!(images_used.iter().all(|&k| k < 2));
    assert_eq!(engine.current_slot, 2);
}

#[test]
fn first_use_of_each_image_assumes_undefined_layout() {
    let mut engine = new_engine(3, 2);
    let sub = present_once(&mut engine, good_io(0)).unwrap();
    assert_eq!(sub.pre_blit_old_layout, ImageLayout::Undefined);
    let sub = present_once(&mut engine, good_io(1)).unwrap();
    assert_eq!(sub.pre_blit_old_layout, ImageLayout::Undefined);
    let sub = present_once(&mut engine, good_io(0)).unwrap();
    assert_eq!(sub.pre_blit_old_layout, ImageLayout::PresentSrc);
    let sub = present_once(&mut engine, good_io(1)).unwrap();
    assert_eq!(sub.pre_blit_old_layout, ImageLayout::PresentSrc);
}

#[test]
fn recreation_resets_every_init_flag() {
    let mut engine = new_engine(3, 2);
    present_once(&mut engine, good_io(0)).unwrap();
    present_once(&mut engine, good_io(1)).unwrap();
    assert_eq!(engine.swapchain.image_init_done, vec![true, true]);
    engine
        .refresh_swapchain(
            Extent2D { width: 800, height: 600 },
            &mock_surface(1, 2),
            SwapchainCreateOutcome::Created { image_count: 2 },
        )
        .unwrap();
    assert_eq!(engine.swapchain.image_init_done, vec![false, false]);
    let sub = present_once(&mut engine, good_io(0)).unwrap();
    assert_eq!(sub.pre_blit_old_layout, ImageLayout::Undefined);
}

#[test]
fn reused_slot_requires_its_fence_observed() {
    let mut engine = new_engine(2, 2);
    present_once(&mut engine, good_io(0)).unwrap();
    present_once(&mut engine, good_io(1)).unwrap();
    assert_eq!(engine.current_slot, 0);
    assert!(engine.slots[0].fence_armed);
    let mut io = good_io(0);
    io.fence_wait = FenceWaitOutcome::TimedOut;
    match present_once(&mut engine, io) {
        Err(PresentManagerError::PresentError(_)) => {}
        _ => panic!("expected a dropped frame on a fence timeout"),
    }
    let mut io = good_io(0);
    io.fence_wait = FenceWaitOutcome::NotAttempted;
    match present_once(&mut engine, io) {
        Err(PresentManagerError::PresentError(_)) => {}
        _ => panic!("expected a dropped frame on a skipped fence wait"),
    }
    let sub = present_once(&mut engine, good_io(0)).unwrap();
    assert!(sub.fence_recycled);
}

#[test]
fn fresh_slot_needs_no_fence_wait() {
    let mut engine = new_engine(3, 2);
    let mut io = good_io(0);
    io.fence_wait = FenceWaitOutcome::NotAttempted;
    let sub = present_once(&mut engine, io).unwrap();
    assert!(!sub.fence_recycled);
}

#[test]
fn out_of_date_acquire_signals_refresh_and_changes_nothing() {
    let mut engine = new_engine(3, 2);
    present_once(&mut engine, good_io(0)).unwrap();
    let flags_before = engine.swapchain.image_init_done.clone();
    for _ in 0..4 {
        let io = FrameIo {
            acquire: AcquireOutcome::OutOfDate,
            fence_wait: FenceWaitOutcome::Signaled,
            submit: SubmitOutcome::Submitted,
            present: PresentOutcome::Completed,
        };
        match present_once(&mut engine, io) {
            Err(PresentManagerError::RefreshNeeded) => {}
            _ => panic!("expected the refresh-needed signal"),
        }
        assert_eq!(engine.current_slot, 1);
        assert_eq!(engine.swapchain.image_init_done, flags_before);
    }
}

#[test]
fn suboptimal_acquire_signals_refresh() {
    let mut engine = new_engine(3, 2);
    let io = FrameIo {
        acquire: AcquireOutcome::Suboptimal { image_index: 0 },
        fence_wait: FenceWaitOutcome::Signaled,
        submit: SubmitOutcome::Submitted,
        present: PresentOutcome::Completed,
    };
    match present_once(&mut engine, io) {
        Err(PresentManagerError::RefreshNeeded) => {}
        _ => panic!("expected the refresh-needed signal"),
    }
}

#[test]
fn recovery_after_out_of_date_acquires() {
    let mut engine = new_engine(3, 2);
    for _ in 0..3 {
        let io = FrameIo {
            acquire: AcquireOutcome::OutOfDate,
            fence_wait: FenceWaitOutcome::Signaled,
            submit: SubmitOutcome::Submitted,
            present: PresentOutcome::Completed,
        };
        assert!(matches!(
            present_once(&mut engine, io),
            Err(PresentManagerError::RefreshNeeded)
        ));
    }
    engine
        .refresh_swapchain(
            Extent2D { width: 800, height: 600 },
            &mock_surface(1, 2),
            SwapchainCreateOutcome::Created { image_count: 2 },
        )
        .unwrap();
    let sub = present_once(&mut engine, good_io(1)).unwrap();
    assert_eq!(sub.image_index, 1);
}

#[test]
fn refresh_twice_with_same_extent_does_not_drift() {
    let mut engine = new_engine(3, 2);
    let surface = mock_surface(1, 2);
    let extent = Extent2D { width: 800, height: 600 };
    engine
        .refresh_swapchain(extent, &surface, SwapchainCreateOutcome::Created { image_count: 2 })
        .unwrap();
    let first_extent = engine.swapchain.extent;
    let first_count = engine.swapchain.image_init_done.len();
    engine
        .refresh_swapchain(extent, &surface, SwapchainCreateOutcome::Created { image_count: 2 })
        .unwrap();
    assert_eq!(engine.swapchain.extent, first_extent);
    assert_eq!(engine.swapchain.image_init_done.len(), first_count);
}

#[test]
fn out_of_date_on_fourth_acquire_then_refresh_then_present() {
    let mut engine = new_engine(3, 2);
    for frame in 0..3u32 {
        present_once(&mut engine, good_io(frame % 2)).unwrap();
    }
    assert_eq!(engine.current_slot, 0);
    let io = FrameIo {
        acquire: AcquireOutcome::OutOfDate,
        fence_wait: FenceWaitOutcome::Signaled,
        submit: SubmitOutcome::Submitted,
        present: PresentOutcome::Completed,
    };
    assert!(matches!(
        present_once(&mut engine, io),
        Err(PresentManagerError::RefreshNeeded)
    ));
    engine
        .refresh_swapchain(
            Extent2D { width: 1024, height: 768 },
            &mock_surface(1, 2),
            SwapchainCreateOutcome::Created { image_count: 2 },
        )
        .unwrap();
    assert_eq!(engine.swapchain.extent, Extent2D { width: 1024, height: 768 });
    let sub = present_once(&mut engine, good_io(0)).unwrap();
    assert_eq!(sub.blit.dst_extent, Extent2D { width: 1024, height: 768 });
    assert_eq!(sub.pre_blit_old_layout, ImageLayout::Undefined);
}

#[test]
fn refresh_failure_is_refresh_error_and_keeps_the_chain() {
    let mut engine = new_engine(3, 2);
    present_once(&mut engine, good_io(0)).unwrap();
    let flags_before = engine.swapchain.image_init_done.clone();
    let result = engine.refresh_swapchain(
        Extent2D { width: 800, height: 600 },
        &mock_surface(1, 2),
        SwapchainCreateOutcome::Failed { reason: String::from("surface lost") },
    );
    match result {
        Err(PresentManagerError::RefreshError(reason)) => assert_eq!(reason, "surface lost"),
        _ => panic!("expected a refresh error"),
    }
    assert_eq!(engine.swapchain.image_init_done, flags_before);
    assert!(engine.presenting.is_none());
}

#[test]
fn acquire_failure_drops_the_frame() {
    let mut engine = new_engine(3, 2);
    let io = FrameIo {
        acquire: AcquireOutcome::Failed { reason: String::from("device lost") },
        fence_wait: FenceWaitOutcome::Signaled,
        submit: SubmitOutcome::Submitted,
        present: PresentOutcome::Completed,
    };
    match present_once(&mut engine, io) {
        Err(PresentManagerError::PresentError(reason)) => assert_eq!(reason, "device lost"),
        _ => panic!("expected a present error"),
    }
    assert_eq!(engine.current_slot, 0);
}

#[test]
fn acquire_index_outside_the_chain_drops_the_frame() {
    let mut engine = new_engine(3, 2);
    let io = good_io(2);
    match present_once(&mut engine, io) {
        Err(PresentManagerError::PresentError(_)) => {}
        _ => panic!("expected a present error"),
    }
}

#[test]
fn submit_failure_disarms_the_slot_and_drops_the_frame() {
    let mut engine = new_engine(3, 2);
    let mut io = good_io(0);
    io.submit = SubmitOutcome::Failed { reason: String::from("queue submit failed") };
    match present_once(&mut engine, io) {
        Err(PresentManagerError::PresentError(reason)) => {
            assert_eq!(reason, "queue submit failed")
        }
        _ => panic!("expected a present error"),
    }
    assert!(!engine.slots[0].fence_armed);
    assert_eq!(engine.swapchain.image_init_done, vec![false, false]);
    assert_eq!(engine.current_slot, 0);
}

#[test]
fn present_failure_keeps_work_in_flight_without_advancing() {
    let mut engine = new_engine(3, 2);
    let mut io = good_io(0);
    io.present = PresentOutcome::Failed { reason: String::from("present failed") };
    match present_once(&mut engine, io) {
        Err(PresentManagerError::PresentError(reason)) => assert_eq!(reason, "present failed"),
        _ => panic!("expected a present error"),
    }
    assert_eq!(engine.current_slot, 0);
    assert!(engine.slots[0].fence_armed);
    assert_eq!(engine.presenting.unwrap().slot, 0);
    assert!(engine.swapchain.image_init_done[0]);
}

#[test]
fn out_of_date_present_signals_refresh() {
    let mut engine = new_engine(3, 2);
    let mut io = good_io(0);
    io.present = PresentOutcome::OutOfDate;
    assert!(matches!(
        present_once(&mut engine, io),
        Err(PresentManagerError::RefreshNeeded)
    ));
    assert_eq!(engine.current_slot, 0);
    assert!(engine.slots[0].fence_armed);
}

#[test]
fn submission_wiring_uses_the_slot_primitives() {
    let mut engine = new_engine(3, 2);
    let sub = engine
        .present_image_content(
            &source_image(),
            SubresourceLayers { mip_level: 0, base_array_layer: 0, layer_count: 1 },
            Offset3D { x: 0, y: 0, z: 0 },
            Offset3D { x: 800, y: 600, z: 1 },
            Filter::Linear,
            vec![71, 72],
            good_io(0),
        )
        .unwrap();
    assert_eq!(sub.slot, 0);
    assert_eq!(
        sub.submit_waits,
        vec![
            SyncRef::External { id: 71 },
            SyncRef::External { id: 72 },
            SyncRef::AcquireSemaphore { slot: 0 },
        ]
    );
    assert_eq!(sub.submit_signal, SyncRef::BlitSemaphore { slot: 0 });
    assert_eq!(sub.present_wait, SyncRef::BlitSemaphore { slot: 0 });
    assert_eq!(sub.fence_slot, 0);
    assert_eq!(sub.blit.filter, Filter::Linear);
    assert_eq!(sub.blit.src_end, Offset3D { x: 800, y: 600, z: 1 });
}

#[test]
fn wait_for_present_drains_and_disarms() {
    let mut engine = new_engine(3, 2);
    present_once(&mut engine, good_io(1)).unwrap();
    let drained = engine.wait_for_present().unwrap();
    assert_eq!(drained.slot, 0);
    assert_eq!(drained.image_index, 1);
    assert!(engine.presenting.is_none());
    assert!(!engine.slots[0].fence_armed);
    assert!(engine.wait_for_present().is_none());
}

#[test]
fn teardown_drains_then_destroys_in_dependency_order() {
    let mut engine = new_engine(3, 2);
    present_once(&mut engine, good_io(0)).unwrap();
    let steps = engine.teardown_steps();
    assert_eq!(
        steps,
        vec![
            TeardownStep::WaitPresentingFence { slot: 0 },
            TeardownStep::DestroyCommandPool,
            TeardownStep::DestroySyncObjects,
            TeardownStep::DestroySwapchain,
            TeardownStep::DestroySurface,
        ]
    );
    engine.wait_for_present();
    let steps = engine.teardown_steps();
    assert_eq!(
        steps,
        vec![
            TeardownStep::DestroyCommandPool,
            TeardownStep::DestroySyncObjects,
            TeardownStep::DestroySwapchain,
            TeardownStep::DestroySurface,
        ]
    );
}

#[test]
fn error_kind_names() {
    assert_eq!(PresentManagerError::InitError(String::from("x")).kind_name(), "init error");
    assert_eq!(PresentManagerError::RefreshError(String::from("x")).kind_name(), "refresh error");
    assert_eq!(PresentManagerError::RefreshNeeded.kind_name(), "refresh needed");
    assert_eq!(PresentManagerError::PresentError(String::from("x")).kind_name(), "present error");
}
