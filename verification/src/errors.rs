//! The renderer's error taxonomy.
//!
//! `PresentManagerError` is the per-frame taxonomy the presentation engine
//! returns: a fatal construction failure, a likely-fatal recreation failure,
//! the recoverable "call refresh before the next draw" signal, and a
//! non-fatal per-frame presentation failure. The remaining enums classify
//! failures of the device-object plumbing that surrounds the engine.

use vstd::prelude::*;

verus! {

/// What the presentation engine can report: a construction failure (fatal),
/// a swapchain-recreation failure (likely fatal), the recoverable signal
/// that the surface is out of sync and `refresh_swapchain` must be called,
/// or a per-frame presentation failure (the frame is dropped and the loop
/// continues).
#[derive(Debug)]
pub enum PresentManagerError {
    InitError(String),
    RefreshError(String),
    RefreshNeeded,
    PresentError(String),
}

impl PresentManagerError {
    /// A short name for the error's class, for logging by the caller.
    pub fn kind_name(&self) -> (name: &'static str)
        ensures
            self is InitError ==> name@ == "init error"@,
            self is RefreshError ==> name@ == "refresh error"@,
            self is RefreshNeeded ==> name@ == "refresh needed"@,
            self is PresentError ==> name@ == "present error"@,
    {
        match self {
            PresentManagerError::InitError(_) => "init error",
            PresentManagerError::RefreshError(_) => "refresh error",
            PresentManagerError::RefreshNeeded => "refresh needed",
            PresentManagerError::PresentError(_) => "present error",
        }
    }
}

/// Failures while setting up the device connection and its queues.
#[derive(Clone, Copy, Debug, PartialEq, Eq, Structural)]
pub enum VKManagerError {
    VulkanDriverNotFound,
    UnsupportedWindow,
    DebugDriverNotFound,
    RawDisplayHandleNotFound,
    RawWindowHandleNotFound,
    GetWindowExtensionsFailed,
    InstanceCreationFailed,
    DebugMessengerCreationFailed,
    SurfaceCreationFailed,
    GraphicsQueueNotSupported,
    ComputeQueueNotSupported,
    TransferQueueNotSupported,
    NoSupportedGPU,
    InvalidQueueRequested,
    DeviceCreationFailed,
    QueueCreationFailed,
    MemoryAllocatorCreationFailed,
    VKBufferCreationFailed,
    VKImageCreationFailed,
    FileNotFound,
    ShaderFileOpenError,
    ShaderFileParseError,
    ShaderModuleCreationFailed,
}

/// Failures of a command pool or of allocating its buffers.
#[derive(Clone, Copy, Debug, PartialEq, Eq, Structural)]
pub enum CommandPoolError {
    CreateError,
    BuffersAllocationError,
}

/// Failures of a semaphore.
#[derive(Clone, Copy, Debug, PartialEq, Eq, Structural)]
pub enum SemaphoreError {
    CreateError,
}

/// Failures of a fence.
#[derive(Clone, Copy, Debug, PartialEq, Eq, Structural)]
pub enum FenceError {
    CreateError,
    WaitError,
    ResetError,
}

/// Failures of a device-memory allocation.
#[derive(Clone, Copy, Debug, PartialEq, Eq, Structural)]
pub enum AllocationError {
    LockError,
    AllocationFailed,
}

/// Failures of an image.
#[derive(Clone, Copy, Debug, PartialEq, Eq, Structural)]
pub enum ImageError {
    CreateError,
    BindError,
}

/// Failures of an image view.
#[derive(Clone, Copy, Debug, PartialEq, Eq, Structural)]
pub enum ImageViewError {
    CreateError,
}

/// Failures of a frame buffer.
#[derive(Clone, Copy, Debug, PartialEq, Eq, Structural)]
pub enum FrameBufferError {
    CreateError,
}

/// Failures of a buffer.
#[derive(Clone, Copy, Debug, PartialEq, Eq, Structural)]
pub enum BufferError {
    CreateError,
    BindError,
}

/// Failures of a descriptor pool or of allocating its sets.
#[derive(Clone, Copy, Debug, PartialEq, Eq, Structural)]
pub enum DescriptorPoolError {
    CreateError,
    SetsAllocationError,
}

/// Any failure of the renderer's device-object plumbing, classified by the
/// kind of object it concerns.
#[derive(Clone, Copy, Debug, PartialEq, Eq, Structural)]
pub enum RendererError {
    CommandPool(CommandPoolError),
    Semaphore(SemaphoreError),
    Fence(FenceError),
    Allocation(AllocationError),
    Image(ImageError),
    ImageView(ImageViewError),
    FrameBuffer(FrameBufferError),
    Buffer(BufferError),
    DescriptorPool(DescriptorPoolError),
}

} // verus!
