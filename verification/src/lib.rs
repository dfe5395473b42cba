//! A real-time rendering front end's presentation core: swapchain planning,
//! the frame-resource ring, and the acquire/blit/submit/present protocol,
//! verified as a state machine over plain values. The unverified backend
//! performs the device calls that the engine plans and reports their
//! outcomes back as events.

pub mod errors;
pub mod frame;
pub mod geom;
pub mod presentation;
pub mod surface;
pub mod swapchain;
