//! Protocol core of a minimal windowing and rendering sandbox.
//!
//! The library holds the logic that is independent of the actual graphics
//! device: mapping window events to actions, pacing frame production against
//! a fixed tick duration, choosing swapchain parameters from surface
//! capabilities, ranking rendering adapters, and the frame-lifecycle state
//! machine that sequences acquire, record, submit and present.

pub mod device;
pub mod event;
pub mod frame;
pub mod main_loop;
pub mod pacing;
pub mod shader;
pub mod swapchain;
