//! The core of a full-screen shader effect: one quad that always covers the
//! window, one material whose clock advances every frame, and the per-frame
//! driver that keeps both in step with the host.
//!
//! The host owns the window, the event loop and the GPU. It hands this crate
//! plain values (the window size, the resize notifications of a frame, the
//! elapsed time) and reads plain values back.

pub mod scalar;
pub mod viewport;
pub mod quad;
pub mod material;
pub mod driver;
