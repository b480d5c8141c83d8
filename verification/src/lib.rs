//! Command lists for a fixed-function graphics engine: vertex formats,
//! per-frame scratch memory, buffers and the frame life cycle.

pub mod arena;
pub mod buffer;
pub mod color;
pub mod command;
pub mod frame;
pub mod graphics;
pub mod record;
pub mod rect;
pub mod vertex;

pub use frame::{Frame, PspGfx};
