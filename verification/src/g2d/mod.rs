//! Sprites, batches and the graphics context.

pub mod frame;
pub mod g2d;
pub mod gpu;
pub mod instance;
pub mod pipeline;
pub mod poll;
pub mod setup;
pub mod shader;
pub mod sprite;
pub mod wire;
