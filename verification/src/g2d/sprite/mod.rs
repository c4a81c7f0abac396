//! Sprite sheets and batches of sprites drawn from them.

pub mod batch;
pub mod sheet;
