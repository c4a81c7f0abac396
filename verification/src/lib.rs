//! A 2D sprite engine core: geometry, sprite batches and the per-frame
//! draw plan that a GPU back end executes.
//!
//! Coordinates, angles and colours are single-precision numbers. They are
//! carried as their IEEE-754 bit patterns (`u32`), the form in which the
//! GPU receives them.

pub mod g2d;
pub mod geo;

pub use g2d::g2d::Graphics2D;
pub use g2d::instance::Instance;
pub use g2d::sprite::batch::SpriteBatch;
pub use g2d::sprite::sheet::SpriteSheet;
pub use geo::rect::Point;
pub use geo::rect::Rect;
