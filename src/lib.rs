//! Force-based locomotion and ground suspension for physically simulated
//! characters and moving platforms.
//!
//! Every quantity is a fixed-point number: an `i64` count of thousandths of
//! the unit it stands for (metres, metres per second, newtons, seconds,
//! degrees). The per-tick steps take a body's state and the results of the
//! engine's scene queries as plain values and hand back the new state. Within
//! a tick they run in this order: hover, rotation, moving platforms,
//! movement, damping.

pub mod body;
pub mod error;
pub mod fixed;
pub mod hover;
pub mod movement;
pub mod platform;

pub use body::Body;
pub use error::ConfigError;
pub use fixed::{Vec3, LIMIT, SCALE};
pub use hover::{handle_hover, Hover, RayHit};
pub use movement::{acceleration_multiplier, handle_damping, handle_movement, handle_rotation, Movement};
pub use platform::{handle_moving_platforms, MovingPlatformDriver};
