pub mod approx_eq;
pub mod double;
pub mod vec2;

pub use approx_eq::ApproxEq;
pub use vec2::Vec2;
