//! Integer points of the plane, with arithmetic that is specified and proved.

pub mod decimal;
pub mod laws;
pub mod point2;
pub mod wrap;

pub use point2::Point2;
