//! Small fixed-size vectors with the layout of consecutive components.
mod vector2;
mod vector3;
mod vector4;

pub use vector2::Vector2;
pub use vector3::Vector3;
pub use vector4::Vector4;
