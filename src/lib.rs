//! Typed transfers between host values and device storage buffers, with the
//! small vector, vertex, shader and window types that a rendering or compute
//! loop is built from.
use vstd::prelude::*;

pub mod color;
pub mod gpu;
pub mod shader;
pub mod shapes;
pub mod ssbo;
pub mod vector;
pub mod vertices;
pub mod windows;

pub use color::Color;
pub use gpu::{FixedLayout, GpuSsbo};
pub use shader::{ShaderError, ShaderSource, ShaderStage};
pub use ssbo::{DeviceBuffer, Transfer, SSBO};
pub use windows::WindowBuilder;

verus! {

} // verus!
