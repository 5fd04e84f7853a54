//! Lanes and the masks that belong to them.

pub mod lane;
pub mod mask;

pub use lane::{Float32, Float64, Lane, Scalar};
pub use mask::{m16, m32, m64, m8, msize, Mask, MaskValue};
