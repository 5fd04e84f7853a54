//! Marker traits that say what may be done with the bytes of a type, and the casts that
//! rest on them.

pub mod cast;
pub mod contiguous;
pub mod forget;
pub mod no_uninit;
pub mod pod;
pub mod zeroable;

pub use cast::{cast, cast_ref, cast_slice};
pub use contiguous::{from_int, is_valid, to_int, Contiguous};
pub use forget::{forget, Forget};
pub use no_uninit::NoUninit;
pub use pod::Pod;
pub use zeroable::{fill_zeros, init_zeroed, write_zeroed, zeroed, AllZeros, Zeroable};
