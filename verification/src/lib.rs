//! Fixed-size vectors, matrices and lane masks over wrapping integer lanes.
//!
//! Every operation is lane-wise: a lane holds a fixed-width integer and
//! arithmetic wraps on overflow, exactly as Rust's `wrapping_*` operations do.
//! Matrices come in two storage orientations, row-major and column-major.
pub mod column_major;
pub mod internal;
pub mod kernels;
pub mod lane_bits;
pub mod laws;
pub mod marker;
pub mod named_swizzles;
pub mod mask;
pub mod row_major;
pub mod support;
pub mod swizzle;
pub mod vector;

pub use mask::{Mask, MaskStorage, Select};
pub use support::{Element, IntElement, MaskElement, SintElement, UintElement};
pub use vector::{EachOrd, Vector};
