//! Marker traits describing which scalar types vectors, matrices and masks
//! accept.
use vstd::prelude::*;

use crate::marker::{Int, Lane, MaskPrimitive, Sint, Uint};

verus! {

/// Marks a scalar lane supported by vectors and matrices.
pub trait Element: Lane {
}

/// Marks a signed integer scalar that can hold the lanes of a mask.
pub trait MaskElement: Sint + Element + MaskPrimitive {
    /// A canonical mask lane holds -1 when it reads as true and 0 otherwise.
    proof fn lemma_mask_lane(x: Self)
        requires
            x.valid(),
        ensures
            x.val() == (if x.is_set() {
                -1int
            } else {
                0int
            }),
    ;
}

/// Marks an integer scalar supported by vectors and matrices.
pub trait IntElement: Int + Element {
}

/// Marks a signed integer scalar supported by vectors and matrices.
pub trait SintElement: Sint + Element {
}

/// Marks an unsigned integer scalar supported by vectors and matrices.
pub trait UintElement: Uint + Element {
}

/// Marks a scalar supported by both matrix storage orientations.
pub trait SupportedMatrixElement: Element {
}

impl Element for i32 {
}

impl Element for i64 {
}

impl Element for u32 {
}

impl Element for u64 {
}

impl MaskElement for i32 {
    proof fn lemma_mask_lane(x: i32) {
    }
}

impl MaskElement for i64 {
    proof fn lemma_mask_lane(x: i64) {
    }
}

impl IntElement for i32 {
}

impl IntElement for i64 {
}

impl IntElement for u32 {
}

impl IntElement for u64 {
}

impl SintElement for i32 {
}

impl SintElement for i64 {
}

impl UintElement for u32 {
}

impl UintElement for u64 {
}

impl SupportedMatrixElement for i32 {
}

impl SupportedMatrixElement for i64 {
}

impl SupportedMatrixElement for u32 {
}

impl SupportedMatrixElement for u64 {
}

} // verus!
