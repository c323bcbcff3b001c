//! Affine transform records.
//!
//! A transform is six 32-bit coefficients (a 2x2 matrix and a translation),
//! carried as IEEE-754 bit patterns and serialized as 24 little-endian bytes.

use vstd::prelude::*;
use crate::bytes::u32_le_bytes;
use crate::params::F32_ONE_BITS;
use crate::params::TRANSFORM_SIZE;

verus! {

/// One affine transform record: the four matrix coefficients and the two
/// translation components, each the bit pattern of a 32-bit float.
#[derive(Clone, Copy, PartialEq, Eq, Structural, Debug)]
pub struct Transform {
    pub mat00: u32,
    pub mat01: u32,
    pub mat10: u32,
    pub mat11: u32,
    pub translate_x: u32,
    pub translate_y: u32,
}

impl Transform {
    /// The identity transform: unit matrix, zero translation.
    pub open spec fn identity_spec() -> Transform {
        Transform {
            mat00: F32_ONE_BITS,
            mat01: 0,
            mat10: 0,
            mat11: F32_ONE_BITS,
            translate_x: 0,
            translate_y: 0,
        }
    }

    /// The identity transform, with which every transform stream starts.
    pub fn identity() -> (r: Transform)
        ensures
            r == Transform::identity_spec(),
    {
        Transform {
            mat00: F32_ONE_BITS,
            mat01: 0,
            mat10: 0,
            mat11: F32_ONE_BITS,
            translate_x: 0,
            translate_y: 0,
        }
    }

    /// A transform from the bit patterns of its six coefficients.
    pub fn new(
        mat00: u32,
        mat01: u32,
        mat10: u32,
        mat11: u32,
        translate_x: u32,
        translate_y: u32,
    ) -> (r: Transform)
        ensures
            r == (Transform { mat00, mat01, mat10, mat11, translate_x, translate_y }),
    {
        Transform { mat00, mat01, mat10, mat11, translate_x, translate_y }
    }
}

/// The 24 wire bytes of one transform: its six coefficients, little-endian,
/// in order.
pub open spec fn transform_bytes(t: Transform) -> Seq<u8> {
    u32_le_bytes(t.mat00) + u32_le_bytes(t.mat01) + u32_le_bytes(t.mat10) + u32_le_bytes(t.mat11)
        + u32_le_bytes(t.translate_x) + u32_le_bytes(t.translate_y)
}

/// The wire bytes of a transform stream, record by record.
pub open spec fn transforms_bytes(s: Seq<Transform>) -> Seq<u8>
    decreases s.len(),
{
    if s.len() == 0 {
        Seq::empty()
    } else {
        transforms_bytes(s.drop_last()) + transform_bytes(s.last())
    }
}

/// A transform stream serializes to 24 bytes per record.
pub proof fn lemma_transforms_bytes_len(s: Seq<Transform>)
    ensures
        transforms_bytes(s).len() == TRANSFORM_SIZE * s.len(),
    decreases s.len(),
{
    if s.len() > 0 {
        lemma_transforms_bytes_len(s.drop_last());
    }
}

} // verus!
