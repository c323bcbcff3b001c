//! The layout-constants table.
//!
//! Every constant here is part of the binary contract shared with the compute
//! stages that consume the encoded scene: element byte sizes, the block sizes
//! of the parallel stages, and the draw-object and path tag codes. Changing
//! one of them without changing the consuming stage in lockstep corrupts the
//! wire format, so they live in this single versioned table.

use vstd::prelude::*;

verus! {

/// Version of this constants table. Consumers of the encoded streams must be
/// built against the same version.
pub const LAYOUT_VERSION: u32 = 1;

/// Draw objects processed per parallel block by the draw stages.
pub const DRAW_PART_SIZE: usize = 2048;

/// Transforms processed per parallel block by the transform stage.
pub const TRANSFORM_PART_SIZE: usize = 2048;

/// Path tags processed per parallel block by the path-segment stages.
pub const PATHSEG_PART_SIZE: usize = 2048;

/// Clip operations processed per parallel block by the clip stages.
pub const CLIP_PART_SIZE: usize = 256;

/// Byte size of one transform record (six 32-bit coefficients).
pub const TRANSFORM_SIZE: usize = 24;

/// Byte size of one line-width entry (one 32-bit float).
pub const LINEWIDTH_SIZE: usize = 4;

/// Byte size of one path segment's working record in the scratch buffer.
pub const PATHSEG_SIZE: usize = 52;

/// Byte size of one per-path bounding box in the scratch buffer.
pub const PATH_BBOX_SIZE: usize = 24;

/// Byte size of one per-draw-object monoid accumulator in the scratch buffer.
pub const DRAWMONOID_SIZE: usize = 16;

/// Byte size of one per-draw-object bounding box in the scratch buffer.
pub const DRAW_BBOX_SIZE: usize = 16;

/// Byte size of one draw-tag entry in the scene buffer.
pub const DRAWTAG_SIZE: usize = 4;

/// Byte size of one annotated draw record in the scratch buffer.
pub const ANNOTATED_SIZE: usize = 40;

/// Byte size of one per-clip scratch entry.
pub const CLIP_SIZE: usize = 4;

/// Byte size of one per-clip bicyclic-monoid scratch entry.
pub const CLIP_BIC_SIZE: usize = 8;

/// Byte size of one clip-stack entry in the scratch buffer.
pub const CLIP_EL_SIZE: usize = 20;

/// Byte size of one per-clip bounding box in the scratch buffer.
pub const CLIP_BBOX_SIZE: usize = 16;

/// Worst-case byte size of one per-draw-object draw-info record; exact sizes
/// are draw-kind-dependent and are not summed during encoding.
pub const MAX_DRAWINFO_SIZE: usize = 44;

/// Draw-object tag: fill with a solid color (4-byte payload).
pub const DRAWTAG_FILLCOLOR: u32 = 0x44;

/// Draw-object tag: fill with a linear gradient (20-byte payload).
pub const DRAWTAG_FILLLINGRADIENT: u32 = 0x114;

/// Draw-object tag: fill with a radial gradient (28-byte payload).
pub const DRAWTAG_FILLRADGRADIENT: u32 = 0x2dc;

/// Draw-object tag: begin a clip (4-byte payload: packed blend).
pub const DRAWTAG_BEGINCLIP: u32 = 0x05;

/// Draw-object tag: end a clip (4-byte payload: packed blend).
pub const DRAWTAG_ENDCLIP: u32 = 0x25;

/// Path tag announcing a transform change.
pub const PATH_TAG_TRANSFORM: u8 = 0x20;

/// Path tag announcing a line-width change.
pub const PATH_TAG_LINEWIDTH: u8 = 0x40;

/// Path tag closing a path; also used alone as the degenerate path an
/// end-clip synthesizes.
pub const PATH_TAG_PATH: u8 = 0x10;

/// IEEE-754 bit pattern of the 32-bit float `1.0`.
pub const F32_ONE_BITS: u32 = 0x3F80_0000;

/// IEEE-754 bit pattern of the 32-bit float `-1.0`, the line-width sentinel
/// for "fill, not stroke".
pub const F32_NEG_ONE_BITS: u32 = 0xBF80_0000;

} // verus!
