//! The mathematical model of encoder state.
//!
//! An encoder's state is six ordered streams and three running counts. The
//! contracts of every encoder operation, of the layout planner and of the
//! serializer are stated over this model.

use vstd::prelude::*;
use crate::bytes::u32s_le_bytes;
use crate::bytes::zero_bytes;
use crate::bytes::lemma_u32s_le_bytes_len;
use crate::align::pad_spec;
use crate::align::lemma_align_up_props;
use crate::params::DRAW_PART_SIZE;
use crate::params::TRANSFORM_PART_SIZE;
use crate::params::PATHSEG_PART_SIZE;
use crate::params::DRAWTAG_SIZE;
use crate::params::TRANSFORM_SIZE;
use crate::params::DRAWTAG_FILLCOLOR;
use crate::params::DRAWTAG_FILLLINGRADIENT;
use crate::params::DRAWTAG_FILLRADGRADIENT;
use crate::params::DRAWTAG_BEGINCLIP;
use crate::params::DRAWTAG_ENDCLIP;
use crate::params::F32_NEG_ONE_BITS;
use crate::transform::Transform;
use crate::transform::transforms_bytes;
use crate::transform::lemma_transforms_bytes_len;

verus! {

/// The state of a scene encoder: six parallel append-only streams and the
/// three running counts. Line widths are 32-bit float bit patterns.
#[verifier::ext_equal]
pub ghost struct EncModel {
    pub transforms: Seq<Transform>,
    pub tags: Seq<u8>,
    pub pathsegs: Seq<u8>,
    pub linewidths: Seq<u32>,
    pub drawtags: Seq<u32>,
    pub drawdata: Seq<u8>,
    pub n_path: nat,
    pub n_pathseg: nat,
    pub n_clip: nat,
}

/// The state of a glyph encoder: the four streams a glyph fragment carries
/// (no transforms, no line widths) and its path counts.
#[verifier::ext_equal]
pub ghost struct GlyphModel {
    pub tags: Seq<u8>,
    pub pathsegs: Seq<u8>,
    pub drawtags: Seq<u32>,
    pub drawdata: Seq<u8>,
    pub n_path: nat,
    pub n_pathseg: nat,
}

/// The state of a detached path encoder: the tag and segment bytes it has
/// accumulated and its segment count.
#[verifier::ext_equal]
pub ghost struct PathModel {
    pub tags: Seq<u8>,
    pub segs: Seq<u8>,
    pub n_pathseg: nat,
}

/// Byte length of the draw-data payload that one draw tag announces: color
/// 4, linear gradient 20, radial gradient 28, clip 4.
pub open spec fn drawtag_payload_size(tag: u32) -> nat {
    if tag == DRAWTAG_FILLCOLOR {
        4
    } else if tag == DRAWTAG_FILLLINGRADIENT {
        20
    } else if tag == DRAWTAG_FILLRADGRADIENT {
        28
    } else if tag == DRAWTAG_BEGINCLIP {
        4
    } else if tag == DRAWTAG_ENDCLIP {
        4
    } else {
        0
    }
}

/// Total draw-data byte length a draw-tag stream announces, tag by tag.
pub open spec fn drawdata_size(tags: Seq<u32>) -> nat
    decreases tags.len(),
{
    if tags.len() == 0 {
        0
    } else {
        drawdata_size(tags.drop_last()) + drawtag_payload_size(tags.last())
    }
}

/// Announced payload sizes add up over concatenated tag streams.
pub proof fn lemma_drawdata_size_concat(a: Seq<u32>, b: Seq<u32>)
    ensures
        drawdata_size(a + b) == drawdata_size(a) + drawdata_size(b),
    decreases b.len(),
{
    if b.len() == 0 {
        assert(a + b =~= a);
    } else {
        lemma_drawdata_size_concat(a, b.drop_last());
        assert((a + b).drop_last() =~= a + b.drop_last());
    }
}

/// Well-formedness of an encoder state: the transform stream starts with the
/// pre-seeded identity, the line-width stream with the pre-seeded fill
/// sentinel, and the draw-data stream is exactly as long as the draw-tag
/// stream announces.
pub open spec fn enc_wf(m: EncModel) -> bool {
    &&& m.transforms.len() >= 1
    &&& m.transforms[0] == Transform::identity_spec()
    &&& m.linewidths.len() >= 1
    &&& m.linewidths[0] == F32_NEG_ONE_BITS
    &&& m.drawdata.len() == drawdata_size(m.drawtags)
}

/// Well-formedness of a glyph fragment: its draw-data stream is exactly as
/// long as its draw-tag stream announces.
pub open spec fn glyph_wf(g: GlyphModel) -> bool {
    g.drawdata.len() == drawdata_size(g.drawtags)
}

/// The state of a freshly constructed scene encoder.
pub open spec fn enc_init() -> EncModel {
    EncModel {
        transforms: seq![Transform::identity_spec()],
        tags: Seq::empty(),
        pathsegs: Seq::empty(),
        linewidths: seq![F32_NEG_ONE_BITS],
        drawtags: Seq::empty(),
        drawdata: Seq::empty(),
        n_path: 0,
        n_pathseg: 0,
        n_clip: 0,
    }
}

/// The state of a freshly constructed path encoder.
pub open spec fn path_init() -> PathModel {
    PathModel { tags: Seq::empty(), segs: Seq::empty(), n_pathseg: 0 }
}

/// The state of a freshly constructed glyph encoder.
pub open spec fn glyph_init() -> GlyphModel {
    GlyphModel {
        tags: Seq::empty(),
        pathsegs: Seq::empty(),
        drawtags: Seq::empty(),
        drawdata: Seq::empty(),
        n_path: 0,
        n_pathseg: 0,
    }
}

/// The exact bytes of the serialized scene buffer for six given streams:
/// draw tags (zero-padded to the draw block), draw data, transforms
/// (zero-padded to the transform block), line widths, path tags (zero-padded
/// to the path-segment block), path segments.
pub open spec fn scene_bytes(
    drawtags: Seq<u32>,
    drawdata: Seq<u8>,
    transforms: Seq<Transform>,
    linewidths: Seq<u32>,
    tags: Seq<u8>,
    pathsegs: Seq<u8>,
) -> Seq<u8> {
    u32s_le_bytes(drawtags) + zero_bytes(
        (pad_spec(drawtags.len() as int, DRAW_PART_SIZE as int) * DRAWTAG_SIZE) as nat,
    ) + drawdata + transforms_bytes(transforms) + zero_bytes(
        (pad_spec(transforms.len() as int, TRANSFORM_PART_SIZE as int) * TRANSFORM_SIZE) as nat,
    ) + u32s_le_bytes(linewidths) + tags + zero_bytes(
        pad_spec(tags.len() as int, PATHSEG_PART_SIZE as int) as nat,
    ) + pathsegs
}

/// The scene buffer an encoder state serializes to.
pub open spec fn enc_scene_bytes(m: EncModel) -> Seq<u8> {
    scene_bytes(m.drawtags, m.drawdata, m.transforms, m.linewidths, m.tags, m.pathsegs)
}

/// Byte length of the serialized scene buffer: each stream's raw length,
/// blown up to element size, plus its block padding.
pub proof fn lemma_scene_bytes_len(m: EncModel)
    ensures
        enc_scene_bytes(m).len() == (m.drawtags.len() + pad_spec(
            m.drawtags.len() as int,
            DRAW_PART_SIZE as int,
        )) * DRAWTAG_SIZE + m.drawdata.len() + (m.transforms.len() + pad_spec(
            m.transforms.len() as int,
            TRANSFORM_PART_SIZE as int,
        )) * TRANSFORM_SIZE + 4 * m.linewidths.len() + m.tags.len() + pad_spec(
            m.tags.len() as int,
            PATHSEG_PART_SIZE as int,
        ) + m.pathsegs.len(),
{
    lemma_u32s_le_bytes_len(m.drawtags);
    lemma_u32s_le_bytes_len(m.linewidths);
    lemma_transforms_bytes_len(m.transforms);
    lemma_align_up_props(m.drawtags.len() as int, DRAW_PART_SIZE as int);
    lemma_align_up_props(m.transforms.len() as int, TRANSFORM_PART_SIZE as int);
    lemma_align_up_props(m.tags.len() as int, PATHSEG_PART_SIZE as int);
}

} // verus!
