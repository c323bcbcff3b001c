//! The operation model of the scene encoder.
//!
//! Every mutating encoder operation is mirrored by a `SceneOp`, and every
//! executable method's contract states that it takes the encoder's state to
//! `apply_op` of that operation. Over this model the library proves the
//! global laws: the running counts equal the number of the corresponding
//! operations in any operation sequence, and well-formedness — in particular
//! the exact draw-tag/draw-data payload accounting — holds after every
//! prefix of any operation sequence.

use vstd::prelude::*;
use crate::blend::Blend;
use crate::bytes::u32_le_bytes;
use crate::model::EncModel;
use crate::model::GlyphModel;
use crate::model::enc_wf;
use crate::model::glyph_wf;
use crate::model::drawdata_size;
use crate::model::drawtag_payload_size;
use crate::model::lemma_drawdata_size_concat;
use crate::params::DRAWTAG_BEGINCLIP;
use crate::params::DRAWTAG_ENDCLIP;
use crate::params::DRAWTAG_FILLCOLOR;
use crate::params::DRAWTAG_FILLLINGRADIENT;
use crate::params::DRAWTAG_FILLRADGRADIENT;
use crate::params::PATH_TAG_LINEWIDTH;
use crate::params::PATH_TAG_PATH;
use crate::params::PATH_TAG_TRANSFORM;
use crate::transform::Transform;

verus! {

/// One scene-encoder operation.
pub ghost enum SceneOp {
    /// Splice the tag and segment bytes a detached path encoder accumulated.
    AppendPath { tags: Seq<u8>, segs: Seq<u8> },
    /// Close out a path of `n_segs` segments.
    FinishPath { n_segs: nat },
    /// Switch to a new transform.
    SetTransform { t: Transform },
    /// Exchange the last two path tags.
    SwapLastTags,
    /// Switch to a new line width (a 32-bit float bit pattern).
    SetLinewidth { width_bits: u32 },
    /// Fill with a solid color.
    FillColor { rgba: u32 },
    /// Fill with a linear gradient (point coordinates as float bit patterns).
    FillLinGradient { index: u32, p0x: u32, p0y: u32, p1x: u32, p1y: u32 },
    /// Fill with a radial gradient.
    FillRadGradient {
        index: u32,
        p0x: u32,
        p0y: u32,
        p1x: u32,
        p1y: u32,
        r0: u32,
        r1: u32,
    },
    /// Begin a clip with a packed blend.
    BeginClip { blend: u32 },
    /// End a clip with a packed blend.
    EndClip { blend: u32 },
    /// Merge a glyph fragment.
    MergeGlyph { glyph: GlyphModel },
}

/// The packed blend a clip records: the given one, or the default.
pub open spec fn clip_blend_pack(blend: Option<Blend>) -> u32 {
    match blend {
        Some(b) => crate::blend::blend_pack_spec(b),
        None => crate::blend::default_blend_pack(),
    }
}

/// A tag stream with its last two entries exchanged (unchanged when fewer
/// than two exist).
pub open spec fn swap_last_two(tags: Seq<u8>) -> Seq<u8> {
    if tags.len() >= 2 {
        let n = tags.len() as int;
        tags.update(n - 2, tags[n - 1]).update(n - 1, tags[n - 2])
    } else {
        tags
    }
}

/// The encoder state after one operation.
pub open spec fn apply_op(m: EncModel, op: SceneOp) -> EncModel {
    match op {
        SceneOp::AppendPath { tags, segs } => EncModel {
            tags: m.tags + tags,
            pathsegs: m.pathsegs + segs,
            ..m
        },
        SceneOp::FinishPath { n_segs } => EncModel {
            n_path: m.n_path + 1,
            n_pathseg: m.n_pathseg + n_segs,
            ..m
        },
        SceneOp::SetTransform { t } => EncModel {
            tags: m.tags.push(PATH_TAG_TRANSFORM),
            transforms: m.transforms.push(t),
            ..m
        },
        SceneOp::SwapLastTags => EncModel { tags: swap_last_two(m.tags), ..m },
        SceneOp::SetLinewidth { width_bits } => EncModel {
            tags: m.tags.push(PATH_TAG_LINEWIDTH),
            linewidths: m.linewidths.push(width_bits),
            ..m
        },
        SceneOp::FillColor { rgba } => EncModel {
            drawtags: m.drawtags.push(DRAWTAG_FILLCOLOR),
            drawdata: m.drawdata + u32_le_bytes(rgba),
            ..m
        },
        SceneOp::FillLinGradient { index, p0x, p0y, p1x, p1y } => EncModel {
            drawtags: m.drawtags.push(DRAWTAG_FILLLINGRADIENT),
            drawdata: m.drawdata + u32_le_bytes(index) + u32_le_bytes(p0x) + u32_le_bytes(p0y)
                + u32_le_bytes(p1x) + u32_le_bytes(p1y),
            ..m
        },
        SceneOp::FillRadGradient { index, p0x, p0y, p1x, p1y, r0, r1 } => EncModel {
            drawtags: m.drawtags.push(DRAWTAG_FILLRADGRADIENT),
            drawdata: m.drawdata + u32_le_bytes(index) + u32_le_bytes(p0x) + u32_le_bytes(p0y)
                + u32_le_bytes(p1x) + u32_le_bytes(p1y) + u32_le_bytes(r0) + u32_le_bytes(r1),
            ..m
        },
        SceneOp::BeginClip { blend } => EncModel {
            drawtags: m.drawtags.push(DRAWTAG_BEGINCLIP),
            drawdata: m.drawdata + u32_le_bytes(blend),
            n_clip: m.n_clip + 1,
            ..m
        },
        SceneOp::EndClip { blend } => EncModel {
            drawtags: m.drawtags.push(DRAWTAG_ENDCLIP),
            drawdata: m.drawdata + u32_le_bytes(blend),
            tags: m.tags.push(PATH_TAG_PATH),
            n_path: m.n_path + 1,
            n_clip: m.n_clip + 1,
            ..m
        },
        SceneOp::MergeGlyph { glyph } => EncModel {
            tags: m.tags + glyph.tags,
            pathsegs: m.pathsegs + glyph.pathsegs,
            drawtags: m.drawtags + glyph.drawtags,
            drawdata: m.drawdata + glyph.drawdata,
            n_path: m.n_path + glyph.n_path,
            n_pathseg: m.n_pathseg + glyph.n_pathseg,
            ..m
        },
    }
}

/// The encoder state after a sequence of operations.
pub open spec fn apply_ops(m: EncModel, ops: Seq<SceneOp>) -> EncModel
    decreases ops.len(),
{
    if ops.len() == 0 {
        m
    } else {
        apply_op(apply_ops(m, ops.drop_last()), ops.last())
    }
}

/// How many paths one operation contributes: one per finished path, one per
/// end-clip (the synthesized degenerate path), a fragment's count per merge.
pub open spec fn op_paths(op: SceneOp) -> nat {
    match op {
        SceneOp::FinishPath { .. } => 1,
        SceneOp::EndClip { .. } => 1,
        SceneOp::MergeGlyph { glyph } => glyph.n_path,
        _ => 0,
    }
}

/// How many path segments one operation contributes.
pub open spec fn op_pathsegs(op: SceneOp) -> nat {
    match op {
        SceneOp::FinishPath { n_segs } => n_segs,
        SceneOp::MergeGlyph { glyph } => glyph.n_pathseg,
        _ => 0,
    }
}

/// How many clip operations one operation contributes: one per begin-clip
/// and one per end-clip.
pub open spec fn op_clips(op: SceneOp) -> nat {
    match op {
        SceneOp::BeginClip { .. } => 1,
        SceneOp::EndClip { .. } => 1,
        _ => 0,
    }
}

/// Paths contributed by a sequence of operations.
pub open spec fn ops_paths(ops: Seq<SceneOp>) -> nat
    decreases ops.len(),
{
    if ops.len() == 0 {
        0
    } else {
        ops_paths(ops.drop_last()) + op_paths(ops.last())
    }
}

/// Path segments contributed by a sequence of operations.
pub open spec fn ops_pathsegs(ops: Seq<SceneOp>) -> nat
    decreases ops.len(),
{
    if ops.len() == 0 {
        0
    } else {
        ops_pathsegs(ops.drop_last()) + op_pathsegs(ops.last())
    }
}

/// Clip operations contributed by a sequence of operations.
pub open spec fn ops_clips(ops: Seq<SceneOp>) -> nat
    decreases ops.len(),
{
    if ops.len() == 0 {
        0
    } else {
        ops_clips(ops.drop_last()) + op_clips(ops.last())
    }
}

/// The running counts track the operations exactly: after any sequence of
/// operations, `n_path`, `n_pathseg` and `n_clip` exceed their starting
/// values by precisely the number of paths, path segments and clip
/// operations the sequence contributes.
pub proof fn lemma_counts_follow_ops(m: EncModel, ops: Seq<SceneOp>)
    ensures
        apply_ops(m, ops).n_path == m.n_path + ops_paths(ops),
        apply_ops(m, ops).n_pathseg == m.n_pathseg + ops_pathsegs(ops),
        apply_ops(m, ops).n_clip == m.n_clip + ops_clips(ops),
    decreases ops.len(),
{
    if ops.len() > 0 {
        lemma_counts_follow_ops(m, ops.drop_last());
    }
}

/// True when every glyph fragment merged by the sequence is itself well
/// formed.
pub open spec fn ops_glyphs_wf(ops: Seq<SceneOp>) -> bool {
    forall|i: int|
        0 <= i < ops.len() ==> match #[trigger] ops[i] {
            SceneOp::MergeGlyph { glyph } => glyph_wf(glyph),
            _ => true,
        }
}

/// One operation preserves well-formedness; in particular the draw-data
/// stream stays exactly as long as the draw-tag stream announces.
pub proof fn lemma_op_preserves_wf(m: EncModel, op: SceneOp)
    requires
        enc_wf(m),
        match op {
            SceneOp::MergeGlyph { glyph } => glyph_wf(glyph),
            _ => true,
        },
    ensures
        enc_wf(apply_op(m, op)),
{
    match op {
        SceneOp::FillColor { .. } | SceneOp::FillLinGradient { .. } | SceneOp::FillRadGradient {
            ..
        } | SceneOp::BeginClip { .. } | SceneOp::EndClip { .. } => {
            let m2 = apply_op(m, op);
            assert(m2.drawtags.drop_last() =~= m.drawtags);
            assert(m2.drawdata.len() == drawdata_size(m.drawtags) + drawtag_payload_size(
                m2.drawtags.last(),
            ));
        },
        SceneOp::MergeGlyph { glyph } => {
            lemma_drawdata_size_concat(m.drawtags, glyph.drawtags);
        },
        _ => {},
    }
}

/// Well-formedness is an invariant of every operation sequence: starting
/// from a well-formed state — a fresh encoder in particular — every prefix
/// of every operation sequence leaves the encoder well formed, so the
/// draw-tag and draw-data streams stay consistent at every point.
pub proof fn lemma_wf_follows_ops(m: EncModel, ops: Seq<SceneOp>)
    requires
        enc_wf(m),
        ops_glyphs_wf(ops),
    ensures
        enc_wf(apply_ops(m, ops)),
    decreases ops.len(),
{
    if ops.len() > 0 {
        assert(ops_glyphs_wf(ops.drop_last())) by {
            assert(forall|i: int|
                0 <= i < ops.drop_last().len() ==> ops.drop_last()[i] == ops[i]);
        }
        lemma_wf_follows_ops(m, ops.drop_last());
        lemma_op_preserves_wf(apply_ops(m, ops.drop_last()), ops.last());
    }
}

} // verus!
