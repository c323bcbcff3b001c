//! The layout planner.
//!
//! From the current stream lengths and counts it computes, without touching
//! any stream, the byte offset of every region in the uploaded scene buffer
//! and in the GPU-private scratch buffer, and the total scratch size. The
//! serializer is specified against the same region description, so the two
//! cannot diverge.

use vstd::prelude::*;
use crate::align::align_up_spec;
use crate::align::lemma_align_up_props;
use crate::model::EncModel;
use crate::model::enc_scene_bytes;
use crate::model::lemma_scene_bytes_len;
use crate::bytes::u32s_le_bytes;
use crate::bytes::lemma_u32s_le_bytes_len;
use crate::transform::transforms_bytes;
use crate::transform::lemma_transforms_bytes_len;
use crate::params::ANNOTATED_SIZE;
use crate::params::CLIP_BBOX_SIZE;
use crate::params::CLIP_BIC_SIZE;
use crate::params::CLIP_EL_SIZE;
use crate::params::CLIP_PART_SIZE;
use crate::params::CLIP_SIZE;
use crate::params::DRAWMONOID_SIZE;
use crate::params::DRAWTAG_SIZE;
use crate::params::DRAW_BBOX_SIZE;
use crate::params::DRAW_PART_SIZE;
use crate::params::LINEWIDTH_SIZE;
use crate::params::MAX_DRAWINFO_SIZE;
use crate::params::PATHSEG_PART_SIZE;
use crate::params::PATHSEG_SIZE;
use crate::params::PATH_BBOX_SIZE;
use crate::params::TRANSFORM_PART_SIZE;
use crate::params::TRANSFORM_SIZE;
use vstd::arithmetic::div_mod::lemma_div_non_zero;
use vstd::arithmetic::div_mod::lemma_div_pos_is_pos;

verus! {

/// The stream lengths and counts the layout planner reads: everything the
/// plan is a function of.
#[verifier::ext_equal]
pub ghost struct LayoutInput {
    /// Number of draw tags (one per draw object).
    pub n_drawobj: nat,
    /// Raw byte length of the draw-data stream.
    pub drawdata_len: nat,
    /// Number of transform records.
    pub n_trans: nat,
    /// Number of line-width entries.
    pub n_linewidth: nat,
    /// Number of path-tag bytes.
    pub n_pathtag: nat,
    /// Raw byte length of the path-segment stream.
    pub pathseg_len: nat,
    /// Number of finished paths.
    pub n_path: nat,
    /// Number of path segments.
    pub n_pathseg: nat,
    /// Number of clip operations.
    pub n_clip: nat,
}

/// The layout planner's reading of an encoder state.
pub open spec fn layout_input_of(m: EncModel) -> LayoutInput {
    LayoutInput {
        n_drawobj: m.drawtags.len(),
        drawdata_len: m.drawdata.len(),
        n_trans: m.transforms.len(),
        n_linewidth: m.linewidths.len(),
        n_pathtag: m.tags.len(),
        pathseg_len: m.pathsegs.len(),
        n_path: m.n_path,
        n_pathseg: m.n_pathseg,
        n_clip: m.n_clip,
    }
}

/// The flat configuration record handed to the compute pipeline: every
/// computed offset plus echoes of the counts. Scene-buffer offsets are named
/// `*_offset`, scratch-buffer offsets `*_alloc`.
#[derive(Clone, Copy, PartialEq, Eq, Structural, Debug)]
pub struct Config {
    pub n_elements: u32,
    pub n_pathseg: u32,
    pub pathseg_alloc: u32,
    pub anno_alloc: u32,
    pub trans_alloc: u32,
    pub path_bbox_alloc: u32,
    pub drawmonoid_alloc: u32,
    pub clip_alloc: u32,
    pub clip_bic_alloc: u32,
    pub clip_stack_alloc: u32,
    pub clip_bbox_alloc: u32,
    pub draw_bbox_alloc: u32,
    pub drawinfo_alloc: u32,
    pub n_trans: u32,
    pub n_path: u32,
    pub n_clip: u32,
    pub trans_offset: u32,
    pub linewidth_offset: u32,
    pub pathtag_offset: u32,
    pub pathseg_offset: u32,
    pub drawtag_offset: u32,
    pub drawdata_offset: u32,
}

/// Failure of the layout planner: some offset or total would not fit in the
/// 32-bit fields the pipeline reads.
#[derive(Clone, Copy, PartialEq, Eq, Structural, Debug)]
pub enum LayoutError {
    SceneTooLarge,
}

/// Scene buffer: byte offset of the draw-data region, right after the
/// block-padded draw-tag region.
pub open spec fn drawdata_offset_spec(li: LayoutInput) -> int {
    align_up_spec(li.n_drawobj as int, DRAW_PART_SIZE as int) * DRAWTAG_SIZE
}

/// Scene buffer: byte offset of the transform region.
pub open spec fn trans_offset_spec(li: LayoutInput) -> int {
    drawdata_offset_spec(li) + li.drawdata_len
}

/// Scene buffer: byte offset of the line-width region, right after the
/// block-padded transform region.
pub open spec fn linewidth_offset_spec(li: LayoutInput) -> int {
    trans_offset_spec(li) + align_up_spec(li.n_trans as int, TRANSFORM_PART_SIZE as int)
        * TRANSFORM_SIZE
}

/// Scene buffer: byte offset of the path-tag region.
pub open spec fn pathtag_offset_spec(li: LayoutInput) -> int {
    linewidth_offset_spec(li) + li.n_linewidth * LINEWIDTH_SIZE
}

/// Scene buffer: byte offset of the path-segment region, right after the
/// block-padded path-tag region.
pub open spec fn pathseg_offset_spec(li: LayoutInput) -> int {
    pathtag_offset_spec(li) + align_up_spec(li.n_pathtag as int, PATHSEG_PART_SIZE as int)
}

/// Total byte size of the scene buffer.
pub open spec fn scene_size_spec(li: LayoutInput) -> int {
    pathseg_offset_spec(li) + li.pathseg_len
}

/// Scratch buffer: offset of the transform working copy (the first region).
pub open spec fn trans_alloc_spec(li: LayoutInput) -> int {
    0
}

/// Scratch buffer: offset of the path-segment working copy.
pub open spec fn pathseg_alloc_spec(li: LayoutInput) -> int {
    trans_alloc_spec(li) + align_up_spec(li.n_trans as int, TRANSFORM_PART_SIZE as int)
        * TRANSFORM_SIZE
}

/// Scratch buffer: offset of the per-path bounding boxes.
pub open spec fn path_bbox_alloc_spec(li: LayoutInput) -> int {
    pathseg_alloc_spec(li) + li.n_pathseg * PATHSEG_SIZE
}

/// Scratch buffer: offset of the per-draw-object monoid accumulators.
pub open spec fn drawmonoid_alloc_spec(li: LayoutInput) -> int {
    path_bbox_alloc_spec(li) + li.n_path * PATH_BBOX_SIZE
}

/// Scratch buffer: offset of the per-draw annotated records, after the
/// block-padded monoid region.
pub open spec fn anno_alloc_spec(li: LayoutInput) -> int {
    drawmonoid_alloc_spec(li) + align_up_spec(li.n_drawobj as int, DRAW_PART_SIZE as int)
        * DRAWMONOID_SIZE
}

/// Scratch buffer: offset of the per-clip scratch entries.
pub open spec fn clip_alloc_spec(li: LayoutInput) -> int {
    anno_alloc_spec(li) + li.n_drawobj * ANNOTATED_SIZE
}

/// Scratch buffer: offset of the per-clip bicyclic-monoid scratch. Its own
/// size is floor-divided: only a processed prefix needs it.
pub open spec fn clip_bic_alloc_spec(li: LayoutInput) -> int {
    clip_alloc_spec(li) + li.n_clip * CLIP_SIZE
}

/// Scratch buffer: offset of the clip-stack entries.
pub open spec fn clip_stack_alloc_spec(li: LayoutInput) -> int {
    clip_bic_alloc_spec(li) + (li.n_clip as int / CLIP_PART_SIZE as int) * CLIP_BIC_SIZE
}

/// Scratch buffer: offset of the per-clip bounding boxes.
pub open spec fn clip_bbox_alloc_spec(li: LayoutInput) -> int {
    clip_stack_alloc_spec(li) + li.n_clip * CLIP_EL_SIZE
}

/// Scratch buffer: offset of the per-draw-object bounding boxes, after the
/// block-padded clip bounding boxes.
pub open spec fn draw_bbox_alloc_spec(li: LayoutInput) -> int {
    clip_bbox_alloc_spec(li) + align_up_spec(li.n_clip as int, CLIP_PART_SIZE as int)
        * CLIP_BBOX_SIZE
}

/// Scratch buffer: offset of the per-draw-object draw-info records, budgeted
/// at the worst-case record size.
pub open spec fn drawinfo_alloc_spec(li: LayoutInput) -> int {
    draw_bbox_alloc_spec(li) + li.n_drawobj * DRAW_BBOX_SIZE
}

/// Total byte size of the scratch buffer.
pub open spec fn scratch_total_spec(li: LayoutInput) -> int {
    drawinfo_alloc_spec(li) + li.n_drawobj * MAX_DRAWINFO_SIZE
}

/// True when every offset and total fits the 32-bit configuration fields.
pub open spec fn layout_fits(li: LayoutInput) -> bool {
    scene_size_spec(li) <= u32::MAX && scratch_total_spec(li) <= u32::MAX
}

/// The configuration record the planner owes for a given input, meaningful
/// when `layout_fits` holds.
pub open spec fn config_spec(li: LayoutInput) -> Config {
    Config {
        n_elements: li.n_drawobj as u32,
        n_pathseg: li.n_pathseg as u32,
        pathseg_alloc: pathseg_alloc_spec(li) as u32,
        anno_alloc: anno_alloc_spec(li) as u32,
        trans_alloc: trans_alloc_spec(li) as u32,
        path_bbox_alloc: path_bbox_alloc_spec(li) as u32,
        drawmonoid_alloc: drawmonoid_alloc_spec(li) as u32,
        clip_alloc: clip_alloc_spec(li) as u32,
        clip_bic_alloc: clip_bic_alloc_spec(li) as u32,
        clip_stack_alloc: clip_stack_alloc_spec(li) as u32,
        clip_bbox_alloc: clip_bbox_alloc_spec(li) as u32,
        draw_bbox_alloc: draw_bbox_alloc_spec(li) as u32,
        drawinfo_alloc: drawinfo_alloc_spec(li) as u32,
        n_trans: li.n_trans as u32,
        n_path: li.n_path as u32,
        n_clip: li.n_clip as u32,
        trans_offset: trans_offset_spec(li) as u32,
        linewidth_offset: linewidth_offset_spec(li) as u32,
        pathtag_offset: pathtag_offset_spec(li) as u32,
        pathseg_offset: pathseg_offset_spec(li) as u32,
        drawtag_offset: 0,
        drawdata_offset: drawdata_offset_spec(li) as u32,
    }
}

/// Everything the planner promises: on inputs whose layout fits the 32-bit
/// fields it returns exactly the configuration record and total scratch size
/// of the input, and on all others it reports the scene as too large.
pub open spec fn plan_post(li: LayoutInput, r: Result<(Config, usize), LayoutError>) -> bool {
    if layout_fits(li) {
        r == Ok::<(Config, usize), LayoutError>(
            (config_spec(li), scratch_total_spec(li) as usize),
        )
    } else {
        r == Err::<(Config, usize), LayoutError>(LayoutError::SceneTooLarge)
    }
}

/// Scene-buffer regions stand in order, each beginning where the previous
/// one ends, so they never overlap; every raw stream fits its region; and
/// region offsets increase strictly wherever the region before them is not
/// empty (for an empty region, its offset and the next coincide).
pub proof fn lemma_scene_regions(li: LayoutInput)
    ensures
        0 <= li.n_drawobj * DRAWTAG_SIZE <= drawdata_offset_spec(li),
        drawdata_offset_spec(li) + li.drawdata_len == trans_offset_spec(li),
        trans_offset_spec(li) + li.n_trans * TRANSFORM_SIZE <= linewidth_offset_spec(li),
        linewidth_offset_spec(li) + li.n_linewidth * LINEWIDTH_SIZE == pathtag_offset_spec(li),
        pathtag_offset_spec(li) + li.n_pathtag <= pathseg_offset_spec(li),
        pathseg_offset_spec(li) + li.pathseg_len == scene_size_spec(li),
        li.n_drawobj > 0 ==> 0 < drawdata_offset_spec(li),
        li.drawdata_len > 0 ==> drawdata_offset_spec(li) < trans_offset_spec(li),
        li.n_trans > 0 ==> trans_offset_spec(li) < linewidth_offset_spec(li),
        li.n_linewidth > 0 ==> linewidth_offset_spec(li) < pathtag_offset_spec(li),
        li.n_pathtag > 0 ==> pathtag_offset_spec(li) < pathseg_offset_spec(li),
        li.pathseg_len > 0 ==> pathseg_offset_spec(li) < scene_size_spec(li),
{
    lemma_align_up_props(li.n_drawobj as int, DRAW_PART_SIZE as int);
    lemma_align_up_props(li.n_trans as int, TRANSFORM_PART_SIZE as int);
    lemma_align_up_props(li.n_pathtag as int, PATHSEG_PART_SIZE as int);
}

/// Scratch-buffer regions stand in order, each beginning where the previous
/// one ends, so they never overlap; offsets increase strictly wherever the
/// region before them is not empty.
pub proof fn lemma_scratch_regions(li: LayoutInput)
    ensures
        0 == trans_alloc_spec(li),
        trans_alloc_spec(li) + li.n_trans * TRANSFORM_SIZE <= pathseg_alloc_spec(li),
        pathseg_alloc_spec(li) + li.n_pathseg * PATHSEG_SIZE == path_bbox_alloc_spec(li),
        path_bbox_alloc_spec(li) + li.n_path * PATH_BBOX_SIZE == drawmonoid_alloc_spec(li),
        drawmonoid_alloc_spec(li) + li.n_drawobj * DRAWMONOID_SIZE <= anno_alloc_spec(li),
        anno_alloc_spec(li) + li.n_drawobj * ANNOTATED_SIZE == clip_alloc_spec(li),
        clip_alloc_spec(li) + li.n_clip * CLIP_SIZE == clip_bic_alloc_spec(li),
        clip_bic_alloc_spec(li) <= clip_stack_alloc_spec(li),
        clip_stack_alloc_spec(li) + li.n_clip * CLIP_EL_SIZE == clip_bbox_alloc_spec(li),
        clip_bbox_alloc_spec(li) + li.n_clip * CLIP_BBOX_SIZE <= draw_bbox_alloc_spec(li),
        draw_bbox_alloc_spec(li) + li.n_drawobj * DRAW_BBOX_SIZE == drawinfo_alloc_spec(li),
        drawinfo_alloc_spec(li) + li.n_drawobj * MAX_DRAWINFO_SIZE == scratch_total_spec(li),
        li.n_trans > 0 ==> trans_alloc_spec(li) < pathseg_alloc_spec(li),
        li.n_pathseg > 0 ==> pathseg_alloc_spec(li) < path_bbox_alloc_spec(li),
        li.n_path > 0 ==> path_bbox_alloc_spec(li) < drawmonoid_alloc_spec(li),
        li.n_drawobj > 0 ==> drawmonoid_alloc_spec(li) < anno_alloc_spec(li),
        li.n_drawobj > 0 ==> anno_alloc_spec(li) < clip_alloc_spec(li),
        li.n_clip > 0 ==> clip_alloc_spec(li) < clip_bic_alloc_spec(li),
        li.n_clip >= CLIP_PART_SIZE ==> clip_bic_alloc_spec(li) < clip_stack_alloc_spec(li),
        li.n_clip > 0 ==> clip_stack_alloc_spec(li) < clip_bbox_alloc_spec(li),
        li.n_clip > 0 ==> clip_bbox_alloc_spec(li) < draw_bbox_alloc_spec(li),
        li.n_drawobj > 0 ==> draw_bbox_alloc_spec(li) < drawinfo_alloc_spec(li),
        li.n_drawobj > 0 ==> drawinfo_alloc_spec(li) < scratch_total_spec(li),
{
    lemma_align_up_props(li.n_trans as int, TRANSFORM_PART_SIZE as int);
    lemma_align_up_props(li.n_drawobj as int, DRAW_PART_SIZE as int);
    lemma_align_up_props(li.n_clip as int, CLIP_PART_SIZE as int);
    lemma_div_pos_is_pos(li.n_clip as int, CLIP_PART_SIZE as int);
    if li.n_clip >= CLIP_PART_SIZE {
        lemma_div_non_zero(li.n_clip as int, CLIP_PART_SIZE as int);
    }
}

/// The planner and the serializer are kept in lock step: the serialized
/// scene buffer of a state is exactly as long as the scene size the planner
/// computes for it, so the final region offset plus its raw length equals
/// the written byte count.
pub proof fn lemma_plan_matches_serializer(m: EncModel)
    ensures
        enc_scene_bytes(m).len() == scene_size_spec(layout_input_of(m)),
        pathseg_offset_spec(layout_input_of(m)) + m.pathsegs.len() == enc_scene_bytes(m).len(),
{
    lemma_scene_bytes_len(m);
    lemma_scene_regions(layout_input_of(m));
}

/// The serializer places every stream at exactly the offset the planner
/// computes for it: in the serialized scene buffer, the draw tags start at
/// offset zero, and the raw draw-data, transform, line-width, path-tag and
/// path-segment bytes each start at their planned region offset.
pub proof fn lemma_streams_land_at_planned_offsets(m: EncModel)
    ensures
        ({
            let s = enc_scene_bytes(m);
            let li = layout_input_of(m);
            &&& s.subrange(0, 4 * m.drawtags.len() as int) == u32s_le_bytes(m.drawtags)
            &&& s.subrange(
                drawdata_offset_spec(li),
                drawdata_offset_spec(li) + m.drawdata.len(),
            ) == m.drawdata
            &&& s.subrange(
                trans_offset_spec(li),
                trans_offset_spec(li) + 24 * m.transforms.len(),
            ) == transforms_bytes(m.transforms)
            &&& s.subrange(
                linewidth_offset_spec(li),
                linewidth_offset_spec(li) + 4 * m.linewidths.len(),
            ) == u32s_le_bytes(m.linewidths)
            &&& s.subrange(pathtag_offset_spec(li), pathtag_offset_spec(li) + m.tags.len())
                == m.tags
            &&& s.subrange(pathseg_offset_spec(li), scene_size_spec(li)) == m.pathsegs
        }),
{
    let s = enc_scene_bytes(m);
    let li = layout_input_of(m);
    lemma_u32s_le_bytes_len(m.drawtags);
    lemma_u32s_le_bytes_len(m.linewidths);
    lemma_transforms_bytes_len(m.transforms);
    lemma_align_up_props(li.n_drawobj as int, DRAW_PART_SIZE as int);
    lemma_align_up_props(li.n_trans as int, TRANSFORM_PART_SIZE as int);
    lemma_align_up_props(li.n_pathtag as int, PATHSEG_PART_SIZE as int);
    assert(s.subrange(0, 4 * m.drawtags.len() as int) =~= u32s_le_bytes(m.drawtags));
    assert(s.subrange(drawdata_offset_spec(li), drawdata_offset_spec(li) + m.drawdata.len())
        =~= m.drawdata);
    assert(s.subrange(trans_offset_spec(li), trans_offset_spec(li) + 24 * m.transforms.len())
        =~= transforms_bytes(m.transforms));
    assert(s.subrange(
        linewidth_offset_spec(li),
        linewidth_offset_spec(li) + 4 * m.linewidths.len(),
    ) =~= u32s_le_bytes(m.linewidths));
    assert(s.subrange(pathtag_offset_spec(li), pathtag_offset_spec(li) + m.tags.len())
        =~= m.tags);
    assert(s.subrange(pathseg_offset_spec(li), scene_size_spec(li)) =~= m.pathsegs);
}

/// The layout plan is a function of the stream lengths and counts alone: any
/// two results the planner's contract admits for the same input are
/// identical.
pub proof fn lemma_plan_idempotent(
    li: LayoutInput,
    r1: Result<(Config, usize), LayoutError>,
    r2: Result<(Config, usize), LayoutError>,
)
    requires
        plan_post(li, r1),
        plan_post(li, r2),
    ensures
        r1 == r2,
{
}

/// Rounds `x` up to a whole number of blocks of size `align` in 64-bit
/// offset arithmetic.
fn align_up64(x: u64, align: u64) -> (r: u64)
    requires
        0 < align,
        x + align - 1 <= u64::MAX,
    ensures
        r == align_up_spec(x as int, align as int),
        x <= r < x + align,
{
    proof {
        lemma_align_up_props(x as int, align as int);
    }
    let m = x % align;
    if m == 0 {
        x
    } else {
        x + (align - m)
    }
}

/// Plans both buffer layouts from the stream lengths and counts: computes
/// every region offset of the scene buffer and of the scratch buffer in
/// widened arithmetic, and returns the configuration record and the total
/// scratch size, or reports that the scene does not fit the 32-bit fields.
pub fn plan_layout(
    n_drawobj: usize,
    drawdata_len: usize,
    n_trans: usize,
    n_linewidth: usize,
    n_pathtag: usize,
    pathseg_len: usize,
    n_path: u32,
    n_pathseg: u32,
    n_clip: u32,
) -> (r: Result<(Config, usize), LayoutError>)
    ensures
        plan_post(
            LayoutInput {
                n_drawobj: n_drawobj as nat,
                drawdata_len: drawdata_len as nat,
                n_trans: n_trans as nat,
                n_linewidth: n_linewidth as nat,
                n_pathtag: n_pathtag as nat,
                pathseg_len: pathseg_len as nat,
                n_path: n_path as nat,
                n_pathseg: n_pathseg as nat,
                n_clip: n_clip as nat,
            },
            r,
        ),
{
    let ghost li = LayoutInput {
        n_drawobj: n_drawobj as nat,
        drawdata_len: drawdata_len as nat,
        n_trans: n_trans as nat,
        n_linewidth: n_linewidth as nat,
        n_pathtag: n_pathtag as nat,
        pathseg_len: pathseg_len as nat,
        n_path: n_path as nat,
        n_pathseg: n_pathseg as nat,
        n_clip: n_clip as nat,
    };
    proof {
        lemma_scene_regions(li);
        lemma_scratch_regions(li);
    }
    let limit: u64 = 0xffff_ffff;
    if n_drawobj as u64 > limit || drawdata_len as u64 > limit || n_trans as u64 > limit
        || n_linewidth as u64 > limit || n_pathtag as u64 > limit || pathseg_len as u64 > limit {
        return Err(LayoutError::SceneTooLarge);
    }
    let nd = n_drawobj as u64;
    let nd_pad = align_up64(nd, DRAW_PART_SIZE as u64);
    let nt_pad = align_up64(n_trans as u64, TRANSFORM_PART_SIZE as u64);
    let ntag_pad = align_up64(n_pathtag as u64, PATHSEG_PART_SIZE as u64);
    let nclip_pad = align_up64(n_clip as u64, CLIP_PART_SIZE as u64);

    let drawdata_offset = nd_pad * (DRAWTAG_SIZE as u64);
    let trans_offset = drawdata_offset + drawdata_len as u64;
    let linewidth_offset = trans_offset + nt_pad * (TRANSFORM_SIZE as u64);
    let pathtag_offset = linewidth_offset + (n_linewidth as u64) * (LINEWIDTH_SIZE as u64);
    let pathseg_offset = pathtag_offset + ntag_pad;
    let scene_size = pathseg_offset + pathseg_len as u64;

    let trans_alloc: u64 = 0;
    let pathseg_alloc = trans_alloc + nt_pad * (TRANSFORM_SIZE as u64);
    let path_bbox_alloc = pathseg_alloc + (n_pathseg as u64) * (PATHSEG_SIZE as u64);
    let drawmonoid_alloc = path_bbox_alloc + (n_path as u64) * (PATH_BBOX_SIZE as u64);
    let anno_alloc = drawmonoid_alloc + nd_pad * (DRAWMONOID_SIZE as u64);
    let clip_alloc = anno_alloc + nd * (ANNOTATED_SIZE as u64);
    let clip_bic_alloc = clip_alloc + (n_clip as u64) * (CLIP_SIZE as u64);
    let clip_stack_alloc = clip_bic_alloc + ((n_clip as u64) / (CLIP_PART_SIZE as u64)) * (
    CLIP_BIC_SIZE as u64);
    let clip_bbox_alloc = clip_stack_alloc + (n_clip as u64) * (CLIP_EL_SIZE as u64);
    let draw_bbox_alloc = clip_bbox_alloc + nclip_pad * (CLIP_BBOX_SIZE as u64);
    let drawinfo_alloc = draw_bbox_alloc + nd * (DRAW_BBOX_SIZE as u64);
    let scratch_total = drawinfo_alloc + nd * (MAX_DRAWINFO_SIZE as u64);

    if scene_size > limit || scratch_total > limit {
        return Err(LayoutError::SceneTooLarge);
    }
    let config = Config {
        n_elements: n_drawobj as u32,
        n_pathseg,
        pathseg_alloc: pathseg_alloc as u32,
        anno_alloc: anno_alloc as u32,
        trans_alloc: trans_alloc as u32,
        path_bbox_alloc: path_bbox_alloc as u32,
        drawmonoid_alloc: drawmonoid_alloc as u32,
        clip_alloc: clip_alloc as u32,
        clip_bic_alloc: clip_bic_alloc as u32,
        clip_stack_alloc: clip_stack_alloc as u32,
        clip_bbox_alloc: clip_bbox_alloc as u32,
        draw_bbox_alloc: draw_bbox_alloc as u32,
        drawinfo_alloc: drawinfo_alloc as u32,
        n_trans: n_trans as u32,
        n_path,
        n_clip,
        trans_offset: trans_offset as u32,
        linewidth_offset: linewidth_offset as u32,
        pathtag_offset: pathtag_offset as u32,
        pathseg_offset: pathseg_offset as u32,
        drawtag_offset: 0,
        drawdata_offset: drawdata_offset as u32,
    };
    Ok((config, scratch_total as usize))
}

} // verus!
