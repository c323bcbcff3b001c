//! Low-level scene encoding.
//!
//! `Encoder` owns the six parallel streams and the running counts; every
//! append operation's contract states the exact new state as `apply_op` of
//! the matching `SceneOp`. `GlyphEncoder` is the reduced fragment encoder,
//! `PathEncoder` the detached geometry accumulator, and `EncodedSceneRef` a
//! borrowed view of already-encoded streams. The serializer writes the scene
//! buffer byte for byte as `scene_bytes` describes, in lock step with the
//! layout planner.

use vstd::prelude::*;
use vstd::pervasive::VecAdditionalExecFns;
use crate::align::lemma_part_sizes_pow2;
use crate::align::padding;
use crate::blend::Blend;
use crate::bytes::BufWrite;
use crate::bytes::push_u32_le;
use crate::bytes::u32_le_bytes;
use crate::layout::Config;
use crate::layout::LayoutError;
use crate::layout::layout_input_of;
use crate::layout::plan_layout;
use crate::layout::plan_post;
use crate::model::EncModel;
use crate::model::GlyphModel;
use crate::model::PathModel;
use crate::model::enc_init;
use crate::model::enc_scene_bytes;
use crate::model::enc_wf;
use crate::model::glyph_init;
use crate::model::glyph_wf;
use crate::model::path_init;
use crate::model::scene_bytes;
use crate::model::drawdata_size;
use crate::model::drawtag_payload_size;
use crate::ops::SceneOp;
use crate::ops::apply_op;
use crate::ops::clip_blend_pack;
use crate::ops::lemma_op_preserves_wf;
use crate::params::DRAWTAG_BEGINCLIP;
use crate::params::DRAWTAG_ENDCLIP;
use crate::params::DRAWTAG_FILLCOLOR;
use crate::params::DRAWTAG_FILLLINGRADIENT;
use crate::params::DRAWTAG_FILLRADGRADIENT;
use crate::params::DRAWTAG_SIZE;
use crate::params::DRAW_PART_SIZE;
use crate::params::F32_NEG_ONE_BITS;
use crate::params::PATHSEG_PART_SIZE;
use crate::params::PATH_TAG_LINEWIDTH;
use crate::params::PATH_TAG_PATH;
use crate::params::PATH_TAG_TRANSFORM;
use crate::params::TRANSFORM_PART_SIZE;
use crate::params::TRANSFORM_SIZE;
use crate::transform::Transform;

verus! {

/// Appends a copy of every element of `src` to `dst`, in order.
fn extend_vec<T: Copy>(dst: &mut Vec<T>, src: &Vec<T>)
    ensures
        final(dst)@ == old(dst)@ + src@,
{
    let n = src.len();
    let mut i: usize = 0;
    while i < n
        invariant
            i <= n,
            n == src@.len(),
            dst@ == old(dst)@ + src@.subrange(0, i as int),
        decreases n - i,
    {
        dst.push(src[i]);
        proof {
            assert(src@.subrange(0, i + 1) =~= src@.subrange(0, i as int).push(src@[i as int]));
        }
        i += 1;
    }
    proof {
        assert(src@.subrange(0, n as int) =~= src@);
    }
}

/// The 4-byte payload of a solid-color fill: a packed RGBA color.
pub struct FillColor {
    rgba_color: u32,
}

/// The 20-byte payload of a linear-gradient fill: a ramp index and the two
/// gradient endpoints (float bit patterns).
pub struct FillLinGradient {
    index: u32,
    p0: [u32; 2],
    p1: [u32; 2],
}

/// The 28-byte payload of a radial-gradient fill: a ramp index, the two
/// centers and the two radii (float bit patterns).
pub struct FillRadGradient {
    index: u32,
    p0: [u32; 2],
    p1: [u32; 2],
    r0: u32,
    r1: u32,
}

/// The 8-byte payload of an image fill: an atlas index and a packed offset.
#[allow(unused)]
pub struct FillImage {
    index: u32,
    offset: u32,
}

/// The 4-byte payload of a clip draw object: a packed blend.
pub struct Clip {
    blend: u32,
}

/// A detached accumulator for one path's geometry: the path-tag bytes and
/// path-segment payload bytes the geometry collaborator appends, and the
/// running segment count. It is spliced into an encoder with `append_path`.
pub struct PathEncoder {
    tag_stream: Vec<u8>,
    pathseg_stream: Vec<u8>,
    n_pathseg: u32,
}

impl View for PathEncoder {
    type V = PathModel;

    closed spec fn view(&self) -> PathModel {
        PathModel {
            tags: self.tag_stream@,
            segs: self.pathseg_stream@,
            n_pathseg: self.n_pathseg as nat,
        }
    }
}

impl PathEncoder {
    /// An empty path encoder.
    pub fn new() -> (r: PathEncoder)
        ensures
            r@ == path_init(),
    {
        let r = PathEncoder { tag_stream: Vec::new(), pathseg_stream: Vec::new(), n_pathseg: 0 };
        proof {
            assert(r@ =~= path_init());
        }
        r
    }

    /// Appends one path segment: its tag byte and its payload bytes, and
    /// counts it.
    pub fn push_segment(&mut self, tag: u8, payload: &[u8])
        requires
            old(self)@.n_pathseg < u32::MAX,
        ensures
            final(self)@.tags == old(self)@.tags.push(tag),
            final(self)@.segs == old(self)@.segs + payload@,
            final(self)@.n_pathseg == old(self)@.n_pathseg + 1,
    {
        self.tag_stream.push(tag);
        let n = payload.len();
        let mut i: usize = 0;
        while i < n
            invariant
                i <= n,
                n == payload@.len(),
                self.pathseg_stream@ == old(self).pathseg_stream@ + payload@.subrange(0, i as int),
                self.tag_stream@ == old(self).tag_stream@.push(tag),
                self.n_pathseg == old(self).n_pathseg,
            decreases n - i,
        {
            self.pathseg_stream.push(payload[i]);
            proof {
                assert(payload@.subrange(0, i + 1) =~= payload@.subrange(0, i as int).push(
                    payload@[i as int],
                ));
            }
            i += 1;
        }
        proof {
            assert(payload@.subrange(0, n as int) =~= payload@);
        }
        self.n_pathseg += 1;
    }

    /// Appends one control tag byte without counting a segment (a path-end
    /// marker, for instance).
    pub fn push_tag(&mut self, tag: u8)
        ensures
            final(self)@.tags == old(self)@.tags.push(tag),
            final(self)@.segs == old(self)@.segs,
            final(self)@.n_pathseg == old(self)@.n_pathseg,
    {
        self.tag_stream.push(tag);
    }

    /// The number of segments appended so far.
    pub fn n_pathseg(&self) -> (r: u32)
        ensures
            r == self@.n_pathseg,
    {
        self.n_pathseg
    }
}

/// The scene encoder: six parallel append-only streams plus the running
/// path, path-segment and clip counts.
pub struct Encoder {
    transform_stream: Vec<Transform>,
    tag_stream: Vec<u8>,
    pathseg_stream: Vec<u8>,
    linewidth_stream: Vec<u32>,
    drawtag_stream: Vec<u32>,
    drawdata_stream: Vec<u8>,
    n_path: u32,
    n_pathseg: u32,
    n_clip: u32,
}

impl View for Encoder {
    type V = EncModel;

    closed spec fn view(&self) -> EncModel {
        EncModel {
            transforms: self.transform_stream@,
            tags: self.tag_stream@,
            pathsegs: self.pathseg_stream@,
            linewidths: self.linewidth_stream@,
            drawtags: self.drawtag_stream@,
            drawdata: self.drawdata_stream@,
            n_path: self.n_path as nat,
            n_pathseg: self.n_pathseg as nat,
            n_clip: self.n_clip as nat,
        }
    }
}

impl Encoder {
    /// A fresh encoder: the transform stream pre-seeded with the identity,
    /// the line-width stream with the fill sentinel, everything else empty.
    pub fn new() -> (r: Encoder)
        ensures
            r@ == enc_init(),
            enc_wf(r@),
    {
        let mut transform_stream: Vec<Transform> = Vec::new();
        transform_stream.push(Transform::identity());
        let mut linewidth_stream: Vec<u32> = Vec::new();
        linewidth_stream.push(F32_NEG_ONE_BITS);
        let r = Encoder {
            transform_stream,
            tag_stream: Vec::new(),
            pathseg_stream: Vec::new(),
            linewidth_stream,
            drawtag_stream: Vec::new(),
            drawdata_stream: Vec::new(),
            n_path: 0,
            n_pathseg: 0,
            n_clip: 0,
        };
        proof {
            assert(r@ =~= enc_init());
        }
        r
    }

    /// A fresh detached path encoder for one path's geometry; splice its
    /// streams back with `append_path`, then close the path with
    /// `finish_path`.
    pub fn path_encoder(&self) -> (r: PathEncoder)
        ensures
            r@ == path_init(),
    {
        PathEncoder::new()
    }

    /// Splices a path encoder's tag and segment bytes onto this encoder's
    /// streams.
    pub fn append_path(&mut self, p: &PathEncoder)
        ensures
            final(self)@ == apply_op(
                old(self)@,
                SceneOp::AppendPath { tags: p@.tags, segs: p@.segs },
            ),
            enc_wf(old(self)@) ==> enc_wf(final(self)@),
    {
        extend_vec(&mut self.tag_stream, &p.tag_stream);
        extend_vec(&mut self.pathseg_stream, &p.pathseg_stream);
        proof {
            let op = SceneOp::AppendPath { tags: p@.tags, segs: p@.segs };
            assert(self@ =~= apply_op(old(self)@, op));
            if enc_wf(old(self)@) {
                lemma_op_preserves_wf(old(self)@, op);
            }
        }
    }

    /// Closes out one path of `n_pathseg` segments: counts the path and its
    /// segments. `n_pathseg` must equal the number of segments actually
    /// appended for this path.
    pub fn finish_path(&mut self, n_pathseg: u32)
        requires
            old(self)@.n_path < u32::MAX,
            old(self)@.n_pathseg + n_pathseg <= u32::MAX,
        ensures
            final(self)@ == apply_op(
                old(self)@,
                SceneOp::FinishPath { n_segs: n_pathseg as nat },
            ),
            enc_wf(old(self)@) ==> enc_wf(final(self)@),
    {
        self.n_path += 1;
        self.n_pathseg += n_pathseg;
        proof {
            let op = SceneOp::FinishPath { n_segs: n_pathseg as nat };
            assert(self@ =~= apply_op(old(self)@, op));
            if enc_wf(old(self)@) {
                lemma_op_preserves_wf(old(self)@, op);
            }
        }
    }

    /// Appends a transform-change tag and pushes the transform; it applies
    /// to subsequently encoded paths.
    pub fn transform(&mut self, transform: Transform)
        ensures
            final(self)@ == apply_op(old(self)@, SceneOp::SetTransform { t: transform }),
            enc_wf(old(self)@) ==> enc_wf(final(self)@),
    {
        self.tag_stream.push(PATH_TAG_TRANSFORM);
        self.transform_stream.push(transform);
        proof {
            let op = SceneOp::SetTransform { t: transform };
            assert(self@ =~= apply_op(old(self)@, op));
            if enc_wf(old(self)@) {
                lemma_op_preserves_wf(old(self)@, op);
            }
        }
    }

    /// Exchanges the last two path tags; used immediately after a transform
    /// tag to normalize ordering for transformed gradients. At least two
    /// tags must exist.
    pub fn swap_last_tags(&mut self)
        requires
            old(self)@.tags.len() >= 2,
        ensures
            final(self)@ == apply_op(old(self)@, SceneOp::SwapLastTags),
            enc_wf(old(self)@) ==> enc_wf(final(self)@),
    {
        let len = self.tag_stream.len();
        let a = self.tag_stream[len - 1];
        let b = self.tag_stream[len - 2];
        self.tag_stream.set(len - 1, b);
        self.tag_stream.set(len - 2, a);
        proof {
            assert(self@ =~= apply_op(old(self)@, SceneOp::SwapLastTags));
            if enc_wf(old(self)@) {
                lemma_op_preserves_wf(old(self)@, SceneOp::SwapLastTags);
            }
        }
    }

    /// Appends a line-width-change tag and pushes the width's float bit
    /// pattern; the sentinel `-1.0` means "fill, not stroke".
    pub fn linewidth(&mut self, linewidth: u32)
        ensures
            final(self)@ == apply_op(old(self)@, SceneOp::SetLinewidth { width_bits: linewidth }),
            enc_wf(old(self)@) ==> enc_wf(final(self)@),
    {
        self.tag_stream.push(PATH_TAG_LINEWIDTH);
        self.linewidth_stream.push(linewidth);
        proof {
            let op = SceneOp::SetLinewidth { width_bits: linewidth };
            assert(self@ =~= apply_op(old(self)@, op));
            if enc_wf(old(self)@) {
                lemma_op_preserves_wf(old(self)@, op);
            }
        }
    }

    /// Encodes a solid-color fill draw object; encode it after the path it
    /// fills.
    pub fn fill_color(&mut self, rgba_color: u32)
        ensures
            final(self)@ == apply_op(old(self)@, SceneOp::FillColor { rgba: rgba_color }),
            enc_wf(old(self)@) ==> enc_wf(final(self)@),
    {
        self.drawtag_stream.push(DRAWTAG_FILLCOLOR);
        let element = FillColor { rgba_color };
        push_u32_le(&mut self.drawdata_stream, element.rgba_color);
        proof {
            let op = SceneOp::FillColor { rgba: rgba_color };
            assert(self@ =~= apply_op(old(self)@, op));
            if enc_wf(old(self)@) {
                lemma_op_preserves_wf(old(self)@, op);
            }
        }
    }

    /// Encodes a linear-gradient fill draw object; encode it after the path
    /// it fills. Points are float bit patterns.
    pub fn fill_lin_gradient(&mut self, index: u32, p0: [u32; 2], p1: [u32; 2])
        ensures
            final(self)@ == apply_op(
                old(self)@,
                SceneOp::FillLinGradient {
                    index,
                    p0x: p0@[0],
                    p0y: p0@[1],
                    p1x: p1@[0],
                    p1y: p1@[1],
                },
            ),
            enc_wf(old(self)@) ==> enc_wf(final(self)@),
    {
        self.drawtag_stream.push(DRAWTAG_FILLLINGRADIENT);
        let element = FillLinGradient { index, p0, p1 };
        push_u32_le(&mut self.drawdata_stream, element.index);
        push_u32_le(&mut self.drawdata_stream, element.p0[0]);
        push_u32_le(&mut self.drawdata_stream, element.p0[1]);
        push_u32_le(&mut self.drawdata_stream, element.p1[0]);
        push_u32_le(&mut self.drawdata_stream, element.p1[1]);
        proof {
            let op = SceneOp::FillLinGradient {
                index,
                p0x: p0@[0],
                p0y: p0@[1],
                p1x: p1@[0],
                p1y: p1@[1],
            };
            assert(self@ =~= apply_op(old(self)@, op));
            if enc_wf(old(self)@) {
                lemma_op_preserves_wf(old(self)@, op);
            }
        }
    }

    /// Encodes a radial-gradient fill draw object; encode it after the path
    /// it fills. Points and radii are float bit patterns.
    pub fn fill_rad_gradient(&mut self, index: u32, p0: [u32; 2], p1: [u32; 2], r0: u32, r1: u32)
        ensures
            final(self)@ == apply_op(
                old(self)@,
                SceneOp::FillRadGradient {
                    index,
                    p0x: p0@[0],
                    p0y: p0@[1],
                    p1x: p1@[0],
                    p1y: p1@[1],
                    r0,
                    r1,
                },
            ),
            enc_wf(old(self)@) ==> enc_wf(final(self)@),
    {
        self.drawtag_stream.push(DRAWTAG_FILLRADGRADIENT);
        let element = FillRadGradient { index, p0, p1, r0, r1 };
        push_u32_le(&mut self.drawdata_stream, element.index);
        push_u32_le(&mut self.drawdata_stream, element.p0[0]);
        push_u32_le(&mut self.drawdata_stream, element.p0[1]);
        push_u32_le(&mut self.drawdata_stream, element.p1[0]);
        push_u32_le(&mut self.drawdata_stream, element.p1[1]);
        push_u32_le(&mut self.drawdata_stream, element.r0);
        push_u32_le(&mut self.drawdata_stream, element.r1);
        proof {
            let op = SceneOp::FillRadGradient {
                index,
                p0x: p0@[0],
                p0y: p0@[1],
                p1x: p1@[0],
                p1y: p1@[1],
                r0,
                r1,
            };
            assert(self@ =~= apply_op(old(self)@, op));
            if enc_wf(old(self)@) {
                lemma_op_preserves_wf(old(self)@, op);
            }
        }
    }

    /// Starts a clip with the given blend (the default blend when none is
    /// given) and counts it.
    pub fn begin_clip(&mut self, blend: Option<Blend>)
        requires
            old(self)@.n_clip < u32::MAX,
        ensures
            final(self)@ == apply_op(
                old(self)@,
                SceneOp::BeginClip { blend: clip_blend_pack(blend) },
            ),
            enc_wf(old(self)@) ==> enc_wf(final(self)@),
    {
        self.drawtag_stream.push(DRAWTAG_BEGINCLIP);
        let packed = match blend {
            Some(b) => b.pack(),
            None => Blend::default().pack(),
        };
        let element = Clip { blend: packed };
        push_u32_le(&mut self.drawdata_stream, element.blend);
        self.n_clip += 1;
        proof {
            let op = SceneOp::BeginClip { blend: clip_blend_pack(blend) };
            assert(self@ =~= apply_op(old(self)@, op));
            if enc_wf(old(self)@) {
                lemma_op_preserves_wf(old(self)@, op);
            }
        }
    }

    /// Ends a clip with the given blend (the default blend when none is
    /// given), counts it, and synthesizes the degenerate path the downstream
    /// pipeline models the clip boundary as.
    pub fn end_clip(&mut self, blend: Option<Blend>)
        requires
            old(self)@.n_clip < u32::MAX,
            old(self)@.n_path < u32::MAX,
        ensures
            final(self)@ == apply_op(
                old(self)@,
                SceneOp::EndClip { blend: clip_blend_pack(blend) },
            ),
            enc_wf(old(self)@) ==> enc_wf(final(self)@),
    {
        self.drawtag_stream.push(DRAWTAG_ENDCLIP);
        let packed = match blend {
            Some(b) => b.pack(),
            None => Blend::default().pack(),
        };
        let element = Clip { blend: packed };
        push_u32_le(&mut self.drawdata_stream, element.blend);
        self.tag_stream.push(PATH_TAG_PATH);
        self.n_path += 1;
        self.n_clip += 1;
        proof {
            let op = SceneOp::EndClip { blend: clip_blend_pack(blend) };
            assert(self@ =~= apply_op(old(self)@, op));
            if enc_wf(old(self)@) {
                lemma_op_preserves_wf(old(self)@, op);
            }
        }
    }

    /// Merges a glyph fragment: appends its four streams onto this encoder's
    /// corresponding streams, in order, and adds its counts. The fragment
    /// contributes no transforms or line widths.
    pub fn encode_glyph(&mut self, glyph: &GlyphEncoder)
        requires
            old(self)@.n_path + glyph@.n_path <= u32::MAX,
            old(self)@.n_pathseg + glyph@.n_pathseg <= u32::MAX,
        ensures
            final(self)@ == apply_op(old(self)@, SceneOp::MergeGlyph { glyph: glyph@ }),
            enc_wf(old(self)@) && glyph_wf(glyph@) ==> enc_wf(final(self)@),
    {
        extend_vec(&mut self.tag_stream, &glyph.tag_stream);
        extend_vec(&mut self.pathseg_stream, &glyph.pathseg_stream);
        extend_vec(&mut self.drawtag_stream, &glyph.drawtag_stream);
        extend_vec(&mut self.drawdata_stream, &glyph.drawdata_stream);
        self.n_path += glyph.n_path;
        self.n_pathseg += glyph.n_pathseg;
        proof {
            let op = SceneOp::MergeGlyph { glyph: glyph@ };
            assert(self@ =~= apply_op(old(self)@, op));
            if enc_wf(old(self)@) && glyph_wf(glyph@) {
                lemma_op_preserves_wf(old(self)@, op);
            }
        }
    }

    /// Plans both buffer layouts for the current state: the configuration
    /// record for the element-processing pipeline and the total scratch
    /// size. Pure over the state; fails exactly when the layout does not fit
    /// the 32-bit configuration fields.
    pub fn stage_config(&self) -> (r: Result<(Config, usize), LayoutError>)
        ensures
            plan_post(layout_input_of(self@), r),
    {
        let r = plan_layout(
            self.drawtag_stream.len(),
            self.drawdata_stream.len(),
            self.transform_stream.len(),
            self.linewidth_stream.len(),
            self.tag_stream.len(),
            self.pathseg_stream.len(),
            self.n_path,
            self.n_pathseg,
            self.n_clip,
        );
        proof {
            assert(crate::layout::LayoutInput {
                n_drawobj: self.drawtag_stream@.len(),
                drawdata_len: self.drawdata_stream@.len(),
                n_trans: self.transform_stream@.len(),
                n_linewidth: self.linewidth_stream@.len(),
                n_pathtag: self.tag_stream@.len(),
                pathseg_len: self.pathseg_stream@.len(),
                n_path: self.n_path as nat,
                n_pathseg: self.n_pathseg as nat,
                n_clip: self.n_clip as nat,
            } =~= layout_input_of(self@));
        }
        r
    }

    /// Serializes the six streams into `buf` in the exact region order and
    /// padding of the planned scene-buffer layout.
    pub fn write_scene(&self, buf: &mut BufWrite)
        ensures
            final(buf)@ == old(buf)@ + enc_scene_bytes(self@),
    {
        write_scene_streams(
            buf,
            self.drawtag_stream.as_slice(),
            self.drawdata_stream.as_slice(),
            self.transform_stream.as_slice(),
            self.linewidth_stream.as_slice(),
            self.tag_stream.as_slice(),
            self.pathseg_stream.as_slice(),
        );
    }

    /// The number of draw objects in the draw-tag stream.
    pub fn n_drawobj(&self) -> (r: usize)
        ensures
            r == self@.drawtags.len(),
    {
        self.drawtag_stream.len()
    }

    /// The number of paths.
    pub fn n_path(&self) -> (r: u32)
        ensures
            r == self@.n_path,
    {
        self.n_path
    }

    /// The number of path segments.
    pub fn n_pathseg(&self) -> (r: u32)
        ensures
            r == self@.n_pathseg,
    {
        self.n_pathseg
    }

    /// The number of transforms.
    pub fn n_transform(&self) -> (r: usize)
        ensures
            r == self@.transforms.len(),
    {
        self.transform_stream.len()
    }

    /// The number of tags in the path-tag stream.
    pub fn n_pathtag(&self) -> (r: usize)
        ensures
            r == self@.tags.len(),
    {
        self.tag_stream.len()
    }

    /// The number of clip operations.
    pub fn n_clip(&self) -> (r: u32)
        ensures
            r == self@.n_clip,
    {
        self.n_clip
    }
}

/// A scene fragment encoding one glyph: the four streams a glyph carries (no
/// transforms, no line widths — it inherits the destination's state), built
/// in isolation so glyph outlines can be cached and merged later.
pub struct GlyphEncoder {
    tag_stream: Vec<u8>,
    pathseg_stream: Vec<u8>,
    drawtag_stream: Vec<u32>,
    drawdata_stream: Vec<u8>,
    n_path: u32,
    n_pathseg: u32,
}

impl View for GlyphEncoder {
    type V = GlyphModel;

    closed spec fn view(&self) -> GlyphModel {
        GlyphModel {
            tags: self.tag_stream@,
            pathsegs: self.pathseg_stream@,
            drawtags: self.drawtag_stream@,
            drawdata: self.drawdata_stream@,
            n_path: self.n_path as nat,
            n_pathseg: self.n_pathseg as nat,
        }
    }
}

impl Default for GlyphEncoder {
    /// An empty glyph fragment.
    fn default() -> (r: GlyphEncoder)
        ensures
            r@ == glyph_init(),
            glyph_wf(r@),
    {
        let r = GlyphEncoder {
            tag_stream: Vec::new(),
            pathseg_stream: Vec::new(),
            drawtag_stream: Vec::new(),
            drawdata_stream: Vec::new(),
            n_path: 0,
            n_pathseg: 0,
        };
        proof {
            assert(r@ =~= glyph_init());
        }
        r
    }
}

impl GlyphEncoder {
    /// A fresh detached path encoder for one path's geometry; splice its
    /// streams back with `append_path`, then close the path with
    /// `finish_path`.
    pub fn path_encoder(&self) -> (r: PathEncoder)
        ensures
            r@ == path_init(),
    {
        PathEncoder::new()
    }

    /// Splices a path encoder's tag and segment bytes onto this fragment's
    /// streams.
    pub fn append_path(&mut self, p: &PathEncoder)
        ensures
            final(self)@ == (GlyphModel {
                tags: old(self)@.tags + p@.tags,
                pathsegs: old(self)@.pathsegs + p@.segs,
                ..old(self)@
            }),
            glyph_wf(old(self)@) ==> glyph_wf(final(self)@),
    {
        extend_vec(&mut self.tag_stream, &p.tag_stream);
        extend_vec(&mut self.pathseg_stream, &p.pathseg_stream);
        proof {
            assert(self@ =~= (GlyphModel {
                tags: old(self)@.tags + p@.tags,
                pathsegs: old(self)@.pathsegs + p@.segs,
                ..old(self)@
            }));
        }
    }

    /// Closes out one path of `n_pathseg` segments: counts the path and its
    /// segments. `n_pathseg` must equal the number of segments actually
    /// appended for this path.
    pub fn finish_path(&mut self, n_pathseg: u32)
        requires
            old(self)@.n_path < u32::MAX,
            old(self)@.n_pathseg + n_pathseg <= u32::MAX,
        ensures
            final(self)@ == (GlyphModel {
                n_path: old(self)@.n_path + 1,
                n_pathseg: old(self)@.n_pathseg + n_pathseg as nat,
                ..old(self)@
            }),
            glyph_wf(old(self)@) ==> glyph_wf(final(self)@),
    {
        self.n_path += 1;
        self.n_pathseg += n_pathseg;
        proof {
            assert(self@ =~= (GlyphModel {
                n_path: old(self)@.n_path + 1,
                n_pathseg: old(self)@.n_pathseg + n_pathseg as nat,
                ..old(self)@
            }));
        }
    }

    /// Encodes the glyph's solid-color fill draw object; encode it after the
    /// glyph's path.
    pub fn fill_color(&mut self, rgba_color: u32)
        ensures
            final(self)@ == (GlyphModel {
                drawtags: old(self)@.drawtags.push(DRAWTAG_FILLCOLOR),
                drawdata: old(self)@.drawdata + u32_le_bytes(rgba_color),
                ..old(self)@
            }),
            glyph_wf(old(self)@) ==> glyph_wf(final(self)@),
    {
        self.drawtag_stream.push(DRAWTAG_FILLCOLOR);
        let element = FillColor { rgba_color };
        push_u32_le(&mut self.drawdata_stream, element.rgba_color);
        proof {
            assert(self@ =~= (GlyphModel {
                drawtags: old(self)@.drawtags.push(DRAWTAG_FILLCOLOR),
                drawdata: old(self)@.drawdata + u32_le_bytes(rgba_color),
                ..old(self)@
            }));
            if glyph_wf(old(self)@) {
                assert(self@.drawtags.drop_last() =~= old(self)@.drawtags);
                assert(drawdata_size(self@.drawtags) == drawdata_size(old(self)@.drawtags)
                    + drawtag_payload_size(DRAWTAG_FILLCOLOR));
            }
        }
    }

    /// The number of paths in the fragment.
    pub fn n_path(&self) -> (r: u32)
        ensures
            r == self@.n_path,
    {
        self.n_path
    }

    /// The number of path segments in the fragment.
    pub fn n_pathseg(&self) -> (r: u32)
        ensures
            r == self@.n_pathseg,
    {
        self.n_pathseg
    }

    /// True when a fill has been recorded; used to skip empty glyphs such as
    /// whitespace.
    pub fn is_color(&self) -> (r: bool)
        ensures
            r == (self@.drawtags.len() != 0),
    {
        !self.drawtag_stream.is_empty()
    }
}

/// A borrowed view of already-encoded streams with their counts, for scenes
/// whose streams live outside an `Encoder`; plans and serializes exactly as
/// the encoder does.
#[derive(Clone, Copy)]
pub struct EncodedSceneRef<'a> {
    pub transform_stream: &'a [Transform],
    pub tag_stream: &'a [u8],
    pub pathseg_stream: &'a [u8],
    pub linewidth_stream: &'a [u32],
    pub drawtag_stream: &'a [u32],
    pub drawdata_stream: &'a [u8],
    pub n_path: u32,
    pub n_pathseg: u32,
    pub n_clip: u32,
    pub ramp_data: &'a [u32],
}

impl<'a> View for EncodedSceneRef<'a> {
    type V = EncModel;

    open spec fn view(&self) -> EncModel {
        EncModel {
            transforms: self.transform_stream@,
            tags: self.tag_stream@,
            pathsegs: self.pathseg_stream@,
            linewidths: self.linewidth_stream@,
            drawtags: self.drawtag_stream@,
            drawdata: self.drawdata_stream@,
            n_path: self.n_path as nat,
            n_pathseg: self.n_pathseg as nat,
            n_clip: self.n_clip as nat,
        }
    }
}

impl<'a> EncodedSceneRef<'a> {
    /// Plans both buffer layouts for the referenced streams; see
    /// `Encoder::stage_config`.
    pub fn stage_config(&self) -> (r: Result<(Config, usize), LayoutError>)
        ensures
            plan_post(layout_input_of(self@), r),
    {
        let r = plan_layout(
            self.drawtag_stream.len(),
            self.drawdata_stream.len(),
            self.transform_stream.len(),
            self.linewidth_stream.len(),
            self.tag_stream.len(),
            self.pathseg_stream.len(),
            self.n_path,
            self.n_pathseg,
            self.n_clip,
        );
        proof {
            assert(crate::layout::LayoutInput {
                n_drawobj: self.drawtag_stream@.len(),
                drawdata_len: self.drawdata_stream@.len(),
                n_trans: self.transform_stream@.len(),
                n_linewidth: self.linewidth_stream@.len(),
                n_pathtag: self.tag_stream@.len(),
                pathseg_len: self.pathseg_stream@.len(),
                n_path: self.n_path as nat,
                n_pathseg: self.n_pathseg as nat,
                n_clip: self.n_clip as nat,
            } =~= layout_input_of(self@));
        }
        r
    }

    /// Serializes the referenced streams into `buf`; see
    /// `Encoder::write_scene`.
    pub fn write_scene(&self, buf: &mut BufWrite)
        ensures
            final(buf)@ == old(buf)@ + enc_scene_bytes(self@),
    {
        write_scene_streams(
            buf,
            self.drawtag_stream,
            self.drawdata_stream,
            self.transform_stream,
            self.linewidth_stream,
            self.tag_stream,
            self.pathseg_stream,
        );
    }

    /// The number of draw objects in the draw-tag stream.
    pub fn n_drawobj(&self) -> (r: usize)
        ensures
            r == self@.drawtags.len(),
    {
        self.drawtag_stream.len()
    }

    /// The number of paths.
    pub fn n_path(&self) -> (r: u32)
        ensures
            r == self@.n_path,
    {
        self.n_path
    }

    /// The number of path segments.
    pub fn n_pathseg(&self) -> (r: u32)
        ensures
            r == self@.n_pathseg,
    {
        self.n_pathseg
    }

    /// The number of transforms.
    pub fn n_transform(&self) -> (r: usize)
        ensures
            r == self@.transforms.len(),
    {
        self.transform_stream.len()
    }

    /// The number of tags in the path-tag stream.
    pub fn n_pathtag(&self) -> (r: usize)
        ensures
            r == self@.tags.len(),
    {
        self.tag_stream.len()
    }

    /// The number of clip operations.
    pub fn n_clip(&self) -> (r: u32)
        ensures
            r == self@.n_clip,
    {
        self.n_clip
    }
}

/// Writes the six streams into `buf` in the exact region order and padding
/// of the scene-buffer layout: block-padded draw tags, raw draw data,
/// block-padded transforms, raw line widths, block-padded path tags, raw
/// path segments.
pub fn write_scene_streams(
    buf: &mut BufWrite,
    drawtags: &[u32],
    drawdata: &[u8],
    transforms: &[Transform],
    linewidths: &[u32],
    tags: &[u8],
    pathsegs: &[u8],
)
    ensures
        final(buf)@ == old(buf)@ + scene_bytes(
            drawtags@,
            drawdata@,
            transforms@,
            linewidths@,
            tags@,
            pathsegs@,
        ),
{
    proof {
        lemma_part_sizes_pow2();
        crate::align::lemma_align_up_props(drawtags@.len() as int, DRAW_PART_SIZE as int);
        crate::align::lemma_align_up_props(transforms@.len() as int, TRANSFORM_PART_SIZE as int);
        crate::align::lemma_align_up_props(tags@.len() as int, PATHSEG_PART_SIZE as int);
    }
    buf.extend_u32s(drawtags);
    let n_drawobj = drawtags.len();
    buf.fill_zero(padding(n_drawobj, DRAW_PART_SIZE) * DRAWTAG_SIZE);
    buf.extend_bytes(drawdata);
    let n_trans = transforms.len();
    let ghost mid = buf@;
    let mut i: usize = 0;
    while i < n_trans
        invariant
            i <= n_trans,
            n_trans == transforms@.len(),
            buf@ == mid + crate::transform::transforms_bytes(transforms@.subrange(0, i as int)),
        decreases n_trans - i,
    {
        let t = transforms[i];
        buf.push_u32(t.mat00);
        buf.push_u32(t.mat01);
        buf.push_u32(t.mat10);
        buf.push_u32(t.mat11);
        buf.push_u32(t.translate_x);
        buf.push_u32(t.translate_y);
        proof {
            let pre = transforms@.subrange(0, i as int);
            let post = transforms@.subrange(0, i + 1);
            assert(post.drop_last() =~= pre);
            assert(buf@ =~= mid + crate::transform::transforms_bytes(post));
        }
        i += 1;
    }
    proof {
        assert(transforms@.subrange(0, n_trans as int) =~= transforms@);
    }
    buf.fill_zero(padding(n_trans, TRANSFORM_PART_SIZE) * TRANSFORM_SIZE);
    buf.extend_u32s(linewidths);
    buf.extend_bytes(tags);
    let n_pathtag = tags.len();
    buf.fill_zero(padding(n_pathtag, PATHSEG_PART_SIZE));
    buf.extend_bytes(pathsegs);
    proof {
        assert(buf@ =~= old(buf)@ + scene_bytes(
            drawtags@,
            drawdata@,
            transforms@,
            linewidths@,
            tags@,
            pathsegs@,
        ));
    }
}

} // verus!
