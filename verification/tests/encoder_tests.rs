use piet_gpu::blend::Blend;
use piet_gpu::bytes::BufWrite;
use piet_gpu::encoder::Encoder;
use piet_gpu::encoder::EncodedSceneRef;
use piet_gpu::encoder::GlyphEncoder;
use piet_gpu::params::F32_NEG_ONE_BITS;
use piet_gpu::params::F32_ONE_BITS;
use piet_gpu::transform::Transform;

fn scene_bytes_of(enc: &Encoder) -> Vec<u8> {
    let mut buf = BufWrite::new();
    enc.write_scene(&mut buf);
    buf.into_bytes()
}

fn u32_le_at(bytes: &[u8], off: usize) -> u32 {
    (bytes[off] as u32)
        | ((bytes[off + 1] as u32) << 8)
        | ((bytes[off + 2] as u32) << 16)
        | ((bytes[off + 3] as u32) << 24)
}

#[test]
fn float_bit_constants_match_ieee() {
    assert_eq!(F32_ONE_BITS, 1.0f32.to_bits());
    assert_eq!(F32_NEG_ONE_BITS, (-1.0f32).to_bits());
}

#[test]
fn fresh_encoder_serializes_identity_and_sentinel_only() {
    let enc = Encoder::new();
    let bytes = scene_bytes_of(&enc);
    // No draw tags, no draw data: the transform region starts at offset 0.
    // One transform padded to the 2048-entry block (24 bytes each), then one
    // line width, then empty path-tag and path-segment regions.
    assert_eq!(bytes.len(), 2048 * 24 + 4);
    // The identity transform: 1.0, 0, 0, 1.0, 0, 0 as little-endian bits.
    assert_eq!(u32_le_at(&bytes, 0), 1.0f32.to_bits());
    assert_eq!(u32_le_at(&bytes, 4), 0);
    assert_eq!(u32_le_at(&bytes, 8), 0);
    assert_eq!(u32_le_at(&bytes, 12), 1.0f32.to_bits());
    assert_eq!(u32_le_at(&bytes, 16), 0);
    assert_eq!(u32_le_at(&bytes, 20), 0);
    // The padding after the one transform is all zero.
    for i in 24..2048 * 24 {
        assert_eq!(bytes[i], 0);
    }
    // The pre-seeded -1.0 line width.
    assert_eq!(u32_le_at(&bytes, 2048 * 24), (-1.0f32).to_bits());
}

#[test]
fn one_path_and_solid_fill() {
    let mut enc = Encoder::new();
    let mut pe = enc.path_encoder();
    pe.push_segment(0x09, &[1, 2, 3, 4]);
    pe.push_segment(0x09, &[5, 6, 7, 8]);
    pe.push_segment(0x09, &[9, 10, 11, 12]);
    // The closing path marker is a control tag: not a counted segment.
    pe.push_tag(0x10);
    let n = pe.n_pathseg();
    assert_eq!(n, 3);
    enc.append_path(&pe);
    enc.finish_path(n);
    enc.fill_color(0xFF0000FF);
    assert_eq!(enc.n_path(), 1);
    assert_eq!(enc.n_pathseg(), 3);
    assert_eq!(enc.n_drawobj(), 1);
    assert_eq!(enc.n_pathtag(), 4);
    let bytes = scene_bytes_of(&enc);
    // Draw-tag region: the solid-fill code, then zero padding.
    assert_eq!(u32_le_at(&bytes, 0), 0x44);
    assert_eq!(u32_le_at(&bytes, 4), 0);
    // Draw-data region right after the padded draw tags: the color bytes.
    let drawdata_offset = 2048 * 4;
    assert_eq!(
        &bytes[drawdata_offset..drawdata_offset + 4],
        &[0xFF, 0x00, 0x00, 0xFF]
    );
}

#[test]
fn clip_pair_counts_and_tags() {
    let mut enc = Encoder::new();
    enc.begin_clip(None);
    enc.end_clip(None);
    assert_eq!(enc.n_clip(), 2);
    assert_eq!(enc.n_path(), 1);
    assert_eq!(enc.n_drawobj(), 2);
    // End-clip synthesized one degenerate path tag.
    assert_eq!(enc.n_pathtag(), 1);
    let bytes = scene_bytes_of(&enc);
    assert_eq!(u32_le_at(&bytes, 0), 0x05);
    assert_eq!(u32_le_at(&bytes, 4), 0x25);
    // Both clip payloads carry the packed default blend: normal mix,
    // source-over composition.
    let drawdata_offset = 2048 * 4;
    let default_pack = Blend::default().pack();
    assert_eq!(default_pack, 3 << 8);
    assert_eq!(u32_le_at(&bytes, drawdata_offset), default_pack);
    assert_eq!(u32_le_at(&bytes, drawdata_offset + 4), default_pack);
}

#[test]
fn explicit_blend_is_packed_into_clip_payload() {
    let mut enc = Encoder::new();
    enc.begin_clip(Some(Blend::new(2, 5)));
    let bytes = scene_bytes_of(&enc);
    let drawdata_offset = 2048 * 4;
    assert_eq!(u32_le_at(&bytes, drawdata_offset), 2 | (5 << 8));
}

#[test]
fn transform_and_linewidth_append_tags_and_records() {
    let mut enc = Encoder::new();
    enc.transform(Transform::new(
        2.0f32.to_bits(),
        0,
        0,
        2.0f32.to_bits(),
        10.5f32.to_bits(),
        0,
    ));
    enc.linewidth(3.5f32.to_bits());
    assert_eq!(enc.n_transform(), 2);
    assert_eq!(enc.n_pathtag(), 2);
    let bytes = scene_bytes_of(&enc);
    // The second transform record follows the identity.
    assert_eq!(u32_le_at(&bytes, 24), 2.0f32.to_bits());
    assert_eq!(u32_le_at(&bytes, 24 + 16), 10.5f32.to_bits());
    // The line-width region holds the sentinel and the new width.
    let linewidth_offset = 2048 * 24;
    assert_eq!(u32_le_at(&bytes, linewidth_offset), (-1.0f32).to_bits());
    assert_eq!(u32_le_at(&bytes, linewidth_offset + 4), 3.5f32.to_bits());
    // The path-tag region holds the transform tag then the line-width tag.
    let pathtag_offset = linewidth_offset + 8;
    assert_eq!(bytes[pathtag_offset], 0x20);
    assert_eq!(bytes[pathtag_offset + 1], 0x40);
}

#[test]
fn swap_last_tags_exchanges_the_final_two() {
    let mut enc = Encoder::new();
    enc.linewidth((-1.0f32).to_bits());
    enc.transform(Transform::identity());
    enc.swap_last_tags();
    let bytes = scene_bytes_of(&enc);
    let pathtag_offset = 2048 * 24 + 2 * 4;
    // Encoded as line-width tag then transform tag, the swap puts the
    // transform tag first.
    assert_eq!(bytes[pathtag_offset], 0x20);
    assert_eq!(bytes[pathtag_offset + 1], 0x40);
}

#[test]
fn gradient_fills_append_their_payloads() {
    let mut enc = Encoder::new();
    enc.fill_lin_gradient(7, [1.0f32.to_bits(), 0], [0, 1.0f32.to_bits()]);
    enc.fill_rad_gradient(
        8,
        [0, 0],
        [0, 0],
        5.0f32.to_bits(),
        6.0f32.to_bits(),
    );
    assert_eq!(enc.n_drawobj(), 2);
    let bytes = scene_bytes_of(&enc);
    assert_eq!(u32_le_at(&bytes, 0), 0x114);
    assert_eq!(u32_le_at(&bytes, 4), 0x2dc);
    let dd = 2048 * 4;
    // Linear gradient: index, p0, p1 — 20 bytes.
    assert_eq!(u32_le_at(&bytes, dd), 7);
    assert_eq!(u32_le_at(&bytes, dd + 4), 1.0f32.to_bits());
    assert_eq!(u32_le_at(&bytes, dd + 16), 1.0f32.to_bits());
    // Radial gradient payload follows: index, p0, p1, r0, r1 — 28 bytes.
    assert_eq!(u32_le_at(&bytes, dd + 20), 8);
    assert_eq!(u32_le_at(&bytes, dd + 40), 5.0f32.to_bits());
    assert_eq!(u32_le_at(&bytes, dd + 44), 6.0f32.to_bits());
}

#[test]
fn glyph_merge_concatenates_streams_and_adds_counts() {
    let mut enc = Encoder::new();
    let mut pe = enc.path_encoder();
    pe.push_segment(0x09, &[1, 2, 3]);
    let n = pe.n_pathseg();
    enc.append_path(&pe);
    enc.finish_path(n);
    enc.fill_color(0x11223344);

    let mut glyph = GlyphEncoder::default();
    let mut gp = glyph.path_encoder();
    gp.push_segment(0x0A, &[7, 7]);
    gp.push_segment(0x0A, &[8, 8]);
    let gn = gp.n_pathseg();
    glyph.append_path(&gp);
    glyph.finish_path(gn);
    glyph.fill_color(0xAABBCCDD);
    assert!(glyph.is_color());

    enc.encode_glyph(&glyph);
    assert_eq!(enc.n_path(), 2);
    assert_eq!(enc.n_pathseg(), 3);
    assert_eq!(enc.n_drawobj(), 2);
    assert_eq!(enc.n_pathtag(), 3);

    let bytes = scene_bytes_of(&enc);
    // Draw tags: the encoder's fill then the glyph's fill.
    assert_eq!(u32_le_at(&bytes, 0), 0x44);
    assert_eq!(u32_le_at(&bytes, 4), 0x44);
    // Draw data: the two colors in order.
    let dd = 2048 * 4;
    assert_eq!(u32_le_at(&bytes, dd), 0x11223344);
    assert_eq!(u32_le_at(&bytes, dd + 4), 0xAABBCCDD);
    // Path tags: the encoder's tag then the glyph's two tags.
    let pathtag_offset = dd + 8 + 2048 * 24 + 4;
    assert_eq!(bytes[pathtag_offset], 0x09);
    assert_eq!(bytes[pathtag_offset + 1], 0x0A);
    assert_eq!(bytes[pathtag_offset + 2], 0x0A);
    // Path segments: the encoder's payload then the glyph's payloads.
    let pathseg_offset = pathtag_offset + 2048;
    assert_eq!(&bytes[pathseg_offset..pathseg_offset + 7], &[1, 2, 3, 7, 7, 8, 8]);
}

#[test]
fn counts_track_every_operation() {
    let mut enc = Encoder::new();
    assert_eq!(enc.n_path(), 0);
    assert_eq!(enc.n_pathseg(), 0);
    assert_eq!(enc.n_clip(), 0);
    enc.finish_path(2);
    assert_eq!(enc.n_path(), 1);
    assert_eq!(enc.n_pathseg(), 2);
    enc.transform(Transform::identity());
    enc.linewidth(2.0f32.to_bits());
    enc.fill_color(5);
    // Control and draw operations touch no path or clip count.
    assert_eq!(enc.n_path(), 1);
    assert_eq!(enc.n_pathseg(), 2);
    assert_eq!(enc.n_clip(), 0);
    enc.begin_clip(None);
    assert_eq!(enc.n_clip(), 1);
    assert_eq!(enc.n_path(), 1);
    enc.end_clip(None);
    // End-clip counts a clip and the degenerate path it synthesizes.
    assert_eq!(enc.n_clip(), 2);
    assert_eq!(enc.n_path(), 2);
    enc.finish_path(5);
    assert_eq!(enc.n_path(), 3);
    assert_eq!(enc.n_pathseg(), 7);
}

#[test]
fn empty_glyph_has_no_color() {
    let glyph = GlyphEncoder::default();
    assert!(!glyph.is_color());
}

#[test]
fn scene_ref_matches_encoder_in_lock_step() {
    let enc = Encoder::new();
    let transforms = [Transform::identity()];
    let linewidths = [F32_NEG_ONE_BITS];
    let scene_ref = EncodedSceneRef {
        transform_stream: &transforms,
        tag_stream: &[],
        pathseg_stream: &[],
        linewidth_stream: &linewidths,
        drawtag_stream: &[],
        drawdata_stream: &[],
        n_path: 0,
        n_pathseg: 0,
        n_clip: 0,
        ramp_data: &[],
    };
    assert_eq!(enc.stage_config(), scene_ref.stage_config());
    assert_eq!(scene_ref.n_drawobj(), 0);
    assert_eq!(scene_ref.n_transform(), 1);
    assert_eq!(scene_ref.n_pathtag(), 0);
    assert_eq!(scene_ref.n_path(), 0);
    assert_eq!(scene_ref.n_pathseg(), 0);
    assert_eq!(scene_ref.n_clip(), 0);
    let bytes_enc = scene_bytes_of(&enc);
    let mut buf = BufWrite::new();
    scene_ref.write_scene(&mut buf);
    assert_eq!(buf.into_bytes(), bytes_enc);
}
