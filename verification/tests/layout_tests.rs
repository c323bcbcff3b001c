use piet_gpu::bytes::BufWrite;
use piet_gpu::encoder::Encoder;
use piet_gpu::layout::LayoutError;

#[test]
fn fresh_encoder_config_offsets() {
    let enc = Encoder::new();
    let (config, scratch_total) = enc.stage_config().unwrap();
    // Scene buffer: empty draw regions, one transform padded to a whole
    // 2048-entry block of 24-byte records, one 4-byte line width, empty
    // path regions.
    assert_eq!(config.drawtag_offset, 0);
    assert_eq!(config.drawdata_offset, 0);
    assert_eq!(config.trans_offset, 0);
    assert_eq!(config.linewidth_offset, 2048 * 24);
    assert_eq!(config.pathtag_offset, 2048 * 24 + 4);
    assert_eq!(config.pathseg_offset, 2048 * 24 + 4);
    // Scratch buffer: only the padded transform working copy has any size.
    assert_eq!(config.trans_alloc, 0);
    assert_eq!(config.pathseg_alloc, 2048 * 24);
    assert_eq!(config.path_bbox_alloc, 2048 * 24);
    assert_eq!(config.drawmonoid_alloc, 2048 * 24);
    assert_eq!(config.anno_alloc, 2048 * 24);
    assert_eq!(config.clip_alloc, 2048 * 24);
    assert_eq!(config.clip_bic_alloc, 2048 * 24);
    assert_eq!(config.clip_stack_alloc, 2048 * 24);
    assert_eq!(config.clip_bbox_alloc, 2048 * 24);
    assert_eq!(config.draw_bbox_alloc, 2048 * 24);
    assert_eq!(config.drawinfo_alloc, 2048 * 24);
    assert_eq!(scratch_total, 2048 * 24);
    // Echoed counts.
    assert_eq!(config.n_elements, 0);
    assert_eq!(config.n_pathseg, 0);
    assert_eq!(config.n_trans, 1);
    assert_eq!(config.n_path, 0);
    assert_eq!(config.n_clip, 0);
}

#[test]
fn config_offsets_for_a_small_scene() {
    let mut enc = Encoder::new();
    let mut pe = enc.path_encoder();
    pe.push_segment(0x09, &[0; 12]);
    let n = pe.n_pathseg();
    enc.append_path(&pe);
    enc.finish_path(n);
    enc.fill_color(0xFFFFFFFF);
    enc.begin_clip(None);
    enc.end_clip(None);
    let (config, scratch_total) = enc.stage_config().unwrap();
    // Scene buffer: 3 draw tags pad to 2048, 12 bytes draw data, 1
    // transform pads to 2048 records, 1 line width, 2 path tags pad to
    // 2048, 12 segment bytes.
    assert_eq!(config.drawtag_offset, 0);
    assert_eq!(config.drawdata_offset, 2048 * 4);
    assert_eq!(config.trans_offset, 2048 * 4 + 12);
    assert_eq!(config.linewidth_offset, 2048 * 4 + 12 + 2048 * 24);
    assert_eq!(config.pathtag_offset, 2048 * 4 + 12 + 2048 * 24 + 4);
    assert_eq!(config.pathseg_offset, 2048 * 4 + 12 + 2048 * 24 + 4 + 2048);
    // Scratch buffer, region by region: padded transforms, 1 path segment,
    // 2 paths (one synthesized by end-clip), padded draw monoids, 3
    // annotated records, 2 clips, floor(2/256) bicyclic entries, 2 stack
    // entries, clips padded to 256 bounding boxes, 3 draw bounding boxes,
    // 3 worst-case draw-info records.
    let trans = 2048 * 24;
    assert_eq!(config.trans_alloc, 0);
    assert_eq!(config.pathseg_alloc, trans);
    assert_eq!(config.path_bbox_alloc, trans + 52);
    assert_eq!(config.drawmonoid_alloc, trans + 52 + 2 * 24);
    assert_eq!(config.anno_alloc, trans + 52 + 48 + 2048 * 16);
    assert_eq!(config.clip_alloc, trans + 52 + 48 + 2048 * 16 + 3 * 40);
    let clip = trans + 52 + 48 + 2048 * 16 + 120;
    assert_eq!(config.clip_bic_alloc, (clip + 2 * 4) as u32);
    assert_eq!(config.clip_stack_alloc, (clip + 8) as u32);
    assert_eq!(config.clip_bbox_alloc, (clip + 8 + 2 * 20) as u32);
    assert_eq!(config.draw_bbox_alloc, (clip + 48 + 256 * 16) as u32);
    assert_eq!(config.drawinfo_alloc, (clip + 48 + 4096 + 3 * 16) as u32);
    assert_eq!(scratch_total, (clip + 48 + 4096 + 48 + 3 * 44) as usize);
    assert_eq!(config.n_elements, 3);
    assert_eq!(config.n_pathseg, 1);
    assert_eq!(config.n_trans, 1);
    assert_eq!(config.n_path, 2);
    assert_eq!(config.n_clip, 2);
}

#[test]
fn planner_is_idempotent_on_unchanged_state() {
    let mut enc = Encoder::new();
    enc.fill_color(0x12345678);
    enc.begin_clip(None);
    let first = enc.stage_config();
    let second = enc.stage_config();
    assert_eq!(first, second);
}

#[test]
fn planned_size_matches_serialized_byte_count() {
    let mut enc = Encoder::new();
    let mut pe = enc.path_encoder();
    pe.push_segment(0x09, &[1; 20]);
    pe.push_segment(0x09, &[2; 20]);
    let n = pe.n_pathseg();
    enc.append_path(&pe);
    enc.finish_path(n);
    enc.fill_color(0xFF00FF00);
    enc.begin_clip(None);
    enc.end_clip(None);
    let (config, _) = enc.stage_config().unwrap();
    let mut buf = BufWrite::new();
    enc.write_scene(&mut buf);
    // The last region's offset plus its raw length is the written count.
    let pathseg_len = 40;
    assert_eq!(buf.len(), config.pathseg_offset as usize + pathseg_len);
}

#[test]
fn region_offsets_never_decrease_and_never_overlap() {
    let mut enc = Encoder::new();
    let mut pe = enc.path_encoder();
    pe.push_segment(0x09, &[3; 16]);
    let n = pe.n_pathseg();
    enc.append_path(&pe);
    enc.finish_path(n);
    enc.fill_color(1);
    enc.begin_clip(None);
    enc.end_clip(None);
    let (c, scratch_total) = enc.stage_config().unwrap();
    assert!(c.drawtag_offset <= c.drawdata_offset);
    assert!(c.drawdata_offset <= c.trans_offset);
    assert!(c.trans_offset <= c.linewidth_offset);
    assert!(c.linewidth_offset <= c.pathtag_offset);
    assert!(c.pathtag_offset <= c.pathseg_offset);
    assert!(c.trans_alloc <= c.pathseg_alloc);
    assert!(c.pathseg_alloc <= c.path_bbox_alloc);
    assert!(c.path_bbox_alloc <= c.drawmonoid_alloc);
    assert!(c.drawmonoid_alloc <= c.anno_alloc);
    assert!(c.anno_alloc <= c.clip_alloc);
    assert!(c.clip_alloc <= c.clip_bic_alloc);
    assert!(c.clip_bic_alloc <= c.clip_stack_alloc);
    assert!(c.clip_stack_alloc <= c.clip_bbox_alloc);
    assert!(c.clip_bbox_alloc <= c.draw_bbox_alloc);
    assert!(c.draw_bbox_alloc <= c.drawinfo_alloc);
    assert!((c.drawinfo_alloc as usize) <= scratch_total);
}

#[test]
fn oversized_scene_is_reported_too_large() {
    let mut enc = Encoder::new();
    // One path claiming the largest possible segment count: the 52-byte
    // per-segment scratch records alone overflow the 32-bit offsets.
    enc.finish_path(u32::MAX - 1);
    let r = enc.stage_config();
    assert_eq!(r, Err(LayoutError::SceneTooLarge));
}
