use piet_gpu::blend::Blend;
use piet_gpu::bytes::BufWrite;
use piet_gpu::transform::Transform;

#[test]
fn buf_write_appends_words_little_endian() {
    let mut buf = BufWrite::new();
    buf.push_u32(0x11223344);
    assert_eq!(buf.len(), 4);
    assert_eq!(buf.into_bytes(), vec![0x44, 0x33, 0x22, 0x11]);
}

#[test]
fn buf_write_appends_bytes_zeroes_and_word_streams() {
    let mut buf = BufWrite::new();
    buf.extend_bytes(&[1, 2, 3]);
    buf.fill_zero(2);
    buf.extend_u32s(&[0x0000_0005, 0xAABB_CCDD]);
    assert_eq!(
        buf.into_bytes(),
        vec![1, 2, 3, 0, 0, 5, 0, 0, 0, 0xDD, 0xCC, 0xBB, 0xAA]
    );
}

#[test]
fn blend_packs_mix_low_compose_high() {
    assert_eq!(Blend::new(1, 2).pack(), 1 | (2 << 8));
    assert_eq!(Blend::new(0xFF, 0xFF).pack(), 0xFFFF);
    assert_eq!(Blend::default().pack(), 3 << 8);
}

#[test]
fn identity_transform_coefficients() {
    let t = Transform::identity();
    assert_eq!(t.mat00, 1.0f32.to_bits());
    assert_eq!(t.mat01, 0);
    assert_eq!(t.mat10, 0);
    assert_eq!(t.mat11, 1.0f32.to_bits());
    assert_eq!(t.translate_x, 0);
    assert_eq!(t.translate_y, 0);
}
