use piet_gpu::align::align_up;
use piet_gpu::align::padding;
use piet_gpu::params::CLIP_PART_SIZE;
use piet_gpu::params::DRAW_PART_SIZE;
use piet_gpu::params::PATHSEG_PART_SIZE;
use piet_gpu::params::TRANSFORM_PART_SIZE;

fn smallest_multiple_at_least(l: usize, b: usize) -> usize {
    let mut m = 0;
    while m < l {
        m += b;
    }
    m
}

#[test]
fn align_up_is_smallest_multiple_for_every_block_size() {
    for &b in &[CLIP_PART_SIZE, DRAW_PART_SIZE, TRANSFORM_PART_SIZE, PATHSEG_PART_SIZE] {
        for &l in &[0, 1, b - 1, b, b + 1, 2 * b] {
            let r = align_up(l, b);
            assert_eq!(r, smallest_multiple_at_least(l, b));
            assert_eq!(r % b, 0);
            assert!(r >= l);
            assert!(r < l + b);
        }
    }
}

#[test]
fn padding_is_distance_to_next_block() {
    for &b in &[CLIP_PART_SIZE, DRAW_PART_SIZE, TRANSFORM_PART_SIZE, PATHSEG_PART_SIZE] {
        for &l in &[0, 1, b - 1, b, b + 1, 2 * b] {
            assert_eq!(padding(l, b), align_up(l, b) - l);
        }
    }
}

#[test]
fn align_up_exact_values() {
    assert_eq!(align_up(0, 256), 0);
    assert_eq!(align_up(1, 256), 256);
    assert_eq!(align_up(255, 256), 256);
    assert_eq!(align_up(256, 256), 256);
    assert_eq!(align_up(257, 256), 512);
    assert_eq!(align_up(512, 256), 512);
    assert_eq!(padding(0, 2048), 0);
    assert_eq!(padding(1, 2048), 2047);
    assert_eq!(padding(2048, 2048), 0);
    assert_eq!(padding(2049, 2048), 2047);
}
