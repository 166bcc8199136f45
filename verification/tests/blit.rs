use frame_pipeline::blit::{copy_range, copy_region};
use frame_pipeline::geometry::Region;

fn numbered(len: usize, seed: u8) -> Vec<u8> {
    (0..len).map(|i| (i as u8).wrapping_mul(3).wrapping_add(seed)).collect()
}

#[test]
fn copy_range_replaces_the_range_and_nothing_else() {
    let src = numbered(16, 100);
    let mut dst = vec![0u8; 16];
    copy_range(&mut dst, &src, 4, 6);
    for k in 0..16 {
        if (4..10).contains(&k) {
            assert_eq!(dst[k], src[k]);
        } else {
            assert_eq!(dst[k], 0);
        }
    }
}

#[test]
fn copy_range_of_nothing_changes_nothing() {
    let src = numbered(8, 1);
    let mut dst = vec![7u8; 8];
    copy_range(&mut dst, &src, 8, 0);
    assert_eq!(dst, vec![7u8; 8]);
    copy_range(&mut dst, &src, 0, 0);
    assert_eq!(dst, vec![7u8; 8]);
}

#[test]
fn copy_range_of_everything_copies_everything() {
    let src = numbered(8, 1);
    let mut dst = vec![7u8; 8];
    copy_range(&mut dst, &src, 0, 8);
    assert_eq!(dst, src);
}

#[test]
fn full_region_copies_the_whole_frame() {
    let src = numbered(4 * 3 * 4, 11);
    let mut dst = vec![0u8; 4 * 3 * 4];
    copy_region(&mut dst, &src, Region { x: 0, y: 0, width: 4, height: 3 }, 4, 3);
    assert_eq!(dst, src);
}

#[test]
fn full_region_leaves_what_lies_behind_the_frame() {
    let src = numbered(2 * 2 * 4, 11);
    let mut dst = vec![0xeeu8; 2 * 2 * 4 + 5];
    copy_region(&mut dst, &src, Region { x: 0, y: 0, width: 2, height: 2 }, 2, 2);
    assert_eq!(&dst[..16], &src[..]);
    assert_eq!(&dst[16..], &[0xee; 5]);
}

#[test]
fn partial_update_changes_the_rectangle_and_nothing_else() {
    let (full_width, full_height) = (8usize, 6usize);
    let src = numbered(full_width * full_height * 4, 50);
    let before = numbered(full_width * full_height * 4, 200);
    let mut dst = before.clone();
    let region = Region { x: 2, y: 1, width: 3, height: 4 };
    copy_region(&mut dst, &src, region, full_width as i32, full_height as i32);
    for row in 0..full_height {
        for col in 0..full_width {
            for channel in 0..4 {
                let k = (row * full_width + col) * 4 + channel;
                let inside = (2..5).contains(&col) && (1..5).contains(&row);
                if inside {
                    assert_eq!(dst[k], src[k]);
                } else {
                    assert_eq!(dst[k], before[k]);
                }
            }
        }
    }
}

#[test]
fn partial_update_of_one_pixel_writes_four_bytes_at_its_place() {
    let src = vec![0xffu8; 5 * 5 * 4];
    let mut dst = vec![0u8; 5 * 5 * 4];
    copy_region(&mut dst, &src, Region { x: 3, y: 2, width: 1, height: 1 }, 5, 5);
    let first = (2 * 5 + 3) * 4;
    assert_eq!(first, 52);
    let changed: Vec<usize> = (0..dst.len()).filter(|k| dst[*k] != 0).collect();
    assert_eq!(changed, vec![52, 53, 54, 55]);
}

#[test]
fn full_width_rows_are_copied_row_by_row() {
    let src = numbered(4 * 4 * 4, 9);
    let mut dst = vec![0u8; 4 * 4 * 4];
    copy_region(&mut dst, &src, Region { x: 0, y: 1, width: 4, height: 2 }, 4, 4);
    assert_eq!(&dst[..16], &[0u8; 16]);
    assert_eq!(&dst[16..48], &src[16..48]);
    assert_eq!(&dst[48..], &[0u8; 16]);
}

#[test]
fn empty_region_changes_nothing() {
    let src = numbered(3 * 3 * 4, 9);
    let mut dst = vec![1u8; 3 * 3 * 4];
    copy_region(&mut dst, &src, Region { x: 1, y: 1, width: 0, height: 2 }, 3, 3);
    assert_eq!(dst, vec![1u8; 36]);
    copy_region(&mut dst, &src, Region { x: 1, y: 1, width: 2, height: 0 }, 3, 3);
    assert_eq!(dst, vec![1u8; 36]);
}

#[test]
fn region_in_the_last_corner_reaches_the_last_byte() {
    let src = numbered(3 * 3 * 4, 9);
    let mut dst = vec![0u8; 3 * 3 * 4];
    copy_region(&mut dst, &src, Region { x: 2, y: 2, width: 1, height: 1 }, 3, 3);
    assert_eq!(&dst[..32], &[0u8; 32]);
    assert_eq!(&dst[32..], &src[32..]);
}

#[test]
fn frame_without_pixels_copies_nothing() {
    let src: Vec<u8> = Vec::new();
    let mut dst: Vec<u8> = vec![3, 3];
    copy_region(&mut dst, &src, Region { x: 0, y: 0, width: 0, height: 0 }, 0, 0);
    assert_eq!(dst, vec![3, 3]);
}
