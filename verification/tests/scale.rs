use pip_viewer::scale::{drawing_is_possible, scale_frame};

fn bgra(pixels: &[(u8, u8, u8)]) -> Vec<u8> {
    let mut frame = Vec::new();
    for (r, g, b) in pixels {
        frame.extend([*b, *g, *r, 255]);
    }
    frame
}

#[test]
fn same_size_copies_every_pixel() {
    let frame = bgra(&[(3, 2, 1), (6, 5, 4), (9, 8, 7), (12, 11, 10)]);
    let mut buffer = [0u32; 4];
    assert!(scale_frame(&frame, 2, 2, 2, 2, &mut buffer));
    assert_eq!(buffer, [0x030201, 0x060504, 0x090807, 0x0c0b0a]);
}

#[test]
fn channels_are_swapped_into_rgb() {
    let mut buffer = [u32::MAX];
    assert!(scale_frame(&[0x11, 0x22, 0x33, 0x44], 1, 1, 1, 1, &mut buffer));
    assert_eq!(buffer, [0x0033_2211]);
}

#[test]
fn enlarging_repeats_the_nearest_pixel() {
    let frame = bgra(&[(1, 1, 1), (2, 2, 2)]);
    let mut buffer = [0u32; 8];
    assert!(scale_frame(&frame, 2, 1, 4, 2, &mut buffer));
    let (a, b) = (0x010101, 0x020202);
    assert_eq!(buffer, [a, a, b, b, a, a, b, b]);
}

#[test]
fn shrinking_skips_pixels() {
    let frame = bgra(&[(0, 0, 0), (1, 0, 0), (2, 0, 0), (3, 0, 0), (4, 0, 0)]);
    let mut buffer = [0u32; 2];
    assert!(scale_frame(&frame, 5, 1, 2, 1, &mut buffer));
    assert_eq!(buffer, [0, 0x020000]);
}

#[test]
fn incomplete_frame_leaves_the_rest_alone() {
    let mut frame = bgra(&[(1, 1, 1), (2, 2, 2)]);
    frame.pop();
    let mut buffer = [7u32; 2];
    assert!(scale_frame(&frame, 2, 1, 2, 1, &mut buffer));
    assert_eq!(buffer, [0x010101, 7]);
}

#[test]
fn pixels_beyond_the_surface_are_left_alone() {
    let frame = bgra(&[(1, 1, 1)]);
    let mut buffer = [9u32; 3];
    assert!(scale_frame(&frame, 1, 1, 2, 1, &mut buffer));
    assert_eq!(buffer, [0x010101, 0x010101, 9]);
}

#[test]
fn buffer_that_is_too_small_is_refused() {
    let frame = bgra(&[(1, 1, 1)]);
    let mut buffer = [9u32; 3];
    assert!(!scale_frame(&frame, 1, 1, 2, 2, &mut buffer));
    assert_eq!(buffer, [9, 9, 9]);
}

#[test]
fn empty_source_draws_nothing() {
    let mut buffer = [5u32; 4];
    assert!(scale_frame(&[], 0, 0, 2, 2, &mut buffer));
    assert_eq!(buffer, [5, 5, 5, 5]);
}

#[test]
fn complete_frame_covers_the_whole_surface() {
    let frame = vec![0u8; 7 * 3 * 4];
    let mut buffer = vec![u32::MAX; 13 * 11];
    assert!(scale_frame(&frame, 7, 3, 13, 11, &mut buffer));
    assert!(buffer.iter().all(|pixel| *pixel == 0));
}

#[test]
fn alpha_is_not_drawn() {
    let mut one = [u32::MAX; 4];
    let mut two = [u32::MAX; 4];
    assert!(scale_frame(&[1, 2, 3, 0, 4, 5, 6, 255], 2, 1, 4, 1, &mut one));
    assert!(scale_frame(&[1, 2, 3, 77, 4, 5, 6, 8], 2, 1, 4, 1, &mut two));
    assert_eq!(one, two);
    assert!(one.iter().all(|pixel| pixel >> 24 == 0));
}

#[test]
fn ordinary_sizes_can_be_scaled() {
    assert!(drawing_is_possible(1920, 1080, 480, 270, 480 * 270));
    assert!(drawing_is_possible(0, 0, 480, 270, 480 * 270));
    assert!(drawing_is_possible(u32::MAX, u32::MAX, 0, 0, 0));
    assert!(!drawing_is_possible(u32::MAX, u32::MAX, u32::MAX, u32::MAX, usize::MAX));
    assert!(!drawing_is_possible(u32::MAX, u32::MAX, 1000, 1000, 1_000_000));
}

#[test]
fn small_buffer_is_refused_for_any_source() {
    assert!(drawing_is_possible(u32::MAX, u32::MAX, 1000, 1000, 3));
    let mut buffer = [9u32; 3];
    assert!(!scale_frame(&[1, 2, 3, 4], u32::MAX, u32::MAX, 1000, 1000, &mut buffer));
    assert_eq!(buffer, [9, 9, 9]);
}
