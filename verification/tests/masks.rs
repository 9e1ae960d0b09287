use zoomer::compose::{apply_mask, MaskSpec};
use zoomer::frame::{Frame, Rgba};
use zoomer::shot::{generate_border, round_image};

const CLEAR: Rgba = Rgba { r: 0, g: 0, b: 0, a: 0 };
const RED: Rgba = Rgba { r: 255, g: 0, b: 0, a: 255 };

fn pattern(width: u32, height: u32) -> Frame {
    let mut data: Vec<u8> = Vec::new();
    for y in 0..height {
        for x in 0..width {
            data.extend_from_slice(&[(x + 1) as u8, (y + 1) as u8, 77, 200]);
        }
    }
    Frame::from_raw(width, height, data).unwrap()
}

fn distance(width: u32, height: u32, x: u32, y: u32) -> f64 {
    let dx = x as f64 - width as f64 / 2.0;
    let dy = y as f64 - height as f64 / 2.0;
    (dx * dx + dy * dy).sqrt()
}

#[test]
fn border_paints_the_four_bands_of_a_fifty_by_thirty_frame() {
    let src = pattern(50, 30);
    let mut f = src.clone();
    generate_border(&mut f, 3, RED);
    assert_eq!(f.dimensions(), (50, 30));
    for y in 0..30u32 {
        for x in 0..50u32 {
            let band = y <= 2 || y >= 27 || x <= 2 || x >= 47;
            if band {
                assert_eq!(f.get_pixel(x, y), RED);
            } else {
                assert_eq!(f.get_pixel(x, y), src.get_pixel(x, y));
            }
        }
    }
    assert_eq!(f.get_pixel(25, 15), src.get_pixel(25, 15));
}

#[test]
fn border_overwrites_and_does_not_blend() {
    let src = pattern(8, 8);
    let mut f = src.clone();
    let faint = Rgba { r: 1, g: 2, b: 3, a: 4 };
    generate_border(&mut f, 1, faint);
    assert_eq!(f.get_pixel(0, 0), faint);
    assert_eq!(f.get_pixel(7, 3), faint);
    assert_eq!(f.get_pixel(1, 1), src.get_pixel(1, 1));
}

#[test]
fn border_of_no_thickness_changes_nothing() {
    let src = pattern(8, 6);
    let mut f = src.clone();
    generate_border(&mut f, 0, RED);
    assert_eq!(f.into_raw(), src.into_raw());
}

#[test]
fn border_thicker_than_the_frame_covers_it() {
    for t in [3u32, 4, 100, u32::MAX] {
        let mut f = pattern(8, 6);
        generate_border(&mut f, t, RED);
        for y in 0..6u32 {
            for x in 0..8u32 {
                assert_eq!(f.get_pixel(x, y), RED);
            }
        }
    }
}

#[test]
fn border_on_an_empty_frame_does_nothing() {
    let mut f = Frame::new(0, 0).unwrap();
    generate_border(&mut f, 3, RED);
    assert_eq!(f.dimensions(), (0, 0));
}

#[test]
fn circle_without_a_colour_clips_a_hundred_by_hundred_frame() {
    let src = pattern(100, 100);
    let out = round_image(&src, 5, None);
    assert_eq!(out.dimensions(), (100, 100));
    for y in 0..100u32 {
        for x in 0..100u32 {
            let d = distance(100, 100, x, y);
            if d >= 55.0 {
                assert_eq!(out.get_pixel(x, y), CLEAR);
            }
            if d < 45.0 {
                assert_eq!(out.get_pixel(x, y), src.get_pixel(x, y));
            } else {
                assert_eq!(out.get_pixel(x, y), CLEAR);
            }
        }
    }
}

#[test]
fn circle_with_a_colour_draws_the_ring_across_the_radius() {
    let src = pattern(100, 100);
    let out = round_image(&src, 5, Some(RED));
    assert_eq!(out.dimensions(), (100, 100));
    for y in 0..100u32 {
        for x in 0..100u32 {
            let d = distance(100, 100, x, y);
            if d >= 55.0 {
                assert_eq!(out.get_pixel(x, y), CLEAR);
            }
            if d >= 45.0 && d < 50.0 {
                assert_eq!(out.get_pixel(x, y), RED);
            }
            // the radius is 45 and the ring reaches 5 to either side of it
            if d < 40.0 {
                assert_eq!(out.get_pixel(x, y), src.get_pixel(x, y));
            } else if d < 50.0 {
                assert_eq!(out.get_pixel(x, y), RED);
            } else {
                assert_eq!(out.get_pixel(x, y), CLEAR);
            }
        }
    }
}

#[test]
fn circle_membership_is_exact_at_the_boundaries() {
    let src = pattern(100, 100);
    let out = round_image(&src, 5, Some(RED));
    // along the row through the centre the distance is |x - 50|
    assert_eq!(out.get_pixel(50, 50), src.get_pixel(50, 50));
    assert_eq!(out.get_pixel(89, 50), src.get_pixel(89, 50));
    assert_eq!(out.get_pixel(90, 50), RED);
    assert_eq!(out.get_pixel(99, 50), RED);
    assert_eq!(out.get_pixel(11, 50), src.get_pixel(11, 50));
    assert_eq!(out.get_pixel(10, 50), RED);
    assert_eq!(out.get_pixel(1, 50), RED);
    assert_eq!(out.get_pixel(0, 50), CLEAR);
    // a 3-4-5 triangle, ten times: distance 50 exactly
    assert_eq!(out.get_pixel(80, 90), CLEAR);
    assert_eq!(out.get_pixel(80, 89), RED);
    // distance 40 exactly
    assert_eq!(out.get_pixel(74, 82), RED);
    assert_eq!(out.get_pixel(74, 81), src.get_pixel(74, 81));
}

#[test]
fn circle_takes_the_centre_at_half_the_size() {
    // 5 by 5: the centre is at 2.5, the radius 2.5 - 1 = 1.5
    let src = pattern(5, 5);
    let out = round_image(&src, 1, None);
    for y in 0..5u32 {
        for x in 0..5u32 {
            let inside = distance(5, 5, x, y) < 1.5;
            assert_eq!(out.get_pixel(x, y), if inside { src.get_pixel(x, y) } else { CLEAR });
        }
    }
    assert_eq!(out.get_pixel(2, 2), src.get_pixel(2, 2));
    assert_eq!(out.get_pixel(3, 3), src.get_pixel(3, 3));
    assert_eq!(out.get_pixel(1, 1), CLEAR);
    assert_eq!(out.get_pixel(1, 2), CLEAR);
}

#[test]
fn circle_uses_the_larger_side_for_its_radius() {
    let src = pattern(40, 20);
    let out = round_image(&src, 2, Some(RED));
    assert_eq!(out.dimensions(), (40, 20));
    for y in 0..20u32 {
        for x in 0..40u32 {
            let d = distance(40, 20, x, y);
            let expected = if d >= 16.0 && d < 20.0 {
                RED
            } else if d < 18.0 {
                src.get_pixel(x, y)
            } else {
                CLEAR
            };
            assert_eq!(out.get_pixel(x, y), expected);
        }
    }
}

#[test]
fn circle_with_a_thickness_beyond_the_radius_is_transparent() {
    let src = pattern(10, 10);
    let out = round_image(&src, 5, None);
    assert_eq!(out.into_raw(), vec![0u8; 400]);
    let huge = round_image(&src, u32::MAX, None);
    assert_eq!(huge.into_raw(), vec![0u8; 400]);
}

#[test]
fn ring_of_a_thickness_beyond_the_radius_fills_the_disk() {
    // the radius is 5 - t, so the ring reaches from below zero up to 5
    let src = pattern(10, 10);
    for t in [5u32, 6, 1000, u32::MAX] {
        let out = round_image(&src, t, Some(RED));
        for y in 0..10u32 {
            for x in 0..10u32 {
                let ring = distance(10, 10, x, y) < 5.0;
                assert_eq!(out.get_pixel(x, y), if ring { RED } else { CLEAR });
            }
        }
    }
}

#[test]
fn circle_of_no_thickness_has_no_ring() {
    let src = pattern(10, 10);
    let out = round_image(&src, 0, Some(RED));
    for y in 0..10u32 {
        for x in 0..10u32 {
            let inside = distance(10, 10, x, y) < 5.0;
            assert_eq!(out.get_pixel(x, y), if inside { src.get_pixel(x, y) } else { CLEAR });
        }
    }
}

#[test]
fn circle_leaves_its_source_alone() {
    let src = pattern(10, 10);
    let before = src.clone().into_raw();
    let _ = round_image(&src, 2, Some(RED));
    assert_eq!(src.into_raw(), before);
}

#[test]
fn apply_mask_without_a_mask_hands_the_frame_on() {
    let src = pattern(6, 6);
    let out = apply_mask(src.clone(), MaskSpec::NoMask);
    assert_eq!(out.into_raw(), src.into_raw());
}

#[test]
fn apply_mask_border_without_a_colour_hands_the_frame_on() {
    let src = pattern(6, 6);
    let out = apply_mask(src.clone(), MaskSpec::Border { thickness: 2, color: None });
    assert_eq!(out.into_raw(), src.into_raw());
}

#[test]
fn apply_mask_border_paints_the_bands() {
    let src = pattern(6, 6);
    let out = apply_mask(src.clone(), MaskSpec::Border { thickness: 2, color: Some(RED) });
    let mut expected = src.clone();
    generate_border(&mut expected, 2, RED);
    assert_eq!(out.clone().into_raw(), expected.into_raw());
    assert_eq!(out.get_pixel(1, 3), RED);
    assert_eq!(out.get_pixel(2, 3), src.get_pixel(2, 3));
}

#[test]
fn apply_mask_circle_clips() {
    let src = pattern(20, 20);
    let out = apply_mask(src.clone(), MaskSpec::Circle { thickness: 2, color: Some(RED) });
    let expected = round_image(&src, 2, Some(RED));
    assert_eq!(out.clone().into_raw(), expected.into_raw());
    assert_eq!(out.get_pixel(0, 0), CLEAR);
    assert_eq!(out.get_pixel(10, 10), src.get_pixel(10, 10));
    assert_eq!(out.get_pixel(10, 3), RED);
}
