use zoomer::frame::Frame;
use zoomer::shot::{capture, locate, rotate, CaptureError, Locator, Output, Rotation};

fn output(name: &str, x: i32, y: i32, width: u32, height: u32, transform: Rotation) -> Output {
    Output { name: name.to_string(), x, y, width, height, transform }
}

fn two_screens() -> Vec<Output> {
    vec![
        output("DP-1", 0, 0, 1920, 1080, Rotation::Normal),
        output("HDMI-1", 1920, 0, 1280, 1024, Rotation::Deg90),
    ]
}

fn numbered(width: u32, height: u32) -> Frame {
    let mut data: Vec<u8> = Vec::new();
    for y in 0..height {
        for x in 0..width {
            data.extend_from_slice(&[x as u8, y as u8, 9, 255]);
        }
    }
    Frame::from_raw(width, height, data).unwrap()
}

#[test]
fn a_point_picks_the_output_that_holds_it() {
    let outputs = two_screens();
    assert_eq!(locate(&outputs, &Locator::Point(0, 0)), Ok(0));
    assert_eq!(locate(&outputs, &Locator::Point(1919, 1079)), Ok(0));
    assert_eq!(locate(&outputs, &Locator::Point(1920, 0)), Ok(1));
    assert_eq!(locate(&outputs, &Locator::Point(3199, 1023)), Ok(1));
}

#[test]
fn a_point_outside_every_output_is_not_located() {
    let outputs = two_screens();
    for p in [(-1, 0), (0, -1), (3200, 0), (1920, 1024), (0, 1080), (i32::MAX, i32::MAX), (i32::MIN, 5)] {
        assert_eq!(locate(&outputs, &Locator::Point(p.0, p.1)), Err(CaptureError::NoOutputAtPoint));
    }
    assert_eq!(locate(&Vec::new(), &Locator::Point(0, 0)), Err(CaptureError::NoOutputAtPoint));
}

#[test]
fn an_output_at_the_edge_of_the_coordinates_is_found() {
    let outputs = vec![output("far", i32::MAX - 10, i32::MIN, u32::MAX, u32::MAX, Rotation::Normal)];
    assert_eq!(locate(&outputs, &Locator::Point(i32::MAX, i32::MAX - 1)), Ok(0));
    assert_eq!(locate(&outputs, &Locator::Point(i32::MAX, i32::MIN)), Ok(0));
    // the rectangle ends just before i32::MIN + u32::MAX, which is i32::MAX
    assert_eq!(
        locate(&outputs, &Locator::Point(i32::MAX, i32::MAX)),
        Err(CaptureError::NoOutputAtPoint)
    );
    assert_eq!(
        locate(&outputs, &Locator::Point(i32::MAX - 11, 0)),
        Err(CaptureError::NoOutputAtPoint)
    );
}

#[test]
fn a_name_picks_the_output_that_has_it() {
    let outputs = two_screens();
    assert_eq!(locate(&outputs, &Locator::Name("HDMI-1".to_string())), Ok(1));
    assert_eq!(locate(&outputs, &Locator::Name("DP-1".to_string())), Ok(0));
}

#[test]
fn a_name_that_no_output_has_is_not_found() {
    let outputs = two_screens();
    for n in ["DP-2", "dp-1", "DP-1 ", "", "HDMI"] {
        assert_eq!(locate(&outputs, &Locator::Name(n.to_string())), Err(CaptureError::OutputNotFound));
    }
}

#[test]
fn the_first_of_several_matches_is_picked() {
    let outputs = vec![
        output("a", 0, 0, 10, 10, Rotation::Normal),
        output("b", 5, 5, 10, 10, Rotation::Normal),
        output("a", 100, 100, 10, 10, Rotation::Normal),
    ];
    assert_eq!(locate(&outputs, &Locator::Point(7, 7)), Ok(0));
    assert_eq!(locate(&outputs, &Locator::Point(12, 12)), Ok(1));
    assert_eq!(locate(&outputs, &Locator::Name("a".to_string())), Ok(0));
}

#[test]
fn capture_of_a_point_outside_every_output_yields_no_frame() {
    let outputs = two_screens();
    let r = capture(&outputs, &Locator::Point(5000, 5000), None);
    assert_eq!(r.err(), Some(CaptureError::NoOutputAtPoint));
    // and none either where a screenshot was handed in
    let r = capture(&outputs, &Locator::Point(5000, 5000), Some(numbered(3, 2)));
    assert_eq!(r.err(), Some(CaptureError::NoOutputAtPoint));
}

#[test]
fn capture_of_an_unknown_name_yields_no_frame() {
    let outputs = two_screens();
    let r = capture(&outputs, &Locator::Name("eDP-1".to_string()), Some(numbered(3, 2)));
    assert_eq!(r.err(), Some(CaptureError::OutputNotFound));
}

#[test]
fn capture_reports_a_failed_backend() {
    let outputs = two_screens();
    let r = capture(&outputs, &Locator::Point(10, 10), None);
    assert_eq!(r.err(), Some(CaptureError::BackendFailure));
    let r = capture(&outputs, &Locator::Name("HDMI-1".to_string()), None);
    assert_eq!(r.err(), Some(CaptureError::BackendFailure));
}

#[test]
fn capture_hands_an_upright_output_on_as_it_is() {
    let outputs = two_screens();
    let shot = numbered(3, 2);
    let out = capture(&outputs, &Locator::Point(10, 10), Some(shot.clone())).unwrap();
    assert_eq!(out.dimensions(), (3, 2));
    assert_eq!(out.into_raw(), shot.into_raw());
}

#[test]
fn capture_turns_a_rotated_output_upright() {
    let outputs = two_screens();
    let shot = numbered(3, 2);
    let out = capture(&outputs, &Locator::Name("HDMI-1".to_string()), Some(shot.clone())).unwrap();
    assert_eq!(out.dimensions(), (2, 3));
    assert_eq!(out.into_raw(), rotate(&shot, Rotation::Deg90).into_raw());
}

#[test]
fn rotate_by_a_quarter_turns_clockwise() {
    let src = numbered(3, 2);
    let out = rotate(&src, Rotation::Deg90);
    assert_eq!(out.dimensions(), (2, 3));
    // the top-left pixel goes to the top-right corner
    assert_eq!(out.get_pixel(1, 0), src.get_pixel(0, 0));
    assert_eq!(out.get_pixel(1, 2), src.get_pixel(2, 0));
    assert_eq!(out.get_pixel(0, 0), src.get_pixel(0, 1));
    assert_eq!(out.get_pixel(0, 2), src.get_pixel(2, 1));
}

#[test]
fn rotate_agrees_with_the_image_crate() {
    let src = numbered(5, 3);
    let img = image::RgbaImage::from_raw(5, 3, src.clone().into_raw()).unwrap();
    let r90 = rotate(&src, Rotation::Deg90);
    assert_eq!(r90.dimensions(), (3, 5));
    assert_eq!(r90.into_raw(), image::imageops::rotate90(&img).into_raw());
    let r180 = rotate(&src, Rotation::Deg180);
    assert_eq!(r180.dimensions(), (5, 3));
    assert_eq!(r180.into_raw(), image::imageops::rotate180(&img).into_raw());
    let r270 = rotate(&src, Rotation::Deg270);
    assert_eq!(r270.dimensions(), (3, 5));
    assert_eq!(r270.into_raw(), image::imageops::rotate270(&img).into_raw());
    let same = rotate(&src, Rotation::Normal);
    assert_eq!(same.into_raw(), src.into_raw());
}

#[test]
fn four_quarter_turns_give_the_frame_back() {
    let src = numbered(4, 7);
    let mut f = src.clone();
    for _ in 0..4 {
        f = rotate(&f, Rotation::Deg90);
    }
    assert_eq!(f.into_raw(), src.clone().into_raw());
    let back = rotate(&rotate(&src, Rotation::Deg90), Rotation::Deg270);
    assert_eq!(back.into_raw(), src.into_raw());
}

#[test]
fn rotate_of_an_empty_frame() {
    let f = Frame::new(0, 4).unwrap();
    assert_eq!(rotate(&f, Rotation::Deg90).dimensions(), (4, 0));
    assert_eq!(rotate(&f, Rotation::Deg180).dimensions(), (0, 4));
}
