use zoomer::app::{Command, MainMessage, ViewState};

fn run(start: ViewState, msgs: &[MainMessage]) -> ViewState {
    let mut s = start;
    for m in msgs {
        s = s.step(*m).0;
    }
    s
}

#[test]
fn initial_state_has_no_zoom_and_modifier_up() {
    let s = ViewState::initial((7, 9), (400, 200));
    assert_eq!(s.pointer, (7, 9));
    assert_eq!(s.zoom_delta, 0);
    assert_eq!(s.area_scale_delta, 0);
    assert_eq!(s.base_area_size, (400, 200));
    assert!(!s.modifier_held);
    assert_eq!(s.effective_area_size(), (400, 200));
}

#[test]
fn move_sets_the_pointer_and_nothing_else() {
    let s = ViewState::initial((0, 0), (400, 200));
    let (t, c) = s.step(MainMessage::Move(-5, 12));
    assert_eq!(c, Command::Nothing);
    assert_eq!(t, ViewState { pointer: (-5, 12), ..s });
}

#[test]
fn alt_key_sets_and_clears_the_modifier() {
    let s = ViewState::initial((0, 0), (400, 200));
    let (t, c) = s.step(MainMessage::AltKey(true));
    assert_eq!(c, Command::Nothing);
    assert_eq!(t, ViewState { modifier_held: true, ..s });
    let (u, c) = t.step(MainMessage::AltKey(false));
    assert_eq!(c, Command::Nothing);
    assert_eq!(u, s);
}

#[test]
fn resize_leaves_the_state_alone() {
    let s = run(
        ViewState::initial((3, 4), (400, 200)),
        &[MainMessage::ZoomIn, MainMessage::AltKey(true), MainMessage::ZoomIn],
    );
    let (t, c) = s.step(MainMessage::Resize((640, 480)));
    assert_eq!(c, Command::Nothing);
    assert_eq!(t, s);
}

#[test]
fn zoom_in_moves_one_step_up() {
    let s = ViewState::initial((0, 0), (400, 200));
    let (t, c) = s.step(MainMessage::ZoomIn);
    assert_eq!(c, Command::Nothing);
    assert_eq!(t, ViewState { zoom_delta: 1, ..s });
}

#[test]
fn zoom_out_moves_one_step_down() {
    let s = ViewState::initial((0, 0), (400, 200));
    let (t, c) = s.step(MainMessage::ZoomOut);
    assert_eq!(c, Command::Nothing);
    assert_eq!(t, ViewState { zoom_delta: -1, ..s });
}

#[test]
fn zoom_in_saturates_at_twenty() {
    let msgs = vec![MainMessage::ZoomIn; 25];
    let s = run(ViewState::initial((0, 0), (400, 200)), &msgs);
    assert_eq!(s.zoom_delta, 20);
    let (t, c) = s.step(MainMessage::ZoomIn);
    assert_eq!(t, s);
    assert_eq!(c, Command::Nothing);
}

#[test]
fn zoom_out_saturates_at_minus_twenty() {
    let msgs = vec![MainMessage::ZoomOut; 25];
    let s = run(ViewState::initial((0, 0), (400, 200)), &msgs);
    assert_eq!(s.zoom_delta, -20);
    let (t, c) = s.step(MainMessage::ZoomOut);
    assert_eq!(t, s);
    assert_eq!(c, Command::Nothing);
}

#[test]
fn zoom_stays_in_bounds_and_follows_each_turn() {
    let mut msgs: Vec<MainMessage> = Vec::new();
    for i in 0..200u32 {
        // long runs one way, then the other, with some jitter
        let up = (i / 37) % 2 == 0 || i % 5 == 0;
        msgs.push(if up { MainMessage::ZoomIn } else { MainMessage::ZoomOut });
    }
    let mut s = ViewState::initial((1, 2), (400, 200));
    for m in &msgs {
        let before: i32 = s.zoom_delta;
        let (t, c) = s.step(*m);
        assert_eq!(c, Command::Nothing);
        assert!(-20 <= t.zoom_delta && t.zoom_delta <= 20);
        match m {
            MainMessage::ZoomIn => {
                assert_eq!(t.zoom_delta, if before < 20 { before + 1 } else { before })
            }
            _ => assert_eq!(t.zoom_delta, if before > -20 { before - 1 } else { before }),
        }
        assert_eq!(t, ViewState { zoom_delta: t.zoom_delta, ..s });
        s = t;
    }
}

#[test]
fn wheel_with_modifier_grows_the_patch_and_asks_for_a_resize() {
    let s = run(ViewState::initial((0, 0), (400, 200)), &[MainMessage::AltKey(true)]);
    let (t, c) = s.step(MainMessage::ZoomIn);
    assert_eq!(c, Command::Resize(401, 201));
    assert_eq!(t.area_scale_delta, 1);
    assert_eq!(t.zoom_delta, 0);
    assert_eq!(t.effective_area_size(), (401, 201));
    assert_eq!(t.base_area_size, (400, 200));
}

#[test]
fn wheel_with_modifier_shrinks_the_patch_and_asks_for_a_resize() {
    let s = run(ViewState::initial((0, 0), (400, 200)), &[MainMessage::AltKey(true)]);
    let (t, c) = s.step(MainMessage::ZoomOut);
    assert_eq!(c, Command::Resize(399, 199));
    assert_eq!(t.area_scale_delta, -1);
    assert_eq!(t.effective_area_size(), (399, 199));
}

#[test]
fn patch_never_shrinks_below_one_pixel() {
    let start = run(ViewState::initial((0, 0), (3, 2)), &[MainMessage::AltKey(true)]);
    let (a, c) = start.step(MainMessage::ZoomOut);
    assert_eq!(c, Command::Resize(2, 1));
    assert_eq!(a.effective_area_size(), (2, 1));
    // the next step would make the height zero: nothing happens
    let (b, c) = a.step(MainMessage::ZoomOut);
    assert_eq!(c, Command::Nothing);
    assert_eq!(b, a);
    let msgs = vec![MainMessage::ZoomOut; 50];
    let end = run(a, &msgs);
    assert_eq!(end, a);
    assert_eq!(end.effective_area_size(), (2, 1));
}

#[test]
fn effective_size_is_base_plus_delta_along_a_mixed_queue() {
    let mut s = run(ViewState::initial((0, 0), (10, 4)), &[MainMessage::AltKey(true)]);
    for i in 0..300u32 {
        let m = if i % 3 == 0 { MainMessage::ZoomIn } else { MainMessage::ZoomOut };
        s = s.step(m).0;
        let (w, h) = s.effective_area_size();
        assert_eq!(w as i64, 10 + s.area_scale_delta as i64);
        assert_eq!(h as i64, 4 + s.area_scale_delta as i64);
        assert!(w >= 1 && h >= 1);
        assert_eq!(s.base_area_size, (10, 4));
    }
    assert_eq!(s.effective_area_size(), (7, 1));
}

#[test]
fn patch_does_not_grow_past_what_a_command_can_carry() {
    let max: u32 = i32::MAX as u32;
    let s = run(ViewState::initial((0, 0), (max, 10)), &[MainMessage::AltKey(true)]);
    let (t, c) = s.step(MainMessage::ZoomIn);
    assert_eq!(c, Command::Nothing);
    assert_eq!(t, s);
    let (t, c) = s.step(MainMessage::ZoomOut);
    assert_eq!(c, Command::Resize(i32::MAX - 1, 9));
    assert_eq!(t.area_scale_delta, -1);
}

#[test]
fn an_empty_patch_can_only_grow() {
    let s = run(ViewState::initial((0, 0), (0, 5)), &[MainMessage::AltKey(true)]);
    let (t, c) = s.step(MainMessage::ZoomOut);
    assert_eq!(c, Command::Nothing);
    assert_eq!(t, s);
    let (t, c) = s.step(MainMessage::ZoomIn);
    assert_eq!(c, Command::Resize(1, 6));
    assert_eq!(t.effective_area_size(), (1, 6));
}

#[test]
fn the_same_state_and_event_give_the_same_result() {
    let s = run(
        ViewState::initial((5, 5), (400, 200)),
        &[MainMessage::ZoomIn, MainMessage::AltKey(true), MainMessage::ZoomOut],
    );
    for m in [
        MainMessage::Move(1, 2),
        MainMessage::Resize((3, 4)),
        MainMessage::ZoomIn,
        MainMessage::ZoomOut,
        MainMessage::AltKey(false),
    ] {
        assert_eq!(s.step(m), s.step(m));
    }
}

#[test]
fn a_queue_is_applied_in_the_order_of_arrival() {
    let start = ViewState::initial((0, 0), (400, 200));
    let a = run(
        start,
        &[MainMessage::ZoomIn, MainMessage::AltKey(true), MainMessage::ZoomIn, MainMessage::Move(9, 8)],
    );
    assert_eq!(
        a,
        ViewState {
            pointer: (9, 8),
            zoom_delta: 1,
            area_scale_delta: 1,
            base_area_size: (400, 200),
            modifier_held: true,
        }
    );
    let b = run(
        start,
        &[MainMessage::AltKey(true), MainMessage::ZoomIn, MainMessage::ZoomIn, MainMessage::Move(9, 8)],
    );
    assert_eq!(b.zoom_delta, 0);
    assert_eq!(b.area_scale_delta, 2);
}
