use cube_scene::control::{step_angle, Controller, InputEvent, Key, SceneSelect, Yrp};

fn recentered() -> Yrp {
    Yrp { yaw: 60, roll: 60, pitch: 60, tick: 0 }
}

#[test]
fn fifteen_right_presses_add_ninety_degrees_of_yaw() {
    let mut c = Controller::new(3, true);
    for _ in 0..15 {
        c.update(InputEvent::KeyDown(Key::Right));
    }
    assert_eq!(c.yrp, Yrp { yaw: 150, roll: 60, pitch: 60, tick: 0 });
}

#[test]
fn left_press_recenters_any_state() {
    let mut c = Controller::new(2, true);
    for _ in 0..7 {
        c.update(InputEvent::KeyDown(Key::Left));
        c.update(InputEvent::KeyDown(Key::Down));
        c.update(InputEvent::KeyDown(Key::RControl));
        c.update(InputEvent::CursorMoved);
    }
    assert_ne!(c.yrp, recentered());
    c.update(InputEvent::MouseButton { left: true, pressed: true });
    assert_eq!(c.yrp, recentered());
}

#[test]
fn left_release_and_right_button_change_nothing() {
    let mut c = Controller::new(2, true);
    c.update(InputEvent::KeyDown(Key::Up));
    let before = c;
    c.update(InputEvent::MouseButton { left: true, pressed: false });
    c.update(InputEvent::MouseButton { left: false, pressed: true });
    assert_eq!(c, before);
}

#[test]
fn each_axis_key_steps_six_degrees() {
    let mut c = Controller::new(1, false);
    c.update(InputEvent::KeyDown(Key::Left));
    assert_eq!(c.yrp.yaw, 54);
    c.update(InputEvent::KeyDown(Key::LControl));
    assert_eq!(c.yrp.roll, 54);
    c.update(InputEvent::KeyDown(Key::RControl));
    c.update(InputEvent::KeyDown(Key::RControl));
    assert_eq!(c.yrp.roll, 66);
    c.update(InputEvent::KeyDown(Key::Up));
    assert_eq!(c.yrp.pitch, 54);
    c.update(InputEvent::KeyDown(Key::Down));
    c.update(InputEvent::KeyDown(Key::Down));
    assert_eq!(c.yrp.pitch, 66);
}

#[test]
fn zero_keys_snap_to_alternate_orientation() {
    let mut c = Controller::new(1, false);
    c.update(InputEvent::CursorMoved);
    c.update(InputEvent::KeyDown(Key::Key0));
    assert_eq!(c.yrp, Yrp { yaw: -90, roll: 0, pitch: 0, tick: 0 });
    c.update(InputEvent::KeyDown(Key::Right));
    c.update(InputEvent::KeyDown(Key::Numpad0));
    assert_eq!(c.yrp, Yrp { yaw: -90, roll: 0, pitch: 0, tick: 0 });
}

#[test]
fn cursor_motion_counts_ticks_and_other_keys_clear_them() {
    let mut c = Controller::new(1, false);
    c.update(InputEvent::CursorMoved);
    c.update(InputEvent::CursorMoved);
    c.update(InputEvent::CursorMoved);
    assert_eq!(c.yrp.tick, 3);
    c.update(InputEvent::KeyUp(Key::Other));
    assert_eq!(c.yrp.tick, 3);
    c.update(InputEvent::KeyDown(Key::Other));
    assert_eq!(c.yrp.tick, 0);
}

#[test]
fn ignored_events_change_nothing() {
    let mut c = Controller::new(4, true);
    let before = c;
    c.update(InputEvent::CursorEntered);
    c.update(InputEvent::CursorLeft);
    c.update(InputEvent::UnknownKey);
    c.update(InputEvent::Other);
    c.update(InputEvent::KeyUp(Key::Right));
    c.update(InputEvent::KeyUp(Key::T));
    c.update(InputEvent::KeyUp(Key::W));
    assert_eq!(c, before);
}

#[test]
fn tick_stops_at_largest_value() {
    let mut c = Controller::new(1, false);
    c.yrp.tick = u64::MAX - 1;
    c.update(InputEvent::CursorMoved);
    c.update(InputEvent::CursorMoved);
    assert_eq!(c.yrp.tick, u64::MAX);
}

#[test]
fn angles_wrap_within_one_turn() {
    assert_eq!(step_angle(354, 6), 0);
    assert_eq!(step_angle(-354, -6), 0);
    assert_eq!(step_angle(357, 6), 3);
    assert_eq!(step_angle(-90, 6), -84);
    let mut c = Controller::new(1, false);
    for _ in 0..60 {
        c.update(InputEvent::KeyDown(Key::Right));
    }
    assert_eq!(c.yrp.yaw, 60);
}

#[test]
fn n_cycles_return_to_start() {
    for n in 1..8usize {
        for start in 0..n {
            let mut s = SceneSelect::new(n, true);
            for _ in 0..start {
                s.cycle_bind_set();
            }
            assert_eq!(s.active, start);
            for k in 0..n {
                s.cycle_bind_set();
                assert!(s.active < n);
                assert_eq!(s.active, (start + k + 1) % n);
            }
            assert_eq!(s.active, start);
        }
    }
}

#[test]
fn t_key_cycles_and_w_key_toggles() {
    let mut c = Controller::new(3, true);
    c.update(InputEvent::KeyDown(Key::T));
    c.update(InputEvent::KeyDown(Key::T));
    assert_eq!(c.select.active, 2);
    c.update(InputEvent::KeyDown(Key::T));
    assert_eq!(c.select.active, 0);
    c.update(InputEvent::KeyDown(Key::W));
    assert!(c.select.wire);
    c.update(InputEvent::KeyDown(Key::W));
    assert!(!c.select.wire);
    assert_eq!(c.yrp, recentered());
}

#[test]
fn wire_toggle_is_a_no_op_without_support() {
    let mut s = SceneSelect::new(2, false);
    s.toggle_wire();
    assert!(!s.wire);
    let mut s = SceneSelect::new(2, true);
    s.toggle_wire();
    assert!(s.wire);
}

#[test]
fn single_bind_set_stays_selected() {
    let mut s = SceneSelect::new(1, false);
    s.cycle_bind_set();
    assert_eq!(s.active, 0);
}
