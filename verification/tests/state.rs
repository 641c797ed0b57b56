use cube_demo::color::channel_to_byte;
use cube_demo::color::Rgb;
use cube_demo::state::AppState;
use cube_demo::state::FULL_TURN_MDEG;
use cube_demo::state::ROTATION_STEP_MDEG;

#[test]
fn fresh_state_has_documented_defaults() {
    let s = AppState::new();
    assert_eq!(s.rotation_mdeg, 0);
    assert_eq!(s.color, Rgb { red: 400, green: 800, blue: 1000 });
    assert!(s.auto_rotate);
}

#[test]
fn tick_advances_one_degree() {
    let mut s = AppState::new();
    s.tick();
    assert_eq!(s.rotation_mdeg, ROTATION_STEP_MDEG);
    s.tick();
    assert_eq!(s.rotation_mdeg, 2 * ROTATION_STEP_MDEG);
}

#[test]
fn tick_wraps_at_full_turn() {
    let mut s = AppState::new();
    s.set_rotation(FULL_TURN_MDEG - ROTATION_STEP_MDEG);
    s.tick();
    assert_eq!(s.rotation_mdeg, 0);
}

#[test]
fn tick_near_full_turn_wraps_to_remainder() {
    let mut s = AppState::new();
    s.set_rotation(FULL_TURN_MDEG - 1);
    s.tick();
    assert_eq!(s.rotation_mdeg, ROTATION_STEP_MDEG - 1);
}

#[test]
fn tick_does_nothing_when_auto_rotate_is_off() {
    let mut s = AppState::new();
    s.set_rotation(123_456);
    s.set_auto_rotate(false);
    s.tick();
    assert_eq!(s.rotation_mdeg, 123_456);
    assert_eq!(s.color, Rgb { red: 400, green: 800, blue: 1000 });
    assert!(!s.auto_rotate);
}

#[test]
fn set_rotation_wraps_at_full_turn() {
    let mut s = AppState::new();
    s.set_rotation(FULL_TURN_MDEG);
    assert_eq!(s.rotation_mdeg, 0);
    s.set_rotation(FULL_TURN_MDEG + 5_000);
    assert_eq!(s.rotation_mdeg, 5_000);
    s.set_rotation(359_999);
    assert_eq!(s.rotation_mdeg, 359_999);
}

#[test]
fn set_color_clamps_each_channel() {
    let mut s = AppState::new();
    s.set_color(1_200, 500, 0);
    assert_eq!(s.color, Rgb { red: 1000, green: 500, blue: 0 });
}

#[test]
fn reset_restores_documented_defaults() {
    let mut s = AppState::new();
    s.set_rotation(90_000);
    s.set_color(0, 0, 0);
    s.set_auto_rotate(false);
    s.reset();
    assert_eq!(s.rotation_mdeg, 0);
    assert_eq!(s.color, Rgb { red: 400, green: 800, blue: 1000 });
    assert!(s.auto_rotate);
    assert_eq!(s, AppState::new());
}

#[test]
fn channel_bytes_match_truncating_conversion() {
    assert_eq!(channel_to_byte(0), 0);
    assert_eq!(channel_to_byte(400), 102);
    assert_eq!(channel_to_byte(500), 127);
    assert_eq!(channel_to_byte(800), 204);
    assert_eq!(channel_to_byte(1000), 255);
}

#[test]
fn default_color_bytes_match_renderer_values() {
    let s = AppState::new();
    assert_eq!(s.color_bytes(), (102, 204, 255));
}

#[test]
fn color_constructor_clamps() {
    let c = Rgb::new(2_000, 1_000, 999);
    assert_eq!(c, Rgb { red: 1000, green: 1000, blue: 999 });
    let b = c.bytes();
    assert_eq!(b, (255, 255, 254));
}
