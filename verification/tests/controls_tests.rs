use starship_core::controls::{
    movement_input, player_auto_fire_input, player_mouse_fire_input, player_pause_input,
    player_speed_input, AutoFire, GamePaused, LateralInput, LongitudinalInput, PlayerFireInput,
    DEFAULT_GAME_SPEED_STEP, GAME_SPEED_STEP_COUNT,
};

#[test]
fn space_toggles_pause_twice_back() {
    let mut p = GamePaused::default();
    assert!(!p.0);
    player_pause_input(true, &mut p);
    assert!(p.0);
    player_pause_input(false, &mut p);
    assert!(p.0);
    player_pause_input(true, &mut p);
    assert!(!p.0);
}

#[test]
fn f_toggles_auto_fire() {
    let mut a = AutoFire::default();
    assert!(!a.0);
    player_auto_fire_input(true, &mut a);
    assert!(a.0);
    player_auto_fire_input(true, &mut a);
    assert!(!a.0);
}

#[test]
fn mouse_buttons_ignored_while_paused() {
    let mut f = PlayerFireInput::default();
    player_mouse_fire_input(true, true, GamePaused(false), &mut f);
    assert!(f.primary_held && f.missile_held);
    player_mouse_fire_input(true, true, GamePaused(true), &mut f);
    assert!(!f.primary_held && !f.missile_held);
    player_mouse_fire_input(false, true, GamePaused(false), &mut f);
    assert!(!f.primary_held && f.missile_held);
}

#[test]
fn speed_steps_clamp_at_ends() {
    let run = GamePaused(false);
    assert_eq!(player_speed_input(run, Some(3), true, false), Some(3));
    assert_eq!(player_speed_input(run, Some(0), false, true), Some(0));
    assert_eq!(player_speed_input(run, Some(1), true, false), Some(2));
    assert_eq!(player_speed_input(run, Some(2), false, true), Some(1));
    assert_eq!(GAME_SPEED_STEP_COUNT, 4);
}

#[test]
fn unknown_speed_counts_as_default_step() {
    let run = GamePaused(false);
    assert_eq!(player_speed_input(run, None, true, false), Some(DEFAULT_GAME_SPEED_STEP + 1));
    assert_eq!(player_speed_input(run, None, false, true), Some(DEFAULT_GAME_SPEED_STEP - 1));
}

#[test]
fn speed_keys_ignored_when_paused_or_idle() {
    assert_eq!(player_speed_input(GamePaused(true), Some(1), true, false), None);
    assert_eq!(player_speed_input(GamePaused(false), Some(1), false, false), None);
}

#[test]
fn both_speed_keys_slower_wins() {
    assert_eq!(player_speed_input(GamePaused(false), Some(2), true, true), Some(1));
}

#[test]
fn forward_key_wins_over_back_and_left_over_right() {
    assert_eq!(movement_input(true, true, false, false), (LongitudinalInput::Forward, LateralInput::Coast));
    assert_eq!(movement_input(false, true, true, true), (LongitudinalInput::Reverse, LateralInput::Left));
    assert_eq!(movement_input(false, false, false, true), (LongitudinalInput::Coast, LateralInput::Right));
}
