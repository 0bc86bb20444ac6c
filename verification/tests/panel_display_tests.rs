use starship_core::controls::GamePaused;
use starship_core::display::{
    team_color, thruster_target_level, update_game_speed_text, update_hover_indicator,
    update_lock_indicator, update_target_info, HoverRing, MovementKeys, TeamColor, ThrustLevel,
    ThrusterDir,
};
use starship_core::firing::Ammunition;
use starship_core::loadout::{player_loadout, player_reactor, ShipWeapon};
use starship_core::targets::{EntityId, HoveredEntity, PlayerTarget};
use starship_core::weapon_panel::{
    ammo_text, cleanup_dead_rows, handle_toggle_clicks, toggle_label, weapon_toggle_state,
    ToggleState, WeaponEnabled, WeaponSlot,
};

fn slot(powered: bool) -> WeaponSlot {
    WeaponSlot { index: 0, power_cost: 1, powered }
}

#[test]
fn toggle_state_disabled_wins_over_unpowered() {
    assert_eq!(weapon_toggle_state(WeaponEnabled(false), slot(false)), ToggleState::Off);
    assert_eq!(weapon_toggle_state(WeaponEnabled(true), slot(false)), ToggleState::NoPower);
    assert_eq!(weapon_toggle_state(WeaponEnabled(true), slot(true)), ToggleState::On);
    assert_eq!(toggle_label(ToggleState::Off), "OFF");
    assert_eq!(toggle_label(ToggleState::NoPower), "PWR");
    assert_eq!(toggle_label(ToggleState::On), "ON");
}

#[test]
fn toggle_clicks_flip_per_press() {
    let mut enabled = vec![WeaponEnabled(true), WeaponEnabled(true), WeaponEnabled(false)];
    handle_toggle_clicks(&mut enabled, &vec![0, 2, 1, 1]);
    assert_eq!(enabled, vec![WeaponEnabled(false), WeaponEnabled(true), WeaponEnabled(true)]);
}

#[test]
fn ammo_readout_formats_counts() {
    assert_eq!(ammo_text(Some(Ammunition { current: 8, max: 12 })), "8/12");
    assert_eq!(ammo_text(Some(Ammunition { current: 0, max: 0 })), "0/0");
    assert_eq!(ammo_text(Some(Ammunition { current: 4294967295, max: 100 })), "4294967295/100");
    assert_eq!(ammo_text(None), "");
}

#[test]
fn rows_of_missing_turrets_are_removed() {
    let rows = vec![EntityId(1), EntityId(2), EntityId(3), EntityId(2)];
    let live = vec![EntityId(1), EntityId(3)];
    assert_eq!(cleanup_dead_rows(&rows, &live), vec![1, 3]);
    assert_eq!(cleanup_dead_rows(&rows, &rows), Vec::<usize>::new());
}

#[test]
fn team_colors() {
    assert_eq!(team_color(1), TeamColor::Red);
    assert_eq!(team_color(2), TeamColor::Blue);
    assert_eq!(team_color(0), TeamColor::Gray);
    assert_eq!(team_color(7), TeamColor::Gray);
}

#[test]
fn thruster_levels_follow_keys() {
    let keys = MovementKeys { forward: true, back: true, left: false, right: true };
    let run = GamePaused(false);
    assert_eq!(thruster_target_level(ThrusterDir::Forward, run, keys), ThrustLevel::Full);
    assert_eq!(thruster_target_level(ThrusterDir::Reverse, run, keys), ThrustLevel::Reverse);
    assert_eq!(thruster_target_level(ThrusterDir::StrafeLeft, run, keys), ThrustLevel::Off);
    assert_eq!(thruster_target_level(ThrusterDir::StrafeRight, run, keys), ThrustLevel::Full);
    assert_eq!(thruster_target_level(ThrusterDir::Forward, GamePaused(true), keys), ThrustLevel::Off);
}

#[test]
fn hover_ring_colors_and_hiding() {
    let h = HoveredEntity(Some(EntityId(5)));
    assert_eq!(update_hover_indicator(h, PlayerTarget(None), Some(1), Some(1)), HoverRing::Friendly);
    assert_eq!(update_hover_indicator(h, PlayerTarget(None), Some(2), Some(1)), HoverRing::Enemy);
    assert_eq!(update_hover_indicator(h, PlayerTarget(Some(EntityId(5))), Some(2), Some(1)), HoverRing::Hidden);
    assert_eq!(update_hover_indicator(h, PlayerTarget(None), None, Some(1)), HoverRing::Hidden);
    assert_eq!(update_hover_indicator(h, PlayerTarget(None), Some(2), None), HoverRing::Hidden);
    assert_eq!(update_hover_indicator(HoveredEntity(None), PlayerTarget(None), Some(2), Some(1)), HoverRing::Hidden);
    assert!(update_lock_indicator(PlayerTarget(Some(EntityId(5))), true));
    assert!(!update_lock_indicator(PlayerTarget(Some(EntityId(5))), false));
    assert!(!update_lock_indicator(PlayerTarget(None), true));
}

#[test]
fn hud_texts() {
    assert_eq!(update_target_info(PlayerTarget(None), true, "x"), "No target");
    assert_eq!(update_target_info(PlayerTarget(Some(EntityId(1))), false, "x"), "Target lost");
    assert_eq!(update_target_info(PlayerTarget(Some(EntityId(1))), true, "Target: 10/20 HP | Dist: 5"), "Target: 10/20 HP | Dist: 5");
    assert_eq!(update_game_speed_text(GamePaused(true), "Speed: x1.00", false, false), "PAUSED | [T] Auto-Target: OFF");
    assert_eq!(update_game_speed_text(GamePaused(false), "Speed: x0.50", true, true), "Speed: x0.50 | [T] Auto-Target: ON | [F] HOLD FIRE");
}

#[test]
fn player_loadout_matches_design() {
    let l = player_loadout();
    assert_eq!(l.len(), 4);
    let weapons: Vec<ShipWeapon> = l.iter().map(|t| t.weapon).collect();
    assert_eq!(weapons, vec![ShipWeapon::PulseLaser, ShipWeapon::FlakCannon, ShipWeapon::MissileLauncher, ShipWeapon::PulseLaser]);
    let costs: Vec<u32> = l.iter().map(|t| t.slot.power_cost).collect();
    assert_eq!(costs, vec![1, 2, 1, 1]);
    assert_eq!(costs.iter().sum::<u32>(), 5);
    assert_eq!(l[2].ammo, Some(Ammunition { current: 8, max: 12 }));
    assert_eq!(player_reactor().max_power, 10);
}
