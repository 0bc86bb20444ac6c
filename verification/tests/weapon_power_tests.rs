use starship_core::energy::DEFAULT_WEAPON_POWER;
use starship_core::loadout::player_loadout;
use starship_core::weapon_power::{allocate_weapon_power, WeaponPowerRequest, WeaponPowerState};

fn req(index: u32, power_cost: u32, enabled: bool) -> WeaponPowerRequest {
    WeaponPowerRequest { index, power_cost, enabled }
}

fn powered(states: &[WeaponPowerState]) -> Vec<bool> {
    states.iter().map(|s| s.powered).collect()
}

#[test]
fn default_budget_powers_front_turrets_of_loadout() {
    // laser(1), flak(2), missile(1), laser(1) with the default 3 weapon cells
    let slots = vec![req(0, 1, true), req(1, 2, true), req(2, 1, true), req(3, 1, true)];
    let states = allocate_weapon_power(3, &slots);
    assert_eq!(powered(&states), vec![true, true, false, false]);
    assert!(states.iter().zip(slots.iter()).all(|(s, r)| s.armed == (s.powered && r.enabled)));
}

#[test]
fn disabled_turret_frees_cells_for_later_ones() {
    let slots = vec![req(0, 1, true), req(1, 2, false), req(2, 1, true), req(3, 1, true)];
    let states = allocate_weapon_power(3, &slots);
    assert_eq!(powered(&states), vec![true, false, true, true]);
    assert!(!states[1].armed);
}

#[test]
fn allocation_follows_slot_index_not_list_order() {
    let slots = vec![req(3, 1, true), req(2, 1, true), req(1, 2, true), req(0, 1, true)];
    let states = allocate_weapon_power(3, &slots);
    assert_eq!(powered(&states), vec![false, false, true, true]);
}

#[test]
fn expensive_turret_skipped_cheaper_later_powered() {
    let slots = vec![req(0, 1, true), req(1, 3, true), req(2, 1, true)];
    let states = allocate_weapon_power(2, &slots);
    assert_eq!(powered(&states), vec![true, false, true]);
}

#[test]
fn zero_budget_powers_only_free_turrets() {
    let slots = vec![req(0, 1, true), req(1, 0, true), req(2, 0, false)];
    let states = allocate_weapon_power(0, &slots);
    assert_eq!(powered(&states), vec![false, true, false]);
    assert_eq!(states[2].armed, false);
}

#[test]
fn empty_list_allocates_nothing() {
    let states = allocate_weapon_power(5, &vec![]);
    assert!(states.is_empty());
}

#[test]
fn shared_index_takes_first_turrets_decision() {
    let slots = vec![req(0, 1, true), req(0, 1, true)];
    let states = allocate_weapon_power(1, &slots);
    // both turrets of slot 0 take the decision made for the first one
    assert_eq!(powered(&states), vec![true, true]);
}

#[test]
fn budget_covering_all_enabled_powers_them_all() {
    let slots = vec![req(2, 1, true), req(0, 2, true), req(1, 4, false), req(3, 2, true)];
    let states = allocate_weapon_power(5, &slots);
    assert_eq!(powered(&states), vec![true, true, false, true]);
    let drawn: u32 = states.iter().zip(slots.iter()).filter(|(s, _)| s.powered).map(|(_, r)| r.power_cost).sum();
    assert!(drawn <= 5);
}

#[test]
fn loadout_with_default_weapon_power() {
    let slots: Vec<WeaponPowerRequest> = player_loadout()
        .iter()
        .map(|t| req(t.slot.index, t.slot.power_cost, true))
        .collect();
    let states = allocate_weapon_power(DEFAULT_WEAPON_POWER, &slots);
    assert_eq!(powered(&states), vec![true, true, false, false]);
    let mut disabled_flak = slots.clone();
    disabled_flak[1].enabled = false;
    let states = allocate_weapon_power(DEFAULT_WEAPON_POWER, &disabled_flak);
    assert_eq!(powered(&states), vec![true, false, true, true]);
}
