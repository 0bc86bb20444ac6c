use starship_core::energy::{
    player_energy_input, EnergyKeys, PowerAllocation, ShipReactor, SystemPower, REACTOR_MAX_POWER,
};

fn keys(shields: bool, weapons: bool, engines: bool, shift: bool) -> EnergyKeys {
    EnergyKeys { shields, weapons, engines, shift }
}

fn total(p: &SystemPower) -> u32 {
    p.shields.current + p.weapons.current + p.engines.current
}

#[test]
fn default_power_uses_whole_reactor() {
    let p = SystemPower::default();
    assert_eq!(p.shields, PowerAllocation { current: 4, max_level: 4 });
    assert_eq!(p.weapons, PowerAllocation { current: 3, max_level: 5 });
    assert_eq!(p.engines, PowerAllocation { current: 3, max_level: 3 });
    assert_eq!(total(&p), REACTOR_MAX_POWER);
}

#[test]
fn full_reactor_refuses_more_power() {
    let mut p = SystemPower::default();
    let before = p;
    player_energy_input(&mut p, Some(ShipReactor { max_power: 10 }), keys(false, true, false, false));
    assert_eq!(p, before);
}

#[test]
fn shift_removes_a_cell_and_frees_reactor() {
    let mut p = SystemPower::default();
    let r = Some(ShipReactor { max_power: 10 });
    player_energy_input(&mut p, r, keys(true, false, false, true));
    assert_eq!(p.shields.current, 3);
    player_energy_input(&mut p, r, keys(false, true, false, false));
    assert_eq!(p.weapons.current, 4);
    assert_eq!(total(&p), 10);
}

#[test]
fn removal_stops_at_zero() {
    let mut p = SystemPower::default();
    p.engines.current = 0;
    player_energy_input(&mut p, Some(ShipReactor { max_power: 10 }), keys(false, false, true, true));
    assert_eq!(p.engines.current, 0);
}

#[test]
fn add_stops_at_system_cap() {
    let mut p = SystemPower::default();
    p.weapons.current = 0;
    // shields already at cap 4/4 with spare reactor cells
    player_energy_input(&mut p, Some(ShipReactor { max_power: 10 }), keys(true, false, false, false));
    assert_eq!(p.shields.current, 4);
}

#[test]
fn no_reactor_no_change() {
    let mut p = SystemPower::default();
    p.weapons.current = 0;
    let before = p;
    player_energy_input(&mut p, None, keys(true, true, true, false));
    assert_eq!(p, before);
}

#[test]
fn keys_pressed_together_never_overdraw_reactor() {
    // 9 of 10 cells used: only the first add key of the frame gets the spare cell.
    let mut p = SystemPower::default();
    p.shields.current = 3;
    player_energy_input(&mut p, Some(ShipReactor { max_power: 10 }), keys(false, true, false, false));
    assert_eq!(total(&p), 10);
    let mut q = SystemPower::default();
    q.shields.current = 3;
    q.engines.current = 2;
    player_energy_input(&mut q, Some(ShipReactor { max_power: 10 }), keys(true, true, true, false));
    assert_eq!(q.shields.current, 4);
    assert_eq!(q.weapons.current, 4);
    assert_eq!(q.engines.current, 2);
    assert_eq!(total(&q), 10);
    // 8 of 9 cells used with all three keys: still 9.
    let mut r = SystemPower::default();
    r.shields.current = 3;
    r.weapons.current = 3;
    r.engines.current = 2;
    player_energy_input(&mut r, Some(ShipReactor { max_power: 9 }), keys(true, true, true, false));
    assert_eq!(total(&r), 9);
    assert_eq!(r.shields.current, 4);
}

#[test]
fn remove_undoes_add() {
    let mut p = SystemPower::default();
    p.engines.current = 1;
    let start = p;
    let r = Some(ShipReactor { max_power: 10 });
    player_energy_input(&mut p, r, keys(false, false, true, false));
    assert_eq!(p.engines.current, 2);
    player_energy_input(&mut p, r, keys(false, false, true, true));
    assert_eq!(p, start);
}
