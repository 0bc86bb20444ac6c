//! The player ship's weapon loadout: turret slots, power costs, and
//! ammunition, in slot-index (power priority) order.

use vstd::prelude::*;

use crate::energy::{ShipReactor, REACTOR_MAX_POWER};
use crate::firing::Ammunition;
use crate::weapon_panel::WeaponSlot;

verus! {

// --- Energy cells each weapon needs ---
pub const PULSE_LASER_POWER_COST: u32 = 1;
pub const HEAVY_LASER_POWER_COST: u32 = 2;
pub const MISSILE_POWER_COST: u32 = 1;
pub const FLAK_POWER_COST: u32 = 2;
pub const GATLING_POWER_COST: u32 = 2;

// --- Missile magazine ---
pub const MISSILE_MAX_AMMO: u32 = 12;
pub const MISSILE_START_AMMO: u32 = 8;

/// Projectiles fired by one flak shot.
pub const FLAK_PROJECTILE_COUNT: u32 = 5;

/// The weapon mounted on a turret of the player ship.
#[derive(Clone, Copy, PartialEq, Eq, Structural, Debug)]
pub enum ShipWeapon {
    PulseLaser,
    FlakCannon,
    MissileLauncher,
}

/// One turret of the player ship as spawned.
#[derive(Clone, Copy, PartialEq, Eq, Structural, Debug)]
pub struct TurretLoadout {
    pub weapon: ShipWeapon,
    pub slot: WeaponSlot,
    pub ammo: Option<Ammunition>,
}

/// The player ship's turrets, in the order they are spawned: front-top
/// pulse laser, side-left flak cannon, side-right missile launcher with a
/// partly filled magazine, front-bottom pulse laser. Slot indices count
/// up from 0 and every turret starts powered.
pub open spec fn player_loadout_spec() -> Seq<TurretLoadout> {
    seq![
        TurretLoadout {
            weapon: ShipWeapon::PulseLaser,
            slot: WeaponSlot { index: 0, power_cost: PULSE_LASER_POWER_COST, powered: true },
            ammo: None,
        },
        TurretLoadout {
            weapon: ShipWeapon::FlakCannon,
            slot: WeaponSlot { index: 1, power_cost: FLAK_POWER_COST, powered: true },
            ammo: None,
        },
        TurretLoadout {
            weapon: ShipWeapon::MissileLauncher,
            slot: WeaponSlot { index: 2, power_cost: MISSILE_POWER_COST, powered: true },
            ammo: Some(Ammunition { current: MISSILE_START_AMMO, max: MISSILE_MAX_AMMO }),
        },
        TurretLoadout {
            weapon: ShipWeapon::PulseLaser,
            slot: WeaponSlot { index: 3, power_cost: PULSE_LASER_POWER_COST, powered: true },
            ammo: None,
        },
    ]
}

/// The player ship's turrets (see `player_loadout_spec`).
pub fn player_loadout() -> (turrets: Vec<TurretLoadout>)
    ensures
        turrets@ == player_loadout_spec(),
        turrets.len() == 4,
        // Slot indices count up from 0 in spawn order: the missile launcher
        // (third turret) is served before the front-bottom laser.
        forall|k: int| 0 <= k < 4 ==> (#[trigger] turrets[k]).slot.index == k,
        forall|k: int| 0 <= k < 4 ==> (#[trigger] turrets[k]).slot.powered,
        turrets[0].weapon == ShipWeapon::PulseLaser && turrets[0].slot.power_cost == 1
            && turrets[0].ammo.is_none(),
        turrets[1].weapon == ShipWeapon::FlakCannon && turrets[1].slot.power_cost == 2
            && turrets[1].ammo.is_none(),
        turrets[2].weapon == ShipWeapon::MissileLauncher && turrets[2].slot.power_cost == 1
            && turrets[2].ammo == Some(Ammunition { current: 8, max: 12 }),
        turrets[3].weapon == ShipWeapon::PulseLaser && turrets[3].slot.power_cost == 1
            && turrets[3].ammo.is_none(),
{
    let mut turrets: Vec<TurretLoadout> = Vec::new();
    turrets.push(
        TurretLoadout {
            weapon: ShipWeapon::PulseLaser,
            slot: WeaponSlot { index: 0, power_cost: PULSE_LASER_POWER_COST, powered: true },
            ammo: None,
        },
    );
    turrets.push(
        TurretLoadout {
            weapon: ShipWeapon::FlakCannon,
            slot: WeaponSlot { index: 1, power_cost: FLAK_POWER_COST, powered: true },
            ammo: None,
        },
    );
    turrets.push(
        TurretLoadout {
            weapon: ShipWeapon::MissileLauncher,
            slot: WeaponSlot { index: 2, power_cost: MISSILE_POWER_COST, powered: true },
            ammo: Some(Ammunition { current: MISSILE_START_AMMO, max: MISSILE_MAX_AMMO }),
        },
    );
    turrets.push(
        TurretLoadout {
            weapon: ShipWeapon::PulseLaser,
            slot: WeaponSlot { index: 3, power_cost: PULSE_LASER_POWER_COST, powered: true },
            ammo: None,
        },
    );
    assert(turrets@ =~= player_loadout_spec());
    turrets
}

/// The player ship's turrets have distinct slot indices and need five cells
/// together: more than the weapons system's default three, so the player
/// has to choose which turrets to power.
pub proof fn lemma_loadout_power_needs()
    ensures
        ({
            let l = player_loadout_spec();
            &&& forall|a: int, b: int|
                0 <= a < l.len() && 0 <= b < l.len() && a != b ==> #[trigger] l[a].slot.index
                    != #[trigger] l[b].slot.index
            &&& l[0].slot.power_cost + l[1].slot.power_cost + l[2].slot.power_cost
                + l[3].slot.power_cost == 5
            &&& 5 > crate::energy::DEFAULT_WEAPON_POWER
        }),
{
}

/// The loadout's slot indices are its spawn positions, so power goes front
/// laser, flak cannon, missile launcher, rear laser; the launcher starts with
/// 8 of 12 missiles.
pub proof fn lemma_loadout_slot_order()
    ensures
        forall|k: int| 0 <= k < 4 ==> (#[trigger] player_loadout_spec()[k]).slot.index == k,
        player_loadout_spec().len() == 4,
        player_loadout_spec()[2].weapon == ShipWeapon::MissileLauncher,
        player_loadout_spec()[3].weapon == ShipWeapon::PulseLaser,
        player_loadout_spec()[2].ammo == Some(Ammunition { current: 8, max: 12 }),
{
}

/// The player ship's reactor.
pub fn player_reactor() -> (r: ShipReactor)
    ensures
        r.max_power == REACTOR_MAX_POWER,
{
    ShipReactor { max_power: REACTOR_MAX_POWER }
}

} // verus!
