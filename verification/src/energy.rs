//! Reactor power allocation across the ship's three core systems
//! (shields, weapons, engines), driven by the 1/2/3 keys.

use vstd::prelude::*;

verus! {

// --- Reactor ---
/// Number of energy cells the player reactor provides.
pub const REACTOR_MAX_POWER: u32 = 10;

// --- Default allocation ---
pub const DEFAULT_SHIELD_POWER: u32 = 4;
pub const DEFAULT_WEAPON_POWER: u32 = 3;
pub const DEFAULT_ENGINE_POWER: u32 = 3;

// --- Max levels per system (upgradeable cap) ---
pub const SHIELD_MAX_LEVEL: u32 = 4;
pub const WEAPON_MAX_LEVEL: u32 = 5;
pub const ENGINE_MAX_LEVEL: u32 = 3;

/// Reactor capacity of the player ship.
#[derive(Clone, Copy, PartialEq, Eq, Debug)]
pub struct ShipReactor {
    pub max_power: u32,
}

/// Power level of one system: the cells it currently draws and its cap.
#[derive(Clone, Copy, PartialEq, Eq, Debug)]
pub struct PowerAllocation {
    pub current: u32,
    pub max_level: u32,
}

/// Power allocation across the three core systems.
#[derive(Clone, Copy, PartialEq, Eq, Debug)]
pub struct SystemPower {
    pub shields: PowerAllocation,
    pub weapons: PowerAllocation,
    pub engines: PowerAllocation,
}

/// The keys that drive power allocation this frame: which of the
/// system keys (1 = shields, 2 = weapons, 3 = engines) were just pressed,
/// and whether a Shift key is held (Shift turns an add into a remove).
#[derive(Clone, Copy, PartialEq, Eq, Debug)]
pub struct EnergyKeys {
    pub shields: bool,
    pub weapons: bool,
    pub engines: bool,
    pub shift: bool,
}

impl PowerAllocation {
    /// The allocation never draws more than its cap.
    pub open spec fn within_cap(self) -> bool {
        self.current <= self.max_level
    }
}

impl SystemPower {
    /// Cells drawn by the three systems together.
    pub open spec fn total_used(self) -> int {
        self.shields.current + self.weapons.current + self.engines.current
    }

    /// Every system stays within its cap.
    pub open spec fn within_caps(self) -> bool {
        &&& self.shields.within_cap()
        &&& self.weapons.within_cap()
        &&& self.engines.within_cap()
    }

    /// The systems together draw no more than the reactor provides.
    pub open spec fn within_reactor(self, reactor_max: int) -> bool {
        self.total_used() <= reactor_max
    }
}

/// What one system key does to one allocation: Shift removes a cell
/// (never below zero); otherwise a cell is added when the reactor has a
/// spare cell (`total_used`, the cells drawn so far, is below the reactor's
/// cells) and the system is below its cap.
pub open spec fn adjusted(
    a: PowerAllocation,
    pressed: bool,
    shift: bool,
    total_used: int,
    reactor_max: int,
) -> PowerAllocation {
    if !pressed {
        a
    } else if shift {
        PowerAllocation { current: if a.current > 0 { (a.current - 1) as u32 } else { 0 }, ..a }
    } else if total_used < reactor_max && a.current < a.max_level {
        PowerAllocation { current: (a.current + 1) as u32, ..a }
    } else {
        a
    }
}

/// The allocation after one frame of energy keys with a reactor of
/// `reactor_max` cells. The keys apply in the order shields, weapons,
/// engines, each seeing the cells drawn after the keys before it.
pub open spec fn power_after_keys(p: SystemPower, keys: EnergyKeys, reactor_max: int) -> SystemPower {
    let shields = adjusted(p.shields, keys.shields, keys.shift, p.total_used(), reactor_max);
    let p1 = SystemPower { shields, ..p };
    let weapons = adjusted(p.weapons, keys.weapons, keys.shift, p1.total_used(), reactor_max);
    let p2 = SystemPower { weapons, ..p1 };
    let engines = adjusted(p.engines, keys.engines, keys.shift, p2.total_used(), reactor_max);
    SystemPower { engines, ..p2 }
}

impl Default for SystemPower {
    /// The default split: shields 4/4, weapons 3/5, engines 3/3.
    fn default() -> (p: SystemPower)
        ensures
            p.shields == (PowerAllocation { current: DEFAULT_SHIELD_POWER, max_level: SHIELD_MAX_LEVEL }),
            p.weapons == (PowerAllocation { current: DEFAULT_WEAPON_POWER, max_level: WEAPON_MAX_LEVEL }),
            p.engines == (PowerAllocation { current: DEFAULT_ENGINE_POWER, max_level: ENGINE_MAX_LEVEL }),
    {
        SystemPower {
            shields: PowerAllocation { current: DEFAULT_SHIELD_POWER, max_level: SHIELD_MAX_LEVEL },
            weapons: PowerAllocation { current: DEFAULT_WEAPON_POWER, max_level: WEAPON_MAX_LEVEL },
            engines: PowerAllocation { current: DEFAULT_ENGINE_POWER, max_level: ENGINE_MAX_LEVEL },
        }
    }
}

/// Applies one system key to one allocation.
fn adjust(a: &mut PowerAllocation, pressed: bool, shift: bool, total_used: u32, reactor_max: u32)
    ensures
        *final(a) == adjusted(*old(a), pressed, shift, total_used as int, reactor_max as int),
{
    if pressed {
        if shift {
            if a.current > 0 {
                a.current = a.current - 1;
            }
        } else if total_used < reactor_max && a.current < a.max_level {
            a.current = a.current + 1;
        }
    }
}

/// 1/2/3 add a cell to shields/weapons/engines, Shift+1/2/3 remove one.
/// Nothing happens without a player reactor. Keys pressed together apply
/// in the order shields, weapons, engines, each checking for a spare cell
/// against the cells drawn after the ones before it, so the reactor is
/// never over-allocated.
pub fn player_energy_input(power: &mut SystemPower, reactor: Option<ShipReactor>, keys: EnergyKeys)
    requires
        old(power).total_used() <= u32::MAX,
    ensures
        match reactor {
            None => *final(power) == *old(power),
            Some(r) => *final(power) == power_after_keys(*old(power), keys, r.max_power as int),
        },
        reactor matches Some(r) ==> (old(power).within_reactor(r.max_power as int)
            ==> final(power).within_reactor(r.max_power as int)),
        old(power).within_caps() ==> final(power).within_caps(),
        // Caps never change; a system whose key is not pressed keeps its
        // cells; a pressed key moves a system by at most one cell, down with
        // Shift and never down without it.
        final(power).shields.max_level == old(power).shields.max_level,
        final(power).weapons.max_level == old(power).weapons.max_level,
        final(power).engines.max_level == old(power).engines.max_level,
        !keys.shields ==> final(power).shields == old(power).shields,
        !keys.weapons ==> final(power).weapons == old(power).weapons,
        !keys.engines ==> final(power).engines == old(power).engines,
        keys.shift ==> final(power).shields.current == (if old(power).shields.current > 0
            && keys.shields && reactor.is_some() {
            old(power).shields.current - 1
        } else {
            old(power).shields.current as int
        }),
        keys.shift ==> final(power).weapons.current == (if old(power).weapons.current > 0
            && keys.weapons && reactor.is_some() {
            old(power).weapons.current - 1
        } else {
            old(power).weapons.current as int
        }),
        keys.shift ==> final(power).engines.current == (if old(power).engines.current > 0
            && keys.engines && reactor.is_some() {
            old(power).engines.current - 1
        } else {
            old(power).engines.current as int
        }),
        !keys.shift ==> old(power).shields.current <= final(power).shields.current
            <= old(power).shields.current + 1,
        !keys.shift ==> old(power).weapons.current <= final(power).weapons.current
            <= old(power).weapons.current + 1,
        !keys.shift ==> old(power).engines.current <= final(power).engines.current
            <= old(power).engines.current + 1,
{
    let reactor = match reactor {
        Some(r) => r,
        None => return,
    };
    proof {
        if old(power).within_reactor(reactor.max_power as int) {
            lemma_energy_key_keeps_reactor_budget(*old(power), keys, reactor.max_power as int);
        }
    }
    let used = power.shields.current + power.weapons.current + power.engines.current;
    adjust(&mut power.shields, keys.shields, keys.shift, used, reactor.max_power);
    let used = power.shields.current + power.weapons.current + power.engines.current;
    adjust(&mut power.weapons, keys.weapons, keys.shift, used, reactor.max_power);
    let used = power.shields.current + power.weapons.current + power.engines.current;
    adjust(&mut power.engines, keys.engines, keys.shift, used, reactor.max_power);
}

/// The default split stays within every cap and uses exactly the whole
/// default reactor.
pub proof fn lemma_default_power_fits_reactor()
    ensures
        ({
            let p = SystemPower {
                shields: PowerAllocation { current: DEFAULT_SHIELD_POWER, max_level: SHIELD_MAX_LEVEL },
                weapons: PowerAllocation { current: DEFAULT_WEAPON_POWER, max_level: WEAPON_MAX_LEVEL },
                engines: PowerAllocation { current: DEFAULT_ENGINE_POWER, max_level: ENGINE_MAX_LEVEL },
            };
            p.within_caps() && p.total_used() == REACTOR_MAX_POWER
        }),
{
}

/// No key combination ever pushes a system above its cap.
pub proof fn lemma_energy_keys_keep_caps(p: SystemPower, keys: EnergyKeys, reactor_max: int)
    requires
        p.within_caps(),
    ensures
        power_after_keys(p, keys, reactor_max).within_caps(),
{
}

/// No key combination draws more cells than the reactor provides, if that
/// held before.
pub proof fn lemma_energy_key_keeps_reactor_budget(p: SystemPower, keys: EnergyKeys, reactor_max: int)
    requires
        p.within_reactor(reactor_max),
    ensures
        power_after_keys(p, keys, reactor_max).within_reactor(reactor_max),
{
}

/// Removing a cell never raises the total drawn from the reactor.
pub proof fn lemma_energy_removal_never_raises_total(p: SystemPower, keys: EnergyKeys, reactor_max: int)
    requires
        keys.shift,
    ensures
        power_after_keys(p, keys, reactor_max).total_used() <= p.total_used(),
{
}

/// Shift+key undoes a single key press that added a cell to a system.
pub proof fn lemma_energy_remove_undoes_add(p: SystemPower, keys: EnergyKeys, reactor_max: int)
    requires
        !keys.shift,
        (keys.shields as int) + (keys.weapons as int) + (keys.engines as int) == 1,
        power_after_keys(p, keys, reactor_max) != p,
    ensures
        power_after_keys(
            power_after_keys(p, keys, reactor_max),
            EnergyKeys { shift: true, ..keys },
            reactor_max,
        ) == p,
{
}

} // verus!
