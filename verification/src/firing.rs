//! Player weapon firing decisions: which turrets fire this tick, which
//! cooldown they restart with, and the ammunition missiles spend.

use vstd::prelude::*;

use crate::controls::{AutoFire, GamePaused, PlayerFireInput};
use crate::targets::{EntityId, PlayerTarget};

verus! {

/// Mouse-button group a player turret responds to.
#[derive(Clone, Copy, PartialEq, Eq, Structural, Debug)]
pub enum PlayerWeaponGroup {
    /// Left-click: lasers, flak, gatling — anything that fires immediately.
    Primary,
    /// Right-click: missiles. Requires a locked target.
    Missile,
}

/// Ammunition for weapons that consume ammo (e.g. missiles).
#[derive(Clone, Copy, PartialEq, Eq, Structural, Debug)]
pub struct Ammunition {
    pub current: u32,
    pub max: u32,
}

/// How a turret's cooldown restarts after a shot: the standard duration,
/// or the longer one of a shot fired by auto-fire alone (no button held).
#[derive(Clone, Copy, PartialEq, Eq, Structural, Debug)]
pub enum ShotCooldown {
    Standard,
    AutoFirePenalty,
}

/// Where a turret's target stands relative to the turret.
#[derive(Clone, Copy, PartialEq, Eq, Structural, Debug)]
pub enum TargetReach {
    /// The target's position could not be read.
    Unknown,
    /// Farther than the turret's range.
    OutOfRange,
    /// Within range but outside the turret's firing cone.
    OutsideCone,
    /// Within range and cone.
    InReach,
}

/// What the missile firing logic reads of one turret.
#[derive(Clone, Copy, PartialEq, Eq, Structural, Debug)]
pub struct MissileTurret {
    pub group: PlayerWeaponGroup,
    pub armed: bool,
    pub cooldown_ready: bool,
    /// The turret's own target (inherited from the ship).
    pub target: Option<EntityId>,
    /// Where that target stands; only read when there is one.
    pub reach: TargetReach,
    pub ammo: Option<Ammunition>,
}

/// The cooldown a shot restarts: a held button gives the standard one,
/// auto-fire alone the penalty.
pub open spec fn shot_cooldown(manual: bool) -> ShotCooldown {
    if manual {
        ShotCooldown::Standard
    } else {
        ShotCooldown::AutoFirePenalty
    }
}

/// Whether a missile turret fires, and with which cooldown.
pub open spec fn missile_shot(manual: bool, auto: bool, locked: bool, t: MissileTurret) -> Option<ShotCooldown> {
    if t.group != PlayerWeaponGroup::Missile || !t.armed || !t.cooldown_ready {
        None
    } else if !manual && !auto {
        None
    } else if !locked || t.target.is_none() || t.reach != TargetReach::InReach {
        None
    } else if t.ammo matches Some(a) && a.current == 0 {
        None
    } else {
        Some(shot_cooldown(manual))
    }
}

/// The turret after its decision: a shot spends one round of its ammo.
pub open spec fn missile_turret_after(shot: Option<ShotCooldown>, t: MissileTurret) -> MissileTurret {
    match (shot, t.ammo) {
        (Some(_), Some(a)) => MissileTurret {
            ammo: Some(Ammunition { current: (a.current - 1) as u32, ..a }),
            ..t
        },
        _ => t,
    }
}

fn missile_decision(manual: bool, auto: bool, locked: bool, t: &mut MissileTurret) -> (shot: Option<ShotCooldown>)
    ensures
        shot == missile_shot(manual, auto, locked, *old(t)),
        *final(t) == missile_turret_after(shot, *old(t)),
{
    if t.group != PlayerWeaponGroup::Missile || !t.armed || !t.cooldown_ready {
        return None;
    }
    if !manual && !auto {
        return None;
    }
    if !locked || t.target.is_none() || t.reach != TargetReach::InReach {
        return None;
    }
    if let Some(a) = t.ammo {
        if a.current == 0 {
            return None;
        }
        t.ammo = Some(Ammunition { current: a.current - 1, max: a.max });
    }
    if manual {
        Some(ShotCooldown::Standard)
    } else {
        Some(ShotCooldown::AutoFirePenalty)
    }
}

/// Missile firing. A missile turret fires when it is armed and its
/// cooldown is ready, the right button is held or auto-fire is on, the
/// player has a locked target, and the turret's target is known and within
/// range and cone; a turret with ammunition also needs a round, which the
/// shot spends. Nothing fires while paused. The result gives, turret by
/// turret, the cooldown a fired turret restarts with.
pub fn player_fire_missiles(
    paused: GamePaused,
    fire_input: PlayerFireInput,
    auto_fire: AutoFire,
    player_target: PlayerTarget,
    turrets: &mut Vec<MissileTurret>,
) -> (shots: Vec<Option<ShotCooldown>>)
    ensures
        shots.len() == old(turrets).len(),
        final(turrets).len() == old(turrets).len(),
        forall|i: int|
            0 <= i < shots.len() ==> #[trigger] shots[i] == if paused.0 {
                None
            } else {
                missile_shot(
                    fire_input.missile_held,
                    auto_fire.0,
                    player_target.0.is_some(),
                    old(turrets)[i],
                )
            },
        forall|i: int|
            0 <= i < shots.len() ==> #[trigger] final(turrets)[i] == missile_turret_after(
                shots[i],
                old(turrets)[i],
            ),
        // A launcher that is paused, unarmed, cooling down, not a missile
        // launcher, without a lock or trigger, without a target in reach, or
        // with an empty magazine does not fire and stays as it was.
        forall|i: int|
            0 <= i < shots.len() && (paused.0 || !(#[trigger] old(turrets)[i]).armed
                || !old(turrets)[i].cooldown_ready || old(turrets)[i].group
                != PlayerWeaponGroup::Missile || player_target.0.is_none() || (
            !fire_input.missile_held && !auto_fire.0) || old(turrets)[i].target.is_none()
                || old(turrets)[i].reach != TargetReach::InReach || (old(turrets)[i].ammo matches Some(
                a,
            ) && a.current == 0)) ==> shots[i].is_none() && final(turrets)[i] == old(turrets)[i],
        // Otherwise it fires, spending exactly one round when it carries ammunition.
        forall|i: int|
            0 <= i < shots.len() && !paused.0 && (#[trigger] old(turrets)[i]).armed
                && old(turrets)[i].cooldown_ready && old(turrets)[i].group
                == PlayerWeaponGroup::Missile && player_target.0.is_some() && (
            fire_input.missile_held || auto_fire.0) && old(turrets)[i].target.is_some()
                && old(turrets)[i].reach == TargetReach::InReach && !(old(turrets)[i].ammo matches Some(
                a,
            ) && a.current == 0) ==> shots[i] == Some(
                if fire_input.missile_held {
                    ShotCooldown::Standard
                } else {
                    ShotCooldown::AutoFirePenalty
                },
            ) && final(turrets)[i].ammo == match old(turrets)[i].ammo {
                Some(a) => Some(Ammunition { current: (a.current - 1) as u32, max: a.max }),
                None => None,
            } && final(turrets)[i].armed == old(turrets)[i].armed && final(turrets)[i].target
                == old(turrets)[i].target,
{
    let n = turrets.len();
    let mut shots: Vec<Option<ShotCooldown>> = Vec::new();
    let manual = fire_input.missile_held;
    let auto = auto_fire.0;
    let locked = player_target.0.is_some();
    let mut i: usize = 0;
    while i < n
        invariant
            n == turrets.len(),
            n == old(turrets).len(),
            i <= n,
            shots.len() == i,
            manual == fire_input.missile_held,
            auto == auto_fire.0,
            locked == player_target.0.is_some(),
            forall|q: int|
                0 <= q < i ==> #[trigger] shots[q] == if paused.0 {
                    None
                } else {
                    missile_shot(manual, auto, locked, old(turrets)[q])
                },
            forall|q: int|
                0 <= q < i ==> #[trigger] turrets[q] == missile_turret_after(shots[q], old(turrets)[q]),
            forall|q: int| i <= q < n ==> #[trigger] turrets[q] == old(turrets)[q],
        decreases n - i,
    {
        if paused.0 {
            shots.push(None);
        } else {
            let mut t = turrets[i];
            let shot = missile_decision(manual, auto, locked, &mut t);
            turrets.set(i, t);
            shots.push(shot);
        }
        i = i + 1;
    }
    shots
}

/// A missile shot never happens without a locked target, and spends exactly
/// one round from a turret that carries ammunition.
pub proof fn lemma_missile_shot_spends_one_round(manual: bool, auto: bool, locked: bool, t: MissileTurret)
    requires
        missile_shot(manual, auto, locked, t).is_some(),
    ensures
        locked,
        t.target.is_some(),
        t.ammo matches Some(a) ==> (a.current > 0 && missile_turret_after(
            missile_shot(manual, auto, locked, t),
            t,
        ).ammo == Some(Ammunition { current: (a.current - 1) as u32, ..a })),
{
}

/// An unarmed launcher or one still cooling down never fires and keeps its
/// ammunition.
pub proof fn lemma_unready_launcher_never_fires(manual: bool, auto: bool, locked: bool, t: MissileTurret)
    requires
        !t.armed || !t.cooldown_ready,
    ensures
        missile_shot(manual, auto, locked, t).is_none(),
        missile_turret_after(missile_shot(manual, auto, locked, t), t) == t,
{
}

/// A missile turret with no round left never fires.
pub proof fn lemma_empty_magazine_never_fires(manual: bool, auto: bool, locked: bool, t: MissileTurret)
    requires
        t.ammo matches Some(a) && a.current == 0,
    ensures
        missile_shot(manual, auto, locked, t).is_none(),
{
}

/// The attack a primary turret carries.
#[derive(Clone, Copy, PartialEq, Eq, Structural, Debug)]
pub enum AttackKind {
    /// Spawns a travelling bullet (gatling).
    Ballistic,
    /// Resolves instantly along a ray (lasers, flak).
    Hitscan,
}

/// What the primary firing logic reads of one turret.
#[derive(Clone, Copy, PartialEq, Eq, Structural, Debug)]
pub struct PrimaryTurret {
    pub group: PlayerWeaponGroup,
    pub armed: bool,
    pub cooldown_ready: bool,
    /// The cursor is not on top of the turret, so there is a direction to aim in.
    pub aim_clear: bool,
    /// A ballistic configuration wins over a hitscan effector; `None` when
    /// the turret carries neither.
    pub attack: Option<AttackKind>,
}

/// A primary turret's shot: its attack and the cooldown it restarts.
#[derive(Clone, Copy, PartialEq, Eq, Structural, Debug)]
pub struct PrimaryShot {
    pub attack: AttackKind,
    pub cooldown: ShotCooldown,
}

/// Whether a primary turret fires once the firing gates are open.
pub open spec fn primary_shot(manual: bool, t: PrimaryTurret) -> Option<PrimaryShot> {
    if t.group != PlayerWeaponGroup::Primary || !t.armed || !t.cooldown_ready || !t.aim_clear {
        None
    } else {
        match t.attack {
            Some(k) => Some(PrimaryShot { attack: k, cooldown: shot_cooldown(manual) }),
            None => None,
        }
    }
}

/// The gates shared by all primary turrets: not paused, the left button held
/// or auto-fire on, the cursor's world position known, and the player's team known.
pub open spec fn primary_gates_open(
    paused: bool,
    manual: bool,
    auto: bool,
    cursor_known: bool,
    player_team_known: bool,
) -> bool {
    !paused && (manual || auto) && cursor_known && player_team_known
}

/// Primary-weapon firing toward the cursor, 360 degrees around the ship.
/// Each primary turret that is armed, ready and has a direction to aim in
/// fires its attack: a bullet for a ballistic turret, a ray for a hitscan
/// one. The result gives, turret by turret, the shot fired.
pub fn player_primary_fire(
    paused: GamePaused,
    fire_input: PlayerFireInput,
    auto_fire: AutoFire,
    cursor_known: bool,
    player_team_known: bool,
    turrets: &Vec<PrimaryTurret>,
) -> (shots: Vec<Option<PrimaryShot>>)
    ensures
        shots.len() == turrets.len(),
        forall|i: int|
            0 <= i < shots.len() ==> #[trigger] shots[i] == if primary_gates_open(
                paused.0,
                fire_input.primary_held,
                auto_fire.0,
                cursor_known,
                player_team_known,
            ) {
                primary_shot(fire_input.primary_held, turrets[i])
            } else {
                None
            },
        // Only an armed, ready primary turret with a direction to aim in and
        // an attack fires, and only while the firing gates are open; it fires
        // its own attack.
        forall|i: int|
            0 <= i < shots.len() ==> (#[trigger] shots[i] matches Some(s) ==> (!paused.0 && (
            fire_input.primary_held || auto_fire.0) && cursor_known && player_team_known
                && turrets[i].group == PlayerWeaponGroup::Primary && turrets[i].armed
                && turrets[i].cooldown_ready && turrets[i].aim_clear && turrets[i].attack == Some(
                s.attack,
            ) && (s.cooldown == ShotCooldown::Standard <==> fire_input.primary_held))),
        // Such a turret always fires.
        forall|i: int|
            0 <= i < shots.len() && !paused.0 && (fire_input.primary_held || auto_fire.0)
                && cursor_known && player_team_known && (#[trigger] turrets[i]).group
                == PlayerWeaponGroup::Primary && turrets[i].armed && turrets[i].cooldown_ready
                && turrets[i].aim_clear && turrets[i].attack.is_some() ==> shots[i].is_some(),
{
    let n = turrets.len();
    let manual = fire_input.primary_held;
    let open = !paused.0 && (manual || auto_fire.0) && cursor_known && player_team_known;
    let mut shots: Vec<Option<PrimaryShot>> = Vec::new();
    let mut i: usize = 0;
    while i < n
        invariant
            n == turrets.len(),
            i <= n,
            shots.len() == i,
            manual == fire_input.primary_held,
            open == primary_gates_open(paused.0, manual, auto_fire.0, cursor_known, player_team_known),
            forall|q: int|
                0 <= q < i ==> #[trigger] shots[q] == if open {
                    primary_shot(manual, turrets[q])
                } else {
                    None
                },
        decreases n - i,
    {
        let t = turrets[i];
        let shot = if !open || t.group != PlayerWeaponGroup::Primary || !t.armed || !t.cooldown_ready
            || !t.aim_clear {
            None
        } else {
            match t.attack {
                Some(k) => Some(
                    PrimaryShot {
                        attack: k,
                        cooldown: if manual {
                            ShotCooldown::Standard
                        } else {
                            ShotCooldown::AutoFirePenalty
                        },
                    },
                ),
                None => None,
            }
        };
        shots.push(shot);
        i = i + 1;
    }
    shots
}

/// An unarmed primary turret, one still cooling down, or one without a
/// direction to aim in never fires; a fired shot is the turret's own attack.
pub proof fn lemma_unready_primary_never_fires(manual: bool, t: PrimaryTurret)
    ensures
        (!t.armed || !t.cooldown_ready || !t.aim_clear || t.group != PlayerWeaponGroup::Primary)
            ==> primary_shot(manual, t).is_none(),
        primary_shot(manual, t) matches Some(s) ==> t.attack == Some(s.attack),
{
}

/// A held button always gives the standard cooldown; only auto-fire alone
/// pays the cooldown penalty.
pub proof fn lemma_manual_fire_has_no_penalty(t: PrimaryTurret, m: MissileTurret, auto: bool, locked: bool)
    ensures
        primary_shot(true, t) matches Some(s) ==> s.cooldown == ShotCooldown::Standard,
        primary_shot(false, t) matches Some(s) ==> s.cooldown == ShotCooldown::AutoFirePenalty,
        missile_shot(true, auto, locked, m) matches Some(c) ==> c == ShotCooldown::Standard,
        missile_shot(false, auto, locked, m) matches Some(c) ==> c == ShotCooldown::AutoFirePenalty,
{
}

} // verus!
