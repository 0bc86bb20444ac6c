//! Display decisions for the HUD, the targeting rings, the ship shader and
//! the thruster flames.

use vstd::prelude::*;

use crate::controls::GamePaused;
use crate::targets::{HoveredEntity, PlayerTarget};

verus! {

/// Tint of a ship's team mask.
#[derive(Clone, Copy, PartialEq, Eq, Structural, Debug)]
pub enum TeamColor {
    Red,
    Blue,
    Gray,
}

/// Team 1 is tinted red, team 2 blue, any other team gray.
pub fn team_color(team: u32) -> (c: TeamColor)
    ensures
        c == if team == 1 {
            TeamColor::Red
        } else if team == 2 {
            TeamColor::Blue
        } else {
            TeamColor::Gray
        },
{
    match team {
        1 => TeamColor::Red,
        2 => TeamColor::Blue,
        _ => TeamColor::Gray,
    }
}

/// Which way a thruster nozzle pushes the ship.
#[derive(Clone, Copy, PartialEq, Eq, Structural, Debug)]
pub enum ThrusterDir {
    Forward,
    Reverse,
    StrafeLeft,
    StrafeRight,
}

/// The intensity a thruster flame heads for.
#[derive(Clone, Copy, PartialEq, Eq, Structural, Debug)]
pub enum ThrustLevel {
    Off,
    /// The reduced reverse thrust.
    Reverse,
    Full,
}

/// The movement keys held this frame.
#[derive(Clone, Copy, PartialEq, Eq, Structural, Debug)]
pub struct MovementKeys {
    pub forward: bool,
    pub back: bool,
    pub left: bool,
    pub right: bool,
}

/// W drives the forward nozzle, S the reverse one (at reverse strength),
/// A the strafe-left nozzle and D the strafe-right one; all flames die down
/// while paused.
pub fn thruster_target_level(dir: ThrusterDir, paused: GamePaused, keys: MovementKeys) -> (level: ThrustLevel)
    ensures
        level == if paused.0 {
            ThrustLevel::Off
        } else {
            match dir {
                ThrusterDir::Forward => if keys.forward {
                    ThrustLevel::Full
                } else {
                    ThrustLevel::Off
                },
                ThrusterDir::Reverse => if keys.back {
                    ThrustLevel::Reverse
                } else {
                    ThrustLevel::Off
                },
                ThrusterDir::StrafeLeft => if keys.left {
                    ThrustLevel::Full
                } else {
                    ThrustLevel::Off
                },
                ThrusterDir::StrafeRight => if keys.right {
                    ThrustLevel::Full
                } else {
                    ThrustLevel::Off
                },
            }
        },
{
    let active = !paused.0;
    let pressed = match dir {
        ThrusterDir::Forward => keys.forward,
        ThrusterDir::Reverse => keys.back,
        ThrusterDir::StrafeLeft => keys.left,
        ThrusterDir::StrafeRight => keys.right,
    };
    if !(active && pressed) {
        ThrustLevel::Off
    } else if dir == ThrusterDir::Reverse {
        ThrustLevel::Reverse
    } else {
        ThrustLevel::Full
    }
}

/// The cursor-hover ring.
#[derive(Clone, Copy, PartialEq, Eq, Structural, Debug)]
pub enum HoverRing {
    Hidden,
    /// Shown in the friendly color.
    Friendly,
    /// Shown in the enemy color.
    Enemy,
}

/// The hover ring: hidden when nothing is hovered, when the hovered entity
/// is the locked one (its lock ring already shows), when the hovered entity
/// has no position, hitbox or team (`hovered_team` is `None`), or when the
/// player's team is unknown; otherwise friendly for a teammate, enemy else.
pub fn update_hover_indicator(
    hovered: HoveredEntity,
    locked: PlayerTarget,
    hovered_team: Option<u32>,
    player_team: Option<u32>,
) -> (ring: HoverRing)
    ensures
        ring == match (hovered.0, hovered_team, player_team) {
            (Some(h), Some(ht), Some(pt)) => if locked.0 == Some(h) {
                HoverRing::Hidden
            } else if ht == pt {
                HoverRing::Friendly
            } else {
                HoverRing::Enemy
            },
            _ => HoverRing::Hidden,
        },
{
    let h = match hovered.0 {
        Some(h) => h,
        None => return HoverRing::Hidden,
    };
    if locked.0 == Some(h) {
        return HoverRing::Hidden;
    }
    let ht = match hovered_team {
        Some(t) => t,
        None => return HoverRing::Hidden,
    };
    let pt = match player_team {
        Some(t) => t,
        None => return HoverRing::Hidden,
    };
    if ht == pt {
        HoverRing::Friendly
    } else {
        HoverRing::Enemy
    }
}

/// The lock ring shows when a target is locked and its position and hitbox
/// can be read (`target_found`).
pub fn update_lock_indicator(locked: PlayerTarget, target_found: bool) -> (visible: bool)
    ensures
        visible == (locked.0.is_some() && target_found),
{
    locked.0.is_some() && target_found
}

/// The target panel text: "No target" without a lock, "Target lost" when the
/// locked entity has no health or position (`target_found` false), and the
/// tracking line otherwise.
pub fn update_target_info(locked: PlayerTarget, target_found: bool, tracking_text: &str) -> (text: String)
    ensures
        text@ == if locked.0.is_none() {
            "No target"@
        } else if !target_found {
            "Target lost"@
        } else {
            tracking_text@
        },
{
    if locked.0.is_none() {
        String::from_str("No target")
    } else if !target_found {
        String::from_str("Target lost")
    } else {
        String::from_str(tracking_text)
    }
}

/// The speed panel text: "PAUSED" or the speed, then the auto-target
/// state, then the hold-fire marker when hold-fire is on.
pub open spec fn game_speed_line(paused: bool, speed: Seq<char>, auto_target: bool, hold_fire: bool) -> Seq<char> {
    (if paused {
        "PAUSED"@
    } else {
        speed
    }) + " | "@ + (if auto_target {
        "[T] Auto-Target: ON"@
    } else {
        "[T] Auto-Target: OFF"@
    }) + (if hold_fire {
        " | [F] HOLD FIRE"@
    } else {
        Seq::<char>::empty()
    })
}

/// Builds the speed panel text; `speed_text` is the formatted game speed.
pub fn update_game_speed_text(paused: GamePaused, speed_text: &str, auto_target: bool, hold_fire: bool) -> (text: String)
    ensures
        text@ == game_speed_line(paused.0, speed_text@, auto_target, hold_fire),
{
    let mut text = if paused.0 {
        String::from_str("PAUSED")
    } else {
        String::from_str(speed_text)
    };
    text.append(" | ");
    if auto_target {
        text.append("[T] Auto-Target: ON");
    } else {
        text.append("[T] Auto-Target: OFF");
    }
    if hold_fire {
        text.append(" | [F] HOLD FIRE");
    }
    assert(text@ =~= game_speed_line(paused.0, speed_text@, auto_target, hold_fire));
    text
}

} // verus!
