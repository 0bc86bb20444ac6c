//! Game-flow controls: tactical pause, game speed steps, auto-fire and the
//! mouse fire buttons.

use vstd::prelude::*;

verus! {

/// Number of game speed steps (x0.25, x0.5, x1, x2).
pub const GAME_SPEED_STEP_COUNT: usize = 4;

/// The step of the default game speed (x1); also the step assumed when the
/// current speed matches no step.
pub const DEFAULT_GAME_SPEED_STEP: usize = 2;

/// Is the game paused (tactical pause)?
#[derive(Clone, Copy, PartialEq, Eq, Structural, Debug)]
pub struct GamePaused(pub bool);

/// Whether weapons fire automatically. Off by default.
#[derive(Clone, Copy, PartialEq, Eq, Structural, Debug)]
pub struct AutoFire(pub bool);

/// Per-frame mouse-button state: left = primary weapons, right = missiles.
#[derive(Clone, Copy, PartialEq, Eq, Structural, Debug)]
pub struct PlayerFireInput {
    pub primary_held: bool,
    pub missile_held: bool,
}

impl Default for GamePaused {
    fn default() -> (p: Self)
        ensures
            !p.0,
    {
        GamePaused(false)
    }
}

impl Default for AutoFire {
    fn default() -> (a: Self)
        ensures
            !a.0,
    {
        AutoFire(false)
    }
}

impl Default for PlayerFireInput {
    fn default() -> (f: Self)
        ensures
            !f.primary_held,
            !f.missile_held,
    {
        PlayerFireInput { primary_held: false, missile_held: false }
    }
}

/// A flag after a toggle key: flipped when the key was pressed.
pub open spec fn toggled(flag: bool, pressed: bool) -> bool {
    if pressed {
        !flag
    } else {
        flag
    }
}

/// Space toggles the tactical pause.
pub fn player_pause_input(space_pressed: bool, paused: &mut GamePaused)
    ensures
        final(paused).0 == toggled(old(paused).0, space_pressed),
        space_pressed ==> final(paused).0 != old(paused).0,
        !space_pressed ==> final(paused).0 == old(paused).0,
{
    if space_pressed {
        paused.0 = !paused.0;
    }
}

/// F toggles auto-fire.
pub fn player_auto_fire_input(f_pressed: bool, auto_fire: &mut AutoFire)
    ensures
        final(auto_fire).0 == toggled(old(auto_fire).0, f_pressed),
        f_pressed ==> final(auto_fire).0 != old(auto_fire).0,
        !f_pressed ==> final(auto_fire).0 == old(auto_fire).0,
{
    if f_pressed {
        auto_fire.0 = !auto_fire.0;
    }
}

/// Samples the mouse buttons; while paused neither group is held.
pub fn player_mouse_fire_input(
    left_pressed: bool,
    right_pressed: bool,
    paused: GamePaused,
    fire_input: &mut PlayerFireInput,
)
    ensures
        final(fire_input).primary_held == (!paused.0 && left_pressed),
        final(fire_input).missile_held == (!paused.0 && right_pressed),
{
    if paused.0 {
        fire_input.primary_held = false;
        fire_input.missile_held = false;
        return;
    }
    fire_input.primary_held = left_pressed;
    fire_input.missile_held = right_pressed;
}

/// The speed step after the +/- keys: + moves one step up (stopping at the
/// fastest), - one step down (stopping at the slowest), both read from the
/// step at the start of the frame, so - wins when both are pressed.
pub open spec fn speed_step_after(current: Option<usize>, faster: bool, slower: bool) -> usize {
    let cur = match current {
        Some(i) => i,
        None => DEFAULT_GAME_SPEED_STEP,
    };
    if slower {
        if cur > 0 {
            (cur - 1) as usize
        } else {
            0
        }
    } else if cur + 1 < GAME_SPEED_STEP_COUNT {
        (cur + 1) as usize
    } else {
        (GAME_SPEED_STEP_COUNT - 1) as usize
    }
}

/// +/- cycle through the game speed steps. `current_step` is the step the
/// current speed matches, if any. Returns the step to switch to, or `None`
/// when the speed stays as it is (paused, or neither key pressed).
pub fn player_speed_input(paused: GamePaused, current_step: Option<usize>, faster: bool, slower: bool) -> (new_step: Option<usize>)
    requires
        current_step matches Some(i) ==> i < GAME_SPEED_STEP_COUNT,
    ensures
        (paused.0 || (!faster && !slower)) ==> new_step.is_none(),
        (!paused.0 && (faster || slower)) ==> new_step == Some(
            speed_step_after(current_step, faster, slower),
        ),
        new_step matches Some(i) ==> i < GAME_SPEED_STEP_COUNT,
        // + alone moves one step up unless already fastest; - moves one step down unless slowest.
        (!paused.0 && faster && !slower && current_step.is_some() && current_step.unwrap() + 1
            < GAME_SPEED_STEP_COUNT) ==> new_step == Some((current_step.unwrap() + 1) as usize),
        (!paused.0 && faster && !slower && current_step.is_some() && current_step.unwrap() + 1
            >= GAME_SPEED_STEP_COUNT) ==> new_step == current_step,
        (!paused.0 && slower && current_step.is_some() && current_step.unwrap() > 0) ==> new_step
            == Some((current_step.unwrap() - 1) as usize),
        (!paused.0 && slower && current_step == Some(0usize)) ==> new_step == Some(0usize),
{
    if paused.0 {
        return None;
    }
    let current = match current_step {
        Some(i) => i,
        None => DEFAULT_GAME_SPEED_STEP,
    };
    let mut result: Option<usize> = None;
    if faster {
        let up = if current + 1 < GAME_SPEED_STEP_COUNT {
            current + 1
        } else {
            GAME_SPEED_STEP_COUNT - 1
        };
        result = Some(up);
    }
    if slower {
        let down = if current > 0 {
            current - 1
        } else {
            0
        };
        result = Some(down);
    }
    result
}

/// Ship-relative thrust requested along the forward axis.
#[derive(Clone, Copy, PartialEq, Eq, Structural, Debug)]
pub enum LongitudinalInput {
    Forward,
    /// Reduced-strength backward thrust.
    Reverse,
    Coast,
}

/// Ship-relative thrust requested along the sideways axis.
#[derive(Clone, Copy, PartialEq, Eq, Structural, Debug)]
pub enum LateralInput {
    Left,
    Right,
    Coast,
}

/// Twin-stick movement keys: W thrusts forward (winning over S, which
/// reverses), A strafes left (winning over D, which strafes right).
pub fn movement_input(forward: bool, back: bool, left: bool, right: bool) -> (axes: (
    LongitudinalInput,
    LateralInput,
))
    ensures
        axes.0 == if forward {
            LongitudinalInput::Forward
        } else if back {
            LongitudinalInput::Reverse
        } else {
            LongitudinalInput::Coast
        },
        axes.1 == if left {
            LateralInput::Left
        } else if right {
            LateralInput::Right
        } else {
            LateralInput::Coast
        },
{
    let longitudinal = if forward {
        LongitudinalInput::Forward
    } else if back {
        LongitudinalInput::Reverse
    } else {
        LongitudinalInput::Coast
    };
    let lateral = if left {
        LateralInput::Left
    } else if right {
        LateralInput::Right
    } else {
        LateralInput::Coast
    };
    (longitudinal, lateral)
}

/// Pressing + and then - returns to the starting step unless it was already
/// the fastest; pressing - and then + returns unless it was the slowest.
pub proof fn lemma_speed_steps_undo(i: usize)
    requires
        i < GAME_SPEED_STEP_COUNT,
    ensures
        i + 1 < GAME_SPEED_STEP_COUNT ==> speed_step_after(
            Some(speed_step_after(Some(i), true, false)),
            false,
            true,
        ) == i,
        i > 0 ==> speed_step_after(Some(speed_step_after(Some(i), false, true)), true, false) == i,
{
}

/// Pressing a toggle key twice restores the flag (pause, auto-fire,
/// a weapon's enable switch).
pub proof fn lemma_toggle_twice(flag: bool)
    ensures
        toggled(toggled(flag, true), true) == flag,
{
}

} // verus!
