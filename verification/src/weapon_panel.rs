//! Weapon panel logic: the per-turret enable switch, the switch's state and
//! label, the ammunition readout, and which rows outlive their turret.

use vstd::prelude::*;

use crate::controls::toggled;
use crate::firing::Ammunition;
use crate::targets::EntityId;

verus! {

/// User-controlled enable flag for a turret. When false, the turret is not
/// armed regardless of its power state.
#[derive(Clone, Copy, PartialEq, Eq, Structural, Debug)]
pub struct WeaponEnabled(pub bool);

/// Placed on each weapon of the player ship.
#[derive(Clone, Copy, PartialEq, Eq, Structural, Debug)]
pub struct WeaponSlot {
    /// Ordering index (lower = powered first).
    pub index: u32,
    /// How many energy cells this weapon needs.
    pub power_cost: u32,
    /// Whether the weapon currently has power.
    pub powered: bool,
}

/// Number of times `turret` occurs among the clicked switches.
pub open spec fn click_count(clicks: Seq<usize>, turret: int) -> nat
    decreases clicks.len(),
{
    if clicks.len() == 0 {
        0
    } else {
        click_count(clicks.drop_last(), turret) + if clicks.last() == turret {
            1nat
        } else {
            0nat
        }
    }
}

/// Each press of a turret's switch flips its enable flag. `clicks` lists,
/// in order, the turrets (positions in `enabled`) whose switch was pressed.
pub fn handle_toggle_clicks(enabled: &mut Vec<WeaponEnabled>, clicks: &Vec<usize>)
    requires
        forall|k: int| 0 <= k < clicks.len() ==> #[trigger] clicks[k] < old(enabled).len(),
    ensures
        final(enabled).len() == old(enabled).len(),
        forall|i: int|
            0 <= i < final(enabled).len() ==> (#[trigger] final(enabled)[i]).0 == (old(enabled)[i].0
                != (click_count(clicks@, i) % 2 == 1)),
        // A turret whose switch was not pressed keeps its flag; one pressed
        // once has it flipped.
        forall|i: int|
            0 <= i < final(enabled).len() && !clicks@.contains(i as usize)
                ==> (#[trigger] final(enabled)[i]) == old(enabled)[i],
        forall|i: int|
            0 <= i < final(enabled).len() && clicks@ == seq![i as usize]
                ==> (#[trigger] final(enabled)[i]).0 != old(enabled)[i].0,
{
    proof {
        assert forall|i: int| 0 <= i < old(enabled).len() && !clicks@.contains(i as usize) implies click_count(
            clicks@,
            i,
        ) == 0 by {
            lemma_click_count_absent(clicks@, i);
        }
        assert forall|i: int| 0 <= i < old(enabled).len() && clicks@ == seq![i as usize] implies click_count(
            clicks@,
            i,
        ) == 1 by {
            assert(clicks@.drop_last() =~= Seq::<usize>::empty());
            assert(click_count(Seq::<usize>::empty(), i) == 0);
            assert(clicks@.last() == i as usize);
            assert((i as usize) as int == i);
        }
    }
    let n = clicks.len();
    let mut k: usize = 0;
    while k < n
        invariant
            n == clicks.len(),
            k <= n,
            enabled.len() == old(enabled).len(),
            forall|q: int| 0 <= q < clicks.len() ==> #[trigger] clicks[q] < enabled.len(),
            forall|i: int|
                0 <= i < enabled.len() ==> (#[trigger] enabled[i]).0 == (old(enabled)[i].0 != (
                click_count(clicks@.take(k as int), i) % 2 == 1)),
        decreases n - k,
    {
        let c = clicks[k];
        proof {
            assert(clicks@.take(k + 1).drop_last() =~= clicks@.take(k as int));
            assert(clicks@.take(k + 1).last() == c);
        }
        let flag = enabled[c].0;
        enabled.set(c, WeaponEnabled(!flag));
        k = k + 1;
    }
    proof {
        assert(clicks@.take(n as int) =~= clicks@);
    }
}

/// A turret not among the clicks is pressed zero times.
pub proof fn lemma_click_count_absent(clicks: Seq<usize>, turret: int)
    requires
        0 <= turret,
        !clicks.contains(turret as usize),
    ensures
        click_count(clicks, turret) == 0,
    decreases clicks.len(),
{
    if clicks.len() > 0 {
        assert(!clicks.drop_last().contains(turret as usize)) by {
            if clicks.drop_last().contains(turret as usize) {
                let k = choose|k: int| 0 <= k < clicks.drop_last().len() && clicks.drop_last()[k] == turret as usize;
                assert(clicks[k] == turret as usize);
            }
        }
        lemma_click_count_absent(clicks.drop_last(), turret);
        assert(clicks.last() != turret as usize) by {
            assert(clicks[clicks.len() - 1] == clicks.last());
        }
    }
}

/// Pressing the same turret's switch twice leaves it as it was.
pub proof fn lemma_double_click_restores(enabled: bool, turret: usize)
    ensures
        click_count(seq![turret, turret], turret as int) % 2 == 0,
        toggled(toggled(enabled, true), true) == enabled,
{
    assert(seq![turret, turret].drop_last() =~= seq![turret]);
    assert(seq![turret].drop_last() =~= Seq::<usize>::empty());
    assert(click_count(Seq::<usize>::empty(), turret as int) == 0);
    assert(click_count(seq![turret], turret as int) == 1);
    assert(click_count(seq![turret, turret], turret as int) == 2);
}

/// What a turret's switch shows.
#[derive(Clone, Copy, PartialEq, Eq, Structural, Debug)]
pub enum ToggleState {
    /// Disabled by the user.
    Off,
    /// Enabled but without power.
    NoPower,
    /// Enabled and powered.
    On,
}

/// The switch state; a deliberate OFF is not masked by a lack of power.
pub fn weapon_toggle_state(enabled: WeaponEnabled, slot: WeaponSlot) -> (state: ToggleState)
    ensures
        state == if !enabled.0 {
            ToggleState::Off
        } else if !slot.powered {
            ToggleState::NoPower
        } else {
            ToggleState::On
        },
{
    if !enabled.0 {
        ToggleState::Off
    } else if !slot.powered {
        ToggleState::NoPower
    } else {
        ToggleState::On
    }
}

/// The switch's label text.
pub fn toggle_label(state: ToggleState) -> (label: &'static str)
    ensures
        label@ == match state {
            ToggleState::Off => seq!['O', 'F', 'F'],
            ToggleState::NoPower => seq!['P', 'W', 'R'],
            ToggleState::On => seq!['O', 'N'],
        },
{
    match state {
        ToggleState::Off => {
            proof {
                reveal_strlit("OFF");
            }
            "OFF"
        },
        ToggleState::NoPower => {
            proof {
                reveal_strlit("PWR");
            }
            "PWR"
        },
        ToggleState::On => {
            proof {
                reveal_strlit("ON");
            }
            "ON"
        },
    }
}

/// The character of a decimal digit.
pub open spec fn digit_char(d: nat) -> char {
    seq!['0', '1', '2', '3', '4', '5', '6', '7', '8', '9'][d as int]
}

/// Decimal notation of `n`, without leading zeros.
pub open spec fn decimal(n: nat) -> Seq<char>
    decreases n,
{
    if n < 10 {
        seq![digit_char(n)]
    } else {
        decimal(n / 10).push(digit_char(n % 10))
    }
}

/// An ASCII decimal digit.
pub open spec fn is_digit(c: char) -> bool {
    48 <= (c as int) <= 57
}

/// The number a string of ASCII decimal digits denotes.
pub open spec fn digits_value(s: Seq<char>) -> int
    decreases s.len(),
{
    if s.len() == 0 {
        0
    } else {
        digits_value(s.drop_last()) * 10 + ((s.last() as int) - 48)
    }
}

/// `s` is `n` in standard decimal: ASCII digits denoting `n`, with no
/// leading zero except for zero itself.
pub open spec fn standard_decimal_of(s: Seq<char>, n: int) -> bool {
    &&& s.len() >= 1
    &&& forall|i: int| 0 <= i < s.len() ==> is_digit(#[trigger] s[i])
    &&& digits_value(s) == n
    &&& (s[0] == '0' ==> s.len() == 1)
}

/// `t` is `c/m` written in standard decimal.
pub open spec fn shows_fraction(t: Seq<char>, c: int, m: int) -> bool {
    exists|k: int|
        0 <= k < t.len() && #[trigger] t[k] == '/' && standard_decimal_of(t.take(k), c)
            && standard_decimal_of(t.skip(k + 1), m)
}

/// Each digit character is the ASCII digit of its value.
pub proof fn lemma_digit_char_is_ascii_digit(d: nat)
    requires
        d < 10,
    ensures
        digit_char(d) as int == 48 + d,
{
    if d == 0 {
        assert(digit_char(0) == '0');
    } else if d == 1 {
        assert(digit_char(1) == '1');
    } else if d == 2 {
        assert(digit_char(2) == '2');
    } else if d == 3 {
        assert(digit_char(3) == '3');
    } else if d == 4 {
        assert(digit_char(4) == '4');
    } else if d == 5 {
        assert(digit_char(5) == '5');
    } else if d == 6 {
        assert(digit_char(6) == '6');
    } else if d == 7 {
        assert(digit_char(7) == '7');
    } else if d == 8 {
        assert(digit_char(8) == '8');
    } else {
        assert(digit_char(9) == '9');
    }
}

/// `decimal(n)` is `n` in standard decimal: reading its digits back gives `n`.
pub proof fn lemma_decimal_denotes(n: nat)
    ensures
        standard_decimal_of(decimal(n), n as int),
    decreases n,
{
    if n < 10 {
        lemma_digit_char_is_ascii_digit(n);
        let s = decimal(n);
        assert(s.drop_last() =~= Seq::<char>::empty());
        assert(digits_value(Seq::<char>::empty()) == 0);
    } else {
        let q = n / 10;
        let r = n % 10;
        lemma_decimal_denotes(q);
        lemma_digit_char_is_ascii_digit(r);
        let p = decimal(q);
        let s = decimal(n);
        assert(s == p.push(digit_char(r)));
        assert(s.drop_last() =~= p);
        assert(s[0] == p[0]);
        if p[0] == '0' {
            assert(p.len() == 1);
            assert(digits_value(p.drop_last()) == 0) by {
                assert(p.drop_last() =~= Seq::<char>::empty());
            }
            assert(q == 0);
        }
    }
}

/// The ammunition readout shows `current/max` in standard decimal.
pub proof fn lemma_ammo_readout_shows_counts(a: Ammunition)
    ensures
        shows_fraction(ammo_readout(Some(a)), a.current as int, a.max as int),
{
    let c = decimal(a.current as nat);
    let m = decimal(a.max as nat);
    let t = ammo_readout(Some(a));
    lemma_decimal_denotes(a.current as nat);
    lemma_decimal_denotes(a.max as nat);
    let k = c.len() as int;
    assert(t.take(k) =~= c);
    assert(t.skip(k + 1) =~= m);
    assert(t[k] == '/');
}

fn digit_str(d: u32) -> (s: &'static str)
    requires
        d < 10,
    ensures
        s@ == seq![digit_char(d as nat)],
{
    proof {
        reveal_strlit("0");
        reveal_strlit("1");
        reveal_strlit("2");
        reveal_strlit("3");
        reveal_strlit("4");
        reveal_strlit("5");
        reveal_strlit("6");
        reveal_strlit("7");
        reveal_strlit("8");
        reveal_strlit("9");
    }
    match d {
        0 => "0",
        1 => "1",
        2 => "2",
        3 => "3",
        4 => "4",
        5 => "5",
        6 => "6",
        7 => "7",
        8 => "8",
        _ => "9",
    }
}

/// Appends the decimal notation of `n`.
fn push_decimal(s: &mut String, n: u32)
    ensures
        final(s)@ == old(s)@ + decimal(n as nat),
    decreases n,
{
    if n >= 10 {
        push_decimal(s, n / 10);
    }
    let d = digit_str(n % 10);
    s.append(d);
    proof {
        if n >= 10 {
            assert(decimal(n as nat) == decimal((n / 10) as nat).push(digit_char((n % 10) as nat)));
        }
    }
}

/// The ammunition readout: `current/max`, empty for a weapon without ammunition.
pub open spec fn ammo_readout(ammo: Option<Ammunition>) -> Seq<char> {
    match ammo {
        Some(a) => decimal(a.current as nat) + seq!['/'] + decimal(a.max as nat),
        None => seq![],
    }
}

/// The ammunition readout of a turret's row.
pub fn ammo_text(ammo: Option<Ammunition>) -> (text: String)
    ensures
        text@ == ammo_readout(ammo),
        ammo.is_none() ==> text@.len() == 0,
        ammo matches Some(a) ==> shows_fraction(text@, a.current as int, a.max as int),
{
    proof {
        if let Some(a) = ammo {
            lemma_ammo_readout_shows_counts(a);
        }
    }
    let mut text = String::new();
    if let Some(a) = ammo {
        push_decimal(&mut text, a.current);
        proof {
            reveal_strlit("/");
        }
        text.append("/");
        push_decimal(&mut text, a.max);
        assert(text@ =~= ammo_readout(ammo));
    }
    text
}

/// Positions of the panel rows whose turret is gone: row `i` shows turret
/// `row_turrets[i]`; `live_turrets` are the player turrets that still exist.
/// The positions come in increasing order.
pub fn cleanup_dead_rows(row_turrets: &Vec<EntityId>, live_turrets: &Vec<EntityId>) -> (dead: Vec<usize>)
    ensures
        forall|k: int|
            0 <= k < dead.len() ==> #[trigger] dead[k] < row_turrets.len() && !live_turrets@.contains(
                row_turrets[dead[k] as int],
            ),
        forall|a: int, b: int| 0 <= a < b < dead.len() ==> #[trigger] dead[a] < #[trigger] dead[b],
        forall|i: int|
            0 <= i < row_turrets.len() && !live_turrets@.contains(#[trigger] row_turrets[i])
                ==> dead@.contains(i as usize),
{
    let n = row_turrets.len();
    let mut dead: Vec<usize> = Vec::new();
    let mut i: usize = 0;
    while i < n
        invariant
            n == row_turrets.len(),
            i <= n,
            forall|k: int|
                0 <= k < dead.len() ==> #[trigger] dead[k] < i && !live_turrets@.contains(
                    row_turrets[dead[k] as int],
                ),
            forall|a: int, b: int| 0 <= a < b < dead.len() ==> #[trigger] dead[a] < #[trigger] dead[b],
            forall|q: int|
                0 <= q < i && !live_turrets@.contains(#[trigger] row_turrets[q]) ==> dead@.contains(
                    q as usize,
                ),
        decreases n - i,
    {
        let mut live = false;
        let m = live_turrets.len();
        let mut j: usize = 0;
        while j < m
            invariant
                m == live_turrets.len(),
                n == row_turrets.len(),
                i < n,
                j <= m,
                live == exists|q: int| 0 <= q < j && live_turrets@[q] == row_turrets@[i as int],
            decreases m - j,
        {
            if live_turrets[j] == row_turrets[i] {
                live = true;
            }
            j = j + 1;
        }
        assert(live == live_turrets@.contains(row_turrets@[i as int]));
        if !live {
            let ghost before = dead@;
            dead.push(i);
            assert forall|q: int|
                0 <= q < i + 1 && !live_turrets@.contains(#[trigger] row_turrets[q]) implies dead@.contains(
                q as usize,
            ) by {
                if q < i {
                    let k = choose|k: int| 0 <= k < before.len() && before[k] == q as usize;
                    assert(dead@[k] == q as usize);
                } else {
                    assert(dead@[dead.len() - 1] == i);
                }
            }
        }
        i = i + 1;
    }
    dead
}

} // verus!
