use starship_core::controls::{AutoFire, GamePaused, PlayerFireInput};
use starship_core::firing::{
    player_fire_missiles, player_primary_fire, Ammunition, AttackKind, MissileTurret,
    PlayerWeaponGroup, PrimaryShot, PrimaryTurret, ShotCooldown, TargetReach,
};
use starship_core::targets::{EntityId, PlayerTarget};

fn launcher(ammo: Option<u32>) -> MissileTurret {
    MissileTurret {
        group: PlayerWeaponGroup::Missile,
        armed: true,
        cooldown_ready: true,
        target: Some(EntityId(3)),
        reach: TargetReach::InReach,
        ammo: ammo.map(|c| Ammunition { current: c, max: 12 }),
    }
}

fn held(primary: bool, missile: bool) -> PlayerFireInput {
    PlayerFireInput { primary_held: primary, missile_held: missile }
}

#[test]
fn missile_fires_and_spends_a_round() {
    let mut turrets = vec![launcher(Some(8))];
    let shots = player_fire_missiles(GamePaused(false), held(false, true), AutoFire(false), PlayerTarget(Some(EntityId(3))), &mut turrets);
    assert_eq!(shots, vec![Some(ShotCooldown::Standard)]);
    assert_eq!(turrets[0].ammo, Some(Ammunition { current: 7, max: 12 }));
}

#[test]
fn empty_magazine_does_not_fire() {
    let mut turrets = vec![launcher(Some(0))];
    let shots = player_fire_missiles(GamePaused(false), held(false, true), AutoFire(false), PlayerTarget(Some(EntityId(3))), &mut turrets);
    assert_eq!(shots, vec![None]);
    assert_eq!(turrets[0].ammo, Some(Ammunition { current: 0, max: 12 }));
}

#[test]
fn missile_needs_lock_button_and_reach() {
    let lock = PlayerTarget(Some(EntityId(3)));
    let mut a = vec![launcher(None)];
    assert_eq!(player_fire_missiles(GamePaused(false), held(false, true), AutoFire(false), PlayerTarget(None), &mut a), vec![None]);
    assert_eq!(player_fire_missiles(GamePaused(false), held(false, false), AutoFire(false), lock, &mut a), vec![None]);
    assert_eq!(player_fire_missiles(GamePaused(true), held(false, true), AutoFire(true), lock, &mut a), vec![None]);
    let mut far = vec![MissileTurret { reach: TargetReach::OutOfRange, ..launcher(None) }];
    assert_eq!(player_fire_missiles(GamePaused(false), held(false, true), AutoFire(false), lock, &mut far), vec![None]);
    let mut primary = vec![MissileTurret { group: PlayerWeaponGroup::Primary, ..launcher(None) }];
    assert_eq!(player_fire_missiles(GamePaused(false), held(false, true), AutoFire(false), lock, &mut primary), vec![None]);
}

#[test]
fn auto_fire_alone_pays_cooldown_penalty() {
    let mut turrets = vec![launcher(None), MissileTurret { armed: false, ..launcher(Some(2)) }];
    let shots = player_fire_missiles(GamePaused(false), held(false, false), AutoFire(true), PlayerTarget(Some(EntityId(3))), &mut turrets);
    assert_eq!(shots, vec![Some(ShotCooldown::AutoFirePenalty), None]);
    assert_eq!(turrets[1].ammo, Some(Ammunition { current: 2, max: 12 }));
}

fn gun(attack: Option<AttackKind>) -> PrimaryTurret {
    PrimaryTurret { group: PlayerWeaponGroup::Primary, armed: true, cooldown_ready: true, aim_clear: true, attack }
}

#[test]
fn primary_turrets_fire_their_attack() {
    let turrets = vec![
        gun(Some(AttackKind::Ballistic)),
        gun(Some(AttackKind::Hitscan)),
        gun(None),
        PrimaryTurret { cooldown_ready: false, ..gun(Some(AttackKind::Hitscan)) },
        PrimaryTurret { aim_clear: false, ..gun(Some(AttackKind::Hitscan)) },
        PrimaryTurret { group: PlayerWeaponGroup::Missile, ..gun(Some(AttackKind::Hitscan)) },
    ];
    let shots = player_primary_fire(GamePaused(false), held(true, false), AutoFire(false), true, true, &turrets);
    assert_eq!(
        shots,
        vec![
            Some(PrimaryShot { attack: AttackKind::Ballistic, cooldown: ShotCooldown::Standard }),
            Some(PrimaryShot { attack: AttackKind::Hitscan, cooldown: ShotCooldown::Standard }),
            None,
            None,
            None,
            None,
        ]
    );
}

#[test]
fn primary_gates_close_all_turrets() {
    let turrets = vec![gun(Some(AttackKind::Hitscan))];
    assert_eq!(player_primary_fire(GamePaused(true), held(true, false), AutoFire(true), true, true, &turrets), vec![None]);
    assert_eq!(player_primary_fire(GamePaused(false), held(false, false), AutoFire(false), true, true, &turrets), vec![None]);
    assert_eq!(player_primary_fire(GamePaused(false), held(true, false), AutoFire(false), false, true, &turrets), vec![None]);
    assert_eq!(player_primary_fire(GamePaused(false), held(true, false), AutoFire(false), true, false, &turrets), vec![None]);
    assert_eq!(
        player_primary_fire(GamePaused(false), held(false, false), AutoFire(true), true, true, &turrets),
        vec![Some(PrimaryShot { attack: AttackKind::Hitscan, cooldown: ShotCooldown::AutoFirePenalty })]
    );
}
