use starship_core::targets::{
    clear_dead_target_lock, clear_targets_pointing_at_dieing, copy_targets_from_parents,
    player_lock_target_input, EntityId, HoveredEntity, PlayerTarget, Target, TargetLink,
};

fn t(e: u64) -> Target {
    Target(Some(EntityId(e)))
}

#[test]
fn children_copy_parent_target() {
    // 0: ship aiming at 7, 1 and 2: turrets, 3: entity without target component
    let mut targets = vec![Some(t(7)), Some(Target(None)), Some(t(9)), None];
    let links = vec![TargetLink { child: 1, parent: 0 }, TargetLink { child: 2, parent: 3 }];
    copy_targets_from_parents(&mut targets, &links);
    assert_eq!(targets, vec![Some(t(7)), Some(t(7)), Some(Target(None)), None]);
}

#[test]
fn child_without_target_component_stays_without() {
    let mut targets = vec![Some(t(7)), None];
    copy_targets_from_parents(&mut targets, &vec![TargetLink { child: 1, parent: 0 }]);
    assert_eq!(targets, vec![Some(t(7)), None]);
}

#[test]
fn chained_links_follow_list_order() {
    // 0 -> 1 -> 2; the link for 1 comes first, so 2 sees the new value.
    let mut targets = vec![Some(t(5)), Some(t(6)), Some(t(8))];
    let links = vec![TargetLink { child: 1, parent: 0 }, TargetLink { child: 2, parent: 1 }];
    copy_targets_from_parents(&mut targets, &links);
    assert_eq!(targets, vec![Some(t(5)), Some(t(5)), Some(t(5))]);
    let mut other = vec![Some(t(5)), Some(t(6)), Some(t(8))];
    let reversed = vec![TargetLink { child: 2, parent: 1 }, TargetLink { child: 1, parent: 0 }];
    copy_targets_from_parents(&mut other, &reversed);
    assert_eq!(other, vec![Some(t(5)), Some(t(5)), Some(t(6))]);
}

#[test]
fn dieing_targets_are_cleared() {
    let mut targets = vec![t(1), t(2), Target(None), t(3)];
    clear_targets_pointing_at_dieing(&mut targets, &vec![EntityId(2), EntityId(3)]);
    assert_eq!(targets, vec![t(1), Target(None), Target(None), Target(None)]);
}

#[test]
fn lock_takes_hovered_entity_or_clears() {
    let mut lock = PlayerTarget::default();
    let mut own = vec![Target::default()];
    player_lock_target_input(true, HoveredEntity(Some(EntityId(4))), &mut lock, &mut own);
    assert_eq!(lock, PlayerTarget(Some(EntityId(4))));
    assert_eq!(own, vec![t(4)]);
    player_lock_target_input(false, HoveredEntity(None), &mut lock, &mut own);
    assert_eq!(lock, PlayerTarget(Some(EntityId(4))));
    player_lock_target_input(true, HoveredEntity::default(), &mut lock, &mut own);
    assert_eq!(lock, PlayerTarget(None));
    assert_eq!(own, vec![Target(None)]);
}

#[test]
fn dead_or_dieing_lock_is_dropped() {
    let mut lock = PlayerTarget(Some(EntityId(4)));
    let mut own = vec![t(4)];
    clear_dead_target_lock(&mut lock, true, false, &mut own);
    assert_eq!(lock, PlayerTarget(Some(EntityId(4))));
    clear_dead_target_lock(&mut lock, true, true, &mut own);
    assert_eq!(lock, PlayerTarget(None));
    assert_eq!(own, vec![Target(None)]);
    let mut lock2 = PlayerTarget(Some(EntityId(9)));
    let mut own2 = vec![t(9), t(9)];
    clear_dead_target_lock(&mut lock2, false, false, &mut own2);
    assert_eq!(lock2, PlayerTarget(None));
    assert_eq!(own2, vec![Target(None), Target(None)]);
}
