//! Targeting state: who each shooter aims at, the player's locked target,
//! and the entity under the cursor.

use vstd::prelude::*;

verus! {

/// Identity of a world entity, as the bits the ECS gives it.
#[derive(Clone, Copy, PartialEq, Eq, Structural, Debug, Hash)]
pub struct EntityId(pub u64);

/// The entity a shooter currently aims at, if any.
#[derive(Clone, Copy, PartialEq, Eq, Structural, Debug)]
pub struct Target(pub Option<EntityId>);

/// Which entity the player has selected as target.
#[derive(Clone, Copy, PartialEq, Eq, Structural, Debug)]
pub struct PlayerTarget(pub Option<EntityId>);

/// The entity currently under the mouse cursor (if any), excluding the player.
#[derive(Clone, Copy, PartialEq, Eq, Structural, Debug)]
pub struct HoveredEntity(pub Option<EntityId>);

impl Default for Target {
    fn default() -> (t: Self)
        ensures
            t.0.is_none(),
    {
        Target(None)
    }
}

impl Default for PlayerTarget {
    fn default() -> (t: Self)
        ensures
            t.0.is_none(),
    {
        PlayerTarget(None)
    }
}

impl Default for HoveredEntity {
    fn default() -> (h: Self)
        ensures
            h.0.is_none(),
    {
        HoveredEntity(None)
    }
}

/// A shooter that takes its parent's target: positions of the child and of
/// its parent in a table of the shooters' targets.
#[derive(Clone, Copy, PartialEq, Eq, Structural, Debug)]
pub struct TargetLink {
    pub child: usize,
    pub parent: usize,
}

/// The links all point into a table of `n` entries.
pub open spec fn links_in_table(links: Seq<TargetLink>, n: int) -> bool {
    forall|i: int| 0 <= i < links.len() ==> (#[trigger] links[i]).child < n && links[i].parent < n
}

/// One link applied to the table: a child that has a target takes its
/// parent's target (none when the parent has no target component).
pub open spec fn inherit_step(t: Seq<Option<Target>>, l: TargetLink) -> Seq<Option<Target>> {
    if t[l.child as int].is_some() {
        t.update(
            l.child as int,
            Some(
                Target(
                    match t[l.parent as int] {
                        Some(p) => p.0,
                        None => None,
                    },
                ),
            ),
        )
    } else {
        t
    }
}

/// The table after applying the links one after another, in order.
pub open spec fn inherited(t: Seq<Option<Target>>, links: Seq<TargetLink>) -> Seq<Option<Target>>
    decreases links.len(),
{
    if links.len() == 0 {
        t
    } else {
        inherit_step(inherited(t, links.drop_last()), links.last())
    }
}

/// Each child in `links` takes the target of its parent. `targets` holds one
/// entry per entity, `None` for an entity without a target component; the
/// links are processed in order, so a child later in the list sees the
/// target an earlier link gave its parent.
pub fn copy_targets_from_parents(targets: &mut Vec<Option<Target>>, links: &Vec<TargetLink>)
    requires
        links_in_table(links@, old(targets).len() as int),
    ensures
        final(targets)@ == inherited(old(targets)@, links@),
        // Entities that no link names as a child keep their entry.
        forall|e: int|
            0 <= e < old(targets).len() && (forall|a: int|
                0 <= a < links.len() ==> (#[trigger] links[a]).child != e)
                ==> #[trigger] final(targets)[e] == old(targets)[e],
{
    proof {
        assert forall|e: int|
            0 <= e < old(targets).len() && (forall|a: int|
                0 <= a < links.len() ==> (#[trigger] links[a]).child != e) implies #[trigger] inherited(
            old(targets)@,
            links@,
        )[e] == old(targets)@[e] by {
            lemma_inherited_keeps(old(targets)@, links@, e);
        }
    }
    let n = links.len();
    let mut i: usize = 0;
    while i < n
        invariant
            n == links.len(),
            i <= n,
            targets.len() == old(targets).len(),
            links_in_table(links@, targets.len() as int),
            targets@ == inherited(old(targets)@, links@.take(i as int)),
        decreases n - i,
    {
        let l = links[i];
        assert(links@.take(i + 1).drop_last() =~= links@.take(i as int));
        assert(links@[i as int] == l);
        let parent_target = match targets[l.parent] {
            Some(p) => p.0,
            None => None,
        };
        if targets[l.child].is_some() {
            targets.set(l.child, Some(Target(parent_target)));
        }
        i = i + 1;
    }
    assert(links@.take(n as int) =~= links@);
}

/// After a pass over a one-level hierarchy (no child is anyone's parent, no
/// child listed twice), every child that has a target aims where its
/// parent aims.
pub proof fn lemma_children_share_parent_target(t: Seq<Option<Target>>, links: Seq<TargetLink>, i: int)
    requires
        links_in_table(links, t.len() as int),
        forall|a: int, b: int|
            0 <= a < links.len() && 0 <= b < links.len() ==> #[trigger] links[a].child
                != #[trigger] links[b].parent,
        forall|a: int, b: int|
            0 <= a < links.len() && 0 <= b < links.len() && a != b ==> #[trigger] links[a].child
                != #[trigger] links[b].child,
        0 <= i < links.len(),
        t[links[i].child as int].is_some(),
    ensures
        inherited(t, links)[links[i].child as int] == Some(
            Target(
                match t[links[i].parent as int] {
                    Some(p) => p.0,
                    None => None,
                },
            ),
        ),
    decreases links.len(),
{
    lemma_inherited_keeps(t, links.drop_last(), links[i].parent as int);
    if i == links.len() - 1 {
        lemma_inherited_keeps(t, links.drop_last(), links[i].child as int);
    } else {
        let d = links.drop_last();
        assert(d[i] == links[i]);
        lemma_children_share_parent_target(t, d, i);
    }
}

/// Entries that no link names as a child keep their value.
proof fn lemma_inherited_keeps(t: Seq<Option<Target>>, links: Seq<TargetLink>, e: int)
    requires
        links_in_table(links, t.len() as int),
        forall|a: int| 0 <= a < links.len() ==> (#[trigger] links[a]).child != e,
    ensures
        inherited(t, links).len() == t.len(),
        0 <= e < t.len() ==> inherited(t, links)[e] == t[e],
    decreases links.len(),
{
    if links.len() > 0 {
        let d = links.drop_last();
        assert forall|a: int| 0 <= a < d.len() implies (#[trigger] d[a]).child != e by {
            assert(d[a] == links[a]);
        }
        lemma_inherited_keeps(t, d, e);
        assert(links.last() == links[links.len() - 1]);
    }
}

/// A target that points at an entity in the dying state is cleared.
pub open spec fn cleared_if_dieing(t: Target, dieing: Seq<EntityId>) -> Target {
    match t.0 {
        Some(e) => if dieing.contains(e) {
            Target(None)
        } else {
            t
        },
        None => t,
    }
}

/// Clearing only touches targets at dying entities: a target at a living
/// entity (or no target) is kept, a target at a dying one is emptied.
pub proof fn lemma_clearing_keeps_living_targets(t: Target, dieing: Seq<EntityId>)
    ensures
        (match t.0 {
            Some(e) => !dieing.contains(e),
            None => true,
        }) ==> cleared_if_dieing(t, dieing) == t,
        (t.0 matches Some(e) && dieing.contains(e)) ==> cleared_if_dieing(t, dieing).0.is_none(),
        dieing.len() == 0 ==> cleared_if_dieing(t, dieing) == t,
{
}

fn contains_entity(v: &Vec<EntityId>, e: EntityId) -> (found: bool)
    ensures
        found == v@.contains(e),
{
    let n = v.len();
    let mut i: usize = 0;
    while i < n
        invariant
            n == v.len(),
            i <= n,
            forall|q: int| 0 <= q < i ==> v@[q] != e,
        decreases n - i,
    {
        if v[i] == e {
            return true;
        }
        i = i + 1;
    }
    false
}

/// Clears every target that references an entity in the dying state, so
/// shooters stop firing at a wreck during its death throes.
pub fn clear_targets_pointing_at_dieing(targets: &mut Vec<Target>, dieing: &Vec<EntityId>)
    ensures
        final(targets).len() == old(targets).len(),
        forall|i: int|
            0 <= i < old(targets).len() ==> #[trigger] final(targets)[i] == cleared_if_dieing(
                old(targets)[i],
                dieing@,
            ),
        forall|i: int|
            0 <= i < final(targets).len() ==> match (#[trigger] final(targets)[i]).0 {
                Some(e) => !dieing@.contains(e),
                None => true,
            },
        // Targets at living entities, and empty targets, are left alone.
        forall|i: int|
            0 <= i < old(targets).len() && match (#[trigger] old(targets)[i]).0 {
                Some(e) => !dieing@.contains(e),
                None => true,
            } ==> final(targets)[i] == old(targets)[i],
        // Targets at dying entities are emptied.
        forall|i: int|
            0 <= i < old(targets).len() && ((#[trigger] old(targets)[i]).0 matches Some(e)
                && dieing@.contains(e)) ==> final(targets)[i].0.is_none(),
{
    let n = targets.len();
    let mut i: usize = 0;
    while i < n
        invariant
            n == targets.len(),
            n == old(targets).len(),
            i <= n,
            forall|q: int|
                0 <= q < i ==> #[trigger] targets[q] == cleared_if_dieing(old(targets)[q], dieing@),
            forall|q: int| i <= q < n ==> #[trigger] targets[q] == old(targets)[q],
        decreases n - i,
    {
        let t = targets[i];
        if let Some(e) = t.0 {
            if contains_entity(dieing, e) {
                targets.set(i, Target(None));
            }
        }
        i = i + 1;
    }
}

/// T locks the hovered entity as the player's target (clearing the lock
/// when nothing is hovered); the player ship's own targets follow.
pub fn player_lock_target_input(
    lock_pressed: bool,
    hovered: HoveredEntity,
    player_target: &mut PlayerTarget,
    player_targets: &mut Vec<Target>,
)
    ensures
        final(player_targets).len() == old(player_targets).len(),
        !lock_pressed ==> *final(player_target) == *old(player_target) && final(player_targets)@
            == old(player_targets)@,
        lock_pressed ==> final(player_target).0 == hovered.0 && forall|i: int|
            0 <= i < final(player_targets).len() ==> (#[trigger] final(player_targets)[i]).0
                == hovered.0,
{
    if !lock_pressed {
        return;
    }
    player_target.0 = hovered.0;
    set_all_targets(player_targets, hovered.0);
}

fn set_all_targets(targets: &mut Vec<Target>, to: Option<EntityId>)
    ensures
        final(targets).len() == old(targets).len(),
        forall|i: int| 0 <= i < final(targets).len() ==> (#[trigger] final(targets)[i]).0 == to,
{
    let n = targets.len();
    let mut i: usize = 0;
    while i < n
        invariant
            n == targets.len(),
            n == old(targets).len(),
            i <= n,
            forall|q: int| 0 <= q < i ==> (#[trigger] targets[q]).0 == to,
        decreases n - i,
    {
        targets.set(i, Target(to));
        i = i + 1;
    }
}

/// Drops the player's lock (and the player ship's own targets) when the
/// locked entity no longer exists or has entered the dying state.
/// `target_exists` and `target_dieing` describe the locked entity.
pub fn clear_dead_target_lock(
    player_target: &mut PlayerTarget,
    target_exists: bool,
    target_dieing: bool,
    player_targets: &mut Vec<Target>,
)
    ensures
        final(player_targets).len() == old(player_targets).len(),
        (old(player_target).0.is_none() || (target_exists && !target_dieing)) ==> (
        *final(player_target) == *old(player_target) && final(player_targets)@ == old(player_targets)@),
        (old(player_target).0.is_some() && (!target_exists || target_dieing)) ==> (
        final(player_target).0.is_none() && forall|i: int|
            0 <= i < final(player_targets).len() ==> (#[trigger] final(player_targets)[i]).0.is_none()),
{
    if player_target.0.is_none() {
        return;
    }
    if !target_exists || target_dieing {
        player_target.0 = None;
        set_all_targets(player_targets, None);
    }
}

} // verus!
