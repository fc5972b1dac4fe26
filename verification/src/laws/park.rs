//! How Monster Park is cleared.

use vstd::prelude::*;

use crate::ecs::{DetectionRequest, Detections, Minimap, MinimapIdle, Update};
use crate::geometry::{near, Point, Rect};
use crate::models::{
    ActionKeyDirection, ActionKeyWith, KeyKind, LinkKeyKind, MobbingKey, WaitAfterBuffered,
};
use crate::player::actions::{PlayerAction, PlayerActionView};
use crate::player::context::{AssignmentView, PlayerContextView};
use crate::rotator::monster_park::{
    enemies_at, entry_rotated, is_present, nearest_of, MonsterParkView,
};
use crate::rotator::Tuning;

use super::journeys::middle;

verus! {

/// Whether a number is one that a position can have.
pub open spec fn is_pixel(value: int) -> bool {
    i32::MIN <= value <= i32::MAX
}

/// The height of the middle of `rect` above the bottom of a minimap of the given height.
pub open spec fn altitude(rect: Rect, height: i32) -> int {
    middle(height - rect.y - rect.height, rect.height as int)
}

/// Whether two points are at most 10 apart along both axes.
pub open spec fn same_place(a: Point, b: Point) -> bool {
    -10 <= a.x - b.x <= 10 && -10 <= a.y - b.y <= 10
}

/// The square of how far apart two points are.
pub open spec fn apart(a: Point, b: Point) -> int {
    (a.x - b.x) * (a.x - b.x) + (a.y - b.y) * (a.y - b.y)
}

/// Whether all that was seen is within the range of positions.
pub open spec fn in_range(detections: Detections, height: i32) -> bool {
    &&& detections.monster_park_enemies matches Update::Ready(rects) ==> forall|i: int|
        0 <= i < rects@.len() ==> is_pixel(
            middle((#[trigger] rects@[i]).x as int, rects@[i].width as int),
        ) && is_pixel(altitude(rects@[i], height))
    &&& detections.monster_park_portals matches Update::Ready(rects) ==> forall|i: int|
        0 <= i < rects@.len() ==> is_pixel((#[trigger] rects@[i]).y + rects@[i].height) && is_pixel(
            height - rects@[i].y - rects@[i].height,
        )
}

/// Enemies are remembered where they were last seen: in the middle of their dots, with their
/// heights counted from the bottom. A look that is not over, or that failed, changes nothing.
pub proof fn enemies_are_remembered(
    park: MonsterParkView,
    detections: Detections,
    context: PlayerContextView,
    idle: MinimapIdle,
    key: MobbingKey,
    tuning: Tuning,
)
    requires
        in_range(detections, idle.bbox.height),
    ensures
        ({
            let outcome = park.rotated(detections, context, Minimap::Idle(idle), key, tuning);
            &&& outcome.requests.len() > 0
            &&& outcome.requests[0] == DetectionRequest::MonsterParkEnemies(idle.bbox)
            &&& match detections.monster_park_enemies {
                Update::Ready(rects) => {
                    &&& outcome.park.enemies.len() == rects@.len()
                    &&& forall|i: int|
                        0 <= i < rects@.len() ==> {
                            &&& (#[trigger] outcome.park.enemies[i]).x == middle(
                                rects@[i].x as int,
                                rects@[i].width as int,
                            )
                            &&& outcome.park.enemies[i].y == altitude(
                                rects@[i],
                                idle.bbox.height,
                            )
                        }
                },
                _ => outcome.park.enemies == park.enemies,
            }
        }),
{
    let outcome = park.rotated(detections, context, Minimap::Idle(idle), key, tuning);
    if let Update::Ready(rects) = detections.monster_park_enemies {
        assert(outcome.park.enemies == enemies_at(rects@, idle.bbox));
        assert forall|i: int| 0 <= i < rects@.len() implies {
            &&& (#[trigger] outcome.park.enemies[i]).x == middle(
                rects@[i].x as int,
                rects@[i].width as int,
            )
            &&& outcome.park.enemies[i].y == altitude(rects@[i], idle.bbox.height)
        } by {
            let rect = rects@[i];
            assert(is_pixel(altitude(rect, idle.bbox.height)));
        }
    }
}

/// Without a minimap nothing is done or looked at.
pub proof fn nothing_happens_without_a_minimap(
    park: MonsterParkView,
    detections: Detections,
    context: PlayerContextView,
    key: MobbingKey,
    tuning: Tuning,
)
    ensures
        ({
            let outcome = park.rotated(detections, context, Minimap::Detecting, key, tuning);
            &&& outcome.park == park
            &&& outcome.context == context
            &&& outcome.requests.len() == 0
        }),
{
}

/// What the player is doing is left alone, unless it pursues an enemy that was missing from three
/// looks in a row. An enemy counts as seen if one is seen within 10 of it along both axes.
pub proof fn busy_players_are_left_alone(
    park: MonsterParkView,
    detections: Detections,
    context: PlayerContextView,
    idle: MinimapIdle,
    key: MobbingKey,
    tuning: Tuning,
)
    requires
        context.normal is Some,
    ensures
        ({
            let outcome = park.rotated(detections, context, Minimap::Idle(idle), key, tuning);
            let after = outcome.park;
            let present = park.target matches Some(target) && exists|i: int|
                0 <= i < after.enemies.len() && same_place(#[trigger] after.enemies[i], target);
            let gives_up = park.target is Some && !present && park.target_missing_count >= 2;
            &&& !gives_up ==> {
                &&& outcome.context == context
                &&& outcome.requests.len() == 1
                &&& after == MonsterParkView {
                    enemies: after.enemies,
                    target_missing_count: after.target_missing_count,
                    ..park
                }
                &&& park.target is None ==> after.target_missing_count == park.target_missing_count
                &&& park.target is Some && present ==> after.target_missing_count == 0
                &&& park.target is Some && !present ==> after.target_missing_count
                    == park.target_missing_count + 1
            }
            &&& gives_up && context.priority is Some ==> {
                &&& after.target is None
                &&& after.target_missing_count == 0
                &&& outcome.context.normal is None
                &&& outcome.context.priority == context.priority
                &&& outcome.requests.len() == 1
            }
        }),
{
    let outcome = park.rotated(detections, context, Minimap::Idle(idle), key, tuning);
    let scanned = park.scanned(detections.monster_park_enemies, idle.bbox);
    if let Some(target) = park.target {
        assert forall|i: int| 0 <= i < scanned.enemies.len() implies #[trigger] same_place(
            scanned.enemies[i],
            target,
        ) == near(scanned.enemies[i], target, 10) by {}
        if exists|i: int|
            0 <= i < scanned.enemies.len() && same_place(#[trigger] scanned.enemies[i], target) {
            let i = choose|i: int|
                0 <= i < scanned.enemies.len() && same_place(
                    #[trigger] scanned.enemies[i],
                    target,
                );
            assert(near(scanned.enemies[i], target, 10));
        }
        if is_present(scanned.enemies, target) {
            let i = choose|i: int|
                0 <= i < scanned.enemies.len() && near(
                    #[trigger] scanned.enemies[i],
                    target,
                    10,
                );
            assert(same_place(scanned.enemies[i], target));
        }
    }
}

/// Giving up an enemy is as if the player had nothing to do and pursued nobody.
pub proof fn giving_up_starts_over(
    park: MonsterParkView,
    detections: Detections,
    context: PlayerContextView,
    idle: MinimapIdle,
    key: MobbingKey,
    tuning: Tuning,
)
    requires
        context.normal is Some,
        park.target is Some,
        park.target_missing_count >= 2,
        forall|i: int|
            #![trigger park.scanned(detections.monster_park_enemies, idle.bbox).enemies[i]]
            0 <= i < park.scanned(detections.monster_park_enemies, idle.bbox).enemies.len()
                ==> !same_place(
                park.scanned(detections.monster_park_enemies, idle.bbox).enemies[i],
                park.target->0,
            ),
    ensures
        park.rotated(detections, context, Minimap::Idle(idle), key, tuning) == (MonsterParkView {
            target: None,
            target_missing_count: 0,
            ..park
        }).rotated(
            detections,
            PlayerContextView { normal: None, reset_to_idle_next_update: true, ..context },
            Minimap::Idle(idle),
            key,
            tuning,
        ),
{
    let scanned = park.scanned(detections.monster_park_enemies, idle.bbox);
    if is_present(scanned.enemies, park.target->0) {
        let i = choose|i: int|
            0 <= i < scanned.enemies.len() && near(
                #[trigger] scanned.enemies[i],
                park.target->0,
                10,
            );
        assert(same_place(scanned.enemies[i], park.target->0));
    }
}

/// Whether the player has nothing to do.
pub open spec fn is_free(context: PlayerContextView) -> bool {
    context.normal is None && context.priority is None
}

/// While the player uses a portal or a dialog, nothing is decided.
pub proof fn priorities_are_waited_for(
    park: MonsterParkView,
    detections: Detections,
    context: PlayerContextView,
    idle: MinimapIdle,
    key: MobbingKey,
    tuning: Tuning,
)
    requires
        context.normal is None,
        context.priority is Some,
    ensures
        ({
            let outcome = park.rotated(detections, context, Minimap::Idle(idle), key, tuning);
            &&& outcome.context == context
            &&& outcome.park == MonsterParkView { enemies: outcome.park.enemies, ..park }
            &&& outcome.requests.len() == 1
        }),
{
}

/// Whether an action presses `key` once where the player stands, after a wait of five ticks.
pub open spec fn presses(assigned: Option<AssignmentView>, key: KeyKind) -> bool {
    &&& assigned matches Some(assigned)
    &&& assigned.id is None
    &&& assigned.action matches PlayerActionView::Plain(PlayerAction::Key(press))
    &&& press.key == key
    &&& press.key_hold_ticks == 0
    &&& press.link_key == LinkKeyKind::Unlinked
    &&& press.count == 1
    &&& press.position is None
    &&& press.direction == ActionKeyDirection::Any
    &&& press.with == ActionKeyWith::Stationary
    &&& press.wait_before_use_ticks == 5
    &&& press.wait_before_use_ticks_random_range == 0
    &&& press.wait_after_use_ticks == 0
    &&& press.wait_after_use_ticks_random_range == 0
    &&& press.wait_after_buffered == WaitAfterBuffered::Unbuffered
}

/// Whether an action moves exactly to the given position, adjusting there.
pub open spec fn moves_to(assigned: Option<AssignmentView>, x: int, y: int) -> bool {
    &&& assigned matches Some(assigned)
    &&& assigned.id is None
    &&& assigned.action matches PlayerActionView::Plain(PlayerAction::Move(target))
    &&& target.position.x == x
    &&& target.position.y == y
    &&& target.position.x_random_range == 0
    &&& target.position.allow_adjusting
    &&& target.wait_after_move_ticks == 0
}

/// Whether an action goes to `point` and uses the mobbing key there, as configured and at least
/// once. Waits are as many whole ticks as fit.
pub open spec fn hunts_at(
    assigned: Option<AssignmentView>,
    key: MobbingKey,
    ms_per_tick: u64,
    point: Point,
    exploring: bool,
    in_park: bool,
) -> bool {
    &&& assigned matches Some(assigned)
    &&& assigned.id is None
    &&& assigned.action matches PlayerActionView::Plain(PlayerAction::AutoMob(mob))
    &&& mob.key == key.key
    &&& mob.link_key == key.link_key
    &&& mob.with == key.with
    &&& mob.count >= 1
    &&& key.count >= 1 ==> mob.count == key.count
    &&& key.count == 0 ==> mob.count == 1
    &&& mob.key_hold_ticks == (key.key_hold_millis / ms_per_tick) as u32
    &&& mob.wait_before_ticks == (key.wait_before_millis / ms_per_tick) as u32
    &&& mob.wait_before_ticks_random_range == (key.wait_before_millis_random_range
        / ms_per_tick) as u32
    &&& mob.wait_after_ticks == (key.wait_after_millis / ms_per_tick) as u32
    &&& mob.wait_after_ticks_random_range == (key.wait_after_millis_random_range
        / ms_per_tick) as u32
    &&& mob.position.x == point.x
    &&& mob.position.y == point.y
    &&& mob.position.x_random_range == 0
    &&& !mob.position.allow_adjusting
    &&& mob.is_pathing == exploring
    &&& mob.is_monster_park == in_park
}

/// Whether `after` is `before` with at most its actions and the wish to start over changed.
pub open spec fn only_actions_differ(before: PlayerContextView, after: PlayerContextView) -> bool {
    after == PlayerContextView {
        normal: after.normal,
        priority: after.priority,
        reset_to_idle_next_update: after.reset_to_idle_next_update,
        ..before
    }
}

/// A dialog is dismissed with the interact key before anything else.
pub proof fn dialogs_come_first(
    park: MonsterParkView,
    detections: Detections,
    context: PlayerContextView,
    idle: MinimapIdle,
    key: MobbingKey,
    tuning: Tuning,
)
    requires
        is_free(context),
        detections.dialog_continue_button,
    ensures
        ({
            let outcome = park.rotated(detections, context, Minimap::Idle(idle), key, tuning);
            &&& presses(outcome.context.priority, context.config.interact_key)
            &&& outcome.context.normal is None
            &&& only_actions_differ(context, outcome.context)
            &&& outcome.park == MonsterParkView { enemies: outcome.park.enemies, ..park }
            &&& outcome.requests.len() == 1
        }),
{
}

/// Whether `point` is the closest of the enemies, and the first one of several.
pub open spec fn is_closest(enemies: Seq<Point>, pos: Point, point: Point) -> bool {
    exists|i: int|
        {
            &&& 0 <= i < enemies.len()
            &&& #[trigger] enemies[i] == point
            &&& forall|j: int|
                0 <= j < enemies.len() ==> apart(point, pos) <= apart(#[trigger] enemies[j], pos)
            &&& forall|j: int| 0 <= j < i ==> apart(point, pos) < apart(#[trigger] enemies[j], pos)
        }
}

proof fn nearest_of_is_first(enemies: Seq<Point>, pos: Point, count: nat)
    requires
        0 < count <= enemies.len(),
    ensures
        nearest_of(enemies, pos, count) is Some,
        exists|i: int|
            {
                &&& 0 <= i < count
                &&& #[trigger] enemies[i] == nearest_of(enemies, pos, count)->0
                &&& forall|j: int|
                    0 <= j < count ==> apart(enemies[i], pos) <= apart(#[trigger] enemies[j], pos)
                &&& forall|j: int|
                    0 <= j < i ==> apart(enemies[i], pos) < apart(#[trigger] enemies[j], pos)
            },
    decreases count,
{
    if count == 1 {
        assert(nearest_of(enemies, pos, 0) is None);
        assert(enemies[0] == nearest_of(enemies, pos, 1)->0);
    } else {
        nearest_of_is_first(enemies, pos, (count - 1) as nat);
        let before = nearest_of(enemies, pos, (count - 1) as nat)->0;
        let i = choose|i: int|
            {
                &&& 0 <= i < count - 1
                &&& #[trigger] enemies[i] == before
                &&& forall|j: int|
                    0 <= j < count - 1 ==> apart(enemies[i], pos) <= apart(
                        #[trigger] enemies[j],
                        pos,
                    )
                &&& forall|j: int|
                    0 <= j < i ==> apart(enemies[i], pos) < apart(#[trigger] enemies[j], pos)
            };
        let last = enemies[count - 1];
        if apart(last, pos) < apart(before, pos) {
            assert(enemies[count - 1] == nearest_of(enemies, pos, count)->0);
        } else {
            assert(enemies[i] == nearest_of(enemies, pos, count)->0);
        }
    }
}

/// Of the enemies in view the closest one counts. It is gone for when it was at this place at the
/// last look too, with the mobbing key, and otherwise only noted. In any case the portal is
/// forgotten.
pub proof fn enemies_are_gone_for_when_seen_again(
    park: MonsterParkView,
    detections: Detections,
    context: PlayerContextView,
    idle: MinimapIdle,
    key: MobbingKey,
    tuning: Tuning,
    pos: Point,
)
    requires
        is_free(context),
        !detections.dialog_continue_button,
        context.last_known_pos == Some(pos),
        park.pending_target is Some ==> park.pending_target->0.seen_count >= 1,
        park.scanned(detections.monster_park_enemies, idle.bbox).enemies.len() > 0,
    ensures
        ({
            let outcome = park.rotated(detections, context, Minimap::Idle(idle), key, tuning);
            let after = outcome.park;
            &&& after.enemies.len() > 0
            &&& after.pending_target matches Some(pending)
            &&& is_closest(after.enemies, pos, pending.point)
            &&& pending.seen_count >= 1
            &&& after.no_enemy_count == 0
            &&& after.last_portal is None
            &&& outcome.requests.len() == 1
            &&& only_actions_differ(context, outcome.context)
            &&& outcome.context.priority is None
            &&& if park.pending_target matches Some(before) && same_place(
                before.point,
                pending.point,
            ) {
                &&& after.target == Some(pending.point)
                &&& after.target_missing_count == 0
                &&& after.portal_attempts == 0
                &&& hunts_at(
                    outcome.context.normal,
                    key,
                    tuning.ms_per_tick,
                    pending.point,
                    false,
                    true,
                )
            } else {
                &&& outcome.context == context
                &&& after.target == park.target
                &&& after.target_missing_count == park.target_missing_count
                &&& after.portal_attempts == park.portal_attempts
            }
        }),
{
    let scanned = park.scanned(detections.monster_park_enemies, idle.bbox);
    nearest_of_is_first(scanned.enemies, pos, scanned.enemies.len());
}

/// With nobody in view, the third look in a row that shows nobody, and each one after it, looks for
/// the portal. Until then nothing happens. Without a portal nothing happens either.
pub proof fn empty_maps_are_left(
    park: MonsterParkView,
    detections: Detections,
    context: PlayerContextView,
    idle: MinimapIdle,
    key: MobbingKey,
    tuning: Tuning,
    pos: Point,
)
    requires
        is_free(context),
        !detections.dialog_continue_button,
        context.last_known_pos == Some(pos),
        park.scanned(detections.monster_park_enemies, idle.bbox).enemies.len() == 0,
    ensures
        ({
            let outcome = park.rotated(detections, context, Minimap::Idle(idle), key, tuning);
            let after = outcome.park;
            let looks = park.no_enemy_count >= 2;
            let portal = portal_in_view(park, detections, idle.bbox);
            &&& after.pending_target is None
            &&& only_actions_differ(context, outcome.context)
            &&& !looks ==> {
                &&& outcome.context == context
                &&& outcome.requests.len() == 1
                &&& after.no_enemy_count == park.no_enemy_count + 1
                &&& after.last_portal == park.last_portal
                &&& after.target == park.target
                &&& after.portal_attempts == park.portal_attempts
            }
            &&& looks ==> {
                &&& outcome.requests.len() == 2
                &&& outcome.requests[1] == DetectionRequest::MonsterParkPortals(idle.bbox)
                &&& after.target is None
                &&& after.target_missing_count == 0
                &&& portal is None ==> outcome.context == context && after.portal_attempts
                    == park.portal_attempts
            }
        }),
{
}

/// The portal that counts: the first one in view, with its position counted from the bottom, or
/// the one seen last.
pub open spec fn portal_in_view(
    park: MonsterParkView,
    detections: Detections,
    minimap: Rect,
) -> Option<Rect> {
    match detections.monster_park_portals {
        Update::Ready(rects) => if rects@.len() > 0 {
            let rect = rects@[0];
            Some(
                Rect {
                    x: rect.x,
                    y: (minimap.height - rect.y - rect.height) as i32,
                    width: rect.width,
                    height: rect.height,
                },
            )
        } else {
            park.last_portal
        },
        _ => park.last_portal,
    }
}

/// A portal in view is remembered and walked to: to the ground below its middle, or at the
/// player's own height if that is hardly different and the portal is near. There, at most 1 beside
/// it and 14 above or below, the up arrow is pressed, five times at most. After that the portal is
/// forgotten, and enemies are looked for again.
pub proof fn portals_are_walked_to_and_used(
    park: MonsterParkView,
    detections: Detections,
    context: PlayerContextView,
    idle: MinimapIdle,
    key: MobbingKey,
    tuning: Tuning,
    pos: Point,
    portal: Rect,
)
    requires
        is_free(context),
        !detections.dialog_continue_button,
        context.last_known_pos == Some(pos),
        park.scanned(detections.monster_park_enemies, idle.bbox).enemies.len() == 0,
        park.no_enemy_count >= 2,
        portal_in_view(park, detections, idle.bbox) == Some(portal),
        in_range(detections, idle.bbox.height),
        is_pixel(middle(portal.x as int, portal.width as int)),
        is_pixel(middle(portal.y as int, portal.height as int) - 6),
    ensures
        ({
            let outcome = park.rotated(detections, context, Minimap::Idle(idle), key, tuning);
            let after = outcome.park;
            let x = middle(portal.x as int, portal.width as int);
            let y = middle(portal.y as int, portal.height as int) - 6;
            let level = -14 <= pos.y - y <= 14;
            let there = -1 <= pos.x - x <= 1 && level;
            let close = -tuning.double_jump_threshold < pos.x - x < tuning.double_jump_threshold;
            &&& there && park.portal_attempts < 5 ==> {
                &&& presses(outcome.context.priority, KeyKind::Up)
                &&& outcome.context.normal is None
                &&& after.portal_attempts == park.portal_attempts + 1
                &&& after.last_portal == Some(portal)
            }
            &&& there && park.portal_attempts >= 5 ==> {
                &&& outcome.context == context
                &&& after.portal_attempts == 0
                &&& after.last_portal is None
                &&& after.no_enemy_count == 0
            }
            &&& !there ==> {
                &&& moves_to(
                    outcome.context.normal,
                    x,
                    if level && close {
                        pos.y as int
                    } else {
                        y
                    },
                )
                &&& outcome.context.priority is None
                &&& after.portal_attempts == 0
                &&& after.last_portal == Some(portal)
            }
        }),
{
}

/// Where nothing is known of the player's position, nothing is decided.
pub proof fn lost_players_wait(
    park: MonsterParkView,
    detections: Detections,
    context: PlayerContextView,
    idle: MinimapIdle,
    key: MobbingKey,
    tuning: Tuning,
)
    requires
        is_free(context),
        !detections.dialog_continue_button,
        context.last_known_pos is None,
    ensures
        ({
            let outcome = park.rotated(detections, context, Minimap::Idle(idle), key, tuning);
            &&& outcome.context == context
            &&& outcome.park == MonsterParkView { enemies: outcome.park.enemies, ..park }
            &&& outcome.requests.len() == 1
        }),
{
}

/// In the lobby, a player with nothing to do walks to the entrance for its level, which is at 109
/// below level 260 and at 120 from there on, and enters once at most 1 away from it along both
/// axes. A player that has something to do, or is nowhere to be seen, is left alone.
pub proof fn the_entrance_depends_on_the_level(
    context: PlayerContextView,
    minimap: Minimap,
    character_level: u32,
)
    ensures
        ({
            let after = entry_rotated(context, minimap, character_level);
            let x = if character_level >= 260 {
                120int
            } else {
                109
            };
            &&& only_actions_differ(context, after)
            &&& !is_free(context) || minimap is Detecting || context.last_known_pos is None
                ==> after == context
            &&& is_free(context) && minimap is Idle ==> match context.last_known_pos {
                Some(pos) => if -1 <= pos.x - x <= 1 && -1 <= pos.y <= 1 {
                    &&& after.normal is None
                    &&& after.priority == Some(
                        AssignmentView {
                            id: None,
                            action: PlayerActionView::Plain(PlayerAction::EnterMonsterPark),
                        },
                    )
                } else {
                    after.priority is None && moves_to(after.normal, x, 0)
                },
                None => true,
            }
        }),
{
}

} // verus!
