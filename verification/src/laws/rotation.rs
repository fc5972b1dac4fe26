//! What the player does in rotation: configured actions, mobbing, and sweeping.

use vstd::prelude::*;

use crate::ecs::{DetectionRequest, Detections, Draws, Minimap, MobSighting, Update};
use crate::geometry::{Point, Rect};
use crate::models::{Bound, MobbingKey};
use crate::player::actions::{PingPongDirection, PlayerAction, PlayerActionView};
use crate::player::context::PlayerContextView;
use crate::rotator::action::RotatorActionView;
use crate::rotator::mobbing::{ping_ponged, places, AutoMobbing};
use crate::rotator::normal::NormalView;

use super::park::{hunts_at, only_actions_differ};

verus! {

/// Whether the player gets `action` under `id`, and keeps everything else.
pub open spec fn gets_in_rotation(
    before: PlayerContextView,
    after: PlayerContextView,
    id: u32,
    action: PlayerActionView,
) -> bool {
    &&& only_actions_differ(before, after)
    &&& after.priority == before.priority
    &&& after.reset_to_idle_next_update
    &&& after.normal matches Some(assigned)
    &&& assigned.id == Some(id)
    &&& assigned.action == action
}

/// Whether the rotation is about to perform the rest of a row after its first action.
pub open spec fn rest_follows(
    queuing: Option<(u32, Seq<PlayerActionView>)>,
    id: u32,
    row: Seq<PlayerActionView>,
) -> bool {
    match queuing {
        Some((next_id, rest)) => {
            &&& row.len() >= 2
            &&& next_id == id
            &&& rest.len() == row.len() - 1
            &&& forall|i: int| 0 <= i < rest.len() ==> #[trigger] rest[i] == row[i + 1]
        },
        None => row.len() <= 1,
    }
}

/// Whether the action at `position` is started: a single one is given to the player, and of a row
/// the first one is, with the rest to follow.
pub open spec fn starts(
    rotation: NormalView,
    after: NormalView,
    context: PlayerContextView,
    context_after: PlayerContextView,
    position: int,
) -> bool {
    let (id, action) = rotation.actions[position];
    &&& after.actions == rotation.actions
    &&& match action {
        RotatorActionView::Single(action) => {
            &&& gets_in_rotation(context, context_after, id, action)
            &&& after.queuing is None
        },
        RotatorActionView::Linked(row) => {
            &&& gets_in_rotation(context, context_after, id, row[0])
            &&& rest_follows(after.queuing, id, row)
        },
    }
}

/// A player that has something to do in rotation is left alone, and so is one for which there is
/// nothing to rotate.
pub proof fn rotation_waits_for_the_player(rotation: NormalView, context: PlayerContextView)
    requires
        context.normal is Some || rotation.actions.len() == 0,
    ensures
        rotation.start_to_end(context) == (rotation, context),
        rotation.start_to_end_then_reverse(context) == (rotation, context),
{
}

/// A row that has been started is performed to its end before another action is.
pub proof fn rows_go_on(
    rotation: NormalView,
    context: PlayerContextView,
    id: u32,
    row: Seq<PlayerActionView>,
)
    requires
        context.normal is None,
        rotation.actions.len() > 0,
        rotation.queuing == Some((id, row)),
    ensures
        rotation.start_to_end(context) == rotation.start_to_end_then_reverse(context),
        ({
            let (after, context_after) = rotation.start_to_end(context);
            &&& gets_in_rotation(context, context_after, id, row[0])
            &&& rest_follows(after.queuing, id, row)
            &&& after.actions == rotation.actions
            &&& after.index == rotation.index
            &&& after.backward == rotation.backward
        }),
{
}

/// Going from start to end performs the action at the index, and goes on to the one after it, or
/// to the first one after the last.
pub proof fn start_to_end_goes_around(rotation: NormalView, context: PlayerContextView)
    requires
        context.normal is None,
        0 <= rotation.index < rotation.actions.len(),
        rotation.queuing is None,
    ensures
        ({
            let (after, context_after) = rotation.start_to_end(context);
            &&& starts(rotation, after, context, context_after, rotation.index)
            &&& rotation.index + 1 < rotation.actions.len() ==> after.index == rotation.index + 1
            &&& rotation.index + 1 == rotation.actions.len() ==> after.index == 0
            &&& after.backward == rotation.backward
        }),
{
    let len = rotation.actions.len() as int;
    if rotation.index + 1 < len {
        vstd::arithmetic::div_mod::lemma_small_mod((rotation.index + 1) as nat, len as nat);
    } else {
        vstd::arithmetic::div_mod::lemma_mod_self_0(len);
    }
}

/// Going there and back performs the action as many steps from the end where it started as the
/// index says, and takes one step more. After the step before the other end it turns around there.
pub proof fn start_to_end_then_reverse_turns_around(
    rotation: NormalView,
    context: PlayerContextView,
)
    requires
        context.normal is None,
        0 <= rotation.index < rotation.actions.len(),
        rotation.queuing is None,
    ensures
        ({
            let (after, context_after) = rotation.start_to_end_then_reverse(context);
            let len = rotation.actions.len() as int;
            let turns = rotation.index + 1 == len;
            let steps = if turns {
                0
            } else {
                rotation.index
            };
            &&& after.backward == (rotation.backward != turns)
            &&& starts(
                rotation,
                after,
                context,
                context_after,
                if after.backward {
                    len - 1 - steps
                } else {
                    steps
                },
            )
            &&& steps + 1 < len ==> after.index == steps + 1
            &&& len == 1 ==> after.index == 0
        }),
{
    let len = rotation.actions.len() as int;
    let steps = if rotation.index + 1 == len {
        0
    } else {
        rotation.index
    };
    if steps + 1 < len {
        vstd::arithmetic::div_mod::lemma_small_mod((steps + 1) as nat, len as nat);
    } else {
        vstd::arithmetic::div_mod::lemma_mod_self_0(len);
    }
}

/// Whether a mob can be stood at: there is a place for it, and it is at most 24 above the player.
pub open spec fn can_be_hit(mob: MobSighting, height: i32, pos: Point) -> bool {
    mob.reachable is Some && height - mob.point.y <= pos.y + 24
}

/// The places to stand at are those of all mobs that can be hit, in the order in which these were
/// seen.
pub open spec fn are_places(
    mobs: Seq<MobSighting>,
    height: i32,
    pos: Point,
    count: nat,
    found: Seq<Point>,
) -> bool
    decreases count,
{
    if count == 0 {
        found.len() == 0
    } else {
        let mob = mobs[count - 1];
        if can_be_hit(mob, height, pos) {
            &&& found.len() > 0
            &&& found.last() == mob.reachable->0
            &&& are_places(mobs, height, pos, (count - 1) as nat, found.drop_last())
        } else {
            are_places(mobs, height, pos, (count - 1) as nat, found)
        }
    }
}

/// Places to stand at are found for all mobs that can be hit, and for no others.
pub proof fn mobs_in_reach_have_places(
    mobs: Seq<MobSighting>,
    minimap: Rect,
    pos: Point,
    count: nat,
)
    ensures
        are_places(mobs, minimap.height, pos, count, places(mobs, minimap, pos, count)),
    decreases count,
{
    if count > 0 {
        mobs_in_reach_have_places(mobs, minimap, pos, (count - 1) as nat);
        let mob = mobs[count - 1];
        let found = places(mobs, minimap, pos, count);
        if can_be_hit(mob, minimap.height, pos) {
            assert(found.drop_last() =~= places(mobs, minimap, pos, (count - 1) as nat));
        }
    }
}

/// Mobbing looks for mobs exactly if the player has nothing to do in rotation, is somewhere, and
/// the minimap is there: in the given area, for the player as it is. Otherwise it does nothing.
pub proof fn mobbing_looks_when_it_can(
    mobbing: AutoMobbing,
    detections: Detections,
    draws: Draws,
    context: PlayerContextView,
    minimap: Minimap,
    key: MobbingKey,
    bound: Bound,
    ms_per_tick: u64,
)
    ensures
        ({
            let used = AutoMobbing::request(context, minimap, bound);
            let (after, context_after) = mobbing.rotated(
                detections,
                draws,
                context,
                minimap,
                key,
                ms_per_tick,
            );
            match (minimap, context.last_known_pos) {
                (Minimap::Idle(idle), Some(pos)) => if context.normal is None {
                    &&& used.len() == 1
                    &&& used[0] == DetectionRequest::Mobs {
                        bbox: idle.bbox,
                        bound,
                        pos,
                        name: context.name,
                    }
                    &&& !(detections.mobs is Ready) ==> after == mobbing && context_after == context
                } else {
                    used.len() == 0 && after == mobbing && context_after == context
                },
                _ => used.len() == 0 && after == mobbing && context_after == context,
            }
        }),
{
}

/// Once mobs are seen, the player goes to one of the places to stand at, the one that was drawn, or
/// explores where there is none. It also explores, at the drawn position, each fifth time in a row
/// that the last mob was in the same quadrant. This is counted only while there are places and the
/// quadrant is known, and starts over in another one.
pub proof fn mobs_are_gone_for(
    mobbing: AutoMobbing,
    detections: Detections,
    draws: Draws,
    context: PlayerContextView,
    minimap: Minimap,
    key: MobbingKey,
    ms_per_tick: u64,
    mobs: Vec<MobSighting>,
    pos: Point,
)
    requires
        mobbing.wf(),
        context.normal is None,
        minimap is Idle,
        context.last_known_pos == Some(pos),
        detections.mobs == Update::Ready(mobs),
    ensures
        ({
            let found = places(mobs@, minimap->Idle_0.bbox, pos, mobs@.len());
            let (after, context_after) = mobbing.rotated(
                detections,
                draws,
                context,
                minimap,
                key,
                ms_per_tick,
            );
            let counts = found.len() > 0 && context.auto_mob_last_quadrant is Some;
            let quadrant = context.auto_mob_last_quadrant->0;
            let before = match mobbing.quadrant_consecutive_count {
                Some((last, count)) => if last == quadrant {
                    count as int
                } else {
                    0
                },
                None => 0,
            };
            let overdue = counts && before == 4;
            let explores = overdue || found.len() == 0;
            &&& only_actions_differ(context, context_after)
            &&& context_after.priority == context.priority
            &&& hunts_at(
                context_after.normal,
                key,
                ms_per_tick,
                if explores {
                    draws.pathing_point
                } else {
                    found[draws.number as int % found.len() as int]
                },
                explores,
                false,
            )
            &&& !counts ==> after == mobbing
            &&& counts ==> {
                &&& after.quadrant_consecutive_count matches Some((last, count))
                &&& last == quadrant
                &&& count == if overdue {
                    0
                } else {
                    before + 1
                }
            }
        }),
{
}

/// A sweep starts exactly if the player has nothing to do in rotation, is somewhere, and the
/// minimap is there. It goes toward the farther side of the minimap, to the right from the middle,
/// within the given area counted from the bottom, and uses the mobbing key as configured.
pub proof fn sweeps_go_to_the_farther_side(
    context: PlayerContextView,
    minimap: Minimap,
    key: MobbingKey,
    bound: Bound,
    ms_per_tick: u64,
)
    ensures
        ({
            let after = ping_ponged(context, minimap, key, bound, ms_per_tick);
            match (minimap, context.last_known_pos) {
                (Minimap::Idle(idle), Some(pos)) => if context.normal is None {
                    let to_left = pos.x - idle.bbox.x;
                    let to_right = idle.bbox.x + idle.bbox.width - pos.x;
                    let bottom = idle.bbox.height - bound.y - bound.height;
                    &&& only_actions_differ(context, after)
                    &&& after.priority == context.priority
                    &&& after.normal matches Some(assigned)
                    &&& assigned.id is None
                    &&& assigned.action matches PlayerActionView::Plain(
                        PlayerAction::PingPong(sweep),
                    )
                    &&& sweep.direction == if to_left > to_right {
                        PingPongDirection::Left
                    } else {
                        PingPongDirection::Right
                    }
                    &&& sweep.bound.x == bound.x
                    &&& i32::MIN <= bottom <= i32::MAX ==> sweep.bound.y == bottom
                    &&& sweep.bound.width == bound.width
                    &&& sweep.bound.height == bound.height
                    &&& sweep.key == key.key
                    &&& sweep.link_key == key.link_key
                    &&& sweep.with == key.with
                    &&& key.count >= 1 ==> sweep.count == key.count
                    &&& key.count == 0 ==> sweep.count == 1
                    &&& sweep.key_hold_ticks == (key.key_hold_millis / ms_per_tick) as u32
                    &&& sweep.wait_before_ticks == (key.wait_before_millis / ms_per_tick) as u32
                    &&& sweep.wait_before_ticks_random_range
                        == (key.wait_before_millis_random_range / ms_per_tick) as u32
                    &&& sweep.wait_after_ticks == (key.wait_after_millis / ms_per_tick) as u32
                    &&& sweep.wait_after_ticks_random_range == (key.wait_after_millis_random_range
                        / ms_per_tick) as u32
                } else {
                    after == context
                },
                _ => after == context,
            }
        }),
{
}

} // verus!
