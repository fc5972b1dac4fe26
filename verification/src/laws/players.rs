//! What a tick makes of the player.

use vstd::prelude::*;

use crate::ecs::{InputEvent, Minimap, Resources};
use crate::geometry::{near, squared_distance, Point, Rect};
use crate::models::{KeyKind, LinkKeyKind};
use crate::player::actions::{PlayerAction, PlayerActionView};
use crate::player::context::{Pathing, PlayerConfig, PlayerContextView};
use crate::player::moving::{Moving, MovingIntermediates};
use crate::player::timeout::Timeout;
use crate::player::{
    non_positional_update, positional_update, run_outcome, Player, StateUpdate,
};

use super::journeys::middle;
use super::park::only_actions_differ;

verus! {

/// How far the destination of a movement is horizontally, from `pos` or else from where the
/// movement was last seen.
pub open spec fn way(moving: Moving, pos: Option<Point>) -> int {
    let from = match pos {
        Some(pos) => pos.x,
        None => moving.pos.x,
    };
    if moving.dest.x >= from {
        moving.dest.x - from
    } else {
        from - moving.dest.x
    }
}

/// A player that does nothing can be interrupted. One that moves can be, unless it is closer to its
/// destination than half of a double jump, and one that jumps, grapples or falls only once that is
/// completed. A forced double jump and everything else cannot be.
pub proof fn players_are_interrupted_with_care(state: Player, pos: Option<Point>, threshold: i32)
    requires
        threshold >= 0,
    ensures
        state.overridable(pos, threshold) <==> match state {
            Player::Detecting => true,
            Player::Idle => true,
            Player::Moving(dest, _, _) => pos matches Some(pos) ==> dest.x - pos.x >= threshold as int
                / 2 || pos.x - dest.x >= threshold as int / 2,
            Player::DoubleJumping(jump) => !jump.forced && way(jump.moving, pos) >= threshold as int
                / 2,
            Player::Adjusting(walk) => way(walk.moving, pos) >= threshold as int / 2,
            Player::Grappling(grapple) => grapple.moving.completed,
            Player::Jumping(jump) => jump.completed,
            Player::UpJumping(jump) => jump.moving.completed,
            Player::Falling(fall) => fall.moving.completed,
            _ => false,
        },
{
}

/// Whether a state may hold a key down: left and right while walking, double jumping, waiting or
/// getting unstuck; the up arrow while up jumping; a key that is used with another one along with
/// it, and that other one; a key that is used for some time.
pub open spec fn may_hold(state: Player, key: KeyKind) -> bool {
    match state {
        Player::Adjusting(_) => key is Left || key is Right,
        Player::DoubleJumping(_) => key is Left || key is Right,
        Player::Stalling(_, _) => key is Left || key is Right,
        Player::Unstucking(_) => key is Left || key is Right,
        Player::UpJumping(_) => key is Up,
        Player::UseKey(used) => match used.key.link_key {
            LinkKeyKind::Along(along) => key == used.key.key || key == along,
            _ => key == used.key.key && used.key.key_hold_ticks > 0,
        },
        _ => false,
    }
}

/// The keys that are let go of when a state is dropped are all those that it may hold down, and no
/// others. The key itself is let go of before the one along with it, and left before right.
pub proof fn held_keys_are_let_go_of(state: Player, key: KeyKind)
    ensures
        state.keys_to_release().contains(key) <==> may_hold(state, key),
        state.keys_to_release().len() <= 2,
        state.keys_to_release().len() == 2 ==> {
            ||| state.keys_to_release() == seq![KeyKind::Left, KeyKind::Right]
            ||| (state matches Player::UseKey(used) && used.key.key == state.keys_to_release()[0])
        },
{
    let keys = state.keys_to_release();
    assert(keys.len() > 0 ==> keys.contains(keys[0]));
    assert(keys.len() > 1 ==> keys.contains(keys[1]));
}

/// Which update a state gets that does not depend on where the player is. One that waits or solves
/// a rune gets none while the player cannot be found.
pub proof fn updates_follow_the_state(state: Player, lost: bool)
    ensures
        ({
            let update = non_positional_update(state, lost);
            &&& update == Some(StateUpdate::UseKey) <==> state is UseKey
            &&& update == Some(StateUpdate::FamiliarsSwapping) <==> state is FamiliarsSwapping
            &&& update == Some(StateUpdate::Unstucking) <==> state is Unstucking
            &&& update == Some(StateUpdate::SolvingRune) <==> state is SolvingRune && !lost
            &&& update == Some(StateUpdate::SolvingShape) <==> state is SolvingShape
            &&& update == Some(StateUpdate::SolvingVioletta) <==> state is SolvingVioletta
            &&& update == Some(StateUpdate::CashShop(lost)) <==> state is CashShopThenExit
            &&& update == Some(StateUpdate::UsingBooster) <==> state is UsingBooster
            &&& update == Some(StateUpdate::ExchangingBooster) <==> state is ExchangingBooster
            &&& update == Some(StateUpdate::EnteringMonsterPark) <==> state is EnteringMonsterPark
            &&& update == Some(StateUpdate::NavigatingToHuntingGround) <==> state
                is NavigatingToHuntingGround
            &&& state matches Player::Panicking(panicking) ==> update == Some(
                StateUpdate::Panicking(panicking),
            )
            &&& state matches Player::Stalling(timeout, limit) ==> update == if lost {
                None
            } else {
                Some(StateUpdate::Stalling(timeout, limit))
            }
            &&& update is None <==> {
                ||| state is Detecting || state is Idle || state is Moving || state is Adjusting
                ||| state is DoubleJumping || state is Grappling || state is Jumping
                ||| state is UpJumping || state is Falling
                ||| lost && (state is Stalling || state is SolvingRune)
            }
        }),
{
}

/// Which update a state gets that depends on where the player is.
pub proof fn positional_updates_follow_the_state(state: Player)
    ensures
        ({
            let update = positional_update(state);
            &&& update == StateUpdate::Idle <==> state is Idle
            &&& update == StateUpdate::Moving <==> state is Moving
            &&& update == StateUpdate::Adjusting <==> state is Adjusting
            &&& update == StateUpdate::DoubleJumping <==> state is DoubleJumping
            &&& update == StateUpdate::Grappling <==> state is Grappling
            &&& update == StateUpdate::UpJumping <==> state is UpJumping
            &&& update == StateUpdate::Falling <==> state is Falling
            &&& state matches Player::Jumping(moving) ==> update == StateUpdate::Jumping(moving)
            &&& state is Detecting ==> update == StateUpdate::Done
        }),
{
}

/// The cash shop comes before everything else, once: all arrow keys are let go of, and the player
/// is about to enter it.
pub proof fn the_cash_shop_is_entered_once(
    state: Player,
    context: PlayerContextView,
    minimap: Minimap,
    halting: bool,
    did_update: bool,
)
    requires
        context.rune_cash_shop,
    ensures
        ({
            let outcome = run_outcome(state, context, minimap, halting, did_update);
            let up = InputEvent::KeyUp(KeyKind::Up);
            let down = InputEvent::KeyUp(KeyKind::Down);
            let left = InputEvent::KeyUp(KeyKind::Left);
            let right = InputEvent::KeyUp(KeyKind::Right);
            &&& outcome.state is CashShopThenExit
            &&& outcome.events == seq![up, down, left, right]
            &&& outcome.context == PlayerContextView {
                rune_cash_shop: false,
                reset_to_idle_next_update: false,
                ..context
            }
            &&& outcome.next.update == StateUpdate::Done
            &&& !outcome.next.clear_stalling_buffer
        }),
{
    let outcome = run_outcome(state, context, minimap, halting, did_update);
    assert(outcome.events.len() == 4);
}

/// A player that was found, or while halting, is updated by its state: idle if that was wished
/// for, which is then forgotten, and with the keys of the dropped state let go of. A player that
/// had been looked for is idle. The buffered states are cleared if that was wished for.
pub proof fn found_players_are_updated(
    state: Player,
    context: PlayerContextView,
    minimap: Minimap,
    halting: bool,
    did_update: bool,
)
    requires
        !context.rune_cash_shop,
        did_update || halting,
    ensures
        ({
            let outcome = run_outcome(state, context, minimap, halting, did_update);
            let resets = context.reset_to_idle_next_update;
            &&& outcome.context == PlayerContextView {
                reset_to_idle_next_update: false,
                reset_stalling_buffer_states_next_update: false,
                ..context
            }
            &&& outcome.next.clear_stalling_buffer
                == context.reset_stalling_buffer_states_next_update
            &&& resets ==> outcome.state is Idle && outcome.next.update == StateUpdate::Idle
            &&& resets ==> outcome.events.len() == state.keys_to_release().len()
            &&& resets ==> forall|i: int|
                0 <= i < outcome.events.len() ==> #[trigger] outcome.events[i]
                    == InputEvent::KeyUp(state.keys_to_release()[i])
            &&& !resets ==> {
                &&& outcome.events.len() == 0
                &&& state is Detecting ==> outcome.state is Idle && outcome.next.update
                    == StateUpdate::Done
                &&& !(state is Detecting) ==> outcome.state == state
                &&& non_positional_update(state, false) matches Some(update)
                    ==> outcome.next.update == update
                &&& non_positional_update(state, false) is None ==> outcome.next.update
                    == positional_update(state)
            }
        }),
{
}

/// A player that cannot be found goes on with what does not depend on where it is. Otherwise its
/// keys are let go of, and it gets unstuck if nothing covers the minimap, or else is looked for.
pub proof fn lost_players_go_on_or_are_looked_for(
    state: Player,
    context: PlayerContextView,
    minimap: Minimap,
)
    requires
        !context.rune_cash_shop,
    ensures
        ({
            let outcome = run_outcome(state, context, minimap, false, false);
            let uncovered = minimap matches Minimap::Idle(idle) && !idle.partially_overlapping;
            &&& outcome.context == context
            &&& !outcome.next.clear_stalling_buffer
            &&& match non_positional_update(state, true) {
                Some(update) => {
                    &&& outcome.state == state
                    &&& outcome.events.len() == 0
                    &&& outcome.next.update == update
                },
                None => {
                    &&& outcome.events.len() == state.keys_to_release().len()
                    &&& forall|i: int|
                        0 <= i < outcome.events.len() ==> #[trigger] outcome.events[i]
                            == InputEvent::KeyUp(state.keys_to_release()[i])
                    &&& uncovered ==> outcome.state == state && outcome.next.update
                        == StateUpdate::StartUnstucking
                    &&& !uncovered ==> outcome.state is Detecting && outcome.next.update
                        == StateUpdate::Done
                },
            }
        }),
{
}

/// What the player does next is what takes precedence, and otherwise what is in rotation. Nothing
/// but mobbing is to be done exactly if that is in rotation and nothing takes precedence.
pub proof fn precedence_comes_before_rotation(context: PlayerContextView)
    ensures
        context.priority matches Some(assigned) ==> context.next() == Some(assigned.action),
        context.priority is None && context.normal is Some ==> context.next() == Some(
            context.normal->0.action,
        ),
        context.priority is None && context.normal is None ==> context.next() is None,
        context.mobs_only() <==> context.priority is None && context.normal is Some && (
        context.normal->0.action matches PlayerActionView::Plain(PlayerAction::AutoMob(_))),
        context.normal_id() == match context.normal {
            Some(assigned) => assigned.id,
            None => None,
        },
        context.priority_id() == match context.priority {
            Some(assigned) => assigned.id,
            None => None,
        },
{
}

/// An action that is given to the player, in rotation or with precedence, takes the place of the
/// one before it there, makes the player start over, and changes nothing else. So does dropping
/// one. A completed one goes without starting over, the one with precedence first. Giving all up
/// drops both.
pub proof fn actions_are_given_and_taken(
    context: PlayerContextView,
    id: Option<u32>,
    action: PlayerActionView,
    should_idle: bool,
)
    ensures
        ({
            let rotated = context.with_normal(id, action);
            let preferred = context.with_priority(id, action);
            let completed = context.with_next_completed();
            let aborted = context.aborted(should_idle);
            &&& only_actions_differ(context, rotated)
            &&& rotated.priority == context.priority
            &&& rotated.normal matches Some(assigned) && assigned.id == id && assigned.action
                == action
            &&& rotated.reset_to_idle_next_update
            &&& only_actions_differ(context, preferred)
            &&& preferred.normal == context.normal
            &&& preferred.priority matches Some(assigned) && assigned.id == id && assigned.action
                == action
            &&& preferred.reset_to_idle_next_update
            &&& only_actions_differ(context, context.without_normal())
            &&& context.without_normal().normal is None
            &&& context.without_normal().priority == context.priority
            &&& context.without_normal().reset_to_idle_next_update
            &&& only_actions_differ(context, context.without_priority())
            &&& context.without_priority().priority is None
            &&& context.without_priority().normal == context.normal
            &&& context.without_priority().reset_to_idle_next_update
            &&& completed == PlayerContextView {
                normal: completed.normal,
                priority: None,
                last_movement: None,
                ..context
            }
            &&& context.priority is Some ==> completed.normal == context.normal
            &&& context.priority is None ==> completed.normal is None
            &&& only_actions_differ(context, aborted)
            &&& aborted.normal is None && aborted.priority is None
            &&& aborted.reset_to_idle_next_update == should_idle
        }),
{
}

/// How mobbing explores is read back as it was set, and setting it changes nothing else.
pub proof fn exploring_is_read_back(config: PlayerConfig, pathing: Pathing)
    ensures
        config.with_pathing(pathing).pathing() == pathing,
        config.with_pathing(config.pathing()) == config,
        config.with_pathing(pathing) == (PlayerConfig {
            auto_mob_platforms_pathing: pathing.platforms_pathing,
            auto_mob_platforms_pathing_up_jump_only: pathing.platforms_pathing_up_jump_only,
            auto_mob_use_key_when_pathing: pathing.use_key_when_pathing,
            auto_mob_use_key_when_pathing_update_millis: pathing.use_key_when_pathing_update_millis,
            ..config
        }),
{
}

/// A movement that has not started is at its position, with no tick passed. The final destination
/// is the last stop while on the way to another one, and the current one otherwise.
pub proof fn movements_have_destinations(
    pos: Point,
    dest: Point,
    exact: bool,
    stops: Option<MovingIntermediates>,
    moving: Moving,
)
    ensures
        Moving::fresh(pos, dest, exact, stops) == (Moving {
            pos,
            dest,
            exact,
            completed: false,
            timeout: Timeout { current: 0, total: 0, started: false },
            intermediates: stops,
        }),
        moving.destination(true) == moving.dest,
        moving.intermediates is None ==> moving.destination(false) == moving.dest
            && !moving.spec_is_destination_intermediate(),
        moving.intermediates matches Some(stops) ==> {
            &&& moving.spec_is_destination_intermediate() == stops.at_intermediate
            &&& moving.destination(false) == if stops.at_intermediate {
                stops.last
            } else {
                moving.dest
            }
        },
{
}

/// Middles, distances and closeness are what these words say.
pub proof fn places_are_measured(rect: Rect, height: int, a: Point, b: Point, tolerance: int)
    ensures
        rect.center_x() == middle(rect.x as int, rect.width as int),
        rect.center_y() == middle(rect.y as int, rect.height as int),
        rect.flipped_y(height) + rect.y + rect.height == height,
        squared_distance(a, b) == (a.x - b.x) * (a.x - b.x) + (a.y - b.y) * (a.y - b.y),
        near(a, b, tolerance) <==> {
            &&& -tolerance <= a.x - b.x <= tolerance
            &&& -tolerance <= a.y - b.y <= tolerance
        },
{
}

/// Sending inputs adds them after the ones before, and nothing else changes.
pub proof fn inputs_are_sent_in_order(
    before: Resources,
    after: Resources,
    events: Seq<InputEvent>,
)
    requires
        after.sent(before, events),
    ensures
        after.input.events@.len() == before.input.events@.len() + events.len(),
        after.input.events@.take(before.input.events@.len() as int) == before.input.events@,
        after.input.events@.skip(before.input.events@.len() as int) == events,
        after.detections == before.detections,
        after.polled@ == before.polled@,
        after.notifications@ == before.notifications@,
        after.completed_quests@ == before.completed_quests@,
        after.operation == before.operation,
        after.draws == before.draws,
        after.tick == before.tick,
{
}

/// Before anything is known of a player, there is nothing for it to do, it is nowhere and stands
/// still, and nothing is wished for.
pub proof fn fresh_players_have_nothing_to_do()
    ensures
        ({
            let context = PlayerContextView::fresh();
            let config = context.config;
            &&& context.normal is None && context.priority is None
            &&& context.name is None
            &&& context.last_known_pos is None
            &&& context.last_movement is None
            &&& context.auto_mob_last_quadrant is None
            &&& context.last_known_direction is Any
            &&& context.velocity.x.bits == 0 && context.velocity.y.bits == 0
            &&& !context.rune_cash_shop && !context.validating_rune && !context.dead
            &&& !context.familiars_swap_fail_count_limit_reached
            &&& !context.generic_booster_fail_count_limit_reached
            &&& !context.hexa_booster_fail_count_limit_reached
            &&& !context.reset_to_idle_next_update
            &&& !context.reset_stalling_buffer_states_next_update
            &&& !context.daily_quest_navigate_failed
            &&& config.up_jump_key is None && config.teleport_key is None
            &&& config.world_map_key is None
            &&& !config.up_jump_is_flight && !config.up_jump_specific_key_should_jump
            &&& !config.has_extended_teleport_range
            &&& !config.auto_mob_platforms_pathing && !config.auto_mob_use_key_when_pathing
        }),
{
}

} // verus!
