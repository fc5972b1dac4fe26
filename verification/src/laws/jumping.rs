//! How the player gets up to a higher platform.

use vstd::prelude::*;

use crate::ecs::{InputEvent, Minimap};
use crate::models::{ActionKeyWith, KeyKind};
use crate::player::actions::{PlayerAction, PlayerActionView};
use crate::player::context::{LastMovement, PlayerConfig, PlayerContextView, Speed};
use crate::player::moving::Moving;
use crate::player::timeout::MovingLifecycle;
use crate::player::up_jump::{
    draw_for, up_jumping_outcome, FollowUp, Mage, MageState, UpJumping, UpJumpingKind,
    UpJumpingOutcome,
};
use crate::player::Player;

verus! {

/// How far up the current destination is.
pub open spec fn height(moving: Moving) -> int {
    moving.dest.y - moving.pos.y
}

/// How far the current destination is, up or down.
pub open spec fn reach(moving: Moving) -> int {
    if height(moving) >= 0 {
        height(moving)
    } else {
        -height(moving)
    }
}

/// Whether a speed is greater than the positive one with the given bit pattern, up to infinity.
pub open spec fn faster(speed: Speed, bits: u32) -> bool {
    bits < speed.bits && speed.bits <= 0x7F80_0000
}

/// Whether a speed is a number that is not greater than the positive one with the given bit
/// pattern.
pub open spec fn not_faster(speed: Speed, bits: u32) -> bool {
    ||| speed.bits <= bits
    ||| 0x8000_0000 <= speed.bits && speed.bits <= 0xFF80_0000
}

/// The bit pattern of 1.3, from which on the player has jumped up.
pub open spec fn jumped() -> u32 {
    0x3FA6_6666
}

/// What a tick in the middle of an up jump comes to.
pub open spec fn midway(
    up_jumping: UpJumping,
    context: PlayerContextView,
    minimap: Minimap,
    perlin: bool,
    moving: Moving,
) -> UpJumpingOutcome {
    up_jumping_outcome(up_jumping, context, minimap, perlin, MovingLifecycle::Updated(moving))
}

/// The movement of an up jump that goes on.
pub open spec fn movement(state: Player) -> Moving {
    state->UpJumping_0.moving
}

/// Which key combination an up jump takes: that of a mage with a teleport key, and else the jump
/// key twice without an up jump key, the up arrow if that is the up jump key, and otherwise the
/// up jump key. The distance from which a mage jumps first is longer with an extended teleport.
pub proof fn combinations_follow_the_keys(
    moving: Moving,
    config: PlayerConfig,
    mobs_only: bool,
    coin: bool,
)
    ensures
        ({
            let planned = UpJumping::planned(moving, config, mobs_only, coin);
            let teleports = config.teleport_key is Some;
            &&& planned.moving == moving
            &&& planned.kind is Mage <==> teleports
            &&& planned.kind is JumpKey <==> !teleports && config.up_jump_key is None
            &&& planned.kind is UpArrow <==> !teleports && config.up_jump_key == Some(KeyKind::Up)
            &&& planned.kind matches UpJumpingKind::Mage(mage)
                ==> mage.teleport_with_jump_threshold == if config.has_extended_teleport_range {
                20int
            } else {
                19int
            }
            &&& planned.spam_delay == if !config.up_jump_specific_key_should_jump && reach(moving)
                <= 16 {
                12int
            } else {
                7int
            }
            &&& planned.auto_mob_wait_completion <==> mobs_only && coin
            &&& !planned.second_press_sent
        }),
{
}

/// An up jump starts only once the player is slow enough. Until then nothing is pressed, and the
/// up jump stays as it was, to be started again.
pub proof fn fast_players_wait(
    up_jumping: UpJumping,
    context: PlayerContextView,
    minimap: Minimap,
    perlin: bool,
    moving: Moving,
)
    ensures
        ({
            let outcome = up_jumping_outcome(
                up_jumping,
                context,
                minimap,
                perlin,
                MovingLifecycle::Started(moving),
            );
            let fast = faster(context.velocity.x, 0x3E8F_5C29) || faster(
                context.velocity.y,
                0x3ECC_CCCD,
            );
            let inside = minimap matches Minimap::Idle(idle) && idle.player_inside_portal;
            &&& outcome.follow_up is Nothing
            &&& outcome.events.len() == 0 <==> fast || inside
            &&& fast ==> {
                &&& outcome.context == context
                &&& outcome.state matches Player::UpJumping(after)
                &&& !after.moving.timeout.started
                &&& after.moving.timeout.current == moving.timeout.current
                &&& after.moving.timeout.total == moving.timeout.total
                &&& (after.moving.pos, after.moving.dest, after.moving.exact) == (
                    moving.pos,
                    moving.dest,
                    moving.exact,
                )
                &&& after.moving.completed == moving.completed
                &&& after.moving.intermediates == moving.intermediates
                &&& after.kind == up_jumping.kind
                &&& after.second_press_sent == up_jumping.second_press_sent
            }
            &&& !fast && inside ==> outcome.state is Idle
            &&& !fast && !inside ==> {
                &&& outcome.context == PlayerContextView {
                    last_movement: Some(LastMovement::UpJumping),
                    ..context
                }
                &&& outcome.state matches Player::UpJumping(after)
                &&& after.moving == moving
                &&& after.spam_delay == up_jumping.spam_delay
                &&& after.auto_mob_wait_completion == up_jumping.auto_mob_wait_completion
                &&& after.second_press_sent == up_jumping.second_press_sent
                &&& !(up_jumping.kind is Mage) ==> after.kind == up_jumping.kind
            }
        }),
{
}

/// What starts an up jump: the up arrow is held down, except where it is to be pressed after the
/// jump, and the jump key is pressed, first the one and then the other. A mage jumps to fly, and
/// otherwise only from its distance on and without an up jump key. With an up jump key of its own
/// a player jumps to fly or if so configured.
pub proof fn up_jumps_start_with_their_keys(
    up_jumping: UpJumping,
    context: PlayerContextView,
    minimap: Minimap,
    perlin: bool,
    moving: Moving,
)
    requires
        !faster(context.velocity.x, 0x3E8F_5C29),
        !faster(context.velocity.y, 0x3ECC_CCCD),
        !(minimap matches Minimap::Idle(idle) && idle.player_inside_portal),
    ensures
        ({
            let events = up_jumping_outcome(
                up_jumping,
                context,
                minimap,
                perlin,
                MovingLifecycle::Started(moving),
            ).events;
            let config = context.config;
            let jumps = match up_jumping.kind {
                UpJumpingKind::UpArrow => true,
                UpJumpingKind::JumpKey => true,
                UpJumpingKind::SpecificKey => config.up_jump_is_flight
                    || config.up_jump_specific_key_should_jump,
                UpJumpingKind::Mage(mage) => config.up_jump_is_flight || config.up_jump_key is None
                    && reach(moving) >= mage.teleport_with_jump_threshold,
            };
            let up = if up_jumping.kind is UpArrow {
                0int
            } else {
                1int
            };
            &&& events.len() == up + if jumps {
                1int
            } else {
                0
            }
            &&& up == 1 ==> events[0] == InputEvent::KeyDown(KeyKind::Up)
            &&& jumps ==> events.last() == InputEvent::Key(config.jump_key)
        }),
{
}

/// A mage flies if so configured, and otherwise jumps up first exactly from a distance of 23 on. It
/// keeps the distance from which it jumps before it teleports.
pub proof fn mages_start_by_distance(
    up_jumping: UpJumping,
    context: PlayerContextView,
    minimap: Minimap,
    perlin: bool,
    moving: Moving,
    mage: Mage,
)
    requires
        up_jumping.kind == UpJumpingKind::Mage(mage),
        !faster(context.velocity.x, 0x3E8F_5C29),
        !faster(context.velocity.y, 0x3ECC_CCCD),
        !(minimap matches Minimap::Idle(idle) && idle.player_inside_portal),
    ensures
        ({
            let state = up_jumping_outcome(
                up_jumping,
                context,
                minimap,
                perlin,
                MovingLifecycle::Started(moving),
            ).state;
            let flies = context.config.up_jump_is_flight;
            &&& state matches Player::UpJumping(after)
            &&& after.kind matches UpJumpingKind::Mage(started)
            &&& started.state is Flying <==> flies
            &&& started.state is UpJumping <==> !flies && reach(moving) >= 23
            &&& started.teleport_with_jump_threshold == mage.teleport_with_jump_threshold
        }),
{
}

/// An up jump that takes too long lets go of the up arrow, and goes back to moving to the same
/// destination.
pub proof fn late_up_jumps_go_back_to_moving(
    up_jumping: UpJumping,
    context: PlayerContextView,
    minimap: Minimap,
    perlin: bool,
    moving: Moving,
)
    ensures
        ({
            let outcome = up_jumping_outcome(
                up_jumping,
                context,
                minimap,
                perlin,
                MovingLifecycle::Ended(moving),
            );
            &&& outcome.state == Player::Moving(moving.dest, moving.exact, moving.intermediates)
            &&& outcome.context == context
            &&& outcome.follow_up is Nothing
            &&& outcome.events.len() == 1
            &&& outcome.events[0] == InputEvent::KeyUp(KeyKind::Up)
        }),
{
}

/// The presses that an up jump sends before it is completed are those of its combination: the up
/// arrow where that follows the jump, the jump key where it is pressed twice. Nothing else is
/// pressed, held down or let go of, unless the player goes on to another stop.
pub proof fn double_presses_use_their_key(
    up_jumping: UpJumping,
    context: PlayerContextView,
    minimap: Minimap,
    perlin: bool,
    moving: Moving,
)
    requires
        !moving.completed,
        up_jumping.kind is UpArrow || up_jumping.kind is JumpKey,
    ensures
        ({
            let outcome = midway(up_jumping, context, minimap, perlin, moving);
            let press = InputEvent::Key(
                if up_jumping.kind is UpArrow {
                    KeyKind::Up
                } else {
                    context.config.jump_key
                },
            );
            &&& forall|i: int|
                0 <= i < outcome.events.len() && !(outcome.state is Moving) ==> #[trigger]
                outcome.events[i] == press
            &&& forall|i: int|
                0 <= i < outcome.events.len() ==> #[trigger] outcome.events[i] == press
                    || outcome.events[i] == InputEvent::KeyUp(KeyKind::Up)
            &&& up_jumping.kind is UpArrow ==> forall|key: KeyKind|
                #[trigger] outcome.events.contains(InputEvent::Key(key)) ==> key == KeyKind::Up
            &&& up_jumping.kind is JumpKey ==> forall|key: KeyKind|
                #[trigger] outcome.events.contains(InputEvent::Key(key)) ==> key
                    == context.config.jump_key
        }),
{
}

/// The player's context without anything to do.
pub open spec fn unassigned(context: PlayerContextView) -> PlayerContextView {
    PlayerContextView { normal: None, priority: None, ..context }
}

/// What the player is to do next does not change which keys an up jump presses, nor whether it
/// completes. Once there, it may only end the up jump early, and then the up arrow is let go of at
/// a stop on the way.
pub proof fn actions_do_not_change_the_keys(
    up_jumping: UpJumping,
    context: PlayerContextView,
    minimap: Minimap,
    perlin: bool,
    moving: Moving,
)
    ensures
        ({
            let outcome = midway(up_jumping, context, minimap, perlin, moving);
            let bare = midway(up_jumping, unassigned(context), minimap, perlin, moving);
            &&& bare.state is UpJumping
            &&& bare.follow_up is Nothing
            &&& bare.context == unassigned(context)
            &&& outcome.context == context
            &&& outcome.state is UpJumping || outcome.state is Moving || outcome.state is UseKey
            &&& outcome.state is UpJumping ==> outcome.state == bare.state
            &&& outcome.state is Moving ==> outcome.events == bare.events.push(
                InputEvent::KeyUp(KeyKind::Up),
            )
            &&& !(outcome.state is Moving) ==> outcome.events == bare.events
            &&& movement(bare.state).pos == moving.pos
            &&& movement(bare.state).dest == moving.dest
            &&& movement(bare.state).exact == moving.exact
            &&& movement(bare.state).timeout == moving.timeout
            &&& movement(bare.state).intermediates == moving.intermediates
            &&& moving.completed ==> movement(bare.state).completed
            &&& bare.state->UpJumping_0.spam_delay == up_jumping.spam_delay
            &&& bare.state->UpJumping_0.auto_mob_wait_completion
                == up_jumping.auto_mob_wait_completion
            &&& !(up_jumping.kind is Mage) ==> bare.state->UpJumping_0.kind == up_jumping.kind
        }),
{
}

/// A completed up jump does nothing but let go of the up arrow.
pub proof fn completed_up_jumps_let_go(
    up_jumping: UpJumping,
    context: PlayerContextView,
    minimap: Minimap,
    perlin: bool,
    moving: Moving,
)
    requires
        moving.completed,
    ensures
        ({
            let bare = midway(up_jumping, unassigned(context), minimap, perlin, moving);
            &&& bare.events.len() == 1
            &&& bare.events[0] == InputEvent::KeyUp(KeyKind::Up)
            &&& bare.state->UpJumping_0.kind == up_jumping.kind
            &&& bare.state->UpJumping_0.second_press_sent == up_jumping.second_press_sent
        }),
{
}

/// The second press of a double press comes from the second tick on, whatever the speed. Only
/// after it does the speed decide: the up jump completes as soon as the player is fast enough, and
/// as long as it is not, the key is pressed again from the configured number of ticks on.
pub proof fn second_presses_come_in_time(
    up_jumping: UpJumping,
    context: PlayerContextView,
    minimap: Minimap,
    perlin: bool,
    moving: Moving,
)
    requires
        !moving.completed,
        up_jumping.kind is UpArrow || up_jumping.kind is JumpKey,
    ensures
        ({
            let bare = midway(up_jumping, unassigned(context), minimap, perlin, moving);
            let fast = faster(context.velocity.y, jumped());
            let pressed = bare.events.len() == 1;
            &&& bare.events.len() <= 1
            &&& !up_jumping.second_press_sent ==> {
                &&& pressed <==> moving.timeout.total >= 2
                &&& bare.state->UpJumping_0.second_press_sent <==> pressed
                &&& !movement(bare.state).completed
            }
            &&& up_jumping.second_press_sent ==> {
                &&& pressed <==> !fast && moving.timeout.total >= up_jumping.spam_delay
                &&& bare.state->UpJumping_0.second_press_sent
                &&& movement(bare.state).completed <==> fast
            }
        }),
{
}

/// An up jump key of its own is pressed once, which completes the up jump: at once, or after a jump
/// from the configured number of ticks on.
pub proof fn own_keys_are_pressed_once(
    up_jumping: UpJumping,
    context: PlayerContextView,
    minimap: Minimap,
    perlin: bool,
    moving: Moving,
    key: KeyKind,
)
    requires
        !moving.completed,
        up_jumping.kind is SpecificKey,
        !context.config.up_jump_is_flight,
        context.config.up_jump_key == Some(key),
    ensures
        ({
            let bare = midway(up_jumping, unassigned(context), minimap, perlin, moving);
            let due = context.config.up_jump_specific_key_should_jump ==> moving.timeout.total
                >= up_jumping.spam_delay;
            &&& bare.events.len() == if due {
                1int
            } else {
                0
            }
            &&& due ==> bare.events[0] == InputEvent::Key(key)
            &&& movement(bare.state).completed <==> due
        }),
{
}

/// A flight holds its key down as long as the destination is above, and completes by letting go of
/// it. A mage without an up jump key flies with the teleport key.
pub proof fn flights_hold_their_key(
    up_jumping: UpJumping,
    context: PlayerContextView,
    minimap: Minimap,
    perlin: bool,
    moving: Moving,
    key: KeyKind,
)
    requires
        !moving.completed,
        up_jumping.kind is SpecificKey && context.config.up_jump_is_flight || (up_jumping.kind
            matches UpJumpingKind::Mage(mage) && mage.state is Flying),
        context.config.up_jump_key == Some(key) || up_jumping.kind is Mage
            && context.config.up_jump_key is None && context.config.teleport_key == Some(key),
    ensures
        ({
            let bare = midway(up_jumping, unassigned(context), minimap, perlin, moving);
            let below = moving.pos.y < moving.dest.y;
            &&& bare.events.len() == 1
            &&& below ==> bare.events[0] == InputEvent::KeyDownRepeatable(key)
            &&& !below ==> bare.events[0] == InputEvent::KeyUp(key)
            &&& movement(bare.state).completed <==> !below
            &&& bare.state->UpJumping_0.kind == up_jumping.kind
        }),
{
}

/// A mage that is to teleport presses the teleport key, which completes the up jump, exactly when
/// the destination is above and within the distance that needs no jump.
pub proof fn mages_teleport_within_reach(
    up_jumping: UpJumping,
    context: PlayerContextView,
    minimap: Minimap,
    perlin: bool,
    moving: Moving,
    mage: Mage,
    key: KeyKind,
)
    requires
        !moving.completed,
        up_jumping.kind == UpJumpingKind::Mage(mage),
        mage.state is Teleporting,
        context.config.teleport_key == Some(key),
    ensures
        ({
            let bare = midway(up_jumping, unassigned(context), minimap, perlin, moving);
            let within = moving.pos.y < moving.dest.y && moving.dest.y - moving.pos.y
                < mage.teleport_with_jump_threshold;
            &&& bare.events.len() == if within {
                1int
            } else {
                0
            }
            &&& within ==> bare.events[0] == InputEvent::Key(key)
            &&& movement(bare.state).completed <==> within
            &&& bare.state->UpJumping_0.kind == up_jumping.kind
        }),
{
}

/// A mage that jumps up first does not complete by that. It presses its up jump key once and is
/// then to teleport. Without one, it is to teleport as soon as it is fast enough, and until then
/// presses the jump key from the configured number of ticks on.
pub proof fn mages_jump_up_before_teleporting(
    up_jumping: UpJumping,
    context: PlayerContextView,
    minimap: Minimap,
    perlin: bool,
    moving: Moving,
    mage: Mage,
)
    requires
        !moving.completed,
        up_jumping.kind == UpJumpingKind::Mage(mage),
        mage.state is UpJumping,
    ensures
        ({
            let bare = midway(up_jumping, unassigned(context), minimap, perlin, moving);
            let slow = not_faster(context.velocity.y, jumped());
            let spams = slow && moving.timeout.total >= up_jumping.spam_delay;
            &&& !movement(bare.state).completed
            &&& bare.state->UpJumping_0.kind matches UpJumpingKind::Mage(after)
            &&& after.teleport_with_jump_threshold == mage.teleport_with_jump_threshold
            &&& match context.config.up_jump_key {
                Some(key) => {
                    &&& bare.events.len() == 1
                    &&& bare.events[0] == InputEvent::Key(key)
                    &&& after.state is Teleporting
                },
                None => {
                    &&& bare.events.len() == if spams {
                        1int
                    } else {
                        0
                    }
                    &&& spams ==> bare.events[0] == InputEvent::Key(context.config.jump_key)
                    &&& after.state == if slow {
                        MageState::UpJumping
                    } else {
                        MageState::Teleporting
                    }
                },
            }
        }),
{
}

/// Where an up jump leads over to: mobbing goes on to the next stop once the current one is
/// reached from above, waits for the up jump if so decided, and otherwise follows with the way to
/// the final destination. A key that may be used at any time is used once the destination is
/// reached from above. A sweep follows a completed up jump, if the draw says so. Everything else
/// waits.
pub proof fn up_jumps_lead_over(
    up_jumping: UpJumping,
    context: PlayerContextView,
    minimap: Minimap,
    perlin: bool,
    moving: Moving,
)
    ensures
        ({
            let outcome = midway(up_jumping, context, minimap, perlin, moving);
            let bare = midway(up_jumping, unassigned(context), minimap, perlin, moving);
            let done = movement(bare.state).completed;
            let above = moving.pos.y >= moving.dest.y;
            let stop = moving.intermediates matches Some(stops) && stops.at_intermediate;
            let last = match moving.intermediates {
                Some(stops) => if stops.at_intermediate {
                    stops.last
                } else {
                    moving.dest
                },
                None => moving.dest,
            };
            match context.next() {
                Some(PlayerActionView::Plain(PlayerAction::AutoMob(mob))) => {
                    &&& outcome.state is Moving <==> done && stop && above
                    &&& outcome.state is Moving ==> outcome.state == Player::Moving(
                        moving.dest,
                        moving.exact,
                        moving.intermediates,
                    )
                    &&& outcome.follow_up is Nothing <==> done && stop && above || !done
                        && up_jumping.auto_mob_wait_completion
                    &&& !(outcome.follow_up is PingPong)
                    &&& outcome.follow_up matches FollowUp::AutoMob {
                        mob: followed,
                        x_distance,
                        x_direction,
                        y_distance,
                        y_direction,
                    } ==> {
                        &&& followed == mob
                        &&& x_direction == last.x - moving.pos.x
                        &&& y_direction == last.y - moving.pos.y
                        &&& x_distance >= 0 && (x_distance == x_direction || x_distance
                            == -x_direction)
                        &&& y_distance >= 0 && (y_distance == y_direction || y_distance
                            == -y_direction)
                    }
                    &&& !(outcome.state is UseKey)
                },
                Some(PlayerActionView::Plain(PlayerAction::Key(key))) => {
                    &&& outcome.follow_up is Nothing
                    &&& outcome.state is UseKey <==> key.with == ActionKeyWith::Any && done && above
                    &&& outcome.state matches Player::UseKey(used) ==> used.key == key
                    &&& !(outcome.state is Moving)
                },
                Some(PlayerActionView::Plain(PlayerAction::PingPong(ping_pong))) => {
                    &&& outcome.state is UpJumping
                    &&& outcome.follow_up == if done && perlin {
                        FollowUp::PingPong(ping_pong, moving.pos)
                    } else {
                        FollowUp::Nothing
                    }
                },
                _ => outcome.state is UpJumping && outcome.follow_up is Nothing,
            }
        }),
{
}

/// A draw is asked for exactly in the middle of an up jump that is completed and about to lead
/// over to a sweep. It is to be made where the player is, in this tick, and is true seven times out
/// of ten.
pub proof fn draws_are_made_where_the_player_is(
    up_jumping: UpJumping,
    context: PlayerContextView,
    minimap: Minimap,
    tick: u64,
    lifecycle: MovingLifecycle,
)
    ensures
        match (draw_for(up_jumping, context, tick, lifecycle), lifecycle) {
            (Some(draw), MovingLifecycle::Updated(moving)) => {
                let bare = midway(up_jumping, unassigned(context), minimap, true, moving);
                &&& draw.position == moving.pos
                &&& draw.tick == tick
                &&& draw.percent == 70
                &&& movement(bare.state).completed
                &&& context.next() matches Some(
                    PlayerActionView::Plain(PlayerAction::PingPong(_)),
                )
            },
            (Some(_), _) => false,
            (None, MovingLifecycle::Updated(moving)) => {
                let bare = midway(up_jumping, unassigned(context), minimap, true, moving);
                movement(bare.state).completed ==> !(context.next() matches Some(
                    PlayerActionView::Plain(PlayerAction::PingPong(_)),
                ))
            },
            (None, _) => true,
        },
{
}

} // verus!
