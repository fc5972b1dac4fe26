//! Up jumping: reaching a higher platform, with the key combination of the player's class.

use vstd::prelude::*;

use super::actions::{AutoMob, PingPong, PlayerAction, PlayerActionView};
use super::context::{LastMovement, PlayerConfig, PlayerContext, PlayerContextView, Speed, Velocity};
use super::moving::Moving;
use super::timeout::{MovingLifecycle, Timeout};
use super::{Player, PlayerEntity, UseKey};
use crate::ecs::{InputEvent, Minimap, Resources};
use crate::geometry::{magnitude, Point};
use crate::models::{ActionKeyWith, KeyKind};

verus! {

/// Number of ticks to wait before spamming jump key.
pub const SPAM_DELAY: u32 = 7;

/// Number of ticks to wait before sending the follow-up key press of [`UpJumpingKind::UpArrow`]
/// and [`UpJumpingKind::JumpKey`].
///
/// A plain jump is fast enough to count as an up jump after four to six ticks. The follow-up key
/// press has to be sent before that.
pub const SECOND_PRESS_DELAY: u32 = 2;

/// Number of ticks to wait before spamming jump key for lesser travel distance.
pub const SOFT_SPAM_DELAY: u32 = 12;

/// How many ticks an up jump may take on top of any other movement.
pub const EXTRA_TIMEOUT: u32 = 3;

/// The bit pattern of 1.3, the y velocity above which the player counts as up jumped.
pub const UP_JUMPED_Y_VELOCITY_THRESHOLD_BITS: u32 = 0x3FA6_6666;

/// The bit pattern of 0.28, the x velocity up to which the player counts as near stationary.
pub const X_NEAR_STATIONARY_THRESHOLD_BITS: u32 = 0x3E8F_5C29;

/// The bit pattern of 0.4, the y velocity up to which the player counts as near stationary.
pub const Y_NEAR_STATIONARY_VELOCITY_THRESHOLD_BITS: u32 = 0x3ECC_CCCD;

/// Minimum distance required to perform an up jump using teleport key with jump.
pub const TELEPORT_WITH_JUMP_THRESHOLD: i32 = 19;

/// Minimum distance required to perform an up jump using teleport key with jump when the range
/// of teleport is extended.
pub const EXTENDED_TELEPORT_WITH_JUMP_THRESHOLD: i32 = 20;

/// Minimum distance required to perform an up jump and then teleport.
pub const UP_JUMP_AND_TELEPORT_THRESHOLD: i32 = 23;

/// Maximum distance to count as a lesser travel distance.
pub const SOFT_UP_JUMP_THRESHOLD: i32 = 16;

/// What a mage is doing.
#[derive(Clone, Copy, Debug, PartialEq, Eq, Structural)]
pub enum MageState {
    Teleporting,
    /// Up jumping, to teleport afterwards.
    UpJumping,
    Flying,
}

/// The up jump of a class that teleports.
#[derive(Clone, Copy, Debug, PartialEq, Eq, Structural)]
pub struct Mage {
    pub state: MageState,
    pub teleport_with_jump_threshold: i32,
}

/// The key combination of an up jump.
#[derive(Clone, Copy, Debug, PartialEq, Eq, Structural)]
pub enum UpJumpingKind {
    Mage(Mage),
    /// Jump, then the up arrow.
    UpArrow,
    /// Jump twice while holding the up arrow.
    JumpKey,
    /// A key of its own while holding the up arrow.
    SpecificKey,
}

/// An up jump.
#[derive(Clone, Copy, Debug, PartialEq, Eq, Structural)]
pub struct UpJumping {
    pub moving: Moving,
    pub kind: UpJumpingKind,
    /// Number of ticks to wait before sending jump keys.
    pub spam_delay: u32,
    /// Whether mobbing should wait until the up jump is completed, unless on the way to another
    /// destination.
    pub auto_mob_wait_completion: bool,
    /// Whether the follow-up key press of [`UpJumpingKind::UpArrow`] or
    /// [`UpJumpingKind::JumpKey`] has been sent.
    ///
    /// It is sent on a timer of its own, since a plain jump is soon fast enough to count as an
    /// up jump. Only then is velocity looked at.
    pub second_press_sent: bool,
}

/// The key combination for a configuration.
pub open spec fn kind_for(
    up_jump_key: Option<KeyKind>,
    has_teleport_key: bool,
    has_extended_teleport_range: bool,
) -> UpJumpingKind {
    if has_teleport_key {
        UpJumpingKind::Mage(
            Mage {
                state: MageState::Teleporting,
                teleport_with_jump_threshold: if has_extended_teleport_range {
                    EXTENDED_TELEPORT_WITH_JUMP_THRESHOLD
                } else {
                    TELEPORT_WITH_JUMP_THRESHOLD
                },
            },
        )
    } else {
        match up_jump_key {
            None => UpJumpingKind::JumpKey,
            Some(KeyKind::Up) => UpJumpingKind::UpArrow,
            Some(_) => UpJumpingKind::SpecificKey,
        }
    }
}

/// The vertical distance to the current destination.
pub open spec fn rise(moving: Moving) -> int {
    moving.dest.y - moving.pos.y
}

impl UpJumping {
    /// An up jump along `moving` that has not started.
    pub open spec fn planned(
        moving: Moving,
        config: PlayerConfig,
        mobs_only: bool,
        coin: bool,
    ) -> UpJumping {
        UpJumping {
            moving,
            kind: kind_for(
                config.up_jump_key,
                config.teleport_key is Some,
                config.has_extended_teleport_range,
            ),
            spam_delay: if !config.up_jump_specific_key_should_jump && magnitude(rise(moving))
                <= SOFT_UP_JUMP_THRESHOLD {
                SOFT_SPAM_DELAY
            } else {
                SPAM_DELAY
            },
            auto_mob_wait_completion: mobs_only && coin,
            second_press_sent: false,
        }
    }

    /// An up jump along `moving` that has not started. Whether mobbing waits for it is left to
    /// chance.
    pub fn new(moving: Moving, resources: &mut Resources, player_context: &PlayerContext) -> (r:
        Self)
        ensures
            r == UpJumping::planned(
                moving,
                player_context.config,
                player_context@.mobs_only(),
                old(resources).draws.coin,
            ),
            *final(resources) == *old(resources),
    {
        let (y_distance, _) = moving.y_distance_direction_from(true, moving.pos);
        let spam_delay: u32 = if !player_context.config.up_jump_specific_key_should_jump
            && y_distance <= SOFT_UP_JUMP_THRESHOLD as i64 {
            SOFT_SPAM_DELAY
        } else {
            SPAM_DELAY
        };
        let auto_mob_wait_completion = player_context.has_auto_mob_action_only()
            && resources.draws.coin;
        let kind = up_jumping_kind(
            player_context.config.up_jump_key,
            player_context.config.teleport_key.is_some(),
            player_context.config.has_extended_teleport_range,
        );
        Self { moving, kind, spam_delay, auto_mob_wait_completion, second_press_sent: false }
    }

    /// This up jump with another movement.
    pub fn moving(self, moving: Moving) -> (r: UpJumping)
        ensures
            r == (UpJumping { moving, ..self }),
    {
        let mut up_jumping = self;
        up_jumping.moving = moving;
        up_jumping
    }
}

/// The number of ticks after which an up jump is given up.
pub fn up_jump_timeout(move_timeout: u32) -> (r: u32)
    requires
        move_timeout <= u32::MAX - EXTRA_TIMEOUT,
    ensures
        r == move_timeout + 3,
{
    move_timeout + EXTRA_TIMEOUT
}

/// What is left to be done after an up jump was updated.
#[derive(Clone, Copy, Debug, PartialEq, Eq, Structural)]
pub enum FollowUp {
    Nothing,
    /// To mob. The distances and directions are to the final destination.
    AutoMob { mob: AutoMob, x_distance: i64, x_direction: i64, y_distance: i64, y_direction: i64 },
    /// To sweep, from the given position.
    PingPong(PingPong, Point),
}

/// What updating an up jump comes to.
pub struct UpJumpingOutcome {
    pub state: Player,
    pub context: PlayerContextView,
    pub events: Seq<InputEvent>,
    pub follow_up: FollowUp,
}

/// What the keys do within a tick: the inputs, the movement and the up jump after them.
pub struct UpJumpStep {
    pub events: Seq<InputEvent>,
    pub moving: Moving,
    pub up_jumping: UpJumping,
}

/// Flying with `key`: hold it while below the destination, and let go once there.
pub open spec fn flying_step(moving: Moving, y_direction: int, key: KeyKind) -> (
    Seq<InputEvent>,
    Moving,
) {
    if y_direction > 0 {
        (seq![InputEvent::KeyDownRepeatable(key)], moving)
    } else {
        (seq![InputEvent::KeyUp(key)], Moving { completed: true, ..moving })
    }
}

/// The up jump of a mage.
pub open spec fn mage_step(
    config: PlayerConfig,
    velocity: Velocity,
    moving: Moving,
    mage: Mage,
    spam_delay: u32,
    y_distance: int,
    y_direction: int,
) -> (Seq<InputEvent>, Moving, Mage) {
    let teleporting = Mage { state: MageState::Teleporting, ..mage };
    match mage.state {
        MageState::Teleporting => if y_direction > 0 && y_distance
            < mage.teleport_with_jump_threshold {
            (
                seq![InputEvent::Key(config.teleport_key->0)],
                Moving { completed: true, ..moving },
                mage,
            )
        } else {
            (seq![], moving, mage)
        },
        MageState::UpJumping => match config.up_jump_key {
            Some(key) => (seq![InputEvent::Key(key)], moving, teleporting),
            None => if !velocity.y.is_at_most(
                Speed { bits: UP_JUMPED_Y_VELOCITY_THRESHOLD_BITS },
            ) {
                (seq![], moving, teleporting)
            } else if moving.timeout.total >= spam_delay {
                (seq![InputEvent::Key(config.jump_key)], moving, mage)
            } else {
                (seq![], moving, mage)
            },
        },
        MageState::Flying => {
            let key = match config.up_jump_key {
                Some(key) => key,
                None => config.teleport_key->0,
            };
            let (events, moving) = flying_step(moving, y_direction, key);
            (events, moving, mage)
        },
    }
}

/// The key that is pressed again after a jump.
pub open spec fn second_key(kind: UpJumpingKind, config: PlayerConfig) -> KeyKind {
    if kind is UpArrow {
        KeyKind::Up
    } else {
        config.jump_key
    }
}

/// What the keys do within a tick of an up jump that has started.
pub open spec fn up_jump_step(
    config: PlayerConfig,
    velocity: Velocity,
    moving: Moving,
    up_jumping: UpJumping,
    y_distance: int,
    y_direction: int,
) -> UpJumpStep {
    let quiet = UpJumpStep { events: seq![], moving, up_jumping };
    let done = Moving { completed: true, ..moving };
    if moving.completed {
        UpJumpStep { events: seq![InputEvent::KeyUp(KeyKind::Up)], ..quiet }
    } else {
        match up_jumping.kind {
            UpJumpingKind::Mage(mage) => {
                let (events, moving, mage) = mage_step(
                    config,
                    velocity,
                    moving,
                    mage,
                    up_jumping.spam_delay,
                    y_distance,
                    y_direction,
                );
                UpJumpStep {
                    events,
                    moving,
                    up_jumping: UpJumping { kind: UpJumpingKind::Mage(mage), ..up_jumping },
                }
            },
            UpJumpingKind::UpArrow | UpJumpingKind::JumpKey => {
                let press = seq![InputEvent::Key(second_key(up_jumping.kind, config))];
                if !up_jumping.second_press_sent {
                    if moving.timeout.total >= SECOND_PRESS_DELAY {
                        UpJumpStep {
                            events: press,
                            moving,
                            up_jumping: UpJumping { second_press_sent: true, ..up_jumping },
                        }
                    } else {
                        quiet
                    }
                } else if velocity.y.is_above(
                    Speed { bits: UP_JUMPED_Y_VELOCITY_THRESHOLD_BITS },
                ) {
                    UpJumpStep { moving: done, ..quiet }
                } else if moving.timeout.total >= up_jumping.spam_delay {
                    UpJumpStep { events: press, ..quiet }
                } else {
                    quiet
                }
            },
            UpJumpingKind::SpecificKey => if config.up_jump_is_flight {
                let (events, moving) = flying_step(moving, y_direction, config.up_jump_key->0);
                UpJumpStep { events, moving, up_jumping }
            } else if !config.up_jump_specific_key_should_jump || moving.timeout.total
                >= up_jumping.spam_delay {
                UpJumpStep {
                    events: seq![InputEvent::Key(config.up_jump_key->0)],
                    moving: done,
                    up_jumping,
                }
            } else {
                quiet
            },
        }
    }
}

/// Whether the keys that [`up_jump_step`] presses are configured.
pub open spec fn keys_configured(
    config: PlayerConfig,
    moving: Moving,
    up_jumping: UpJumping,
) -> bool {
    moving.completed || match up_jumping.kind {
        UpJumpingKind::Mage(_) => config.teleport_key is Some,
        UpJumpingKind::SpecificKey => {
            (config.up_jump_is_flight || !config.up_jump_specific_key_should_jump
                || moving.timeout.total >= up_jumping.spam_delay) ==> config.up_jump_key is Some
        },
        _ => true,
    }
}

/// Whether an action is one that a player moves for.
pub open spec fn moves_for(action: Option<PlayerActionView>) -> bool {
    match action {
        None => true,
        Some(PlayerActionView::Plain(action)) => {
            action is AutoMob || action is Key || action is PingPong || action is Move
                || action is SolveRune
        },
        Some(PlayerActionView::Navigate(_)) => false,
    }
}

/// What the next action makes of an up jump after its keys were handled.
pub open spec fn next_outcome(
    context: PlayerContextView,
    perlin: bool,
    step: UpJumpStep,
    y_direction: int,
) -> UpJumpingOutcome {
    let moving = step.moving;
    let on = UpJumpingOutcome {
        state: Player::UpJumping(UpJumping { moving, ..step.up_jumping }),
        context,
        events: step.events,
        follow_up: FollowUp::Nothing,
    };
    match context.next() {
        Some(PlayerActionView::Plain(PlayerAction::AutoMob(mob))) => {
            if moving.completed && moving.spec_is_destination_intermediate() && y_direction <= 0 {
                UpJumpingOutcome {
                    state: Player::Moving(moving.dest, moving.exact, moving.intermediates),
                    events: step.events.push(InputEvent::KeyUp(KeyKind::Up)),
                    ..on
                }
            } else if step.up_jumping.auto_mob_wait_completion && !moving.completed {
                on
            } else {
                let x = moving.destination(false).x - moving.pos.x;
                let y = moving.destination(false).y - moving.pos.y;
                UpJumpingOutcome {
                    follow_up: FollowUp::AutoMob {
                        mob,
                        x_distance: magnitude(x) as i64,
                        x_direction: x as i64,
                        y_distance: magnitude(y) as i64,
                        y_direction: y as i64,
                    },
                    ..on
                }
            }
        },
        Some(PlayerActionView::Plain(PlayerAction::Key(key))) => {
            if key.with == ActionKeyWith::Any && moving.completed && y_direction <= 0 {
                UpJumpingOutcome { state: Player::UseKey(UseKey { key }), ..on }
            } else {
                on
            }
        },
        Some(PlayerActionView::Plain(PlayerAction::PingPong(ping_pong))) => {
            if moving.completed && perlin {
                UpJumpingOutcome { follow_up: FollowUp::PingPong(ping_pong, moving.pos), ..on }
            } else {
                on
            }
        },
        _ => on,
    }
}

/// The kind of an up jump that starts: a mage picks what to do by the distance.
pub open spec fn started_kind(
    kind: UpJumpingKind,
    is_flight: bool,
    y_distance: int,
) -> UpJumpingKind {
    match kind {
        UpJumpingKind::Mage(mage) => UpJumpingKind::Mage(
            Mage {
                state: if is_flight {
                    MageState::Flying
                } else if y_distance >= UP_JUMP_AND_TELEPORT_THRESHOLD {
                    MageState::UpJumping
                } else {
                    MageState::Teleporting
                },
                ..mage
            },
        ),
        _ => kind,
    }
}

/// The keys that start an up jump.
pub open spec fn started_events(
    kind: UpJumpingKind,
    config: PlayerConfig,
    y_distance: int,
) -> Seq<InputEvent> {
    let up = InputEvent::KeyDown(KeyKind::Up);
    let jump = InputEvent::Key(config.jump_key);
    let jumps = match kind {
        UpJumpingKind::Mage(mage) => config.up_jump_is_flight || (y_distance
            >= mage.teleport_with_jump_threshold && config.up_jump_key is None),
        UpJumpingKind::UpArrow | UpJumpingKind::JumpKey => true,
        UpJumpingKind::SpecificKey => config.up_jump_is_flight
            || config.up_jump_specific_key_should_jump,
    };
    if kind is UpArrow {
        seq![jump]
    } else if jumps {
        seq![up, jump]
    } else {
        seq![up]
    }
}

/// Whether the player is near stationary.
pub open spec fn near_stationary(velocity: Velocity) -> bool {
    &&& !velocity.x.is_above(Speed { bits: X_NEAR_STATIONARY_THRESHOLD_BITS })
    &&& !velocity.y.is_above(Speed { bits: Y_NEAR_STATIONARY_VELOCITY_THRESHOLD_BITS })
}

/// Whether the player stands in a portal.
pub open spec fn inside_portal(minimap: Minimap) -> bool {
    match minimap {
        Minimap::Idle(idle) => idle.player_inside_portal,
        Minimap::Detecting => false,
    }
}

/// What updating an up jump comes to.
pub open spec fn up_jumping_outcome(
    up_jumping: UpJumping,
    context: PlayerContextView,
    minimap: Minimap,
    perlin: bool,
    lifecycle: MovingLifecycle,
) -> UpJumpingOutcome {
    let config = context.config;
    match lifecycle {
        MovingLifecycle::Started(moving) => {
            let y_distance = magnitude(rise(moving));
            let kind = started_kind(up_jumping.kind, config.up_jump_is_flight, y_distance);
            if !near_stationary(context.velocity) {
                UpJumpingOutcome {
                    state: Player::UpJumping(
                        UpJumping {
                            moving: Moving {
                                timeout: Timeout { started: false, ..moving.timeout },
                                ..moving
                            },
                            ..up_jumping
                        },
                    ),
                    context,
                    events: seq![],
                    follow_up: FollowUp::Nothing,
                }
            } else if inside_portal(minimap) {
                UpJumpingOutcome {
                    state: Player::Idle,
                    context: context.with_next_completed(),
                    events: seq![],
                    follow_up: FollowUp::Nothing,
                }
            } else {
                UpJumpingOutcome {
                    state: Player::UpJumping(UpJumping { moving, kind, ..up_jumping }),
                    context: PlayerContextView {
                        last_movement: Some(LastMovement::UpJumping),
                        ..context
                    },
                    events: started_events(kind, config, y_distance),
                    follow_up: FollowUp::Nothing,
                }
            }
        },
        MovingLifecycle::Ended(moving) => UpJumpingOutcome {
            state: Player::Moving(moving.dest, moving.exact, moving.intermediates),
            context,
            events: seq![InputEvent::KeyUp(KeyKind::Up)],
            follow_up: FollowUp::Nothing,
        },
        MovingLifecycle::Updated(moving) => next_outcome(
            context,
            perlin,
            up_jump_step(
                config,
                context.velocity,
                moving,
                up_jumping,
                magnitude(rise(moving)),
                rise(moving),
            ),
            rise(moving),
        ),
    }
}

/// How often out of a hundred times the draw for sweeping after an up jump is true.
pub const SWEEP_PERCENT: u32 = 70;

/// A draw that is correlated over time and space, and where and when it is to be made.
#[derive(Clone, Copy, Debug, PartialEq, Eq, Structural)]
pub struct PerlinDraw {
    pub position: Point,
    pub tick: u64,
    /// How often out of a hundred times it is true.
    pub percent: u32,
}

/// Whether the keys of this tick leave an up jump that has started completed.
pub open spec fn completes(
    config: PlayerConfig,
    velocity: Velocity,
    moving: Moving,
    up_jumping: UpJumping,
) -> bool {
    up_jump_step(
        config,
        velocity,
        moving,
        up_jumping,
        magnitude(rise(moving)),
        rise(moving),
    ).moving.completed
}

/// The draw that updating an up jump depends on, if it depends on one: it is made where a
/// completed up jump leads over to a sweep.
pub open spec fn draw_for(
    up_jumping: UpJumping,
    context: PlayerContextView,
    tick: u64,
    lifecycle: MovingLifecycle,
) -> Option<PerlinDraw> {
    match lifecycle {
        MovingLifecycle::Updated(moving) => {
            let sweeps = context.next() matches Some(
                PlayerActionView::Plain(PlayerAction::PingPong(_)),
            );
            if sweeps && completes(context.config, context.velocity, moving, up_jumping) {
                Some(PerlinDraw { position: moving.pos, tick, percent: SWEEP_PERCENT })
            } else {
                None
            }
        },
        _ => None,
    }
}

fn will_complete(
    config: &PlayerConfig,
    velocity: Velocity,
    moving: &Moving,
    up_jumping: &UpJumping,
) -> (r: bool)
    ensures
        r == completes(*config, velocity, *moving, *up_jumping),
{
    if moving.completed {
        return true;
    }
    let (y_distance, y_direction) = moving.y_distance_direction_from(true, moving.pos);
    match up_jumping.kind {
        UpJumpingKind::Mage(mage) => match mage.state {
            MageState::Teleporting => {
                y_direction > 0 && y_distance < mage.teleport_with_jump_threshold as i64
            },
            MageState::UpJumping => false,
            MageState::Flying => y_direction <= 0,
        },
        UpJumpingKind::UpArrow | UpJumpingKind::JumpKey => {
            up_jumping.second_press_sent && velocity.y.above(
                Speed { bits: UP_JUMPED_Y_VELOCITY_THRESHOLD_BITS },
            )
        },
        UpJumpingKind::SpecificKey => if config.up_jump_is_flight {
            y_direction <= 0
        } else {
            !config.up_jump_specific_key_should_jump || moving.timeout.total
                >= up_jumping.spam_delay
        },
    }
}

/// The draw that [`update_up_jumping_state`] depends on in this tick, if it depends on one.
pub fn perlin_draw(
    resources: &Resources,
    player: &PlayerEntity,
    lifecycle: MovingLifecycle,
) -> (r: Option<PerlinDraw>)
    ensures
        r == match player.state {
            Player::UpJumping(up_jumping) => draw_for(
                up_jumping,
                player.context@,
                resources.tick,
                lifecycle,
            ),
            _ => None,
        },
{
    let up_jumping = match &player.state {
        Player::UpJumping(up_jumping) => *up_jumping,
        _ => {
            return None;
        },
    };
    let moving = match lifecycle {
        MovingLifecycle::Updated(moving) => moving,
        _ => {
            return None;
        },
    };
    let sweeps = match player.context.next_action() {
        Some(PlayerAction::PingPong(_)) => true,
        _ => false,
    };
    if sweeps && will_complete(
        &player.context.config,
        player.context.velocity,
        &moving,
        &up_jumping,
    ) {
        Some(PerlinDraw { position: moving.pos, tick: resources.tick, percent: SWEEP_PERCENT })
    } else {
        None
    }
}

/// Updates an up jump.
///
/// An up jump starts once the player is near stationary. It is given up when the player stands
/// in a portal, which pressing the up arrow would lead through.
///
/// `lifecycle` is what this tick makes of the movement, along the vertical axis and with
/// [`up_jump_timeout`] as the limit. Where [`perlin_draw`] asks for a draw, it has been made.
pub fn update_up_jumping_state(
    resources: &mut Resources,
    player: &mut PlayerEntity,
    minimap_state: Minimap,
    lifecycle: MovingLifecycle,
) -> (r: FollowUp)
    requires
        old(player).state is UpJumping,
        lifecycle matches MovingLifecycle::Updated(moving) ==> {
            &&& keys_configured(old(player).context.config, moving, old(player).state->UpJumping_0)
            &&& moves_for(old(player).context@.next())
        },
    ensures
        ({
            let outcome = up_jumping_outcome(
                old(player).state->UpJumping_0,
                old(player).context@,
                minimap_state,
                old(resources).draws.perlin,
                lifecycle,
            );
            &&& r == outcome.follow_up
            &&& final(player).state == outcome.state
            &&& final(player).context@ == outcome.context
            &&& final(resources).sent(*old(resources), outcome.events)
        }),
{
    let mut up_jumping = match &player.state {
        Player::UpJumping(up_jumping) => *up_jumping,
        _ => {
            return FollowUp::Nothing;
        },
    };
    match lifecycle {
        MovingLifecycle::Started(moving) => {
            start_up_jumping(resources, player, minimap_state, up_jumping, moving);
            FollowUp::Nothing
        },
        MovingLifecycle::Ended(moving) => {
            player.state = Player::Moving(moving.dest, moving.exact, moving.intermediates);
            resources.input.send_key_up(KeyKind::Up);
            FollowUp::Nothing
        },
        MovingLifecycle::Updated(started) => {
            let mut moving = started;
            let (y_distance, y_direction) = moving.y_distance_direction_from(true, moving.pos);
            update_up_jump(
                resources,
                &player.context,
                &mut moving,
                &mut up_jumping,
                y_distance,
                y_direction,
            );
            player.state = Player::UpJumping(up_jumping.moving(moving));
            update_from_action(resources, player, up_jumping, moving, y_direction)
        },
    }
}

fn start_up_jumping(
    resources: &mut Resources,
    player: &mut PlayerEntity,
    minimap_state: Minimap,
    up_jumping: UpJumping,
    moving: Moving,
)
    ensures
        ({
            let outcome = up_jumping_outcome(
                up_jumping,
                old(player).context@,
                minimap_state,
                old(resources).draws.perlin,
                MovingLifecycle::Started(moving),
            );
            &&& final(player).state == outcome.state
            &&& final(player).context@ == outcome.context
            &&& final(resources).sent(*old(resources), outcome.events)
        }),
{
    let config = player.context.config;
    if player.context.velocity.x.above(Speed { bits: X_NEAR_STATIONARY_THRESHOLD_BITS })
        || player.context.velocity.y.above(
        Speed { bits: Y_NEAR_STATIONARY_VELOCITY_THRESHOLD_BITS },
    ) {
        player.state = Player::UpJumping(up_jumping.moving(moving.timeout_started(false)));
        return ;
    }
    let is_inside_portal = match minimap_state {
        Minimap::Idle(idle) => idle.player_inside_portal,
        Minimap::Detecting => false,
    };
    if is_inside_portal {
        player.state = Player::Idle;
        player.context.clear_action_completed();
        return ;
    }
    let (y_distance, _) = moving.y_distance_direction_from(true, moving.pos);
    let mut up_jumping = up_jumping;
    if let UpJumpingKind::Mage(mage) = up_jumping.kind {
        let state = if config.up_jump_is_flight {
            MageState::Flying
        } else if y_distance >= UP_JUMP_AND_TELEPORT_THRESHOLD as i64 {
            MageState::UpJumping
        } else {
            MageState::Teleporting
        };
        up_jumping.kind = UpJumpingKind::Mage(
            Mage {
                state,
                teleport_with_jump_threshold: mage.teleport_with_jump_threshold,
            },
        );
    }
    player.context.last_movement = Some(LastMovement::UpJumping);
    player.state = Player::UpJumping(up_jumping.moving(moving));

    match up_jumping.kind {
        UpJumpingKind::Mage(mage) => {
            resources.input.send_key_down(KeyKind::Up);
            let can_jump = y_distance >= mage.teleport_with_jump_threshold as i64
                && config.up_jump_key.is_none();
            if config.up_jump_is_flight || can_jump {
                resources.input.send_key(config.jump_key);
            }
        },
        UpJumpingKind::UpArrow => {
            resources.input.send_key(config.jump_key);
        },
        UpJumpingKind::JumpKey => {
            resources.input.send_key_down(KeyKind::Up);
            resources.input.send_key(config.jump_key);
        },
        UpJumpingKind::SpecificKey => {
            resources.input.send_key_down(KeyKind::Up);
            if config.up_jump_is_flight || config.up_jump_specific_key_should_jump {
                resources.input.send_key(config.jump_key);
            }
        },
    }
}

fn update_from_action(
    resources: &mut Resources,
    player: &mut PlayerEntity,
    up_jumping: UpJumping,
    moving: Moving,
    y_direction: i64,
) -> (r: FollowUp)
    requires
        old(player).state == Player::UpJumping(UpJumping { moving, ..up_jumping }),
    ensures
        ({
            let step = UpJumpStep { events: seq![], moving, up_jumping };
            let outcome = next_outcome(
                old(player).context@,
                old(resources).draws.perlin,
                step,
                y_direction as int,
            );
            &&& r == outcome.follow_up
            &&& final(player).state == outcome.state
            &&& final(player).context@ == outcome.context
            &&& final(resources).sent(*old(resources), outcome.events)
        }),
{
    match player.context.next_action() {
        Some(PlayerAction::AutoMob(mob)) => {
            if moving.completed && moving.is_destination_intermediate() && y_direction <= 0 {
                resources.input.send_key_up(KeyKind::Up);
                player.state = Player::Moving(moving.dest, moving.exact, moving.intermediates);
                return FollowUp::Nothing;
            }
            if up_jumping.auto_mob_wait_completion && !moving.completed {
                return FollowUp::Nothing;
            }
            let (x_distance, x_direction) = moving.x_distance_direction_from(false, moving.pos);
            let (y_distance, y_direction) = moving.y_distance_direction_from(false, moving.pos);
            FollowUp::AutoMob { mob: *mob, x_distance, x_direction, y_distance, y_direction }
        },
        Some(PlayerAction::Key(key)) => {
            if key.with == ActionKeyWith::Any && moving.completed && y_direction <= 0 {
                let use_key = UseKey::from_key(*key);
                player.state = Player::UseKey(use_key);
            }
            FollowUp::Nothing
        },
        Some(PlayerAction::PingPong(ping_pong)) => {
            if !moving.completed || !resources.draws.perlin {
                return FollowUp::Nothing;
            }
            FollowUp::PingPong(*ping_pong, moving.pos)
        },
        _ => FollowUp::Nothing,
    }
}

fn update_up_jump(
    resources: &mut Resources,
    context: &PlayerContext,
    moving: &mut Moving,
    up_jumping: &mut UpJumping,
    y_distance: i64,
    y_direction: i64,
)
    requires
        keys_configured(context.config, *old(moving), *old(up_jumping)),
    ensures
        ({
            let step = up_jump_step(
                context.config,
                context.velocity,
                *old(moving),
                *old(up_jumping),
                y_distance as int,
                y_direction as int,
            );
            &&& final(resources).sent(*old(resources), step.events)
            &&& *final(moving) == step.moving
            &&& *final(up_jumping) == step.up_jumping
        }),
{
    let config = context.config;
    if moving.completed {
        resources.input.send_key_up(KeyKind::Up);
        return ;
    }
    match up_jumping.kind {
        UpJumpingKind::Mage(mut mage) => {
            update_mage_up_jump(
                resources,
                context,
                moving,
                &mut mage,
                up_jumping.spam_delay,
                y_distance,
                y_direction,
            );
            up_jumping.kind = UpJumpingKind::Mage(mage);
        },
        UpJumpingKind::UpArrow | UpJumpingKind::JumpKey => {
            let key = match up_jumping.kind {
                UpJumpingKind::UpArrow => KeyKind::Up,
                _ => config.jump_key,
            };
            if !up_jumping.second_press_sent {
                if moving.timeout.total >= SECOND_PRESS_DELAY {
                    resources.input.send_key(key);
                    up_jumping.second_press_sent = true;
                }
                // The velocity does not show the effect of a press of this tick yet.
                return ;
            }
            if context.velocity.y.above(Speed { bits: UP_JUMPED_Y_VELOCITY_THRESHOLD_BITS }) {
                moving.completed = true;
            } else if moving.timeout.total >= up_jumping.spam_delay {
                resources.input.send_key(key);
            }
        },
        UpJumpingKind::SpecificKey => {
            if !config.up_jump_is_flight {
                if !config.up_jump_specific_key_should_jump || moving.timeout.total
                    >= up_jumping.spam_delay {
                    if let Some(key) = config.up_jump_key {
                        resources.input.send_key(key);
                        moving.completed = true;
                    }
                }
            } else if let Some(key) = config.up_jump_key {
                update_flying(resources, moving, y_direction, key);
            }
        },
    }
}

fn update_mage_up_jump(
    resources: &mut Resources,
    context: &PlayerContext,
    moving: &mut Moving,
    mage: &mut Mage,
    spam_delay: u32,
    y_distance: i64,
    y_direction: i64,
)
    requires
        context.config.teleport_key is Some,
    ensures
        ({
            let (events, moved, mage_after) = mage_step(
                context.config,
                context.velocity,
                *old(moving),
                *old(mage),
                spam_delay,
                y_distance as int,
                y_direction as int,
            );
            &&& final(resources).sent(*old(resources), events)
            &&& *final(moving) == moved
            &&& *final(mage) == mage_after
        }),
{
    let jump_key = context.config.jump_key;
    let teleport_key = match context.config.teleport_key {
        Some(key) => key,
        None => {
            return ;
        },
    };
    match mage.state {
        MageState::Teleporting => {
            if y_direction > 0 && y_distance < mage.teleport_with_jump_threshold as i64 {
                resources.input.send_key(teleport_key);
                moving.completed = true;
            }
        },
        MageState::UpJumping => match context.config.up_jump_key {
            Some(key) => {
                resources.input.send_key(key);
                mage.state = MageState::Teleporting;
            },
            None => {
                if context.velocity.y.at_most(
                    Speed { bits: UP_JUMPED_Y_VELOCITY_THRESHOLD_BITS },
                ) {
                    if moving.timeout.total >= spam_delay {
                        resources.input.send_key(jump_key);
                    }
                } else {
                    mage.state = MageState::Teleporting;
                }
            },
        },
        MageState::Flying => {
            let key = match context.config.up_jump_key {
                Some(key) => key,
                None => teleport_key,
            };
            update_flying(resources, moving, y_direction, key);
        },
    }
}

fn update_flying(resources: &mut Resources, moving: &mut Moving, y_direction: i64, key: KeyKind)
    ensures
        ({
            let (events, moved) = flying_step(*old(moving), y_direction as int, key);
            &&& final(resources).sent(*old(resources), events)
            &&& *final(moving) == moved
        }),
{
    if y_direction > 0 {
        resources.input.send_key_down_repeatable(key);
    } else {
        resources.input.send_key_up(key);
        moving.completed = true;
    }
}

/// Picks the key combination for a configuration.
pub fn up_jumping_kind(
    up_jump_key: Option<KeyKind>,
    has_teleport_key: bool,
    has_extended_teleport_range: bool,
) -> (r: UpJumpingKind)
    ensures
        r == kind_for(up_jump_key, has_teleport_key, has_extended_teleport_range),
{
    match (up_jump_key, has_teleport_key) {
        (_, true) => UpJumpingKind::Mage(
            Mage {
                state: MageState::Teleporting,
                teleport_with_jump_threshold: if has_extended_teleport_range {
                    EXTENDED_TELEPORT_WITH_JUMP_THRESHOLD
                } else {
                    TELEPORT_WITH_JUMP_THRESHOLD
                },
            },
        ),
        (Some(KeyKind::Up), false) => UpJumpingKind::UpArrow,
        (None, false) => UpJumpingKind::JumpKey,
        (Some(_), false) => UpJumpingKind::SpecificKey,
    }
}

/// Once completed, an up jump stays completed, and all it does is to release the up arrow.
pub proof fn completion_is_final(
    config: PlayerConfig,
    velocity: Velocity,
    moving: Moving,
    up_jumping: UpJumping,
    y_distance: int,
    y_direction: int,
)
    requires
        moving.completed,
    ensures
        ({
            let step = up_jump_step(config, velocity, moving, up_jumping, y_distance, y_direction);
            &&& step.moving == moving
            &&& step.up_jumping == up_jumping
            &&& step.events == seq![InputEvent::KeyUp(KeyKind::Up)]
        }),
{
}

/// The follow-up key press of a double press combination is sent exactly once: on the first tick
/// from [`SECOND_PRESS_DELAY`] on, at whatever velocity, and before the up jump can complete.
pub proof fn second_press_is_sent_once(
    config: PlayerConfig,
    velocity: Velocity,
    moving: Moving,
    up_jumping: UpJumping,
    y_distance: int,
    y_direction: int,
)
    requires
        up_jumping.kind is UpArrow || up_jumping.kind is JumpKey,
        !moving.completed,
    ensures
        ({
            let step = up_jump_step(config, velocity, moving, up_jumping, y_distance, y_direction);
            &&& up_jumping.second_press_sent ==> step.up_jumping.second_press_sent
            &&& !up_jumping.second_press_sent ==> {
                &&& !step.moving.completed
                &&& step.up_jumping.second_press_sent == (moving.timeout.total
                    >= SECOND_PRESS_DELAY)
                &&& step.events == (if moving.timeout.total >= SECOND_PRESS_DELAY {
                    seq![InputEvent::Key(second_key(up_jumping.kind, config))]
                } else {
                    seq![]
                })
            }
        }),
{
}

/// A mage's up jump always goes back to teleporting: it does not complete by itself, it ends in
/// [`MageState::Teleporting`], at once where there is a key for it and otherwise once the player
/// is fast enough, and teleporting completes only together with a press of the teleport key.
pub proof fn mage_always_teleports(
    config: PlayerConfig,
    velocity: Velocity,
    moving: Moving,
    mage: Mage,
    spam_delay: u32,
    y_distance: int,
    y_direction: int,
)
    requires
        config.teleport_key is Some,
        !moving.completed,
    ensures
        ({
            let (events, moved, next) = mage_step(
                config,
                velocity,
                moving,
                mage,
                spam_delay,
                y_distance,
                y_direction,
            );
            &&& mage.state is UpJumping ==> {
                &&& !moved.completed
                &&& next.state is UpJumping || next.state is Teleporting
                &&& next.state is Teleporting <==> config.up_jump_key is Some
                    || !velocity.y.is_at_most(Speed { bits: UP_JUMPED_Y_VELOCITY_THRESHOLD_BITS })
            }
            &&& mage.state is Teleporting ==> {
                &&& next == mage
                &&& moved.completed <==> events == seq![InputEvent::Key(config.teleport_key->0)]
            }
        }),
{
    let (events, _, _) = mage_step(
        config,
        velocity,
        moving,
        mage,
        spam_delay,
        y_distance,
        y_direction,
    );
    assert(events.len() == 0 ==> events != seq![InputEvent::Key(config.teleport_key->0)]);
}

/// A mage that does not fly and has no up jump key starts in exactly one of three ways, by the
/// distance: just teleport, jump and then teleport, or up jump and then teleport.
pub proof fn mage_starts_by_distance(mage: Mage, config: PlayerConfig, y_distance: int)
    requires
        mage.teleport_with_jump_threshold == TELEPORT_WITH_JUMP_THRESHOLD
            || mage.teleport_with_jump_threshold == EXTENDED_TELEPORT_WITH_JUMP_THRESHOLD,
        !config.up_jump_is_flight,
        config.up_jump_key is None,
        y_distance >= 0,
    ensures
        ({
            let kind = started_kind(UpJumpingKind::Mage(mage), false, y_distance);
            let jumps = started_events(kind, config, y_distance) == seq![
                InputEvent::KeyDown(KeyKind::Up),
                InputEvent::Key(config.jump_key),
            ];
            &&& kind->Mage_0.state is UpJumping <==> y_distance >= UP_JUMP_AND_TELEPORT_THRESHOLD
            &&& kind->Mage_0.state is Teleporting <==> y_distance < UP_JUMP_AND_TELEPORT_THRESHOLD
            &&& jumps <==> y_distance >= mage.teleport_with_jump_threshold
            &&& !jumps ==> started_events(kind, config, y_distance) == seq![
                InputEvent::KeyDown(KeyKind::Up),
            ]
        }),
{
    let kind = started_kind(UpJumpingKind::Mage(mage), false, y_distance);
    let up = InputEvent::KeyDown(KeyKind::Up);
    let events = started_events(kind, config, y_distance);
    assert(events.len() == 1 ==> events != seq![up, InputEvent::Key(config.jump_key)]);
}

/// An up jump depends on chance only where a draw is asked for. There, the player goes over to
/// sweeping exactly if the draw is true, from the position that it was made for.
pub proof fn chance_decides_only_where_drawn(
    up_jumping: UpJumping,
    context: PlayerContextView,
    minimap: Minimap,
    tick: u64,
    lifecycle: MovingLifecycle,
)
    ensures
        ({
            let drawn = up_jumping_outcome(up_jumping, context, minimap, true, lifecycle);
            let not_drawn = up_jumping_outcome(up_jumping, context, minimap, false, lifecycle);
            match draw_for(up_jumping, context, tick, lifecycle) {
                Some(draw) => {
                    &&& drawn.follow_up matches FollowUp::PingPong(_, position)
                    &&& position == draw.position
                    &&& not_drawn.follow_up is Nothing
                },
                None => drawn == not_drawn,
            }
        }),
{
}

/// A player that stands in a portal presses nothing, and gives the action up.
pub proof fn portal_aborts(
    up_jumping: UpJumping,
    context: PlayerContextView,
    minimap: Minimap,
    perlin: bool,
    moving: Moving,
)
    requires
        near_stationary(context.velocity),
        inside_portal(minimap),
    ensures
        ({
            let outcome = up_jumping_outcome(
                up_jumping,
                context,
                minimap,
                perlin,
                MovingLifecycle::Started(moving),
            );
            &&& outcome.events == Seq::<InputEvent>::empty()
            &&& outcome.state is Idle
            &&& outcome.context == context.with_next_completed()
        }),
{
}

} // verus!
