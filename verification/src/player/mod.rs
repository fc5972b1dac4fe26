//! The player: its states, and what a tick makes of them.

pub mod actions;
pub mod context;
pub mod enter_monster_park;
pub mod moving;
pub mod navigate_to_hunting_ground;
pub mod timeout;
pub mod up_jump;

use vstd::prelude::*;

use crate::ecs::{InputEvent, Minimap, MinimapEntity, Resources};
use crate::geometry::{distance, half, magnitude, Point};
use crate::models::{ActionKeyDirection, KeyKind, LinkKeyKind};
use actions::{Key, PanicTo};
use context::{PlayerContext, PlayerContextView};
use enter_monster_park::EnteringMonsterPark;
use moving::{Moving, MovingIntermediates};
use navigate_to_hunting_ground::NavigatingToHuntingGround;
use timeout::Timeout;
use up_jump::UpJumping;

verus! {

/// Minimum y distance from the destination required to perform a jump.
pub const JUMP_THRESHOLD: i32 = 7;

/// Minimum y distance from the destination required to perform a grapple.
pub const GRAPPLING_THRESHOLD: i32 = 24;

/// A player: the current state, and what is known across states.
#[derive(Debug)]
pub struct PlayerEntity {
    pub state: Player,
    pub context: PlayerContext,
}

/// Using a key.
#[derive(Clone, Copy, Debug, PartialEq, Eq, Structural)]
pub struct UseKey {
    pub key: Key,
}

impl UseKey {
    /// The keys that may be held down: the key itself if it is held or used along with a link
    /// key, and that link key.
    pub open spec fn held(self) -> Seq<KeyKind> {
        match self.key.link_key {
            LinkKeyKind::Along(link_key) => seq![self.key.key, link_key],
            _ => if self.key.key_hold_ticks > 0 {
                seq![self.key.key]
            } else {
                seq![]
            },
        }
    }

    /// Starts using `key`.
    pub fn from_key(key: Key) -> (r: UseKey)
        ensures
            r == (UseKey { key }),
    {
        UseKey { key }
    }

    /// The keys that may be held down.
    pub fn held_keys(&self) -> (r: Vec<KeyKind>)
        ensures
            r@ == self.held(),
    {
        match self.key.link_key {
            LinkKeyKind::Along(link_key) => vec![self.key.key, link_key],
            _ => if self.key.key_hold_ticks > 0 {
                vec![self.key.key]
            } else {
                Vec::new()
            },
        }
    }
}

/// Walking or making a small adjustment.
#[derive(Clone, Copy, Debug, PartialEq, Eq, Structural)]
pub struct Adjusting {
    pub moving: Moving,
}

/// Double jumping.
#[derive(Clone, Copy, Debug, PartialEq, Eq, Structural)]
pub struct DoubleJumping {
    pub moving: Moving,
    /// Whether to double jump however close the destination is.
    pub forced: bool,
}

/// Grappling.
#[derive(Clone, Copy, Debug, PartialEq, Eq, Structural)]
pub struct Grappling {
    pub moving: Moving,
}

/// Falling.
#[derive(Clone, Copy, Debug, PartialEq, Eq, Structural)]
pub struct Falling {
    pub moving: Moving,
}

/// Getting unstuck.
#[derive(Clone, Copy, Debug, PartialEq, Eq, Structural)]
pub enum Unstucking {
    /// By dismissing a dialog.
    Esc(Timeout),
    /// By moving.
    Movement { timeout: Timeout, random: bool, blink: bool },
}

impl Unstucking {
    /// Starts to dismiss a dialog.
    pub fn new_esc() -> (r: Unstucking)
        ensures
            r == Unstucking::Esc(Timeout::fresh()),
    {
        Unstucking::Esc(Timeout::default())
    }

    /// Starts to move.
    pub fn new_movement(timeout: Timeout, random: bool, blink: bool) -> (r: Unstucking)
        ensures
            r == (Unstucking::Movement { timeout, random, blink }),
    {
        Unstucking::Movement { timeout, random, blink }
    }
}

/// Fleeing.
#[derive(Clone, Copy, Debug, PartialEq, Eq, Structural)]
pub struct Panicking {
    pub to: PanicTo,
}

/// The states of a player.
#[derive(Debug)]
pub enum Player {
    /// Looking for the player on the minimap.
    Detecting,
    /// Doing nothing. All actions start here.
    Idle,
    UseKey(UseKey),
    /// Deciding how to move: the destination, whether to reach it exactly, and the stops.
    Moving(Point, bool, Option<MovingIntermediates>),
    Adjusting(Adjusting),
    DoubleJumping(DoubleJumping),
    Grappling(Grappling),
    Jumping(Moving),
    UpJumping(UpJumping),
    Falling(Falling),
    Unstucking(Unstucking),
    /// Waiting, for the given number of ticks.
    Stalling(Timeout, u32),
    SolvingRune,
    SolvingShape,
    SolvingVioletta,
    CashShopThenExit,
    FamiliarsSwapping,
    Panicking(Panicking),
    UsingBooster,
    ExchangingBooster,
    EnteringMonsterPark(EnteringMonsterPark),
    NavigatingToHuntingGround(NavigatingToHuntingGround),
}

impl Player {
    /// Whether a new action may take over from this state: not while something is going on that
    /// must not be interrupted, nor close to a destination.
    pub open spec fn overridable(self, cur_pos: Option<Point>, double_jump_threshold: i32) -> bool {
        let close = half(double_jump_threshold as int);
        match self {
            Player::Detecting | Player::Idle => true,
            Player::Moving(dest, _, _) => match cur_pos {
                Some(pos) => magnitude(dest.x - pos.x) >= close,
                None => true,
            },
            Player::DoubleJumping(DoubleJumping { moving, forced }) => {
                !forced && from_destination(moving, cur_pos) >= close
            },
            Player::Adjusting(Adjusting { moving }) => from_destination(moving, cur_pos) >= close,
            Player::Grappling(Grappling { moving })
            | Player::Jumping(moving)
            | Player::UpJumping(UpJumping { moving, .. })
            | Player::Falling(Falling { moving }) => moving.completed,
            _ => false,
        }
    }

    /// The keys to release when this state is dropped.
    pub open spec fn keys_to_release(self) -> Seq<KeyKind> {
        match self {
            Player::Adjusting(_)
            | Player::DoubleJumping(_)
            | Player::Stalling(_, _)
            | Player::Unstucking(_) => seq![KeyKind::Left, KeyKind::Right],
            Player::UpJumping(_) => seq![KeyKind::Up],
            Player::UseKey(use_key) => use_key.held(),
            _ => seq![],
        }
    }

    /// Whether a new action may take over from this state.
    pub fn can_override_current_state(
        &self,
        cur_pos: Option<Point>,
        double_jump_threshold: i32,
    ) -> (r: bool)
        ensures
            r == self.overridable(cur_pos, double_jump_threshold),
    {
        let close: i64 = (double_jump_threshold / 2) as i64;
        match self {
            Player::Detecting | Player::Idle => true,
            Player::Moving(dest, _, _) => match cur_pos {
                Some(pos) => distance(dest.x, pos.x) >= close,
                None => true,
            },
            Player::DoubleJumping(double_jumping) => {
                !double_jumping.forced && distance_from_destination(&double_jumping.moving, cur_pos)
                    >= close
            },
            Player::Adjusting(adjusting) => {
                distance_from_destination(&adjusting.moving, cur_pos) >= close
            },
            Player::Grappling(grappling) => grappling.moving.completed,
            Player::Jumping(moving) => moving.completed,
            Player::UpJumping(up_jumping) => up_jumping.moving.completed,
            Player::Falling(falling) => falling.moving.completed,
            Player::UseKey(_)
            | Player::Unstucking(_)
            | Player::Stalling(_, _)
            | Player::SolvingRune
            | Player::SolvingShape
            | Player::SolvingVioletta
            | Player::CashShopThenExit
            | Player::FamiliarsSwapping
            | Player::Panicking(_)
            | Player::UsingBooster
            | Player::ExchangingBooster
            | Player::EnteringMonsterPark(_)
            | Player::NavigatingToHuntingGround(_) => false,
        }
    }
}

/// How far the destination is horizontally, from the given position if there is one.
pub open spec fn from_destination(moving: Moving, cur_pos: Option<Point>) -> int {
    match cur_pos {
        Some(pos) => magnitude(moving.dest.x - pos.x),
        None => magnitude(moving.dest.x - moving.pos.x),
    }
}

fn distance_from_destination(moving: &Moving, cur_pos: Option<Point>) -> (r: i64)
    ensures
        r == from_destination(*moving, cur_pos),
{
    let pos = match cur_pos {
        Some(pos) => pos,
        None => moving.pos,
    };
    moving.x_distance_direction_from(true, pos).0
}

/// The inputs that release the given keys.
pub open spec fn releases(keys: Seq<KeyKind>) -> Seq<InputEvent> {
    keys.map_values(|key: KeyKind| InputEvent::KeyUp(key))
}

/// Releases the keys that `state` may be holding down, for when it is about to be dropped before
/// it is done.
///
/// Some states hold a key down over several ticks and release it only once they are done. A key
/// that stays down when such a state is dropped could turn a later, unrelated key press into a
/// shortcut. To release a key that is not down does nothing.
pub fn release_keys_held_by(resources: &mut Resources, state: &Player)
    ensures
        final(resources).sent(*old(resources), releases(state.keys_to_release())),
{
    match state {
        Player::Adjusting(_)
        | Player::DoubleJumping(_)
        | Player::Stalling(_, _)
        | Player::Unstucking(_) => {
            resources.input.send_key_up(KeyKind::Left);
            resources.input.send_key_up(KeyKind::Right);
        },
        Player::UpJumping(_) => {
            resources.input.send_key_up(KeyKind::Up);
        },
        Player::UseKey(use_key) => {
            let keys = use_key.held_keys();
            let mut i: usize = 0;
            while i < keys.len()
                invariant
                    i <= keys.len(),
                    keys@ == use_key.held(),
                    resources.sent(*old(resources), releases(keys@.take(i as int))),
                decreases keys.len() - i,
            {
                assert(releases(keys@.take(i + 1)) == releases(keys@.take(i as int)).push(
                    InputEvent::KeyUp(keys@[i as int]),
                ));
                resources.input.send_key_up(keys[i]);
                i += 1;
            }
            assert(keys@.take(i as int) == keys@);
        },
        _ => {},
    }
}

/// The update of a state that is to be run.
#[derive(Clone, Copy, Debug, PartialEq, Eq, Structural)]
pub enum StateUpdate {
    /// None: this tick is done.
    Done,
    /// To get unstuck by moving: see [`start_unstucking`].
    StartUnstucking,
    UseKey,
    FamiliarsSwapping,
    Unstucking,
    Stalling(Timeout, u32),
    SolvingRune,
    SolvingShape,
    SolvingVioletta,
    /// Whether the player could not be found is passed on.
    CashShop(bool),
    Panicking(Panicking),
    UsingBooster,
    ExchangingBooster,
    EnteringMonsterPark,
    NavigatingToHuntingGround,
    Idle,
    Moving,
    Adjusting,
    DoubleJumping,
    Grappling,
    UpJumping,
    Jumping(Moving),
    Falling,
}

/// What [`run_system`] leaves to be done.
#[derive(Clone, Copy, Debug, PartialEq, Eq, Structural)]
pub struct NextUpdate {
    /// Whether to clear the buffered states of stalling first.
    pub clear_stalling_buffer: bool,
    pub update: StateUpdate,
}

/// The update of a state that does not need the player's position.
pub open spec fn non_positional_update(
    state: Player,
    failed_to_detect_player: bool,
) -> Option<StateUpdate> {
    match state {
        Player::UseKey(_) => Some(StateUpdate::UseKey),
        Player::FamiliarsSwapping => Some(StateUpdate::FamiliarsSwapping),
        Player::Unstucking(_) => Some(StateUpdate::Unstucking),
        Player::Stalling(timeout, max_timeout) => if failed_to_detect_player {
            None
        } else {
            Some(StateUpdate::Stalling(timeout, max_timeout))
        },
        Player::SolvingRune => if failed_to_detect_player {
            None
        } else {
            Some(StateUpdate::SolvingRune)
        },
        Player::SolvingShape => Some(StateUpdate::SolvingShape),
        Player::SolvingVioletta => Some(StateUpdate::SolvingVioletta),
        Player::CashShopThenExit => Some(StateUpdate::CashShop(failed_to_detect_player)),
        Player::Panicking(panicking) => Some(StateUpdate::Panicking(panicking)),
        Player::UsingBooster => Some(StateUpdate::UsingBooster),
        Player::ExchangingBooster => Some(StateUpdate::ExchangingBooster),
        Player::EnteringMonsterPark(_) => Some(StateUpdate::EnteringMonsterPark),
        Player::NavigatingToHuntingGround(_) => Some(StateUpdate::NavigatingToHuntingGround),
        _ => None,
    }
}

/// The update of a state that needs the player's position.
pub open spec fn positional_update(state: Player) -> StateUpdate {
    match state {
        Player::Idle => StateUpdate::Idle,
        Player::Moving(_, _, _) => StateUpdate::Moving,
        Player::Adjusting(_) => StateUpdate::Adjusting,
        Player::DoubleJumping(_) => StateUpdate::DoubleJumping,
        Player::Grappling(_) => StateUpdate::Grappling,
        Player::UpJumping(_) => StateUpdate::UpJumping,
        Player::Jumping(moving) => StateUpdate::Jumping(moving),
        Player::Falling(_) => StateUpdate::Falling,
        _ => StateUpdate::Done,
    }
}

/// Picks the update of a state that does not need the player's position, or `None` if the state
/// needs it.
pub fn update_non_positional_state(state: &Player, failed_to_detect_player: bool) -> (r: Option<
    StateUpdate,
>)
    ensures
        r == non_positional_update(*state, failed_to_detect_player),
{
    match state {
        Player::UseKey(_) => Some(StateUpdate::UseKey),
        Player::FamiliarsSwapping => Some(StateUpdate::FamiliarsSwapping),
        Player::Unstucking(_) => Some(StateUpdate::Unstucking),
        Player::Stalling(timeout, max_timeout) => if failed_to_detect_player {
            None
        } else {
            Some(StateUpdate::Stalling(*timeout, *max_timeout))
        },
        Player::SolvingRune => if failed_to_detect_player {
            None
        } else {
            Some(StateUpdate::SolvingRune)
        },
        Player::SolvingShape => Some(StateUpdate::SolvingShape),
        Player::SolvingVioletta => Some(StateUpdate::SolvingVioletta),
        Player::CashShopThenExit => Some(StateUpdate::CashShop(failed_to_detect_player)),
        Player::Panicking(panicking) => Some(StateUpdate::Panicking(*panicking)),
        Player::UsingBooster => Some(StateUpdate::UsingBooster),
        Player::ExchangingBooster => Some(StateUpdate::ExchangingBooster),
        Player::EnteringMonsterPark(_) => Some(StateUpdate::EnteringMonsterPark),
        Player::NavigatingToHuntingGround(_) => Some(StateUpdate::NavigatingToHuntingGround),
        Player::Detecting
        | Player::Idle
        | Player::Moving(_, _, _)
        | Player::Adjusting(_)
        | Player::DoubleJumping(_)
        | Player::Grappling(_)
        | Player::Jumping(_)
        | Player::UpJumping(_)
        | Player::Falling(_) => None,
    }
}

/// Picks the update of a state that needs the player's position. A player that has been looked
/// for is found, and idle from now on.
pub fn update_positional_state(player: &mut PlayerEntity) -> (r: StateUpdate)
    requires
        non_positional_update(old(player).state, false) is None,
    ensures
        r == positional_update(old(player).state),
        final(player).context == old(player).context,
        final(player).state == (if old(player).state is Detecting {
            Player::Idle
        } else {
            old(player).state
        }),
{
    match &player.state {
        Player::Idle => StateUpdate::Idle,
        Player::Moving(_, _, _) => StateUpdate::Moving,
        Player::Adjusting(_) => StateUpdate::Adjusting,
        Player::DoubleJumping(_) => StateUpdate::DoubleJumping,
        Player::Grappling(_) => StateUpdate::Grappling,
        Player::UpJumping(_) => StateUpdate::UpJumping,
        Player::Jumping(moving) => StateUpdate::Jumping(*moving),
        Player::Falling(_) => StateUpdate::Falling,
        _ => {
            player.state = Player::Idle;
            StateUpdate::Done
        },
    }
}

/// What a tick of the player comes to.
pub struct RunOutcome {
    pub state: Player,
    pub context: PlayerContextView,
    pub events: Seq<InputEvent>,
    pub next: NextUpdate,
}

/// Whether the player cannot be found although nothing covers the minimap.
pub open spec fn is_stuck(minimap: Minimap) -> bool {
    match minimap {
        Minimap::Detecting => false,
        Minimap::Idle(idle) => !idle.partially_overlapping,
    }
}

/// What a tick comes to once the player is found, or while halting.
pub open spec fn run_found(state: Player, context: PlayerContextView) -> RunOutcome {
    let reset = context.reset_to_idle_next_update;
    let current = if reset {
        Player::Idle
    } else {
        state
    };
    RunOutcome {
        state: if current is Detecting {
            Player::Idle
        } else {
            current
        },
        context: PlayerContextView {
            reset_to_idle_next_update: false,
            reset_stalling_buffer_states_next_update: false,
            ..context
        },
        events: if reset {
            releases(state.keys_to_release())
        } else {
            seq![]
        },
        next: NextUpdate {
            clear_stalling_buffer: context.reset_stalling_buffer_states_next_update,
            update: match non_positional_update(current, false) {
                Some(update) => update,
                None => positional_update(current),
            },
        },
    }
}

/// What a tick comes to while the player cannot be found.
pub open spec fn run_lost(state: Player, context: PlayerContextView, minimap: Minimap) -> RunOutcome {
    match non_positional_update(state, true) {
        Some(update) => RunOutcome {
            state,
            context,
            events: seq![],
            next: NextUpdate { clear_stalling_buffer: false, update },
        },
        None => RunOutcome {
            state: if is_stuck(minimap) {
                state
            } else {
                Player::Detecting
            },
            context,
            events: releases(state.keys_to_release()),
            next: NextUpdate {
                clear_stalling_buffer: false,
                update: if is_stuck(minimap) {
                    StateUpdate::StartUnstucking
                } else {
                    StateUpdate::Done
                },
            },
        },
    }
}

/// What a tick comes to.
pub open spec fn run_outcome(
    state: Player,
    context: PlayerContextView,
    minimap: Minimap,
    halting: bool,
    did_update: bool,
) -> RunOutcome {
    if context.rune_cash_shop {
        RunOutcome {
            state: Player::CashShopThenExit,
            context: PlayerContextView {
                rune_cash_shop: false,
                reset_to_idle_next_update: false,
                ..context
            },
            events: releases(seq![KeyKind::Up, KeyKind::Down, KeyKind::Left, KeyKind::Right]),
            next: NextUpdate { clear_stalling_buffer: false, update: StateUpdate::Done },
        }
    } else if !did_update && !halting {
        run_lost(state, context, minimap)
    } else {
        run_found(state, context)
    }
}

/// Runs a tick of the player up to the point where the update of a state is to be run, and says
/// which.
///
/// `did_update` is whether the player was found on the minimap. It does not matter while the
/// cash shop is to be entered.
pub fn run_system(
    resources: &mut Resources,
    player: &mut PlayerEntity,
    minimap: &MinimapEntity,
    did_update: bool,
) -> (r: NextUpdate)
    ensures
        ({
            let outcome = run_outcome(
                old(player).state,
                old(player).context@,
                minimap.state,
                old(resources).spec_halting(),
                did_update,
            );
            &&& r == outcome.next
            &&& final(player).state == outcome.state
            &&& final(player).context@ == outcome.context
            &&& final(resources).sent(*old(resources), outcome.events)
        }),
{
    if player.context.rune_cash_shop {
        resources.input.send_key_up(KeyKind::Up);
        resources.input.send_key_up(KeyKind::Down);
        resources.input.send_key_up(KeyKind::Left);
        resources.input.send_key_up(KeyKind::Right);
        player.context.rune_cash_shop = false;
        player.context.reset_to_idle_next_update = false;
        player.state = Player::CashShopThenExit;
        return NextUpdate { clear_stalling_buffer: false, update: StateUpdate::Done };
    }
    if !did_update && !resources.halting() {
        if let Some(update) = update_non_positional_state(&player.state, true) {
            return NextUpdate { clear_stalling_buffer: false, update };
        }
        release_keys_held_by(resources, &player.state);
        let is_stucking = match minimap.state {
            Minimap::Detecting => false,
            Minimap::Idle(idle) => !idle.partially_overlapping,
        };
        if is_stucking {
            return NextUpdate {
                clear_stalling_buffer: false,
                update: StateUpdate::StartUnstucking,
            };
        }
        player.state = Player::Detecting;
        return NextUpdate { clear_stalling_buffer: false, update: StateUpdate::Done };
    }
    if player.context.reset_to_idle_next_update {
        release_keys_held_by(resources, &player.state);
        player.context.reset_to_idle_next_update = false;
        player.state = Player::Idle;
    }
    let clear_stalling_buffer = player.context.reset_stalling_buffer_states_next_update;
    player.context.reset_stalling_buffer_states_next_update = false;

    let update = match update_non_positional_state(&player.state, false) {
        Some(update) => update,
        None => update_positional_state(player),
    };
    NextUpdate { clear_stalling_buffer, update }
}

/// Starts to get unstuck by moving. `random` is whether to move at random, and `gamba` whether
/// to then try a blink.
pub fn start_unstucking(player: &mut PlayerEntity, random: bool, gamba: bool)
    ensures
        final(player).state == Player::Unstucking(
            Unstucking::Movement { timeout: Timeout::fresh(), random, blink: random && gamba },
        ),
        final(player).context@ == (PlayerContextView {
            last_known_direction: ActionKeyDirection::Any,
            ..old(player).context@
        }),
{
    let blink = random && gamba;
    player.state = Player::Unstucking(
        Unstucking::new_movement(Timeout::default(), random, blink),
    );
    player.context.last_known_direction = ActionKeyDirection::Any;
}

/// Every key that a dropped state may be holding down is released. The one exception is a state
/// that is dropped to enter the cash shop: of its keys only the arrow keys are released.
pub proof fn dropped_states_release_their_keys(
    state: Player,
    context: PlayerContextView,
    minimap: Minimap,
    halting: bool,
    did_update: bool,
    key: KeyKind,
)
    requires
        state.keys_to_release().contains(key),
        context.rune_cash_shop ==> (key == KeyKind::Up || key == KeyKind::Down || key
            == KeyKind::Left || key == KeyKind::Right),
    ensures
        ({
            let outcome = run_outcome(state, context, minimap, halting, did_update);
            let dropped = outcome.state != state || outcome.next.update
                == StateUpdate::StartUnstucking;
            dropped ==> outcome.events.contains(InputEvent::KeyUp(key))
        }),
{
    let outcome = run_outcome(state, context, minimap, halting, did_update);
    let keys = if context.rune_cash_shop {
        seq![KeyKind::Up, KeyKind::Down, KeyKind::Left, KeyKind::Right]
    } else {
        state.keys_to_release()
    };
    if context.rune_cash_shop {
        assert(keys[0] == KeyKind::Up && keys[1] == KeyKind::Down && keys[2] == KeyKind::Left
            && keys[3] == KeyKind::Right);
    }
    let i = choose|i: int| 0 <= i < keys.len() && keys[i] == key;
    assert(releases(keys)[i] == InputEvent::KeyUp(key));
}

/// Only the keys of a state that is dropped are released, but for entering the cash shop.
pub proof fn kept_states_keep_their_keys(
    state: Player,
    context: PlayerContextView,
    minimap: Minimap,
    halting: bool,
    did_update: bool,
)
    requires
        !context.rune_cash_shop,
    ensures
        ({
            let outcome = run_outcome(state, context, minimap, halting, did_update);
            let kept = outcome.state == state && outcome.next.update
                != StateUpdate::StartUnstucking;
            &&& kept ==> outcome.events.len() == 0
            &&& outcome.events.len() > 0 ==> outcome.events == releases(state.keys_to_release())
        }),
{
}

/// While the player cannot be found, a state that needs the player's position is not updated:
/// the player is looked for, or gets unstuck.
pub proof fn lost_players_are_looked_for(
    state: Player,
    context: PlayerContextView,
    minimap: Minimap,
)
    requires
        !context.rune_cash_shop,
        non_positional_update(state, true) is None,
    ensures
        ({
            let outcome = run_outcome(state, context, minimap, false, false);
            &&& outcome.next.update == (if is_stuck(minimap) {
                StateUpdate::StartUnstucking
            } else {
                StateUpdate::Done
            })
            &&& !is_stuck(minimap) ==> outcome.state is Detecting
            &&& outcome.context == context
        }),
{
}

} // verus!
