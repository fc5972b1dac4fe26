//! What a user configures: keys, actions and modes.

use vstd::prelude::*;

use crate::geometry::Point;
use crate::player::actions::{Key, Move, PlayerAction};

verus! {

/// A keyboard key.
#[derive(Clone, Copy, Debug, Default, PartialEq, Eq, Structural)]
pub enum KeyKind {
    #[default]
    A,
    C,
    Up,
    Down,
    Left,
    Right,
    Esc,
    Space,
    Shift,
    Ctrl,
    Alt,
    /// Any other key, by its code.
    Other(u16),
}

/// A key pressed together with another one.
#[derive(Clone, Copy, Debug, Default, PartialEq, Eq, Structural)]
pub enum LinkKeyKind {
    #[default]
    Unlinked,
    Before(KeyKind),
    AtTheSame(KeyKind),
    After(KeyKind),
    /// Held down for as long as the main key is used.
    Along(KeyKind),
}

/// The direction to face when using a key.
#[derive(Clone, Copy, Debug, Default, PartialEq, Eq, Structural)]
pub enum ActionKeyDirection {
    #[default]
    Any,
    Left,
    Right,
}

/// The movement a key is used with.
#[derive(Clone, Copy, Debug, Default, PartialEq, Eq, Structural)]
pub enum ActionKeyWith {
    #[default]
    Any,
    Stationary,
    DoubleJump,
}

/// Whether the wait after a key use overlaps the next action.
#[derive(Clone, Copy, Debug, Default, PartialEq, Eq, Structural)]
pub enum WaitAfterBuffered {
    #[default]
    Unbuffered,
    Interruptible,
    Uninterruptible,
}

/// A position to reach.
#[derive(Clone, Copy, Debug, Default, PartialEq, Eq, Structural)]
pub struct Position {
    pub x: i32,
    pub x_random_range: i32,
    pub y: i32,
    pub allow_adjusting: bool,
}

impl Position {
    /// The position at exactly `point`.
    pub open spec fn at(point: Point, allow_adjusting: bool) -> Position {
        Position { x: point.x, x_random_range: 0, y: point.y, allow_adjusting }
    }

    /// The position at exactly `point`.
    pub fn exactly(point: Point, allow_adjusting: bool) -> (position: Position)
        ensures
            position == Position::at(point, allow_adjusting),
    {
        Position { x: point.x, x_random_range: 0, y: point.y, allow_adjusting }
    }
}

/// An area of a map.
#[derive(Clone, Copy, Debug, Default, PartialEq, Eq, Structural)]
pub struct Bound {
    pub x: i32,
    pub y: i32,
    pub width: i32,
    pub height: i32,
}

/// A platform of a map.
#[derive(Clone, Copy, Debug, Default, PartialEq, Eq, Structural)]
pub struct Platform {
    pub x_start: i32,
    pub x_end: i32,
    pub y: i32,
}

/// When an action is performed.
#[derive(Clone, Copy, Debug, Default, PartialEq, Eq, Structural)]
pub enum ActionCondition {
    /// In rotation.
    #[default]
    Any,
    /// Whenever this many milliseconds have passed.
    EveryMillis(u64),
    /// Whenever the Erda Shower skill is off cooldown.
    ErdaShowerOffCooldown,
    /// Right after the action before it.
    Linked,
}

/// An action that moves the player.
#[derive(Clone, Copy, Debug, Default, PartialEq, Eq, Structural)]
pub struct ActionMove {
    pub position: Position,
    pub condition: ActionCondition,
    pub wait_after_move_millis: u64,
}

/// An action that uses a key.
#[derive(Clone, Copy, Debug, PartialEq, Eq, Structural)]
pub struct ActionKey {
    /// How the key is used.
    pub key: Key,
    pub condition: ActionCondition,
    pub queue_to_front: Option<bool>,
}

/// A configured action.
#[derive(Clone, Copy, Debug, PartialEq, Eq, Structural)]
pub enum Action {
    Move(ActionMove),
    Key(ActionKey),
}

/// How many whole ticks of `ms_per_tick` milliseconds `millis` lasts.
pub open spec fn ticks(millis: u64, ms_per_tick: u64) -> u32 {
    (millis / ms_per_tick) as u32
}

/// How many whole ticks of `ms_per_tick` milliseconds `millis` lasts.
pub fn ticks_in(millis: u64, ms_per_tick: u64) -> (r: u32)
    requires
        ms_per_tick > 0,
    ensures
        r == ticks(millis, ms_per_tick),
{
    (millis / ms_per_tick) as u32
}

impl Action {
    pub open spec fn spec_condition(self) -> ActionCondition {
        match self {
            Action::Move(action) => action.condition,
            Action::Key(action) => action.condition,
        }
    }

    /// Whether this action jumps the queue: only a key action can ask for that.
    pub open spec fn spec_queues_to_front(self) -> bool {
        match self {
            Action::Move(_) => false,
            Action::Key(action) => action.queue_to_front == Some(true),
        }
    }

    /// What the player is asked to do.
    pub open spec fn spec_player_action(self, ms_per_tick: u64) -> PlayerAction {
        match self {
            Action::Move(action) => PlayerAction::Move(
                Move {
                    position: action.position,
                    wait_after_move_ticks: ticks(action.wait_after_move_millis, ms_per_tick),
                },
            ),
            Action::Key(action) => PlayerAction::Key(action.key),
        }
    }

    /// When this action is performed.
    pub fn condition(&self) -> (r: ActionCondition)
        ensures
            r == self.spec_condition(),
    {
        match self {
            Action::Move(action) => action.condition,
            Action::Key(action) => action.condition,
        }
    }

    /// Whether this action jumps the queue.
    pub fn queues_to_front(&self) -> (r: bool)
        ensures
            r == self.spec_queues_to_front(),
    {
        match self {
            Action::Move(_) => false,
            Action::Key(action) => match action.queue_to_front {
                Some(queue_to_front) => queue_to_front,
                None => false,
            },
        }
    }

    /// What the player is asked to do.
    pub fn player_action(&self, ms_per_tick: u64) -> (r: PlayerAction)
        requires
            ms_per_tick > 0,
        ensures
            r == self.spec_player_action(ms_per_tick),
    {
        match self {
            Action::Move(action) => PlayerAction::Move(
                Move {
                    position: action.position,
                    wait_after_move_ticks: ticks_in(action.wait_after_move_millis, ms_per_tick),
                },
            ),
            Action::Key(action) => PlayerAction::Key(action.key),
        }
    }
}

/// The key used against mobs, and how it is used.
#[derive(Clone, Copy, Debug, PartialEq, Eq, Structural)]
pub struct MobbingKey {
    pub key: KeyKind,
    pub key_hold_millis: u64,
    pub link_key: LinkKeyKind,
    pub count: u32,
    pub with: ActionKeyWith,
    pub wait_before_millis: u64,
    pub wait_before_millis_random_range: u64,
    pub wait_after_millis: u64,
    pub wait_after_millis_random_range: u64,
}

impl Default for MobbingKey {
    fn default() -> (r: MobbingKey)
        ensures
            r == MobbingKey::unconfigured(),
    {
        MobbingKey {
            key: KeyKind::A,
            key_hold_millis: 0,
            link_key: LinkKeyKind::Unlinked,
            count: 0,
            with: ActionKeyWith::Any,
            wait_before_millis: 0,
            wait_before_millis_random_range: 0,
            wait_after_millis: 0,
            wait_after_millis_random_range: 0,
        }
    }
}

impl MobbingKey {
    /// The key before it is configured.
    pub open spec fn unconfigured() -> MobbingKey {
        MobbingKey {
            key: KeyKind::A,
            key_hold_millis: 0,
            link_key: LinkKeyKind::Unlinked,
            count: 0,
            with: ActionKeyWith::Any,
            wait_before_millis: 0,
            wait_before_millis_random_range: 0,
            wait_after_millis: 0,
            wait_after_millis_random_range: 0,
        }
    }

    /// How often the key is used at a time: at least once.
    pub open spec fn uses(self) -> u32 {
        if self.count == 0 {
            1
        } else {
            self.count
        }
    }

    /// How often the key is used at a time.
    pub fn use_count(&self) -> (r: u32)
        ensures
            r == self.uses(),
    {
        if self.count == 0 {
            1
        } else {
            self.count
        }
    }
}

/// What to do about an elite boss.
#[derive(Clone, Copy, Debug, Default, PartialEq, Eq, Structural)]
pub enum EliteBossBehavior {
    #[default]
    Nothing,
    CycleChannel,
    UseKey,
}

/// When to exchange Sol Erda for a HEXA booster.
#[derive(Clone, Copy, Debug, Default, PartialEq, Eq, Structural)]
pub enum ExchangeHexaBoosterCondition {
    #[default]
    Never,
    Full,
    AtLeastOne,
}

/// The configuration of familiars.
#[derive(Clone, Copy, Debug, Default, PartialEq, Eq, Structural)]
pub struct Familiars {
    pub enable_familiars_swapping: bool,
    /// The slots that may be swapped, one bit each.
    pub swappable_familiars: u32,
    /// The rarities that may be swapped in, one bit each.
    pub swappable_rarities: u32,
    pub swap_check_millis: u64,
}

} // verus!
