//! What is known of the player across states.

use vstd::prelude::*;

use super::actions::{Booster, PlayerAction, PlayerActionView};
use crate::geometry::Point;
use crate::models::{ActionKeyDirection, KeyKind};

verus! {

/// The configuration of the player.
#[derive(Clone, Copy, Debug, PartialEq, Eq, Structural)]
pub struct PlayerConfig {
    pub interact_key: KeyKind,
    pub jump_key: KeyKind,
    pub up_jump_key: Option<KeyKind>,
    /// Whether to jump before using the up jump key.
    pub up_jump_specific_key_should_jump: bool,
    pub up_jump_is_flight: bool,
    pub teleport_key: Option<KeyKind>,
    pub has_extended_teleport_range: bool,
    pub world_map_key: Option<KeyKind>,
    pub auto_mob_platforms_pathing: bool,
    pub auto_mob_platforms_pathing_up_jump_only: bool,
    pub auto_mob_use_key_when_pathing: bool,
    pub auto_mob_use_key_when_pathing_update_millis: u64,
}

/// How mobbing explores a map.
#[derive(Clone, Copy, Debug, PartialEq, Eq, Structural)]
pub struct Pathing {
    pub platforms_pathing: bool,
    pub platforms_pathing_up_jump_only: bool,
    pub use_key_when_pathing: bool,
    pub use_key_when_pathing_update_millis: u64,
}

impl PlayerConfig {
    /// How mobbing explores a map.
    pub open spec fn pathing(self) -> Pathing {
        Pathing {
            platforms_pathing: self.auto_mob_platforms_pathing,
            platforms_pathing_up_jump_only: self.auto_mob_platforms_pathing_up_jump_only,
            use_key_when_pathing: self.auto_mob_use_key_when_pathing,
            use_key_when_pathing_update_millis: self.auto_mob_use_key_when_pathing_update_millis,
        }
    }

    /// This configuration with another way of exploring.
    pub open spec fn with_pathing(self, pathing: Pathing) -> PlayerConfig {
        PlayerConfig {
            auto_mob_platforms_pathing: pathing.platforms_pathing,
            auto_mob_platforms_pathing_up_jump_only: pathing.platforms_pathing_up_jump_only,
            auto_mob_use_key_when_pathing: pathing.use_key_when_pathing,
            auto_mob_use_key_when_pathing_update_millis: pathing.use_key_when_pathing_update_millis,
            ..self
        }
    }

    /// How mobbing explores a map.
    pub fn current_pathing(&self) -> (r: Pathing)
        ensures
            r == self.pathing(),
    {
        Pathing {
            platforms_pathing: self.auto_mob_platforms_pathing,
            platforms_pathing_up_jump_only: self.auto_mob_platforms_pathing_up_jump_only,
            use_key_when_pathing: self.auto_mob_use_key_when_pathing,
            use_key_when_pathing_update_millis: self.auto_mob_use_key_when_pathing_update_millis,
        }
    }

    /// Changes how mobbing explores a map.
    pub fn set_pathing(&mut self, pathing: Pathing)
        ensures
            *final(self) == old(self).with_pathing(pathing),
    {
        self.auto_mob_platforms_pathing = pathing.platforms_pathing;
        self.auto_mob_platforms_pathing_up_jump_only = pathing.platforms_pathing_up_jump_only;
        self.auto_mob_use_key_when_pathing = pathing.use_key_when_pathing;
        self.auto_mob_use_key_when_pathing_update_millis =
        pathing.use_key_when_pathing_update_millis;
    }

    /// The configuration before anything is configured.
    pub open spec fn unconfigured() -> PlayerConfig {
        PlayerConfig {
            interact_key: KeyKind::A,
            jump_key: KeyKind::A,
            up_jump_key: None,
            up_jump_specific_key_should_jump: false,
            up_jump_is_flight: false,
            teleport_key: None,
            has_extended_teleport_range: false,
            world_map_key: None,
            auto_mob_platforms_pathing: false,
            auto_mob_platforms_pathing_up_jump_only: false,
            auto_mob_use_key_when_pathing: false,
            auto_mob_use_key_when_pathing_update_millis: 0,
        }
    }
}

impl Default for PlayerConfig {
    fn default() -> (r: PlayerConfig)
        ensures
            r == PlayerConfig::unconfigured(),
    {
        PlayerConfig {
            interact_key: KeyKind::A,
            jump_key: KeyKind::A,
            up_jump_key: None,
            up_jump_specific_key_should_jump: false,
            up_jump_is_flight: false,
            teleport_key: None,
            has_extended_teleport_range: false,
            world_map_key: None,
            auto_mob_platforms_pathing: false,
            auto_mob_platforms_pathing_up_jump_only: false,
            auto_mob_use_key_when_pathing: false,
            auto_mob_use_key_when_pathing_update_millis: 0,
        }
    }
}

/// The bit pattern of positive infinity in single precision.
pub const INFINITY_BITS: u32 = 0x7F80_0000;

/// The bit pattern of negative infinity in single precision.
pub const NEGATIVE_INFINITY_BITS: u32 = 0xFF80_0000;

/// A speed, as the bit pattern of a single precision number.
///
/// Numbers above a positive one are exactly those whose bit patterns, read as integers, lie
/// between its own (exclusive) and that of infinity (inclusive).
#[derive(Clone, Copy, Debug, Default, PartialEq, Eq, Structural)]
pub struct Speed {
    pub bits: u32,
}

impl Speed {
    /// Whether this speed is above a positive threshold.
    pub open spec fn is_above(self, threshold: Speed) -> bool {
        threshold.bits < self.bits <= INFINITY_BITS
    }

    /// Whether this is no number.
    pub open spec fn is_nan(self) -> bool {
        INFINITY_BITS < self.bits < 0x8000_0000 || NEGATIVE_INFINITY_BITS < self.bits
    }

    /// Whether this speed is at most a positive threshold.
    pub open spec fn is_at_most(self, threshold: Speed) -> bool {
        !self.is_nan() && !self.is_above(threshold)
    }

    /// Whether this speed is above a positive threshold.
    pub fn above(self, threshold: Speed) -> (r: bool)
        ensures
            r == self.is_above(threshold),
    {
        threshold.bits < self.bits && self.bits <= INFINITY_BITS
    }

    /// Whether this speed is at most a positive threshold.
    pub fn at_most(self, threshold: Speed) -> (r: bool)
        ensures
            r == self.is_at_most(threshold),
    {
        let nan = INFINITY_BITS < self.bits && self.bits < 0x8000_0000 || NEGATIVE_INFINITY_BITS
            < self.bits;
        !nan && !self.above(threshold)
    }
}

/// How fast the player moves along each axis.
#[derive(Clone, Copy, Debug, Default, PartialEq, Eq, Structural)]
pub struct Velocity {
    pub x: Speed,
    pub y: Speed,
}

/// A kind of movement.
#[derive(Clone, Copy, Debug, PartialEq, Eq, Structural)]
pub enum LastMovement {
    Adjusting,
    DoubleJumping,
    Falling,
    Grappling,
    Jumping,
    UpJumping,
}

/// A quarter of the area that is being hunted in.
#[derive(Clone, Copy, Debug, PartialEq, Eq, Structural)]
pub enum Quadrant {
    TopLeft,
    TopRight,
    BottomRight,
    BottomLeft,
}

/// An action that the player performs, with the id it was given under, if any.
#[derive(Debug)]
pub struct Assignment {
    pub id: Option<u32>,
    pub action: PlayerAction,
}

/// What an [`Assignment`] holds.
pub struct AssignmentView {
    pub id: Option<u32>,
    pub action: PlayerActionView,
}

impl View for Assignment {
    type V = AssignmentView;

    open spec fn view(&self) -> AssignmentView {
        AssignmentView { id: self.id, action: self.action@ }
    }
}

/// What an optional [`Assignment`] holds.
pub open spec fn assignment(assigned: Option<Assignment>) -> Option<AssignmentView> {
    match assigned {
        Some(assigned) => Some(assigned@),
        None => None,
    }
}

/// What is known of the player across states.
#[derive(Debug)]
pub struct PlayerContext {
    pub config: PlayerConfig,
    /// The player's name, if it is known.
    pub name: Option<String>,
    /// The action in rotation.
    pub normal: Option<Assignment>,
    /// The action that takes precedence over the one in rotation.
    pub priority: Option<Assignment>,
    pub velocity: Velocity,
    pub last_known_pos: Option<Point>,
    pub last_known_direction: ActionKeyDirection,
    pub last_movement: Option<LastMovement>,
    /// The quadrant that the last mob was picked in.
    pub auto_mob_last_quadrant: Option<Quadrant>,
    /// Whether solving a rune failed so often that the cash shop is to be entered.
    pub rune_cash_shop: bool,
    pub validating_rune: bool,
    pub dead: bool,
    pub familiars_swap_fail_count_limit_reached: bool,
    pub generic_booster_fail_count_limit_reached: bool,
    pub hexa_booster_fail_count_limit_reached: bool,
    pub reset_to_idle_next_update: bool,
    pub reset_stalling_buffer_states_next_update: bool,
    /// Whether the last journey to a hunting ground ended without getting there.
    pub daily_quest_navigate_failed: bool,
}

/// What a [`PlayerContext`] holds.
pub struct PlayerContextView {
    pub config: PlayerConfig,
    pub name: Option<String>,
    pub normal: Option<AssignmentView>,
    pub priority: Option<AssignmentView>,
    pub velocity: Velocity,
    pub last_known_pos: Option<Point>,
    pub last_known_direction: ActionKeyDirection,
    pub last_movement: Option<LastMovement>,
    pub auto_mob_last_quadrant: Option<Quadrant>,
    pub rune_cash_shop: bool,
    pub validating_rune: bool,
    pub dead: bool,
    pub familiars_swap_fail_count_limit_reached: bool,
    pub generic_booster_fail_count_limit_reached: bool,
    pub hexa_booster_fail_count_limit_reached: bool,
    pub reset_to_idle_next_update: bool,
    pub reset_stalling_buffer_states_next_update: bool,
    pub daily_quest_navigate_failed: bool,
}

impl View for PlayerContext {
    type V = PlayerContextView;

    open spec fn view(&self) -> PlayerContextView {
        PlayerContextView {
            config: self.config,
            name: self.name,
            normal: assignment(self.normal),
            priority: assignment(self.priority),
            velocity: self.velocity,
            last_known_pos: self.last_known_pos,
            last_known_direction: self.last_known_direction,
            last_movement: self.last_movement,
            auto_mob_last_quadrant: self.auto_mob_last_quadrant,
            rune_cash_shop: self.rune_cash_shop,
            validating_rune: self.validating_rune,
            dead: self.dead,
            familiars_swap_fail_count_limit_reached: self.familiars_swap_fail_count_limit_reached,
            generic_booster_fail_count_limit_reached: self.generic_booster_fail_count_limit_reached,
            hexa_booster_fail_count_limit_reached: self.hexa_booster_fail_count_limit_reached,
            reset_to_idle_next_update: self.reset_to_idle_next_update,
            reset_stalling_buffer_states_next_update: self.reset_stalling_buffer_states_next_update,
            daily_quest_navigate_failed: self.daily_quest_navigate_failed,
        }
    }
}

/// The id of an assigned action.
pub open spec fn assigned_id(assigned: Option<AssignmentView>) -> Option<u32> {
    match assigned {
        Some(assigned) => assigned.id,
        None => None,
    }
}

impl PlayerContextView {
    /// The context before anything is known.
    pub open spec fn fresh() -> PlayerContextView {
        PlayerContextView {
            config: PlayerConfig::unconfigured(),
            name: None,
            normal: None,
            priority: None,
            velocity: Velocity { x: Speed { bits: 0 }, y: Speed { bits: 0 } },
            last_known_pos: None,
            last_known_direction: ActionKeyDirection::Any,
            last_movement: None,
            auto_mob_last_quadrant: None,
            rune_cash_shop: false,
            validating_rune: false,
            dead: false,
            familiars_swap_fail_count_limit_reached: false,
            generic_booster_fail_count_limit_reached: false,
            hexa_booster_fail_count_limit_reached: false,
            reset_to_idle_next_update: false,
            reset_stalling_buffer_states_next_update: false,
            daily_quest_navigate_failed: false,
        }
    }

    /// The id of the action in rotation.
    pub open spec fn normal_id(self) -> Option<u32> {
        assigned_id(self.normal)
    }

    /// The id of the action that takes precedence.
    pub open spec fn priority_id(self) -> Option<u32> {
        assigned_id(self.priority)
    }

    /// The action to perform next: the one that takes precedence, or else the one in rotation.
    pub open spec fn next(self) -> Option<PlayerActionView> {
        match self.priority {
            Some(assigned) => Some(assigned.action),
            None => match self.normal {
                Some(assigned) => Some(assigned.action),
                None => None,
            },
        }
    }

    /// Whether mobbing is all there is to do.
    pub open spec fn mobs_only(self) -> bool {
        &&& self.priority is None
        &&& self.normal is Some
        &&& self.normal->0.action matches PlayerActionView::Plain(PlayerAction::AutoMob(_))
    }

    /// This context with a new action in rotation.
    pub open spec fn with_normal(
        self,
        id: Option<u32>,
        action: PlayerActionView,
    ) -> PlayerContextView {
        PlayerContextView {
            normal: Some(AssignmentView { id, action }),
            reset_to_idle_next_update: true,
            ..self
        }
    }

    /// This context with a new action that takes precedence.
    pub open spec fn with_priority(
        self,
        id: Option<u32>,
        action: PlayerActionView,
    ) -> PlayerContextView {
        PlayerContextView {
            priority: Some(AssignmentView { id, action }),
            reset_to_idle_next_update: true,
            ..self
        }
    }

    /// This context without an action in rotation.
    pub open spec fn without_normal(self) -> PlayerContextView {
        PlayerContextView { normal: None, reset_to_idle_next_update: true, ..self }
    }

    /// This context without an action that takes precedence.
    pub open spec fn without_priority(self) -> PlayerContextView {
        PlayerContextView { priority: None, reset_to_idle_next_update: true, ..self }
    }

    /// This context once the action to perform next is completed.
    pub open spec fn with_next_completed(self) -> PlayerContextView {
        if self.priority is Some {
            PlayerContextView { priority: None, last_movement: None, ..self }
        } else {
            PlayerContextView { normal: None, last_movement: None, ..self }
        }
    }

    /// This context once all actions are given up.
    pub open spec fn aborted(self, should_idle: bool) -> PlayerContextView {
        PlayerContextView {
            normal: None,
            priority: None,
            reset_to_idle_next_update: should_idle,
            ..self
        }
    }
}

impl Default for PlayerContext {
    fn default() -> (r: PlayerContext)
        ensures
            r@ == PlayerContextView::fresh(),
    {
        PlayerContext {
            config: PlayerConfig::default(),
            name: None,
            normal: None,
            priority: None,
            velocity: Velocity { x: Speed { bits: 0 }, y: Speed { bits: 0 } },
            last_known_pos: None,
            last_known_direction: ActionKeyDirection::Any,
            last_movement: None,
            auto_mob_last_quadrant: None,
            rune_cash_shop: false,
            validating_rune: false,
            dead: false,
            familiars_swap_fail_count_limit_reached: false,
            generic_booster_fail_count_limit_reached: false,
            hexa_booster_fail_count_limit_reached: false,
            reset_to_idle_next_update: false,
            reset_stalling_buffer_states_next_update: false,
            daily_quest_navigate_failed: false,
        }
    }
}

impl PlayerContext {
    pub open spec fn spec_booster_limit_reached(self, kind: Booster) -> bool {
        match kind {
            Booster::Generic => self.generic_booster_fail_count_limit_reached,
            Booster::Hexa => self.hexa_booster_fail_count_limit_reached,
        }
    }

    /// Whether using a booster of the given kind failed too often.
    pub fn is_booster_fail_count_limit_reached(&self, kind: Booster) -> (r: bool)
        ensures
            r == self.spec_booster_limit_reached(kind),
    {
        match kind {
            Booster::Generic => self.generic_booster_fail_count_limit_reached,
            Booster::Hexa => self.hexa_booster_fail_count_limit_reached,
        }
    }

    /// The player's name, if it is known.
    pub fn name(&self) -> (r: Option<String>)
        ensures
            r == self@.name,
    {
        match &self.name {
            Some(name) => Some(name.clone()),
            None => None,
        }
    }

    pub fn has_normal_action(&self) -> (r: bool)
        ensures
            r == (self@.normal is Some),
    {
        self.normal.is_some()
    }

    pub fn has_priority_action(&self) -> (r: bool)
        ensures
            r == (self@.priority is Some),
    {
        self.priority.is_some()
    }

    /// The action in rotation.
    pub fn normal_action(&self) -> (r: Option<&PlayerAction>)
        ensures
            r is Some == self@.normal is Some,
            r is Some ==> r->0@ == self@.normal->0.action,
    {
        match &self.normal {
            Some(assigned) => Some(&assigned.action),
            None => None,
        }
    }

    /// The action that takes precedence.
    pub fn priority_action(&self) -> (r: Option<&PlayerAction>)
        ensures
            r is Some == self@.priority is Some,
            r is Some ==> r->0@ == self@.priority->0.action,
    {
        match &self.priority {
            Some(assigned) => Some(&assigned.action),
            None => None,
        }
    }

    pub fn normal_action_id(&self) -> (r: Option<u32>)
        ensures
            r == self@.normal_id(),
    {
        match &self.normal {
            Some(assigned) => assigned.id,
            None => None,
        }
    }

    pub fn priority_action_id(&self) -> (r: Option<u32>)
        ensures
            r == self@.priority_id(),
    {
        match &self.priority {
            Some(assigned) => assigned.id,
            None => None,
        }
    }

    /// The action to perform next.
    pub fn next_action(&self) -> (r: Option<&PlayerAction>)
        ensures
            r is Some == self@.next() is Some,
            r is Some ==> r->0@ == self@.next()->0,
    {
        match &self.priority {
            Some(assigned) => Some(&assigned.action),
            None => match &self.normal {
                Some(assigned) => Some(&assigned.action),
                None => None,
            },
        }
    }

    /// Whether mobbing is all there is to do.
    pub fn has_auto_mob_action_only(&self) -> (r: bool)
        ensures
            r == self@.mobs_only(),
    {
        match (&self.priority, &self.normal) {
            (None, Some(assigned)) => match assigned.action {
                PlayerAction::AutoMob(_) => true,
                _ => false,
            },
            _ => false,
        }
    }

    /// Puts an action into rotation.
    pub fn set_normal_action(&mut self, id: Option<u32>, action: PlayerAction)
        ensures
            final(self)@ == old(self)@.with_normal(id, action@),
    {
        self.normal = Some(Assignment { id, action });
        self.reset_to_idle_next_update = true;
    }

    /// Drops the action in rotation.
    pub fn reset_normal_action(&mut self)
        ensures
            final(self)@ == old(self)@.without_normal(),
    {
        self.normal = None;
        self.reset_to_idle_next_update = true;
    }

    /// Gives the player an action that takes precedence.
    pub fn set_priority_action(&mut self, id: Option<u32>, action: PlayerAction)
        ensures
            final(self)@ == old(self)@.with_priority(id, action@),
    {
        self.priority = Some(Assignment { id, action });
        self.reset_to_idle_next_update = true;
    }

    /// Gives the player an action that takes precedence, and hands out the id of the one before.
    pub fn replace_priority_action(&mut self, id: Option<u32>, action: PlayerAction) -> (r: Option<
        u32,
    >)
        ensures
            r == old(self)@.priority_id(),
            final(self)@ == old(self)@.with_priority(id, action@),
    {
        let previous = self.priority_action_id();
        self.set_priority_action(id, action);
        previous
    }

    /// Drops the action that takes precedence, and hands out its id.
    pub fn take_priority_action(&mut self) -> (r: Option<u32>)
        ensures
            r == old(self)@.priority_id(),
            final(self)@ == old(self)@.without_priority(),
    {
        let previous = self.priority_action_id();
        self.priority = None;
        self.reset_to_idle_next_update = true;
        previous
    }

    /// Drops the action to perform next because it is completed.
    pub fn clear_action_completed(&mut self)
        ensures
            final(self)@ == old(self)@.with_next_completed(),
    {
        self.last_movement = None;
        if self.priority.is_some() {
            self.priority = None;
        } else {
            self.normal = None;
        }
    }

    /// Drops all actions.
    pub fn clear_actions_aborted(&mut self, should_idle: bool)
        ensures
            final(self)@ == old(self)@.aborted(should_idle),
    {
        self.normal = None;
        self.priority = None;
        self.reset_to_idle_next_update = should_idle;
    }

    /// Notes that a journey to a hunting ground did not get there.
    pub fn set_daily_quest_navigate_failed(&mut self)
        ensures
            final(self)@ == (PlayerContextView { daily_quest_navigate_failed: true, ..old(self)@ }),
    {
        self.daily_quest_navigate_failed = true;
    }

    /// Whether the last journey to a hunting ground did not get there. The note is dropped.
    pub fn take_daily_quest_navigate_failed(&mut self) -> (r: bool)
        ensures
            r == old(self)@.daily_quest_navigate_failed,
            final(self)@ == (PlayerContextView { daily_quest_navigate_failed: false, ..old(self)@ }),
    {
        let failed = self.daily_quest_navigate_failed;
        self.daily_quest_navigate_failed = false;
        failed
    }
}

} // verus!
