//! The actions a player can be asked to perform.

use vstd::prelude::*;

use crate::daily::{owned_texts, texts, WorldMapRegion};
use crate::geometry::Rect;
use crate::models::{
    ActionKeyDirection, ActionKeyWith, KeyKind, LinkKeyKind, Position, WaitAfterBuffered,
};

verus! {

/// Uses a key.
#[derive(Clone, Copy, Debug, PartialEq, Eq, Structural)]
pub struct Key {
    pub key: KeyKind,
    pub key_hold_ticks: u32,
    pub key_hold_buffered_to_wait_after: bool,
    pub link_key: LinkKeyKind,
    pub count: u32,
    pub position: Option<Position>,
    pub direction: ActionKeyDirection,
    pub with: ActionKeyWith,
    pub wait_before_use_ticks: u32,
    pub wait_before_use_ticks_random_range: u32,
    pub wait_after_use_ticks: u32,
    pub wait_after_use_ticks_random_range: u32,
    pub wait_after_buffered: WaitAfterBuffered,
}

impl Key {
    /// A single press of `key` in place, with a fixed wait before and after.
    pub open spec fn pressed(key: KeyKind, with: ActionKeyWith, before: u32, after: u32) -> Key {
        Key {
            key,
            key_hold_ticks: 0,
            key_hold_buffered_to_wait_after: false,
            link_key: LinkKeyKind::Unlinked,
            count: 1,
            position: None,
            direction: ActionKeyDirection::Any,
            with,
            wait_before_use_ticks: before,
            wait_before_use_ticks_random_range: 0,
            wait_after_use_ticks: after,
            wait_after_use_ticks_random_range: 0,
            wait_after_buffered: WaitAfterBuffered::Unbuffered,
        }
    }

    /// A single press of `key` in place, with a fixed wait before and after.
    pub fn press(key: KeyKind, with: ActionKeyWith, before: u32, after: u32) -> (r: Key)
        ensures
            r == Key::pressed(key, with, before, after),
    {
        Key {
            key,
            key_hold_ticks: 0,
            key_hold_buffered_to_wait_after: false,
            link_key: LinkKeyKind::Unlinked,
            count: 1,
            position: None,
            direction: ActionKeyDirection::Any,
            with,
            wait_before_use_ticks: before,
            wait_before_use_ticks_random_range: 0,
            wait_after_use_ticks: after,
            wait_after_use_ticks_random_range: 0,
            wait_after_buffered: WaitAfterBuffered::Unbuffered,
        }
    }
}

/// Moves to a position.
#[derive(Clone, Copy, Debug, PartialEq, Eq, Structural)]
pub struct Move {
    pub position: Position,
    pub wait_after_move_ticks: u32,
}

/// Moves to a mob and uses the mobbing key there.
#[derive(Clone, Copy, Debug, PartialEq, Eq, Structural)]
pub struct AutoMob {
    pub key: KeyKind,
    pub key_hold_ticks: u32,
    pub link_key: LinkKeyKind,
    pub count: u32,
    pub with: ActionKeyWith,
    pub wait_before_ticks: u32,
    pub wait_before_ticks_random_range: u32,
    pub wait_after_ticks: u32,
    pub wait_after_ticks_random_range: u32,
    pub position: Position,
    /// Whether the position is for exploring rather than a mob's.
    pub is_pathing: bool,
    pub is_monster_park: bool,
}

/// The direction of a [`PingPong`].
#[derive(Clone, Copy, Debug, PartialEq, Eq, Structural)]
pub enum PingPongDirection {
    Left,
    Right,
}

/// Sweeps an area from side to side while using the mobbing key.
#[derive(Clone, Copy, Debug, PartialEq, Eq, Structural)]
pub struct PingPong {
    pub key: KeyKind,
    pub key_hold_ticks: u32,
    pub link_key: LinkKeyKind,
    pub count: u32,
    pub with: ActionKeyWith,
    pub wait_before_ticks: u32,
    pub wait_before_ticks_random_range: u32,
    pub wait_after_ticks: u32,
    pub wait_after_ticks_random_range: u32,
    /// The area to sweep, with its vertical position counted from the bottom.
    pub bound: Rect,
    pub direction: PingPongDirection,
}

/// A kind of booster.
#[derive(Clone, Copy, Debug, PartialEq, Eq, Hash, Structural)]
pub enum Booster {
    Generic,
    Hexa,
}

/// Uses a booster.
#[derive(Clone, Copy, Debug, PartialEq, Eq, Structural)]
pub struct UseBooster {
    pub kind: Booster,
}

/// Exchanges Sol Erda for HEXA boosters.
#[derive(Clone, Copy, Debug, PartialEq, Eq, Structural)]
pub struct ExchangeBooster {
    pub amount: u32,
    pub all: bool,
}

/// Swaps familiars.
#[derive(Clone, Copy, Debug, PartialEq, Eq, Structural)]
pub struct FamiliarsSwap {
    pub swappable_slots: u32,
    pub swappable_rarities: u32,
}

/// Where to flee to.
#[derive(Clone, Copy, Debug, PartialEq, Eq, Structural)]
pub enum PanicTo {
    Town,
    Channel,
}

/// Flees.
#[derive(Clone, Copy, Debug, PartialEq, Eq, Structural)]
pub struct Panic {
    pub to: PanicTo,
}

/// Travels to a hunting ground through the world map.
#[derive(Debug)]
pub struct NavigateToHuntingGround {
    pub region: WorldMapRegion,
    pub dropdown_path: Vec<String>,
    /// The location's node, as an offset from the world map title.
    pub location_point: (i32, i32),
    pub sub_location_label: Option<String>,
    /// How many leading dropdowns already show the right selection.
    pub skip_dropdown_slots: usize,
}

/// What a [`NavigateToHuntingGround`] holds.
pub struct NavigateToHuntingGroundView {
    pub region: WorldMapRegion,
    pub dropdown_path: Seq<Seq<char>>,
    pub location_point: (i32, i32),
    pub sub_location_label: Option<Seq<char>>,
    pub skip_dropdown_slots: usize,
}

/// The characters of an optional text.
pub open spec fn optional_text(text: Option<String>) -> Option<Seq<char>> {
    match text {
        Some(text) => Some(text@),
        None => None,
    }
}

impl View for NavigateToHuntingGround {
    type V = NavigateToHuntingGroundView;

    open spec fn view(&self) -> NavigateToHuntingGroundView {
        NavigateToHuntingGroundView {
            region: self.region,
            dropdown_path: texts(self.dropdown_path@),
            location_point: self.location_point,
            sub_location_label: optional_text(self.sub_location_label),
            skip_dropdown_slots: self.skip_dropdown_slots,
        }
    }
}

impl Clone for NavigateToHuntingGround {
    fn clone(&self) -> (r: Self)
        ensures
            r@ == self@,
    {
        let sub_location_label = match &self.sub_location_label {
            Some(label) => Some(label.clone()),
            None => None,
        };
        NavigateToHuntingGround {
            region: self.region,
            dropdown_path: owned_texts(&self.dropdown_path),
            location_point: self.location_point,
            sub_location_label,
            skip_dropdown_slots: self.skip_dropdown_slots,
        }
    }
}

/// An action for the player.
#[derive(Debug)]
pub enum PlayerAction {
    Key(Key),
    Move(Move),
    AutoMob(AutoMob),
    PingPong(PingPong),
    SolveRune,
    SolveShape,
    SolveVioletta,
    UseBooster(UseBooster),
    ExchangeBooster(ExchangeBooster),
    FamiliarsSwap(FamiliarsSwap),
    Panic(Panic),
    Unstuck,
    EnterMonsterPark,
    NavigateToHuntingGround(NavigateToHuntingGround),
}

/// What a [`PlayerAction`] holds.
pub enum PlayerActionView {
    /// A journey, by its contents.
    Navigate(NavigateToHuntingGroundView),
    /// Any other action.
    Plain(PlayerAction),
}

impl View for PlayerAction {
    type V = PlayerActionView;

    open spec fn view(&self) -> PlayerActionView {
        match self {
            PlayerAction::NavigateToHuntingGround(target) => PlayerActionView::Navigate(target@),
            _ => PlayerActionView::Plain(*self),
        }
    }
}

impl Clone for PlayerAction {
    fn clone(&self) -> (r: Self)
        ensures
            r@ == self@,
    {
        match self {
            PlayerAction::Key(key) => PlayerAction::Key(*key),
            PlayerAction::Move(target) => PlayerAction::Move(*target),
            PlayerAction::AutoMob(mob) => PlayerAction::AutoMob(*mob),
            PlayerAction::PingPong(ping_pong) => PlayerAction::PingPong(*ping_pong),
            PlayerAction::SolveRune => PlayerAction::SolveRune,
            PlayerAction::SolveShape => PlayerAction::SolveShape,
            PlayerAction::SolveVioletta => PlayerAction::SolveVioletta,
            PlayerAction::UseBooster(booster) => PlayerAction::UseBooster(*booster),
            PlayerAction::ExchangeBooster(exchange) => PlayerAction::ExchangeBooster(*exchange),
            PlayerAction::FamiliarsSwap(swap) => PlayerAction::FamiliarsSwap(*swap),
            PlayerAction::Panic(panic) => PlayerAction::Panic(*panic),
            PlayerAction::Unstuck => PlayerAction::Unstuck,
            PlayerAction::EnterMonsterPark => PlayerAction::EnterMonsterPark,
            PlayerAction::NavigateToHuntingGround(target) => {
                PlayerAction::NavigateToHuntingGround(target.clone())
            },
        }
    }
}

} // verus!
