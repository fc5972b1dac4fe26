//! The priority actions that are offered as a whole, such as keeping a buff up.

use vstd::prelude::*;

use super::action::RotatorAction;
use super::condition::Condition;
use super::priority::{ActionMetadata, PriorityAction, PriorityActionQueueInfo};
use crate::ecs::BuffKind;
use crate::models::{ActionCondition, ActionKeyWith, ExchangeHexaBoosterCondition, KeyKind};
use crate::player::actions::{
    Booster, ExchangeBooster, FamiliarsSwap, Key, Panic, PanicTo, PlayerAction, UseBooster,
};

verus! {

/// A priority action that is queued to the front.
pub open spec fn standing(
    condition: Condition,
    action: PlayerAction,
    metadata: Option<ActionMetadata>,
    suppress_during_daily_quest: bool,
) -> PriorityAction {
    PriorityAction {
        condition,
        condition_kind: None,
        inner: RotatorAction::Single(action),
        metadata,
        queue_to_front: true,
        suppress_during_daily_quest,
        queue_info: PriorityActionQueueInfo::fresh(),
    }
}

/// A priority action with a configured condition.
pub open spec fn fixed(
    action: RotatorAction,
    condition: ActionCondition,
    queue_to_front: bool,
) -> PriorityAction {
    PriorityAction {
        condition: Condition::Fixed(condition),
        condition_kind: Some(condition),
        inner: action,
        metadata: None,
        queue_to_front,
        suppress_during_daily_quest: true,
        queue_info: PriorityActionQueueInfo::fresh(),
    }
}

/// The action that presses `key` once.
pub open spec fn key_press(
    key: KeyKind,
    with: ActionKeyWith,
    before: u32,
    after: u32,
) -> PlayerAction {
    PlayerAction::Key(Key::pressed(key, with, before, after))
}

/// The action that changes the channel.
pub open spec fn change_channel() -> PlayerAction {
    PlayerAction::Panic(Panic { to: PanicTo::Channel })
}

fn stand(
    condition: Condition,
    action: PlayerAction,
    metadata: Option<ActionMetadata>,
    suppress_during_daily_quest: bool,
) -> (r: PriorityAction)
    ensures
        r == standing(condition, action, metadata, suppress_during_daily_quest),
{
    PriorityAction {
        condition,
        condition_kind: None,
        inner: RotatorAction::Single(action),
        metadata,
        queue_to_front: true,
        suppress_during_daily_quest,
        queue_info: PriorityActionQueueInfo::default(),
    }
}

/// A priority action with a configured condition.
pub fn priority_action(action: RotatorAction, condition: ActionCondition, queue_to_front: bool) -> (r:
    PriorityAction)
    requires
        condition is EveryMillis || condition is ErdaShowerOffCooldown,
    ensures
        r == fixed(action, condition, queue_to_front),
        r.wf(),
{
    PriorityAction {
        condition: Condition::Fixed(condition),
        condition_kind: Some(condition),
        inner: action,
        metadata: None,
        queue_to_front,
        suppress_during_daily_quest: true,
        queue_info: PriorityActionQueueInfo::default(),
    }
}

/// Refills the essence of the familiars.
pub fn familiar_essence_replenish_priority_action(key: KeyKind) -> (r: PriorityAction)
    ensures
        r == standing(
            Condition::FamiliarEssence,
            key_press(key, ActionKeyWith::Any, 5, 0),
            None,
            true,
        ),
{
    let press = Key::press(key, ActionKeyWith::Any, 5, 0);
    stand(Condition::FamiliarEssence, PlayerAction::Key(press), None, true)
}

/// Swaps familiars.
pub fn familiars_swap_priority_action(swap: FamiliarsSwap, swap_check_millis: u64) -> (r:
    PriorityAction)
    ensures
        r == standing(
            Condition::FamiliarsSwap(swap_check_millis),
            PlayerAction::FamiliarsSwap(swap),
            None,
            true,
        ),
{
    stand(
        Condition::FamiliarsSwap(swap_check_millis),
        PlayerAction::FamiliarsSwap(swap),
        None,
        true,
    )
}

/// Solves a rune.
pub fn solve_rune_priority_action() -> (r: PriorityAction)
    ensures
        r == standing(Condition::SolveRune, PlayerAction::SolveRune, None, false),
{
    stand(Condition::SolveRune, PlayerAction::SolveRune, None, false)
}

/// Solves a lie detector with transparent shapes.
pub fn solve_transparent_shape_priority_action() -> (r: PriorityAction)
    ensures
        r == standing(Condition::SolveShape, PlayerAction::SolveShape, None, false),
{
    stand(Condition::SolveShape, PlayerAction::SolveShape, None, false)
}

/// Solves a lie detector with Violetta.
pub fn solve_violetta_priority_action() -> (r: PriorityAction)
    ensures
        r == standing(Condition::SolveVioletta, PlayerAction::SolveVioletta, None, false),
{
    stand(Condition::SolveVioletta, PlayerAction::SolveVioletta, None, false)
}

/// Keeps a buff up.
pub fn buff_priority_action(buff: BuffKind, key: KeyKind) -> (r: PriorityAction)
    ensures
        r == standing(
            Condition::Buff(buff),
            key_press(key, ActionKeyWith::Stationary, 10, 10),
            Some(ActionMetadata::Buff { kind: buff }),
            true,
        ),
{
    let press = Key::press(key, ActionKeyWith::Stationary, 10, 10);
    stand(
        Condition::Buff(buff),
        PlayerAction::Key(press),
        Some(ActionMetadata::Buff { kind: buff }),
        true,
    )
}

/// Changes the channel when another player is around.
pub fn panic_priority_action() -> (r: PriorityAction)
    ensures
        r == standing(Condition::Panic, change_channel(), None, true),
{
    stand(Condition::Panic, PlayerAction::Panic(Panic { to: PanicTo::Channel }), None, true)
}

/// Changes the channel when an elite boss appears.
pub fn elite_boss_change_channel_priority_action() -> (r: PriorityAction)
    ensures
        r == standing(Condition::EliteBoss, change_channel(), None, true),
{
    stand(Condition::EliteBoss, PlayerAction::Panic(Panic { to: PanicTo::Channel }), None, true)
}

/// Presses a key when an elite boss appears.
pub fn elite_boss_use_key_priority_action(key: KeyKind) -> (r: PriorityAction)
    ensures
        r == standing(
            Condition::EliteBoss,
            key_press(key, ActionKeyWith::Stationary, 10, 10),
            None,
            true,
        ),
{
    let press = Key::press(key, ActionKeyWith::Stationary, 10, 10);
    stand(Condition::EliteBoss, PlayerAction::Key(press), None, true)
}

/// Keeps a booster in use.
pub fn use_booster_priority_action(kind: Booster) -> (r: PriorityAction)
    ensures
        r == standing(
            Condition::UseBooster(kind),
            PlayerAction::UseBooster(UseBooster { kind }),
            Some(ActionMetadata::UseBooster),
            true,
        ),
{
    stand(
        Condition::UseBooster(kind),
        PlayerAction::UseBooster(UseBooster { kind }),
        Some(ActionMetadata::UseBooster),
        true,
    )
}

/// Exchanges Sol Erda for HEXA boosters.
pub fn exchange_hexa_booster_priority_action(
    condition: ExchangeHexaBoosterCondition,
    amount: u32,
    all: bool,
) -> (r: PriorityAction)
    ensures
        r == standing(
            Condition::ExchangeHexaBooster(condition),
            PlayerAction::ExchangeBooster(ExchangeBooster { amount, all }),
            None,
            true,
        ),
{
    stand(
        Condition::ExchangeHexaBooster(condition),
        PlayerAction::ExchangeBooster(ExchangeBooster { amount, all }),
        None,
        true,
    )
}

/// Dismisses a dialog that is in the way.
pub fn unstuck_priority_action() -> (r: PriorityAction)
    ensures
        r == standing(Condition::Unstuck, PlayerAction::Unstuck, None, false),
{
    stand(Condition::Unstuck, PlayerAction::Unstuck, None, false)
}

} // verus!
