//! Which actions are put together for a configuration.

use vstd::prelude::*;

use crate::ecs::BuffKind;
use crate::models::{
    Action, ActionKeyDirection, ActionKeyWith, KeyKind, LinkKeyKind,
    WaitAfterBuffered,
};
use crate::player::actions::{
    Booster, ExchangeBooster, FamiliarsSwap, Key, Panic, PanicTo, PlayerAction, UseBooster,
};
use crate::rotator::action::{
    linked_row, linked_run, linked_run_is_bounded, rotated, row_from, RotatorAction,
};
use crate::rotator::builder::{
    built, configured_actions, keeps_familiars, numbers_suffice, Built, Slot,
};
use crate::rotator::condition::Condition;
use crate::rotator::map::other_than;
use crate::rotator::priority::{ActionMetadata, PriorityAction, PriorityActionQueueInfo};
use crate::rotator::standing::fixed;
use crate::rotator::{RotatorBuildArgs, RotatorMode};

verus! {

/// The actions that take precedence, in the order in which they are gone through.
pub open spec fn listed(built: Built) -> Seq<PriorityAction> {
    built.order.map_values(|id: u32| built.contents[id])
}

/// Whether `left` more actions can be numbered, and the actions so far are listed by distinct
/// numbers below the next one.
#[verifier::opaque]
spec fn has_room(built: Built, left: int) -> bool {
    &&& 0 <= left
    &&& built.next_id + left <= u32::MAX
    &&& built.order.no_duplicates()
    &&& forall|i: int|
        0 <= i < built.order.len() ==> {
            &&& #[trigger] built.order[i] < built.next_id
            &&& built.contents.contains_key(built.order[i])
        }
    &&& forall|id: u32| #[trigger] built.contents.contains_key(id) ==> built.order.contains(id)
}

proof fn filtering_keeps_all(ids: Seq<u32>, keep: spec_fn(u32) -> bool)
    requires
        forall|i: int| 0 <= i < ids.len() ==> keep(#[trigger] ids[i]),
    ensures
        ids.filter(keep) == ids,
    decreases ids.len(),
{
    reveal(Seq::filter);
    if ids.len() > 0 {
        let shorter = ids.drop_last();
        assert forall|i: int| 0 <= i < shorter.len() implies keep(#[trigger] shorter[i]) by {
            assert(shorter[i] == ids[i]);
        }
        filtering_keeps_all(shorter, keep);
        assert(keep(ids[ids.len() - 1]));
        assert(shorter.push(ids.last()) == ids);
    }
}

proof fn adding_lists_last(before: Built, action: PriorityAction, left: int)
    requires
        has_room(before, left),
        left > 0,
    ensures
        ({
            let after = before.with(Slot::Priority(action));
            &&& has_room(after, left - 1)
            &&& listed(after) == listed(before).push(action)
            &&& after.normal == before.normal
        }),
{
    reveal(has_room);
    let after = before.with(Slot::Priority(action));
    let id = before.next_id;
    assert forall|i: int| 0 <= i < before.order.len() implies other_than(id)(
        #[trigger] before.order[i],
    ) by {
        assert(before.order[i] < id);
    }
    filtering_keeps_all(before.order, other_than(id));
    assert(after.order == before.order.push(id));
    assert forall|other: u32| #[trigger] after.contents.contains_key(other) implies
        after.order.contains(other) by {
        if other == id {
            assert(after.order[before.order.len() as int] == id);
        } else {
            assert(before.contents.contains_key(other));
            let i = before.order.index_of(other);
            assert(after.order[i] == other);
        }
    }
    assert forall|i: int| 0 <= i < after.order.len() implies {
        &&& #[trigger] after.order[i] < after.next_id
        &&& after.contents.contains_key(after.order[i])
    } by {
        if i < before.order.len() {
            assert(before.order[i] == after.order[i]);
        }
    }
    assert(listed(after) =~= listed(before).push(action)) by {
        assert forall|i: int| 0 <= i < before.order.len() implies #[trigger] listed(after)[i]
            == listed(before)[i] by {
            assert(after.order[i] == before.order[i]);
            assert(before.order[i] < id);
        }
    }
}

proof fn adding_if_enabled_lists_last(
    before: Built,
    enabled: bool,
    action: PriorityAction,
    left: int,
)
    requires
        has_room(before, left),
        left > 0,
    ensures
        ({
            let after = before.with_if(enabled, action);
            &&& has_room(after, left - 1)
            &&& listed(after) == if enabled {
                listed(before).push(action)
            } else {
                listed(before)
            }
            &&& after.normal == before.normal
        }),
{
    adding_lists_last(before, action, left);
    reveal(has_room);
}

proof fn adding_in_rotation_lists_nothing(before: Built, action: RotatorAction, left: int)
    requires
        has_room(before, left),
        left > 0,
    ensures
        ({
            let after = before.with(Slot::Normal(action));
            &&& has_room(after, left - 1)
            &&& listed(after) == listed(before)
            &&& after.normal == before.normal.push((before.next_id, action))
        }),
{
    reveal(has_room);
}

/// A press of `key` in place, with the given waits before and after.
pub open spec fn single_press(key: KeyKind, with: ActionKeyWith, before: u32, after: u32) -> Key {
    Key {
        key,
        key_hold_ticks: 0,
        key_hold_buffered_to_wait_after: false,
        link_key: LinkKeyKind::Unlinked,
        count: 1,
        position: None,
        direction: ActionKeyDirection::Any,
        with,
        wait_before_use_ticks: before,
        wait_before_use_ticks_random_range: 0,
        wait_after_use_ticks: after,
        wait_after_use_ticks_random_range: 0,
        wait_after_buffered: WaitAfterBuffered::Unbuffered,
    }
}

/// An action of its own that goes to the front of the queue and was never queued.
pub open spec fn urgent(
    condition: Condition,
    action: PlayerAction,
    metadata: Option<ActionMetadata>,
    held_back_by_quests: bool,
) -> PriorityAction {
    PriorityAction {
        condition,
        condition_kind: None,
        inner: RotatorAction::Single(action),
        metadata,
        queue_to_front: true,
        suppress_during_daily_quest: held_back_by_quests,
        queue_info: PriorityActionQueueInfo { ignoring: false, last_queued_time: None },
    }
}

/// The one action that is right for a condition which is not configured by hand, if there is
/// exactly one.
pub open spec fn right_action(condition: Condition, args: RotatorBuildArgs) -> PriorityAction {
    match condition {
        Condition::UseBooster(kind) => urgent(
            condition,
            PlayerAction::UseBooster(UseBooster { kind }),
            Some(ActionMetadata::UseBooster),
            true,
        ),
        Condition::ExchangeHexaBooster(_) => urgent(
            condition,
            PlayerAction::ExchangeBooster(
                ExchangeBooster {
                    amount: args.hexa_booster_exchange_amount,
                    all: args.hexa_booster_exchange_all,
                },
            ),
            None,
            true,
        ),
        Condition::FamiliarsSwap(_) => urgent(
            condition,
            PlayerAction::FamiliarsSwap(
                FamiliarsSwap {
                    swappable_slots: args.familiars.swappable_familiars,
                    swappable_rarities: args.familiars.swappable_rarities,
                },
            ),
            None,
            true,
        ),
        Condition::SolveRune => urgent(condition, PlayerAction::SolveRune, None, false),
        Condition::SolveShape => urgent(condition, PlayerAction::SolveShape, None, false),
        Condition::SolveVioletta => urgent(condition, PlayerAction::SolveVioletta, None, false),
        Condition::EliteBoss => urgent(
            condition,
            if args.elite_boss_behavior is UseKey {
                PlayerAction::Key(
                    single_press(args.elite_boss_behavior_key, ActionKeyWith::Stationary, 10, 10),
                )
            } else {
                PlayerAction::Panic(Panic { to: PanicTo::Channel })
            },
            None,
            true,
        ),
        Condition::Panic => urgent(
            condition,
            PlayerAction::Panic(Panic { to: PanicTo::Channel }),
            None,
            true,
        ),
        Condition::FamiliarEssence => urgent(
            condition,
            PlayerAction::Key(single_press(args.familiar_essence_key, ActionKeyWith::Any, 5, 0)),
            None,
            true,
        ),
        _ => urgent(condition, PlayerAction::Unstuck, None, false),
    }
}

/// Whether an action with the given condition is asked for by the configuration.
pub open spec fn asked_for(condition: Condition, args: RotatorBuildArgs) -> bool {
    match condition {
        Condition::UseBooster(Booster::Generic) => args.enable_using_generic_booster && !(args.mode
            is MonsterPark),
        Condition::UseBooster(Booster::Hexa) => args.enable_using_hexa_booster && !(args.mode
            is MonsterPark),
        Condition::ExchangeHexaBooster(amount) => amount == args.hexa_booster_exchange_condition
            && !(amount is Never),
        Condition::FamiliarsSwap(millis) => args.familiars.enable_familiars_swapping && millis
            == args.familiars.swap_check_millis,
        Condition::SolveRune => args.enable_rune_solving,
        Condition::SolveShape => args.enable_transparent_shape_solving,
        Condition::SolveVioletta => args.enable_violetta_solving,
        Condition::EliteBoss => !(args.elite_boss_behavior is Nothing),
        Condition::Panic => args.enable_panic_mode,
        Condition::FamiliarEssence => exists|i: int|
            0 <= i < args.buffs@.len() && (#[trigger] args.buffs@[i]).0 is Familiar,
        Condition::Unstuck => true,
        _ => false,
    }
}

/// The place of a condition in the order of precedence.
pub open spec fn rank(condition: Condition) -> int {
    match condition {
        Condition::UseBooster(Booster::Generic) => 0,
        Condition::UseBooster(Booster::Hexa) => 1,
        Condition::ExchangeHexaBooster(_) => 2,
        Condition::FamiliarsSwap(_) => 3,
        Condition::Fixed(_) => 4,
        Condition::SolveRune => 5,
        Condition::SolveShape => 6,
        Condition::SolveVioletta => 7,
        Condition::EliteBoss => 8,
        Condition::Panic => 9,
        Condition::FamiliarEssence => 10,
        Condition::Buff(_) => 11,
        Condition::Unstuck => 12,
    }
}

/// Whether the actions are listed by rank, and only configured actions and buffs share one.
pub open spec fn ranked(actions: Seq<PriorityAction>) -> bool {
    forall|i: int, j: int|
        0 <= i < j < actions.len() ==> {
            let first = rank((#[trigger] actions[i]).condition);
            let second = rank((#[trigger] actions[j]).condition);
            first < second || first == second && (first == 4 || first == 11)
        }
}

/// Whether the actions of conditions up to `upto` are the ones that are asked for, each of them
/// right, and there are no others.
#[verifier::opaque]
spec fn right_upto(actions: Seq<PriorityAction>, args: RotatorBuildArgs, upto: int) -> bool {
    &&& ranked(actions)
    &&& forall|i: int| 0 <= i < actions.len() ==> rank((#[trigger] actions[i]).condition) <= upto
    &&& forall|i: int|
        0 <= i < actions.len() && !((#[trigger] actions[i]).condition is Fixed)
            && !(actions[i].condition is Buff) ==> {
            &&& asked_for(actions[i].condition, args)
            &&& actions[i] == right_action(actions[i].condition, args)
        }
    &&& forall|condition: Condition|
        !(condition is Fixed) && !(condition is Buff) && rank(condition) <= upto && asked_for(
            condition,
            args,
        ) ==> actions.contains(#[trigger] right_action(condition, args))
}

proof fn right_one_more(
    before: Seq<PriorityAction>,
    after: Seq<PriorityAction>,
    args: RotatorBuildArgs,
    condition: Condition,
    enabled: bool,
    upto: int,
)
    requires
        right_upto(before, args, upto - 1),
        rank(condition) == upto,
        !(condition is Fixed),
        !(condition is Buff),
        enabled == asked_for(condition, args),
        forall|other: Condition|
            #![trigger asked_for(other, args)]
            rank(other) == upto && asked_for(other, args) ==> other == condition,
        after == if enabled {
            before.push(right_action(condition, args))
        } else {
            before
        },
    ensures
        right_upto(after, args, upto),
{
    reveal(right_upto);
    assert forall|other: Condition|
        !(other is Fixed) && !(other is Buff) && rank(other) <= upto && asked_for(
            other,
            args,
        ) implies after.contains(#[trigger] right_action(other, args)) by {
        if rank(other) == upto {
            assert(other == condition);
            assert(after[before.len() as int] == right_action(condition, args));
        } else {
            let i = before.index_of(right_action(other, args));
            assert(before.contains(right_action(other, args)));
            assert(after[i] == before[i]);
        }
    }
    if enabled {
        assert forall|i: int| 0 <= i < after.len() implies {
            &&& rank((#[trigger] after[i]).condition) <= upto
            &&& !(after[i].condition is Fixed) && !(after[i].condition is Buff) ==> {
                &&& asked_for(after[i].condition, args)
                &&& after[i] == right_action(after[i].condition, args)
            }
        } by {
            if i < before.len() {
                assert(after[i] == before[i]);
            }
        }
        assert forall|i: int, j: int| 0 <= i < j < after.len() implies {
            let first = rank((#[trigger] after[i]).condition);
            let second = rank((#[trigger] after[j]).condition);
            first < second || first == second && (first == 4 || first == 11)
        } by {
            assert(after[i] == before[i]);
            if j < before.len() {
                assert(after[j] == before[j]);
            }
        }
    }
}

/// Lists of actions of the same rank after others that come before.
proof fn right_some_more(
    before: Seq<PriorityAction>,
    after: Seq<PriorityAction>,
    args: RotatorBuildArgs,
    upto: int,
)
    requires
        right_upto(before, args, upto - 1),
        upto == 4 || upto == 11,
        before.len() <= after.len(),
        after.take(before.len() as int) == before,
        forall|i: int|
            before.len() <= i < after.len() ==> rank((#[trigger] after[i]).condition) == upto,
    ensures
        right_upto(after, args, upto),
{
    reveal(right_upto);
    assert forall|i: int| 0 <= i < before.len() implies #[trigger] after[i] == before[i] by {
        assert(after.take(before.len() as int)[i] == after[i]);
    }
    assert forall|other: Condition|
        !(other is Fixed) && !(other is Buff) && rank(other) <= upto && asked_for(
            other,
            args,
        ) implies after.contains(#[trigger] right_action(other, args)) by {
        assert(before.contains(right_action(other, args)));
        let i = before.index_of(right_action(other, args));
        assert(after[i] == before[i]);
    }
}

/// Whether `action` is what is made of the configured action at `index`: it waits for that
/// action's condition, goes to the front only if that action asks for it, is held back by daily
/// quests, and performs that action and the ones linked to it.
pub open spec fn made_of(
    action: PriorityAction,
    actions: Seq<Action>,
    index: int,
    ms_per_tick: u64,
) -> bool {
    &&& action.condition == Condition::Fixed(actions[index].spec_condition())
    &&& action.condition_kind == Some(actions[index].spec_condition())
    &&& action.inner == rotated(actions, index, ms_per_tick)
    &&& action.metadata is None
    &&& action.queue_to_front <==> (actions[index] matches Action::Key(key) && key.queue_to_front
        == Some(true))
    &&& action.suppress_during_daily_quest
    &&& action.queue_info == PriorityActionQueueInfo { ignoring: false, last_queued_time: None }
}

/// Whether a configured action takes precedence in a mode.
pub open spec fn takes_precedence(action: Action, mode: RotatorMode) -> bool {
    ||| action.spec_condition() is EveryMillis
    ||| action.spec_condition() is ErdaShowerOffCooldown && !(mode is MonsterPark)
}

/// Whether a configured action is rotated in a mode.
pub open spec fn is_rotated(action: Action, mode: RotatorMode) -> bool {
    action.spec_condition() is Any && !(mode is AutoMobbing)
}

/// The positions, from `from` on, of the configured actions that take precedence in a mode, or of
/// those that are rotated.
pub open spec fn places_of(
    actions: Seq<Action>,
    from: int,
    mode: RotatorMode,
    precedence: bool,
) -> Seq<int>
    decreases actions.len() - from,
{
    if 0 <= from < actions.len() {
        let rest = places_of(actions, from + 1, mode, precedence);
        if precedence && takes_precedence(actions[from], mode) || !precedence && is_rotated(
            actions[from],
            mode,
        ) {
            seq![from] + rest
        } else {
            rest
        }
    } else {
        seq![]
    }
}

proof fn places_skip_linked_actions(
    actions: Seq<Action>,
    from: int,
    mode: RotatorMode,
    precedence: bool,
)
    requires
        0 <= from <= actions.len(),
    ensures
        places_of(actions, from, mode, precedence) == places_of(
            actions,
            from + linked_run(actions, from),
            mode,
            precedence,
        ),
    decreases actions.len() - from,
{
    if linked_run(actions, from) > 0 {
        places_skip_linked_actions(actions, from + 1, mode, precedence);
    }
}

/// The actions put together once the configured one at `index` is.
spec fn step_of(
    before: Built,
    actions: Seq<Action>,
    index: int,
    mode: RotatorMode,
    ms_per_tick: u64,
) -> Built {
    let action = rotated(actions, index, ms_per_tick);
    let condition = actions[index].spec_condition();
    let priority = fixed(action, condition, actions[index].spec_queues_to_front());
    if takes_precedence(actions[index], mode) {
        before.with(Slot::Priority(priority))
    } else if is_rotated(actions[index], mode) {
        before.with(Slot::Normal(action))
    } else {
        before
    }
}

proof fn less_room(built: Built, left: int, less: int)
    requires
        has_room(built, left),
        0 <= less <= left,
    ensures
        has_room(built, less),
{
    reveal(has_room);
}

proof fn configured_actions_are_listed(
    before: Built,
    actions: Seq<Action>,
    index: int,
    mode: RotatorMode,
    ms_per_tick: u64,
    left: int,
)
    requires
        0 <= index <= actions.len(),
        has_room(before, left + (actions.len() - index)),
        left >= 0,
    ensures
        ({
            let after = before.with_actions(actions, index, mode, ms_per_tick);
            let count = listed(before).len() as int;
            let places = places_of(actions, index, mode, true);
            let normal = before.normal.len() as int;
            let turns = places_of(actions, index, mode, false);
            &&& has_room(after, left)
            &&& listed(after).len() == count + places.len()
            &&& listed(after).take(count) == listed(before)
            &&& forall|i: int|
                0 <= i < places.len() ==> made_of(
                    listed(after)[count + i],
                    actions,
                    #[trigger] places[i],
                    ms_per_tick,
                )
            &&& after.normal.len() == normal + turns.len()
            &&& after.normal.take(normal) == before.normal
            &&& forall|i: int|
                0 <= i < turns.len() ==> after.normal[normal + i].1 == rotated(
                    actions,
                    #[trigger] turns[i],
                    ms_per_tick,
                )
        }),
    decreases actions.len() - index,
{
    let after = before.with_actions(actions, index, mode, ms_per_tick);
    let count = listed(before).len() as int;
    let places = places_of(actions, index, mode, true);
    let normal = before.normal.len() as int;
    let turns = places_of(actions, index, mode, false);
    if index < actions.len() {
        linked_run_is_bounded(actions, index + 1);
        places_skip_linked_actions(actions, index + 1, mode, true);
        places_skip_linked_actions(actions, index + 1, mode, false);
        let end = index + 1 + linked_run(actions, index + 1) as int;
        let room = left + (actions.len() - index);
        let next = step_of(before, actions, index, mode, ms_per_tick);
        let action = rotated(actions, index, ms_per_tick);
        let priority = fixed(
            action,
            actions[index].spec_condition(),
            actions[index].spec_queues_to_front(),
        );
        assert(made_of(priority, actions, index, ms_per_tick));
        adding_lists_last(before, priority, room);
        adding_in_rotation_lists_nothing(before, action, room);
        if !takes_precedence(actions[index], mode) && !is_rotated(actions[index], mode) {
            less_room(before, room, room - 1);
        }
        assert(has_room(next, room - 1));
        less_room(next, room - 1, left + (actions.len() - end));
        configured_actions_are_listed(next, actions, end, mode, ms_per_tick, left);
        assert(after == next.with_actions(actions, end, mode, ms_per_tick));
        let next_count = listed(next).len() as int;
        let next_places = places_of(actions, end, mode, true);
        assert forall|i: int| 0 <= i < next_count implies #[trigger] listed(after)[i] == listed(
            next,
        )[i] by {
            assert(listed(after).take(next_count)[i] == listed(after)[i]);
        }
        assert(listed(after).take(count) =~= listed(before));
        assert forall|i: int| 0 <= i < places.len() implies made_of(
            listed(after)[count + i],
            actions,
            #[trigger] places[i],
            ms_per_tick,
        ) by {
            if next_count > count {
                if i > 0 {
                    assert(places[i] == next_places[i - 1]);
                    assert(count + i == next_count + (i - 1));
                }
            } else {
                assert(places[i] == next_places[i]);
            }
        }
        let next_normal = next.normal.len() as int;
        let next_turns = places_of(actions, end, mode, false);
        assert forall|i: int| 0 <= i < next_normal implies #[trigger] after.normal[i]
            == next.normal[i] by {
            assert(after.normal.take(next_normal)[i] == after.normal[i]);
        }
        assert(after.normal.take(normal) =~= before.normal);
        assert forall|i: int| 0 <= i < turns.len() implies after.normal[normal + i].1 == rotated(
            actions,
            #[trigger] turns[i],
            ms_per_tick,
        ) by {
            if next_normal > normal {
                if i > 0 {
                    assert(turns[i] == next_turns[i - 1]);
                    assert(normal + i == next_normal + (i - 1));
                }
            } else {
                assert(turns[i] == next_turns[i]);
            }
        }
    } else {
        assert(listed(after).take(count) == listed(before));
        assert(after.normal.take(normal) == before.normal);
    }
}

/// The action that keeps up a buff.
pub open spec fn upkeep(buff: BuffKind, key: KeyKind) -> PriorityAction {
    urgent(
        Condition::Buff(buff),
        PlayerAction::Key(single_press(key, ActionKeyWith::Stationary, 10, 10)),
        Some(ActionMetadata::Buff { kind: buff }),
        true,
    )
}

proof fn buffs_are_listed(
    before: Built,
    buffs: Seq<(BuffKind, KeyKind)>,
    added: nat,
    left: int,
)
    requires
        added <= buffs.len(),
        has_room(before, left + added),
        left >= 0,
    ensures
        ({
            let after = before.with_buffs(buffs, added);
            let count = listed(before).len() as int;
            &&& has_room(after, left)
            &&& listed(after).len() == count + added
            &&& listed(after).take(count) == listed(before)
            &&& forall|i: int|
                0 <= i < added ==> listed(after)[count + i] == upkeep(
                    (#[trigger] buffs[i]).0,
                    buffs[i].1,
                )
            &&& after.normal == before.normal
        }),
    decreases added,
{
    let after = before.with_buffs(buffs, added);
    let count = listed(before).len() as int;
    if added > 0 {
        buffs_are_listed(before, buffs, (added - 1) as nat, left + 1);
        let shorter = before.with_buffs(buffs, (added - 1) as nat);
        let (buff, key) = buffs[added - 1];
        adding_lists_last(shorter, upkeep(buff, key), left + 1);
        assert(after == shorter.with(Slot::Priority(upkeep(buff, key))));
        assert(listed(after).take(count) =~= listed(shorter).take(count));
    } else {
        assert(listed(after).take(count) == listed(before));
    }
}

/// What is put together before, with and after the configured actions.
struct Stages {
    low: Built,
    middle: Built,
    assists: Built,
    buffed: Built,
    all: Built,
}

spec fn stages(args: RotatorBuildArgs, ms_per_tick: u64, next_id: u32) -> Stages {
    let low = Built::nothing(next_id).with_low(args);
    let middle = low.with_actions(configured_actions(args), 0, args.mode, ms_per_tick);
    let elite = middle.with_if(
        args.enable_rune_solving,
        right_action(Condition::SolveRune, args),
    ).with_if(
        args.enable_transparent_shape_solving,
        right_action(Condition::SolveShape, args),
    ).with_if(
        args.enable_violetta_solving,
        right_action(Condition::SolveVioletta, args),
    ).with_if(
        !(args.elite_boss_behavior is Nothing),
        right_action(Condition::EliteBoss, args),
    );
    let assists = elite.with_if(
        args.enable_panic_mode,
        right_action(Condition::Panic, args),
    ).with_if(
        asked_for(Condition::FamiliarEssence, args),
        right_action(Condition::FamiliarEssence, args),
    );
    let buffed = if args.mode is MonsterPark {
        assists
    } else {
        assists.with_buffs(args.buffs@, args.buffs@.len())
    };
    Stages {
        low,
        middle,
        assists,
        buffed,
        all: buffed.with(Slot::Priority(right_action(Condition::Unstuck, args))),
    }
}

proof fn building_goes_by_stages(args: RotatorBuildArgs, ms_per_tick: u64, next_id: u32)
    ensures
        built(args, ms_per_tick, next_id) == stages(args, ms_per_tick, next_id).all,
{
    assert(asked_for(Condition::FamiliarEssence, args) == keeps_familiars(args.buffs@));
}

proof fn one_more_is_right(
    before: Built,
    args: RotatorBuildArgs,
    condition: Condition,
    enabled: bool,
    upto: int,
    left: int,
)
    requires
        right_upto(listed(before), args, upto - 1),
        rank(condition) == upto,
        !(condition is Fixed),
        !(condition is Buff),
        enabled == asked_for(condition, args),
        forall|other: Condition|
            #![trigger asked_for(other, args)]
            rank(other) == upto && asked_for(other, args) ==> other == condition,
        has_room(before, left),
        left > 0,
    ensures
        ({
            let after = before.with_if(enabled, right_action(condition, args));
            &&& right_upto(listed(after), args, upto)
            &&& has_room(after, left - 1)
            &&& after.normal == before.normal
        }),
{
    let after = before.with_if(enabled, right_action(condition, args));
    adding_if_enabled_lists_last(before, enabled, right_action(condition, args), left);
    right_one_more(listed(before), listed(after), args, condition, enabled, upto);
}

proof fn low_actions_are_right(args: RotatorBuildArgs, next_id: u32, left: int)
    requires
        next_id + 4 + left <= u32::MAX,
        left >= 0,
    ensures
        ({
            let low = Built::nothing(next_id).with_low(args);
            &&& right_upto(listed(low), args, 3)
            &&& has_room(low, left)
            &&& low.normal.len() == 0
        }),
{
    let park = args.mode is MonsterPark;
    let exchange = Condition::ExchangeHexaBooster(args.hexa_booster_exchange_condition);
    let swap = Condition::FamiliarsSwap(args.familiars.swap_check_millis);
    let generic = Condition::UseBooster(Booster::Generic);
    let hexa = Condition::UseBooster(Booster::Hexa);
    let nothing = Built::nothing(next_id);
    assert(has_room(nothing, left + 4)) by {
        reveal(has_room);
    }
    assert(right_upto(listed(nothing), args, -1)) by {
        reveal(right_upto);
        assert(listed(nothing).len() == 0);
    }
    one_more_is_right(
        nothing,
        args,
        generic,
        args.enable_using_generic_booster && !park,
        0,
        left + 4,
    );
    let one = nothing.with_if(
        args.enable_using_generic_booster && !park,
        right_action(generic, args),
    );
    one_more_is_right(one, args, hexa, args.enable_using_hexa_booster && !park, 1, left + 3);
    let two = one.with_if(args.enable_using_hexa_booster && !park, right_action(hexa, args));
    let exchanges = args.hexa_booster_exchange_condition !is Never;
    one_more_is_right(two, args, exchange, exchanges, 2, left + 2);
    let three = two.with_if(exchanges, right_action(exchange, args));
    one_more_is_right(
        three,
        args,
        swap,
        args.familiars.enable_familiars_swapping,
        3,
        left + 1,
    );
    assert(nothing.with_low(args) == three.with_if(
        args.familiars.enable_familiars_swapping,
        right_action(swap, args),
    ));
}

proof fn assists_are_right(args: RotatorBuildArgs, ms_per_tick: u64, next_id: u32, left: int)
    requires
        right_upto(listed(stages(args, ms_per_tick, next_id).middle), args, 4),
        has_room(stages(args, ms_per_tick, next_id).middle, left + 6),
        left >= 0,
    ensures
        ({
            let stages = stages(args, ms_per_tick, next_id);
            &&& right_upto(listed(stages.assists), args, 10)
            &&& has_room(stages.assists, left)
            &&& stages.assists.normal == stages.middle.normal
        }),
{
    let middle = stages(args, ms_per_tick, next_id).middle;
    one_more_is_right(
        middle,
        args,
        Condition::SolveRune,
        args.enable_rune_solving,
        5,
        left + 6,
    );
    let rune = middle.with_if(args.enable_rune_solving, right_action(Condition::SolveRune, args));
    one_more_is_right(
        rune,
        args,
        Condition::SolveShape,
        args.enable_transparent_shape_solving,
        6,
        left + 5,
    );
    let shape = rune.with_if(
        args.enable_transparent_shape_solving,
        right_action(Condition::SolveShape, args),
    );
    one_more_is_right(
        shape,
        args,
        Condition::SolveVioletta,
        args.enable_violetta_solving,
        7,
        left + 4,
    );
    let violetta = shape.with_if(
        args.enable_violetta_solving,
        right_action(Condition::SolveVioletta, args),
    );
    let responds = !(args.elite_boss_behavior is Nothing);
    one_more_is_right(violetta, args, Condition::EliteBoss, responds, 8, left + 3);
    let elite = violetta.with_if(responds, right_action(Condition::EliteBoss, args));
    one_more_is_right(elite, args, Condition::Panic, args.enable_panic_mode, 9, left + 2);
    let panic = elite.with_if(args.enable_panic_mode, right_action(Condition::Panic, args));
    one_more_is_right(
        panic,
        args,
        Condition::FamiliarEssence,
        asked_for(Condition::FamiliarEssence, args),
        10,
        left + 1,
    );
}

/// Where the actions made of the configured ones are listed, and those that keep up buffs.
spec fn listing(args: RotatorBuildArgs, ms_per_tick: u64, next_id: u32) -> (int, int) {
    let stages = stages(args, ms_per_tick, next_id);
    (listed(stages.low).len() as int, listed(stages.assists).len() as int)
}

proof fn listing_is_right(args: RotatorBuildArgs, ms_per_tick: u64, next_id: u32)
    requires
        numbers_suffice(args, next_id),
    ensures
        ({
            let all = built(args, ms_per_tick, next_id);
            let actions = configured_actions(args);
            let (first, buffs) = listing(args, ms_per_tick, next_id);
            let places = places_of(actions, 0, args.mode, true);
            let turns = places_of(actions, 0, args.mode, false);
            &&& right_upto(listed(all), args, 12)
            &&& 0 <= first
            &&& first + places.len() <= buffs
            &&& forall|i: int|
                0 <= i < places.len() ==> made_of(
                    listed(all)[first + i],
                    actions,
                    #[trigger] places[i],
                    ms_per_tick,
                )
            &&& forall|i: int|
                0 <= i < listed(all).len() && (#[trigger] listed(all)[i]).condition is Fixed
                    ==> first <= i < first + places.len()
            &&& listed(all).len() == buffs + 1 + if args.mode is MonsterPark {
                0
            } else {
                args.buffs@.len() as int
            }
            &&& !(args.mode is MonsterPark) ==> forall|i: int|
                0 <= i < args.buffs@.len() ==> listed(all)[buffs + i] == upkeep(
                    (#[trigger] args.buffs@[i]).0,
                    args.buffs@[i].1,
                )
            &&& forall|i: int|
                0 <= i < listed(all).len() && (#[trigger] listed(all)[i]).condition is Buff
                    ==> buffs <= i < listed(all).len() - 1
            &&& all.normal.len() == turns.len()
            &&& forall|i: int|
                0 <= i < turns.len() ==> (#[trigger] all.normal[i]).1 == rotated(
                    actions,
                    turns[i],
                    ms_per_tick,
                )
        }),
{
    let actions = configured_actions(args);
    let stages = stages(args, ms_per_tick, next_id);
    let buffs = args.buffs@;
    let (first, kept) = listing(args, ms_per_tick, next_id);
    let places = places_of(actions, 0, args.mode, true);
    let turns = places_of(actions, 0, args.mode, false);
    let rest = buffs.len() as int + 1;
    building_goes_by_stages(args, ms_per_tick, next_id);
    low_actions_are_right(args, next_id, rest + 6 + actions.len());
    configured_actions_are_listed(stages.low, actions, 0, args.mode, ms_per_tick, rest + 6);
    assert forall|i: int| first <= i < listed(stages.middle).len() implies rank(
        (#[trigger] listed(stages.middle)[i]).condition,
    ) == 4 by {
        let k = places[i - first];
        assert(made_of(listed(stages.middle)[first + (i - first)], actions, k, ms_per_tick));
    }
    right_some_more(listed(stages.low), listed(stages.middle), args, 4);
    assists_are_right(args, ms_per_tick, next_id, rest);
    if args.mode is MonsterPark {
        assert(listed(stages.buffed).take(kept) == listed(stages.assists));
        less_room(stages.assists, rest, 1);
    } else {
        buffs_are_listed(stages.assists, buffs, buffs.len(), 1);
    }
    assert forall|i: int| kept <= i < listed(stages.buffed).len() implies rank(
        (#[trigger] listed(stages.buffed)[i]).condition,
    ) == 11 by {
        let k = i - kept;
        assert(listed(stages.buffed)[kept + k] == upkeep(buffs[k].0, buffs[k].1));
    }
    right_some_more(listed(stages.assists), listed(stages.buffed), args, 11);
    one_more_is_right(stages.buffed, args, Condition::Unstuck, true, 12, 1);
    assert(stages.buffed.with_if(true, right_action(Condition::Unstuck, args)) == stages.all);
    adding_lists_last(stages.buffed, right_action(Condition::Unstuck, args), 1);
    later_stages_keep_places(args, ms_per_tick, next_id, rest);
    let all = stages.all;
    assert forall|i: int| 0 <= i < kept implies #[trigger] listed(all)[i] == listed(
        stages.assists,
    )[i] by {
        assert(listed(stages.buffed).take(kept)[i] == listed(stages.buffed)[i]);
    }
    let middle = listed(stages.middle).len() as int;
    assert forall|i: int| 0 <= i < middle implies #[trigger] listed(all)[i] == listed(
        stages.middle,
    )[i] by {
        assert(listed(stages.assists).take(middle)[i] == listed(stages.assists)[i]);
    }
    reveal(right_upto);
    assert forall|i: int|
        0 <= i < listed(all).len() && (#[trigger] listed(all)[i]).condition is Fixed implies first
        <= i < first + places.len() by {
        if i < first {
            assert(listed(stages.middle).take(first)[i] == listed(stages.middle)[i]);
            assert(rank(listed(stages.low)[i].condition) <= 3);
        } else if i >= kept {
            if i < listed(stages.buffed).len() {
                assert(rank(listed(stages.buffed)[i].condition) == 11);
            }
        }
    }
    assert forall|i: int|
        0 <= i < listed(all).len() && (#[trigger] listed(all)[i]).condition is Buff implies kept
        <= i < listed(all).len() - 1 by {
        if i < kept {
            assert(rank(listed(stages.assists)[i].condition) <= 10);
        }
    }
}

/// The actions that come between the configured ones and the buffs are none of these.
proof fn later_stages_keep_places(
    args: RotatorBuildArgs,
    ms_per_tick: u64,
    next_id: u32,
    left: int,
)
    requires
        has_room(stages(args, ms_per_tick, next_id).middle, left + 6),
        left >= 0,
    ensures
        ({
            let stages = stages(args, ms_per_tick, next_id);
            let count = listed(stages.middle).len() as int;
            &&& count <= listed(stages.assists).len()
            &&& listed(stages.assists).take(count) == listed(stages.middle)
            &&& forall|i: int|
                count <= i < listed(stages.assists).len() ==> !((#[trigger] listed(
                    stages.assists,
                )[i]).condition is Fixed)
            &&& stages.assists.normal == stages.middle.normal
        }),
{
    let middle = stages(args, ms_per_tick, next_id).middle;
    let responds = !(args.elite_boss_behavior is Nothing);
    let rune = middle.with_if(args.enable_rune_solving, right_action(Condition::SolveRune, args));
    let shape = rune.with_if(
        args.enable_transparent_shape_solving,
        right_action(Condition::SolveShape, args),
    );
    let violetta = shape.with_if(
        args.enable_violetta_solving,
        right_action(Condition::SolveVioletta, args),
    );
    let elite = violetta.with_if(responds, right_action(Condition::EliteBoss, args));
    let panic = elite.with_if(args.enable_panic_mode, right_action(Condition::Panic, args));
    let essence = right_action(Condition::FamiliarEssence, args);
    let keeps = asked_for(Condition::FamiliarEssence, args);
    adding_if_enabled_lists_last(
        middle,
        args.enable_rune_solving,
        right_action(Condition::SolveRune, args),
        left + 6,
    );
    adding_if_enabled_lists_last(
        rune,
        args.enable_transparent_shape_solving,
        right_action(Condition::SolveShape, args),
        left + 5,
    );
    adding_if_enabled_lists_last(
        shape,
        args.enable_violetta_solving,
        right_action(Condition::SolveVioletta, args),
        left + 4,
    );
    adding_if_enabled_lists_last(
        violetta,
        responds,
        right_action(Condition::EliteBoss, args),
        left + 3,
    );
    adding_if_enabled_lists_last(
        elite,
        args.enable_panic_mode,
        right_action(Condition::Panic, args),
        left + 2,
    );
    adding_if_enabled_lists_last(panic, keeps, essence, left + 1);
    let assists = stages(args, ms_per_tick, next_id).assists;
    assert(assists == panic.with_if(keeps, essence));
    let count = listed(middle).len() as int;
    assert(listed(assists).take(count) =~= listed(middle));
}

/// Apart from configured actions and buffs, the actions that are put together are exactly those
/// that the configuration asks for: a booster of a kind if that kind is enabled, and not in Monster
/// Park; the exchange for boosters at the configured amount; swapping familiars at the configured
/// interval; solving runes, shapes and Violetta as enabled; the configured response to elite
/// bosses; panicking as enabled; refilling essence if familiars are among the buffs; and getting
/// unstuck always. Each of them is the right one for its condition.
pub proof fn actions_are_as_asked_for(
    args: RotatorBuildArgs,
    ms_per_tick: u64,
    next_id: u32,
    action: PriorityAction,
)
    requires
        numbers_suffice(args, next_id),
        !(action.condition is Fixed),
        !(action.condition is Buff),
    ensures
        listed(built(args, ms_per_tick, next_id)).contains(action) <==> asked_for(
            action.condition,
            args,
        ) && action == right_action(action.condition, args),
{
    listing_is_right(args, ms_per_tick, next_id);
    reveal(right_upto);
    let actions = listed(built(args, ms_per_tick, next_id));
    assert(rank(action.condition) <= 12);
    assert(right_action(action.condition, args).condition == action.condition);
    if actions.contains(action) {
        let i = actions.index_of(action);
        assert(actions[i] == action);
    }
}

/// Outside of Monster Park, using a booster of a kind is among the actions exactly if that kind is
/// enabled, whatever is configured for the other kind. In Monster Park it never is.
pub proof fn boosters_are_enabled_one_by_one(
    args: RotatorBuildArgs,
    ms_per_tick: u64,
    next_id: u32,
    kind: Booster,
)
    requires
        numbers_suffice(args, next_id),
    ensures
        ({
            let actions = listed(built(args, ms_per_tick, next_id));
            let enabled = match kind {
                Booster::Generic => args.enable_using_generic_booster,
                Booster::Hexa => args.enable_using_hexa_booster,
            };
            (exists|i: int|
                {
                    &&& 0 <= i < actions.len()
                    &&& (#[trigger] actions[i]).condition == Condition::UseBooster(kind)
                    &&& actions[i].inner == RotatorAction::Single(
                        PlayerAction::UseBooster(UseBooster { kind }),
                    )
                }) <==> enabled && !(args.mode is MonsterPark)
        }),
{
    let actions = listed(built(args, ms_per_tick, next_id));
    let right = right_action(Condition::UseBooster(kind), args);
    actions_are_as_asked_for(args, ms_per_tick, next_id, right);
    if asked_for(Condition::UseBooster(kind), args) {
        let i = actions.index_of(right);
        assert(actions[i] == right);
    }
    if exists|i: int|
        0 <= i < actions.len() && (#[trigger] actions[i]).condition == Condition::UseBooster(kind) {
        let i = choose|i: int|
            0 <= i < actions.len() && (#[trigger] actions[i]).condition == Condition::UseBooster(
                kind,
            );
        assert(actions.contains(actions[i]));
        actions_are_as_asked_for(args, ms_per_tick, next_id, actions[i]);
    }
}

/// The actions are gone through by rank, and no action but those made of configured ones and those
/// that keep up buffs shares its rank with another one.
pub proof fn actions_are_listed_by_rank(args: RotatorBuildArgs, ms_per_tick: u64, next_id: u32)
    requires
        numbers_suffice(args, next_id),
    ensures
        ranked(listed(built(args, ms_per_tick, next_id))),
{
    listing_is_right(args, ms_per_tick, next_id);
    reveal(right_upto);
}

/// Whether the actions from `first` on are made of the configured ones at the given places, one
/// for each of them, and no other action is made of a configured one.
pub open spec fn made_from(
    actions: Seq<PriorityAction>,
    first: int,
    configured: Seq<Action>,
    places: Seq<int>,
    ms_per_tick: u64,
) -> bool {
    &&& 0 <= first
    &&& first + places.len() <= actions.len()
    &&& forall|i: int|
        0 <= i < places.len() ==> made_of(
            actions[first + i],
            configured,
            #[trigger] places[i],
            ms_per_tick,
        )
    &&& forall|i: int|
        0 <= i < actions.len() && (#[trigger] actions[i]).condition is Fixed ==> first <= i < first
            + places.len()
}

/// Every configured action that waits for its time, or for the Erda Shower skill outside of
/// Monster Park, takes precedence, in the configured order, and no other one does.
pub proof fn timed_actions_take_precedence(args: RotatorBuildArgs, ms_per_tick: u64, next_id: u32)
    requires
        numbers_suffice(args, next_id),
    ensures
        exists|first: int| #[trigger]
            made_from(
                listed(built(args, ms_per_tick, next_id)),
                first,
                configured_actions(args),
                places_of(configured_actions(args), 0, args.mode, true),
                ms_per_tick,
            ),
{
    listing_is_right(args, ms_per_tick, next_id);
    let (first, _) = listing(args, ms_per_tick, next_id);
    assert(made_from(
        listed(built(args, ms_per_tick, next_id)),
        first,
        configured_actions(args),
        places_of(configured_actions(args), 0, args.mode, true),
        ms_per_tick,
    ));
}

/// Every configured action without a condition is rotated, in the configured order, unless the
/// mode is mobbing, and no other one is.
pub proof fn other_actions_are_rotated(args: RotatorBuildArgs, ms_per_tick: u64, next_id: u32)
    requires
        numbers_suffice(args, next_id),
    ensures
        ({
            let normal = built(args, ms_per_tick, next_id).normal;
            let configured = configured_actions(args);
            let turns = places_of(configured, 0, args.mode, false);
            &&& normal.len() == turns.len()
            &&& forall|i: int|
                0 <= i < turns.len() ==> (#[trigger] normal[i]).1 == rotated(
                    configured,
                    turns[i],
                    ms_per_tick,
                )
        }),
{
    listing_is_right(args, ms_per_tick, next_id);
}

/// Outside of Monster Park, every buff is kept up with its key, in the configured order. In Monster
/// Park none is. Nothing but buffs is kept up.
pub proof fn configured_buffs_are_kept_up(args: RotatorBuildArgs, ms_per_tick: u64, next_id: u32)
    requires
        numbers_suffice(args, next_id),
    ensures
        ({
            let actions = listed(built(args, ms_per_tick, next_id));
            let buffs = args.buffs@;
            let kept = if args.mode is MonsterPark {
                0
            } else {
                buffs.len() as int
            };
            let first = actions.len() - 1 - kept;
            &&& 0 <= first
            &&& forall|i: int|
                0 <= i < kept ==> actions[first + i] == upkeep((#[trigger] buffs[i]).0, buffs[i].1)
            &&& forall|i: int|
                0 <= i < actions.len() && (#[trigger] actions[i]).condition is Buff ==> first <= i
                    < first + kept
        }),
{
    listing_is_right(args, ms_per_tick, next_id);
}

proof fn row_holds_its_actions(
    actions: Seq<Action>,
    index: int,
    count: nat,
    ms_per_tick: u64,
)
    ensures
        ({
            let row = linked_row(row_from(actions, index, count, ms_per_tick));
            &&& row.len() == count + 1
            &&& forall|i: int|
                0 <= i <= count ==> #[trigger] row[i] == actions[index + i].spec_player_action(
                    ms_per_tick,
                )@
        }),
    decreases count,
{
    if count > 0 {
        row_holds_its_actions(actions, index + 1, (count - 1) as nat, ms_per_tick);
        let row = linked_row(row_from(actions, index, count, ms_per_tick));
        let rest = linked_row(row_from(actions, index + 1, (count - 1) as nat, ms_per_tick));
        assert forall|i: int| 0 <= i <= count implies #[trigger] row[i] == actions[index
            + i].spec_player_action(ms_per_tick)@ by {
            if i > 0 {
                assert(row[i] == rest[i - 1]);
                assert(rest[i - 1] == actions[(index + 1) + (i - 1)].spec_player_action(
                    ms_per_tick,
                )@);
            }
        }
    }
}

/// Whether all actions from `from` up to `to`, exclusive, are linked to the one before them.
pub open spec fn all_linked(actions: Seq<Action>, from: int, to: int) -> bool {
    forall|i: int| from <= i < to ==> (#[trigger] actions[i]).spec_condition() is Linked
}

proof fn linked_runs_are_linked(actions: Seq<Action>, index: int)
    requires
        0 <= index <= actions.len(),
    ensures
        all_linked(actions, index, index + linked_run(actions, index)),
    decreases actions.len() - index,
{
    if linked_run(actions, index) > 0 {
        linked_runs_are_linked(actions, index + 1);
    }
}

/// What an action does for the player: itself and then all actions linked to it, in order and up
/// to the first one that is not linked. Without linked actions it stands alone.
pub proof fn rows_are_performed_in_order(actions: Seq<Action>, index: int, ms_per_tick: u64)
    requires
        0 <= index < actions.len(),
    ensures
        ({
            let alone = index + 1 == actions.len() || !(actions[index + 1].spec_condition()
                is Linked);
            match rotated(actions, index, ms_per_tick) {
                RotatorAction::Single(action) => alone && action
                    == actions[index].spec_player_action(ms_per_tick),
                RotatorAction::Linked(linked) => {
                    let row = linked_row(linked);
                    let end = index + row.len();
                    &&& !alone
                    &&& row.len() >= 2
                    &&& end <= actions.len()
                    &&& all_linked(actions, index + 1, end as int)
                    &&& end < actions.len() ==> !(actions[end as int].spec_condition() is Linked)
                    &&& forall|i: int|
                        0 <= i < row.len() ==> #[trigger] row[i] == actions[index
                            + i].spec_player_action(ms_per_tick)@
                },
            }
        }),
{
    linked_run_is_bounded(actions, index + 1);
    linked_runs_are_linked(actions, index + 1);
    row_holds_its_actions(actions, index, linked_run(actions, index + 1), ms_per_tick);
}

/// What a configured action asks of the player: to move to its position and then wait for as many
/// whole ticks as fit its wait, or to use its key. It waits for its own condition.
pub proof fn configured_actions_are_performed_as_configured(action: Action, ms_per_tick: u64)
    requires
        ms_per_tick > 0,
    ensures
        match action {
            Action::Move(target) => {
                &&& action.spec_condition() == target.condition
                &&& action.spec_player_action(ms_per_tick) matches PlayerAction::Move(moves)
                &&& moves.position == target.position
                &&& target.wait_after_move_millis / ms_per_tick <= u32::MAX ==> {
                    &&& moves.wait_after_move_ticks * ms_per_tick <= target.wait_after_move_millis
                    &&& target.wait_after_move_millis < (moves.wait_after_move_ticks + 1)
                        * ms_per_tick
                }
            },
            Action::Key(key) => {
                &&& action.spec_condition() == key.condition
                &&& action.spec_player_action(ms_per_tick) == PlayerAction::Key(key.key)
            },
        },
{
    if let Action::Move(target) = action {
        let millis = target.wait_after_move_millis as int;
        let tick = ms_per_tick as int;
        assert((millis / tick) * tick <= millis < (millis / tick + 1) * tick) by (nonlinear_arith)
            requires
                tick > 0,
                millis >= 0,
        ;
    }
}

} // verus!
