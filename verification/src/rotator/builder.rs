//! Putting together the actions to be rotated.

use vstd::prelude::*;

use super::action::{
    is_linked, linked_run, linked_run_is_bounded, rotated, rotator_action, RotatorAction,
};
use super::condition::Condition;
use super::map::{contents, insert_action, key_order, new_map, no_actions, order_with, ActionMap};
use super::priority::{ActionMetadata, PriorityAction};
use super::standing::{
    buff_priority_action, change_channel, elite_boss_change_channel_priority_action,
    elite_boss_use_key_priority_action, exchange_hexa_booster_priority_action,
    familiar_essence_replenish_priority_action, familiars_swap_priority_action, fixed, key_press,
    panic_priority_action, priority_action, solve_rune_priority_action,
    solve_transparent_shape_priority_action, solve_violetta_priority_action, standing,
    unstuck_priority_action, use_booster_priority_action,
};
use super::{RotatorBuildArgs, RotatorMode};
use crate::ecs::BuffKind;
use crate::models::{
    Action, ActionCondition, ActionKeyWith, EliteBossBehavior, ExchangeHexaBoosterCondition,
    KeyKind,
};
use crate::player::actions::{
    Booster, ExchangeBooster, FamiliarsSwap, PlayerAction, UseBooster,
};

verus! {

/// An action to be rotated, not numbered yet.
pub enum Slot {
    /// To take precedence.
    Priority(PriorityAction),
    /// To be rotated in order.
    Normal(RotatorAction),
}

/// The actions put together so far.
pub struct Built {
    pub contents: Map<u32, PriorityAction>,
    pub order: Seq<u32>,
    pub normal: Seq<(u32, RotatorAction)>,
    /// The id of the next action.
    pub next_id: u32,
}

/// The id after `id`. After the largest one they start over.
pub open spec fn id_after(id: u32) -> u32 {
    if id == u32::MAX {
        0
    } else {
        (id + 1) as u32
    }
}

impl Built {
    /// No actions yet.
    pub open spec fn nothing(next_id: u32) -> Built {
        Built { contents: no_actions(), order: seq![], normal: seq![], next_id }
    }

    /// With one more action, under the next id.
    pub open spec fn with(self, slot: Slot) -> Built {
        match slot {
            Slot::Priority(action) => Built {
                contents: self.contents.insert(self.next_id, action),
                order: order_with(self.order, self.next_id),
                next_id: id_after(self.next_id),
                ..self
            },
            Slot::Normal(action) => Built {
                normal: self.normal.push((self.next_id, action)),
                next_id: id_after(self.next_id),
                ..self
            },
        }
    }

    /// With one more action that takes precedence, if it is enabled.
    pub open spec fn with_if(self, enabled: bool, action: PriorityAction) -> Built {
        if enabled {
            self.with(Slot::Priority(action))
        } else {
            self
        }
    }

    /// With an action for each of the first `count` buffs.
    pub open spec fn with_buffs(self, buffs: Seq<(BuffKind, KeyKind)>, count: nat) -> Built
        decreases count,
    {
        if count == 0 {
            self
        } else {
            let (buff, key) = buffs[count - 1];
            self.with_buffs(buffs, (count - 1) as nat).with(
                Slot::Priority(
                    standing(
                        Condition::Buff(buff),
                        key_press(key, ActionKeyWith::Stationary, 10, 10),
                        Some(ActionMetadata::Buff { kind: buff }),
                        true,
                    ),
                ),
            )
        }
    }

    /// With the configured actions from `index` on.
    ///
    /// Those of a condition take precedence, except that the Erda Shower skill is not used in
    /// Monster Park. The others are rotated, except when mobbing.
    pub open spec fn with_actions(
        self,
        actions: Seq<Action>,
        index: int,
        mode: RotatorMode,
        ms_per_tick: u64,
    ) -> Built
        decreases actions.len() - index,
    {
        if 0 <= index < actions.len() {
            let action = rotated(actions, index, ms_per_tick);
            let condition = actions[index].spec_condition();
            let priority = fixed(action, condition, actions[index].spec_queues_to_front());
            let next = match condition {
                ActionCondition::EveryMillis(_) => self.with(Slot::Priority(priority)),
                ActionCondition::ErdaShowerOffCooldown => {
                    self.with_if(mode !is MonsterPark, priority)
                },
                ActionCondition::Any => if mode is AutoMobbing {
                    self
                } else {
                    self.with(Slot::Normal(action))
                },
                ActionCondition::Linked => self,
            };
            proof {
                linked_run_is_bounded(actions, index + 1);
            }
            next.with_actions(
                actions,
                index + 1 + linked_run(actions, index + 1),
                mode,
                ms_per_tick,
            )
        } else {
            self
        }
    }

    /// With the actions of low priority.
    pub open spec fn with_low(self, args: RotatorBuildArgs) -> Built {
        let park = args.mode is MonsterPark;
        self.with_if(
            args.enable_using_generic_booster && !park,
            booster(Booster::Generic),
        ).with_if(args.enable_using_hexa_booster && !park, booster(Booster::Hexa)).with_if(
            args.hexa_booster_exchange_condition !is Never,
            standing(
                Condition::ExchangeHexaBooster(args.hexa_booster_exchange_condition),
                PlayerAction::ExchangeBooster(
                    ExchangeBooster {
                        amount: args.hexa_booster_exchange_amount,
                        all: args.hexa_booster_exchange_all,
                    },
                ),
                None,
                true,
            ),
        ).with_if(
            args.familiars.enable_familiars_swapping,
            standing(
                Condition::FamiliarsSwap(args.familiars.swap_check_millis),
                PlayerAction::FamiliarsSwap(
                    FamiliarsSwap {
                        swappable_slots: args.familiars.swappable_familiars,
                        swappable_rarities: args.familiars.swappable_rarities,
                    },
                ),
                None,
                true,
            ),
        )
    }

    /// With the actions of high priority.
    pub open spec fn with_high(self, args: RotatorBuildArgs) -> Built {
        let assists = self.with_if(
            args.enable_rune_solving,
            standing(Condition::SolveRune, PlayerAction::SolveRune, None, false),
        ).with_if(
            args.enable_transparent_shape_solving,
            standing(Condition::SolveShape, PlayerAction::SolveShape, None, false),
        ).with_if(
            args.enable_violetta_solving,
            standing(Condition::SolveVioletta, PlayerAction::SolveVioletta, None, false),
        ).with_if(
            args.elite_boss_behavior is CycleChannel,
            standing(Condition::EliteBoss, change_channel(), None, true),
        ).with_if(
            args.elite_boss_behavior is UseKey,
            standing(
                Condition::EliteBoss,
                key_press(args.elite_boss_behavior_key, ActionKeyWith::Stationary, 10, 10),
                None,
                true,
            ),
        ).with_if(
            args.enable_panic_mode,
            standing(Condition::Panic, change_channel(), None, true),
        ).with_if(
            keeps_familiars(args.buffs@),
            standing(
                Condition::FamiliarEssence,
                key_press(args.familiar_essence_key, ActionKeyWith::Any, 5, 0),
                None,
                true,
            ),
        );
        let buffed = if args.mode is MonsterPark {
            assists
        } else {
            assists.with_buffs(args.buffs@, args.buffs@.len())
        };
        buffed.with(
            Slot::Priority(standing(Condition::Unstuck, PlayerAction::Unstuck, None, false)),
        )
    }
}

/// The action that keeps a booster in use.
pub open spec fn booster(kind: Booster) -> PriorityAction {
    standing(
        Condition::UseBooster(kind),
        PlayerAction::UseBooster(UseBooster { kind }),
        Some(ActionMetadata::UseBooster),
        true,
    )
}

/// Whether familiars are among the buffs to keep up.
pub open spec fn keeps_familiars(buffs: Seq<(BuffKind, KeyKind)>) -> bool {
    exists|i: int| 0 <= i < buffs.len() && (#[trigger] buffs[i]).0 == BuffKind::Familiar
}

/// All configured actions, the character's before the map's.
pub open spec fn configured_actions(args: RotatorBuildArgs) -> Seq<Action> {
    args.character_actions@ + args.map_actions@
}

/// The actions that are rotated for a configuration, with ids from `next_id` on.
pub open spec fn built(args: RotatorBuildArgs, ms_per_tick: u64, next_id: u32) -> Built {
    Built::nothing(next_id).with_low(args).with_actions(
        configured_actions(args),
        0,
        args.mode,
        ms_per_tick,
    ).with_high(args)
}

/// Puts actions together.
#[derive(Debug)]
pub struct Builder {
    pub actions: ActionMap,
    pub normal_actions: Vec<(u32, RotatorAction)>,
    pub next_id: u32,
}

impl View for Builder {
    type V = Built;

    open spec fn view(&self) -> Built {
        Built {
            contents: contents(self.actions),
            order: key_order(self.actions),
            normal: self.normal_actions@,
            next_id: self.next_id,
        }
    }
}

/// Whether all actions that take precedence are ones that can be rotated.
pub open spec fn all_wf(actions: Map<u32, PriorityAction>) -> bool {
    forall|id: u32| #[trigger] actions.contains_key(id) ==> actions[id].wf()
}

impl Builder {
    /// Starts without actions.
    pub fn new(next_id: u32) -> (r: Builder)
        ensures
            r@ == Built::nothing(next_id),
            all_wf(r@.contents),
    {
        Builder { actions: new_map(), normal_actions: Vec::new(), next_id }
    }

    fn next_action_id(&mut self) -> (r: u32)
        ensures
            r == old(self).next_id,
            final(self).next_id == id_after(old(self).next_id),
            final(self).actions == old(self).actions,
            final(self).normal_actions == old(self).normal_actions,
    {
        let id: u32 = self.next_id;
        self.next_id = id.wrapping_add(1);
        id
    }

    fn add(&mut self, action: PriorityAction)
        requires
            action.wf(),
            all_wf(old(self)@.contents),
        ensures
            final(self)@ == old(self)@.with(Slot::Priority(action)),
            all_wf(final(self)@.contents),
    {
        let id: u32 = self.next_action_id();
        insert_action(&mut self.actions, id, action);
    }

    fn add_if(&mut self, enabled: bool, action: PriorityAction)
        requires
            enabled ==> action.wf(),
            all_wf(old(self)@.contents),
        ensures
            final(self)@ == old(self)@.with_if(enabled, action),
            all_wf(final(self)@.contents),
    {
        if enabled {
            self.add(action);
        }
    }

    fn add_normal(&mut self, action: RotatorAction)
        ensures
            final(self)@ == old(self)@.with(Slot::Normal(action)),
    {
        let id: u32 = self.next_action_id();
        self.normal_actions.push((id, action));
    }

    fn add_low(&mut self, args: &RotatorBuildArgs)
        requires
            all_wf(old(self)@.contents),
        ensures
            final(self)@ == old(self)@.with_low(*args),
            all_wf(final(self)@.contents),
    {
        let is_monster_park = is_monster_park(args.mode);
        self.add_if(
            args.enable_using_generic_booster && !is_monster_park,
            use_booster_priority_action(Booster::Generic),
        );
        self.add_if(
            args.enable_using_hexa_booster && !is_monster_park,
            use_booster_priority_action(Booster::Hexa),
        );
        let exchanges = match args.hexa_booster_exchange_condition {
            ExchangeHexaBoosterCondition::Never => false,
            _ => true,
        };
        self.add_if(
            exchanges,
            exchange_hexa_booster_priority_action(
                args.hexa_booster_exchange_condition,
                args.hexa_booster_exchange_amount,
                args.hexa_booster_exchange_all,
            ),
        );
        self.add_if(
            args.familiars.enable_familiars_swapping,
            familiars_swap_priority_action(
                FamiliarsSwap {
                    swappable_slots: args.familiars.swappable_familiars,
                    swappable_rarities: args.familiars.swappable_rarities,
                },
                args.familiars.swap_check_millis,
            ),
        );
    }

    fn add_actions(&mut self, actions: &Vec<Action>, mode: RotatorMode, ms_per_tick: u64)
        requires
            all_wf(old(self)@.contents),
            ms_per_tick > 0,
            !is_linked(actions@, 0),
        ensures
            final(self)@ == old(self)@.with_actions(actions@, 0, mode, ms_per_tick),
            all_wf(final(self)@.contents),
    {
        let is_monster_park = is_monster_park(mode);
        let is_auto_mobbing = match mode {
            RotatorMode::AutoMobbing(_, _) => true,
            _ => false,
        };
        let mut i: usize = 0;
        while i < actions.len()
            invariant
                i <= actions.len(),
                ms_per_tick > 0,
                all_wf(self@.contents),
                !is_linked(actions@, i as int),
                is_monster_park == (mode is MonsterPark),
                is_auto_mobbing == (mode is AutoMobbing),
                old(self)@.with_actions(actions@, 0, mode, ms_per_tick) == self@.with_actions(
                    actions@,
                    i as int,
                    mode,
                    ms_per_tick,
                ),
            decreases actions.len() - i,
        {
            let condition = actions[i].condition();
            let queue_to_front = actions[i].queues_to_front();
            let (action, offset) = rotator_action(i, actions, ms_per_tick);
            match condition {
                ActionCondition::EveryMillis(_) => {
                    self.add(priority_action(action, condition, queue_to_front));
                },
                ActionCondition::ErdaShowerOffCooldown => {
                    self.add_if(
                        !is_monster_park,
                        priority_action(action, condition, queue_to_front),
                    );
                },
                ActionCondition::Any => {
                    if !is_auto_mobbing {
                        self.add_normal(action);
                    }
                },
                ActionCondition::Linked => {},
            }
            i += offset;
        }
    }

    fn add_buffs(&mut self, buffs: &Vec<(BuffKind, KeyKind)>)
        requires
            all_wf(old(self)@.contents),
        ensures
            final(self)@ == old(self)@.with_buffs(buffs@, buffs@.len()),
            all_wf(final(self)@.contents),
    {
        let mut i: usize = 0;
        while i < buffs.len()
            invariant
                i <= buffs.len(),
                all_wf(self@.contents),
                self@ == old(self)@.with_buffs(buffs@, i as nat),
            decreases buffs.len() - i,
        {
            let (buff, key) = buffs[i];
            self.add(buff_priority_action(buff, key));
            i += 1;
        }
    }

    fn add_high(&mut self, args: &RotatorBuildArgs)
        requires
            all_wf(old(self)@.contents),
        ensures
            final(self)@ == old(self)@.with_high(*args),
            all_wf(final(self)@.contents),
    {
        self.add_if(args.enable_rune_solving, solve_rune_priority_action());
        self.add_if(
            args.enable_transparent_shape_solving,
            solve_transparent_shape_priority_action(),
        );
        self.add_if(args.enable_violetta_solving, solve_violetta_priority_action());
        let (cycles_channel, uses_key) = match args.elite_boss_behavior {
            EliteBossBehavior::Nothing => (false, false),
            EliteBossBehavior::CycleChannel => (true, false),
            EliteBossBehavior::UseKey => (false, true),
        };
        self.add_if(cycles_channel, elite_boss_change_channel_priority_action());
        self.add_if(uses_key, elite_boss_use_key_priority_action(args.elite_boss_behavior_key));
        self.add_if(args.enable_panic_mode, panic_priority_action());
        self.add_if(
            has_familiar_buff(&args.buffs),
            familiar_essence_replenish_priority_action(args.familiar_essence_key),
        );
        if !is_monster_park(args.mode) {
            self.add_buffs(&args.buffs);
        }
        self.add(unstuck_priority_action());
    }

    /// Puts together the actions that are rotated for a configuration.
    pub fn build(&mut self, args: &RotatorBuildArgs, ms_per_tick: u64)
        requires
            old(self)@ == Built::nothing(old(self).next_id),
            ms_per_tick > 0,
            !is_linked(configured_actions(*args), 0),
        ensures
            final(self)@ == built(*args, ms_per_tick, old(self).next_id),
            all_wf(final(self)@.contents),
    {
        let actions = all_actions(args);
        self.add_low(args);
        self.add_actions(&actions, args.mode, ms_per_tick);
        self.add_high(args);
    }
}

fn is_monster_park(mode: RotatorMode) -> (r: bool)
    ensures
        r == (mode is MonsterPark),
{
    match mode {
        RotatorMode::MonsterPark(_, _) => true,
        _ => false,
    }
}

fn has_familiar_buff(buffs: &Vec<(BuffKind, KeyKind)>) -> (r: bool)
    ensures
        r == keeps_familiars(buffs@),
{
    let mut i: usize = 0;
    while i < buffs.len()
        invariant
            i <= buffs.len(),
            forall|j: int| 0 <= j < i ==> (#[trigger] buffs@[j]).0 != BuffKind::Familiar,
        decreases buffs.len() - i,
    {
        if let BuffKind::Familiar = buffs[i].0 {
            return true;
        }
        i += 1;
    }
    false
}

fn all_actions(args: &RotatorBuildArgs) -> (r: Vec<Action>)
    ensures
        r@ == configured_actions(*args),
{
    let mut actions: Vec<Action> = Vec::new();
    let mut i: usize = 0;
    while i < args.character_actions.len()
        invariant
            i <= args.character_actions.len(),
            actions@ == args.character_actions@.take(i as int),
        decreases args.character_actions.len() - i,
    {
        actions.push(args.character_actions[i]);
        i += 1;
    }
    assert(args.character_actions@.take(i as int) == args.character_actions@);
    let mut j: usize = 0;
    while j < args.map_actions.len()
        invariant
            j <= args.map_actions.len(),
            actions@ == args.character_actions@ + args.map_actions@.take(j as int),
        decreases args.map_actions.len() - j,
    {
        actions.push(args.map_actions[j]);
        j += 1;
    }
    assert(args.map_actions@.take(j as int) == args.map_actions@);
    actions
}

/// Whether an action is one of those that Monster Park goes without: it uses a booster, keeps a
/// buff up or waits for the Erda Shower skill.
pub open spec fn disturbs_monster_park(action: PriorityAction) -> bool {
    ||| action.is_booster()
    ||| action.metadata is Some && action.metadata->0 is Buff
    ||| action.is_erda()
}

/// Whether none of the actions is one that Monster Park goes without.
pub open spec fn undisturbed(actions: Map<u32, PriorityAction>) -> bool {
    forall|id: u32| #[trigger]
        actions.contains_key(id) ==> !disturbs_monster_park(actions[id])
}

proof fn actions_leave_monster_park_undisturbed(
    before: Built,
    actions: Seq<Action>,
    index: int,
    mode: RotatorMode,
    ms_per_tick: u64,
)
    requires
        mode is MonsterPark,
        undisturbed(before.contents),
        0 <= index,
    ensures
        undisturbed(before.with_actions(actions, index, mode, ms_per_tick).contents),
    decreases actions.len() - index,
{
    if index < actions.len() {
        linked_run_is_bounded(actions, index + 1);
        let action = rotated(actions, index, ms_per_tick);
        let condition = actions[index].spec_condition();
        let priority = fixed(action, condition, actions[index].spec_queues_to_front());
        let next = match condition {
            ActionCondition::EveryMillis(_) => before.with(Slot::Priority(priority)),
            ActionCondition::Any => before.with(Slot::Normal(action)),
            _ => before,
        };
        assert(undisturbed(next.contents));
        actions_leave_monster_park_undisturbed(
            next,
            actions,
            index + 1 + linked_run(actions, index + 1),
            mode,
            ms_per_tick,
        );
    }
}

/// Monster Park goes without boosters, buffs and the Erda Shower skill.
pub proof fn monster_park_is_undisturbed(args: RotatorBuildArgs, ms_per_tick: u64, next_id: u32)
    requires
        args.mode is MonsterPark,
    ensures
        undisturbed(built(args, ms_per_tick, next_id).contents),
{
    let low = Built::nothing(next_id).with_low(args);
    assert(undisturbed(low.contents));
    let middle = low.with_actions(configured_actions(args), 0, args.mode, ms_per_tick);
    actions_leave_monster_park_undisturbed(
        low,
        configured_actions(args),
        0,
        args.mode,
        ms_per_tick,
    );
    assert(undisturbed(middle.with_high(args).contents));
}

proof fn mobbing_rotates_no_actions(
    before: Built,
    actions: Seq<Action>,
    index: int,
    mode: RotatorMode,
    ms_per_tick: u64,
)
    requires
        mode is AutoMobbing,
        0 <= index,
    ensures
        before.with_actions(actions, index, mode, ms_per_tick).normal == before.normal,
    decreases actions.len() - index,
{
    if index < actions.len() {
        linked_run_is_bounded(actions, index + 1);
        let action = rotated(actions, index, ms_per_tick);
        let condition = actions[index].spec_condition();
        let priority = fixed(action, condition, actions[index].spec_queues_to_front());
        let next = match condition {
            ActionCondition::EveryMillis(_) | ActionCondition::ErdaShowerOffCooldown => {
                before.with(Slot::Priority(priority))
            },
            _ => before,
        };
        mobbing_rotates_no_actions(
            next,
            actions,
            index + 1 + linked_run(actions, index + 1),
            mode,
            ms_per_tick,
        );
    }
}

/// With mobbing, no actions are rotated in order.
pub proof fn mobbing_takes_the_place_of_actions(
    args: RotatorBuildArgs,
    ms_per_tick: u64,
    next_id: u32,
)
    requires
        args.mode is AutoMobbing,
    ensures
        built(args, ms_per_tick, next_id).normal.len() == 0,
{
    let low = Built::nothing(next_id).with_low(args);
    mobbing_rotates_no_actions(low, configured_actions(args), 0, args.mode, ms_per_tick);
    let middle = low.with_actions(configured_actions(args), 0, args.mode, ms_per_tick);
    high_actions_are_not_rotated(middle, args);
}

proof fn buffs_are_not_rotated(before: Built, buffs: Seq<(BuffKind, KeyKind)>, count: nat)
    ensures
        before.with_buffs(buffs, count).normal == before.normal,
    decreases count,
{
    if count > 0 {
        buffs_are_not_rotated(before, buffs, (count - 1) as nat);
    }
}

proof fn high_actions_are_not_rotated(before: Built, args: RotatorBuildArgs)
    ensures
        before.with_high(args).normal == before.normal,
{
    assert forall|other: Built| #[trigger]
        other.with_buffs(args.buffs@, args.buffs@.len()).normal == other.normal by {
        buffs_are_not_rotated(other, args.buffs@, args.buffs@.len());
    }
}

/// Only configured actions are rotated in order.
pub proof fn only_configured_actions_are_rotated(
    args: RotatorBuildArgs,
    ms_per_tick: u64,
    next_id: u32,
)
    ensures
        built(args, ms_per_tick, next_id).normal == Built::nothing(next_id).with_low(
            args,
        ).with_actions(configured_actions(args), 0, args.mode, ms_per_tick).normal,
        Built::nothing(next_id).with_low(args).normal.len() == 0,
{
    let low = Built::nothing(next_id).with_low(args);
    high_actions_are_not_rotated(
        low.with_actions(configured_actions(args), 0, args.mode, ms_per_tick),
        args,
    );
}

/// Getting unstuck is always looked after, and comes last.
pub proof fn getting_unstuck_comes_last(args: RotatorBuildArgs, ms_per_tick: u64, next_id: u32)
    ensures
        ({
            let built = built(args, ms_per_tick, next_id);
            &&& built.order.len() > 0
            &&& built.contents.contains_key(built.order.last())
            &&& built.contents[built.order.last()].condition == Condition::Unstuck
        }),
{
}

/// Whether the ids of all actions lie from `first` on and below the next one, which is at most
/// `count` further on.
#[verifier::opaque]
pub open spec fn numbered_from(built: Built, first: u32, count: int) -> bool {
    &&& first <= built.next_id <= first + count
    &&& forall|id: u32| #[trigger] built.contents.contains_key(id) ==> first <= id < built.next_id
    &&& forall|i: int|
        0 <= i < built.normal.len() ==> first <= (#[trigger] built.normal[i]).0 < built.next_id
}

proof fn adding_counts_up(built: Built, slot: Slot, first: u32, count: int)
    requires
        numbered_from(built, first, count),
        first + count < u32::MAX,
    ensures
        numbered_from(built.with(slot), first, count + 1),
{
    reveal(numbered_from);
}

proof fn adding_if_enabled_counts_up(
    built: Built,
    enabled: bool,
    action: PriorityAction,
    first: u32,
    count: int,
)
    requires
        numbered_from(built, first, count),
        first + count < u32::MAX,
    ensures
        numbered_from(built.with_if(enabled, action), first, count + 1),
{
    reveal(numbered_from);
    adding_counts_up(built, Slot::Priority(action), first, count);
}

proof fn adding_buffs_counts_up(
    built: Built,
    buffs: Seq<(BuffKind, KeyKind)>,
    added: nat,
    first: u32,
    count: int,
)
    requires
        numbered_from(built, first, count),
        first + count + added <= u32::MAX,
    ensures
        numbered_from(built.with_buffs(buffs, added), first, count + added),
    decreases added,
{
    if added > 0 {
        adding_buffs_counts_up(built, buffs, (added - 1) as nat, first, count);
        let (buff, key) = buffs[added - 1];
        let action = standing(
            Condition::Buff(buff),
            key_press(key, ActionKeyWith::Stationary, 10, 10),
            Some(ActionMetadata::Buff { kind: buff }),
            true,
        );
        adding_counts_up(
            built.with_buffs(buffs, (added - 1) as nat),
            Slot::Priority(action),
            first,
            count + added - 1,
        );
    }
}

proof fn adding_actions_counts_up(
    before: Built,
    actions: Seq<Action>,
    index: int,
    mode: RotatorMode,
    ms_per_tick: u64,
    first: u32,
    count: int,
)
    requires
        numbered_from(before, first, count),
        0 <= index <= actions.len(),
        first + count + (actions.len() - index) <= u32::MAX,
    ensures
        numbered_from(
            before.with_actions(actions, index, mode, ms_per_tick),
            first,
            count + (actions.len() - index),
        ),
    decreases actions.len() - index,
{
    if index < actions.len() {
        linked_run_is_bounded(actions, index + 1);
        let action = rotated(actions, index, ms_per_tick);
        let condition = actions[index].spec_condition();
        let priority = fixed(action, condition, actions[index].spec_queues_to_front());
        adding_counts_up(before, Slot::Priority(priority), first, count);
        adding_counts_up(before, Slot::Normal(action), first, count);
        let next = match condition {
            ActionCondition::EveryMillis(_) => before.with(Slot::Priority(priority)),
            ActionCondition::ErdaShowerOffCooldown => {
                before.with_if(mode !is MonsterPark, priority)
            },
            ActionCondition::Any => if mode is AutoMobbing {
                before
            } else {
                before.with(Slot::Normal(action))
            },
            ActionCondition::Linked => before,
        };
        assert(numbered_from(next, first, count + 1)) by {
            reveal(numbered_from);
        }
        adding_actions_counts_up(
            next,
            actions,
            index + 1 + linked_run(actions, index + 1),
            mode,
            ms_per_tick,
            first,
            count + 1,
        );
        reveal(numbered_from);
    }
}

/// How many actions there are at most besides the configured ones and the buffs.
pub const STANDING_ACTIONS: u32 = 12;

/// Whether there are numbers left for all actions of a configuration.
pub open spec fn numbers_suffice(args: RotatorBuildArgs, next_id: u32) -> bool {
    next_id + configured_actions(args).len() + args.buffs@.len() + STANDING_ACTIONS <= u32::MAX
}

/// As long as there are numbers left, the actions are numbered upward from the given number.
pub proof fn numbers_go_up(args: RotatorBuildArgs, ms_per_tick: u64, next_id: u32)
    requires
        numbers_suffice(args, next_id),
    ensures
        ({
            let built = built(args, ms_per_tick, next_id);
            &&& next_id <= built.next_id
            &&& forall|id: u32| #[trigger]
                built.contents.contains_key(id) ==> next_id <= id < built.next_id
            &&& forall|i: int|
                0 <= i < built.normal.len() ==> next_id <= (#[trigger] built.normal[i]).0
                    < built.next_id
        }),
{
    let actions = configured_actions(args);
    let low = Built::nothing(next_id).with_low(args);
    let middle = low.with_actions(actions, 0, args.mode, ms_per_tick);
    assert forall|other: Built, enabled: bool, action: PriorityAction, count: int|
        #![trigger other.with_if(enabled, action), numbered_from(other, next_id, count)]
        numbered_from(other, next_id, count) && next_id + count < u32::MAX implies numbered_from(
        other.with_if(enabled, action),
        next_id,
        count + 1,
    ) by {
        adding_if_enabled_counts_up(other, enabled, action, next_id, count);
    }
    assert(numbered_from(Built::nothing(next_id), next_id, 0)) by {
        reveal(numbered_from);
    }
    assert(numbered_from(low, next_id, 4));
    adding_actions_counts_up(low, actions, 0, args.mode, ms_per_tick, next_id, 4);
    assert forall|other: Built, count: int|
        #![trigger other.with_buffs(args.buffs@, args.buffs@.len()), numbered_from(
            other,
            next_id,
            count,
        )]
        numbered_from(other, next_id, count) && next_id + count + args.buffs@.len()
            <= u32::MAX implies numbered_from(
        other.with_buffs(args.buffs@, args.buffs@.len()),
        next_id,
        count + args.buffs@.len(),
    ) by {
        adding_buffs_counts_up(other, args.buffs@, args.buffs@.len(), next_id, count);
    }
    let unstuck = standing(Condition::Unstuck, PlayerAction::Unstuck, None, false);
    assert forall|other: Built, count: int|
        #![trigger other.with(Slot::Priority(unstuck)), numbered_from(other, next_id, count)]
        numbered_from(other, next_id, count) && next_id + count < u32::MAX implies numbered_from(
        other.with(Slot::Priority(unstuck)),
        next_id,
        count + 1,
    ) by {
        adding_counts_up(other, Slot::Priority(unstuck), next_id, count);
    }
    let count: int = 4 + actions.len() as int;
    assert(numbered_from(middle, next_id, count));
    assert(numbered_from(
        middle.with_high(args),
        next_id,
        count + 8 + args.buffs@.len(),
    ) || numbered_from(middle.with_high(args), next_id, count + 8));
    reveal(numbered_from);
}

/// Whether an action has the given id.
pub open spec fn uses_id(built: Built, id: u32) -> bool {
    ||| built.contents.contains_key(id)
    ||| exists|i: int| 0 <= i < built.normal.len() && (#[trigger] built.normal[i]).0 == id
}

/// Two rotators, the second of which goes on with the number that the first one came to, share no
/// ids.
pub proof fn rotators_share_no_ids(
    one: RotatorBuildArgs,
    other: RotatorBuildArgs,
    ms_per_tick: u64,
    next_id: u32,
    id: u32,
)
    requires
        numbers_suffice(one, next_id),
        numbers_suffice(other, built(one, ms_per_tick, next_id).next_id),
    ensures
        ({
            let first = built(one, ms_per_tick, next_id);
            let second = built(other, ms_per_tick, first.next_id);
            !(uses_id(first, id) && uses_id(second, id))
        }),
{
    numbers_go_up(one, ms_per_tick, next_id);
    numbers_go_up(other, ms_per_tick, built(one, ms_per_tick, next_id).next_id);
}

} // verus!
