//! The actions that take precedence over the ones in rotation.

use vstd::prelude::*;

use std::collections::VecDeque;
use std::time::Instant;

use super::action::{
    assigned, queuing_view, rotate_queuing_linked_action, row_rest, Queuing, RotatorAction,
    RotatorActionView,
};
use super::condition::{decide, decision, requests, Condition, ConditionResult};
use super::map::{action_ids, contents, get_action, get_action_mut, key_order, new_map, no_actions};
use super::map::ActionMap;
use super::normal::{NormalRotation, NormalView};
use crate::clock::{at_least_millis_passed_since, may_have_passed};
use crate::ecs::{BuffKind, DetectionRequest, Detections, Resources, World};
use crate::models::ActionCondition;
use crate::player::actions::PlayerActionView;
use crate::player::context::{PlayerContext, PlayerContextView};
use crate::player::{Player, PlayerEntity};

verus! {

/// What kind of thing a priority action does.
#[derive(Clone, Copy, Debug, PartialEq, Eq, Structural)]
pub enum ActionMetadata {
    UseBooster,
    Buff { kind: BuffKind },
}

/// How a priority action was queued.
#[derive(Clone, Copy, Debug)]
pub struct PriorityActionQueueInfo {
    /// Whether this action is being ignored: it is in the queue or being performed. As long as
    /// it is, it counts as queued just now.
    pub ignoring: bool,
    /// When this action was queued last.
    pub last_queued_time: Option<Instant>,
}

impl PriorityActionQueueInfo {
    /// Never queued.
    pub open spec fn fresh() -> PriorityActionQueueInfo {
        PriorityActionQueueInfo { ignoring: false, last_queued_time: None }
    }
}

impl Default for PriorityActionQueueInfo {
    fn default() -> (r: PriorityActionQueueInfo)
        ensures
            r == PriorityActionQueueInfo::fresh(),
    {
        PriorityActionQueueInfo { ignoring: false, last_queued_time: None }
    }
}

/// An action that takes precedence over the one in rotation.
///
/// It takes over from most states of the player, but not from those that must not be
/// interrupted, nor from a row of linked actions.
#[derive(Debug)]
pub struct PriorityAction {
    /// When this action is queued.
    pub condition: Condition,
    /// The configured condition that the above was made from.
    pub condition_kind: Option<ActionCondition>,
    pub inner: RotatorAction,
    pub metadata: Option<ActionMetadata>,
    /// Whether this action is queued to the front, and takes over from one that is not. That one
    /// is put back to the front of the queue.
    pub queue_to_front: bool,
    /// Whether this action is not newly queued while a daily quest is to be done.
    ///
    /// It would be of no use away from the map it is meant for, and could keep the quest from
    /// ever starting.
    pub suppress_during_daily_quest: bool,
    pub queue_info: PriorityActionQueueInfo,
}

impl PriorityAction {
    /// Whether the condition is one that a priority action can have.
    pub open spec fn wf(self) -> bool {
        self.condition.wf() && self.condition_kind != Some(ActionCondition::Any)
    }

    /// This action with another record of how it was queued.
    pub open spec fn with_info(self, queue_info: PriorityActionQueueInfo) -> PriorityAction {
        PriorityAction { queue_info, ..self }
    }

    /// Whether this action waits for the Erda Shower skill.
    pub open spec fn is_erda(self) -> bool {
        self.condition_kind == Some(ActionCondition::ErdaShowerOffCooldown)
    }

    /// Whether this action uses a booster.
    pub open spec fn is_booster(self) -> bool {
        self.metadata == Some(ActionMetadata::UseBooster)
    }
}

/// What is made of a priority action in a tick.
#[derive(Clone, Copy, Debug, PartialEq, Eq, Structural)]
pub enum Verdict {
    /// It is in the queue or being performed.
    Ignored,
    /// It is held back because of a daily quest.
    Held,
    /// It is up to its condition.
    Decided(ConditionResult),
}

/// The actions that take precedence over the ones in rotation.
#[derive(Debug)]
pub struct PriorityRotation {
    pub actions: ActionMap,
    /// The rest of the row that is being performed.
    pub queuing_linked_action: Queuing,
    /// The ids of the actions that are to be performed.
    pub queue: VecDeque<u32>,
    /// Actions that are to be performed once. They have no ids.
    pub side_queue: VecDeque<RotatorAction>,
}

/// What a [`PriorityRotation`] holds.
pub struct PriorityView {
    pub contents: Map<u32, PriorityAction>,
    pub order: Seq<u32>,
    pub queuing: Option<(u32, Seq<PlayerActionView>)>,
    pub queue: Seq<u32>,
    pub side: Seq<RotatorActionView>,
}

/// What rotator actions hold.
pub open spec fn action_views(actions: Seq<RotatorAction>) -> Seq<RotatorActionView> {
    actions.map_values(|action: RotatorAction| action@)
}

impl View for PriorityRotation {
    type V = PriorityView;

    open spec fn view(&self) -> PriorityView {
        PriorityView {
            contents: contents(self.actions),
            order: key_order(self.actions),
            queuing: queuing_view(self.queuing_linked_action),
            queue: self.queue@,
            side: action_views(self.side_queue@),
        }
    }
}

/// Whether the id is that of an action that waits for the Erda Shower skill.
pub open spec fn erda_in(actions: Map<u32, PriorityAction>, id: u32) -> bool {
    actions.contains_key(id) && actions[id].is_erda()
}

/// Whether the id is that of an action that uses a booster.
pub open spec fn booster_in(actions: Map<u32, PriorityAction>, id: u32) -> bool {
    actions.contains_key(id) && actions[id].is_booster()
}

/// Whether the id is that of a row of linked actions.
pub open spec fn row_in(actions: Map<u32, PriorityAction>, id: u32) -> bool {
    actions.contains_key(id) && actions[id].inner is Linked
}

/// Whether a booster is queued or being used.
pub open spec fn booster_pending(
    actions: Map<u32, PriorityAction>,
    queue: Seq<u32>,
    player_id: Option<u32>,
) -> bool {
    ||| player_id is Some && booster_in(actions, player_id->0)
    ||| exists|i: int| 0 <= i < queue.len() && booster_in(actions, #[trigger] queue[i])
}

/// The actions and the queue while the verdicts of a tick are carried out.
pub struct Judged {
    pub contents: Map<u32, PriorityAction>,
    pub queue: Seq<u32>,
    /// Whether an action that waits for the Erda Shower skill was queued.
    pub queued_erda: bool,
}

impl Judged {
    /// Carries out the verdict on one action.
    pub open spec fn carry_out(
        self,
        player_id: Option<u32>,
        id: u32,
        verdict: Verdict,
        now: Instant,
    ) -> Judged {
        let action = self.contents[id];
        let kept = action.with_info(
            PriorityActionQueueInfo { ignoring: false, ..action.queue_info },
        );
        let dated = action.with_info(
            PriorityActionQueueInfo { ignoring: false, last_queued_time: Some(now) },
        );
        let ignored = action.with_info(
            PriorityActionQueueInfo { ignoring: true, last_queued_time: Some(now) },
        );
        match verdict {
            Verdict::Ignored => Judged { contents: self.contents.insert(id, ignored), ..self },
            Verdict::Held | Verdict::Decided(ConditionResult::Skip) => {
                Judged { contents: self.contents.insert(id, kept), ..self }
            },
            Verdict::Decided(ConditionResult::Ignore) => {
                Judged { contents: self.contents.insert(id, dated), ..self }
            },
            Verdict::Decided(ConditionResult::Queue) => {
                if action.is_booster() && booster_pending(self.contents, self.queue, player_id) {
                    Judged { contents: self.contents.insert(id, dated), ..self }
                } else {
                    Judged {
                        contents: self.contents.insert(id, dated),
                        queue: if action.queue_to_front {
                            seq![id] + self.queue
                        } else {
                            self.queue.push(id)
                        },
                        queued_erda: self.queued_erda || action.is_erda(),
                    }
                }
            },
        }
    }

    /// Carries out the verdicts on the first `count` actions, in order.
    pub open spec fn carry_out_all(
        self,
        player_id: Option<u32>,
        ids: Seq<u32>,
        verdicts: Seq<Verdict>,
        now: Instant,
        count: nat,
    ) -> Judged
        decreases count,
    {
        if count == 0 {
            self
        } else {
            self.carry_out_all(player_id, ids, verdicts, now, (count - 1) as nat).carry_out(
                player_id,
                ids[count - 1],
                verdicts[count - 1],
                now,
            )
        }
    }
}

impl PriorityView {
    /// Whether all actions are ones that can be rotated.
    pub open spec fn wf(self) -> bool {
        &&& forall|id: u32| #[trigger]
            self.contents.contains_key(id) ==> self.contents[id].wf()
        &&& forall|i: int| 0 <= i < self.side.len() ==> (#[trigger] self.side[i]) is Single
    }

    /// Whether an action that waits for the Erda Shower skill is queued or being performed.
    pub open spec fn has_erda(self, player_id: Option<u32>) -> bool {
        ||| player_id is Some && erda_in(self.contents, player_id->0)
        ||| exists|i: int|
            0 <= i < self.queue.len() && erda_in(self.contents, #[trigger] self.queue[i])
    }

    /// Whether the id is that of a row that is being performed, or has its rest before it.
    pub open spec fn performs_row(self, player_id: Option<u32>, id: u32) -> bool {
        ||| self.queuing is Some && (self.queuing->0).0 == id
        ||| player_id == Some(id) && row_in(self.contents, id)
    }

    /// Whether an action is being ignored.
    pub open spec fn ignores(self, player_id: Option<u32>, id: u32) -> bool {
        ||| self.performs_row(player_id, id)
        ||| if self.contents[id].is_erda() {
            self.has_erda(player_id)
        } else {
            player_id == Some(id) || self.queue.contains(id)
        }
    }

    /// Whether an action is held back.
    pub open spec fn holds(self, daily_quest_active: bool, id: u32) -> bool {
        daily_quest_active && self.contents[id].suppress_during_daily_quest
    }

    /// Whether `passed` are possible answers to whether the cooldown of each action has passed.
    pub open spec fn may_have_passed(self, passed: Seq<bool>) -> bool {
        &&& passed.len() == self.order.len()
        &&& forall|i: int|
            0 <= i < passed.len() ==> {
                let action = self.contents[#[trigger] self.order[i]];
                may_have_passed(
                    action.queue_info.last_queued_time,
                    action.condition.spec_cooldown_millis() as u128,
                    passed[i],
                )
            }
    }

    /// The verdict on one action.
    pub open spec fn verdict(
        self,
        detections: Detections,
        world: World,
        daily_quest_active: bool,
        id: u32,
        passed: bool,
        double_jump_threshold: i32,
    ) -> Verdict {
        let action = self.contents[id];
        if self.ignores(world.player.context@.priority_id(), id) {
            Verdict::Ignored
        } else if self.holds(daily_quest_active, id) {
            Verdict::Held
        } else {
            Verdict::Decided(
                decision(
                    action.condition,
                    detections,
                    world,
                    action.queue_info.last_queued_time is Some,
                    passed,
                    double_jump_threshold,
                ),
            )
        }
    }

    /// The verdicts on all actions, in order.
    pub open spec fn verdicts(
        self,
        detections: Detections,
        world: World,
        daily_quest_active: bool,
        passed: Seq<bool>,
        double_jump_threshold: i32,
    ) -> Seq<Verdict> {
        Seq::new(
            self.order.len(),
            |i: int|
                self.verdict(
                    detections,
                    world,
                    daily_quest_active,
                    self.order[i],
                    passed[i],
                    double_jump_threshold,
                ),
        )
    }

    /// The detections that the verdict on one action uses.
    pub open spec fn requests_for(
        self,
        detections: Detections,
        world: World,
        daily_quest_active: bool,
        id: u32,
        passed: bool,
        double_jump_threshold: i32,
    ) -> Seq<DetectionRequest> {
        let action = self.contents[id];
        if self.ignores(world.player.context@.priority_id(), id) || self.holds(
            daily_quest_active,
            id,
        ) {
            seq![]
        } else {
            requests(
                action.condition,
                detections,
                world,
                action.queue_info.last_queued_time is Some,
                passed,
                double_jump_threshold,
            )
        }
    }

    /// The detections that the verdicts on the first `count` actions use, in order.
    pub open spec fn all_requests(
        self,
        detections: Detections,
        world: World,
        daily_quest_active: bool,
        passed: Seq<bool>,
        double_jump_threshold: i32,
        count: nat,
    ) -> Seq<DetectionRequest>
        decreases count,
    {
        if count == 0 {
            seq![]
        } else {
            self.all_requests(
                detections,
                world,
                daily_quest_active,
                passed,
                double_jump_threshold,
                (count - 1) as nat,
            ) + self.requests_for(
                detections,
                world,
                daily_quest_active,
                self.order[count - 1],
                passed[count - 1],
                double_jump_threshold,
            )
        }
    }

    /// The actions and the queue once the verdicts are carried out.
    pub open spec fn judged(
        self,
        player_id: Option<u32>,
        verdicts: Seq<Verdict>,
        now: Instant,
    ) -> Judged {
        (Judged { contents: self.contents, queue: self.queue, queued_erda: false }).carry_out_all(
            player_id,
            self.order,
            verdicts,
            now,
            self.order.len(),
        )
    }

    /// This rotation with the given actions and queue.
    pub open spec fn with_judged(self, judged: Judged) -> PriorityView {
        PriorityView { contents: judged.contents, queue: judged.queue, ..self }
    }

    /// Whether the queue must wait for the player.
    pub open spec fn blocked(
        self,
        normal: NormalView,
        state: Player,
        context: PlayerContextView,
        double_jump_threshold: i32,
    ) -> bool {
        ||| !state.overridable(context.last_known_pos, double_jump_threshold)
        ||| normal.has_row(context)
        ||| context.priority_id() is Some && row_in(self.contents, context.priority_id()->0)
        ||| side_loaded(context)
    }

    /// The rotation and the player's actions once the row that is being performed goes on.
    pub open spec fn row_goes_on(self, context: PlayerContextView) -> (
        PriorityView,
        PlayerContextView,
    ) {
        let (id, row) = self.queuing->0;
        (
            PriorityView { queuing: row_rest(id, row), ..self },
            assigned(context, Some(id), row[0], true),
        )
    }

    /// The rotation and the player's actions once the first side-loaded action is started.
    pub open spec fn side_started(self, context: PlayerContextView) -> (
        PriorityView,
        PlayerContextView,
    ) {
        (
            PriorityView { side: self.side.skip(1), ..self },
            match self.side[0] {
                RotatorActionView::Single(action) => context.with_priority(None, action),
                RotatorActionView::Linked(_) => context,
            },
        )
    }

    /// Whether the player performs an action that was queued to the front.
    pub open spec fn performs_front(self, context: PlayerContextView) -> bool {
        &&& context.priority_id() is Some
        &&& self.contents.contains_key(context.priority_id()->0)
        &&& self.contents[context.priority_id()->0].queue_to_front
    }

    /// The rotation and the player's actions once the first queued action is started, if it may.
    pub open spec fn first_started(self, context: PlayerContextView) -> (
        PriorityView,
        PlayerContextView,
    ) {
        let id = self.queue[0];
        let popped = PriorityView { queue: self.queue.skip(1), ..self };
        if !self.contents.contains_key(id) {
            (popped, context)
        } else {
            let action = self.contents[id];
            let swapped = if action.queue_to_front && context.priority_id() is Some {
                PriorityView { queue: seq![context.priority_id()->0] + popped.queue, ..popped }
            } else {
                popped
            };
            if context.priority is Some && !action.queue_to_front {
                (self, context)
            } else {
                match action.inner@ {
                    RotatorActionView::Single(inner) => (
                        swapped,
                        context.with_priority(Some(id), inner),
                    ),
                    RotatorActionView::Linked(row) => {
                        (PriorityView { queuing: Some((id, row)), ..swapped }).row_goes_on(context)
                    },
                }
            }
        }
    }

    /// What [`PriorityRotation::rotate_queue`] does.
    pub open spec fn queue_rotated(
        self,
        normal: NormalView,
        state: Player,
        context: PlayerContextView,
        double_jump_threshold: i32,
    ) -> (PriorityView, PlayerContextView) {
        if self.blocked(normal, state, context, double_jump_threshold) {
            (self, context)
        } else if self.queuing is Some {
            self.row_goes_on(context)
        } else if self.side.len() > 0 {
            self.side_started(context)
        } else if self.queue.len() == 0 || self.performs_front(context) {
            (self, context)
        } else {
            self.first_started(context)
        }
    }
}

/// Whether the player performs a side-loaded action.
pub open spec fn side_loaded(context: PlayerContextView) -> bool {
    context.priority is Some && context.priority_id() is None
}

/// Whether the player performs a side-loaded action.
pub fn has_side_loaded_action_executing(player_context: &PlayerContext) -> (r: bool)
    ensures
        r == side_loaded(player_context@),
{
    player_context.has_priority_action() && player_context.priority_action_id().is_none()
}

impl PriorityRotation {
    /// Nothing to take precedence.
    pub fn new() -> (r: PriorityRotation)
        ensures
            r@ == (PriorityView {
                contents: no_actions(),
                order: seq![],
                queuing: None,
                queue: seq![],
                side: seq![],
            }),
    {
        let r = PriorityRotation {
            actions: new_map(),
            queuing_linked_action: None,
            queue: VecDeque::new(),
            side_queue: VecDeque::new(),
        };
        assert(r@.side == Seq::<RotatorActionView>::empty());
        r
    }

    /// Empties the queue.
    pub fn reset_queue(&mut self)
        ensures
            final(self)@ == (PriorityView { queue: seq![], queuing: None, ..old(self)@ }),
            final(self).actions == old(self).actions,
    {
        self.queue.clear();
        self.queuing_linked_action = None;
    }

    /// Adds an action to be performed once.
    pub fn side_load(&mut self, action: crate::player::actions::PlayerAction)
        ensures
            final(self)@ == (PriorityView {
                side: old(self)@.side.push(RotatorActionView::Single(action@)),
                ..old(self)@
            }),
            final(self).actions == old(self).actions,
    {
        self.side_queue.push_back(RotatorAction::Single(action));
        assert(final(self)@.side == old(self)@.side.push(RotatorActionView::Single(action@)));
    }

    fn queues_erda(&self, player_id: Option<u32>) -> (r: bool)
        ensures
            r == self@.has_erda(player_id),
    {
        if let Some(id) = player_id {
            if let Some(action) = get_action(&self.actions, id) {
                if let Some(ActionCondition::ErdaShowerOffCooldown) = action.condition_kind {
                    return true;
                }
            }
        }
        let mut i: usize = 0;
        while i < self.queue.len()
            invariant
                i <= self.queue@.len(),
                player_id is Some ==> !erda_in(self@.contents, player_id->0),
                forall|j: int| 0 <= j < i ==> !erda_in(self@.contents, #[trigger] self@.queue[j]),
            decreases self.queue@.len() - i,
        {
            let id: u32 = self.queue[i];
            if let Some(action) = get_action(&self.actions, id) {
                if let Some(ActionCondition::ErdaShowerOffCooldown) = action.condition_kind {
                    assert(erda_in(self@.contents, self@.queue[i as int]));
                    return true;
                }
            }
            i += 1;
        }
        false
    }

    fn has_booster_pending(&self, player_id: Option<u32>) -> (r: bool)
        ensures
            r == booster_pending(self@.contents, self@.queue, player_id),
    {
        if let Some(id) = player_id {
            if let Some(action) = get_action(&self.actions, id) {
                if let Some(ActionMetadata::UseBooster) = action.metadata {
                    return true;
                }
            }
        }
        let mut i: usize = 0;
        while i < self.queue.len()
            invariant
                i <= self.queue@.len(),
                player_id is Some ==> !booster_in(self@.contents, player_id->0),
                forall|j: int|
                    0 <= j < i ==> !booster_in(self@.contents, #[trigger] self@.queue[j]),
            decreases self.queue@.len() - i,
        {
            let id: u32 = self.queue[i];
            if let Some(action) = get_action(&self.actions, id) {
                if let Some(ActionMetadata::UseBooster) = action.metadata {
                    assert(booster_in(self@.contents, self@.queue[i as int]));
                    return true;
                }
            }
            i += 1;
        }
        false
    }

    fn is_queued(&self, id: u32) -> (r: bool)
        ensures
            r == self@.queue.contains(id),
    {
        let mut i: usize = 0;
        while i < self.queue.len()
            invariant
                i <= self.queue@.len(),
                forall|j: int| 0 <= j < i ==> #[trigger] self@.queue[j] != id,
            decreases self.queue@.len() - i,
        {
            let queued: u32 = self.queue[i];
            if queued == id {
                assert(self@.queue[i as int] == id);
                return true;
            }
            i += 1;
        }
        false
    }

    fn is_linked_action_queuing_or_executing(&self, player_id: Option<u32>, id: u32) -> (r: bool)
        ensures
            r == self@.performs_row(player_id, id),
    {
        if let Some((queuing_id, _)) = &self.queuing_linked_action {
            if *queuing_id == id {
                return true;
            }
        }
        match player_id {
            Some(action_id) => {
                if action_id != id {
                    return false;
                }
                match get_action(&self.actions, id) {
                    Some(action) => match action.inner {
                        RotatorAction::Linked(_) => true,
                        RotatorAction::Single(_) => false,
                    },
                    None => false,
                }
            },
            None => false,
        }
    }

    /// Judges the action with the given id. `has_erda` is whether an action that waits for the
    /// Erda Shower skill is queued or being performed.
    fn judge(
        &self,
        resources: &mut Resources,
        world: &World,
        daily_quest_active: bool,
        double_jump_threshold: i32,
        has_erda: bool,
        id: u32,
    ) -> (r: (Verdict, Ghost<bool>))
        requires
            self@.contents.contains_key(id),
            has_erda == self@.has_erda(world.player.context@.priority_id()),
        ensures
            ({
                let action = self@.contents[id];
                let passed = r.1@;
                &&& may_have_passed(
                    action.queue_info.last_queued_time,
                    action.condition.spec_cooldown_millis() as u128,
                    passed,
                )
                &&& r.0 == self@.verdict(
                    old(resources).detections,
                    *world,
                    daily_quest_active,
                    id,
                    passed,
                    double_jump_threshold,
                )
                &&& final(resources).used(
                    *old(resources),
                    self@.requests_for(
                        old(resources).detections,
                        *world,
                        daily_quest_active,
                        id,
                        passed,
                        double_jump_threshold,
                    ),
                )
            }),
    {
        let player_id = world.player.context.priority_action_id();
        let has_linked_action = self.is_linked_action_queuing_or_executing(player_id, id);
        let is_executing = match player_id {
            Some(action_id) => action_id == id,
            None => false,
        };
        let is_queued = self.is_queued(id);
        match get_action(&self.actions, id) {
            Some(action) => {
                let last_queued_time = action.queue_info.last_queued_time;
                let millis: u128 = action.condition.cooldown_millis() as u128;
                let passed = at_least_millis_passed_since(last_queued_time, millis);
                let ignoring = match action.condition_kind {
                    Some(ActionCondition::ErdaShowerOffCooldown) => has_erda || has_linked_action,
                    _ => is_executing || is_queued || has_linked_action,
                };
                if ignoring {
                    return (Verdict::Ignored, Ghost(passed));
                }
                if daily_quest_active && action.suppress_during_daily_quest {
                    return (Verdict::Held, Ghost(passed));
                }
                let result = decide(
                    action.condition,
                    resources,
                    world,
                    last_queued_time.is_some(),
                    passed,
                    double_jump_threshold,
                );
                (Verdict::Decided(result), Ghost(passed))
            },
            None => (Verdict::Held, Ghost(true)),
        }
    }

    /// Carries out the verdicts on the actions with the given ids, in order. Whether an action
    /// that waits for the Erda Shower skill was queued.
    pub fn carry_out(
        &mut self,
        player_id: Option<u32>,
        ids: &Vec<u32>,
        verdicts: &Vec<Verdict>,
        now: Instant,
    ) -> (r: bool)
        requires
            ids.len() == verdicts.len(),
            forall|i: int| 0 <= i < ids.len() ==> old(self)@.contents.contains_key(#[trigger] ids@[i]),
        ensures
            ({
                let judged = (Judged {
                    contents: old(self)@.contents,
                    queue: old(self)@.queue,
                    queued_erda: false,
                }).carry_out_all(player_id, ids@, verdicts@, now, ids@.len());
                &&& final(self)@ == old(self)@.with_judged(judged)
                &&& r == judged.queued_erda
            }),
    {
        let ghost start = Judged {
            contents: self@.contents,
            queue: self@.queue,
            queued_erda: false,
        };
        let mut queued_erda = false;
        let mut i: usize = 0;
        while i < ids.len()
            invariant
                i <= ids.len(),
                ids.len() == verdicts.len(),
                forall|j: int|
                    0 <= j < ids.len() ==> self@.contents.contains_key(#[trigger] ids@[j]),
                ({
                    let judged = start.carry_out_all(player_id, ids@, verdicts@, now, i as nat);
                    &&& self@ == old(self)@.with_judged(judged)
                    &&& queued_erda == judged.queued_erda
                }),
            decreases ids.len() - i,
        {
            if self.carry_out_one(player_id, ids[i], verdicts[i], now) {
                queued_erda = true;
            }
            i += 1;
        }
        queued_erda
    }

    fn carry_out_one(
        &mut self,
        player_id: Option<u32>,
        id: u32,
        verdict: Verdict,
        now: Instant,
    ) -> (r: bool)
        requires
            old(self)@.contents.contains_key(id),
        ensures
            ({
                let judged = (Judged {
                    contents: old(self)@.contents,
                    queue: old(self)@.queue,
                    queued_erda: false,
                }).carry_out(player_id, id, verdict, now);
                &&& final(self)@ == old(self)@.with_judged(judged)
                &&& r == judged.queued_erda
            }),
    {
        let booster_pending = self.has_booster_pending(player_id);
        match get_action_mut(&mut self.actions, id) {
            Some(action) => {
                action.queue_info.ignoring = false;
                match verdict {
                    Verdict::Ignored => {
                        action.queue_info.ignoring = true;
                        action.queue_info.last_queued_time = Some(now);
                        false
                    },
                    Verdict::Held | Verdict::Decided(ConditionResult::Skip) => false,
                    Verdict::Decided(ConditionResult::Ignore) => {
                        action.queue_info.last_queued_time = Some(now);
                        false
                    },
                    Verdict::Decided(ConditionResult::Queue) => {
                        action.queue_info.last_queued_time = Some(now);
                        let is_booster = match action.metadata {
                            Some(ActionMetadata::UseBooster) => true,
                            _ => false,
                        };
                        if is_booster && booster_pending {
                            return false;
                        }
                        if action.queue_to_front {
                            self.queue.push_front(id);
                        } else {
                            self.queue.push_back(id);
                        }
                        match action.condition_kind {
                            Some(ActionCondition::ErdaShowerOffCooldown) => true,
                            _ => false,
                        }
                    },
                }
            },
            None => false,
        }
    }

    /// Judges all actions, in order.
    fn judge_all(
        &self,
        resources: &mut Resources,
        world: &World,
        daily_quest_active: bool,
        double_jump_threshold: i32,
    ) -> (r: (Vec<u32>, Vec<Verdict>, Ghost<Seq<bool>>))
        ensures
            ({
                let passed = r.2@;
                &&& r.0@ == self@.order
                &&& r.0@.no_duplicates()
                &&& r.0@.to_set() == self@.contents.dom()
                &&& self@.may_have_passed(passed)
                &&& r.1@ == self@.verdicts(
                    old(resources).detections,
                    *world,
                    daily_quest_active,
                    passed,
                    double_jump_threshold,
                )
                &&& final(resources).used(
                    *old(resources),
                    self@.all_requests(
                        old(resources).detections,
                        *world,
                        daily_quest_active,
                        passed,
                        double_jump_threshold,
                        self@.order.len(),
                    ),
                )
            }),
    {
        let has_erda = self.queues_erda(world.player.context.priority_action_id());
        let ids = action_ids(&self.actions);
        let mut verdicts: Vec<Verdict> = Vec::new();
        let ghost mut passed: Seq<bool> = seq![];
        let mut i: usize = 0;
        while i < ids.len()
            invariant
                i <= ids.len(),
                ids@ == self@.order,
                ids@.to_set() == self@.contents.dom(),
                has_erda == self@.has_erda(world.player.context@.priority_id()),
                verdicts.len() == i,
                passed.len() == i,
                resources.detections == old(resources).detections,
                forall|j: int|
                    0 <= j < i ==> {
                        let action = self@.contents[#[trigger] self@.order[j]];
                        may_have_passed(
                            action.queue_info.last_queued_time,
                            action.condition.spec_cooldown_millis() as u128,
                            passed[j],
                        )
                    },
                forall|j: int|
                    0 <= j < i ==> #[trigger] verdicts@[j] == self@.verdict(
                        old(resources).detections,
                        *world,
                        daily_quest_active,
                        self@.order[j],
                        passed[j],
                        double_jump_threshold,
                    ),
                resources.used(
                    *old(resources),
                    self@.all_requests(
                        old(resources).detections,
                        *world,
                        daily_quest_active,
                        passed,
                        double_jump_threshold,
                        i as nat,
                    ),
                ),
            decreases ids.len() - i,
        {
            assert(ids@.to_set().contains(ids@[i as int]));
            let (verdict, Ghost(has_passed)) = self.judge(
                resources,
                world,
                daily_quest_active,
                double_jump_threshold,
                has_erda,
                ids[i],
            );
            verdicts.push(verdict);
            proof {
                let longer = passed.push(has_passed);
                requests_of_prefix(
                    self@,
                    old(resources).detections,
                    *world,
                    daily_quest_active,
                    passed,
                    longer,
                    double_jump_threshold,
                    i as nat,
                );
                passed = longer;
            }
            i += 1;
        }
        (ids, verdicts, Ghost(passed))
    }

    /// Queues the actions whose time has come. Whether an action that waits for the Erda Shower
    /// skill was queued.
    ///
    /// The queued actions are not given to the player yet.
    pub fn rotate_actions(
        &mut self,
        resources: &mut Resources,
        world: &World,
        daily_quest_active: bool,
        double_jump_threshold: i32,
    ) -> (r: bool)
        requires
            old(self)@.wf(),
        ensures
            exists|passed: Seq<bool>, now: Instant| #[trigger]
                rotated(
                    old(self)@,
                    final(self)@,
                    *old(resources),
                    *final(resources),
                    *world,
                    daily_quest_active,
                    double_jump_threshold,
                    passed,
                    now,
                    r,
                ),
            final(self)@.wf(),
    {
        let (ids, verdicts, Ghost(passed)) = self.judge_all(
            resources,
            world,
            daily_quest_active,
            double_jump_threshold,
        );
        let now = Instant::now();
        proof {
            assert forall|i: int| 0 <= i < ids.len() implies self@.contents.contains_key(
                #[trigger] ids@[i],
            ) by {
                assert(ids@.to_set().contains(ids@[i]));
            }
        }
        let queued_erda = self.carry_out(
            world.player.context.priority_action_id(),
            &ids,
            &verdicts,
            now,
        );
        proof {
            assert(rotated(
                old(self)@,
                self@,
                *old(resources),
                *resources,
                *world,
                daily_quest_active,
                double_jump_threshold,
                passed,
                now,
                queued_erda,
            ));
            carrying_out_keeps_actions(
                Judged { contents: old(self)@.contents, queue: old(self)@.queue, queued_erda: false },
                world.player.context@.priority_id(),
                ids@,
                verdicts@,
                now,
                ids@.len(),
            );
        }
        queued_erda
    }

    /// Gives the player the first side-loaded action. Whether there was one.
    pub fn rotate_side_action(&mut self, player_context: &mut PlayerContext) -> (r: bool)
        requires
            old(self)@.wf(),
        ensures
            r == (old(self)@.side.len() > 0),
            r ==> (final(self)@, final(player_context)@) == old(self)@.side_started(
                old(player_context)@,
            ),
            !r ==> *final(self) == *old(self) && *final(player_context) == *old(player_context),
            final(self)@.wf(),
            final(self).actions == old(self).actions,
    {
        let ghost before = self@;
        if self.side_queue.len() == 0 {
            assert(before.side.len() == 0);
            return false;
        }
        match self.side_queue.pop_front() {
            Some(action) => {
                assert(before.side[0] == action@);
                assert(self@.side == before.side.skip(1));
                assert forall|i: int| 0 <= i < self@.side.len() implies (
                #[trigger] self@.side[i]) is Single by {
                    assert(before.side[i + 1] is Single);
                }
                match action {
                    RotatorAction::Single(action) => {
                        player_context.set_priority_action(None, action);
                    },
                    RotatorAction::Linked(_) => {},
                }
                true
            },
            None => false,
        }
    }

    /// Gives the player the next queued action.
    ///
    /// As long as a row of linked actions in rotation is being performed, or the player must not
    /// be interrupted, nothing happens. A row that takes precedence is gone through first, then
    /// the side-loaded actions, and then the queue.
    pub fn rotate_queue(
        &mut self,
        normal: &NormalRotation,
        player: &mut PlayerEntity,
        double_jump_threshold: i32,
    )
        requires
            old(self)@.wf(),
        ensures
            (final(self)@, final(player).context@) == old(self)@.queue_rotated(
                normal@,
                old(player).state,
                old(player).context@,
                double_jump_threshold,
            ),
            final(player).state == old(player).state,
            final(self)@.wf(),
    {
        let ghost before = self@;
        if self.queue.len() == 0 && self.side_queue.len() == 0
            && self.queuing_linked_action.is_none() {
            assert(before.side.len() == 0);
            return ;
        }
        if !player.state.can_override_current_state(
            player.context.last_known_pos,
            double_jump_threshold,
        ) || normal.has_linked_action_queuing_or_executing(&player.context)
            || self.has_linked_action_executing(&player.context)
            || has_side_loaded_action_executing(&player.context) {
            return ;
        }
        if rotate_queuing_linked_action(
            &mut self.queuing_linked_action,
            &mut player.context,
            true,
        ) {
            assert(self@.contents == before.contents && self@.side == before.side);
            return ;
        }
        if self.rotate_side_action(&mut player.context) {
            return ;
        }
        if self.performs_front_action(&player.context) || self.queue.len() == 0 {
            return ;
        }
        self.start_first(&mut player.context);
    }

    /// Gives the player the first queued action, if it may take over.
    fn start_first(&mut self, player_context: &mut PlayerContext)
        requires
            old(self)@.wf(),
            old(self)@.queue.len() > 0,
        ensures
            (final(self)@, final(player_context)@) == old(self)@.first_started(
                old(player_context)@,
            ),
            final(self)@.wf(),
    {
        let ghost before = self@;
        let id: u32 = self.queue[0];
        let (inner, queue_to_front) = match get_action(&self.actions, id) {
            Some(action) => {
                if player_context.has_priority_action() && !action.queue_to_front {
                    return ;
                }
                (action.inner.clone(), action.queue_to_front)
            },
            None => {
                self.queue.pop_front();
                assert(self@.queue == before.queue.skip(1));
                assert(self@ == (PriorityView { queue: before.queue.skip(1), ..before }));
                return ;
            },
        };
        self.queue.pop_front();
        assert(self@.queue == before.queue.skip(1));
        match inner {
            RotatorAction::Single(inner) => {
                if queue_to_front {
                    if let Some(previous) = player_context.replace_priority_action(
                        Some(id),
                        inner,
                    ) {
                        self.queue.push_front(previous);
                    }
                } else {
                    player_context.set_priority_action(Some(id), inner);
                }
            },
            RotatorAction::Linked(linked) => {
                if queue_to_front {
                    if let Some(previous) = player_context.take_priority_action() {
                        self.queue.push_front(previous);
                    }
                }
                self.queuing_linked_action = Some((id, Box::new(linked)));
                rotate_queuing_linked_action(
                    &mut self.queuing_linked_action,
                    player_context,
                    true,
                );
            },
        }
    }

    fn has_linked_action_executing(&self, player_context: &PlayerContext) -> (r: bool)
        ensures
            r == (player_context@.priority_id() is Some && row_in(
                self@.contents,
                player_context@.priority_id()->0,
            )),
    {
        match player_context.priority_action_id() {
            Some(id) => match get_action(&self.actions, id) {
                Some(action) => match action.inner {
                    RotatorAction::Linked(_) => true,
                    RotatorAction::Single(_) => false,
                },
                None => false,
            },
            None => false,
        }
    }

    fn performs_front_action(&self, player_context: &PlayerContext) -> (r: bool)
        ensures
            r == self@.performs_front(player_context@),
    {
        match player_context.priority_action_id() {
            Some(id) => match get_action(&self.actions, id) {
                Some(action) => action.queue_to_front,
                None => false,
            },
            None => false,
        }
    }
}

/// Whether queuing the actions whose time has come leads from `before` to `after`. `passed` is
/// whether the cooldown of each action has passed, and `now` the time that queued actions are
/// dated with.
pub open spec fn rotated(
    before: PriorityView,
    after: PriorityView,
    resources: Resources,
    resources_after: Resources,
    world: World,
    daily_quest_active: bool,
    double_jump_threshold: i32,
    passed: Seq<bool>,
    now: Instant,
    queued_erda: bool,
) -> bool {
    let judged = before.judged(
        world.player.context@.priority_id(),
        before.verdicts(
            resources.detections,
            world,
            daily_quest_active,
            passed,
            double_jump_threshold,
        ),
        now,
    );
    &&& before.may_have_passed(passed)
    &&& after == before.with_judged(judged)
    &&& queued_erda == judged.queued_erda
    &&& resources_after.used(
        resources,
        before.all_requests(
            resources.detections,
            world,
            daily_quest_active,
            passed,
            double_jump_threshold,
            before.order.len(),
        ),
    )
}

proof fn requests_of_prefix(
    view: PriorityView,
    detections: Detections,
    world: World,
    daily_quest_active: bool,
    passed: Seq<bool>,
    longer: Seq<bool>,
    double_jump_threshold: i32,
    count: nat,
)
    requires
        count <= passed.len(),
        passed.len() <= longer.len(),
        forall|i: int| 0 <= i < passed.len() ==> #[trigger] passed[i] == longer[i],
    ensures
        view.all_requests(
            detections,
            world,
            daily_quest_active,
            passed,
            double_jump_threshold,
            count,
        ) == view.all_requests(
            detections,
            world,
            daily_quest_active,
            longer,
            double_jump_threshold,
            count,
        ),
    decreases count,
{
    if count > 0 {
        requests_of_prefix(
            view,
            detections,
            world,
            daily_quest_active,
            passed,
            longer,
            double_jump_threshold,
            (count - 1) as nat,
        );
        assert(passed[count - 1] == longer[count - 1]);
    }
}

/// Whether two records of actions differ at most in how the actions were queued.
pub open spec fn same_actions(a: Map<u32, PriorityAction>, b: Map<u32, PriorityAction>) -> bool {
    &&& a.dom() =~= b.dom()
    &&& forall|id: u32| #[trigger]
        a.contains_key(id) ==> b[id] == a[id].with_info(b[id].queue_info)
}

/// Carrying out verdicts changes nothing about the actions but how they were queued.
pub proof fn carrying_out_keeps_actions(
    start: Judged,
    player_id: Option<u32>,
    ids: Seq<u32>,
    verdicts: Seq<Verdict>,
    now: Instant,
    count: nat,
)
    requires
        count <= ids.len(),
        forall|i: int| 0 <= i < ids.len() ==> start.contents.contains_key(#[trigger] ids[i]),
    ensures
        same_actions(
            start.contents,
            start.carry_out_all(player_id, ids, verdicts, now, count).contents,
        ),
    decreases count,
{
    if count > 0 {
        carrying_out_keeps_actions(start, player_id, ids, verdicts, now, (count - 1) as nat);
        assert(start.contents.contains_key(ids[count - 1]));
    }
}

} // verus!
