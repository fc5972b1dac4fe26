//! Which priority actions are queued, and in what order they are performed.

use vstd::prelude::*;

use std::time::Instant;

use crate::clock::{millis_passed, time_between, whole_millis};
use crate::ecs::{Detections, Resources, World};
use crate::models::ActionCondition;
use crate::player::actions::PlayerActionView;
use crate::player::context::PlayerContextView;
use crate::player::Player;
use crate::rotator::action::RotatorActionView;
use crate::rotator::condition::{decision, requests, ConditionResult};
use crate::rotator::normal::NormalView;
use crate::rotator::priority::{
    booster_in, booster_pending, erda_in, rotated, ActionMetadata, Judged, PriorityAction,
    PriorityActionQueueInfo, PriorityView, Verdict,
};

use super::park::only_actions_differ;
use super::rotation::rest_follows;

verus! {

/// The id of what the player does with precedence, if it has one.
pub open spec fn precedence_id(context: PlayerContextView) -> Option<u32> {
    match context.priority {
        Some(assigned) => assigned.id,
        None => None,
    }
}

/// Whether an id is that of an action that waits for the Erda Shower skill.
pub open spec fn waits_for_erda(priority: PriorityView, id: u32) -> bool {
    &&& priority.contents.contains_key(id)
    &&& priority.contents[id].condition_kind == Some(ActionCondition::ErdaShowerOffCooldown)
}

/// Whether an id is that of an action the player performs, or that is queued.
pub open spec fn is_underway(priority: PriorityView, player_id: Option<u32>, id: u32) -> bool {
    player_id == Some(id) || exists|i: int|
        0 <= i < priority.queue.len() && #[trigger] priority.queue[i] == id
}

/// Whether an id is that of a row that the player performs, or whose rest is to follow.
pub open spec fn is_row_underway(priority: PriorityView, player_id: Option<u32>, id: u32) -> bool {
    ||| priority.queuing matches Some((row_id, _)) && row_id == id
    ||| player_id == Some(id) && priority.contents.contains_key(id) && priority.contents[id].inner
        is Linked
}

/// An action is ignored while it is underway. Of those that wait for the Erda Shower skill, all are
/// while any of them is. Of the others, one that quests hold back is held back while there is a
/// quest to do, and all that are left are up to their conditions.
pub proof fn actions_underway_are_ignored(
    priority: PriorityView,
    detections: Detections,
    world: World,
    daily_quest_active: bool,
    id: u32,
    passed: bool,
    threshold: i32,
)
    requires
        priority.contents.contains_key(id),
    ensures
        ({
            let verdict = priority.verdict(
                detections,
                world,
                daily_quest_active,
                id,
                passed,
                threshold,
            );
            let used = priority.requests_for(
                detections,
                world,
                daily_quest_active,
                id,
                passed,
                threshold,
            );
            let player_id = precedence_id(world.player.context@);
            let action = priority.contents[id];
            let underway = if waits_for_erda(priority, id) {
                exists|other: u32|
                    waits_for_erda(priority, other) && #[trigger] is_underway(
                        priority,
                        player_id,
                        other,
                    )
            } else {
                is_underway(priority, player_id, id)
            };
            let ignored = underway || is_row_underway(priority, player_id, id);
            let held = daily_quest_active && action.suppress_during_daily_quest;
            &&& verdict is Ignored <==> ignored
            &&& verdict is Held <==> !ignored && held
            &&& verdict matches Verdict::Decided(result) ==> result == decision(
                action.condition,
                detections,
                world,
                action.queue_info.last_queued_time is Some,
                passed,
                threshold,
            )
            &&& ignored || held ==> used.len() == 0
            &&& !ignored && !held ==> used == requests(
                action.condition,
                detections,
                world,
                action.queue_info.last_queued_time is Some,
                passed,
                threshold,
            )
        }),
{
    let player_id = precedence_id(world.player.context@);
    assert(player_id == world.player.context@.priority_id());
    if waits_for_erda(priority, id) {
        if exists|other: u32|
            waits_for_erda(priority, other) && #[trigger] is_underway(
                priority,
                player_id,
                other,
            ) {
            let other = choose|other: u32|
                waits_for_erda(priority, other) && #[trigger] is_underway(
                    priority,
                    player_id,
                    other,
                );
            if player_id != Some(other) {
                let i = choose|i: int|
                    0 <= i < priority.queue.len() && #[trigger] priority.queue[i] == other;
                assert(erda_in(priority.contents, priority.queue[i]));
            }
            assert(priority.has_erda(player_id));
        }
        if priority.has_erda(player_id) {
            if player_id is Some && erda_in(
                priority.contents,
                player_id->0,
            ) {
                assert(is_underway(priority, player_id, player_id->0));
            } else {
                let i = choose|i: int|
                    0 <= i < priority.queue.len() && erda_in(
                        priority.contents,
                        #[trigger] priority.queue[i],
                    );
                assert(is_underway(priority, player_id, priority.queue[i]));
            }
        }
    } else {
        if is_underway(priority, player_id, id) && player_id != Some(id) {
            let i = choose|i: int|
                0 <= i < priority.queue.len() && #[trigger] priority.queue[i] == id;
            assert(priority.queue.contains(id));
        }
    }
}

/// Whether a booster is queued, or is what the player uses.
pub open spec fn booster_underway(judged: Judged, player_id: Option<u32>) -> bool {
    exists|id: u32|
        {
            &&& #[trigger] judged.contents.contains_key(id)
            &&& judged.contents[id].metadata == Some(ActionMetadata::UseBooster)
            &&& player_id == Some(id) || judged.queue.contains(id)
        }
}

/// Only an action whose condition says so is queued: in front of all others if it is to go to the
/// front, and behind all others if not. The one exception is a booster while another one is
/// underway. Every action is dated unless it is skipped or held back.
pub proof fn due_actions_are_queued(
    judged: Judged,
    player_id: Option<u32>,
    id: u32,
    verdict: Verdict,
    now: Instant,
)
    requires
        judged.contents.contains_key(id),
    ensures
        ({
            let after = judged.carry_out(player_id, id, verdict, now);
            let action = judged.contents[id];
            let is_booster = action.metadata == Some(ActionMetadata::UseBooster);
            let queues = verdict == Verdict::Decided(ConditionResult::Queue) && !(is_booster
                && booster_underway(judged, player_id));
            let is_erda = action.condition_kind == Some(ActionCondition::ErdaShowerOffCooldown);
            &&& !queues ==> after.queue == judged.queue
            &&& queues ==> {
                &&& after.queue.len() == judged.queue.len() + 1
                &&& action.queue_to_front ==> after.queue[0] == id && after.queue.skip(1)
                    == judged.queue
                &&& !action.queue_to_front ==> after.queue.last() == id && after.queue.drop_last()
                    == judged.queue
            }
            &&& after.queued_erda <==> judged.queued_erda || queues && is_erda
            &&& after.contents.dom() == judged.contents.dom()
            &&& forall|other: u32|
                other != id && judged.contents.contains_key(other)
                    ==> #[trigger] after.contents[other] == judged.contents[other]
            &&& after.contents[id] == PriorityAction {
                queue_info: PriorityActionQueueInfo {
                    ignoring: verdict is Ignored,
                    last_queued_time: if verdict is Held || verdict == Verdict::Decided(
                        ConditionResult::Skip,
                    ) {
                        action.queue_info.last_queued_time
                    } else {
                        Some(now)
                    },
                },
                ..action
            }
        }),
{
    let after = judged.carry_out(player_id, id, verdict, now);
    assert(after.contents.dom() =~= judged.contents.dom());
    assert((seq![id] + judged.queue).skip(1) =~= judged.queue);
    assert(judged.queue.push(id).drop_last() =~= judged.queue);
    let pending = booster_pending(
        judged.contents,
        judged.queue,
        player_id,
    );
    if pending {
        if player_id is Some && booster_in(
            judged.contents,
            player_id->0,
        ) {
            assert(judged.contents.contains_key(player_id->0));
        } else {
            let i = choose|i: int|
                0 <= i < judged.queue.len() && booster_in(
                    judged.contents,
                    #[trigger] judged.queue[i],
                );
            assert(judged.contents.contains_key(judged.queue[i]));
        }
    }
    if booster_underway(judged, player_id) {
        let other = choose|other: u32|
            {
                &&& #[trigger] judged.contents.contains_key(other)
                &&& judged.contents[other].metadata == Some(ActionMetadata::UseBooster)
                &&& player_id == Some(other) || judged.queue.contains(other)
            };
        if player_id != Some(other) {
            let i = judged.queue.index_of(other);
            assert(booster_in(judged.contents, judged.queue[i]));
        }
    }
}

/// The actions are judged and queued one after the other, in their order, each after what the ones
/// before it came to.
pub proof fn actions_are_queued_in_order(
    priority: PriorityView,
    player_id: Option<u32>,
    verdicts: Seq<Verdict>,
    now: Instant,
    count: nat,
)
    requires
        count < priority.order.len(),
    ensures
        ({
            let start = Judged {
                contents: priority.contents,
                queue: priority.queue,
                queued_erda: false,
            };
            let upto = |n: nat| start.carry_out_all(player_id, priority.order, verdicts, now, n);
            &&& upto(0) == start
            &&& upto((count + 1) as nat) == upto(count).carry_out(
                player_id,
                priority.order[count as int],
                verdicts[count as int],
                now,
            )
            &&& priority.judged(player_id, verdicts, now) == upto(priority.order.len())
        }),
{
}

/// All detections that the conditions use are asked for, in the order of their actions.
pub proof fn detections_are_used_in_order(
    priority: PriorityView,
    detections: Detections,
    world: World,
    daily_quest_active: bool,
    passed: Seq<bool>,
    threshold: i32,
    count: nat,
)
    ensures
        priority.all_requests(
            detections,
            world,
            daily_quest_active,
            passed,
            threshold,
            0,
        ).len() == 0,
        priority.all_requests(
            detections,
            world,
            daily_quest_active,
            passed,
            threshold,
            (count + 1) as nat,
        ) == priority.all_requests(
            detections,
            world,
            daily_quest_active,
            passed,
            threshold,
            count,
        ) + priority.requests_for(
            detections,
            world,
            daily_quest_active,
            priority.order[count as int],
            passed[count as int],
            threshold,
        ),
{
}

/// Whether the queue has to wait for the player: its state must not be interrupted, it performs a
/// row or has the rest of one in rotation to do, or it performs an injected action.
pub open spec fn must_wait(
    priority: PriorityView,
    normal: NormalView,
    state: Player,
    context: PlayerContextView,
    threshold: i32,
) -> bool {
    ||| !state.overridable(context.last_known_pos, threshold)
    ||| normal.queuing is Some
    ||| context.normal matches Some(assigned) && assigned.id is Some && exists|i: int|
        0 <= i < normal.actions.len() && (#[trigger] normal.actions[i]).0 == assigned.id->0
            && normal.actions[i].1 is Linked
    ||| context.priority matches Some(assigned) && match assigned.id {
        Some(id) => priority.contents.contains_key(id) && priority.contents[id].inner is Linked,
        None => true,
    }
}

/// Whether the player gets `action` with precedence, and keeps everything else.
pub open spec fn gets_with_precedence(
    before: PlayerContextView,
    after: PlayerContextView,
    id: Option<u32>,
    action: PlayerActionView,
) -> bool {
    &&& only_actions_differ(before, after)
    &&& after.normal == before.normal
    &&& after.reset_to_idle_next_update
    &&& after.priority matches Some(assigned)
    &&& assigned.id == id
    &&& assigned.action == action
}

/// While the player must not be interrupted, nothing is performed.
pub proof fn the_queue_waits(
    priority: PriorityView,
    normal: NormalView,
    state: Player,
    context: PlayerContextView,
    threshold: i32,
)
    requires
        must_wait(priority, normal, state, context, threshold),
    ensures
        priority.queue_rotated(normal, state, context, threshold) == (priority, context),
{
    assert(context.priority_id() == precedence_id(context));
}

/// Otherwise the rest of a row comes first, and then an injected action, whatever is queued.
pub proof fn rows_and_injected_actions_come_first(
    priority: PriorityView,
    normal: NormalView,
    state: Player,
    context: PlayerContextView,
    threshold: i32,
)
    requires
        !must_wait(priority, normal, state, context, threshold),
        priority.wf(),
        priority.queuing is Some || priority.side.len() > 0,
    ensures
        ({
            let (after, context_after) = priority.queue_rotated(normal, state, context, threshold);
            &&& after.contents == priority.contents
            &&& after.order == priority.order
            &&& after.queue == priority.queue
            &&& match priority.queuing {
                Some((id, row)) => {
                    &&& gets_with_precedence(context, context_after, Some(id), row[0])
                    &&& rest_follows(after.queuing, id, row)
                    &&& after.side == priority.side
                },
                None => {
                    &&& priority.side[0] matches RotatorActionView::Single(action)
                    &&& gets_with_precedence(context, context_after, None, action)
                    &&& after.queuing is None
                    &&& after.side == priority.side.skip(1)
                },
            }
        }),
{
    assert(context.priority_id() == precedence_id(context));
    assert(context.normal_id() == match context.normal {
        Some(assigned) => assigned.id,
        None => None,
    });
    assert(!priority.blocked(normal, state, context, threshold));
}

/// Then comes the first of the queue. It waits if the player performs one that went to the front,
/// or if the player performs anything and it is not to go to the front itself. One that is unknown
/// is dropped. When it starts, it leaves the queue, and what the player performed until then goes
/// back to the front. Of a row the first action starts, with the rest to follow.
pub proof fn the_first_of_the_queue_is_performed(
    priority: PriorityView,
    normal: NormalView,
    state: Player,
    context: PlayerContextView,
    threshold: i32,
)
    requires
        !must_wait(priority, normal, state, context, threshold),
        priority.queuing is None,
        priority.side.len() == 0,
    ensures
        ({
            let (after, context_after) = priority.queue_rotated(normal, state, context, threshold);
            let performing = precedence_id(context);
            let in_front = performing matches Some(id) && priority.contents.contains_key(id)
                && priority.contents[id].queue_to_front;
            let id = priority.queue[0];
            let action = priority.contents[id];
            &&& after.contents == priority.contents
            &&& after.order == priority.order
            &&& after.side == priority.side
            &&& if priority.queue.len() == 0 || in_front {
                after == priority && context_after == context
            } else if !priority.contents.contains_key(id) {
                &&& after.queue == priority.queue.skip(1)
                &&& after.queuing is None
                &&& context_after == context
            } else if context.priority is Some && !action.queue_to_front {
                after == priority && context_after == context
            } else {
                &&& performing is None ==> after.queue == priority.queue.skip(1)
                &&& performing matches Some(previous) ==> after.queue == seq![previous]
                    + priority.queue.skip(1)
                &&& match action.inner@ {
                    RotatorActionView::Single(single) => {
                        &&& gets_with_precedence(context, context_after, Some(id), single)
                        &&& after.queuing is None
                    },
                    RotatorActionView::Linked(row) => {
                        &&& gets_with_precedence(context, context_after, Some(id), row[0])
                        &&& rest_follows(after.queuing, id, row)
                    },
                }
            }
        }),
{
    assert(context.priority_id() == precedence_id(context));
    assert(context.normal_id() == match context.normal {
        Some(assigned) => assigned.id,
        None => None,
    });
    assert(!priority.blocked(normal, state, context, threshold));
}

/// Whether an action has waited long enough is asked for each one, counted from when it was last
/// queued and for as long as its condition says. One that was never queued has.
pub proof fn each_action_waits_for_itself(priority: PriorityView, passed: Seq<bool>, i: int)
    requires
        priority.may_have_passed(passed),
        0 <= i < priority.order.len(),
    ensures
        passed.len() == priority.order.len(),
        ({
            let action = priority.contents[priority.order[i]];
            let millis = action.condition.spec_cooldown_millis();
            match action.queue_info.last_queued_time {
                Some(since) => exists|now: Instant|
                    passed[i] <==> whole_millis(#[trigger] time_between(now, since)) >= millis,
                None => passed[i],
            }
        }),
{
    let action = priority.contents[priority.order[i]];
    let millis = action.condition.spec_cooldown_millis();
    if let Some(since) = action.queue_info.last_queued_time {
        let now = choose|now: Instant|
            passed[i] == #[trigger] millis_passed(since, now, millis as u128);
        assert(passed[i] <==> whole_millis(time_between(now, since)) >= millis);
    }
}

/// Queuing what is due changes the queue and the records of the actions as the verdicts on them
/// say, uses the detections of their conditions, and does nothing else.
pub proof fn queuing_goes_by_the_verdicts(
    before: PriorityView,
    after: PriorityView,
    resources: Resources,
    resources_after: Resources,
    world: World,
    daily_quest_active: bool,
    threshold: i32,
    passed: Seq<bool>,
    now: Instant,
    queued_erda: bool,
)
    requires
        rotated(
            before,
            after,
            resources,
            resources_after,
            world,
            daily_quest_active,
            threshold,
            passed,
            now,
            queued_erda,
        ),
    ensures
        ({
            let verdicts = before.verdicts(
                resources.detections,
                world,
                daily_quest_active,
                passed,
                threshold,
            );
            let judged = before.judged(precedence_id(world.player.context@), verdicts, now);
            &&& before.may_have_passed(passed)
            &&& after.contents == judged.contents
            &&& after.queue == judged.queue
            &&& after.order == before.order
            &&& after.queuing == before.queuing
            &&& after.side == before.side
            &&& queued_erda == judged.queued_erda
            &&& resources_after.polled@ == resources.polled@ + before.all_requests(
                resources.detections,
                world,
                daily_quest_active,
                passed,
                threshold,
                before.order.len(),
            )
            &&& resources_after.input.events@ == resources.input.events@
            &&& resources_after.detections == resources.detections
            &&& resources_after.draws == resources.draws
            &&& resources_after.notifications@ == resources.notifications@
            &&& resources_after.completed_quests@ == resources.completed_quests@
            &&& resources_after.operation == resources.operation
            &&& resources_after.tick == resources.tick
        }),
{
    assert(world.player.context@.priority_id() == precedence_id(world.player.context@));
}

} // verus!
