//! What holds of rotating as a whole.

use vstd::prelude::*;

use std::time::Instant;

use super::action::{linked_run, linked_run_is_bounded, rotated, RotatorActionView};
use super::builder::{built, configured_actions, Built, Slot};
use super::condition::{Condition, ConditionResult};
use super::daily_quest::{DailyQuestRunView, SavedPathingView};
use super::map::other_than;
use super::monster_park::MonsterParkView;
use super::priority::{
    booster_in, booster_pending, carrying_out_keeps_actions, row_in, same_actions, side_loaded,
    ActionMetadata, Judged, PriorityAction, PriorityActionQueueInfo, PriorityView, Verdict,
};
use super::standing::{fixed, key_press, standing};
use super::{return_to_town, ticked, RotatorBuildArgs, RotatorMode, RotatorView, Tuning};
use crate::ecs::{BuffKind, DetectionRequest, Detections, Draws, Minimap, Resources, World};
use crate::geometry::{Point, Rect};
use crate::models::{
    Action, ActionCondition, ActionKeyWith, Bound, KeyKind, MobbingKey, Platform,
};
use crate::player::actions::{PlayerAction, PlayerActionView};
use crate::player::context::PlayerContextView;
use crate::player::Player;

verus! {

/// Whether the order is that of the actions: each of them once.
pub open spec fn ordered(priority: PriorityView) -> bool {
    &&& priority.order.no_duplicates()
    &&& priority.order.to_set() == priority.contents.dom()
}

/// Whether an id is queued at most once, and neither that of the action being performed nor that
/// of a row with its rest before it.
pub open spec fn distinct(
    queue: Seq<u32>,
    queuing: Option<u32>,
    player_id: Option<u32>,
) -> bool {
    &&& queue.no_duplicates()
    &&& player_id is Some ==> !queue.contains(player_id->0)
    &&& queuing is Some ==> !queue.contains(queuing->0)
}

/// The id of the row with its rest before it.
pub open spec fn row_id(priority: PriorityView) -> Option<u32> {
    match priority.queuing {
        Some((id, _)) => Some(id),
        None => None,
    }
}

/// Whether no action is queued twice, or while it is being performed.
pub open spec fn queue_distinct(priority: PriorityView, player_id: Option<u32>) -> bool {
    distinct(priority.queue, row_id(priority), player_id)
}

/// Whether `verdicts` are such that actions that are to be ignored are.
pub open spec fn sound(
    priority: PriorityView,
    player_id: Option<u32>,
    verdicts: Seq<Verdict>,
) -> bool {
    &&& verdicts.len() == priority.order.len()
    &&& forall|i: int|
        0 <= i < verdicts.len() && #[trigger] verdicts[i] is Decided ==> !priority.ignores(
            player_id,
            priority.order[i],
        )
}

proof fn verdicts_are_sound(
    priority: PriorityView,
    detections: Detections,
    world: World,
    daily_quest_active: bool,
    passed: Seq<bool>,
    double_jump_threshold: i32,
)
    ensures
        sound(
            priority,
            world.player.context@.priority_id(),
            priority.verdicts(
                detections,
                world,
                daily_quest_active,
                passed,
                double_jump_threshold,
            ),
        ),
{
}

/// The state after the verdicts on the first `count` actions.
pub open spec fn judged_upto(
    priority: PriorityView,
    player_id: Option<u32>,
    verdicts: Seq<Verdict>,
    now: Instant,
    count: nat,
) -> Judged {
    (Judged { contents: priority.contents, queue: priority.queue, queued_erda: false })
        .carry_out_all(player_id, priority.order, verdicts, now, count)
}

proof fn order_is_known(priority: PriorityView)
    requires
        ordered(priority),
    ensures
        forall|i: int|
            0 <= i < priority.order.len() ==> priority.contents.contains_key(
                #[trigger] priority.order[i],
            ),
{
    assert forall|i: int| 0 <= i < priority.order.len() implies priority.contents.contains_key(
        #[trigger] priority.order[i],
    ) by {
        assert(priority.order.to_set().contains(priority.order[i]));
    }
}

proof fn not_ignored_is_not_queued(priority: PriorityView, player_id: Option<u32>, id: u32)
    requires
        priority.contents.contains_key(id),
        !priority.ignores(player_id, id),
    ensures
        !priority.queue.contains(id),
        player_id != Some(id),
        row_id(priority) != Some(id),
{
    if priority.contents[id].is_erda() && priority.queue.contains(id) {
        let i = priority.queue.index_of(id);
        assert(super::priority::erda_in(priority.contents, priority.queue[i]));
    }
}

proof fn carrying_out_queues_in_order(
    priority: PriorityView,
    player_id: Option<u32>,
    verdicts: Seq<Verdict>,
    now: Instant,
    count: nat,
)
    requires
        ordered(priority),
        queue_distinct(priority, player_id),
        sound(priority, player_id, verdicts),
        count <= priority.order.len(),
    ensures
        ({
            let judged = judged_upto(priority, player_id, verdicts, now, count);
            &&& distinct(judged.queue, row_id(priority), player_id)
            &&& forall|id: u32| #[trigger]
                judged.queue.contains(id) ==> priority.queue.contains(id) || exists|i: int|
                    0 <= i < count && #[trigger] priority.order[i] == id && verdicts[i]
                        == Verdict::Decided(ConditionResult::Queue)
        }),
    decreases count,
{
    if count > 0 {
        let before = (count - 1) as nat;
        carrying_out_queues_in_order(priority, player_id, verdicts, now, before);
        order_is_known(priority);
        let shorter = judged_upto(priority, player_id, verdicts, now, before);
        let longer = judged_upto(priority, player_id, verdicts, now, count);
        let id = priority.order[count - 1];
        let verdict = verdicts[count - 1];
        if verdict is Decided {
            not_ignored_is_not_queued(priority, player_id, id);
        }
        if longer.queue != shorter.queue {
            assert(verdict == Verdict::Decided(ConditionResult::Queue));
            assert(!shorter.queue.contains(id)) by {
                if shorter.queue.contains(id) {
                    let i = choose|i: int|
                        0 <= i < before && #[trigger] priority.order[i] == id && verdicts[i]
                            == Verdict::Decided(ConditionResult::Queue);
                    assert(priority.order[i] == priority.order[count - 1]);
                }
            }
            assert forall|other: u32| #[trigger] longer.queue.contains(other) implies other == id
                || shorter.queue.contains(other) by {
                let i = longer.queue.index_of(other);
                if longer.queue == seq![id] + shorter.queue {
                    if i > 0 {
                        assert(shorter.queue[i - 1] == other);
                    }
                } else {
                    assert(longer.queue == shorter.queue.push(id));
                    if i < shorter.queue.len() {
                        assert(shorter.queue[i] == other);
                    }
                }
            }
            assert(longer.queue.no_duplicates()) by {
                if longer.queue == seq![id] + shorter.queue {
                    assert forall|i: int, j: int|
                        0 <= i < j < longer.queue.len() implies longer.queue[i]
                        != longer.queue[j] by {
                        assert(longer.queue[j] == shorter.queue[j - 1]);
                        if i > 0 {
                            assert(longer.queue[i] == shorter.queue[i - 1]);
                        }
                    }
                } else {
                    assert(longer.queue == shorter.queue.push(id));
                }
            }
            assert forall|other: u32| #[trigger] longer.queue.contains(other) implies
                priority.queue.contains(other) || exists|i: int|
                0 <= i < count && #[trigger] priority.order[i] == other && verdicts[i]
                    == Verdict::Decided(ConditionResult::Queue) by {
                if other == id {
                    assert(priority.order[count - 1] == id);
                } else if !priority.queue.contains(other) {
                    let i = choose|i: int|
                        0 <= i < before && #[trigger] priority.order[i] == other && verdicts[i]
                            == Verdict::Decided(ConditionResult::Queue);
                    assert(priority.order[i] == other);
                }
            }
        } else {
            assert forall|other: u32| #[trigger] longer.queue.contains(other) implies
                priority.queue.contains(other) || exists|i: int|
                0 <= i < count && #[trigger] priority.order[i] == other && verdicts[i]
                    == Verdict::Decided(ConditionResult::Queue) by {
                assert(shorter.queue.contains(other));
                if !priority.queue.contains(other) {
                    let i = choose|i: int|
                        0 <= i < before && #[trigger] priority.order[i] == other && verdicts[i]
                            == Verdict::Decided(ConditionResult::Queue);
                    assert(priority.order[i] == other);
                }
            }
        }
    }
}

/// An action is newly queued only if its condition says so. In particular one that is in the
/// queue already, being performed, or held back because of a daily quest, is not.
pub proof fn only_due_actions_are_queued(
    priority: PriorityView,
    detections: Detections,
    world: World,
    daily_quest_active: bool,
    passed: Seq<bool>,
    double_jump_threshold: i32,
    now: Instant,
    id: u32,
)
    requires
        ordered(priority),
        queue_distinct(priority, world.player.context@.priority_id()),
    ensures
        ({
            let player_id = world.player.context@.priority_id();
            let verdicts = priority.verdicts(
                detections,
                world,
                daily_quest_active,
                passed,
                double_jump_threshold,
            );
            let queue = priority.judged(player_id, verdicts, now).queue;
            queue.contains(id) && !priority.queue.contains(id) ==> {
                &&& priority.contents.contains_key(id)
                &&& player_id != Some(id)
                &&& !priority.ignores(player_id, id)
                &&& !priority.holds(daily_quest_active, id)
                &&& exists|i: int|
                    0 <= i < priority.order.len() && #[trigger] priority.order[i] == id
                        && verdicts[i] == Verdict::Decided(ConditionResult::Queue)
            }
        }),
{
    let player_id = world.player.context@.priority_id();
    let verdicts = priority.verdicts(
        detections,
        world,
        daily_quest_active,
        passed,
        double_jump_threshold,
    );
    verdicts_are_sound(
        priority,
        detections,
        world,
        daily_quest_active,
        passed,
        double_jump_threshold,
    );
    carrying_out_queues_in_order(priority, player_id, verdicts, now, priority.order.len());
    order_is_known(priority);
    let queue = priority.judged(player_id, verdicts, now).queue;
    if queue.contains(id) && !priority.queue.contains(id) {
        let i = choose|i: int|
            0 <= i < priority.order.len() && #[trigger] priority.order[i] == id && verdicts[i]
                == Verdict::Decided(ConditionResult::Queue);
        assert(priority.order[i] == id);
        not_ignored_is_not_queued(priority, player_id, id);
    }
}

proof fn going_through_the_queue_keeps_it_distinct(
    rotator: RotatorView,
    state: Player,
    context: PlayerContextView,
)
    requires
        queue_distinct(rotator.priority, context.priority_id()),
    ensures
        ({
            let (after, context_after) = rotator.dequeued(state, context);
            queue_distinct(after.priority, context_after.priority_id())
        }),
{
    let before = rotator.priority;
    let (after, context_after) = rotator.dequeued(state, context);
    if before.queue.len() > 0 {
        let popped = before.queue.skip(1);
        let id = before.queue[0];
        assert(before.queue.contains(id));
        assert forall|other: u32| #[trigger] popped.contains(other) implies before.queue.contains(
            other,
        ) && other != id by {
            let i = popped.index_of(other);
            assert(before.queue[i + 1] == other);
        }
        assert(popped.no_duplicates());
        if context.priority_id() is Some {
            let previous = context.priority_id()->0;
            let swapped = seq![previous] + popped;
            assert forall|other: u32| #[trigger] swapped.contains(other) implies other == previous
                || popped.contains(other) by {
                let i = swapped.index_of(other);
                if i > 0 {
                    assert(popped[i - 1] == other);
                }
            }
            assert forall|i: int, j: int| 0 <= i < j < swapped.len() implies swapped[i]
                != swapped[j] by {
                assert(swapped[j] == popped[j - 1]);
                assert(popped.contains(popped[j - 1]));
                if i > 0 {
                    assert(swapped[i] == popped[i - 1]);
                }
            }
            assert(swapped.no_duplicates());
        }
    }
}

/// A tick queues no action twice, nor one that is being performed.
pub proof fn queue_stays_distinct(
    before: RotatorView,
    after: RotatorView,
    resources: Resources,
    resources_after: Resources,
    world: World,
    world_after: World,
    passed: Seq<bool>,
    now: Instant,
)
    requires
        ticked(
            before,
            after,
            resources,
            resources_after,
            world,
            world_after,
            passed,
            now,
        ),
        ordered(before.priority),
        queue_distinct(before.priority, world.player.context@.priority_id()),
    ensures
        queue_distinct(after.priority, world_after.player.context@.priority_id()),
{
    let context = world.player.context@;
    let player_id = context.priority_id();
    let active = before.daily_quest.active();
    let threshold = before.tuning.double_jump_threshold;
    let verdicts = before.priority.verdicts(
        resources.detections,
        world,
        active,
        passed,
        threshold,
    );
    verdicts_are_sound(
        before.priority,
        resources.detections,
        world,
        active,
        passed,
        threshold,
    );
    carrying_out_queues_in_order(
        before.priority,
        player_id,
        verdicts,
        now,
        before.priority.order.len(),
    );
    let judged = before.priority.judged(player_id, verdicts, now);
    let (queued, queued_context) = before.queued(
        context,
        before.priority.with_judged(judged),
        judged.queued_erda,
    );
    assert(queue_distinct(queued.priority, queued_context.priority_id()));
    going_through_the_queue_keeps_it_distinct(queued, world.player.state, queued_context);
    let (dequeued, dequeued_context) = queued.dequeued(world.player.state, queued_context);
    turning_leaves_the_queue_alone(
        dequeued,
        resources.detections,
        resources.draws,
        dequeued_context,
        world.minimap.context.platforms@,
        world.minimap.state,
    );
}

/// Whether the action that takes precedence is kept, or there is a new one without an id where
/// there was none.
pub open spec fn keeps_or_side_loads(before: PlayerContextView, after: PlayerContextView) -> bool {
    ||| after.priority == before.priority
    ||| before.priority is None && after.priority is Some && after.priority_id() is None
}

proof fn monster_park_keeps_or_side_loads(
    park: MonsterParkView,
    detections: Detections,
    context: PlayerContextView,
    minimap: Minimap,
    key: MobbingKey,
    tuning: Tuning,
)
    ensures
        keeps_or_side_loads(
            context,
            park.rotated(detections, context, minimap, key, tuning).context,
        ),
{
    if let Minimap::Idle(idle) = minimap {
        let scanned = park.scanned(detections.monster_park_enemies, idle.bbox);
        let (pursued, looks) = if context.normal is Some {
            scanned.pursued()
        } else {
            (scanned, true)
        };
        let free = if context.normal is Some {
            context.without_normal()
        } else {
            context
        };
        if looks && free.priority is None {
            let requests = seq![DetectionRequest::MonsterParkEnemies(idle.bbox)];
            let outcome = pursued.free(detections, free, idle.bbox, key, tuning, requests);
            assert(keeps_or_side_loads(free, outcome.context));
        }
    }
}

proof fn quests_keep_or_side_load(
    rotator: RotatorView,
    detections: Detections,
    draws: Draws,
    context: PlayerContextView,
    platforms: Seq<Platform>,
    minimap: Minimap,
)
    ensures
        ({
            let outcome = rotator.quest_rotated(detections, draws, context, platforms, minimap);
            &&& outcome.rotator.priority.queue == rotator.priority.queue
            &&& outcome.rotator.priority.queuing == rotator.priority.queuing
            &&& outcome.rotator.priority.contents == rotator.priority.contents
            &&& outcome.rotator.priority.order == rotator.priority.order
            &&& keeps_or_side_loads(context, outcome.context)
        }),
{
}

/// Rotating the daily quests or in a mode leaves the queue and the actions alone. The player's
/// action is kept, unless there is none: then it may get one without an id.
pub proof fn turning_leaves_the_queue_alone(
    rotator: RotatorView,
    detections: Detections,
    draws: Draws,
    context: PlayerContextView,
    platforms: Seq<Platform>,
    minimap: Minimap,
)
    ensures
        ({
            let outcome = rotator.turned(detections, draws, context, platforms, minimap);
            &&& outcome.rotator.priority.queue == rotator.priority.queue
            &&& outcome.rotator.priority.queuing == rotator.priority.queuing
            &&& outcome.rotator.priority.contents == rotator.priority.contents
            &&& outcome.rotator.priority.order == rotator.priority.order
            &&& keeps_or_side_loads(context, outcome.context)
        }),
{
    if rotator.daily_quest.active() {
        quests_keep_or_side_load(rotator, detections, draws, context, platforms, minimap);
    } else {
        modes_keep_or_side_load(rotator, detections, draws, context, platforms, minimap);
    }
}

proof fn modes_keep_or_side_load(
    rotator: RotatorView,
    detections: Detections,
    draws: Draws,
    context: PlayerContextView,
    platforms: Seq<Platform>,
    minimap: Minimap,
)
    ensures
        ({
            let outcome = rotator.mode_rotated(detections, draws, context, platforms, minimap);
            &&& outcome.rotator.priority == rotator.priority
            &&& keeps_or_side_loads(context, outcome.context)
        }),
{
    match rotator.normal_rotate_mode {
        RotatorMode::MonsterPark(key, _) => {
            monster_park_keeps_or_side_loads(
                rotator.monster_park,
                detections,
                context,
                minimap,
                key,
                rotator.tuning,
            );
        },
        _ => {},
    }
}

/// Whether at most one booster is queued or being used.
pub open spec fn one_booster(
    actions: Map<u32, PriorityAction>,
    queue: Seq<u32>,
    player_id: Option<u32>,
) -> bool {
    &&& forall|i: int, j: int|
        0 <= i < queue.len() && 0 <= j < queue.len() && booster_in(actions, #[trigger] queue[i])
            && booster_in(actions, #[trigger] queue[j]) ==> i == j
    &&& player_id is Some && booster_in(actions, player_id->0) ==> forall|i: int|
        0 <= i < queue.len() ==> !booster_in(actions, #[trigger] queue[i])
}

/// Whether no booster is part of a row.
pub open spec fn rows_have_no_boosters(priority: PriorityView) -> bool {
    &&& forall|id: u32| #[trigger]
        booster_in(priority.contents, id) ==> !row_in(priority.contents, id)
    &&& row_id(priority) is Some ==> !booster_in(priority.contents, row_id(priority)->0)
}

proof fn carrying_out_queues_one_booster(
    priority: PriorityView,
    player_id: Option<u32>,
    verdicts: Seq<Verdict>,
    now: Instant,
    count: nat,
)
    requires
        ordered(priority),
        one_booster(priority.contents, priority.queue, player_id),
        count <= priority.order.len(),
    ensures
        ({
            let judged = judged_upto(priority, player_id, verdicts, now, count);
            &&& same_actions(priority.contents, judged.contents)
            &&& one_booster(priority.contents, judged.queue, player_id)
        }),
    decreases count,
{
    order_is_known(priority);
    let start = Judged { contents: priority.contents, queue: priority.queue, queued_erda: false };
    carrying_out_keeps_actions(start, player_id, priority.order, verdicts, now, count);
    if count > 0 {
        let before = (count - 1) as nat;
        carrying_out_queues_one_booster(priority, player_id, verdicts, now, before);
        let shorter = judged_upto(priority, player_id, verdicts, now, before);
        let longer = judged_upto(priority, player_id, verdicts, now, count);
        let id = priority.order[count - 1];
        assert(priority.contents.contains_key(id));
        assert(shorter.contents.contains_key(id));
        assert forall|other: u32| #[trigger]
            booster_in(priority.contents, other) == booster_in(shorter.contents, other) by {
            assert(priority.contents.contains_key(other) == shorter.contents.contains_key(other));
        }
        if longer.queue != shorter.queue {
            let front = shorter.contents[id].queue_to_front;
            assert(booster_in(priority.contents, id) ==> !booster_pending(
                shorter.contents,
                shorter.queue,
                player_id,
            ));
            assert forall|i: int| 0 <= i < longer.queue.len() implies #[trigger] longer.queue[i]
                == if front {
                if i == 0 {
                    id
                } else {
                    shorter.queue[i - 1]
                }
            } else {
                if i == shorter.queue.len() {
                    id
                } else {
                    shorter.queue[i]
                }
            } by {}
            assert(booster_in(priority.contents, id) ==> forall|i: int|
                0 <= i < shorter.queue.len() ==> !booster_in(
                    priority.contents,
                    #[trigger] shorter.queue[i],
                ));
        }
    }
}

proof fn going_through_the_queue_keeps_one_booster(
    rotator: RotatorView,
    state: Player,
    context: PlayerContextView,
)
    requires
        one_booster(rotator.priority.contents, rotator.priority.queue, context.priority_id()),
        rows_have_no_boosters(rotator.priority),
    ensures
        ({
            let (after, context_after) = rotator.dequeued(state, context);
            &&& after.priority.contents == rotator.priority.contents
            &&& one_booster(
                after.priority.contents,
                after.priority.queue,
                context_after.priority_id(),
            )
            &&& rows_have_no_boosters(after.priority)
        }),
{
    let before = rotator.priority;
    let actions = before.contents;
    let (after, context_after) = rotator.dequeued(state, context);
    if before.queue.len() > 0 {
        let popped = before.queue.skip(1);
        let id = before.queue[0];
        assert forall|i: int| 0 <= i < popped.len() implies #[trigger] popped[i]
            == before.queue[i + 1] by {}
        assert(booster_in(actions, id) ==> forall|i: int|
            0 <= i < popped.len() ==> !booster_in(actions, #[trigger] popped[i]));
        if context.priority_id() is Some {
            let previous = context.priority_id()->0;
            let swapped = seq![previous] + popped;
            assert forall|i: int| 0 <= i < swapped.len() implies #[trigger] swapped[i] == if i
                == 0 {
                previous
            } else {
                popped[i - 1]
            } by {}
            assert(one_booster(actions, swapped, Some(id)));
        }
        assert(one_booster(actions, popped, Some(id)));
        assert(one_booster(actions, popped, context.priority_id()));
    }
}

/// A tick that starts with at most one booster queued or in use ends so, since boosters conflict
/// with each other.
pub proof fn one_booster_at_a_time(
    before: RotatorView,
    after: RotatorView,
    resources: Resources,
    resources_after: Resources,
    world: World,
    world_after: World,
    passed: Seq<bool>,
    now: Instant,
)
    requires
        ticked(
            before,
            after,
            resources,
            resources_after,
            world,
            world_after,
            passed,
            now,
        ),
        ordered(before.priority),
        rows_have_no_boosters(before.priority),
        one_booster(
            before.priority.contents,
            before.priority.queue,
            world.player.context@.priority_id(),
        ),
    ensures
        one_booster(
            after.priority.contents,
            after.priority.queue,
            world_after.player.context@.priority_id(),
        ),
        rows_have_no_boosters(after.priority),
{
    let context = world.player.context@;
    let player_id = context.priority_id();
    let verdicts = before.priority.verdicts(
        resources.detections,
        world,
        before.daily_quest.active(),
        passed,
        before.tuning.double_jump_threshold,
    );
    carrying_out_queues_one_booster(
        before.priority,
        player_id,
        verdicts,
        now,
        before.priority.order.len(),
    );
    let judged = before.priority.judged(player_id, verdicts, now);
    assert forall|id: u32|
        {
            &&& #[trigger] booster_in(before.priority.contents, id) == booster_in(
                judged.contents,
                id,
            )
            &&& row_in(before.priority.contents, id) == row_in(judged.contents, id)
        } by {
        assert(before.priority.contents.contains_key(id) == judged.contents.contains_key(id));
    }
    let (queued, queued_context) = before.queued(
        context,
        before.priority.with_judged(judged),
        judged.queued_erda,
    );
    assert forall|id: u32| #[trigger] booster_in(queued.priority.contents, id) implies !row_in(
        queued.priority.contents,
        id,
    ) by {
        assert(booster_in(before.priority.contents, id));
    }
    assert(rows_have_no_boosters(queued.priority));
    same_boosters(before.priority.contents, judged.contents, judged.queue, player_id);
    going_through_the_queue_keeps_one_booster(queued, world.player.state, queued_context);
    let (dequeued, dequeued_context) = queued.dequeued(world.player.state, queued_context);
    turning_leaves_the_queue_alone(
        dequeued,
        resources.detections,
        resources.draws,
        dequeued_context,
        world.minimap.context.platforms@,
        world.minimap.state,
    );
}

proof fn same_boosters(
    actions: Map<u32, PriorityAction>,
    others: Map<u32, PriorityAction>,
    queue: Seq<u32>,
    player_id: Option<u32>,
)
    requires
        same_actions(actions, others),
        one_booster(actions, queue, player_id),
    ensures
        one_booster(others, queue, player_id),
{
    assert forall|id: u32| #[trigger] booster_in(others, id) == booster_in(actions, id) by {
        assert(actions.contains_key(id) == others.contains_key(id));
    }
}

/// As long as a row is being performed, in precedence or in rotation, the queue waits. In
/// between two actions of a row that takes precedence, the next one of the row comes first.
pub proof fn rows_are_not_interrupted(
    rotator: RotatorView,
    state: Player,
    context: PlayerContextView,
)
    ensures
        ({
            let (after, context_after) = rotator.dequeued(state, context);
            let performs_row = context.priority_id() is Some && row_in(
                rotator.priority.contents,
                context.priority_id()->0,
            );
            &&& performs_row || rotator.normal.has_row(context) ==> after == rotator
                && context_after == context
            &&& rotator.priority.queuing is Some && context_after != context ==> {
                let (id, row) = rotator.priority.queuing->0;
                context_after == context.with_priority(Some(id), row[0])
            }
        }),
{
}

/// Emptying the queues keeps what was put together, the actions that were added to be performed
/// once, and how far the daily quests have got.
pub proof fn resetting_keeps_progress(rotator: RotatorView)
    ensures
        ({
            let after = rotator.reset();
            &&& after.normal.actions == rotator.normal.actions
            &&& after.priority.contents == rotator.priority.contents
            &&& after.priority.order == rotator.priority.order
            &&& after.priority.side == rotator.priority.side
            &&& after.daily_quest.entries == rotator.daily_quest.entries
            &&& after.daily_quest.index == rotator.daily_quest.index
            &&& after.daily_quest.saved_pathing == rotator.daily_quest.saved_pathing
            &&& after.normal_rotate_mode == rotator.normal_rotate_mode
            &&& after.priority.queue.len() == 0
            &&& after.priority.queuing is None
            &&& after.normal.queuing is None
            &&& after.normal.index == 0
        }),
{
}

/// While halting, the player gets an action only if one was added to be performed once, and
/// nothing but that one.
pub proof fn halting_rotates_side_loaded_actions_only(
    rotator: RotatorView,
    context: PlayerContextView,
)
    requires
        rotator.priority.wf(),
    ensures
        ({
            let (after, context_after) = rotator.halted(context);
            &&& after == RotatorView {
                priority: PriorityView { side: after.priority.side, ..rotator.priority },
                ..rotator
            }
            &&& if rotator.priority.side.len() == 0 || side_loaded(context) {
                &&& after.priority.side == rotator.priority.side
                &&& context_after == context
            } else {
                &&& after.priority.side == rotator.priority.side.skip(1)
                &&& rotator.priority.side[0] matches RotatorActionView::Single(action)
                    && context_after == context.with_priority(None, action)
            }
        }),
{
}

/// How mobbing explores outside of the daily quests: as saved while a run is going on, or else as
/// it does.
pub open spec fn outside_pathing(
    run: DailyQuestRunView,
    context: PlayerContextView,
    platforms: Seq<Platform>,
) -> SavedPathingView {
    match run.saved_pathing {
        Some(saved) => saved,
        None => SavedPathingView { platforms, pathing: context.config.pathing() },
    }
}

proof fn ending_a_quest_restores(
    run: DailyQuestRunView,
    context: PlayerContextView,
    platforms: Seq<Platform>,
)
    requires
        run.wf(),
        run.active(),
    ensures
        ({
            let (context_after, platforms_after) = run.restoring(context, platforms);
            let outside = outside_pathing(run, context, platforms);
            &&& outside_pathing(run.advanced(), context_after, platforms_after) == outside
            &&& !run.advanced().active() ==> {
                &&& run.advanced().saved_pathing is None
                &&& context_after.config.pathing() == outside.pathing
                &&& platforms_after == outside.platforms
            }
        }),
{
}

proof fn hunting_keeps_configuration(
    rotator: RotatorView,
    detections: Detections,
    draws: Draws,
    context: PlayerContextView,
    platforms: Seq<Platform>,
    minimap: Minimap,
    requests: Seq<DetectionRequest>,
)
    ensures
        ({
            let outcome = rotator.quest_hunted(
                detections,
                draws,
                context,
                platforms,
                minimap,
                requests,
            );
            &&& outcome.context.config == context.config
            &&& outcome.platforms == platforms
            &&& outcome.rotator.daily_quest == rotator.daily_quest
        }),
{
}

proof fn attending_keeps_exploring(
    rotator: RotatorView,
    detections: Detections,
    draws: Draws,
    context: PlayerContextView,
    platforms: Seq<Platform>,
    minimap: Minimap,
)
    requires
        rotator.daily_quest.wf(),
        rotator.daily_quest.active(),
    ensures
        ({
            let outcome = rotator.quest_attended(detections, draws, context, platforms, minimap);
            let run = outcome.rotator.daily_quest;
            let outside = outside_pathing(rotator.daily_quest, context, platforms);
            &&& outside_pathing(run, outcome.context, outcome.platforms) == outside
            &&& !run.active() ==> {
                &&& run.saved_pathing is None
                &&& outcome.context.config.pathing() == outside.pathing
                &&& outcome.platforms == outside.platforms
            }
        }),
{
    let run = rotator.daily_quest;
    let looked = RotatorView { daily_quest: run.looked(detections), ..rotator };
    ending_a_quest_restores(looked.daily_quest, context, platforms);
    hunting_keeps_configuration(
        looked,
        detections,
        draws,
        context,
        platforms,
        minimap,
        run.looking(),
    );
}

/// Doing daily quests does not change how mobbing explores outside of them, and once the last
/// one is over, completed or not, mobbing explores that way again.
pub proof fn exploring_is_restored(
    rotator: RotatorView,
    detections: Detections,
    draws: Draws,
    context: PlayerContextView,
    platforms: Seq<Platform>,
    minimap: Minimap,
)
    requires
        rotator.daily_quest.wf(),
        rotator.daily_quest.active(),
    ensures
        ({
            let outcome = rotator.quest_rotated(detections, draws, context, platforms, minimap);
            let run = outcome.rotator.daily_quest;
            let outside = outside_pathing(rotator.daily_quest, context, platforms);
            &&& outside_pathing(run, outcome.context, outcome.platforms) == outside
            &&& !run.active() ==> {
                &&& run.saved_pathing is None
                &&& outcome.context.config.pathing() == outside.pathing
                &&& outcome.platforms == outside.platforms
            }
        }),
{
    let run = rotator.daily_quest;
    let noted = PlayerContextView { daily_quest_navigate_failed: false, ..context };
    ending_a_quest_restores(run, noted, platforms);
    attending_keeps_exploring(rotator, detections, draws, context, platforms, minimap);
}

/// The daily quests are done one after the other: a tick goes on by at most one quest, a quest is
/// recorded as completed only then, and it is the current one. The assistant halts exactly when
/// the last one is completed, and then returns to town.
pub proof fn quests_are_done_in_order(
    rotator: RotatorView,
    detections: Detections,
    draws: Draws,
    context: PlayerContextView,
    platforms: Seq<Platform>,
    minimap: Minimap,
)
    requires
        rotator.daily_quest.wf(),
        rotator.daily_quest.active(),
    ensures
        ({
            let outcome = rotator.quest_rotated(detections, draws, context, platforms, minimap);
            let run = rotator.daily_quest;
            let after = outcome.rotator.daily_quest;
            let completed = outcome.effects.completed_quests;
            &&& after.entries == run.entries
            &&& after.index == run.index || after.index == run.index + 1
            &&& completed.len() > 0 ==> {
                &&& completed.len() == 1
                &&& completed[0].id == run.current().id
                &&& completed[0].character_id == run.character_id
                &&& after.index == run.index + 1
            }
            &&& outcome.effects.halts <==> completed.len() > 0 && !after.active()
            &&& outcome.effects.halts ==> outcome.rotator.priority.side
                == rotator.priority.side.push(RotatorActionView::Single(return_to_town()))
        }),
{
}

/// The record of how an action was queued once the verdict on it is carried out: dated unless it
/// was skipped or held back, and marked as ignored exactly if it was.
pub open spec fn info_after(
    info: PriorityActionQueueInfo,
    verdict: Verdict,
    now: Instant,
) -> PriorityActionQueueInfo {
    match verdict {
        Verdict::Ignored => PriorityActionQueueInfo {
            ignoring: true,
            last_queued_time: Some(now),
        },
        Verdict::Held | Verdict::Decided(ConditionResult::Skip) => PriorityActionQueueInfo {
            ignoring: false,
            ..info
        },
        _ => PriorityActionQueueInfo { ignoring: false, last_queued_time: Some(now) },
    }
}

/// Every action's record of how it was queued follows from the verdict on it alone.
pub proof fn every_verdict_is_recorded(
    priority: PriorityView,
    player_id: Option<u32>,
    verdicts: Seq<Verdict>,
    now: Instant,
    i: int,
)
    requires
        ordered(priority),
        verdicts.len() == priority.order.len(),
        0 <= i < priority.order.len(),
    ensures
        ({
            let id = priority.order[i];
            let judged = priority.judged(player_id, verdicts, now);
            &&& judged.contents.contains_key(id)
            &&& judged.contents[id] == priority.contents[id].with_info(
                info_after(priority.contents[id].queue_info, verdicts[i], now),
            )
        }),
{
    recorded_upto(priority, player_id, verdicts, now, i, priority.order.len());
}

proof fn recorded_upto(
    priority: PriorityView,
    player_id: Option<u32>,
    verdicts: Seq<Verdict>,
    now: Instant,
    i: int,
    count: nat,
)
    requires
        ordered(priority),
        0 <= i < priority.order.len(),
        count <= priority.order.len(),
    ensures
        ({
            let id = priority.order[i];
            let judged = judged_upto(priority, player_id, verdicts, now, count);
            &&& judged.contents.contains_key(id)
            &&& judged.contents[id] == if i < count {
                priority.contents[id].with_info(
                    info_after(priority.contents[id].queue_info, verdicts[i], now),
                )
            } else {
                priority.contents[id]
            }
        }),
    decreases count,
{
    order_is_known(priority);
    assert(priority.contents.contains_key(priority.order[i]));
    if count > 0 {
        recorded_upto(priority, player_id, verdicts, now, i, (count - 1) as nat);
        assert(priority.order[count - 1] == priority.order[i] ==> i == count - 1);
    }
}

/// An action that is queued to the front takes over from one that is not, which goes back to the
/// front of the queue. It does not take over from another one that is queued to the front.
pub proof fn front_actions_take_over(
    rotator: RotatorView,
    state: Player,
    context: PlayerContextView,
    previous: u32,
)
    requires
        !rotator.priority.blocked(
            rotator.normal,
            state,
            context,
            rotator.tuning.double_jump_threshold,
        ),
        rotator.priority.queuing is None,
        rotator.priority.side.len() == 0,
        rotator.priority.queue.len() > 0,
        rotator.priority.contents.contains_key(rotator.priority.queue[0]),
        rotator.priority.contents[rotator.priority.queue[0]].queue_to_front,
        context.priority_id() == Some(previous),
    ensures
        ({
            let (after, context_after) = rotator.dequeued(state, context);
            let rest = rotator.priority.queue.skip(1);
            if rotator.priority.performs_front(context) {
                after == rotator && context_after == context
            } else {
                &&& after.priority.queue == seq![previous] + rest
                &&& context_after.priority_id() == Some(rotator.priority.queue[0])
            }
        }),
{
}

/// Unless the queue has to wait or a row goes on, the actions that were added to be performed
/// once come before the queue, the first one first.
pub proof fn injected_actions_come_before_the_queue(
    rotator: RotatorView,
    state: Player,
    context: PlayerContextView,
)
    requires
        rotator.priority.wf(),
        !rotator.priority.blocked(
            rotator.normal,
            state,
            context,
            rotator.tuning.double_jump_threshold,
        ),
        rotator.priority.queuing is None,
        rotator.priority.side.len() > 0,
    ensures
        ({
            let (after, context_after) = rotator.dequeued(state, context);
            &&& after.priority.side == rotator.priority.side.skip(1)
            &&& after.priority.queue == rotator.priority.queue
            &&& rotator.priority.side[0] matches RotatorActionView::Single(action)
                && context_after == context.with_priority(None, action)
        }),
{
}

/// As long as there is a daily quest to do, the configured mode has no say.
pub proof fn quests_come_before_the_mode(
    rotator: RotatorView,
    detections: Detections,
    draws: Draws,
    context: PlayerContextView,
    platforms: Seq<Platform>,
    minimap: Minimap,
    mode: RotatorMode,
)
    requires
        rotator.daily_quest.active(),
    ensures
        ({
            let outcome = rotator.turned(detections, draws, context, platforms, minimap);
            let other = RotatorView { normal_rotate_mode: mode, ..rotator };
            let other_outcome = other.turned(detections, draws, context, platforms, minimap);
            &&& outcome.context == other_outcome.context
            &&& outcome.platforms == other_outcome.platforms
            &&& outcome.effects == other_outcome.effects
            &&& outcome.rotator.normal == rotator.normal
            &&& outcome.rotator.monster_park == rotator.monster_park
        }),
{
}

/// A quest whose hunting ground was not reached is skipped: the player neither mobs nor tries
/// again, and the quest is not recorded as completed.
pub proof fn failed_journeys_are_skipped(
    rotator: RotatorView,
    detections: Detections,
    draws: Draws,
    context: PlayerContextView,
    platforms: Seq<Platform>,
    minimap: Minimap,
)
    requires
        rotator.daily_quest.active(),
        rotator.daily_quest.navigating,
        context.priority is None,
        context.daily_quest_navigate_failed,
    ensures
        ({
            let outcome = rotator.quest_rotated(detections, draws, context, platforms, minimap);
            &&& outcome.rotator.daily_quest.index == rotator.daily_quest.index + 1
            &&& !outcome.rotator.daily_quest.navigating
            &&& !outcome.context.daily_quest_navigate_failed
            &&& outcome.context.normal == context.normal
            &&& outcome.context.priority is None
            &&& outcome.effects.completed_quests.len() == 0
            &&& !outcome.effects.halts
        }),
{
}

/// A look that fails or is not over keeps what was seen before, and the notice that a quest is
/// complete stays seen.
pub proof fn failed_looks_keep_what_was_seen(
    run: DailyQuestRunView,
    park: MonsterParkView,
    detections: Detections,
    minimap: Rect,
)
    ensures
        detections.daily_quest_progress !is Ready ==> run.looked(detections).progress
            == run.progress,
        run.complete_popup_detected ==> run.looked(detections).complete_popup_detected,
        detections.monster_park_enemies !is Ready ==> park.scanned(
            detections.monster_park_enemies,
            minimap,
        ) == park,
        detections.monster_park_portals !is Ready ==> park.portal_scanned(
            detections.monster_park_portals,
            minimap,
        ) == park,
{
}

/// Whether the actions that take precedence are in order: each has its place once, none is queued
/// twice or while it is being performed, and at most one booster is queued or in use.
pub open spec fn in_order(priority: PriorityView, player_id: Option<u32>) -> bool {
    &&& ordered(priority)
    &&& queue_distinct(priority, player_id)
    &&& one_booster(priority.contents, priority.queue, player_id)
    &&& rows_have_no_boosters(priority)
}

/// Whether the actions put together so far have their places once, and boosters are not part of
/// rows.
pub open spec fn tidy(built: Built) -> bool {
    &&& built.order.no_duplicates()
    &&& built.order.to_set() == built.contents.dom()
    &&& forall|id: u32| #[trigger] booster_in(built.contents, id) ==> !row_in(built.contents, id)
}

proof fn filtering_keeps_distinct(ids: Seq<u32>, keep: spec_fn(u32) -> bool)
    requires
        ids.no_duplicates(),
    ensures
        ids.filter(keep).no_duplicates(),
    decreases ids.len(),
{
    reveal(Seq::filter);
    if ids.len() > 0 {
        let shorter = ids.drop_last();
        filtering_keeps_distinct(shorter, keep);
        if shorter.filter(keep).contains(ids.last()) {
            shorter.lemma_filter_contains_rev(keep, ids.last());
            let i = shorter.index_of(ids.last());
            assert(ids[i] == ids[ids.len() - 1]);
        }
    }
}

proof fn adding_keeps_tidy(built: Built, slot: Slot)
    requires
        tidy(built),
        slot matches Slot::Priority(action) ==> (action.is_booster() ==> action.inner is Single),
    ensures
        tidy(built.with(slot)),
{
    if let Slot::Priority(action) = slot {
        let id = built.next_id;
        let others = other_than(id);
        let kept = built.order.filter(others);
        let after = built.with(slot);
        filtering_keeps_distinct(built.order, others);
        assert forall|other: u32| #[trigger] kept.contains(other) == (built.order.contains(other)
            && other != id) by {
            if kept.contains(other) {
                let i = kept.index_of(other);
                built.order.lemma_filter_pred(others, i);
                built.order.lemma_filter_contains_rev(others, other);
            }
            if built.order.contains(other) && other != id {
                built.order.lemma_filter_contains(others, built.order.index_of(other));
            }
        }
        assert(after.order.no_duplicates());
        assert forall|other: u32| #[trigger] after.order.to_set().contains(other)
            == after.contents.dom().contains(other) by {
            if after.order.contains(other) && other != id {
                let i = after.order.index_of(other);
                assert(kept[i] == other);
                assert(kept.contains(other));
                assert(built.order.to_set().contains(other));
            }
            if other == id {
                assert(after.order[kept.len() as int] == id);
            } else if built.contents.dom().contains(other) {
                assert(built.order.to_set().contains(other));
                assert(kept.contains(other));
                let i = kept.index_of(other);
                assert(after.order[i] == other);
            }
        }
        assert(after.order.to_set() == after.contents.dom());
        assert forall|other: u32| #[trigger] booster_in(after.contents, other) implies !row_in(
            after.contents,
            other,
        ) by {
            if other != id {
                assert(booster_in(built.contents, other));
            }
        }
    }
}

proof fn adding_buffs_keeps_tidy(built: Built, buffs: Seq<(BuffKind, KeyKind)>, count: nat)
    requires
        tidy(built),
        count <= buffs.len(),
    ensures
        tidy(built.with_buffs(buffs, count)),
    decreases count,
{
    if count > 0 {
        adding_buffs_keeps_tidy(built, buffs, (count - 1) as nat);
        let (buff, key) = buffs[count - 1];
        let action = standing(
            Condition::Buff(buff),
            key_press(key, ActionKeyWith::Stationary, 10, 10),
            Some(ActionMetadata::Buff { kind: buff }),
            true,
        );
        adding_keeps_tidy(
            built.with_buffs(buffs, (count - 1) as nat),
            Slot::Priority(action),
        );
    }
}

proof fn adding_actions_keeps_tidy(
    built: Built,
    actions: Seq<Action>,
    index: int,
    mode: RotatorMode,
    ms_per_tick: u64,
)
    requires
        tidy(built),
        0 <= index,
    ensures
        tidy(built.with_actions(actions, index, mode, ms_per_tick)),
    decreases actions.len() - index,
{
    if index < actions.len() {
        linked_run_is_bounded(actions, index + 1);
        let action = rotated(actions, index, ms_per_tick);
        let condition = actions[index].spec_condition();
        let priority = fixed(action, condition, actions[index].spec_queues_to_front());
        adding_keeps_tidy(built, Slot::Priority(priority));
        adding_keeps_tidy(built, Slot::Normal(action));
        let next = match condition {
            ActionCondition::EveryMillis(_) => built.with(Slot::Priority(priority)),
            ActionCondition::ErdaShowerOffCooldown => {
                built.with_if(mode !is MonsterPark, priority)
            },
            ActionCondition::Any => if mode is AutoMobbing {
                built
            } else {
                built.with(Slot::Normal(action))
            },
            ActionCondition::Linked => built,
        };
        adding_actions_keeps_tidy(
            next,
            actions,
            index + 1 + linked_run(actions, index + 1),
            mode,
            ms_per_tick,
        );
    }
}

proof fn adding_a_standing_action_keeps_tidy(
    built: Built,
    enabled: bool,
    action: PriorityAction,
)
    requires
        tidy(built),
        action.inner is Single,
    ensures
        tidy(built.with_if(enabled, action)),
{
    adding_keeps_tidy(built, Slot::Priority(action));
}

proof fn building_is_tidy(args: RotatorBuildArgs, ms_per_tick: u64, next_id: u32)
    ensures
        tidy(built(args, ms_per_tick, next_id)),
{
    let nothing = Built::nothing(next_id);
    assert(nothing.order.to_set() == nothing.contents.dom());
    assert(tidy(nothing));
    assert forall|other: Built, enabled: bool, action: PriorityAction|
        tidy(other) && action.inner is Single implies tidy(
        #[trigger] other.with_if(enabled, action),
    ) by {
        adding_a_standing_action_keeps_tidy(other, enabled, action);
    }
    let low = nothing.with_low(args);
    assert(tidy(low));
    let actions = configured_actions(args);
    adding_actions_keeps_tidy(low, actions, 0, args.mode, ms_per_tick);
    let middle = low.with_actions(actions, 0, args.mode, ms_per_tick);
    assert forall|other: Built| tidy(other) implies tidy(
        #[trigger] other.with_buffs(args.buffs@, args.buffs@.len()),
    ) by {
        adding_buffs_keeps_tidy(other, args.buffs@, args.buffs@.len());
    }
    let unstuck = standing(Condition::Unstuck, PlayerAction::Unstuck, None, false);
    assert forall|other: Built| tidy(other) implies tidy(
        #[trigger] other.with(Slot::Priority(unstuck)),
    ) by {
        adding_keeps_tidy(other, Slot::Priority(unstuck));
    }
    assert(tidy(middle.with_high(args)));
}

/// Putting actions together puts them in order, whatever the player is doing.
pub proof fn building_puts_in_order(
    rotator: RotatorView,
    args: RotatorBuildArgs,
    player_id: Option<u32>,
)
    ensures
        in_order(rotator.rebuilt(args).priority, player_id),
{
    building_is_tidy(args, rotator.tuning.ms_per_tick, rotator.next_id);
    assert(rotator.rebuilt(args).priority.queue.len() == 0);
}

/// A tick keeps the actions in order.
pub proof fn ticks_stay_in_order(
    before: RotatorView,
    after: RotatorView,
    resources: Resources,
    resources_after: Resources,
    world: World,
    world_after: World,
    passed: Seq<bool>,
    now: Instant,
)
    requires
        ticked(
            before,
            after,
            resources,
            resources_after,
            world,
            world_after,
            passed,
            now,
        ),
        in_order(before.priority, world.player.context@.priority_id()),
    ensures
        in_order(after.priority, world_after.player.context@.priority_id()),
        same_actions(before.priority.contents, after.priority.contents),
{
    queue_stays_distinct(
        before,
        after,
        resources,
        resources_after,
        world,
        world_after,
        passed,
        now,
    );
    one_booster_at_a_time(
        before,
        after,
        resources,
        resources_after,
        world,
        world_after,
        passed,
        now,
    );
    let context = world.player.context@;
    let verdicts = before.priority.verdicts(
        resources.detections,
        world,
        before.daily_quest.active(),
        passed,
        before.tuning.double_jump_threshold,
    );
    carrying_out_queues_one_booster(
        before.priority,
        context.priority_id(),
        verdicts,
        now,
        before.priority.order.len(),
    );
    let judged = before.priority.judged(context.priority_id(), verdicts, now);
    let (queued, queued_context) = before.queued(
        context,
        before.priority.with_judged(judged),
        judged.queued_erda,
    );
    let (dequeued, dequeued_context) = queued.dequeued(world.player.state, queued_context);
    turning_leaves_the_queue_alone(
        dequeued,
        resources.detections,
        resources.draws,
        dequeued_context,
        world.minimap.context.platforms@,
        world.minimap.state,
    );
}

/// Emptying the queues, adding an action to be performed once, and the player's action coming to
/// an end keep the actions in order. So does a tick while halting.
pub proof fn everything_else_stays_in_order(
    rotator: RotatorView,
    context: PlayerContextView,
    action: PlayerActionView,
)
    requires
        in_order(rotator.priority, context.priority_id()),
    ensures
        in_order(rotator.reset().priority, context.priority_id()),
        in_order(rotator.injected(action).priority, context.priority_id()),
        in_order(rotator.priority, context.with_next_completed().priority_id()),
        in_order(rotator.priority, None),
        ({
            let (after, context_after) = rotator.halted(context);
            rotator.priority.wf() ==> in_order(after.priority, context_after.priority_id())
        }),
{
}

/// Whether all looks for mobs among the given detections are within `area`.
pub open spec fn looks_within(requests: Seq<DetectionRequest>, area: Option<Bound>) -> bool {
    forall|i: int|
        0 <= i < requests.len() ==> match #[trigger] requests[i] {
            DetectionRequest::Mobs { bound, .. } => area == Some(bound),
            _ => true,
        }
}

proof fn conditions_look_for_no_mobs(
    priority: PriorityView,
    detections: Detections,
    world: World,
    daily_quest_active: bool,
    passed: Seq<bool>,
    double_jump_threshold: i32,
    count: nat,
)
    ensures
        looks_within(
            priority.all_requests(
                detections,
                world,
                daily_quest_active,
                passed,
                double_jump_threshold,
                count,
            ),
            None,
        ),
    decreases count,
{
    if count > 0 {
        conditions_look_for_no_mobs(
            priority,
            detections,
            world,
            daily_quest_active,
            passed,
            double_jump_threshold,
            (count - 1) as nat,
        );
    }
}

proof fn turning_hunts_in_the_area(
    rotator: RotatorView,
    detections: Detections,
    draws: Draws,
    context: PlayerContextView,
    platforms: Seq<Platform>,
    minimap: Minimap,
)
    ensures
        ({
            let outcome = rotator.turned(detections, draws, context, platforms, minimap);
            looks_within(outcome.effects.requests, rotator.hunted_area())
        }),
{
}

/// In a tick, mobs are looked for only in the area that the position to explore is drawn for.
pub proof fn mobs_are_looked_for_in_the_hunted_area(
    before: RotatorView,
    after: RotatorView,
    resources: Resources,
    resources_after: Resources,
    world: World,
    world_after: World,
    passed: Seq<bool>,
    now: Instant,
)
    requires
        ticked(
            before,
            after,
            resources,
            resources_after,
            world,
            world_after,
            passed,
            now,
        ),
    ensures
        resources.polled@.len() <= resources_after.polled@.len(),
        looks_within(
            resources_after.polled@.skip(resources.polled@.len() as int),
            before.hunted_area(),
        ),
{
    let context = world.player.context@;
    let judged = before.priority.judged(
        context.priority_id(),
        before.priority.verdicts(
            resources.detections,
            world,
            before.daily_quest.active(),
            passed,
            before.tuning.double_jump_threshold,
        ),
        now,
    );
    let (queued, queued_context) = before.queued(
        context,
        before.priority.with_judged(judged),
        judged.queued_erda,
    );
    let (dequeued, dequeued_context) = queued.dequeued(world.player.state, queued_context);
    assert(dequeued.hunted_area() == before.hunted_area());
    conditions_look_for_no_mobs(
        before.priority,
        resources.detections,
        world,
        before.daily_quest.active(),
        passed,
        before.tuning.double_jump_threshold,
        before.priority.order.len(),
    );
    turning_hunts_in_the_area(
        dequeued,
        resources.detections,
        resources.draws,
        dequeued_context,
        world.minimap.context.platforms@,
        world.minimap.state,
    );
    let requests = before.priority.all_requests(
        resources.detections,
        world,
        before.daily_quest.active(),
        passed,
        before.tuning.double_jump_threshold,
        before.priority.order.len(),
    );
    let outcome = dequeued.turned(
        resources.detections,
        resources.draws,
        dequeued_context,
        world.minimap.context.platforms@,
        world.minimap.state,
    );
    assert(resources_after.polled@.skip(resources.polled@.len() as int) == requests
        + outcome.effects.requests);
}

/// Without an area to hunt in, nothing depends on the position to explore.
pub proof fn exploring_takes_an_area(
    rotator: RotatorView,
    detections: Detections,
    draws: Draws,
    other: Point,
    context: PlayerContextView,
    platforms: Seq<Platform>,
    minimap: Minimap,
)
    requires
        rotator.hunted_area() is None,
    ensures
        rotator.turned(detections, draws, context, platforms, minimap) == rotator.turned(
            detections,
            Draws { pathing_point: other, ..draws },
            context,
            platforms,
            minimap,
        ),
{
}

} // verus!
