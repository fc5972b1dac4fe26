//! How daily quests are done, and what a tick of the rotator comes to.

use vstd::prelude::*;

use std::time::Instant;

use crate::daily::{DailyQuestEntry, DailyQuestNavigationView};
use crate::ecs::{
    DetectionRequest, DetectionTask, Detections, Draws, Minimap, NotificationKind, OperationState,
    Resources, Update, World,
};
use crate::models::Platform;
use crate::player::actions::{Booster, Panic, PanicTo, PlayerAction, PlayerActionView};
use crate::player::context::PlayerContextView;
use crate::rotator::action::RotatorActionView;
use crate::rotator::builder::{built, configured_actions};
use crate::rotator::daily_quest::{
    routes_are_short, shared_dropdowns, skipped_dropdowns_show_the_selections, target_reached,
    DailyQuestRunView,
};
use crate::rotator::mobbing::{ping_ponged, AutoMobbing};
use crate::rotator::monster_park::{entry_rotated, MonsterParkView};
use crate::rotator::priority::PriorityView;
use crate::rotator::{
    ticked, RotationOutcome, RotatorBuildArgs, RotatorMode, RotatorView, Tuning,
};

use super::park::only_actions_differ;
use super::queueing::{gets_with_precedence, precedence_id};

verus! {

/// Whether there is a quest to do.
pub open spec fn has_quest(run: DailyQuestRunView) -> bool {
    run.index < run.entries.len()
}

/// The quest to do.
pub open spec fn quest(run: DailyQuestRunView) -> DailyQuestEntry {
    run.entries[run.index]
}

/// Whether nothing happens.
pub open spec fn nothing_happens(
    outcome: RotationOutcome,
    rotator: RotatorView,
    context: PlayerContextView,
    platforms: Seq<Platform>,
) -> bool {
    &&& outcome.rotator == rotator
    &&& outcome.context == context
    &&& outcome.platforms == platforms
    &&& has_no_effects(outcome)
    &&& outcome.effects.requests.len() == 0
}

/// Whether nothing is recorded, no notice is sent, and the assistant goes on.
pub open spec fn has_no_effects(outcome: RotationOutcome) -> bool {
    &&& outcome.effects.notifications.len() == 0
    &&& outcome.effects.completed_quests.len() == 0
    &&& !outcome.effects.halts
}

/// Whether the player's context is the same up to its actions, the wish to start over, how mobbing
/// explores, and the note about a failed journey.
pub open spec fn same_but_for_the_quest(
    before: PlayerContextView,
    after: PlayerContextView,
) -> bool {
    after == PlayerContextView {
        config: after.config,
        normal: after.normal,
        priority: after.priority,
        reset_to_idle_next_update: after.reset_to_idle_next_update,
        daily_quest_navigate_failed: after.daily_quest_navigate_failed,
        ..before
    }
}

/// A quest waits as long as something takes precedence, and to be started also as long as anything
/// is in rotation. Without a quest nothing happens.
pub proof fn quests_wait_for_the_player(
    rotator: RotatorView,
    detections: Detections,
    draws: Draws,
    context: PlayerContextView,
    platforms: Seq<Platform>,
    minimap: Minimap,
)
    requires
        !has_quest(rotator.daily_quest) || context.priority is Some || context.normal is Some
            && !rotator.daily_quest.navigating,
    ensures
        nothing_happens(
            rotator.quest_rotated(detections, draws, context, platforms, minimap),
            rotator,
            context,
            platforms,
        ),
{
}

/// A quest starts with the journey to its hunting ground, along the way that the quest has, and
/// past the dropdowns that still show the selections of the quest before. From then on mobbing
/// explores along the platforms of the hunting ground, if there are any. How it explored before
/// the first quest is kept.
pub proof fn quests_start_with_the_journey(
    rotator: RotatorView,
    detections: Detections,
    draws: Draws,
    context: PlayerContextView,
    platforms: Seq<Platform>,
    minimap: Minimap,
)
    requires
        has_quest(rotator.daily_quest),
        0 <= rotator.daily_quest.index,
        !rotator.daily_quest.navigating,
        context.priority is None,
        context.normal is None,
    ensures
        ({
            let outcome = rotator.quest_rotated(detections, draws, context, platforms, minimap);
            let run = rotator.daily_quest;
            let after = outcome.rotator.daily_quest;
            let id = quest(run).id;
            let route = id.spec_navigation();
            let config = outcome.context.config;
            let known = id.spec_platforms().len() > 0;
            &&& has_no_effects(outcome)
            &&& outcome.effects.requests.len() == 0
            &&& outcome.rotator == RotatorView { daily_quest: after, ..rotator }
            &&& after.navigating
            &&& after == DailyQuestRunView {
                navigating: true,
                saved_pathing: after.saved_pathing,
                ..run
            }
            &&& run.saved_pathing is Some ==> after.saved_pathing == run.saved_pathing
            &&& run.saved_pathing is None ==> {
                &&& after.saved_pathing matches Some(saved)
                &&& saved.platforms == platforms
                &&& saved.pathing.platforms_pathing == context.config.auto_mob_platforms_pathing
                &&& saved.pathing.platforms_pathing_up_jump_only
                    == context.config.auto_mob_platforms_pathing_up_jump_only
                &&& saved.pathing.use_key_when_pathing
                    == context.config.auto_mob_use_key_when_pathing
                &&& saved.pathing.use_key_when_pathing_update_millis
                    == context.config.auto_mob_use_key_when_pathing_update_millis
            }
            &&& outcome.platforms == id.spec_platforms()
            &&& same_but_for_the_quest(context, outcome.context)
            &&& config.auto_mob_platforms_pathing == known
            &&& !config.auto_mob_platforms_pathing_up_jump_only
            &&& config.auto_mob_use_key_when_pathing == known
            &&& config.auto_mob_use_key_when_pathing_update_millis == 500
            &&& config.jump_key == context.config.jump_key
            &&& config.interact_key == context.config.interact_key
            &&& config.up_jump_key == context.config.up_jump_key
            &&& config.teleport_key == context.config.teleport_key
            &&& config.world_map_key == context.config.world_map_key
            &&& outcome.context.normal is None
            &&& outcome.context.daily_quest_navigate_failed == context.daily_quest_navigate_failed
            &&& outcome.context.priority matches Some(assigned)
            &&& assigned.id is None
            &&& assigned.action matches PlayerActionView::Navigate(journey)
            &&& journey.region == route.region
            &&& journey.dropdown_path == route.dropdown_path
            &&& journey.location_point == route.location_point
            &&& journey.sub_location_label == route.sub_location_label
            &&& run.index == 0 ==> journey.skip_dropdown_slots == 0
            &&& run.index > 0 ==> journey.skip_dropdown_slots == shared_dropdowns(
                run.entries[run.index - 1].id.spec_navigation(),
                route,
            )
        }),
{
    let run = rotator.daily_quest;
    if run.index > 0 {
        let previous = run.entries[run.index - 1].id;
        let current = quest(run).id;
        routes_are_short(current);
        skipped_dropdowns_show_the_selections(
            previous.spec_navigation(),
            current.spec_navigation(),
        );
    }
}

/// How many dropdowns are passed over: none with another region, and otherwise the region's and
/// those after it up to the first name that differs.
pub proof fn shared_selections_are_passed_over(
    previous: DailyQuestNavigationView,
    current: DailyQuestNavigationView,
)
    ensures
        ({
            let shared = shared_dropdowns(previous, current) as int;
            let one = previous.dropdown_path;
            let other = current.dropdown_path;
            &&& shared == 0 <==> previous.region != current.region
            &&& shared > 0 ==> {
                &&& shared - 1 <= one.len()
                &&& shared - 1 <= other.len()
                &&& forall|i: int| 0 <= i < shared - 1 ==> #[trigger] one[i] == other[i]
                &&& shared - 1 < one.len() && shared - 1 < other.len() ==> one[shared - 1]
                    != other[shared - 1]
            }
        }),
{
    skipped_dropdowns_show_the_selections(previous, current);
    let shared = shared_dropdowns(previous, current) as int;
    let one = previous.dropdown_path;
    let other = current.dropdown_path;
    if shared > 0 {
        assert forall|i: int| 0 <= i < shared - 1 implies #[trigger] one[i] == other[i] by {
            assert(previous.selections()[i + 1] == one[i]);
            assert(current.selections()[i + 1] == other[i]);
        }
        if shared - 1 < one.len() && shared - 1 < other.len() {
            assert(previous.selections()[shared] == one[shared - 1]);
            assert(current.selections()[shared] == other[shared - 1]);
        }
    }
}

/// Whether the run went on to the next quest, with nothing seen of it yet. After the last one
/// nothing is kept of how mobbing explored before.
pub open spec fn goes_on(run: DailyQuestRunView, after: DailyQuestRunView) -> bool {
    &&& after.entries == run.entries
    &&& after.mobbing_key == run.mobbing_key
    &&& after.character_id == run.character_id
    &&& after.index == run.index + 1
    &&& !after.navigating
    &&& after.progress.len() == 0
    &&& !after.complete_popup_detected
    &&& after.saved_pathing == if after.index < run.entries.len() {
        run.saved_pathing
    } else {
        None
    }
}

/// Whether mobbing explores as it did before the first quest, if this was the last one.
pub open spec fn explores_as_before(
    run: DailyQuestRunView,
    context: PlayerContextView,
    platforms: Seq<Platform>,
    outcome: RotationOutcome,
) -> bool {
    let last = run.index + 1 >= run.entries.len();
    let config = outcome.context.config;
    match run.saved_pathing {
        Some(saved) => if last {
            &&& outcome.platforms == saved.platforms
            &&& config.auto_mob_platforms_pathing == saved.pathing.platforms_pathing
            &&& config.auto_mob_platforms_pathing_up_jump_only
                == saved.pathing.platforms_pathing_up_jump_only
            &&& config.auto_mob_use_key_when_pathing == saved.pathing.use_key_when_pathing
            &&& config.auto_mob_use_key_when_pathing_update_millis
                == saved.pathing.use_key_when_pathing_update_millis
        } else {
            outcome.platforms == platforms && config == context.config
        },
        None => outcome.platforms == platforms && config == context.config,
    }
}

/// The detections of mobbing and of quests, whose outcomes are of no use for the next quest.
pub open spec fn hunting_detections() -> Seq<DetectionTask> {
    seq![
        DetectionTask::AutoMob,
        DetectionTask::DailyQuestProgress,
        DetectionTask::DailyQuestComplete,
    ]
}

/// A quest whose journey failed is passed over: it is not recorded, and the next one is up.
pub proof fn failed_quests_are_passed_over(
    rotator: RotatorView,
    detections: Detections,
    draws: Draws,
    context: PlayerContextView,
    platforms: Seq<Platform>,
    minimap: Minimap,
)
    requires
        has_quest(rotator.daily_quest),
        rotator.daily_quest.navigating,
        context.priority is None,
        context.daily_quest_navigate_failed,
    ensures
        ({
            let outcome = rotator.quest_rotated(detections, draws, context, platforms, minimap);
            &&& has_no_effects(outcome)
            &&& outcome.effects.requests.len() == 0
            &&& goes_on(rotator.daily_quest, outcome.rotator.daily_quest)
            &&& explores_as_before(rotator.daily_quest, context, platforms, outcome)
            &&& same_but_for_the_quest(context, outcome.context)
            &&& !outcome.context.daily_quest_navigate_failed
            &&& outcome.context.normal == context.normal
            &&& outcome.context.priority is None
            &&& outcome.rotator.auto_mobbing.quadrant_consecutive_count is None
            &&& outcome.rotator.stale_tasks == rotator.stale_tasks + hunting_detections()
            &&& outcome.rotator.priority == rotator.priority
            &&& outcome.rotator.normal == rotator.normal
        }),
{
}

/// Whether the first kill count for the given target, if there is one, has reached it.
pub open spec fn count_reached(progress: Seq<(u32, u32)>, target: u32) -> bool {
    exists|i: int|
        {
            &&& 0 <= i < progress.len()
            &&& (#[trigger] progress[i]).1 == target
            &&& progress[i].0 >= target
            &&& forall|j: int| 0 <= j < i ==> (#[trigger] progress[j]).1 != target
        }
}

proof fn target_is_reached_by_the_first_count(
    progress: Seq<(u32, u32)>,
    target: u32,
    from: int,
)
    requires
        0 <= from <= progress.len(),
        forall|j: int| 0 <= j < from ==> (#[trigger] progress[j]).1 != target,
    ensures
        target_reached(progress, target, from) == count_reached(progress, target),
    decreases progress.len() - from,
{
    if from < progress.len() {
        if progress[from].1 == target {
            if progress[from].0 >= target {
                assert(count_reached(progress, target));
            }
        } else {
            target_is_reached_by_the_first_count(progress, target, from + 1);
        }
    }
}

/// What is known of a quest's progress after a look at the screen: what was last seen of the kill
/// counts, and whether the notice was ever seen.
pub open spec fn progress_after(run: DailyQuestRunView, detections: Detections) -> Seq<(u32, u32)> {
    match detections.daily_quest_progress {
        Update::Ready(progress) => progress@,
        _ => run.progress,
    }
}

/// At its hunting ground a quest is complete exactly when the kill count for its target has reached
/// it, or the notice was seen, now or before. The kill counts are always looked at, and the notice
/// as long as it was not seen.
pub open spec fn is_complete(run: DailyQuestRunView, detections: Detections) -> bool {
    ||| count_reached(progress_after(run, detections), quest(run).kill_target)
    ||| run.complete_popup_detected
    ||| detections.daily_quest_complete is Ready
}

proof fn complete_quests_are_left(
    rotator: RotatorView,
    detections: Detections,
    draws: Draws,
    context: PlayerContextView,
    platforms: Seq<Platform>,
    minimap: Minimap,
)
    requires
        has_quest(rotator.daily_quest),
        rotator.daily_quest.navigating,
        context.priority is None,
        !context.daily_quest_navigate_failed,
        is_complete(rotator.daily_quest, detections),
    ensures
        ({
            let run = rotator.daily_quest;
            let looked = RotatorView { daily_quest: run.looked(detections), ..rotator };
            rotator.quest_rotated(detections, draws, context, platforms, minimap)
                == looked.quest_completed(context, platforms, run.looking())
        }),
{
    let run = rotator.daily_quest;
    target_is_reached_by_the_first_count(
        progress_after(run, detections),
        quest(run).kill_target,
        0,
    );
}

proof fn leaving_goes_on(run: DailyQuestRunView, detections: Detections)
    ensures
        goes_on(run, run.looked(detections).advanced()),
{
}

proof fn leaving_explores_as_before(
    rotator: RotatorView,
    run: DailyQuestRunView,
    detections: Detections,
    context: PlayerContextView,
    platforms: Seq<Platform>,
)
    requires
        rotator.daily_quest == run.looked(detections),
    ensures
        ({
            let outcome = rotator.quest_completed(context, platforms, run.looking());
            &&& explores_as_before(run, context, platforms, outcome)
            &&& same_but_for_the_quest(context, outcome.context)
            &&& outcome.context.normal == context.normal
            &&& outcome.context.priority == context.priority
            &&& looks_at_progress(run, outcome)
            &&& outcome.effects.requests.len() <= 2
        }),
{
}

/// A complete quest is recorded for the character whose run it is, and the next one is up. After
/// the last one a notice is sent, the player is to return to town, and the assistant halts.
pub proof fn complete_quests_are_recorded(
    rotator: RotatorView,
    detections: Detections,
    draws: Draws,
    context: PlayerContextView,
    platforms: Seq<Platform>,
    minimap: Minimap,
)
    requires
        has_quest(rotator.daily_quest),
        rotator.daily_quest.navigating,
        context.priority is None,
        !context.daily_quest_navigate_failed,
        is_complete(rotator.daily_quest, detections),
    ensures
        ({
            let outcome = rotator.quest_rotated(detections, draws, context, platforms, minimap);
            let run = rotator.daily_quest;
            let last = run.index + 1 >= run.entries.len();
            let town = RotatorActionView::Single(
                PlayerActionView::Plain(PlayerAction::Panic(Panic { to: PanicTo::Town })),
            );
            let completed = outcome.effects.completed_quests;
            &&& completed.len() == 1
            &&& completed[0].character_id == run.character_id
            &&& completed[0].id == quest(run).id
            &&& outcome.effects.halts == last
            &&& outcome.effects.notifications == if last {
                seq![NotificationKind::DailyQuestCompleted]
            } else {
                seq![]
            }
            &&& outcome.rotator.priority == PriorityView {
                side: if last {
                    rotator.priority.side.push(town)
                } else {
                    rotator.priority.side
                },
                ..rotator.priority
            }
            &&& goes_on(run, outcome.rotator.daily_quest)
            &&& explores_as_before(run, context, platforms, outcome)
            &&& same_but_for_the_quest(context, outcome.context)
            &&& outcome.context.normal == context.normal
            &&& outcome.context.priority is None
            &&& outcome.rotator.auto_mobbing.quadrant_consecutive_count is None
            &&& outcome.rotator.stale_tasks == rotator.stale_tasks + hunting_detections()
            &&& outcome.rotator.normal == rotator.normal
            &&& looks_at_progress(run, outcome)
            &&& outcome.effects.requests.len() <= 2
        }),
{
    let run = rotator.daily_quest;
    let looked = RotatorView { daily_quest: run.looked(detections), ..rotator };
    complete_quests_are_left(rotator, detections, draws, context, platforms, minimap);
    leaving_goes_on(run, detections);
    leaving_explores_as_before(looked, run, detections, context, platforms);
}

/// Whether the kill counts are looked at, and then the notice unless it was seen before.
pub open spec fn looks_at_progress(run: DailyQuestRunView, outcome: RotationOutcome) -> bool {
    let used = outcome.effects.requests;
    &&& used.len() >= 1
    &&& used[0] == DetectionRequest::DailyQuestProgress
    &&& !run.complete_popup_detected ==> used.len() >= 2 && used[1]
        == DetectionRequest::DailyQuestComplete
    &&& run.complete_popup_detected ==> !used.contains(DetectionRequest::DailyQuestComplete)
}

/// Until a quest is complete, the player mobs in its area with the mobbing key for quests, just as
/// in the mode for mobbing. What was seen of the progress is kept.
pub proof fn incomplete_quests_are_hunted_for(
    rotator: RotatorView,
    detections: Detections,
    draws: Draws,
    context: PlayerContextView,
    platforms: Seq<Platform>,
    minimap: Minimap,
)
    requires
        has_quest(rotator.daily_quest),
        rotator.daily_quest.navigating,
        context.priority is None,
        !context.daily_quest_navigate_failed,
        !is_complete(rotator.daily_quest, detections),
    ensures
        ({
            let outcome = rotator.quest_rotated(detections, draws, context, platforms, minimap);
            let run = rotator.daily_quest;
            let (mobbing, context_after) = rotator.auto_mobbing.rotated(
                detections,
                draws,
                context,
                minimap,
                run.mobbing_key,
                rotator.tuning.ms_per_tick,
            );
            let used = AutoMobbing::request(context, minimap, quest(run).id.spec_bound());
            &&& has_no_effects(outcome)
            &&& outcome.context == context_after
            &&& outcome.platforms == platforms
            &&& outcome.rotator == RotatorView {
                auto_mobbing: mobbing,
                daily_quest: DailyQuestRunView {
                    progress: progress_after(run, detections),
                    ..run
                },
                ..rotator
            }
            &&& outcome.effects.requests == seq![
                DetectionRequest::DailyQuestProgress,
                DetectionRequest::DailyQuestComplete,
            ] + used
        }),
{
    let run = rotator.daily_quest;
    target_is_reached_by_the_first_count(
        progress_after(run, detections),
        quest(run).kill_target,
        0,
    );
}

/// As long as there is a quest, it is done. After that the configured mode decides how the player
/// rotates, and in Monster Park whether the lobby is seen.
pub proof fn modes_rotate_as_they_are_called(
    rotator: RotatorView,
    detections: Detections,
    draws: Draws,
    context: PlayerContextView,
    platforms: Seq<Platform>,
    minimap: Minimap,
)
    ensures
        ({
            let outcome = rotator.turned(detections, draws, context, platforms, minimap);
            if has_quest(rotator.daily_quest) {
                outcome == rotator.quest_rotated(detections, draws, context, platforms, minimap)
            } else {
                &&& has_no_effects(outcome)
                &&& outcome.platforms == platforms
                &&& match rotator.normal_rotate_mode {
                    RotatorMode::StartToEnd => {
                        let (normal, after) = rotator.normal.start_to_end(context);
                        &&& outcome.rotator == RotatorView { normal, ..rotator }
                        &&& outcome.context == after
                        &&& outcome.effects.requests.len() == 0
                    },
                    RotatorMode::StartToEndThenReverse => {
                        let (normal, after) = rotator.normal.start_to_end_then_reverse(context);
                        &&& outcome.rotator == RotatorView { normal, ..rotator }
                        &&& outcome.context == after
                        &&& outcome.effects.requests.len() == 0
                    },
                    RotatorMode::AutoMobbing(key, bound) => {
                        let (auto_mobbing, after) = rotator.auto_mobbing.rotated(
                            detections,
                            draws,
                            context,
                            minimap,
                            key,
                            rotator.tuning.ms_per_tick,
                        );
                        &&& outcome.rotator == RotatorView { auto_mobbing, ..rotator }
                        &&& outcome.context == after
                        &&& outcome.effects.requests == AutoMobbing::request(
                            context,
                            minimap,
                            bound,
                        )
                    },
                    RotatorMode::PingPong(key, bound) => {
                        &&& outcome.rotator == rotator
                        &&& outcome.context == ping_ponged(
                            context,
                            minimap,
                            key,
                            bound,
                            rotator.tuning.ms_per_tick,
                        )
                        &&& outcome.effects.requests.len() == 0
                    },
                    RotatorMode::MonsterPark(key, _) => if detections.monster_park_entry_map {
                        &&& outcome.rotator == rotator
                        &&& outcome.context == entry_rotated(
                            context,
                            minimap,
                            rotator.character_level,
                        )
                        &&& outcome.effects.requests.len() == 0
                    } else {
                        let cleared = rotator.monster_park.rotated(
                            detections,
                            context,
                            minimap,
                            key,
                            rotator.tuning,
                        );
                        &&& outcome.rotator == RotatorView {
                            monster_park: cleared.park,
                            ..rotator
                        }
                        &&& outcome.context == cleared.context
                        &&& outcome.effects.requests == cleared.requests
                    },
                }
            }
        }),
{
}

/// Emptying the queues forgets all that was underway: rows, the queue, the direction of the
/// rotation, what was seen of mobs, of Monster Park and of the current quest. All background
/// detections that these rest on are out of date. The rest stays.
pub proof fn resetting_forgets_what_is_underway(rotator: RotatorView)
    ensures
        ({
            let after = rotator.reset();
            let run = rotator.daily_quest;
            &&& after.normal.actions == rotator.normal.actions
            &&& after.normal.index == 0
            &&& after.normal.queuing is None
            &&& !after.normal.backward
            &&& after.priority == PriorityView {
                queue: Seq::empty(),
                queuing: None,
                ..rotator.priority
            }
            &&& after.auto_mobbing.quadrant_consecutive_count is None
            &&& after.monster_park == MonsterParkView {
                no_enemy_count: 0,
                last_portal: None,
                portal_attempts: 0,
                target: None,
                target_missing_count: 0,
                pending_target: None,
                enemies: Seq::empty(),
            }
            &&& after.daily_quest == DailyQuestRunView {
                navigating: false,
                progress: Seq::empty(),
                complete_popup_detected: false,
                ..run
            }
            &&& after.stale_tasks == rotator.stale_tasks + seq![
                DetectionTask::AutoMob,
                DetectionTask::MonsterParkPortals,
                DetectionTask::MonsterParkEnemies,
                DetectionTask::DailyQuestProgress,
                DetectionTask::DailyQuestComplete,
            ]
            &&& after.tuning == rotator.tuning
            &&& after.normal_actions_reset_on_erda == rotator.normal_actions_reset_on_erda
            &&& after.normal_rotate_mode == rotator.normal_rotate_mode
            &&& after.character_level == rotator.character_level
            &&& after.next_id == rotator.next_id
        }),
{
}

/// Putting actions together starts over with what the configuration says: its mode, level, quests
/// from the first one, and actions. Injected actions stay.
pub proof fn building_starts_over(rotator: RotatorView, args: RotatorBuildArgs)
    ensures
        ({
            let after = rotator.rebuilt(args);
            let reset = rotator.reset();
            let actions = built(args, rotator.tuning.ms_per_tick, rotator.next_id);
            &&& after.priority.contents == actions.contents
            &&& after.priority.order == actions.order
            &&& after.priority.queue.len() == 0
            &&& after.priority.queuing is None
            &&& after.priority.side == rotator.priority.side
            &&& after.normal.actions.len() == actions.normal.len()
            &&& forall|i: int|
                0 <= i < actions.normal.len() ==> #[trigger] after.normal.actions[i] == (
                    actions.normal[i].0,
                    actions.normal[i].1@,
                )
            &&& after.normal.index == 0
            &&& after.normal.queuing is None
            &&& !after.normal.backward
            &&& after.normal_actions_reset_on_erda == args.enable_reset_normal_actions_on_erda
            &&& after.normal_rotate_mode == args.mode
            &&& after.character_level == args.character_level
            &&& after.daily_quest == DailyQuestRunView {
                entries: args.daily_quest_entries@,
                mobbing_key: args.daily_quest_mobbing_key,
                character_id: args.daily_quest_character_id,
                index: 0,
                navigating: false,
                progress: Seq::empty(),
                complete_popup_detected: false,
                saved_pathing: None,
            }
            &&& after.auto_mobbing == reset.auto_mobbing
            &&& after.monster_park == reset.monster_park
            &&& after.stale_tasks == reset.stale_tasks + seq![
                DetectionTask::FamiliarEssence,
                DetectionTask::LieDetectorShape,
                DetectionTask::LieDetectorVioletta,
                DetectionTask::EliteBossBar,
                DetectionTask::BoosterTimer(Booster::Generic),
                DetectionTask::BoosterTimer(Booster::Hexa),
                DetectionTask::HexaBoosterExchange,
                DetectionTask::EscSettings,
            ]
            &&& after.tuning == rotator.tuning
            &&& after.next_id == actions.next_id
        }),
{
}

/// The configured actions are the character's, followed by the map's.
pub proof fn characters_come_before_maps(args: RotatorBuildArgs, i: int)
    ensures
        ({
            let actions = configured_actions(args);
            let first = args.character_actions@.len() as int;
            &&& actions.len() == first + args.map_actions@.len()
            &&& 0 <= i < first ==> actions[i] == args.character_actions@[i]
            &&& first <= i < actions.len() ==> actions[i] == args.map_actions@[i - first]
        }),
{
}

/// A fresh rotator rotates nothing, there and back.
pub proof fn fresh_rotators_rotate_nothing(tuning: Tuning)
    ensures
        ({
            let rotator = RotatorView::nothing(tuning);
            &&& rotator.tuning == tuning
            &&& rotator.normal_rotate_mode is StartToEndThenReverse
            &&& rotator.normal.actions.len() == 0
            &&& rotator.normal.index == 0
            &&& rotator.normal.queuing is None
            &&& !rotator.normal.backward
            &&& rotator.priority.order.len() == 0
            &&& rotator.priority.queue.len() == 0
            &&& rotator.priority.side.len() == 0
            &&& rotator.priority.queuing is None
            &&& rotator.priority.contents.dom().is_empty()
            &&& !has_quest(rotator.daily_quest)
            &&& !rotator.daily_quest.navigating
            &&& rotator.stale_tasks.len() == 0
            &&& rotator.next_id == 0
        }),
{
    assert(RotatorView::nothing(tuning).priority.contents.dom() =~= Set::empty());
}

/// An injected action is performed after those injected before it.
pub proof fn injected_actions_are_performed_in_order(
    rotator: RotatorView,
    action: PlayerActionView,
)
    ensures
        ({
            let after = rotator.injected(action);
            &&& after.priority.side.len() == rotator.priority.side.len() + 1
            &&& after.priority.side.last() == RotatorActionView::Single(action)
            &&& after.priority.side.drop_last() == rotator.priority.side
            &&& after == RotatorView {
                priority: PriorityView { side: after.priority.side, ..rotator.priority },
                ..rotator
            }
        }),
{
    let after = rotator.injected(action);
    assert(after.priority.side.drop_last() =~= rotator.priority.side);
}

/// While halting, the first injected action is performed unless another one is, and nothing else
/// happens.
pub proof fn halting_performs_injected_actions(rotator: RotatorView, context: PlayerContextView)
    requires
        rotator.priority.wf(),
    ensures
        ({
            let (after, context_after) = rotator.halted(context);
            let busy = context.priority matches Some(assigned) && assigned.id is None;
            let side = rotator.priority.side;
            &&& after == RotatorView {
                priority: PriorityView { side: after.priority.side, ..rotator.priority },
                ..rotator
            }
            &&& side.len() == 0 || busy ==> after.priority.side == side && context_after == context
            &&& side.len() > 0 && !busy ==> {
                &&& after.priority.side == side.skip(1)
                &&& side[0] matches RotatorActionView::Single(action)
                &&& gets_with_precedence(context, context_after, None, action)
            }
        }),
{
}

/// Using the Erda Shower skill starts the rotation over, if so configured: from the first action,
/// in the same direction, and without what the player was doing in rotation. Otherwise nothing but
/// the priority actions changes.
pub proof fn erda_shower_may_start_the_rotation_over(
    rotator: RotatorView,
    context: PlayerContextView,
    priority: PriorityView,
    queued_erda: bool,
)
    ensures
        ({
            let (after, context_after) = rotator.queued(context, priority, queued_erda);
            let restarts = queued_erda && rotator.normal_actions_reset_on_erda;
            &&& after == RotatorView { priority, normal: after.normal, ..rotator }
            &&& !restarts ==> after.normal == rotator.normal && context_after == context
            &&& restarts ==> {
                &&& after.normal.actions == rotator.normal.actions
                &&& after.normal.index == 0
                &&& after.normal.queuing is None
                &&& after.normal.backward == rotator.normal.backward
                &&& context_after.normal is None
                &&& context_after.priority == context.priority
                &&& only_actions_differ(context, context_after)
            }
        }),
{
}

/// A tick queues the priority actions that are due, then performs the first of the queue, and then
/// does the current quest or rotates. The detections of the conditions are used first, and what
/// was injected, noted, recorded or halted by the quest comes into effect.
pub proof fn ticks_queue_then_perform_then_rotate(
    before: RotatorView,
    after: RotatorView,
    resources: Resources,
    resources_after: Resources,
    world: World,
    world_after: World,
    passed: Seq<bool>,
    now: Instant,
)
    requires
        ticked(
            before,
            after,
            resources,
            resources_after,
            world,
            world_after,
            passed,
            now,
        ),
    ensures
        ({
            let context = world.player.context@;
            let id = precedence_id(context);
            let threshold = before.tuning.double_jump_threshold;
            let judged = before.priority.judged(
                id,
                before.priority.verdicts(
                    resources.detections,
                    world,
                    has_quest(before.daily_quest),
                    passed,
                    threshold,
                ),
                now,
            );
            let due = PriorityView {
                contents: judged.contents,
                queue: judged.queue,
                ..before.priority
            };
            let (queued, queued_context) = before.queued(context, due, judged.queued_erda);
            let (performed, performing) = queued.priority.queue_rotated(
                queued.normal,
                world.player.state,
                queued_context,
                threshold,
            );
            let outcome = (RotatorView { priority: performed, ..queued }).turned(
                resources.detections,
                resources.draws,
                performing,
                world.minimap.context.platforms@,
                world.minimap.state,
            );
            let used = before.priority.all_requests(
                resources.detections,
                world,
                has_quest(before.daily_quest),
                passed,
                threshold,
                before.priority.order.len(),
            );
            &&& after == outcome.rotator
            &&& world_after.player.context@ == outcome.context
            &&& world_after.minimap.context.platforms@ == outcome.platforms
            &&& resources_after.polled@ == resources.polled@ + used + outcome.effects.requests
            &&& resources_after.notifications@ == resources.notifications@
                + outcome.effects.notifications
            &&& resources_after.completed_quests@ == resources.completed_quests@
                + outcome.effects.completed_quests
            &&& resources_after.operation == if outcome.effects.halts {
                OperationState::Halting
            } else {
                resources.operation
            }
            &&& resources_after.input.events@ == resources.input.events@
            &&& resources_after.detections == resources.detections
            &&& resources_after.draws == resources.draws
        }),
{
    assert(precedence_id(world.player.context@)
        == world.player.context@.priority_id());
}

/// The verdict on each action is made for that action, with what is known of its own wait.
pub proof fn verdicts_are_made_one_by_one(
    priority: PriorityView,
    detections: Detections,
    world: World,
    daily_quest_active: bool,
    passed: Seq<bool>,
    threshold: i32,
    i: int,
)
    requires
        0 <= i < priority.order.len(),
    ensures
        ({
            let verdicts = priority.verdicts(
                detections,
                world,
                daily_quest_active,
                passed,
                threshold,
            );
            &&& verdicts.len() == priority.order.len()
            &&& verdicts[i] == priority.verdict(
                detections,
                world,
                daily_quest_active,
                priority.order[i],
                passed[i],
                threshold,
            )
        }),
{
}

/// The area that is hunted in is that of the current quest, and otherwise that of the mode for
/// mobbing.
pub proof fn the_hunted_area_is_the_quests_or_the_modes(rotator: RotatorView)
    ensures
        has_quest(rotator.daily_quest) ==> rotator.hunted_area() == Some(
            quest(rotator.daily_quest).id.spec_bound(),
        ),
        !has_quest(rotator.daily_quest) ==> match rotator.normal_rotate_mode {
            RotatorMode::AutoMobbing(_, bound) => rotator.hunted_area() == Some(bound),
            _ => rotator.hunted_area() is None,
        },
{
}

/// The assistant is halting exactly if its state says so.
pub proof fn halting_is_a_state(resources: Resources)
    ensures
        resources.spec_halting() <==> resources.operation is Halting,
{
}

} // verus!
