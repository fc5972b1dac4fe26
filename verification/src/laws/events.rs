//! How events in the world are responded to.

use vstd::prelude::*;

use crate::ecs::NotificationKind;
use crate::player::actions::PanicTo;
use crate::player::{Panicking, Player};
use crate::world_event::{changes_channel, EventContext, EventEffect, Halt, WorldEvent};

verus! {

/// Whether `first` comes before `second` wherever both are among the responses.
pub open spec fn in_order(
    responses: Seq<EventEffect>,
    first: EventEffect,
    second: EventEffect,
) -> bool {
    forall|i: int, j: int|
        0 <= i < responses.len() && 0 <= j < responses.len() && #[trigger] responses[i] == first
            && #[trigger] responses[j] == second ==> i < j
}

/// The assistant halts at once and goes to town exactly when the run timer has ended, whatever
/// the settings. It halts at once where it is exactly when the player died and stopping on death
/// is set, whatever the other settings. It halts later and goes to town exactly when the map
/// changed unexpectedly and stopping on that is set. It never halts later without going to town.
pub proof fn halts_follow_their_event_and_setting(context: EventContext, event: WorldEvent)
    ensures
        ({
            let responses = context.responses(event);
            let expected = context.halting || context.mode is MonsterPark
                || context.navigating_daily_quest || context.changing_channel;
            let settings = context.settings;
            &&& responses.contains(
                EventEffect::QueueHalt { immediate: true, halt: Halt { go_to_town: true } },
            ) <==> event is RunTimerEnded
            &&& responses.contains(
                EventEffect::QueueHalt { immediate: true, halt: Halt { go_to_town: false } },
            ) <==> event is PlayerDied && settings.stop_on_player_die
            &&& responses.contains(
                EventEffect::QueueHalt { immediate: false, halt: Halt { go_to_town: true } },
            ) <==> event is MinimapChanged && !expected && settings.stop_on_fail_or_change_map
            &&& !responses.contains(
                EventEffect::QueueHalt { immediate: false, halt: Halt { go_to_town: false } },
            )
            &&& responses.contains(EventEffect::AbortHalt) <==> event is MinimapChanged
                && !expected
            &&& responses.contains(EventEffect::TemporaryHalt) <==> event is CaptureFailed
                && !context.halting && settings.stop_on_fail_or_change_map
        }),
{
    let responses = context.responses(event);
    assert(responses.len() > 0 ==> responses.contains(responses[0]));
    assert(responses.len() > 1 ==> responses.contains(responses[1]));
    assert(responses.len() > 2 ==> responses.contains(responses[2]));
}

/// Each notice belongs to one event, except that a failure to see the game and an unexpected
/// change of the map share one. Only the notice about the run timer can be turned off, and all
/// but that one are left out while halting.
pub proof fn notices_follow_their_event(context: EventContext, event: WorldEvent)
    ensures
        ({
            let responses = context.responses(event);
            let expected = context.halting || context.mode is MonsterPark
                || context.navigating_daily_quest || context.changing_channel;
            let running = !context.halting;
            &&& responses.contains(EventEffect::Notify(NotificationKind::RunTimerEnded)) <==> event
                is RunTimerEnded && context.settings.notify_on_run_timer_end
            &&& responses.contains(EventEffect::Notify(NotificationKind::FailOrMapChange)) <==> (
            event is CaptureFailed && running || event is MinimapChanged && !expected)
            &&& responses.contains(
                EventEffect::Notify(NotificationKind::LieDetectorShapeAppear),
            ) <==> event is LieDetectorShapeAppeared && running
            &&& responses.contains(
                EventEffect::Notify(NotificationKind::LieDetectorViolettaAppear),
            ) <==> event is LieDetectorViolettaAppeared && running
            &&& responses.contains(EventEffect::Notify(NotificationKind::EliteBossAppear)) <==> event
                is EliteBossAppeared && running
            &&& !responses.contains(EventEffect::Notify(NotificationKind::DailyQuestCompleted))
        }),
{
    let responses = context.responses(event);
    assert(responses.len() > 0 ==> responses.contains(responses[0]));
    assert(responses.len() > 1 ==> responses.contains(responses[1]));
    assert(responses.len() > 2 ==> responses.contains(responses[2]));
}

/// No response is given twice. A halt that is about to come is called off before another one is
/// asked for and after the notice, and a halt because of the run timer or of a failure comes
/// before the notice.
pub proof fn responses_are_in_order(context: EventContext, event: WorldEvent)
    ensures
        ({
            let responses = context.responses(event);
            let failed = EventEffect::Notify(NotificationKind::FailOrMapChange);
            &&& responses.no_duplicates()
            &&& in_order(responses, failed, EventEffect::AbortHalt)
            &&& in_order(
                responses,
                EventEffect::AbortHalt,
                EventEffect::QueueHalt { immediate: false, halt: Halt { go_to_town: true } },
            )
            &&& in_order(responses, EventEffect::TemporaryHalt, failed)
            &&& in_order(
                responses,
                EventEffect::QueueHalt { immediate: true, halt: Halt { go_to_town: true } },
                EventEffect::Notify(NotificationKind::RunTimerEnded),
            )
        }),
{
}

/// Changing the channel is to panic to another channel, and nothing else.
pub proof fn only_panicking_to_a_channel_changes_it(player: Player)
    ensures
        changes_channel(player) <==> player == Player::Panicking(
            Panicking { to: PanicTo::Channel },
        ),
{
}

} // verus!
