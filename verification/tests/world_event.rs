use backend::ecs::{Detections, Draws, NotificationKind, OperationState, Resources};
use backend::models::{Bound, MobbingKey};
use backend::player::actions::PanicTo;
use backend::player::{Panicking, Player};
use backend::rotator::{DefaultRotator, RotatorMode, Tuning};
use backend::world_event::{
    EventContext, EventEffect, EventSettings, Halt, WorldEvent, WorldEventHandler,
};

const EVENTS: [WorldEvent; 7] = [
    WorldEvent::RunTimerEnded,
    WorldEvent::PlayerDied,
    WorldEvent::MinimapChanged,
    WorldEvent::CaptureFailed,
    WorldEvent::LieDetectorShapeAppeared,
    WorldEvent::LieDetectorViolettaAppeared,
    WorldEvent::EliteBossAppeared,
];

fn rotator() -> DefaultRotator {
    DefaultRotator::new(Tuning {
        ms_per_tick: 33,
        double_jump_threshold: 25,
    })
}

fn respond(
    rotator: &DefaultRotator,
    player: &Player,
    operation: OperationState,
    enabled: bool,
    event: WorldEvent,
) -> Vec<EventEffect> {
    let resources = Resources::new(Detections::unavailable(), Draws::default(), operation);
    let settings = EventSettings {
        notify_on_run_timer_end: enabled,
        stop_on_player_die: enabled,
        stop_on_fail_or_change_map: enabled,
    };
    let mut context = EventContext::new(&resources, rotator, player, settings);
    WorldEventHandler.handle(&mut context, event);
    context.effects
}

fn halt(immediate: bool, go_to_town: bool) -> EventEffect {
    EventEffect::QueueHalt {
        immediate,
        halt: Halt { go_to_town },
    }
}

fn notify(kind: NotificationKind) -> EventEffect {
    EventEffect::Notify(kind)
}

#[test]
fn events_are_responded_to_as_configured() {
    let expected = [
        vec![halt(true, true), notify(NotificationKind::RunTimerEnded)],
        vec![halt(true, false)],
        vec![
            notify(NotificationKind::FailOrMapChange),
            EventEffect::AbortHalt,
            halt(false, true),
        ],
        vec![
            EventEffect::TemporaryHalt,
            notify(NotificationKind::FailOrMapChange),
        ],
        vec![notify(NotificationKind::LieDetectorShapeAppear)],
        vec![notify(NotificationKind::LieDetectorViolettaAppear)],
        vec![notify(NotificationKind::EliteBossAppear)],
    ];
    let disabled = [
        vec![halt(true, true)],
        vec![],
        vec![
            notify(NotificationKind::FailOrMapChange),
            EventEffect::AbortHalt,
        ],
        vec![notify(NotificationKind::FailOrMapChange)],
    ];
    for (event, expected) in EVENTS.into_iter().zip(expected) {
        let running = OperationState::Running;
        assert_eq!(
            respond(&rotator(), &Player::Idle, running, true, event),
            expected
        );
    }
    for (event, expected) in EVENTS.into_iter().zip(disabled) {
        let running = OperationState::Running;
        assert_eq!(
            respond(&rotator(), &Player::Idle, running, false, event),
            expected
        );
    }
}

#[test]
fn halting_is_not_disturbed() {
    for event in &EVENTS[2..] {
        let halting = OperationState::Halting;
        assert!(respond(&rotator(), &Player::Idle, halting, true, *event).is_empty());
    }
}

#[test]
fn meant_map_changes_are_not_responded_to() {
    let changed = |rotator: &DefaultRotator, player: &Player| {
        let running = OperationState::Running;
        respond(rotator, player, running, true, WorldEvent::MinimapChanged).len()
    };
    let mut park = rotator();
    park.normal_rotate_mode = RotatorMode::MonsterPark(MobbingKey::default(), Bound::default());
    assert_eq!(changed(&park, &Player::Idle), 0);

    let mut quest = rotator();
    quest.daily_quest.navigating = true;
    assert_eq!(changed(&quest, &Player::Idle), 0);

    let panicking = |to: PanicTo| Player::Panicking(Panicking { to });
    assert_eq!(changed(&rotator(), &panicking(PanicTo::Channel)), 0);
    assert_eq!(changed(&rotator(), &panicking(PanicTo::Town)), 3);
}
