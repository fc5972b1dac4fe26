//! Responses to events in the world.

use vstd::prelude::*;

use crate::ecs::{NotificationKind, Resources};
use crate::player::actions::PanicTo;
use crate::player::{Panicking, Player};
use crate::rotator::{DefaultRotator, Rotator, RotatorMode};

verus! {

/// An event in the world.
#[derive(Clone, Copy, Debug, PartialEq, Eq, Structural)]
pub enum WorldEvent {
    RunTimerEnded,
    PlayerDied,
    MinimapChanged,
    CaptureFailed,
    LieDetectorShapeAppeared,
    LieDetectorViolettaAppeared,
    EliteBossAppeared,
}

/// How to halt.
#[derive(Clone, Copy, Debug, PartialEq, Eq, Structural)]
pub struct Halt {
    pub go_to_town: bool,
}

/// A response to an event.
#[derive(Clone, Copy, Debug, PartialEq, Eq, Structural)]
pub enum EventEffect {
    /// Halts, at once or after some time.
    QueueHalt { immediate: bool, halt: Halt },
    /// Calls off a halt that is about to come.
    AbortHalt,
    /// Halts until further notice.
    TemporaryHalt,
    Notify(NotificationKind),
}

/// The settings that responses depend on.
#[derive(Clone, Copy, Debug, PartialEq, Eq, Structural)]
pub struct EventSettings {
    pub notify_on_run_timer_end: bool,
    pub stop_on_player_die: bool,
    pub stop_on_fail_or_change_map: bool,
}

/// What responses depend on, and the responses so far.
#[derive(Debug)]
pub struct EventContext {
    pub halting: bool,
    pub mode: RotatorMode,
    /// Whether the player is traveling to a daily quest's hunting ground, or mobbing there.
    pub navigating_daily_quest: bool,
    /// Whether the player is changing the channel.
    pub changing_channel: bool,
    pub settings: EventSettings,
    pub effects: Vec<EventEffect>,
}

/// Whether the player is changing the channel.
pub open spec fn changes_channel(player: Player) -> bool {
    player matches Player::Panicking(panicking) && panicking.to == PanicTo::Channel
}

impl EventContext {
    /// Whether a change of the map is nothing to respond to: the assistant is halting or brings
    /// it about.
    pub open spec fn expects_map_change(self) -> bool {
        self.halting || self.mode is MonsterPark || self.navigating_daily_quest
            || self.changing_channel
    }

    /// The responses to an event, in order.
    pub open spec fn responses(self, event: WorldEvent) -> Seq<EventEffect> {
        match event {
            WorldEvent::RunTimerEnded => {
                let halt = EventEffect::QueueHalt {
                    immediate: true,
                    halt: Halt { go_to_town: true },
                };
                if self.settings.notify_on_run_timer_end {
                    seq![halt, EventEffect::Notify(NotificationKind::RunTimerEnded)]
                } else {
                    seq![halt]
                }
            },
            WorldEvent::PlayerDied => if self.settings.stop_on_player_die {
                seq![
                    EventEffect::QueueHalt { immediate: true, halt: Halt { go_to_town: false } },
                ]
            } else {
                seq![]
            },
            WorldEvent::MinimapChanged => {
                let notify = EventEffect::Notify(NotificationKind::FailOrMapChange);
                if self.expects_map_change() {
                    seq![]
                } else if self.settings.stop_on_fail_or_change_map {
                    seq![
                        notify,
                        EventEffect::AbortHalt,
                        EventEffect::QueueHalt {
                            immediate: false,
                            halt: Halt { go_to_town: true },
                        },
                    ]
                } else {
                    seq![notify, EventEffect::AbortHalt]
                }
            },
            WorldEvent::CaptureFailed => {
                let notify = EventEffect::Notify(NotificationKind::FailOrMapChange);
                if self.halting {
                    seq![]
                } else if self.settings.stop_on_fail_or_change_map {
                    seq![EventEffect::TemporaryHalt, notify]
                } else {
                    seq![notify]
                }
            },
            WorldEvent::LieDetectorShapeAppeared => self.unless_halting(
                NotificationKind::LieDetectorShapeAppear,
            ),
            WorldEvent::LieDetectorViolettaAppeared => self.unless_halting(
                NotificationKind::LieDetectorViolettaAppear,
            ),
            WorldEvent::EliteBossAppeared => self.unless_halting(
                NotificationKind::EliteBossAppear,
            ),
        }
    }

    /// A notice, unless the assistant is halting.
    pub open spec fn unless_halting(self, kind: NotificationKind) -> Seq<EventEffect> {
        if self.halting {
            seq![]
        } else {
            seq![EventEffect::Notify(kind)]
        }
    }

    /// What responses depend on, as it stands.
    pub fn new(
        resources: &Resources,
        rotator: &DefaultRotator,
        player: &Player,
        settings: EventSettings,
    ) -> (r: EventContext)
        ensures
            r.halting == resources.spec_halting(),
            r.mode == rotator@.normal_rotate_mode,
            r.navigating_daily_quest == rotator@.daily_quest.navigating,
            r.changing_channel == changes_channel(*player),
            r.settings == settings,
            r.effects@ == Seq::<EventEffect>::empty(),
    {
        let changing_channel = match player {
            Player::Panicking(Panicking { to: PanicTo::Channel }) => true,
            _ => false,
        };
        EventContext {
            halting: resources.halting(),
            mode: rotator.mode(),
            navigating_daily_quest: rotator.is_navigating_daily_quest(),
            changing_channel,
            settings,
            effects: Vec::new(),
        }
    }

    fn notify(&mut self, kind: NotificationKind)
        ensures
            *final(self) == (EventContext { effects: final(self).effects, ..*old(self) }),
            final(self).effects@ == old(self).effects@.push(EventEffect::Notify(kind)),
    {
        self.effects.push(EventEffect::Notify(kind));
    }

    fn queue_halt(&mut self, immediate: bool, halt: Halt)
        ensures
            *final(self) == (EventContext { effects: final(self).effects, ..*old(self) }),
            final(self).effects@ == old(self).effects@.push(
                EventEffect::QueueHalt { immediate, halt },
            ),
    {
        self.effects.push(EventEffect::QueueHalt { immediate, halt });
    }

    fn notify_unless_halting(&mut self, kind: NotificationKind)
        ensures
            *final(self) == (EventContext { effects: final(self).effects, ..*old(self) }),
            final(self).effects@ == old(self).effects@ + old(self).unless_halting(kind),
    {
        if !self.halting {
            self.notify(kind);
        }
    }
}

/// Responds to events in the world.
#[derive(Debug)]
pub struct WorldEventHandler;

impl WorldEventHandler {
    /// Responds to an event.
    pub fn handle(&mut self, context: &mut EventContext, event: WorldEvent)
        ensures
            *final(context) == (EventContext { effects: final(context).effects, ..*old(context) }),
            final(context).effects@ == old(context).effects@ + old(context).responses(event),
    {
        match event {
            WorldEvent::RunTimerEnded => {
                context.queue_halt(true, Halt { go_to_town: true });
                if context.settings.notify_on_run_timer_end {
                    context.notify(NotificationKind::RunTimerEnded);
                }
            },
            WorldEvent::PlayerDied => {
                if context.settings.stop_on_player_die {
                    context.queue_halt(true, Halt { go_to_town: false });
                }
            },
            WorldEvent::MinimapChanged => {
                let is_monster_park = match context.mode {
                    RotatorMode::MonsterPark(_, _) => true,
                    _ => false,
                };
                if context.halting || is_monster_park || context.navigating_daily_quest
                    || context.changing_channel {
                    return ;
                }
                context.notify(NotificationKind::FailOrMapChange);
                context.effects.push(EventEffect::AbortHalt);
                if context.settings.stop_on_fail_or_change_map {
                    context.queue_halt(false, Halt { go_to_town: true });
                }
            },
            WorldEvent::CaptureFailed => {
                if context.halting {
                    return ;
                }
                if context.settings.stop_on_fail_or_change_map {
                    context.effects.push(EventEffect::TemporaryHalt);
                }
                context.notify(NotificationKind::FailOrMapChange);
            },
            WorldEvent::LieDetectorShapeAppeared => {
                context.notify_unless_halting(NotificationKind::LieDetectorShapeAppear);
            },
            WorldEvent::LieDetectorViolettaAppeared => {
                context.notify_unless_halting(NotificationKind::LieDetectorViolettaAppear);
            },
            WorldEvent::EliteBossAppeared => {
                context.notify_unless_halting(NotificationKind::EliteBossAppear);
            },
        }
    }
}

/// While halting, only the end of the run timer and the player's death are responded to.
pub proof fn halting_is_left_alone(context: EventContext, event: WorldEvent)
    requires
        context.halting,
        event != WorldEvent::RunTimerEnded,
        event != WorldEvent::PlayerDied,
    ensures
        context.responses(event) == Seq::<EventEffect>::empty(),
{
}

/// The map changes that the assistant itself brings about, in Monster Park, for a daily quest or
/// by changing the channel, are not responded to.
pub proof fn own_map_changes_are_left_alone(context: EventContext)
    requires
        context.mode is MonsterPark || context.navigating_daily_quest || context.changing_channel,
    ensures
        context.responses(WorldEvent::MinimapChanged) == Seq::<EventEffect>::empty(),
{
}

} // verus!
