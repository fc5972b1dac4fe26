//! The rotator: it decides, tick by tick, which action the player performs next.

pub mod action;
pub mod builder;
pub mod condition;
pub mod daily_quest;
pub mod laws;
pub mod map;
pub mod mobbing;
pub mod monster_park;
pub mod normal;
pub mod priority;
pub mod standing;

use vstd::prelude::*;

use std::time::Instant;

use crate::daily::DailyQuestEntry;
use crate::ecs::{
    BuffKind, CompletedQuest, DetectionRequest, DetectionTask, Detections, Draws, Effects, Minimap,
    MinimapContext, NotificationKind, OperationState, Resources, World,
};
use crate::geometry::fits;
use crate::models::{
    Action, Bound, EliteBossBehavior, ExchangeHexaBoosterCondition, Familiars, KeyKind, MobbingKey,
    Platform,
};
use crate::player::actions::{Booster, Panic, PanicTo, PlayerAction, PlayerActionView};
use crate::player::context::{PlayerContext, PlayerContextView};
use crate::player::{Player, PlayerEntity};
use action::{is_linked, RotatorActionView};
use builder::{built, configured_actions, Builder};
use daily_quest::{DailyQuestRun, DailyQuestRunView};
use mobbing::{ping_ponged, rotate_ping_pong, AutoMobbing};
use monster_park::{
    entry_rotated, rotate_monster_park_entry, sights_fit, MonsterPark, MonsterParkView,
};
use normal::{actions_view, NormalRotation, NormalView};
use priority::{
    has_side_loaded_action_executing, rotated, side_loaded, PriorityRotation, PriorityView,
};

verus! {

/// The constants of the game loop and of movement that rotating depends on.
#[derive(Clone, Copy, Debug, PartialEq, Eq, Structural)]
pub struct Tuning {
    /// How many milliseconds a tick lasts.
    pub ms_per_tick: u64,
    /// The horizontal distance from which on the player double jumps.
    pub double_jump_threshold: i32,
}

impl Tuning {
    /// Whether a tick lasts any time.
    pub open spec fn wf(self) -> bool {
        self.ms_per_tick > 0
    }
}

/// How actions are rotated.
#[derive(Clone, Copy, Debug, Default, PartialEq, Eq, Structural)]
pub enum RotatorMode {
    StartToEnd,
    #[default]
    StartToEndThenReverse,
    AutoMobbing(MobbingKey, Bound),
    PingPong(MobbingKey, Bound),
    /// Clears the current Monster Park stage of mobs and goes on through its portal.
    ///
    /// In the entry lobby, which is told by its looks, the player goes in instead.
    MonsterPark(MobbingKey, Bound),
}

/// What to rotate, and how.
#[derive(Debug, Default)]
pub struct RotatorBuildArgs {
    pub mode: RotatorMode,
    pub character_level: u32,
    pub character_actions: Vec<Action>,
    pub map_actions: Vec<Action>,
    pub buffs: Vec<(BuffKind, KeyKind)>,
    pub familiars: Familiars,
    pub familiar_essence_key: KeyKind,
    pub elite_boss_behavior: EliteBossBehavior,
    pub elite_boss_behavior_key: KeyKind,
    pub hexa_booster_exchange_condition: ExchangeHexaBoosterCondition,
    pub hexa_booster_exchange_amount: u32,
    pub hexa_booster_exchange_all: bool,
    pub enable_panic_mode: bool,
    pub enable_rune_solving: bool,
    pub enable_transparent_shape_solving: bool,
    pub enable_violetta_solving: bool,
    pub enable_reset_normal_actions_on_erda: bool,
    pub enable_using_generic_booster: bool,
    pub enable_using_hexa_booster: bool,
    /// The daily quests to do before anything else.
    pub daily_quest_entries: Vec<DailyQuestEntry>,
    /// The mobbing key for all daily quests.
    pub daily_quest_mobbing_key: MobbingKey,
    /// The character whose daily quests these are, if it is a saved one.
    pub daily_quest_character_id: Option<i64>,
}

/// Rotates actions.
pub trait Rotator {
    /// Whether the actions can be put together.
    spec fn can_build(&self, args: RotatorBuildArgs) -> bool;

    /// Whether actions can be rotated.
    spec fn can_rotate(&self, resources: Resources, world: World) -> bool;

    /// Puts together the actions to rotate, in place of those before.
    fn build_actions(&mut self, args: RotatorBuildArgs)
        requires
            old(self).can_build(args),
    ;

    /// How actions are rotated.
    fn mode(&self) -> RotatorMode;

    /// Whether the player is traveling to a daily quest's hunting ground, or mobbing there. The
    /// map changes then are meant.
    fn is_navigating_daily_quest(&self) -> bool;

    /// Empties the queues. The actions that were put together stay.
    fn reset_queue(&mut self);

    /// Adds an action to be performed once, along with those that were put together.
    fn inject_action(&mut self, action: PlayerAction);

    /// Rotates actions. While halting only those that were added to be performed once.
    fn rotate_action(&mut self, resources: &mut Resources, world: &mut World)
        requires
            old(self).can_rotate(*old(resources), *old(world)),
    ;
}

/// The rotator.
#[derive(Debug)]
pub struct DefaultRotator {
    pub tuning: Tuning,
    pub normal: NormalRotation,
    /// Whether the actions in rotation start over when the Erda Shower skill is used.
    pub normal_actions_reset_on_erda: bool,
    pub normal_rotate_mode: RotatorMode,
    /// The character's level, which the entrance of Monster Park depends on.
    pub character_level: u32,
    pub auto_mobbing: AutoMobbing,
    pub monster_park: MonsterPark,
    pub daily_quest: DailyQuestRun,
    pub priority: PriorityRotation,
    /// The detections whose outcomes are out of date. They are to be started anew.
    pub stale_tasks: Vec<DetectionTask>,
    /// The id of the next action: see [`DefaultRotator::number_from`].
    pub next_id: u32,
}

/// What a [`DefaultRotator`] holds.
pub struct RotatorView {
    pub tuning: Tuning,
    pub normal: NormalView,
    pub normal_actions_reset_on_erda: bool,
    pub normal_rotate_mode: RotatorMode,
    pub character_level: u32,
    pub auto_mobbing: AutoMobbing,
    pub monster_park: MonsterParkView,
    pub daily_quest: DailyQuestRunView,
    pub priority: PriorityView,
    pub stale_tasks: Seq<DetectionTask>,
    pub next_id: u32,
}

impl View for DefaultRotator {
    type V = RotatorView;

    open spec fn view(&self) -> RotatorView {
        RotatorView {
            tuning: self.tuning,
            normal: self.normal@,
            normal_actions_reset_on_erda: self.normal_actions_reset_on_erda,
            normal_rotate_mode: self.normal_rotate_mode,
            character_level: self.character_level,
            auto_mobbing: self.auto_mobbing,
            monster_park: self.monster_park@,
            daily_quest: self.daily_quest@,
            priority: self.priority@,
            stale_tasks: self.stale_tasks@,
            next_id: self.next_id,
        }
    }
}

/// The detections of mobbing and of daily quests.
pub open spec fn quest_tasks() -> Seq<DetectionTask> {
    seq![
        DetectionTask::AutoMob,
        DetectionTask::DailyQuestProgress,
        DetectionTask::DailyQuestComplete,
    ]
}

/// The detections of all ways to rotate.
pub open spec fn rotation_tasks() -> Seq<DetectionTask> {
    seq![
        DetectionTask::AutoMob,
        DetectionTask::MonsterParkPortals,
        DetectionTask::MonsterParkEnemies,
        DetectionTask::DailyQuestProgress,
        DetectionTask::DailyQuestComplete,
    ]
}

/// The detections of conditions.
pub open spec fn condition_tasks() -> Seq<DetectionTask> {
    seq![
        DetectionTask::FamiliarEssence,
        DetectionTask::LieDetectorShape,
        DetectionTask::LieDetectorVioletta,
        DetectionTask::EliteBossBar,
        DetectionTask::BoosterTimer(Booster::Generic),
        DetectionTask::BoosterTimer(Booster::Hexa),
        DetectionTask::HexaBoosterExchange,
        DetectionTask::EscSettings,
    ]
}

/// The action that returns to town.
pub open spec fn return_to_town() -> PlayerActionView {
    PlayerActionView::Plain(PlayerAction::Panic(Panic { to: PanicTo::Town }))
}

/// What rotating the daily quests, or in a mode, comes to.
pub struct RotationOutcome {
    pub rotator: RotatorView,
    pub context: PlayerContextView,
    pub platforms: Seq<Platform>,
    pub effects: Effects,
}

impl RotatorView {
    /// Whether all parts are in order.
    pub open spec fn wf(self) -> bool {
        &&& self.tuning.wf()
        &&& self.normal.wf()
        &&& self.auto_mobbing.wf()
        &&& self.monster_park.wf()
        &&& self.daily_quest.wf()
        &&& self.priority.wf()
    }

    /// Nothing to rotate.
    pub open spec fn nothing(tuning: Tuning) -> RotatorView {
        RotatorView {
            tuning,
            normal: NormalView { actions: seq![], queuing: None, index: 0, backward: false },
            normal_actions_reset_on_erda: false,
            normal_rotate_mode: RotatorMode::StartToEndThenReverse,
            character_level: 0,
            auto_mobbing: AutoMobbing { quadrant_consecutive_count: None },
            monster_park: MonsterParkView::fresh(),
            daily_quest: DailyQuestRunView::nothing(),
            priority: PriorityView {
                contents: map::no_actions(),
                order: seq![],
                queuing: None,
                queue: seq![],
                side: seq![],
            },
            stale_tasks: seq![],
            next_id: 0,
        }
    }

    /// With an action to be performed once.
    pub open spec fn injected(self, action: PlayerActionView) -> RotatorView {
        RotatorView {
            priority: PriorityView {
                side: self.priority.side.push(RotatorActionView::Single(action)),
                ..self.priority
            },
            ..self
        }
    }

    /// With empty queues.
    pub open spec fn reset(self) -> RotatorView {
        RotatorView {
            normal: NormalView { backward: false, ..self.normal.restarted() },
            auto_mobbing: AutoMobbing { quadrant_consecutive_count: None },
            monster_park: MonsterParkView::fresh(),
            daily_quest: self.daily_quest.paused(),
            priority: PriorityView { queue: seq![], queuing: None, ..self.priority },
            stale_tasks: self.stale_tasks + rotation_tasks(),
            ..self
        }
    }

    /// With the actions of a configuration.
    pub open spec fn rebuilt(self, args: RotatorBuildArgs) -> RotatorView {
        let reset = self.reset();
        let built = built(args, self.tuning.ms_per_tick, self.next_id);
        RotatorView {
            normal: NormalView { actions: actions_view(built.normal), ..reset.normal },
            normal_actions_reset_on_erda: args.enable_reset_normal_actions_on_erda,
            normal_rotate_mode: args.mode,
            character_level: args.character_level,
            daily_quest: DailyQuestRunView {
                entries: args.daily_quest_entries@,
                mobbing_key: args.daily_quest_mobbing_key,
                character_id: args.daily_quest_character_id,
                index: 0,
                saved_pathing: None,
                ..reset.daily_quest
            },
            priority: PriorityView {
                contents: built.contents,
                order: built.order,
                ..reset.priority
            },
            stale_tasks: reset.stale_tasks + condition_tasks(),
            next_id: built.next_id,
            ..reset
        }
    }

    /// Once the current daily quest is over: with the next one.
    pub open spec fn quest_over(self) -> RotatorView {
        RotatorView {
            daily_quest: self.daily_quest.advanced(),
            auto_mobbing: AutoMobbing { quadrant_consecutive_count: None },
            stale_tasks: self.stale_tasks + quest_tasks(),
            ..self
        }
    }

    /// What the current daily quest being complete comes to. After the last one the player
    /// returns to town, and the assistant halts.
    pub open spec fn quest_completed(
        self,
        context: PlayerContextView,
        platforms: Seq<Platform>,
        requests: Seq<DetectionRequest>,
    ) -> RotationOutcome {
        let run = self.daily_quest;
        let (context, platforms) = run.restoring(context, platforms);
        let last = run.index + 1 >= run.entries.len();
        RotationOutcome {
            rotator: if last {
                self.quest_over().injected(return_to_town())
            } else {
                self.quest_over()
            },
            context,
            platforms,
            effects: Effects {
                requests,
                notifications: if last {
                    seq![NotificationKind::DailyQuestCompleted]
                } else {
                    seq![]
                },
                completed_quests: seq![
                    CompletedQuest { character_id: run.character_id, id: run.current().id },
                ],
                halts: last,
            },
        }
    }

    /// What mobbing at the hunting ground of the current daily quest comes to.
    pub open spec fn quest_hunted(
        self,
        detections: Detections,
        draws: Draws,
        context: PlayerContextView,
        platforms: Seq<Platform>,
        minimap: Minimap,
        requests: Seq<DetectionRequest>,
    ) -> RotationOutcome {
        let (auto_mobbing, after) = self.auto_mobbing.rotated(
            detections,
            draws,
            context,
            minimap,
            self.daily_quest.mobbing_key,
            self.tuning.ms_per_tick,
        );
        RotationOutcome {
            rotator: RotatorView { auto_mobbing, ..self },
            context: after,
            platforms,
            effects: Effects::only(
                requests + AutoMobbing::request(
                    context,
                    minimap,
                    self.daily_quest.current().id.spec_bound(),
                ),
            ),
        }
    }

    /// What looking after the current daily quest at its hunting ground comes to.
    pub open spec fn quest_attended(
        self,
        detections: Detections,
        draws: Draws,
        context: PlayerContextView,
        platforms: Seq<Platform>,
        minimap: Minimap,
    ) -> RotationOutcome {
        let run = self.daily_quest;
        let looked = RotatorView { daily_quest: run.looked(detections), ..self };
        if looked.daily_quest.complete() {
            looked.quest_completed(context, platforms, run.looking())
        } else {
            looked.quest_hunted(detections, draws, context, platforms, minimap, run.looking())
        }
    }

    /// What [`DefaultRotator::rotate_daily_quest`] does.
    pub open spec fn quest_rotated(
        self,
        detections: Detections,
        draws: Draws,
        context: PlayerContextView,
        platforms: Seq<Platform>,
        minimap: Minimap,
    ) -> RotationOutcome {
        let run = self.daily_quest;
        let waiting = RotationOutcome {
            rotator: self,
            context,
            platforms,
            effects: Effects::only(seq![]),
        };
        if !run.active() || context.priority is Some {
            waiting
        } else if !run.navigating {
            if context.normal is Some {
                waiting
            } else {
                RotationOutcome {
                    rotator: RotatorView { daily_quest: run.departed(context, platforms), ..self },
                    context: run.departing(context),
                    platforms: run.current().id.spec_platforms(),
                    ..waiting
                }
            }
        } else if context.daily_quest_navigate_failed {
            let (context, platforms) = run.restoring(
                PlayerContextView { daily_quest_navigate_failed: false, ..context },
                platforms,
            );
            RotationOutcome { rotator: self.quest_over(), context, platforms, ..waiting }
        } else {
            self.quest_attended(detections, draws, context, platforms, minimap)
        }
    }

    /// What rotating in the configured mode comes to.
    pub open spec fn mode_rotated(
        self,
        detections: Detections,
        draws: Draws,
        context: PlayerContextView,
        platforms: Seq<Platform>,
        minimap: Minimap,
    ) -> RotationOutcome {
        let same = RotationOutcome {
            rotator: self,
            context,
            platforms,
            effects: Effects::only(seq![]),
        };
        match self.normal_rotate_mode {
            RotatorMode::StartToEnd => {
                let (normal, context) = self.normal.start_to_end(context);
                RotationOutcome { rotator: RotatorView { normal, ..self }, context, ..same }
            },
            RotatorMode::StartToEndThenReverse => {
                let (normal, context) = self.normal.start_to_end_then_reverse(context);
                RotationOutcome { rotator: RotatorView { normal, ..self }, context, ..same }
            },
            RotatorMode::AutoMobbing(key, bound) => {
                let (auto_mobbing, after) = self.auto_mobbing.rotated(
                    detections,
                    draws,
                    context,
                    minimap,
                    key,
                    self.tuning.ms_per_tick,
                );
                RotationOutcome {
                    rotator: RotatorView { auto_mobbing, ..self },
                    context: after,
                    effects: Effects::only(AutoMobbing::request(context, minimap, bound)),
                    ..same
                }
            },
            RotatorMode::PingPong(key, bound) => RotationOutcome {
                context: ping_ponged(context, minimap, key, bound, self.tuning.ms_per_tick),
                ..same
            },
            RotatorMode::MonsterPark(key, _) => if detections.monster_park_entry_map {
                RotationOutcome {
                    context: entry_rotated(context, minimap, self.character_level),
                    ..same
                }
            } else {
                let outcome = self.monster_park.rotated(
                    detections,
                    context,
                    minimap,
                    key,
                    self.tuning,
                );
                RotationOutcome {
                    rotator: RotatorView { monster_park: outcome.park, ..self },
                    context: outcome.context,
                    effects: Effects::only(outcome.requests),
                    ..same
                }
            },
        }
    }

    /// What rotating the daily quests comes to, or in the configured mode if there is none to do.
    pub open spec fn turned(
        self,
        detections: Detections,
        draws: Draws,
        context: PlayerContextView,
        platforms: Seq<Platform>,
        minimap: Minimap,
    ) -> RotationOutcome {
        if self.daily_quest.active() {
            self.quest_rotated(detections, draws, context, platforms, minimap)
        } else {
            self.mode_rotated(detections, draws, context, platforms, minimap)
        }
    }

    /// The rotator and the player's actions once the actions whose time has come are queued. When
    /// the Erda Shower skill is among them, the actions in rotation may start over.
    pub open spec fn queued(
        self,
        context: PlayerContextView,
        priority: PriorityView,
        queued_erda: bool,
    ) -> (RotatorView, PlayerContextView) {
        if queued_erda && self.normal_actions_reset_on_erda {
            (
                RotatorView { priority, normal: self.normal.restarted(), ..self },
                context.without_normal(),
            )
        } else {
            (RotatorView { priority, ..self }, context)
        }
    }

    /// The rotator and the player's actions once the queue has been gone through.
    pub open spec fn dequeued(self, state: Player, context: PlayerContextView) -> (
        RotatorView,
        PlayerContextView,
    ) {
        let (priority, context) = self.priority.queue_rotated(
            self.normal,
            state,
            context,
            self.tuning.double_jump_threshold,
        );
        (RotatorView { priority, ..self }, context)
    }

    /// The area that is being hunted in: the hunting ground of the current daily quest, or else
    /// that of the configured mode, if it is mobbing.
    pub open spec fn hunted_area(self) -> Option<Bound> {
        if self.daily_quest.active() {
            Some(self.daily_quest.current().id.spec_bound())
        } else {
            match self.normal_rotate_mode {
                RotatorMode::AutoMobbing(_, bound) => Some(bound),
                _ => None,
            }
        }
    }

    /// What a tick while halting comes to.
    pub open spec fn halted(self, context: PlayerContextView) -> (RotatorView, PlayerContextView) {
        if side_loaded(context) || self.priority.side.len() == 0 {
            (self, context)
        } else {
            let (priority, context) = self.priority.side_started(context);
            (RotatorView { priority, ..self }, context)
        }
    }

    /// Whether what rotating in the configured mode works on is at pixel positions.
    pub open spec fn mode_fits(self, detections: Detections, minimap: Minimap) -> bool {
        match self.normal_rotate_mode {
            RotatorMode::PingPong(_, bound) => minimap matches Minimap::Idle(idle) ==> fits(
                idle.bbox.height - (bound.y + bound.height),
            ),
            RotatorMode::MonsterPark(_, _) => {
                !detections.monster_park_entry_map ==> sights_fit(detections, minimap)
            },
            _ => true,
        }
    }
}

/// Whether a tick that does not halt leads from `before` to `after`. `passed` is whether the
/// cooldown of each priority action has passed, and `now` is the time that the actions queued in
/// this tick are dated with.
pub open spec fn ticked(
    before: RotatorView,
    after: RotatorView,
    resources: Resources,
    resources_after: Resources,
    world: World,
    world_after: World,
    passed: Seq<bool>,
    now: Instant,
) -> bool {
    let context = world.player.context@;
    let judged = before.priority.judged(
        context.priority_id(),
        before.priority.verdicts(
            resources.detections,
            world,
            before.daily_quest.active(),
            passed,
            before.tuning.double_jump_threshold,
        ),
        now,
    );
    let (queued, queued_context) = before.queued(
        context,
        before.priority.with_judged(judged),
        judged.queued_erda,
    );
    let (dequeued, dequeued_context) = queued.dequeued(world.player.state, queued_context);
    let outcome = dequeued.turned(
        resources.detections,
        resources.draws,
        dequeued_context,
        world.minimap.context.platforms@,
        world.minimap.state,
    );
    &&& before.priority.may_have_passed(passed)
    &&& after == outcome.rotator
    &&& world_after.player.context@ == outcome.context
    &&& world_after.minimap.context.platforms@ == outcome.platforms
    &&& resources_after.affected(
        resources,
        outcome.effects.after(
            before.priority.all_requests(
                resources.detections,
                world,
                before.daily_quest.active(),
                passed,
                before.tuning.double_jump_threshold,
                before.priority.order.len(),
            ),
        ),
    )
}

impl DefaultRotator {
    /// A rotator with nothing to rotate.
    pub fn new(tuning: Tuning) -> (r: DefaultRotator)
        ensures
            r@ == RotatorView::nothing(tuning),
            tuning.wf() ==> r@.wf(),
    {
        DefaultRotator {
            tuning,
            normal: NormalRotation::new(),
            normal_actions_reset_on_erda: false,
            normal_rotate_mode: RotatorMode::StartToEndThenReverse,
            character_level: 0,
            auto_mobbing: AutoMobbing::new(),
            monster_park: MonsterPark::new(),
            daily_quest: DailyQuestRun::new(),
            priority: PriorityRotation::new(),
            stale_tasks: Vec::new(),
            next_id: 0,
        }
    }

    /// The area that is being hunted in. This is what the position to explore in a tick is drawn
    /// for, on the minimap of that tick.
    pub fn hunting_bound(&self) -> (r: Option<Bound>)
        ensures
            r == self@.hunted_area(),
    {
        if self.daily_quest.index < self.daily_quest.entries.len() {
            return Some(self.daily_quest.entries[self.daily_quest.index].id.bound());
        }
        match self.normal_rotate_mode {
            RotatorMode::AutoMobbing(_, bound) => Some(bound),
            _ => None,
        }
    }

    /// Numbers the actions that are put together from now on from `next_id` on.
    ///
    /// Where there are several rotators, each goes on with the number that the last one came to,
    /// so that they share no ids.
    pub fn number_from(&mut self, next_id: u32)
        ensures
            final(self)@ == (RotatorView { next_id, ..old(self)@ }),
    {
        self.next_id = next_id;
    }

    /// Queues the priority actions whose time has come. When the Erda Shower skill is among them,
    /// the actions in rotation may start over.
    pub fn rotate_priority_actions(&mut self, resources: &mut Resources, world: &mut World)
        requires
            old(self)@.wf(),
        ensures
            exists|passed: Seq<bool>, now: Instant, priority: PriorityView, queued_erda: bool|
                {
                    &&& #[trigger] rotated(
                        old(self)@.priority,
                        priority,
                        *old(resources),
                        *final(resources),
                        *old(world),
                        old(self)@.daily_quest.active(),
                        old(self)@.tuning.double_jump_threshold,
                        passed,
                        now,
                        queued_erda,
                    )
                    &&& (final(self)@, final(world).player.context@) == old(self)@.queued(
                        old(world).player.context@,
                        priority,
                        queued_erda,
                    )
                },
            final(self)@.wf(),
            final(world).player.state == old(world).player.state,
            final(world).minimap == old(world).minimap,
            final(world).skills == old(world).skills,
            final(world).buffs == old(world).buffs,
    {
        let daily_quest_active = self.daily_quest.index < self.daily_quest.entries.len();
        let queued_erda = self.priority.rotate_actions(
            resources,
            world,
            daily_quest_active,
            self.tuning.double_jump_threshold,
        );
        let ghost priority = self.priority@;
        let ghost (passed, now) = choose|passed: Seq<bool>, now: Instant| #[trigger]
            rotated(
                old(self)@.priority,
                priority,
                *old(resources),
                *resources,
                *old(world),
                daily_quest_active,
                old(self)@.tuning.double_jump_threshold,
                passed,
                now,
                queued_erda,
            );
        if queued_erda && self.normal_actions_reset_on_erda {
            self.normal.reset_queue();
            world.player.context.reset_normal_action();
        }
        assert(rotated(
            old(self)@.priority,
            priority,
            *old(resources),
            *resources,
            *old(world),
            old(self)@.daily_quest.active(),
            old(self)@.tuning.double_jump_threshold,
            passed,
            now,
            queued_erda,
        ));
    }

    /// Gives the player the next queued action.
    pub fn rotate_priority_actions_queue(&mut self, player: &mut PlayerEntity)
        requires
            old(self)@.wf(),
        ensures
            (final(self)@, final(player).context@) == old(self)@.dequeued(
                old(player).state,
                old(player).context@,
            ),
            final(player).state == old(player).state,
            final(self)@.wf(),
    {
        self.priority.rotate_queue(&self.normal, player, self.tuning.double_jump_threshold);
    }

    fn drop_quest_tasks(&mut self)
        ensures
            final(self)@ == (RotatorView {
                stale_tasks: old(self)@.stale_tasks + quest_tasks(),
                ..old(self)@
            }),
    {
        self.stale_tasks.push(DetectionTask::AutoMob);
        self.stale_tasks.push(DetectionTask::DailyQuestProgress);
        self.stale_tasks.push(DetectionTask::DailyQuestComplete);
        assert(self@.stale_tasks == old(self)@.stale_tasks + quest_tasks());
    }

    fn leave_quest(
        &mut self,
        player_context: &mut PlayerContext,
        minimap_context: &mut MinimapContext,
    )
        requires
            old(self)@.wf(),
            old(self)@.daily_quest.active(),
        ensures
            final(self)@ == old(self)@.quest_over(),
            (final(player_context)@, final(minimap_context).platforms@)
                == old(self)@.daily_quest.restoring(
                old(player_context)@,
                old(minimap_context).platforms@,
            ),
            final(self)@.wf(),
    {
        self.daily_quest.advance(player_context, minimap_context);
        self.auto_mobbing = AutoMobbing::new();
        self.drop_quest_tasks();
    }

    fn complete_quest(
        &mut self,
        resources: &mut Resources,
        player_context: &mut PlayerContext,
        minimap_context: &mut MinimapContext,
    )
        requires
            old(self)@.wf(),
            old(self)@.daily_quest.active(),
        ensures
            ({
                let outcome = old(self)@.quest_completed(
                    old(player_context)@,
                    old(minimap_context).platforms@,
                    seq![],
                );
                &&& final(self)@ == outcome.rotator
                &&& final(player_context)@ == outcome.context
                &&& final(minimap_context).platforms@ == outcome.platforms
                &&& final(resources).affected(*old(resources), outcome.effects)
            }),
            final(self)@.wf(),
    {
        let id = self.daily_quest.entries[self.daily_quest.index].id;
        resources.completed_quests.push(
            CompletedQuest { character_id: self.daily_quest.character_id, id },
        );
        self.leave_quest(player_context, minimap_context);
        if self.daily_quest.index >= self.daily_quest.entries.len() {
            resources.notifications.push(NotificationKind::DailyQuestCompleted);
            self.priority.side_load(PlayerAction::Panic(Panic { to: PanicTo::Town }));
            resources.operation = OperationState::Halting;
        }
    }

    /// Does the current daily quest: travels to its hunting ground, and mobs there until it is
    /// complete.
    pub fn rotate_daily_quest(
        &mut self,
        resources: &mut Resources,
        player_context: &mut PlayerContext,
        minimap_context: &mut MinimapContext,
        minimap_state: Minimap,
    )
        requires
            old(self)@.wf(),
        ensures
            ({
                let outcome = old(self)@.quest_rotated(
                    old(resources).detections,
                    old(resources).draws,
                    old(player_context)@,
                    old(minimap_context).platforms@,
                    minimap_state,
                );
                &&& final(self)@ == outcome.rotator
                &&& final(player_context)@ == outcome.context
                &&& final(minimap_context).platforms@ == outcome.platforms
                &&& final(resources).affected(*old(resources), outcome.effects)
            }),
            final(self)@.wf(),
    {
        if self.daily_quest.index >= self.daily_quest.entries.len()
            || player_context.has_priority_action() {
            return ;
        }
        if !self.daily_quest.navigating {
            if player_context.has_normal_action() {
                return ;
            }
            self.daily_quest.depart(player_context, minimap_context);
            return ;
        }
        if player_context.take_daily_quest_navigate_failed() {
            self.leave_quest(player_context, minimap_context);
            return ;
        }
        self.hunt(resources, player_context, minimap_context, minimap_state);
    }

    /// Mobs at the current hunting ground until the quest is complete.
    fn hunt(
        &mut self,
        resources: &mut Resources,
        player_context: &mut PlayerContext,
        minimap_context: &mut MinimapContext,
        minimap_state: Minimap,
    )
        requires
            old(self)@.wf(),
            old(self)@.daily_quest.active(),
        ensures
            ({
                let outcome = old(self)@.quest_attended(
                    old(resources).detections,
                    old(resources).draws,
                    old(player_context)@,
                    old(minimap_context).platforms@,
                    minimap_state,
                );
                &&& final(self)@ == outcome.rotator
                &&& final(player_context)@ == outcome.context
                &&& final(minimap_context).platforms@ == outcome.platforms
                &&& final(resources).affected(*old(resources), outcome.effects)
            }),
            final(self)@.wf(),
    {
        if self.daily_quest.look(resources) {
            self.complete_quest(resources, player_context, minimap_context);
            return ;
        }
        let bound = self.daily_quest.entries[self.daily_quest.index].id.bound();
        self.auto_mobbing.rotate(
            resources,
            player_context,
            minimap_state,
            self.daily_quest.mobbing_key,
            bound,
            self.tuning.ms_per_tick,
        );
    }

    fn rotate_mode(
        &mut self,
        resources: &mut Resources,
        player_context: &mut PlayerContext,
        minimap_state: Minimap,
    )
        requires
            old(self)@.wf(),
            old(self)@.mode_fits(old(resources).detections, minimap_state),
        ensures
            forall|platforms: Seq<Platform>|
                {
                    let outcome = #[trigger] old(self)@.mode_rotated(
                        old(resources).detections,
                        old(resources).draws,
                        old(player_context)@,
                        platforms,
                        minimap_state,
                    );
                    &&& final(self)@ == outcome.rotator
                    &&& final(player_context)@ == outcome.context
                    &&& platforms == outcome.platforms
                    &&& final(resources).affected(*old(resources), outcome.effects)
                },
            final(self)@.wf(),
    {
        match self.normal_rotate_mode {
            RotatorMode::StartToEnd => self.normal.rotate_start_to_end(player_context),
            RotatorMode::StartToEndThenReverse => {
                self.normal.rotate_start_to_end_then_reverse(player_context)
            },
            RotatorMode::AutoMobbing(key, bound) => {
                self.auto_mobbing.rotate(
                    resources,
                    player_context,
                    minimap_state,
                    key,
                    bound,
                    self.tuning.ms_per_tick,
                )
            },
            RotatorMode::PingPong(key, bound) => {
                rotate_ping_pong(
                    player_context,
                    minimap_state,
                    key,
                    bound,
                    self.tuning.ms_per_tick,
                )
            },
            RotatorMode::MonsterPark(key, _) => {
                if resources.detections.monster_park_entry_map {
                    rotate_monster_park_entry(
                        player_context,
                        minimap_state,
                        self.character_level,
                    )
                } else {
                    self.monster_park.rotate(
                        resources,
                        player_context,
                        minimap_state,
                        key,
                        self.tuning,
                    )
                }
            },
        }
    }
}

impl Rotator for DefaultRotator {
    open spec fn can_build(&self, args: RotatorBuildArgs) -> bool {
        self@.wf() && !is_linked(configured_actions(args), 0)
    }

    open spec fn can_rotate(&self, resources: Resources, world: World) -> bool {
        &&& self@.wf()
        &&& !resources.spec_halting() && !self@.daily_quest.active() ==> self@.mode_fits(
            resources.detections,
            world.minimap.state,
        )
    }

    fn build_actions(&mut self, args: RotatorBuildArgs)
        ensures
            final(self)@ == old(self)@.rebuilt(args),
            final(self)@.wf(),
    {
        self.reset_queue();
        let mut builder = Builder::new(self.next_id);
        builder.build(&args, self.tuning.ms_per_tick);
        let Builder { actions, normal_actions, next_id } = builder;
        self.normal.actions = normal_actions;
        self.priority.actions = actions;
        self.next_id = next_id;
        self.normal_actions_reset_on_erda = args.enable_reset_normal_actions_on_erda;
        self.normal_rotate_mode = args.mode;
        self.character_level = args.character_level;
        self.daily_quest.entries = args.daily_quest_entries;
        self.daily_quest.mobbing_key = args.daily_quest_mobbing_key;
        self.daily_quest.character_id = args.daily_quest_character_id;
        self.daily_quest.saved_pathing = None;
        self.daily_quest.index = 0;
        self.stale_tasks.push(DetectionTask::FamiliarEssence);
        self.stale_tasks.push(DetectionTask::LieDetectorShape);
        self.stale_tasks.push(DetectionTask::LieDetectorVioletta);
        self.stale_tasks.push(DetectionTask::EliteBossBar);
        self.stale_tasks.push(DetectionTask::BoosterTimer(Booster::Generic));
        self.stale_tasks.push(DetectionTask::BoosterTimer(Booster::Hexa));
        self.stale_tasks.push(DetectionTask::HexaBoosterExchange);
        self.stale_tasks.push(DetectionTask::EscSettings);
        assert(self@.stale_tasks == old(self)@.reset().stale_tasks + condition_tasks());
    }

    fn mode(&self) -> (r: RotatorMode)
        ensures
            r == self@.normal_rotate_mode,
    {
        self.normal_rotate_mode
    }

    fn is_navigating_daily_quest(&self) -> (r: bool)
        ensures
            r == self@.daily_quest.navigating,
    {
        self.daily_quest.navigating
    }

    fn reset_queue(&mut self)
        ensures
            final(self)@ == old(self)@.reset(),
            final(self).tuning == old(self).tuning,
            final(self).next_id == old(self).next_id,
            old(self)@.wf() ==> final(self)@.wf(),
    {
        self.normal.backward = false;
        self.normal.reset_queue();
        self.priority.reset_queue();
        self.auto_mobbing = AutoMobbing::new();
        self.monster_park = MonsterPark::new();
        self.daily_quest.pause();
        self.stale_tasks.push(DetectionTask::AutoMob);
        self.stale_tasks.push(DetectionTask::MonsterParkPortals);
        self.stale_tasks.push(DetectionTask::MonsterParkEnemies);
        self.stale_tasks.push(DetectionTask::DailyQuestProgress);
        self.stale_tasks.push(DetectionTask::DailyQuestComplete);
        assert(self@.stale_tasks == old(self)@.stale_tasks + rotation_tasks());
    }

    fn inject_action(&mut self, action: PlayerAction)
        ensures
            final(self)@ == old(self)@.injected(action@),
            old(self)@.wf() ==> final(self)@.wf(),
    {
        self.priority.side_load(action);
    }

    fn rotate_action(&mut self, resources: &mut Resources, world: &mut World)
        ensures
            old(resources).spec_halting() ==> {
                &&& (final(self)@, final(world).player.context@) == old(self)@.halted(
                    old(world).player.context@,
                )
                &&& *final(resources) == *old(resources)
                &&& final(world).minimap == old(world).minimap
            },
            !old(resources).spec_halting() ==> exists|passed: Seq<bool>, now: Instant| #[trigger]
                ticked(
                    old(self)@,
                    final(self)@,
                    *old(resources),
                    *final(resources),
                    *old(world),
                    *final(world),
                    passed,
                    now,
                ),
            final(self)@.wf(),
            final(world).player.state == old(world).player.state,
            final(world).minimap.state == old(world).minimap.state,
            final(world).skills == old(world).skills,
            final(world).buffs == old(world).buffs,
    {
        if resources.halting() {
            if !has_side_loaded_action_executing(&world.player.context) {
                self.priority.rotate_side_action(&mut world.player.context);
            }
            return ;
        }
        self.rotate_priority_actions(resources, world);
        let ghost (passed, now, priority, queued_erda) = choose|
            passed: Seq<bool>,
            now: Instant,
            priority: PriorityView,
            queued_erda: bool,
        |
            {
                &&& #[trigger] rotated(
                    old(self)@.priority,
                    priority,
                    *old(resources),
                    *resources,
                    *old(world),
                    old(self)@.daily_quest.active(),
                    old(self)@.tuning.double_jump_threshold,
                    passed,
                    now,
                    queued_erda,
                )
                &&& (self@, world.player.context@) == old(self)@.queued(
                    old(world).player.context@,
                    priority,
                    queued_erda,
                )
            };
        self.rotate_priority_actions_queue(&mut world.player);
        if self.daily_quest.index < self.daily_quest.entries.len() {
            self.rotate_daily_quest(
                resources,
                &mut world.player.context,
                &mut world.minimap.context,
                world.minimap.state,
            );
        } else {
            self.rotate_mode(resources, &mut world.player.context, world.minimap.state);
        }
        assert(ticked(
            old(self)@,
            self@,
            *old(resources),
            *resources,
            *old(world),
            *world,
            passed,
            now,
        ));
    }
}

} // verus!
