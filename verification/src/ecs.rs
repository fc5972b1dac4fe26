//! What a tick works on: the world as it was last seen, the outcomes of detections and random
//! draws, and the inputs and notices that the tick produces.

use vstd::prelude::*;

use crate::daily::DailyQuestId;
use crate::geometry::{Point, Rect};
use crate::models::{Bound, ExchangeHexaBoosterCondition, KeyKind, Platform};
use crate::player::actions::Booster;
use crate::player::PlayerEntity;

verus! {

/// A kind of mouse input.
#[derive(Clone, Copy, Debug, PartialEq, Eq, Structural)]
pub enum MouseKind {
    Move,
    Click,
    Scroll,
}

/// An input to simulate.
#[derive(Clone, Copy, Debug, PartialEq, Eq, Structural)]
pub enum InputEvent {
    /// Presses and releases a key.
    Key(KeyKind),
    /// Presses a key and keeps it down.
    KeyDown(KeyKind),
    /// Presses a key and keeps it down, also if it is down already.
    KeyDownRepeatable(KeyKind),
    /// Releases a key.
    KeyUp(KeyKind),
    /// Moves the mouse and uses it there.
    Mouse(i32, i32, MouseKind),
}

/// The inputs to simulate, in order.
#[derive(Debug)]
pub struct Input {
    pub events: Vec<InputEvent>,
}

impl Input {
    pub fn send_key(&mut self, key: KeyKind)
        ensures
            final(self).events@ == old(self).events@.push(InputEvent::Key(key)),
    {
        self.events.push(InputEvent::Key(key));
    }

    pub fn send_key_down(&mut self, key: KeyKind)
        ensures
            final(self).events@ == old(self).events@.push(InputEvent::KeyDown(key)),
    {
        self.events.push(InputEvent::KeyDown(key));
    }

    pub fn send_key_down_repeatable(&mut self, key: KeyKind)
        ensures
            final(self).events@ == old(self).events@.push(InputEvent::KeyDownRepeatable(key)),
    {
        self.events.push(InputEvent::KeyDownRepeatable(key));
    }

    pub fn send_key_up(&mut self, key: KeyKind)
        ensures
            final(self).events@ == old(self).events@.push(InputEvent::KeyUp(key)),
    {
        self.events.push(InputEvent::KeyUp(key));
    }

    pub fn send_mouse(&mut self, x: i32, y: i32, kind: MouseKind)
        ensures
            final(self).events@ == old(self).events@.push(InputEvent::Mouse(x, y, kind)),
    {
        self.events.push(InputEvent::Mouse(x, y, kind));
    }
}

/// What a background detection has come to.
#[derive(Debug)]
pub enum Update<T> {
    Ready(T),
    Failed,
    Pending,
}

/// A detection that runs in the background.
#[derive(Clone, Copy, Debug, PartialEq, Eq, Hash, Structural)]
pub enum DetectionTask {
    AutoMob,
    MonsterParkEnemies,
    MonsterParkPortals,
    DailyQuestProgress,
    DailyQuestComplete,
    FamiliarEssence,
    LieDetectorShape,
    LieDetectorVioletta,
    EliteBossBar,
    BoosterTimer(Booster),
    HexaBoosterExchange,
    EscSettings,
}

impl DetectionTask {
    pub open spec fn spec_repeat_delay_millis(self) -> u64 {
        match self {
            DetectionTask::AutoMob
            | DetectionTask::MonsterParkEnemies
            | DetectionTask::MonsterParkPortals => 0,
            DetectionTask::DailyQuestProgress => 1500,
            DetectionTask::DailyQuestComplete => 1000,
            DetectionTask::FamiliarEssence
            | DetectionTask::BoosterTimer(_)
            | DetectionTask::HexaBoosterExchange => 10000,
            DetectionTask::LieDetectorShape
            | DetectionTask::LieDetectorVioletta
            | DetectionTask::EscSettings => 3000,
            DetectionTask::EliteBossBar => 5000,
        }
    }

    /// How long to wait between two runs of this detection.
    pub fn repeat_delay_millis(self) -> (millis: u64)
        ensures
            millis == self.spec_repeat_delay_millis(),
    {
        match self {
            DetectionTask::AutoMob
            | DetectionTask::MonsterParkEnemies
            | DetectionTask::MonsterParkPortals => 0,
            DetectionTask::DailyQuestProgress => 1500,
            DetectionTask::DailyQuestComplete => 1000,
            DetectionTask::FamiliarEssence
            | DetectionTask::BoosterTimer(_)
            | DetectionTask::HexaBoosterExchange => 10000,
            DetectionTask::LieDetectorShape
            | DetectionTask::LieDetectorVioletta
            | DetectionTask::EscSettings => 3000,
            DetectionTask::EliteBossBar => 5000,
        }
    }
}

/// A use of a detection, with what it is to look at.
#[derive(Debug, PartialEq, Eq)]
pub enum DetectionRequest {
    /// The mobs within `bound`, for a player called `name` at `pos` on the minimap at `bbox`.
    Mobs { bbox: Rect, bound: Bound, pos: Point, name: Option<String> },
    /// The enemies on the minimap at the given place.
    MonsterParkEnemies(Rect),
    /// The portals on the minimap at the given place.
    MonsterParkPortals(Rect),
    DailyQuestProgress,
    DailyQuestComplete,
    FamiliarEssence,
    LieDetectorShape,
    LieDetectorVioletta,
    EliteBossBar,
    BoosterTimer(Booster),
    /// Whether there is as much Sol Erda as the given condition asks for, and no booster.
    HexaBoosterExchange(ExchangeHexaBoosterCondition),
    EscSettings,
}

impl DetectionRequest {
    pub open spec fn spec_task(self) -> DetectionTask {
        match self {
            DetectionRequest::Mobs { .. } => DetectionTask::AutoMob,
            DetectionRequest::MonsterParkEnemies(_) => DetectionTask::MonsterParkEnemies,
            DetectionRequest::MonsterParkPortals(_) => DetectionTask::MonsterParkPortals,
            DetectionRequest::DailyQuestProgress => DetectionTask::DailyQuestProgress,
            DetectionRequest::DailyQuestComplete => DetectionTask::DailyQuestComplete,
            DetectionRequest::FamiliarEssence => DetectionTask::FamiliarEssence,
            DetectionRequest::LieDetectorShape => DetectionTask::LieDetectorShape,
            DetectionRequest::LieDetectorVioletta => DetectionTask::LieDetectorVioletta,
            DetectionRequest::EliteBossBar => DetectionTask::EliteBossBar,
            DetectionRequest::BoosterTimer(kind) => DetectionTask::BoosterTimer(kind),
            DetectionRequest::HexaBoosterExchange(_) => DetectionTask::HexaBoosterExchange,
            DetectionRequest::EscSettings => DetectionTask::EscSettings,
        }
    }

    /// The detection that is used.
    pub fn task(&self) -> (r: DetectionTask)
        ensures
            r == self.spec_task(),
    {
        match self {
            DetectionRequest::Mobs { .. } => DetectionTask::AutoMob,
            DetectionRequest::MonsterParkEnemies(_) => DetectionTask::MonsterParkEnemies,
            DetectionRequest::MonsterParkPortals(_) => DetectionTask::MonsterParkPortals,
            DetectionRequest::DailyQuestProgress => DetectionTask::DailyQuestProgress,
            DetectionRequest::DailyQuestComplete => DetectionTask::DailyQuestComplete,
            DetectionRequest::FamiliarEssence => DetectionTask::FamiliarEssence,
            DetectionRequest::LieDetectorShape => DetectionTask::LieDetectorShape,
            DetectionRequest::LieDetectorVioletta => DetectionTask::LieDetectorVioletta,
            DetectionRequest::EliteBossBar => DetectionTask::EliteBossBar,
            DetectionRequest::BoosterTimer(kind) => DetectionTask::BoosterTimer(*kind),
            DetectionRequest::HexaBoosterExchange(_) => DetectionTask::HexaBoosterExchange,
            DetectionRequest::EscSettings => DetectionTask::EscSettings,
        }
    }
}

/// A mob seen on screen.
#[derive(Clone, Copy, Debug, PartialEq, Eq, Structural)]
pub struct MobSighting {
    /// Where the mob is on the minimap, with its vertical position counted from the top.
    pub point: Point,
    /// Where to stand to hit the mob, if there is a place.
    pub reachable: Option<Point>,
}

/// The outcomes of the detections, as they stand at the start of a tick.
#[derive(Debug)]
pub struct Detections {
    /// Whether there is a screen to detect on.
    pub available: bool,
    pub mobs: Update<Vec<MobSighting>>,
    pub monster_park_enemies: Update<Vec<Rect>>,
    pub monster_park_portals: Update<Vec<Rect>>,
    /// The kill counts on screen, each with its target.
    pub daily_quest_progress: Update<Vec<(u32, u32)>>,
    pub daily_quest_complete: Update<()>,
    pub familiar_essence_depleted: Update<bool>,
    pub lie_detector_shape: Update<bool>,
    pub lie_detector_violetta: Update<bool>,
    pub elite_boss_bar: Update<bool>,
    pub generic_booster_timer_visible: Update<bool>,
    pub hexa_booster_timer_visible: Update<bool>,
    pub hexa_booster_exchangeable: Update<bool>,
    pub esc_settings: Update<bool>,
    pub dialog_continue_button: bool,
    pub monster_park_entry_map: bool,
}

impl Detections {
    /// Whether the timer of a booster in use is on screen, as the task for `kind` saw it.
    pub open spec fn spec_booster_timer(self, kind: Booster) -> Update<bool> {
        match kind {
            Booster::Generic => self.generic_booster_timer_visible,
            Booster::Hexa => self.hexa_booster_timer_visible,
        }
    }

    /// No screen, and nothing detected yet.
    pub fn unavailable() -> (r: Detections)
        ensures
            !r.available,
            r.mobs is Pending,
            r.monster_park_enemies is Pending,
            r.monster_park_portals is Pending,
            r.daily_quest_progress is Pending,
            r.daily_quest_complete is Pending,
            r.familiar_essence_depleted is Pending,
            r.lie_detector_shape is Pending,
            r.lie_detector_violetta is Pending,
            r.elite_boss_bar is Pending,
            r.generic_booster_timer_visible is Pending,
            r.hexa_booster_timer_visible is Pending,
            r.hexa_booster_exchangeable is Pending,
            r.esc_settings is Pending,
            !r.dialog_continue_button,
            !r.monster_park_entry_map,
    {
        Detections {
            available: false,
            mobs: Update::Pending,
            monster_park_enemies: Update::Pending,
            monster_park_portals: Update::Pending,
            daily_quest_progress: Update::Pending,
            daily_quest_complete: Update::Pending,
            familiar_essence_depleted: Update::Pending,
            lie_detector_shape: Update::Pending,
            lie_detector_violetta: Update::Pending,
            elite_boss_bar: Update::Pending,
            generic_booster_timer_visible: Update::Pending,
            hexa_booster_timer_visible: Update::Pending,
            hexa_booster_exchangeable: Update::Pending,
            esc_settings: Update::Pending,
            dialog_continue_button: false,
            monster_park_entry_map: false,
        }
    }

    /// Whether the timer of a booster in use is on screen, as the task for `kind` saw it.
    pub fn booster_timer(&self, kind: Booster) -> (r: &Update<bool>)
        ensures
            *r == self.spec_booster_timer(kind),
    {
        match kind {
            Booster::Generic => &self.generic_booster_timer_visible,
            Booster::Hexa => &self.hexa_booster_timer_visible,
        }
    }
}

/// The random draws of a tick.
#[derive(Clone, Copy, Debug, Default, PartialEq, Eq, Structural)]
pub struct Draws {
    /// A draw that is true half of the time.
    pub coin: bool,
    /// A draw that is correlated over time and space: see
    /// [`crate::player::up_jump::perlin_draw`].
    pub perlin: bool,
    /// A draw from all numbers.
    pub number: u64,
    /// A position to explore, drawn for the area that is being hunted in: see
    /// [`crate::rotator::DefaultRotator::hunting_bound`].
    pub pathing_point: Point,
}

/// A notice for the user.
#[derive(Clone, Copy, Debug, PartialEq, Eq, Structural)]
pub enum NotificationKind {
    FailOrMapChange,
    RunTimerEnded,
    LieDetectorShapeAppear,
    LieDetectorViolettaAppear,
    EliteBossAppear,
    DailyQuestCompleted,
}

/// Whether the assistant is running.
#[derive(Clone, Copy, Debug, PartialEq, Eq, Structural)]
pub enum OperationState {
    Running,
    Halting,
}

/// A daily quest to be recorded as completed today.
#[derive(Clone, Copy, Debug, PartialEq, Eq, Structural)]
pub struct CompletedQuest {
    /// The character that completed it, if it is a saved one.
    pub character_id: Option<i64>,
    pub id: DailyQuestId,
}

/// What a tick is given and what it gives back.
#[derive(Debug)]
pub struct Resources {
    /// The inputs to simulate.
    pub input: Input,
    pub detections: Detections,
    /// The detections whose outcome has been used.
    ///
    /// A task that is not running is started on its first use, and a finished task is started
    /// anew once its outcome has been used.
    pub polled: Vec<DetectionRequest>,
    pub draws: Draws,
    pub notifications: Vec<NotificationKind>,
    pub completed_quests: Vec<CompletedQuest>,
    pub operation: OperationState,
    /// The number of the tick.
    pub tick: u64,
}

/// What rotating actions does besides giving them to the player.
pub struct Effects {
    /// The detections that are used.
    pub requests: Seq<DetectionRequest>,
    pub notifications: Seq<NotificationKind>,
    pub completed_quests: Seq<CompletedQuest>,
    /// Whether the assistant halts.
    pub halts: bool,
}

impl Effects {
    /// The given detections are used, and nothing else.
    pub open spec fn only(requests: Seq<DetectionRequest>) -> Effects {
        Effects { requests, notifications: seq![], completed_quests: seq![], halts: false }
    }

    /// These effects, after the given detections were used.
    pub open spec fn after(self, requests: Seq<DetectionRequest>) -> Effects {
        Effects { requests: requests + self.requests, ..self }
    }
}

impl Resources {
    /// Whether `self` is `before` with `events` added to the inputs, and nothing else changed.
    pub open spec fn sent(self, before: Resources, events: Seq<InputEvent>) -> bool {
        &&& self.input.events@ =~= before.input.events@ + events
        &&& self.detections == before.detections
        &&& self.polled@ == before.polled@
        &&& self.draws == before.draws
        &&& self.notifications@ == before.notifications@
        &&& self.completed_quests@ == before.completed_quests@
        &&& self.operation == before.operation
        &&& self.tick == before.tick
    }

    /// Whether `self` is `before` with `requests` added to the used detections, and nothing else
    /// changed.
    pub open spec fn used(self, before: Resources, requests: Seq<DetectionRequest>) -> bool {
        &&& self.input.events@ == before.input.events@
        &&& self.detections == before.detections
        &&& self.polled@ =~= before.polled@ + requests
        &&& self.draws == before.draws
        &&& self.notifications@ == before.notifications@
        &&& self.completed_quests@ == before.completed_quests@
        &&& self.operation == before.operation
        &&& self.tick == before.tick
    }

    /// Whether `self` is `before` with the given effects, and nothing else changed.
    pub open spec fn affected(self, before: Resources, effects: Effects) -> bool {
        &&& self.input.events@ == before.input.events@
        &&& self.detections == before.detections
        &&& self.polled@ =~= before.polled@ + effects.requests
        &&& self.draws == before.draws
        &&& self.notifications@ =~= before.notifications@ + effects.notifications
        &&& self.completed_quests@ =~= before.completed_quests@ + effects.completed_quests
        &&& self.operation == if effects.halts {
            OperationState::Halting
        } else {
            before.operation
        }
        &&& self.tick == before.tick
    }

    pub open spec fn spec_halting(self) -> bool {
        self.operation == OperationState::Halting
    }

    /// The resources of the first tick, with nothing sent and nothing used.
    pub fn new(detections: Detections, draws: Draws, operation: OperationState) -> (r: Resources)
        ensures
            r.input.events@ == Seq::<InputEvent>::empty(),
            r.detections == detections,
            r.polled@ == Seq::<DetectionRequest>::empty(),
            r.draws == draws,
            r.notifications@ == Seq::<NotificationKind>::empty(),
            r.completed_quests@ == Seq::<CompletedQuest>::empty(),
            r.operation == operation,
            r.tick == 0,
    {
        Resources {
            input: Input { events: Vec::new() },
            detections,
            polled: Vec::new(),
            draws,
            notifications: Vec::new(),
            completed_quests: Vec::new(),
            operation,
            tick: 0,
        }
    }

    /// Whether the assistant is halting.
    pub fn halting(&self) -> (r: bool)
        ensures
            r == self.spec_halting(),
    {
        match self.operation {
            OperationState::Halting => true,
            OperationState::Running => false,
        }
    }
}

/// A located minimap.
#[derive(Clone, Copy, Debug, Default, PartialEq, Eq, Structural)]
pub struct MinimapIdle {
    pub bbox: Rect,
    /// Whether something covers a part of the minimap.
    pub partially_overlapping: bool,
    pub rune: Option<Point>,
    pub has_any_other_player: bool,
    /// Whether the player stands in a portal.
    pub player_inside_portal: bool,
}

/// The minimap.
#[derive(Clone, Copy, Debug, PartialEq, Eq, Structural)]
pub enum Minimap {
    Detecting,
    Idle(MinimapIdle),
}

/// What is known of the current map.
#[derive(Debug)]
pub struct MinimapContext {
    pub platforms: Vec<Platform>,
}

#[derive(Debug)]
pub struct MinimapEntity {
    pub state: Minimap,
    pub context: MinimapContext,
}

/// A skill.
#[derive(Clone, Copy, Debug, PartialEq, Eq, Structural)]
pub enum Skill {
    Detecting,
    /// Off cooldown.
    Idle,
    Cooldown,
}

/// The tracked skills.
#[derive(Clone, Copy, Debug, PartialEq, Eq, Structural)]
pub struct Skills {
    pub erda_shower: Skill,
}

/// A buff.
#[derive(Clone, Copy, Debug, PartialEq, Eq, Structural)]
pub enum BuffKind {
    Rune,
    Familiar,
    ExpCouponX2,
    ExpCouponX3,
    ExpCouponX4,
    BonusExpCoupon,
    MvpBonusExpCoupon,
    WealthAcquisitionPotion,
    SmallWealthAcquisitionPotion,
    ExpAccumulationPotion,
    SmallExpAccumulationPotion,
    /// Any other buff, by its number.
    Other(u8),
}

/// Whether a buff is active.
#[derive(Clone, Copy, Debug, PartialEq, Eq, Structural)]
pub enum Buff {
    No,
    Yes,
    /// It was active and may have ended.
    Volatile,
}

/// The state of each buff. One that is not listed is not active; of several entries for one
/// buff the first counts.
#[derive(Debug)]
pub struct Buffs {
    pub states: Vec<(BuffKind, Buff)>,
}

/// The state of `kind` among the entries.
pub open spec fn buff_state(states: Seq<(BuffKind, Buff)>, kind: BuffKind) -> Buff
    decreases states.len(),
{
    if states.len() == 0 {
        Buff::No
    } else if states[0].0 == kind {
        states[0].1
    } else {
        buff_state(states.skip(1), kind)
    }
}

impl Buffs {
    pub open spec fn spec_state(self, kind: BuffKind) -> Buff {
        buff_state(self.states@, kind)
    }

    /// The state of a buff.
    pub fn state(&self, kind: BuffKind) -> (r: Buff)
        ensures
            r == self.spec_state(kind),
    {
        let mut i: usize = 0;
        assert(self.states@.skip(0) == self.states@);
        while i < self.states.len()
            invariant
                i <= self.states.len(),
                buff_state(self.states@.skip(i as int), kind) == buff_state(self.states@, kind),
            decreases self.states.len() - i,
        {
            let (listed, state) = self.states[i];
            if listed == kind {
                return state;
            }
            assert(self.states@.skip(i as int).skip(1) == self.states@.skip(i + 1));
            i += 1;
        }
        Buff::No
    }
}

/// The world as it was last seen.
#[derive(Debug)]
pub struct World {
    pub minimap: MinimapEntity,
    pub player: PlayerEntity,
    pub skills: Skills,
    pub buffs: Buffs,
}

} // verus!
