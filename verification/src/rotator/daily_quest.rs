//! The daily quests: traveling to each hunting ground and mobbing there until the quest is done.

use vstd::prelude::*;

use crate::daily::{
    texts, DailyQuestEntry, DailyQuestId, DailyQuestNavigation, DailyQuestNavigationView,
    WorldMapRegion,
};
use crate::ecs::{DetectionRequest, Detections, MinimapContext, Resources, Update};
use crate::geometry::{fits, Rect};
use crate::models::{MobbingKey, Platform};
use crate::player::actions::{
    NavigateToHuntingGround, NavigateToHuntingGroundView, PlayerAction, PlayerActionView,
};
use crate::player::context::{Pathing, PlayerConfig, PlayerContext, PlayerContextView};
use crate::player::navigate_to_hunting_ground::DROPDOWN_SLOTS;

verus! {

/// How wide the area below a "Quest complete!" notice is that shows which quest it is about.
pub const DAILY_QUEST_COMPLETE_LABEL_ROI_WIDTH: i32 = 300;

/// How much higher than the notice that area is.
pub const DAILY_QUEST_COMPLETE_LABEL_ROI_PADDING: i32 = 24;

/// How often the mobbing key is used while exploring a hunting ground.
pub const DAILY_QUEST_AUTO_MOB_USE_KEY_UPDATE_MILLIS: u64 = 500;

/// Where, relative to a "Quest complete!" notice, and what to look for to tell that it is about a
/// daily quest.
pub fn quest_complete_label(popup: Rect) -> (r: (Rect, String))
    requires
        fits(popup.y + popup.height),
        fits(popup.height + DAILY_QUEST_COMPLETE_LABEL_ROI_PADDING),
    ensures
        r.0.x == popup.x,
        r.0.y == popup.y + popup.height,
        r.0.width == 300,
        r.0.height == popup.height + 24,
        r.1@ == "[Daily Quest]"@,
{
    let area = Rect {
        x: popup.x,
        y: popup.y + popup.height,
        width: DAILY_QUEST_COMPLETE_LABEL_ROI_WIDTH,
        height: popup.height + DAILY_QUEST_COMPLETE_LABEL_ROI_PADDING,
    };
    (area, "[Daily Quest]".to_owned())
}

/// How many leading elements two sequences share, from `from` on.
pub open spec fn shared_from(a: Seq<Seq<char>>, b: Seq<Seq<char>>, from: int) -> nat
    decreases a.len() - from,
{
    if 0 <= from < a.len() && from < b.len() && a[from] == b[from] {
        1 + shared_from(a, b, from + 1)
    } else {
        0
    }
}

/// How many leading dropdowns show the same selection on both routes.
pub open spec fn shared_dropdowns(
    previous: DailyQuestNavigationView,
    current: DailyQuestNavigationView,
) -> nat {
    if previous.region != current.region {
        0
    } else {
        1 + shared_from(previous.dropdown_path, current.dropdown_path, 0)
    }
}

/// Counts how many leading dropdowns, the region's first, show the same selection on both routes.
///
/// The world map keeps its selections when it is closed. So these need not be selected again.
pub fn shared_dropdown_prefix_len(
    previous: &DailyQuestNavigation,
    current: &DailyQuestNavigation,
) -> (r: usize)
    requires
        previous.dropdown_path.len() < usize::MAX,
    ensures
        r == shared_dropdowns(previous@, current@),
{
    if previous.region != current.region {
        return 0;
    }
    let ghost a = texts(previous.dropdown_path@);
    let ghost b = texts(current.dropdown_path@);
    let mut i: usize = 0;
    while i < previous.dropdown_path.len() && i < current.dropdown_path.len()
        && previous.dropdown_path[i] == current.dropdown_path[i]
        invariant
            i <= previous.dropdown_path.len(),
            i <= current.dropdown_path.len(),
            a == texts(previous.dropdown_path@),
            b == texts(current.dropdown_path@),
            shared_from(a, b, 0) == i + shared_from(a, b, i as int),
        decreases previous.dropdown_path.len() - i,
    {
        i += 1;
    }
    assert(shared_from(a, b, i as int) == 0);
    1 + i
}

/// How mobbing explored the map before a run of daily quests.
#[derive(Debug)]
pub struct DailyQuestSavedPathing {
    pub platforms: Vec<Platform>,
    pub pathing: Pathing,
}

/// What a [`DailyQuestSavedPathing`] holds.
pub struct SavedPathingView {
    pub platforms: Seq<Platform>,
    pub pathing: Pathing,
}

/// What an optional [`DailyQuestSavedPathing`] holds.
pub open spec fn saved_view(saved: Option<DailyQuestSavedPathing>) -> Option<SavedPathingView> {
    match saved {
        Some(saved) => Some(
            SavedPathingView { platforms: saved.platforms@, pathing: saved.pathing },
        ),
        None => None,
    }
}

/// A run of daily quests.
#[derive(Debug)]
pub struct DailyQuestRun {
    /// The quests to do, in order. They stay when the rotation is paused.
    pub entries: Vec<DailyQuestEntry>,
    /// The mobbing key for all quests.
    pub mobbing_key: MobbingKey,
    /// The character whose quests these are, if it is a saved one.
    pub character_id: Option<i64>,
    /// The position of the current quest. Once past the last one, the run is over. It stays when
    /// the rotation is paused.
    pub index: usize,
    /// Whether the journey to the current hunting ground has been started.
    pub navigating: bool,
    /// The kill counts last seen on screen, each with its target.
    pub progress: Vec<(u32, u32)>,
    /// Whether the notice that the current quest is complete has been seen. It is visible for a
    /// few seconds only.
    pub complete_popup_detected: bool,
    /// How mobbing explored the map before this run, until the run is over.
    pub saved_pathing: Option<DailyQuestSavedPathing>,
}

/// What a [`DailyQuestRun`] holds.
pub struct DailyQuestRunView {
    pub entries: Seq<DailyQuestEntry>,
    pub mobbing_key: MobbingKey,
    pub character_id: Option<i64>,
    pub index: int,
    pub navigating: bool,
    pub progress: Seq<(u32, u32)>,
    pub complete_popup_detected: bool,
    pub saved_pathing: Option<SavedPathingView>,
}

impl View for DailyQuestRun {
    type V = DailyQuestRunView;

    open spec fn view(&self) -> DailyQuestRunView {
        DailyQuestRunView {
            entries: self.entries@,
            mobbing_key: self.mobbing_key,
            character_id: self.character_id,
            index: self.index as int,
            navigating: self.navigating,
            progress: self.progress@,
            complete_popup_detected: self.complete_popup_detected,
            saved_pathing: saved_view(self.saved_pathing),
        }
    }
}

/// Whether the first kill count with the given target has reached it.
pub open spec fn target_reached(progress: Seq<(u32, u32)>, target: u32, from: int) -> bool
    decreases progress.len() - from,
{
    if 0 <= from < progress.len() {
        if progress[from].1 == target {
            progress[from].0 >= target
        } else {
            target_reached(progress, target, from + 1)
        }
    } else {
        false
    }
}

/// How mobbing explores a hunting ground: along its platforms if they are known.
pub open spec fn hunting_pathing(platforms: Seq<Platform>) -> Pathing {
    Pathing {
        platforms_pathing: platforms.len() > 0,
        platforms_pathing_up_jump_only: false,
        use_key_when_pathing: platforms.len() > 0,
        use_key_when_pathing_update_millis: DAILY_QUEST_AUTO_MOB_USE_KEY_UPDATE_MILLIS,
    }
}

/// The journey along a route, given how many dropdowns already show the right selection.
pub open spec fn journey(route: DailyQuestNavigationView, skip: nat) -> PlayerActionView {
    PlayerActionView::Navigate(
        NavigateToHuntingGroundView {
            region: route.region,
            dropdown_path: route.dropdown_path,
            location_point: route.location_point,
            sub_location_label: route.sub_location_label,
            skip_dropdown_slots: skip as usize,
        },
    )
}

/// The player's context with another configuration.
pub open spec fn with_config(context: PlayerContextView, config: PlayerConfig) -> PlayerContextView {
    PlayerContextView { config, ..context }
}

impl DailyQuestRunView {
    /// No quests to do.
    pub open spec fn nothing() -> DailyQuestRunView {
        DailyQuestRunView {
            entries: seq![],
            mobbing_key: MobbingKey::unconfigured(),
            character_id: None,
            index: 0,
            navigating: false,
            progress: seq![],
            complete_popup_detected: false,
            saved_pathing: None,
        }
    }

    /// Whether the index is that of a quest, or right after the last one.
    pub open spec fn wf(self) -> bool {
        0 <= self.index <= self.entries.len()
    }

    /// Whether there is a quest to do.
    pub open spec fn active(self) -> bool {
        self.index < self.entries.len()
    }

    /// The current quest.
    pub open spec fn current(self) -> DailyQuestEntry {
        self.entries[self.index]
    }

    /// How many dropdowns still show the selections of the quest before the current one.
    pub open spec fn skipped_dropdowns(self) -> nat {
        if self.index == 0 {
            0
        } else {
            shared_dropdowns(
                self.entries[self.index - 1].id.spec_navigation(),
                self.current().id.spec_navigation(),
            )
        }
    }

    /// The run once the journey to the current hunting ground has been started.
    pub open spec fn departed(
        self,
        context: PlayerContextView,
        platforms: Seq<Platform>,
    ) -> DailyQuestRunView {
        DailyQuestRunView {
            saved_pathing: match self.saved_pathing {
                Some(saved) => Some(saved),
                None => Some(SavedPathingView { platforms, pathing: context.config.pathing() }),
            },
            navigating: true,
            ..self
        }
    }

    /// The player's actions once the journey to the current hunting ground has been started.
    pub open spec fn departing(self, context: PlayerContextView) -> PlayerContextView {
        let id = self.current().id;
        with_config(
            context,
            context.config.with_pathing(hunting_pathing(id.spec_platforms())),
        ).with_priority(None, journey(id.spec_navigation(), self.skipped_dropdowns()))
    }

    /// The run without the progress of the current quest.
    pub open spec fn paused(self) -> DailyQuestRunView {
        DailyQuestRunView {
            navigating: false,
            progress: seq![],
            complete_popup_detected: false,
            ..self
        }
    }

    /// The run at the next quest. After the last one, the former way of exploring is not needed
    /// any more.
    pub open spec fn advanced(self) -> DailyQuestRunView {
        DailyQuestRunView {
            index: self.index + 1,
            saved_pathing: if self.index + 1 < self.entries.len() {
                self.saved_pathing
            } else {
                None
            },
            ..self.paused()
        }
    }

    /// How mobbing explores once the current quest is over: as before the run if it was the last
    /// one.
    pub open spec fn restoring(
        self,
        context: PlayerContextView,
        platforms: Seq<Platform>,
    ) -> (PlayerContextView, Seq<Platform>) {
        match self.saved_pathing {
            Some(saved) => if self.index + 1 < self.entries.len() {
                (context, platforms)
            } else {
                (
                    with_config(context, context.config.with_pathing(saved.pathing)),
                    saved.platforms,
                )
            },
            None => (context, platforms),
        }
    }

    /// The run once the screen has been looked at for the progress of the current quest.
    pub open spec fn looked(self, detections: Detections) -> DailyQuestRunView {
        DailyQuestRunView {
            progress: match detections.daily_quest_progress {
                Update::Ready(progress) => progress@,
                _ => self.progress,
            },
            complete_popup_detected: self.complete_popup_detected
                || detections.daily_quest_complete is Ready,
            ..self
        }
    }

    /// The detections that looking for the progress uses. The notice is not looked for once it
    /// has been seen.
    pub open spec fn looking(self) -> Seq<DetectionRequest> {
        if self.complete_popup_detected {
            seq![DetectionRequest::DailyQuestProgress]
        } else {
            seq![DetectionRequest::DailyQuestProgress, DetectionRequest::DailyQuestComplete]
        }
    }

    /// Whether the current quest is complete.
    pub open spec fn complete(self) -> bool {
        target_reached(self.progress, self.current().kill_target, 0) || self.complete_popup_detected
    }
}

impl DailyQuestRun {
    /// No quests to do.
    pub fn new() -> (r: DailyQuestRun)
        ensures
            r@ == DailyQuestRunView::nothing(),
    {
        DailyQuestRun {
            entries: Vec::new(),
            mobbing_key: MobbingKey::default(),
            character_id: None,
            index: 0,
            navigating: false,
            progress: Vec::new(),
            complete_popup_detected: false,
            saved_pathing: None,
        }
    }

    /// Drops the progress of the current quest.
    pub fn pause(&mut self)
        ensures
            final(self)@ == old(self)@.paused(),
    {
        self.navigating = false;
        self.progress = Vec::new();
        self.complete_popup_detected = false;
    }

    /// Starts the journey to the current hunting ground, and has the player explore along its
    /// platforms once there.
    pub fn depart(&mut self, player_context: &mut PlayerContext, minimap: &mut MinimapContext)
        requires
            old(self)@.wf(),
            old(self)@.active(),
        ensures
            final(self)@ == old(self)@.departed(old(player_context)@, old(minimap).platforms@),
            final(player_context)@ == old(self)@.departing(old(player_context)@),
            final(minimap).platforms@ == old(self)@.current().id.spec_platforms(),
    {
        let id = self.entries[self.index].id;
        let mut platforms = id.platforms();
        let has_platforms = platforms.len() > 0;
        std::mem::swap(&mut platforms, &mut minimap.platforms);
        if self.saved_pathing.is_none() {
            self.saved_pathing = Some(
                DailyQuestSavedPathing {
                    platforms,
                    pathing: player_context.config.current_pathing(),
                },
            );
        }
        player_context.config.set_pathing(
            Pathing {
                platforms_pathing: has_platforms,
                platforms_pathing_up_jump_only: false,
                use_key_when_pathing: has_platforms,
                use_key_when_pathing_update_millis: DAILY_QUEST_AUTO_MOB_USE_KEY_UPDATE_MILLIS,
            },
        );
        let navigation = id.navigation();
        let skip_dropdown_slots: usize = if self.index == 0 {
            0
        } else {
            let previous_id = self.entries[self.index - 1].id;
            let previous = previous_id.navigation();
            proof {
                routes_are_short(previous_id);
                assert(texts(previous.dropdown_path@).len() == previous.dropdown_path@.len());
            }
            shared_dropdown_prefix_len(&previous, &navigation)
        };
        player_context.set_priority_action(
            None,
            PlayerAction::NavigateToHuntingGround(
                NavigateToHuntingGround {
                    region: navigation.region,
                    dropdown_path: navigation.dropdown_path,
                    location_point: navigation.location_point,
                    sub_location_label: navigation.sub_location_label,
                    skip_dropdown_slots,
                },
            ),
        );
        self.navigating = true;
    }

    /// Goes on to the next quest. After the last one, the player explores as before the run.
    pub fn advance(&mut self, player_context: &mut PlayerContext, minimap: &mut MinimapContext)
        requires
            old(self)@.wf(),
            old(self)@.active(),
        ensures
            final(self)@ == old(self)@.advanced(),
            (final(player_context)@, final(minimap).platforms@) == old(self)@.restoring(
                old(player_context)@,
                old(minimap).platforms@,
            ),
            final(self)@.wf(),
    {
        let count: usize = self.entries.len();
        self.pause();
        self.index = self.index + 1;
        if self.index >= count {
            if let Some(saved) = self.saved_pathing.take() {
                minimap.platforms = saved.platforms;
                player_context.config.set_pathing(saved.pathing);
            }
        }
    }

    /// Looks at the screen for the progress of the current quest. Whether the quest is complete.
    pub fn look(&mut self, resources: &mut Resources) -> (r: bool)
        requires
            old(self)@.wf(),
            old(self)@.active(),
        ensures
            final(self)@ == old(self)@.looked(old(resources).detections),
            r == final(self)@.complete(),
            final(resources).used(*old(resources), old(self)@.looking()),
    {
        resources.polled.push(DetectionRequest::DailyQuestProgress);
        if let Update::Ready(progress) = &resources.detections.daily_quest_progress {
            self.progress = copied(progress);
        }
        let kill_count_reached = has_reached(
            &self.progress,
            self.entries[self.index].kill_target,
        );
        if !self.complete_popup_detected {
            resources.polled.push(DetectionRequest::DailyQuestComplete);
            if let Update::Ready(_) = &resources.detections.daily_quest_complete {
                self.complete_popup_detected = true;
            }
        }
        kill_count_reached || self.complete_popup_detected
    }
}

fn copied(progress: &Vec<(u32, u32)>) -> (r: Vec<(u32, u32)>)
    ensures
        r@ == progress@,
{
    let mut r: Vec<(u32, u32)> = Vec::new();
    let mut i: usize = 0;
    while i < progress.len()
        invariant
            i <= progress.len(),
            r@ == progress@.take(i as int),
        decreases progress.len() - i,
    {
        r.push(progress[i]);
        i += 1;
    }
    assert(progress@.take(i as int) == progress@);
    r
}

fn has_reached(progress: &Vec<(u32, u32)>, kill_target: u32) -> (r: bool)
    ensures
        r == target_reached(progress@, kill_target, 0),
{
    let mut i: usize = 0;
    while i < progress.len()
        invariant
            i <= progress.len(),
            target_reached(progress@, kill_target, 0) == target_reached(
                progress@,
                kill_target,
                i as int,
            ),
        decreases progress.len() - i,
    {
        let (current, target): (u32, u32) = progress[i];
        if target == kill_target {
            return current >= target;
        }
        i += 1;
    }
    false
}

/// No route takes more dropdowns than the world map can show.
pub proof fn routes_are_short(id: DailyQuestId)
    ensures
        1 <= id.spec_navigation().dropdown_path.len() <= 2,
        id.spec_navigation().selections().len() <= DROPDOWN_SLOTS,
{
}

proof fn shared_from_is_shared(a: Seq<Seq<char>>, b: Seq<Seq<char>>, from: int)
    requires
        0 <= from <= a.len(),
        from <= b.len(),
    ensures
        ({
            let end = from + shared_from(a, b, from);
            &&& end <= a.len()
            &&& end <= b.len()
            &&& forall|i: int| from <= i < end ==> #[trigger] a[i] == b[i]
            &&& end < a.len() && end < b.len() ==> a[end] != b[end]
        }),
    decreases a.len() - from,
{
    if from < a.len() && from < b.len() && a[from] == b[from] {
        shared_from_is_shared(a, b, from + 1);
    }
}

/// The dropdowns that are skipped are those that already show the right selection: all of them
/// up to the first that does not.
pub proof fn skipped_dropdowns_show_the_selections(
    previous: DailyQuestNavigationView,
    current: DailyQuestNavigationView,
)
    ensures
        ({
            let shared = shared_dropdowns(previous, current) as int;
            let shown = previous.selections();
            let wanted = current.selections();
            &&& shared <= shown.len()
            &&& shared <= wanted.len()
            &&& forall|i: int| 0 <= i < shared ==> #[trigger] shown[i] == wanted[i]
            &&& shared < shown.len() && shared < wanted.len() ==> shown[shared] != wanted[shared]
        }),
{
    let shared = shared_dropdowns(previous, current) as int;
    let shown = previous.selections();
    let wanted = current.selections();
    if previous.region == current.region {
        shared_from_is_shared(previous.dropdown_path, current.dropdown_path, 0);
        assert forall|i: int| 0 <= i < shared implies #[trigger] shown[i] == wanted[i] by {
            if i > 0 {
                assert(previous.dropdown_path[i - 1] == current.dropdown_path[i - 1]);
            }
        }
        assert(shared < shown.len() ==> shown[shared] == previous.dropdown_path[shared - 1]);
        assert(shared < wanted.len() ==> wanted[shared] == current.dropdown_path[shared - 1]);
    } else {
        region_names_differ(previous.region, current.region);
    }
}

proof fn region_names_differ(a: WorldMapRegion, b: WorldMapRegion)
    requires
        a != b,
    ensures
        a.name() != b.name(),
{
    reveal_strlit("Maple World");
    reveal_strlit("Grandis");
    reveal_strlit("Arcane River");
    reveal_strlit("Hielo");
    assert(a.name().len() != b.name().len());
}

/// What is selected in the last dropdown for a quest.
pub open spec fn last_selection(id: DailyQuestId) -> Seq<char> {
    id.spec_navigation().dropdown_path.last()
}

/// The length and the first two characters of the last selection for a quest.
spec fn selection_start(id: DailyQuestId) -> (int, char, char) {
    match id {
        DailyQuestId::VanishingJourney => (17, 'V', 'a'),
        DailyQuestId::ChuChuIsland => (14, 'C', 'h'),
        DailyQuestId::Lachelein => (28, 'L', 'a'),
        DailyQuestId::Arcana => (29, 'A', 'r'),
        DailyQuestId::Morass => (23, 'M', 'o'),
        DailyQuestId::Esfera => (22, 'E', 's'),
        DailyQuestId::Moonbridge => (10, 'M', 'o'),
        DailyQuestId::LabyrinthOfSuffering => (22, 'L', 'a'),
        DailyQuestId::Limina => (6, 'L', 'i'),
        DailyQuestId::Cernium => (7, 'C', 'e'),
        DailyQuestId::HotelArcus => (11, 'H', 'o'),
        DailyQuestId::Odium => (5, 'O', 'd'),
        DailyQuestId::ShangriLa => (10, 'S', 'h'),
        DailyQuestId::Arteria => (7, 'A', 'r'),
        DailyQuestId::Carcion => (7, 'C', 'a'),
        DailyQuestId::Tallahart => (9, 'T', 'a'),
    }
}

proof fn last_selection_starts_so(id: DailyQuestId)
    ensures
        last_selection(id).len() == selection_start(id).0,
        last_selection(id)[0] == selection_start(id).1,
        last_selection(id)[1] == selection_start(id).2,
{
    reveal_strlit("Vanishing Journey");
    reveal_strlit("Chu Chu Island");
    reveal_strlit("Lachelein, the Dreaming City");
    reveal_strlit("Arcana, The Mysterious Forest");
    reveal_strlit("Morass, Swamp of Memory");
    reveal_strlit("Esfera, The Origin Sea");
    reveal_strlit("Moonbridge");
    reveal_strlit("Labyrinth of Suffering");
    reveal_strlit("Limina");
    reveal_strlit("Cernium");
    reveal_strlit("Hotel Arcus");
    reveal_strlit("Odium");
    reveal_strlit("Shangri-La");
    reveal_strlit("Arteria");
    reveal_strlit("Carcion");
    reveal_strlit("Tallahart");
}

proof fn region_subdivisions_are_no_last_selections(id: DailyQuestId)
    ensures
        last_selection(id) != "Tenebris"@,
        last_selection(id) != "Western Grandis"@,
{
    last_selection_starts_so(id);
    reveal_strlit("Tenebris");
    reveal_strlit("Western Grandis");
}

/// No two quests have the same last selection, so traveling from one to another always takes at
/// least one.
pub proof fn another_quest_takes_a_selection(previous: DailyQuestId, current: DailyQuestId)
    requires
        previous != current,
    ensures
        shared_dropdowns(previous.spec_navigation(), current.spec_navigation())
            < current.spec_navigation().selections().len(),
{
    let a = previous.spec_navigation();
    let b = current.spec_navigation();
    last_selection_starts_so(previous);
    last_selection_starts_so(current);
    region_subdivisions_are_no_last_selections(current);
    skipped_dropdowns_show_the_selections(a, b);
    routes_are_short(previous);
    routes_are_short(current);
    if shared_dropdowns(a, b) == b.selections().len() {
        let last = b.selections().len() - 1;
        assert(a.selections()[last] == b.selections()[last]);
        assert(b.selections()[last] == last_selection(current));
        assert(a.selections()[last] == a.dropdown_path[last - 1]);
        assert(a.dropdown_path[last - 1] == last_selection(previous) || a.dropdown_path[last - 1]
            == "Tenebris"@ || a.dropdown_path[last - 1] == "Western Grandis"@);
    }
}

} // verus!
