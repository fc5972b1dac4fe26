//! Traveling to a hunting ground through the world map.

use vstd::prelude::*;

use super::actions::{optional_text, NavigateToHuntingGround, NavigateToHuntingGroundView};
use super::context::PlayerContextView;
use super::timeout::{Lifecycle, Timeout};
use super::{Player, PlayerEntity};
use crate::daily::texts;
use crate::ecs::{InputEvent, MouseKind, Resources};
use crate::geometry::{fits, Rect};
use crate::models::KeyKind;

verus! {

/// The number of dropdowns that the world map can show.
pub const DROPDOWN_SLOTS: usize = 3;

/// How far below an opened dropdown its options are searched.
pub const DROPDOWN_OPTIONS_HEIGHT: i32 = 300;

/// The box of the dropdown at `slot`, relative to the world map title: the region's first, then
/// one for each further selection.
pub open spec fn slot_offset(slot: int) -> Rect {
    if slot == 0 {
        Rect { x: 94, y: 36, width: 107, height: 20 }
    } else if slot == 1 {
        Rect { x: 204, y: 36, width: 92, height: 20 }
    } else {
        Rect { x: 303, y: 36, width: 101, height: 20 }
    }
}

/// The area of the world map's nodes, relative to the world map title.
pub open spec fn content_offset() -> Rect {
    Rect { x: 6, y: 73, width: 630, height: 465 }
}

fn dropdown_slot_offset(slot: usize) -> (r: Rect)
    requires
        slot < DROPDOWN_SLOTS,
    ensures
        r == slot_offset(slot as int),
{
    if slot == 0 {
        Rect { x: 94, y: 36, width: 107, height: 20 }
    } else if slot == 1 {
        Rect { x: 204, y: 36, width: 92, height: 20 }
    } else {
        Rect { x: 303, y: 36, width: 101, height: 20 }
    }
}

/// The steps of traveling to a hunting ground.
#[derive(Clone, Copy, Debug, PartialEq, Eq, Structural)]
pub enum State {
    /// Presses the world map key and waits for the world map to open.
    OpeningWorldMap(Timeout),
    /// Clicks the minimap's button for the world map and waits for the world map to open, for
    /// when there is no key or it did not open the world map.
    ClickingMinimapButton(Timeout),
    /// Clicks the dropdown at the given slot. The rectangle, here and below, is the world map
    /// title.
    OpeningDropdown(Timeout, Rect, usize),
    /// Clicks the option to select in the dropdown at the given slot.
    SelectingOption(Timeout, Rect, usize),
    /// Double-clicks the location's node.
    SelectingLocation(Timeout, Rect),
    /// Double-clicks the sub-location's node, for when the location's node opened another view
    /// rather than the teleport dialog.
    SelectingSubLocation(Timeout, Rect),
    /// Clicks the `Confirm` button of the teleport dialog.
    ConfirmingTeleport(Timeout),
    /// Over. Whether the hunting ground was reached.
    Done(bool),
}

/// Traveling to a hunting ground.
#[derive(Debug)]
pub struct NavigatingToHuntingGround {
    pub state: State,
    pub target: NavigateToHuntingGround,
}

/// What a step needs to see on screen.
#[derive(Debug)]
pub enum NavigationQuery {
    Nothing,
    WorldMapTitle,
    MinimapWorldMapButton,
    /// The given text within the given area.
    Label(Rect, String),
    PopupConfirmButton,
}

/// What a [`NavigationQuery`] holds.
pub enum NavigationQueryView {
    Nothing,
    WorldMapTitle,
    MinimapWorldMapButton,
    Label(Rect, Seq<char>),
    PopupConfirmButton,
}

impl View for NavigationQuery {
    type V = NavigationQueryView;

    open spec fn view(&self) -> NavigationQueryView {
        match self {
            NavigationQuery::Nothing => NavigationQueryView::Nothing,
            NavigationQuery::WorldMapTitle => NavigationQueryView::WorldMapTitle,
            NavigationQuery::MinimapWorldMapButton => NavigationQueryView::MinimapWorldMapButton,
            NavigationQuery::Label(area, text) => NavigationQueryView::Label(*area, text@),
            NavigationQuery::PopupConfirmButton => NavigationQueryView::PopupConfirmButton,
        }
    }
}

/// How many dropdowns there are to select in: the region's and one for each entry of the path.
pub open spec fn total_slots(target: NavigateToHuntingGroundView) -> nat {
    1 + target.dropdown_path.len()
}

/// What to select in the dropdown at `slot`.
pub open spec fn slot_text(target: NavigateToHuntingGroundView, slot: int) -> Option<Seq<char>> {
    if slot == 0 {
        Some(target.region.name())
    } else if slot - 1 < target.dropdown_path.len() {
        Some(target.dropdown_path[slot - 1])
    } else {
        None
    }
}

/// The first step once the world map is open: the first dropdown that does not already show the
/// right selection, or the location if there is none.
pub open spec fn after_world_map_open(target: NavigateToHuntingGroundView, anchor: Rect) -> State {
    if target.skip_dropdown_slots >= total_slots(target) {
        State::SelectingLocation(Timeout::fresh(), anchor)
    } else {
        State::OpeningDropdown(Timeout::fresh(), anchor, target.skip_dropdown_slots)
    }
}

/// A click in the middle of `rect`.
pub open spec fn click_on(rect: Rect) -> InputEvent {
    InputEvent::Mouse(rect.center_x() as i32, rect.center_y() as i32, MouseKind::Click)
}

/// The area at `offset` from `anchor`.
pub open spec fn area_at(anchor: Rect, offset: Rect) -> Rect {
    Rect {
        x: (anchor.x + offset.x) as i32,
        y: (anchor.y + offset.y) as i32,
        width: offset.width,
        height: offset.height,
    }
}

/// Whether the area at `offset` from `anchor` is at a pixel position.
pub open spec fn area_fits(anchor: Rect, offset: Rect) -> bool {
    fits(anchor.x + offset.x) && fits(anchor.y + offset.y)
}

/// The area in which the options of the dropdown at `slot` are searched.
pub open spec fn options_offset(slot: int) -> Rect {
    Rect { height: DROPDOWN_OPTIONS_HEIGHT, ..slot_offset(slot) }
}

/// Giving up with the world map open: it is closed again.
pub open spec fn aborted() -> (State, Seq<InputEvent>) {
    (State::Done(false), seq![InputEvent::Key(KeyKind::Esc)])
}

/// What one step makes of the state, and the inputs it sends. `seen` is the answer to the step's
/// query.
pub open spec fn navigation_step(
    state: State,
    target: NavigateToHuntingGroundView,
    world_map_key: Option<KeyKind>,
    lifecycle: Lifecycle,
    seen: Option<Rect>,
) -> (State, Seq<InputEvent>) {
    match state {
        State::OpeningWorldMap(_) => match world_map_key {
            None => (State::ClickingMinimapButton(Timeout::fresh()), seq![]),
            Some(key) => match lifecycle {
                Lifecycle::Started(timeout) => (
                    State::OpeningWorldMap(timeout),
                    seq![InputEvent::Key(key)],
                ),
                Lifecycle::Ended => match seen {
                    Some(anchor) => (after_world_map_open(target, anchor), seq![]),
                    None => (State::ClickingMinimapButton(Timeout::fresh()), seq![]),
                },
                Lifecycle::Updated(timeout) => (State::OpeningWorldMap(timeout), seq![]),
            },
        },
        State::ClickingMinimapButton(_) => match lifecycle {
            Lifecycle::Started(timeout) => match seen {
                Some(button) => (State::ClickingMinimapButton(timeout), seq![click_on(button)]),
                None => (State::Done(false), seq![]),
            },
            Lifecycle::Ended => match seen {
                Some(anchor) => (after_world_map_open(target, anchor), seq![]),
                None => (State::Done(false), seq![]),
            },
            Lifecycle::Updated(timeout) => (State::ClickingMinimapButton(timeout), seq![]),
        },
        State::OpeningDropdown(_, anchor, slot) => if slot >= DROPDOWN_SLOTS {
            aborted()
        } else {
            match lifecycle {
                Lifecycle::Started(timeout) => (
                    State::OpeningDropdown(timeout, anchor, slot),
                    seq![click_on(area_at(anchor, slot_offset(slot as int)))],
                ),
                Lifecycle::Ended => (
                    State::SelectingOption(Timeout::fresh(), anchor, slot),
                    seq![],
                ),
                Lifecycle::Updated(timeout) => (
                    State::OpeningDropdown(timeout, anchor, slot),
                    seq![],
                ),
            }
        },
        State::SelectingOption(_, anchor, slot) => match lifecycle {
            Lifecycle::Started(timeout) => if slot_text(target, slot as int) is None {
                aborted()
            } else {
                match seen {
                    Some(option) => (
                        State::SelectingOption(timeout, anchor, slot),
                        seq![click_on(option)],
                    ),
                    None => aborted(),
                }
            },
            Lifecycle::Ended => (
                if slot + 1 < total_slots(target) {
                    State::OpeningDropdown(Timeout::fresh(), anchor, (slot + 1) as usize)
                } else {
                    State::SelectingLocation(Timeout::fresh(), anchor)
                },
                seq![],
            ),
            Lifecycle::Updated(timeout) => (
                State::SelectingOption(timeout, anchor, slot),
                seq![],
            ),
        },
        State::SelectingLocation(_, anchor) => match lifecycle {
            Lifecycle::Started(timeout) => {
                let click = InputEvent::Mouse(
                    (anchor.x + target.location_point.0) as i32,
                    (anchor.y + target.location_point.1) as i32,
                    MouseKind::Click,
                );
                (State::SelectingLocation(timeout, anchor), seq![click, click])
            },
            Lifecycle::Ended => if seen is Some {
                (State::ConfirmingTeleport(Timeout::fresh()), seq![])
            } else if target.sub_location_label is Some {
                (State::SelectingSubLocation(Timeout::fresh(), anchor), seq![])
            } else {
                aborted()
            },
            Lifecycle::Updated(timeout) => (State::SelectingLocation(timeout, anchor), seq![]),
        },
        State::SelectingSubLocation(_, anchor) => if target.sub_location_label is None {
            aborted()
        } else {
            match lifecycle {
                Lifecycle::Started(timeout) => match seen {
                    Some(node) => (
                        State::SelectingSubLocation(timeout, anchor),
                        seq![click_on(node), click_on(node)],
                    ),
                    None => aborted(),
                },
                Lifecycle::Ended => if seen is Some {
                    (State::ConfirmingTeleport(Timeout::fresh()), seq![])
                } else {
                    aborted()
                },
                Lifecycle::Updated(timeout) => (
                    State::SelectingSubLocation(timeout, anchor),
                    seq![],
                ),
            }
        },
        State::ConfirmingTeleport(_) => match lifecycle {
            Lifecycle::Started(timeout) => match seen {
                Some(button) => (State::ConfirmingTeleport(timeout), seq![click_on(button)]),
                None => aborted(),
            },
            Lifecycle::Ended => (State::Done(true), seq![]),
            Lifecycle::Updated(timeout) => (State::ConfirmingTeleport(timeout), seq![]),
        },
        State::Done(_) => (state, seq![]),
    }
}

/// What a step needs to see on screen.
pub open spec fn needed(
    state: State,
    target: NavigateToHuntingGroundView,
    world_map_key: Option<KeyKind>,
    lifecycle: Lifecycle,
) -> NavigationQueryView {
    match (state, lifecycle) {
        (State::OpeningWorldMap(_), Lifecycle::Ended) => if world_map_key is Some {
            NavigationQueryView::WorldMapTitle
        } else {
            NavigationQueryView::Nothing
        },
        (
            State::ClickingMinimapButton(_),
            Lifecycle::Started(_),
        ) => NavigationQueryView::MinimapWorldMapButton,
        (State::ClickingMinimapButton(_), Lifecycle::Ended) => NavigationQueryView::WorldMapTitle,
        (State::SelectingOption(_, anchor, slot), Lifecycle::Started(_)) => match slot_text(
            target,
            slot as int,
        ) {
            Some(text) => NavigationQueryView::Label(
                area_at(anchor, options_offset(slot as int)),
                text,
            ),
            None => NavigationQueryView::Nothing,
        },
        (
            State::SelectingLocation(_, _),
            Lifecycle::Ended,
        ) => NavigationQueryView::PopupConfirmButton,
        (
            State::SelectingSubLocation(_, anchor),
            Lifecycle::Started(_),
        ) => match target.sub_location_label {
            Some(text) => NavigationQueryView::Label(area_at(anchor, content_offset()), text),
            None => NavigationQueryView::Nothing,
        },
        (State::SelectingSubLocation(_, _), Lifecycle::Ended) => {
            if target.sub_location_label is Some {
                NavigationQueryView::PopupConfirmButton
            } else {
                NavigationQueryView::Nothing
            }
        },
        (
            State::ConfirmingTeleport(_),
            Lifecycle::Started(_),
        ) => NavigationQueryView::PopupConfirmButton,
        _ => NavigationQueryView::Nothing,
    }
}

/// Whether the area that a step searches is at a pixel position.
pub open spec fn search_fits(
    state: State,
    target: NavigateToHuntingGroundView,
    lifecycle: Lifecycle,
) -> bool {
    match (state, lifecycle) {
        (State::SelectingOption(_, anchor, slot), Lifecycle::Started(_)) => {
            slot_text(target, slot as int) is Some ==> area_fits(
                anchor,
                options_offset(slot as int),
            )
        },
        (State::SelectingSubLocation(_, anchor), Lifecycle::Started(_)) => {
            target.sub_location_label is Some ==> area_fits(anchor, content_offset())
        },
        _ => true,
    }
}

/// Whether the positions that a step clicks are pixel positions.
pub open spec fn click_fits(
    state: State,
    target: NavigateToHuntingGroundView,
    lifecycle: Lifecycle,
    seen: Option<Rect>,
) -> bool {
    match (state, lifecycle) {
        (State::OpeningDropdown(_, anchor, slot), Lifecycle::Started(_)) => {
            slot < DROPDOWN_SLOTS ==> {
                &&& area_fits(anchor, slot_offset(slot as int))
                &&& area_at(anchor, slot_offset(slot as int)).has_center()
            }
        },
        (State::SelectingLocation(_, anchor), Lifecycle::Started(_)) => {
            &&& fits(anchor.x + target.location_point.0)
            &&& fits(anchor.y + target.location_point.1)
        },
        (State::ClickingMinimapButton(_), Lifecycle::Started(_))
        | (State::SelectingOption(_, _, _), Lifecycle::Started(_))
        | (State::SelectingSubLocation(_, _), Lifecycle::Started(_))
        | (State::ConfirmingTeleport(_), Lifecycle::Started(_)) => {
            seen is Some ==> seen->0.has_center()
        },
        _ => true,
    }
}

impl State {
    /// Whether the slot is one that can have been opened.
    pub open spec fn wf(self) -> bool {
        match self {
            State::SelectingOption(_, _, slot) => slot < DROPDOWN_SLOTS,
            _ => true,
        }
    }
}

impl NavigatingToHuntingGround {
    /// Starts with opening the world map.
    pub fn new(target: NavigateToHuntingGround) -> (r: Self)
        ensures
            r.state == State::OpeningWorldMap(Timeout::fresh()),
            r.target == target,
            r.state.wf(),
    {
        Self { state: State::OpeningWorldMap(Timeout::default()), target }
    }

    /// The first step once the world map is open.
    pub fn state_after_world_map_open(&self, anchor: Rect) -> (r: State)
        ensures
            r == after_world_map_open(self.target@, anchor),
    {
        if self.target.skip_dropdown_slots > self.target.dropdown_path.len() {
            State::SelectingLocation(Timeout::default(), anchor)
        } else {
            State::OpeningDropdown(Timeout::default(), anchor, self.target.skip_dropdown_slots)
        }
    }

    /// What to select in the dropdown at `slot`.
    pub fn dropdown_slot_text(&self, slot: usize) -> (r: Option<String>)
        ensures
            optional_text(r) == slot_text(self.target@, slot as int),
    {
        if slot == 0 {
            Some(self.target.region.label())
        } else if slot - 1 < self.target.dropdown_path.len() {
            let text = self.target.dropdown_path[slot - 1].clone();
            assert(texts(self.target.dropdown_path@)[slot - 1] == text@);
            Some(text)
        } else {
            None
        }
    }

    /// The timeout of the current step and its limit, if the step waits.
    pub fn timeout(&self, world_map_key: Option<KeyKind>) -> (r: Option<(Timeout, u32)>)
        ensures
            r == match self.state {
                State::OpeningWorldMap(timeout) => if world_map_key is Some {
                    Some((timeout, 35u32))
                } else {
                    None
                },
                State::ClickingMinimapButton(timeout) => Some((timeout, 35u32)),
                State::OpeningDropdown(timeout, _, slot) => if slot < DROPDOWN_SLOTS {
                    Some((timeout, 15u32))
                } else {
                    None
                },
                State::SelectingOption(timeout, _, _) => Some((timeout, 20u32)),
                State::SelectingLocation(timeout, _) => Some((timeout, 20u32)),
                State::SelectingSubLocation(timeout, _) => {
                    if self.target.sub_location_label is Some {
                        Some((timeout, 20u32))
                    } else {
                        None
                    }
                },
                State::ConfirmingTeleport(timeout) => Some((timeout, 20u32)),
                State::Done(_) => None,
            },
    {
        match self.state {
            State::OpeningWorldMap(timeout) => if world_map_key.is_some() {
                Some((timeout, 35))
            } else {
                None
            },
            State::ClickingMinimapButton(timeout) => Some((timeout, 35)),
            State::OpeningDropdown(timeout, _, slot) => if slot < DROPDOWN_SLOTS {
                Some((timeout, 15))
            } else {
                None
            },
            State::SelectingOption(timeout, _, _) => Some((timeout, 20)),
            State::SelectingLocation(timeout, _) => Some((timeout, 20)),
            State::SelectingSubLocation(timeout, _) => if self.target.sub_location_label.is_some() {
                Some((timeout, 20))
            } else {
                None
            },
            State::ConfirmingTeleport(timeout) => Some((timeout, 20)),
            State::Done(_) => None,
        }
    }

    /// What the current step needs to see on screen.
    pub fn query(&self, world_map_key: Option<KeyKind>, lifecycle: Lifecycle) -> (r:
        NavigationQuery)
        requires
            self.state.wf(),
            search_fits(self.state, self.target@, lifecycle),
        ensures
            r@ == needed(self.state, self.target@, world_map_key, lifecycle),
    {
        match (self.state, lifecycle) {
            (State::OpeningWorldMap(_), Lifecycle::Ended) => if world_map_key.is_some() {
                NavigationQuery::WorldMapTitle
            } else {
                NavigationQuery::Nothing
            },
            (
                State::ClickingMinimapButton(_),
                Lifecycle::Started(_),
            ) => NavigationQuery::MinimapWorldMapButton,
            (State::ClickingMinimapButton(_), Lifecycle::Ended) => NavigationQuery::WorldMapTitle,
            (State::SelectingOption(_, anchor, slot), Lifecycle::Started(_)) => {
                match self.dropdown_slot_text(slot) {
                    Some(text) => {
                        let offset = dropdown_slot_offset(slot);
                        NavigationQuery::Label(
                            Rect {
                                x: anchor.x + offset.x,
                                y: anchor.y + offset.y,
                                width: offset.width,
                                height: DROPDOWN_OPTIONS_HEIGHT,
                            },
                            text,
                        )
                    },
                    None => NavigationQuery::Nothing,
                }
            },
            (
                State::SelectingLocation(_, _),
                Lifecycle::Ended,
            ) => NavigationQuery::PopupConfirmButton,
            (State::SelectingSubLocation(_, anchor), Lifecycle::Started(_)) => {
                match &self.target.sub_location_label {
                    Some(text) => NavigationQuery::Label(
                        Rect { x: anchor.x + 6, y: anchor.y + 73, width: 630, height: 465 },
                        text.clone(),
                    ),
                    None => NavigationQuery::Nothing,
                }
            },
            (State::SelectingSubLocation(_, _), Lifecycle::Ended) => {
                if self.target.sub_location_label.is_some() {
                    NavigationQuery::PopupConfirmButton
                } else {
                    NavigationQuery::Nothing
                }
            },
            (
                State::ConfirmingTeleport(_),
                Lifecycle::Started(_),
            ) => NavigationQuery::PopupConfirmButton,
            _ => NavigationQuery::Nothing,
        }
    }
}

/// What the player does after a step: goes on as long as there is an action to perform, and
/// completes that action once done. A journey that did not get there is noted.
pub open spec fn navigating_outcome(
    state: State,
    target: NavigateToHuntingGroundView,
    context: PlayerContextView,
    player: Player,
    after: PlayerContextView,
) -> bool {
    let noted = PlayerContextView {
        daily_quest_navigate_failed: context.daily_quest_navigate_failed || state == State::Done(
            false,
        ),
        ..context
    };
    if context.next() is None {
        player is Idle && after == noted
    } else if state is Done {
        player is Idle && after == noted.with_next_completed()
    } else {
        &&& player matches Player::NavigatingToHuntingGround(navigating)
        &&& navigating.state == state
        &&& navigating.target@ == target
        &&& after == noted
    }
}

/// Updates traveling to a hunting ground.
///
/// `lifecycle` is what this tick makes of [`NavigatingToHuntingGround::timeout`], and `seen` the
/// answer to [`NavigatingToHuntingGround::query`].
pub fn update_navigating_to_hunting_ground_state(
    resources: &mut Resources,
    player: &mut PlayerEntity,
    lifecycle: Lifecycle,
    seen: Option<Rect>,
)
    requires
        old(player).state is NavigatingToHuntingGround,
        old(player).state->NavigatingToHuntingGround_0.state.wf(),
        click_fits(
            old(player).state->NavigatingToHuntingGround_0.state,
            old(player).state->NavigatingToHuntingGround_0.target@,
            lifecycle,
            seen,
        ),
    ensures
        ({
            let navigating = old(player).state->NavigatingToHuntingGround_0;
            let (state, events) = navigation_step(
                navigating.state,
                navigating.target@,
                old(player).context.config.world_map_key,
                lifecycle,
                seen,
            );
            &&& final(resources).sent(*old(resources), events)
            &&& navigating_outcome(
                state,
                navigating.target@,
                old(player).context@,
                final(player).state,
                final(player).context@,
            )
            &&& state.wf()
        }),
{
    let world_map_key = player.context.config.world_map_key;
    let mut state = Player::Idle;
    std::mem::swap(&mut state, &mut player.state);
    let mut navigating = match state {
        Player::NavigatingToHuntingGround(navigating) => navigating,
        _ => {
            return ;
        },
    };
    step(resources, world_map_key, &mut navigating, lifecycle, seen);
    finish(player, navigating);
}

fn finish(player: &mut PlayerEntity, navigating: NavigatingToHuntingGround)
    ensures
        navigating_outcome(
            navigating.state,
            navigating.target@,
            old(player).context@,
            final(player).state,
            final(player).context@,
        ),
{
    let succeeded = match navigating.state {
        State::Done(succeeded) => Some(succeeded),
        _ => None,
    };
    if let Some(false) = succeeded {
        player.context.set_daily_quest_navigate_failed();
    }
    match player.context.next_action() {
        Some(_) => {
            if succeeded.is_some() {
                player.context.clear_action_completed();
                player.state = Player::Idle;
            } else {
                player.state = Player::NavigatingToHuntingGround(navigating);
            }
        },
        None => player.state = Player::Idle,
    }
}

fn step(
    resources: &mut Resources,
    world_map_key: Option<KeyKind>,
    navigating: &mut NavigatingToHuntingGround,
    lifecycle: Lifecycle,
    seen: Option<Rect>,
)
    requires
        old(navigating).state.wf(),
        click_fits(old(navigating).state, old(navigating).target@, lifecycle, seen),
    ensures
        final(navigating).target == old(navigating).target,
        final(navigating).state.wf(),
        ({
            let (state, events) = navigation_step(
                old(navigating).state,
                old(navigating).target@,
                world_map_key,
                lifecycle,
                seen,
            );
            &&& final(navigating).state == state
            &&& final(resources).sent(*old(resources), events)
        }),
{
    match navigating.state {
        State::OpeningWorldMap(_) => {
            update_opening_world_map(resources, world_map_key, navigating, lifecycle, seen)
        },
        State::ClickingMinimapButton(_) => {
            update_clicking_minimap_button(resources, navigating, lifecycle, seen)
        },
        State::OpeningDropdown(_, anchor, slot) => {
            update_opening_dropdown(resources, navigating, anchor, slot, lifecycle)
        },
        State::SelectingOption(_, anchor, slot) => {
            update_selecting_option(resources, navigating, anchor, slot, lifecycle, seen)
        },
        State::SelectingLocation(_, anchor) => {
            update_selecting_location(resources, navigating, anchor, lifecycle, seen)
        },
        State::SelectingSubLocation(_, anchor) => {
            update_selecting_sub_location(resources, navigating, anchor, lifecycle, seen)
        },
        State::ConfirmingTeleport(_) => {
            update_confirming_teleport(resources, navigating, lifecycle, seen)
        },
        State::Done(_) => (),
    }
}

fn update_opening_world_map(
    resources: &mut Resources,
    world_map_key: Option<KeyKind>,
    navigating: &mut NavigatingToHuntingGround,
    lifecycle: Lifecycle,
    seen: Option<Rect>,
)
    requires
        old(navigating).state is OpeningWorldMap,
    ensures
        final(navigating).target == old(navigating).target,
        ({
            let (state, events) = navigation_step(
                old(navigating).state,
                old(navigating).target@,
                world_map_key,
                lifecycle,
                seen,
            );
            &&& final(navigating).state == state
            &&& final(resources).sent(*old(resources), events)
        }),
{
    let world_map_key = match world_map_key {
        Some(key) => key,
        None => {
            navigating.state = State::ClickingMinimapButton(Timeout::default());
            return ;
        },
    };
    match lifecycle {
        Lifecycle::Started(timeout) => {
            resources.input.send_key(world_map_key);
            navigating.state = State::OpeningWorldMap(timeout);
        },
        Lifecycle::Ended => match seen {
            Some(anchor) => navigating.state = navigating.state_after_world_map_open(anchor),
            None => navigating.state = State::ClickingMinimapButton(Timeout::default()),
        },
        Lifecycle::Updated(timeout) => navigating.state = State::OpeningWorldMap(timeout),
    }
}

fn update_clicking_minimap_button(
    resources: &mut Resources,
    navigating: &mut NavigatingToHuntingGround,
    lifecycle: Lifecycle,
    seen: Option<Rect>,
)
    requires
        old(navigating).state is ClickingMinimapButton,
        click_fits(old(navigating).state, old(navigating).target@, lifecycle, seen),
    ensures
        final(navigating).target == old(navigating).target,
        ({
            let (state, events) = navigation_step(
                old(navigating).state,
                old(navigating).target@,
                None,
                lifecycle,
                seen,
            );
            &&& final(navigating).state == state
            &&& final(resources).sent(*old(resources), events)
        }),
{
    match lifecycle {
        Lifecycle::Started(timeout) => match seen {
            Some(button) => {
                click(resources, button);
                navigating.state = State::ClickingMinimapButton(timeout);
            },
            None => navigating.state = State::Done(false),
        },
        Lifecycle::Ended => match seen {
            Some(anchor) => navigating.state = navigating.state_after_world_map_open(anchor),
            None => navigating.state = State::Done(false),
        },
        Lifecycle::Updated(timeout) => navigating.state = State::ClickingMinimapButton(timeout),
    }
}

fn update_opening_dropdown(
    resources: &mut Resources,
    navigating: &mut NavigatingToHuntingGround,
    anchor: Rect,
    slot: usize,
    lifecycle: Lifecycle,
)
    requires
        old(navigating).state matches State::OpeningDropdown(_, a, s) && a == anchor && s == slot,
        click_fits(old(navigating).state, old(navigating).target@, lifecycle, None),
    ensures
        final(navigating).target == old(navigating).target,
        ({
            let (state, events) = navigation_step(
                old(navigating).state,
                old(navigating).target@,
                None,
                lifecycle,
                None,
            );
            &&& final(navigating).state == state
            &&& final(resources).sent(*old(resources), events)
        }),
{
    if slot >= DROPDOWN_SLOTS {
        abort_and_close_world_map(resources, navigating);
        return ;
    }
    match lifecycle {
        Lifecycle::Started(timeout) => {
            let offset = dropdown_slot_offset(slot);
            let box_rect = Rect {
                x: anchor.x + offset.x,
                y: anchor.y + offset.y,
                width: offset.width,
                height: offset.height,
            };
            click(resources, box_rect);
            navigating.state = State::OpeningDropdown(timeout, anchor, slot);
        },
        Lifecycle::Ended => {
            navigating.state = State::SelectingOption(Timeout::default(), anchor, slot);
        },
        Lifecycle::Updated(timeout) => {
            navigating.state = State::OpeningDropdown(timeout, anchor, slot);
        },
    }
}

fn update_selecting_option(
    resources: &mut Resources,
    navigating: &mut NavigatingToHuntingGround,
    anchor: Rect,
    slot: usize,
    lifecycle: Lifecycle,
    seen: Option<Rect>,
)
    requires
        old(navigating).state matches State::SelectingOption(_, a, s) && a == anchor && s == slot,
        old(navigating).state.wf(),
        click_fits(old(navigating).state, old(navigating).target@, lifecycle, seen),
    ensures
        final(navigating).target == old(navigating).target,
        ({
            let (state, events) = navigation_step(
                old(navigating).state,
                old(navigating).target@,
                None,
                lifecycle,
                seen,
            );
            &&& final(navigating).state == state
            &&& final(resources).sent(*old(resources), events)
        }),
{
    match lifecycle {
        Lifecycle::Started(timeout) => {
            let text = navigating.dropdown_slot_text(slot);
            if text.is_none() {
                abort_and_close_world_map(resources, navigating);
                return ;
            }
            match seen {
                Some(option) => {
                    click(resources, option);
                    navigating.state = State::SelectingOption(timeout, anchor, slot);
                },
                None => abort_and_close_world_map(resources, navigating),
            }
        },
        Lifecycle::Ended => {
            navigating.state = if slot < navigating.target.dropdown_path.len() {
                State::OpeningDropdown(Timeout::default(), anchor, slot + 1)
            } else {
                State::SelectingLocation(Timeout::default(), anchor)
            };
        },
        Lifecycle::Updated(timeout) => {
            navigating.state = State::SelectingOption(timeout, anchor, slot);
        },
    }
}

fn update_selecting_location(
    resources: &mut Resources,
    navigating: &mut NavigatingToHuntingGround,
    anchor: Rect,
    lifecycle: Lifecycle,
    seen: Option<Rect>,
)
    requires
        old(navigating).state matches State::SelectingLocation(_, a) && a == anchor,
        click_fits(old(navigating).state, old(navigating).target@, lifecycle, seen),
    ensures
        final(navigating).target == old(navigating).target,
        ({
            let (state, events) = navigation_step(
                old(navigating).state,
                old(navigating).target@,
                None,
                lifecycle,
                seen,
            );
            &&& final(navigating).state == state
            &&& final(resources).sent(*old(resources), events)
        }),
{
    match lifecycle {
        Lifecycle::Started(timeout) => {
            let (px, py): (i32, i32) = navigating.target.location_point;
            let cx: i32 = anchor.x + px;
            let cy: i32 = anchor.y + py;
            resources.input.send_mouse(cx, cy, MouseKind::Click);
            resources.input.send_mouse(cx, cy, MouseKind::Click);
            navigating.state = State::SelectingLocation(timeout, anchor);
        },
        Lifecycle::Ended => {
            if seen.is_some() {
                navigating.state = State::ConfirmingTeleport(Timeout::default());
            } else if navigating.target.sub_location_label.is_some() {
                navigating.state = State::SelectingSubLocation(Timeout::default(), anchor);
            } else {
                abort_and_close_world_map(resources, navigating);
            }
        },
        Lifecycle::Updated(timeout) => {
            navigating.state = State::SelectingLocation(timeout, anchor);
        },
    }
}

fn update_selecting_sub_location(
    resources: &mut Resources,
    navigating: &mut NavigatingToHuntingGround,
    anchor: Rect,
    lifecycle: Lifecycle,
    seen: Option<Rect>,
)
    requires
        old(navigating).state matches State::SelectingSubLocation(_, a) && a == anchor,
        click_fits(old(navigating).state, old(navigating).target@, lifecycle, seen),
    ensures
        final(navigating).target == old(navigating).target,
        ({
            let (state, events) = navigation_step(
                old(navigating).state,
                old(navigating).target@,
                None,
                lifecycle,
                seen,
            );
            &&& final(navigating).state == state
            &&& final(resources).sent(*old(resources), events)
        }),
{
    if navigating.target.sub_location_label.is_none() {
        abort_and_close_world_map(resources, navigating);
        return ;
    }
    match lifecycle {
        Lifecycle::Started(timeout) => match seen {
            Some(node) => {
                click(resources, node);
                click(resources, node);
                navigating.state = State::SelectingSubLocation(timeout, anchor);
            },
            None => abort_and_close_world_map(resources, navigating),
        },
        Lifecycle::Ended => {
            if seen.is_some() {
                navigating.state = State::ConfirmingTeleport(Timeout::default());
            } else {
                abort_and_close_world_map(resources, navigating);
            }
        },
        Lifecycle::Updated(timeout) => {
            navigating.state = State::SelectingSubLocation(timeout, anchor);
        },
    }
}

fn update_confirming_teleport(
    resources: &mut Resources,
    navigating: &mut NavigatingToHuntingGround,
    lifecycle: Lifecycle,
    seen: Option<Rect>,
)
    requires
        old(navigating).state is ConfirmingTeleport,
        click_fits(old(navigating).state, old(navigating).target@, lifecycle, seen),
    ensures
        final(navigating).target == old(navigating).target,
        ({
            let (state, events) = navigation_step(
                old(navigating).state,
                old(navigating).target@,
                None,
                lifecycle,
                seen,
            );
            &&& final(navigating).state == state
            &&& final(resources).sent(*old(resources), events)
        }),
{
    match lifecycle {
        Lifecycle::Started(timeout) => match seen {
            Some(button) => {
                click(resources, button);
                navigating.state = State::ConfirmingTeleport(timeout);
            },
            None => abort_and_close_world_map(resources, navigating),
        },
        Lifecycle::Ended => navigating.state = State::Done(true),
        Lifecycle::Updated(timeout) => navigating.state = State::ConfirmingTeleport(timeout),
    }
}

/// Clicks in the middle of `rect`.
fn click(resources: &mut Resources, rect: Rect)
    requires
        rect.has_center(),
    ensures
        final(resources).sent(*old(resources), seq![click_on(rect)]),
{
    let point = rect.center();
    resources.input.send_mouse(point.x, point.y, MouseKind::Click);
}

/// Presses Esc to close the world map before giving up, since it would go on covering the
/// minimap.
fn abort_and_close_world_map(
    resources: &mut Resources,
    navigating: &mut NavigatingToHuntingGround,
)
    ensures
        final(navigating).target == old(navigating).target,
        final(navigating).state == State::Done(false),
        final(resources).sent(*old(resources), seq![InputEvent::Key(KeyKind::Esc)]),
{
    resources.input.send_key(KeyKind::Esc);
    navigating.state = State::Done(false);
}

/// Whether the world map is known to be open in a state.
pub open spec fn world_map_is_open(state: State) -> bool {
    match state {
        State::OpeningDropdown(_, _, _)
        | State::SelectingOption(_, _, _)
        | State::SelectingLocation(_, _)
        | State::SelectingSubLocation(_, _)
        | State::ConfirmingTeleport(_) => true,
        _ => false,
    }
}

/// A journey that is given up while the world map is open closes it, and one that is given up
/// before sends nothing.
pub proof fn giving_up_closes_the_world_map(
    state: State,
    target: NavigateToHuntingGroundView,
    world_map_key: Option<KeyKind>,
    lifecycle: Lifecycle,
    seen: Option<Rect>,
)
    requires
        state !is Done,
    ensures
        ({
            let (after, events) = navigation_step(state, target, world_map_key, lifecycle, seen);
            after == State::Done(false) ==> events == if world_map_is_open(state) {
                seq![InputEvent::Key(KeyKind::Esc)]
            } else {
                seq![]
            }
        }),
{
}

/// A journey gets there only by confirming the teleport and waiting for it.
pub proof fn arriving_takes_a_confirmed_teleport(
    state: State,
    target: NavigateToHuntingGroundView,
    world_map_key: Option<KeyKind>,
    lifecycle: Lifecycle,
    seen: Option<Rect>,
)
    requires
        state !is Done,
    ensures
        navigation_step(state, target, world_map_key, lifecycle, seen).0 == State::Done(true)
            <==> state is ConfirmingTeleport && lifecycle is Ended,
{
}

/// The dropdowns are gone through in order, from the first one that does not show the right
/// selection to the last one, and then the location is selected.
pub proof fn dropdowns_are_gone_through_in_order(
    target: NavigateToHuntingGroundView,
    world_map_key: Option<KeyKind>,
    timeout: Timeout,
    anchor: Rect,
    slot: usize,
    seen: Option<Rect>,
)
    requires
        slot < DROPDOWN_SLOTS,
        slot < total_slots(target),
    ensures
        navigation_step(
            State::OpeningDropdown(timeout, anchor, slot),
            target,
            world_map_key,
            Lifecycle::Ended,
            seen,
        ).0 == State::SelectingOption(Timeout::fresh(), anchor, slot),
        navigation_step(
            State::SelectingOption(timeout, anchor, slot),
            target,
            world_map_key,
            Lifecycle::Ended,
            seen,
        ).0 == if slot + 1 == total_slots(target) {
            State::SelectingLocation(Timeout::fresh(), anchor)
        } else {
            State::OpeningDropdown(Timeout::fresh(), anchor, (slot + 1) as usize)
        },
{
}

/// A journey whose route has no more selections than there are dropdowns is never given up for
/// want of a dropdown.
pub proof fn short_routes_have_their_dropdowns(
    target: NavigateToHuntingGroundView,
    state: State,
    world_map_key: Option<KeyKind>,
    lifecycle: Lifecycle,
    seen: Option<Rect>,
)
    requires
        total_slots(target) <= DROPDOWN_SLOTS,
        state matches State::OpeningDropdown(_, _, slot) ==> slot < total_slots(target),
        state matches State::SelectingOption(_, _, slot) ==> slot < total_slots(target),
    ensures
        ({
            let (after, _) = navigation_step(state, target, world_map_key, lifecycle, seen);
            &&& state is OpeningDropdown ==> after !is Done
            &&& after matches State::OpeningDropdown(_, _, slot) ==> slot < total_slots(target)
            &&& after matches State::SelectingOption(_, _, slot) ==> slot < total_slots(target)
                && slot_text(target, slot as int) is Some
        }),
{
}

} // verus!
