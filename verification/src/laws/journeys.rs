//! How the player travels to a hunting ground, and how Monster Park is entered.

use vstd::prelude::*;

use crate::ecs::{InputEvent, MouseKind};
use crate::geometry::{magnitude, Rect};
use crate::models::KeyKind;
use crate::player::actions::NavigateToHuntingGroundView;
use crate::player::context::PlayerContextView;
use crate::player::enter_monster_park::{
    center_xs, center_ys, entering_outcome, entering_step, first_line, last_active_tile,
    least_from_is_least, lowest, second_line, tile_at, MonsterParkSight, State as EntryState,
};
use crate::player::navigate_to_hunting_ground::{
    navigating_outcome, navigation_step, needed, NavigationQueryView, State,
};
use crate::player::timeout::{Lifecycle, Timeout};
use crate::player::Player;

verus! {

/// A timeout that has not started.
pub open spec fn unstarted() -> Timeout {
    Timeout { current: 0, total: 0, started: false }
}

/// The middle of what starts at `start` and is as long as `size`, rounded toward the start.
pub open spec fn middle(start: int, size: int) -> int {
    if size >= 0 {
        start + size / 2
    } else {
        start - (-size) / 2
    }
}

/// Whether the middle of `rect` is a position on screen.
pub open spec fn on_screen(rect: Rect) -> bool {
    &&& i32::MIN <= middle(rect.x as int, rect.width as int) <= i32::MAX
    &&& i32::MIN <= middle(rect.y as int, rect.height as int) <= i32::MAX
}

/// Whether an input is a click at the given position.
pub open spec fn clicks_at(event: InputEvent, x: int, y: int) -> bool {
    event matches InputEvent::Mouse(at_x, at_y, kind) && at_x == x && at_y == y && kind
        == MouseKind::Click
}

/// Whether an input is a click in the middle of `rect`.
pub open spec fn clicks_on(event: InputEvent, rect: Rect) -> bool {
    clicks_at(
        event,
        middle(rect.x as int, rect.width as int),
        middle(rect.y as int, rect.height as int),
    )
}

/// Whether a step has what it needs to wait: a key to open the world map with, a dropdown that
/// there is, or a sub-location to look for.
pub open spec fn can_wait(
    state: State,
    target: NavigateToHuntingGroundView,
    world_map_key: Option<KeyKind>,
) -> bool {
    match state {
        State::OpeningWorldMap(_) => world_map_key is Some,
        State::OpeningDropdown(_, _, slot) => slot < 3,
        State::SelectingSubLocation(_, _) => target.sub_location_label is Some,
        State::Done(_) => false,
        _ => true,
    }
}

/// The same step with another timeout.
pub open spec fn waiting(state: State, timeout: Timeout) -> State {
    match state {
        State::OpeningWorldMap(_) => State::OpeningWorldMap(timeout),
        State::ClickingMinimapButton(_) => State::ClickingMinimapButton(timeout),
        State::OpeningDropdown(_, anchor, slot) => State::OpeningDropdown(timeout, anchor, slot),
        State::SelectingOption(_, anchor, slot) => State::SelectingOption(timeout, anchor, slot),
        State::SelectingLocation(_, anchor) => State::SelectingLocation(timeout, anchor),
        State::SelectingSubLocation(_, anchor) => State::SelectingSubLocation(timeout, anchor),
        State::ConfirmingTeleport(_) => State::ConfirmingTeleport(timeout),
        State::Done(_) => state,
    }
}

/// While a step waits, nothing is sent and nothing changes but its timeout.
pub proof fn waiting_steps_are_quiet(
    state: State,
    target: NavigateToHuntingGroundView,
    world_map_key: Option<KeyKind>,
    timeout: Timeout,
    seen: Option<Rect>,
)
    requires
        can_wait(state, target, world_map_key),
    ensures
        ({
            let (after, events) = navigation_step(
                state,
                target,
                world_map_key,
                Lifecycle::Updated(timeout),
                seen,
            );
            after == waiting(state, timeout) && events.len() == 0
        }),
{
}

/// Keys and clicks are sent only on the first tick of a step, which then waits. The one exception
/// is to close the world map when the journey is given up.
pub proof fn steps_act_on_their_first_tick(
    state: State,
    target: NavigateToHuntingGroundView,
    world_map_key: Option<KeyKind>,
    lifecycle: Lifecycle,
    seen: Option<Rect>,
)
    ensures
        ({
            let (after, events) = navigation_step(state, target, world_map_key, lifecycle, seen);
            let closes = events == seq![InputEvent::Key(KeyKind::Esc)] && after == State::Done(
                false,
            );
            &&& events.len() > 0 ==> closes || lifecycle is Started
            &&& lifecycle matches Lifecycle::Started(timeout) ==> {
                ||| closes
                ||| events.len() == 0
                ||| after == waiting(state, timeout)
            }
        }),
{
}

/// The world map is opened by one press of its key. Without a key, or if that does not open it,
/// the minimap's button is tried, by one click on it. The journey is given up if there is no such
/// button or that does not help either.
pub proof fn the_world_map_is_opened(
    state: State,
    target: NavigateToHuntingGroundView,
    world_map_key: Option<KeyKind>,
    lifecycle: Lifecycle,
    seen: Option<Rect>,
)
    requires
        state is OpeningWorldMap || state is ClickingMinimapButton,
        seen is Some ==> on_screen(seen->0),
    ensures
        ({
            let (after, events) = navigation_step(state, target, world_map_key, lifecycle, seen);
            match (state, lifecycle) {
                (State::OpeningWorldMap(_), Lifecycle::Started(timeout)) => match world_map_key {
                    Some(key) => {
                        &&& events.len() == 1
                        &&& events[0] == InputEvent::Key(key)
                        &&& after == State::OpeningWorldMap(timeout)
                    },
                    None => events.len() == 0 && after == State::ClickingMinimapButton(
                        unstarted(),
                    ),
                },
                (State::OpeningWorldMap(_), Lifecycle::Ended) => {
                    &&& events.len() == 0
                    &&& seen is None || world_map_key is None ==> after
                        == State::ClickingMinimapButton(unstarted())
                    &&& seen is Some && world_map_key is Some ==> !(after is Done) && !(after
                        is ClickingMinimapButton)
                },
                (State::OpeningWorldMap(_), Lifecycle::Updated(timeout)) => {
                    &&& events.len() == 0
                    &&& world_map_key is None ==> after == State::ClickingMinimapButton(
                        unstarted(),
                    )
                    &&& world_map_key is Some ==> after == State::OpeningWorldMap(timeout)
                },
                (_, Lifecycle::Started(timeout)) => match seen {
                    Some(button) => {
                        &&& events.len() == 1
                        &&& clicks_on(events[0], button)
                        &&& after == State::ClickingMinimapButton(timeout)
                    },
                    None => events.len() == 0 && after == State::Done(false),
                },
                (_, Lifecycle::Ended) => {
                    &&& events.len() == 0
                    &&& after == State::Done(false) <==> seen is None
                },
                (_, Lifecycle::Updated(timeout)) => {
                    events.len() == 0 && after == State::ClickingMinimapButton(timeout)
                },
            }
        }),
{
}

/// Once the world map is open, where it is seen to be, the first dropdown that does not show the
/// right selection comes next. If there is none, the location does.
pub proof fn journeys_start_at_the_first_wrong_selection(
    state: State,
    target: NavigateToHuntingGroundView,
    world_map_key: Option<KeyKind>,
    anchor: Rect,
)
    requires
        state is OpeningWorldMap && world_map_key is Some || state is ClickingMinimapButton,
    ensures
        ({
            let (after, _) = navigation_step(
                state,
                target,
                world_map_key,
                Lifecycle::Ended,
                Some(anchor),
            );
            let skipped = target.skip_dropdown_slots;
            if skipped <= target.dropdown_path.len() {
                after == State::OpeningDropdown(unstarted(), anchor, skipped)
            } else {
                after == State::SelectingLocation(unstarted(), anchor)
            }
        }),
{
}

/// A dropdown is opened by one click on it, where it is on the world map, and then its option is
/// selected. The journey is given up at a dropdown that the world map cannot show.
pub proof fn dropdowns_are_clicked_where_they_are(
    timeout: Timeout,
    anchor: Rect,
    slot: usize,
    target: NavigateToHuntingGroundView,
    world_map_key: Option<KeyKind>,
    lifecycle: Lifecycle,
    seen: Option<Rect>,
)
    requires
        anchor.x <= i32::MAX - 1000,
        anchor.y <= i32::MAX - 1000,
    ensures
        ({
            let (after, events) = navigation_step(
                State::OpeningDropdown(timeout, anchor, slot),
                target,
                world_map_key,
                lifecycle,
                seen,
            );
            if slot >= 3 {
                after == State::Done(false)
            } else {
                match lifecycle {
                    Lifecycle::Started(timeout) => {
                        &&& events.len() == 1
                        &&& slot == 0 ==> clicks_at(events[0], anchor.x + 147, anchor.y + 46)
                        &&& slot == 1 ==> clicks_at(events[0], anchor.x + 250, anchor.y + 46)
                        &&& slot == 2 ==> clicks_at(events[0], anchor.x + 353, anchor.y + 46)
                        &&& after == State::OpeningDropdown(timeout, anchor, slot)
                    },
                    Lifecycle::Ended => events.len() == 0 && after == State::SelectingOption(
                        unstarted(),
                        anchor,
                        slot,
                    ),
                    Lifecycle::Updated(timeout) => events.len() == 0 && after
                        == State::OpeningDropdown(timeout, anchor, slot),
                }
            }
        }),
{
}

/// The option of a dropdown is looked for below that dropdown, by the region's name in the first
/// one and by the names along the path in the others. It is clicked once where it is seen, and the
/// journey is given up if it is not. Then the next dropdown comes, or the location after the last.
pub proof fn options_are_selected(
    timeout: Timeout,
    anchor: Rect,
    slot: usize,
    target: NavigateToHuntingGroundView,
    world_map_key: Option<KeyKind>,
    lifecycle: Lifecycle,
    seen: Option<Rect>,
)
    requires
        slot < 3,
        slot <= target.dropdown_path.len(),
        anchor.x <= i32::MAX - 1000,
        anchor.y <= i32::MAX - 1000,
        seen is Some ==> on_screen(seen->0),
    ensures
        ({
            let state = State::SelectingOption(timeout, anchor, slot);
            let (after, events) = navigation_step(state, target, world_map_key, lifecycle, seen);
            let query = needed(state, target, world_map_key, lifecycle);
            match lifecycle {
                Lifecycle::Started(timeout) => {
                    &&& query matches NavigationQueryView::Label(area, text)
                    &&& area.x == anchor.x + (if slot == 0 {
                        94int
                    } else if slot == 1 {
                        204
                    } else {
                        303
                    })
                    &&& area.y == anchor.y + 36
                    &&& area.width == (if slot == 0 {
                        107int
                    } else if slot == 1 {
                        92
                    } else {
                        101
                    })
                    &&& area.height == 300
                    &&& slot == 0 ==> text == target.region.name()
                    &&& slot > 0 ==> text == target.dropdown_path[slot - 1]
                    &&& seen matches Some(option) ==> {
                        &&& events.len() == 1
                        &&& clicks_on(events[0], option)
                        &&& after == State::SelectingOption(timeout, anchor, slot)
                    }
                    &&& seen is None ==> after == State::Done(false)
                },
                Lifecycle::Ended => {
                    &&& query is Nothing
                    &&& events.len() == 0
                    &&& slot < target.dropdown_path.len() ==> after == State::OpeningDropdown(
                        unstarted(),
                        anchor,
                        (slot + 1) as usize,
                    )
                    &&& slot == target.dropdown_path.len() ==> after == State::SelectingLocation(
                        unstarted(),
                        anchor,
                    )
                },
                Lifecycle::Updated(timeout) => {
                    &&& query is Nothing
                    &&& events.len() == 0
                    &&& after == State::SelectingOption(timeout, anchor, slot)
                },
            }
        }),
{
}

/// The location is selected by a double click at its place on the world map. If the teleport
/// dialog is there afterwards, the teleport is confirmed. Otherwise a sub-location is selected if
/// there is one to, and the journey is given up if not.
pub proof fn locations_are_double_clicked(
    timeout: Timeout,
    anchor: Rect,
    target: NavigateToHuntingGroundView,
    world_map_key: Option<KeyKind>,
    lifecycle: Lifecycle,
    seen: Option<Rect>,
)
    requires
        i32::MIN <= anchor.x + target.location_point.0 <= i32::MAX,
        i32::MIN <= anchor.y + target.location_point.1 <= i32::MAX,
    ensures
        ({
            let state = State::SelectingLocation(timeout, anchor);
            let (after, events) = navigation_step(state, target, world_map_key, lifecycle, seen);
            let (x, y) = target.location_point;
            let query = needed(state, target, world_map_key, lifecycle);
            match lifecycle {
                Lifecycle::Started(timeout) => {
                    &&& events.len() == 2
                    &&& clicks_at(events[0], anchor.x + x, anchor.y + y)
                    &&& clicks_at(events[1], anchor.x + x, anchor.y + y)
                    &&& after == State::SelectingLocation(timeout, anchor)
                    &&& query is Nothing
                },
                Lifecycle::Ended => {
                    &&& query is PopupConfirmButton
                    &&& after == State::ConfirmingTeleport(unstarted()) <==> seen is Some
                    &&& after == State::SelectingSubLocation(unstarted(), anchor) <==> seen is None
                        && target.sub_location_label is Some
                    &&& after == State::Done(false) <==> seen is None
                        && target.sub_location_label is None
                },
                Lifecycle::Updated(timeout) => {
                    &&& query is Nothing
                    &&& events.len() == 0
                    &&& after == State::SelectingLocation(timeout, anchor)
                },
            }
        }),
{
}

/// The sub-location is looked for by its name on the whole world map, and selected by a double
/// click where it is seen. The journey is given up if it is not seen, or if the teleport dialog is
/// not there afterwards.
pub proof fn sub_locations_are_double_clicked(
    timeout: Timeout,
    anchor: Rect,
    target: NavigateToHuntingGroundView,
    world_map_key: Option<KeyKind>,
    lifecycle: Lifecycle,
    seen: Option<Rect>,
)
    requires
        target.sub_location_label is Some,
        anchor.x <= i32::MAX - 1000,
        anchor.y <= i32::MAX - 1000,
        seen is Some ==> on_screen(seen->0),
    ensures
        ({
            let state = State::SelectingSubLocation(timeout, anchor);
            let (after, events) = navigation_step(state, target, world_map_key, lifecycle, seen);
            let query = needed(state, target, world_map_key, lifecycle);
            match lifecycle {
                Lifecycle::Started(timeout) => {
                    &&& query matches NavigationQueryView::Label(area, text)
                    &&& text == target.sub_location_label->0
                    &&& area.x == anchor.x + 6
                    &&& area.y == anchor.y + 73
                    &&& area.width == 630
                    &&& area.height == 465
                    &&& seen matches Some(node) ==> {
                        &&& events.len() == 2
                        &&& clicks_on(events[0], node)
                        &&& clicks_on(events[1], node)
                        &&& after == State::SelectingSubLocation(timeout, anchor)
                    }
                    &&& seen is None ==> after == State::Done(false)
                },
                Lifecycle::Ended => {
                    &&& query is PopupConfirmButton
                    &&& after == if seen is Some {
                        State::ConfirmingTeleport(unstarted())
                    } else {
                        State::Done(false)
                    }
                },
                Lifecycle::Updated(timeout) => {
                    &&& query is Nothing
                    &&& events.len() == 0
                    &&& after == State::SelectingSubLocation(timeout, anchor)
                },
            }
        }),
{
}

/// The teleport is confirmed by one click on the button, which has to be there. After the wait the
/// player is there.
pub proof fn teleports_are_confirmed(
    timeout: Timeout,
    target: NavigateToHuntingGroundView,
    world_map_key: Option<KeyKind>,
    lifecycle: Lifecycle,
    seen: Option<Rect>,
)
    requires
        seen is Some ==> on_screen(seen->0),
    ensures
        ({
            let state = State::ConfirmingTeleport(timeout);
            let (after, events) = navigation_step(state, target, world_map_key, lifecycle, seen);
            let query = needed(state, target, world_map_key, lifecycle);
            match lifecycle {
                Lifecycle::Started(timeout) => {
                    &&& query is PopupConfirmButton
                    &&& seen matches Some(button) ==> {
                        &&& events.len() == 1
                        &&& clicks_on(events[0], button)
                        &&& after == State::ConfirmingTeleport(timeout)
                    }
                    &&& seen is None ==> after == State::Done(false)
                },
                Lifecycle::Ended => {
                    &&& query is Nothing
                    &&& events.len() == 0
                    &&& after == State::Done(true)
                },
                Lifecycle::Updated(timeout) => {
                    &&& query is Nothing
                    &&& events.len() == 0
                    &&& after == State::ConfirmingTeleport(timeout)
                },
            }
        }),
{
}

/// Before the world map is open, its title is looked for when the wait is over, and the minimap's
/// button when that is to be clicked. Nothing is looked for while a step waits, to open a dropdown
/// or once the journey is over.
pub proof fn steps_look_for_what_they_need(
    state: State,
    target: NavigateToHuntingGroundView,
    world_map_key: Option<KeyKind>,
    lifecycle: Lifecycle,
)
    ensures
        ({
            let query = needed(state, target, world_map_key, lifecycle);
            &&& query is WorldMapTitle <==> lifecycle is Ended && (state is ClickingMinimapButton
                || state is OpeningWorldMap && world_map_key is Some)
            &&& query is MinimapWorldMapButton <==> lifecycle is Started && state
                is ClickingMinimapButton
            &&& lifecycle is Updated || state is OpeningDropdown || state is Done ==> query
                is Nothing
        }),
{
}

/// What is left of the player's actions once a journey or an attempt to enter is over: the one
/// that came first is gone, and the other one stays.
pub open spec fn first_is_gone(before: PlayerContextView, after: PlayerContextView) -> bool {
    &&& after.priority is None
    &&& before.priority is Some ==> after.normal == before.normal
    &&& before.priority is None ==> after.normal is None
    &&& after.last_movement is None
}

/// Whether nothing but the player's actions, the last movement and the note about a failed journey
/// may differ.
pub open spec fn otherwise_same(before: PlayerContextView, after: PlayerContextView) -> bool {
    after == PlayerContextView {
        normal: after.normal,
        priority: after.priority,
        last_movement: after.last_movement,
        daily_quest_navigate_failed: after.daily_quest_navigate_failed,
        ..before
    }
}

/// A journey goes on as long as there is something to do and it is not over. When it is over, the
/// player is idle and the action that asked for it is gone. A journey that was given up is noted,
/// and nothing else is.
pub proof fn journeys_end_with_their_action(
    state: State,
    target: NavigateToHuntingGroundView,
    context: PlayerContextView,
    player: Player,
    after: PlayerContextView,
)
    requires
        navigating_outcome(state, target, context, player, after),
    ensures
        ({
            let assigned = context.priority is Some || context.normal is Some;
            &&& otherwise_same(context, after)
            &&& after.daily_quest_navigate_failed <==> context.daily_quest_navigate_failed || state
                == State::Done(false)
            &&& player is Idle <==> state is Done || !assigned
            &&& player is Idle || player is NavigatingToHuntingGround
            &&& player matches Player::NavigatingToHuntingGround(navigating) ==> {
                &&& navigating.state == state
                &&& navigating.target@ == target
            }
            &&& state is Done && assigned ==> first_is_gone(context, after)
            &&& !(state is Done) || !assigned ==> {
                &&& after.priority == context.priority
                &&& after.normal == context.normal
                &&& after.last_movement == context.last_movement
            }
        }),
{
}

/// Entering goes on as long as there is something to do and it is not over. When it is over, the
/// player is idle and the action that asked for it is gone.
pub proof fn entering_ends_with_its_action(state: EntryState, context: PlayerContextView)
    ensures
        ({
            let (player, after) = entering_outcome(state, context);
            let assigned = context.priority is Some || context.normal is Some;
            &&& otherwise_same(context, after)
            &&& after.daily_quest_navigate_failed == context.daily_quest_navigate_failed
            &&& player is Idle <==> state is Done || !assigned
            &&& player is Idle || player is EnteringMonsterPark
            &&& player matches Player::EnteringMonsterPark(entering) ==> entering.state == state
            &&& state is Done && assigned ==> first_is_gone(context, after)
            &&& !(state is Done) || !assigned ==> after == context
        }),
{
}

/// Monster Park is entered by one press of the up arrow, one click on a dungeon and one click on
/// the button, each on the first tick of its step. A step that waits sends nothing and changes
/// nothing but its timeout. Entering is over when the dialog has not opened, the button is not
/// there, or the last wait is over.
pub proof fn monster_park_is_entered_step_by_step(
    state: EntryState,
    lifecycle: Lifecycle,
    sight: MonsterParkSight,
)
    requires
        sight.enter_button is Some ==> on_screen(sight.enter_button->0),
    ensures
        ({
            let (after, events) = entering_step(state, lifecycle, sight);
            &&& !(lifecycle is Started) ==> events.len() == 0
            &&& match (state, lifecycle) {
                (EntryState::PressingUp(_), Lifecycle::Started(timeout)) => {
                    &&& events.len() == 1
                    &&& events[0] == InputEvent::Key(KeyKind::Up)
                    &&& after == EntryState::PressingUp(timeout)
                },
                (EntryState::PressingUp(_), Lifecycle::Ended) => match sight.ticket_label {
                    Some(label) => after == EntryState::SelectingDungeon(unstarted(), label),
                    None => after is Done,
                },
                (EntryState::PressingUp(_), Lifecycle::Updated(timeout)) => after
                    == EntryState::PressingUp(timeout),
                (EntryState::SelectingDungeon(_, label), Lifecycle::Started(timeout)) => {
                    &&& events.len() == 1
                    &&& after == EntryState::SelectingDungeon(timeout, label)
                    &&& events[0] matches InputEvent::Mouse(x, y, kind)
                    &&& kind == MouseKind::Click
                    &&& i32::MIN <= last_active_tile(sight.locked_tiles@, label).0 <= i32::MAX
                        ==> x == last_active_tile(sight.locked_tiles@, label).0
                    &&& i32::MIN <= last_active_tile(sight.locked_tiles@, label).1 <= i32::MAX
                        ==> y == last_active_tile(sight.locked_tiles@, label).1
                },
                (EntryState::SelectingDungeon(_, _), Lifecycle::Ended) => after
                    == EntryState::Confirming(unstarted()),
                (EntryState::SelectingDungeon(_, label), Lifecycle::Updated(timeout)) => after
                    == EntryState::SelectingDungeon(timeout, label),
                (EntryState::Confirming(_), Lifecycle::Started(timeout)) => {
                    match sight.enter_button {
                        Some(button) => {
                            &&& events.len() == 1
                            &&& clicks_on(events[0], button)
                            &&& after == EntryState::Confirming(timeout)
                        },
                        None => events.len() == 0 && after is Done,
                    }
                },
                (EntryState::Confirming(_), Lifecycle::Ended) => after is Done,
                (EntryState::Confirming(_), Lifecycle::Updated(timeout)) => after
                    == EntryState::Confirming(timeout),
                (EntryState::Done, _) => after is Done && events.len() == 0,
            }
        }),
{
}

/// The horizontal middle of a tile.
pub open spec fn column_of(tile: Rect) -> int {
    middle(tile.x as int, tile.width as int)
}

/// The vertical middle of a tile.
pub open spec fn row_of(tile: Rect) -> int {
    middle(tile.y as int, tile.height as int)
}

/// Whether `first` is the least of the values.
pub open spec fn is_least(values: Seq<int>, first: int) -> bool {
    values.contains(first) && forall|i: int| 0 <= i < values.len() ==> first <= #[trigger] values[i]
}

/// Whether `second` is the least of the values that are at least 10 greater than `first`, or there
/// is none and no such value.
pub open spec fn is_next(values: Seq<int>, first: int, second: Option<int>) -> bool {
    match second {
        Some(second) => {
            &&& values.contains(second)
            &&& first + 10 <= second
            &&& forall|i: int|
                0 <= i < values.len() && first + 10 <= #[trigger] values[i] ==> second <= values[i]
        },
        None => forall|i: int| 0 <= i < values.len() ==> #[trigger] values[i] < first + 10,
    }
}

/// Whether a tile is less than 10 away from a place along both axes.
pub open spec fn is_around(tile: Rect, x: int, y: int) -> bool {
    &&& -10 < column_of(tile) - x < 10
    &&& -10 < row_of(tile) - y < 10
}

/// The place at which to expect a column of dungeons when no locked one shows it.
pub open spec fn usual_columns(label: Rect) -> (int, int) {
    (label.x + 122, label.x + 337)
}

/// Without locked dungeons, the last one of all is picked, at its usual place.
pub proof fn the_last_dungeon_is_picked_if_none_is_locked(label: Rect)
    ensures
        last_active_tile(Seq::empty(), label) == (label.x + 337, label.y + 323),
{
}

/// Of two columns, `left` and `right`, the locked dungeons show both, or one of them, which is then
/// the one whose usual place is closer.
pub open spec fn are_columns(tiles: Seq<Rect>, label: Rect, left: int, right: int) -> bool {
    let values = tiles.map_values(|tile: Rect| column_of(tile));
    let (usual_left, usual_right) = usual_columns(label);
    ||| is_least(values, left) && is_next(values, left, Some(right))
    ||| is_least(values, left) && is_next(values, left, None) && right == usual_right && (left
        - usual_left) * (left - usual_left) <= (left - usual_right) * (left - usual_right)
    ||| is_least(values, right) && is_next(values, right, None) && left == usual_left && (right
        - usual_left) * (right - usual_left) > (right - usual_right) * (right - usual_right)
}

/// Whether `first` is the first row with locked dungeons, and the rows are `spacing` apart, as the
/// next row with locked ones shows, or 65 if there is none.
pub open spec fn are_rows(tiles: Seq<Rect>, first: int, spacing: int) -> bool {
    let values = tiles.map_values(|tile: Rect| row_of(tile));
    &&& is_least(values, first)
    &&& is_next(values, first, Some(first + spacing)) || is_next(values, first, None) && spacing
        == 65
}

proof fn least_is_first_line(values: Seq<int>, first: int)
    requires
        is_least(values, first),
        forall|i: int| 0 <= i < values.len() ==> lowest() <= #[trigger] values[i],
    ensures
        first_line(values) == first,
{
    least_from_is_least(values, lowest());
    let i = values.index_of(first);
    assert(values[i] == first);
    let j = values.index_of(first_line(values));
    assert(values[j] == first_line(values));
}

proof fn next_is_second_line(values: Seq<int>, first: int, second: Option<int>)
    requires
        first_line(values) == first,
        is_next(values, first, second),
    ensures
        second_line(values) == second,
{
    least_from_is_least(values, first + 10);
    match (second, second_line(values)) {
        (Some(one), Some(other)) => {
            assert(values[values.index_of(one)] == one);
            assert(values[values.index_of(other)] == other);
        },
        (Some(one), None) => {
            assert(values[values.index_of(one)] == one);
        },
        (None, Some(other)) => {
            assert(values[values.index_of(other)] == other);
        },
        (None, None) => {},
    }
}

/// The last dungeon that is not locked, in reading order, is picked: the left one in the first row
/// with locked ones unless it is locked itself, and otherwise the right one in the row above.
pub proof fn the_dungeon_before_the_first_locked_one_is_picked(
    tiles: Seq<Rect>,
    label: Rect,
    left: int,
    right: int,
    first: int,
    spacing: int,
)
    requires
        tiles.len() > 0,
        are_columns(tiles, label, left, right),
        are_rows(tiles, first, spacing),
    ensures
        ({
            let locked = exists|i: int|
                0 <= i < tiles.len() && is_around(#[trigger] tiles[i], left, first);
            last_active_tile(tiles, label) == if locked {
                (right, first - spacing)
            } else {
                (left, first)
            }
        }),
{
    let columns = tiles.map_values(|tile: Rect| column_of(tile));
    let rows = tiles.map_values(|tile: Rect| row_of(tile));
    let xs = center_xs(tiles);
    let ys = center_ys(tiles);
    assert(columns =~= xs);
    assert(rows =~= ys);
    assert forall|i: int| 0 <= i < xs.len() implies lowest() <= #[trigger] xs[i] by {
        assert(xs[i] == tiles[i].center_x());
    }
    assert forall|i: int| 0 <= i < ys.len() implies lowest() <= #[trigger] ys[i] by {
        assert(ys[i] == tiles[i].center_y());
    }
    least_is_first_line(ys, first);
    if is_next(ys, first, Some(first + spacing)) {
        next_is_second_line(ys, first, Some(first + spacing));
    } else {
        next_is_second_line(ys, first, None);
    }
    let (usual_left, usual_right) = usual_columns(label);
    if is_least(xs, left) && is_next(xs, left, Some(right)) {
        least_is_first_line(xs, left);
        next_is_second_line(xs, left, Some(right));
    } else if is_least(xs, left) && is_next(xs, left, None) && right == usual_right && (left
        - usual_left) * (left - usual_left) <= (left - usual_right) * (left - usual_right) {
        least_is_first_line(xs, left);
        next_is_second_line(xs, left, None);
        squares_compare(left - usual_left, left - usual_right);
    } else {
        least_is_first_line(xs, right);
        next_is_second_line(xs, right, None);
        squares_compare(right - usual_left, right - usual_right);
    }
    assert forall|i: int| 0 <= i < tiles.len() implies #[trigger] is_around(tiles[i], left, first)
        == tile_at(tiles[i], left, first) by {}
    if exists|i: int| 0 <= i < tiles.len() && is_around(#[trigger] tiles[i], left, first) {
        let i = choose|i: int|
            0 <= i < tiles.len() && is_around(#[trigger] tiles[i], left, first);
        assert(tile_at(tiles[i], left, first));
    }
    if exists|i: int| 0 <= i < tiles.len() && tile_at(#[trigger] tiles[i], left, first) {
        let i = choose|i: int| 0 <= i < tiles.len() && tile_at(#[trigger] tiles[i], left, first);
        assert(is_around(tiles[i], left, first));
    }
}

proof fn squares_compare(a: int, b: int)
    ensures
        a * a <= b * b <==> magnitude(a) <= magnitude(b),
{
    let x = magnitude(a);
    let y = magnitude(b);
    assert(x * x == a * a) by (nonlinear_arith)
        requires
            x == a || x == -a,
    ;
    assert(y * y == b * b) by (nonlinear_arith)
        requires
            y == b || y == -b,
    ;
    assert(x * x <= y * y <==> x <= y) by (nonlinear_arith)
        requires
            x >= 0,
            y >= 0,
    ;
}

} // verus!
