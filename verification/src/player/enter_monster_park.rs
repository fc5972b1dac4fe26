//! Entering a Monster Park run from the entrance in its lobby.

use vstd::prelude::*;

use super::context::PlayerContextView;
use super::timeout::{Lifecycle, Timeout};
use super::{Player, PlayerEntity};
use crate::ecs::{InputEvent, MouseKind, Resources};
use crate::geometry::{fits, magnitude, Point, Rect};
use crate::models::KeyKind;

verus! {

/// The column positions of the dungeon tiles relative to the ticket label, for when no locked
/// tile shows them.
pub const FALLBACK_LEFT_COL_X_OFFSET: i32 = 122;

/// See [`FALLBACK_LEFT_COL_X_OFFSET`].
pub const FALLBACK_RIGHT_COL_X_OFFSET: i32 = 337;

/// The position of the last row of dungeon tiles relative to the ticket label, for when there is
/// no locked tile.
pub const FALLBACK_LAST_ROW_Y_OFFSET: i32 = 323;

/// The distance between two rows of dungeon tiles, for when the locked tiles are in one row.
pub const FALLBACK_ROW_SPACING: i32 = 65;

/// Coordinates that are closer than this belong to the same row or column.
pub const CLUSTER_TOLERANCE: i32 = 10;

/// The steps of entering a Monster Park run.
#[derive(Clone, Copy, Debug, PartialEq, Eq, Structural)]
pub enum State {
    /// Presses the up arrow to open the dungeon dialog.
    PressingUp(Timeout),
    /// Clicks the last unlocked dungeon tile. The rectangle is the ticket label, which the tiles
    /// are located by.
    SelectingDungeon(Timeout, Rect),
    /// Clicks the `Enter` button.
    Confirming(Timeout),
    /// Entered or given up.
    Done,
}

/// Entering a Monster Park run.
#[derive(Clone, Copy, Debug, PartialEq, Eq, Structural)]
pub struct EnteringMonsterPark {
    pub state: State,
}

/// What a step needs to see on screen.
#[derive(Clone, Copy, Debug, PartialEq, Eq, Structural)]
pub enum MonsterParkQuery {
    Nothing,
    TicketLabel,
    LockedTiles,
    EnterButton,
}

/// What was seen on screen. Only what the step asked for matters.
#[derive(Debug)]
pub struct MonsterParkSight {
    pub ticket_label: Option<Rect>,
    pub locked_tiles: Vec<Rect>,
    pub enter_button: Option<Rect>,
}

/// The coordinates of the tiles' centers along one axis.
pub open spec fn center_xs(tiles: Seq<Rect>) -> Seq<int> {
    tiles.map_values(|tile: Rect| tile.center_x())
}

/// See [`center_xs`].
pub open spec fn center_ys(tiles: Seq<Rect>) -> Seq<int> {
    tiles.map_values(|tile: Rect| tile.center_y())
}

/// The least of the values that are at least `floor`.
pub open spec fn least_from(values: Seq<int>, floor: int) -> Option<int>
    decreases values.len(),
{
    if values.len() == 0 {
        None
    } else {
        let rest = least_from(values.drop_last(), floor);
        let value = values.last();
        match rest {
            Some(least) => if floor <= value < least {
                Some(value)
            } else {
                rest
            },
            None => if floor <= value {
                Some(value)
            } else {
                None
            },
        }
    }
}

/// [`least_from`] is what its name says.
pub proof fn least_from_is_least(values: Seq<int>, floor: int)
    ensures
        match least_from(values, floor) {
            Some(least) => {
                &&& values.contains(least)
                &&& floor <= least
                &&& forall|i: int|
                    0 <= i < values.len() && #[trigger] values[i] >= floor ==> least <= values[i]
            },
            None => forall|i: int| 0 <= i < values.len() ==> #[trigger] values[i] < floor,
        },
    decreases values.len(),
{
    if values.len() > 0 {
        let shorter = values.drop_last();
        least_from_is_least(shorter, floor);
        assert(forall|i: int| 0 <= i < shorter.len() ==> shorter[i] == values[i]);
        assert(values[values.len() - 1] == values.last());
        assert forall|i: int| 0 <= i < values.len() implies i == values.len() - 1 || values[i]
            == shorter[i] by {}
    }
}

/// The least value that a center can have.
pub open spec fn lowest() -> int {
    -0x1_0000_0000
}

/// The first row or column: the least of the coordinates.
pub open spec fn first_line(values: Seq<int>) -> int {
    least_from(values, lowest())->0
}

/// The row or column after the first: the least of the coordinates that do not belong to the
/// first.
pub open spec fn second_line(values: Seq<int>) -> Option<int> {
    least_from(values, first_line(values) + CLUSTER_TOLERANCE)
}

/// The positions of the two columns of tiles. A column that no locked tile shows is taken from
/// the dialog's usual layout.
pub open spec fn columns(tiles: Seq<Rect>, label: Rect) -> (int, int) {
    let usual_left = label.x + FALLBACK_LEFT_COL_X_OFFSET;
    let usual_right = label.x + FALLBACK_RIGHT_COL_X_OFFSET;
    let first = first_line(center_xs(tiles));
    match second_line(center_xs(tiles)) {
        Some(second) => (first, second),
        None => if magnitude(first - usual_left) <= magnitude(first - usual_right) {
            (first, usual_right)
        } else {
            (usual_left, first)
        },
    }
}

/// Whether the tile is in the row at `y` and the column at `x`.
pub open spec fn tile_at(tile: Rect, x: int, y: int) -> bool {
    &&& magnitude(tile.center_y() - y) < CLUSTER_TOLERANCE
    &&& magnitude(tile.center_x() - x) < CLUSTER_TOLERANCE
}

/// The center of the last unlocked tile in reading order.
///
/// The locked tiles come last. So it is the left tile of the first row with locked tiles, unless
/// that one is locked: then it is the right tile of the row above.
pub open spec fn last_active_tile(tiles: Seq<Rect>, label: Rect) -> (int, int) {
    if tiles.len() == 0 {
        (label.x + FALLBACK_RIGHT_COL_X_OFFSET, label.y + FALLBACK_LAST_ROW_Y_OFFSET)
    } else {
        let (left, right) = columns(tiles, label);
        let first = first_line(center_ys(tiles));
        let spacing = match second_line(center_ys(tiles)) {
            Some(second) => second - first,
            None => FALLBACK_ROW_SPACING as int,
        };
        if exists|i: int| 0 <= i < tiles.len() && tile_at(#[trigger] tiles[i], left, first) {
            (right, first - spacing)
        } else {
            (left, first)
        }
    }
}

/// What one step makes of the state, and the inputs it sends.
pub open spec fn entering_step(state: State, lifecycle: Lifecycle, sight: MonsterParkSight) -> (
    State,
    Seq<InputEvent>,
) {
    match state {
        State::PressingUp(_) => match lifecycle {
            Lifecycle::Started(timeout) => (
                State::PressingUp(timeout),
                seq![InputEvent::Key(KeyKind::Up)],
            ),
            Lifecycle::Ended => match sight.ticket_label {
                Some(label) => (State::SelectingDungeon(Timeout::fresh(), label), seq![]),
                None => (State::Done, seq![]),
            },
            Lifecycle::Updated(timeout) => (State::PressingUp(timeout), seq![]),
        },
        State::SelectingDungeon(_, label) => match lifecycle {
            Lifecycle::Started(timeout) => {
                let (x, y) = last_active_tile(sight.locked_tiles@, label);
                (
                    State::SelectingDungeon(timeout, label),
                    seq![InputEvent::Mouse(x as i32, y as i32, MouseKind::Click)],
                )
            },
            Lifecycle::Ended => (State::Confirming(Timeout::fresh()), seq![]),
            Lifecycle::Updated(timeout) => (State::SelectingDungeon(timeout, label), seq![]),
        },
        State::Confirming(_) => match lifecycle {
            Lifecycle::Started(timeout) => match sight.enter_button {
                Some(button) => (
                    State::Confirming(timeout),
                    seq![
                        InputEvent::Mouse(
                            button.center_x() as i32,
                            button.center_y() as i32,
                            MouseKind::Click,
                        ),
                    ],
                ),
                None => (State::Done, seq![]),
            },
            Lifecycle::Ended => (State::Done, seq![]),
            Lifecycle::Updated(timeout) => (State::Confirming(timeout), seq![]),
        },
        State::Done => (State::Done, seq![]),
    }
}

/// The up arrow is pressed only on the first tick of an attempt, and an attempt whose dialog has
/// not opened in time is over.
pub proof fn attempts_press_up_once(state: State, lifecycle: Lifecycle, sight: MonsterParkSight)
    ensures
        ({
            let (after, events) = entering_step(state, lifecycle, sight);
            &&& events.contains(InputEvent::Key(KeyKind::Up)) <==> state is PressingUp
                && lifecycle is Started
            &&& state is PressingUp && lifecycle is Ended && sight.ticket_label is None ==> after
                is Done
            &&& after is PressingUp ==> state is PressingUp
            &&& state is Done ==> after is Done
        }),
{
    let (_, events) = entering_step(state, lifecycle, sight);
    if state is PressingUp && lifecycle is Started {
        assert(events[0] == InputEvent::Key(KeyKind::Up));
    }
}

/// Whether the position that the step clicks is a pixel position.
pub open spec fn click_fits(state: State, lifecycle: Lifecycle, sight: MonsterParkSight) -> bool {
    match state {
        State::SelectingDungeon(_, label) => lifecycle is Started ==> {
            let (x, y) = last_active_tile(sight.locked_tiles@, label);
            fits(x) && fits(y)
        },
        State::Confirming(_) => lifecycle is Started && sight.enter_button is Some
            ==> sight.enter_button->0.has_center(),
        _ => true,
    }
}

impl EnteringMonsterPark {
    /// Starts with pressing the up arrow.
    pub fn new() -> (r: Self)
        ensures
            r.state == State::PressingUp(Timeout::fresh()),
    {
        Self { state: State::PressingUp(Timeout::default()) }
    }

    /// The timeout of the current step and its limit.
    pub fn timeout(&self) -> (r: Option<(Timeout, u32)>)
        ensures
            r == match self.state {
                State::PressingUp(timeout) => Some((timeout, 35u32)),
                State::SelectingDungeon(timeout, _) => Some((timeout, 20u32)),
                State::Confirming(timeout) => Some((timeout, 20u32)),
                State::Done => None,
            },
    {
        match self.state {
            State::PressingUp(timeout) => Some((timeout, 35)),
            State::SelectingDungeon(timeout, _) => Some((timeout, 20)),
            State::Confirming(timeout) => Some((timeout, 20)),
            State::Done => None,
        }
    }

    /// What the current step needs to see on screen.
    pub fn query(&self, lifecycle: Lifecycle) -> (r: MonsterParkQuery)
        ensures
            r == match (self.state, lifecycle) {
                (State::PressingUp(_), Lifecycle::Ended) => MonsterParkQuery::TicketLabel,
                (
                    State::SelectingDungeon(_, _),
                    Lifecycle::Started(_),
                ) => MonsterParkQuery::LockedTiles,
                (State::Confirming(_), Lifecycle::Started(_)) => MonsterParkQuery::EnterButton,
                _ => MonsterParkQuery::Nothing,
            },
    {
        match (self.state, lifecycle) {
            (State::PressingUp(_), Lifecycle::Ended) => MonsterParkQuery::TicketLabel,
            (
                State::SelectingDungeon(_, _),
                Lifecycle::Started(_),
            ) => MonsterParkQuery::LockedTiles,
            (State::Confirming(_), Lifecycle::Started(_)) => MonsterParkQuery::EnterButton,
            _ => MonsterParkQuery::Nothing,
        }
    }
}

impl Default for EnteringMonsterPark {
    fn default() -> (r: Self)
        ensures
            r.state == State::PressingUp(Timeout::fresh()),
    {
        Self::new()
    }
}

/// What the player does after a step of entering: goes on as long as there is an action to
/// perform, and completes that action once done.
pub open spec fn entering_outcome(state: State, context: PlayerContextView) -> (
    Player,
    PlayerContextView,
) {
    if context.next() is None {
        (Player::Idle, context)
    } else if state is Done {
        (Player::Idle, context.with_next_completed())
    } else {
        (Player::EnteringMonsterPark(EnteringMonsterPark { state }), context)
    }
}

/// Updates entering a Monster Park run.
///
/// `lifecycle` is what this tick makes of [`EnteringMonsterPark::timeout`], and `sight` the
/// answer to [`EnteringMonsterPark::query`].
pub fn update_entering_monster_park_state(
    resources: &mut Resources,
    player: &mut PlayerEntity,
    lifecycle: Lifecycle,
    sight: &MonsterParkSight,
)
    requires
        old(player).state is EnteringMonsterPark,
        click_fits(old(player).state->EnteringMonsterPark_0.state, lifecycle, *sight),
    ensures
        ({
            let (state, events) = entering_step(
                old(player).state->EnteringMonsterPark_0.state,
                lifecycle,
                *sight,
            );
            let (player_state, context) = entering_outcome(state, old(player).context@);
            &&& final(resources).sent(*old(resources), events)
            &&& final(player).state == player_state
            &&& final(player).context@ == context
        }),
{
    let mut entering = match &player.state {
        Player::EnteringMonsterPark(entering) => *entering,
        _ => {
            return ;
        },
    };
    match entering.state {
        State::PressingUp(_) => update_pressing_up(resources, &mut entering, lifecycle, sight),
        State::SelectingDungeon(_, _) => {
            update_selecting_dungeon(resources, &mut entering, lifecycle, sight)
        },
        State::Confirming(_) => update_confirming(resources, &mut entering, lifecycle, sight),
        State::Done => (),
    }
    let is_terminal = match entering.state {
        State::Done => true,
        _ => false,
    };
    match player.context.next_action() {
        Some(_) => {
            if is_terminal {
                player.context.clear_action_completed();
                player.state = Player::Idle;
            } else {
                player.state = Player::EnteringMonsterPark(entering);
            }
        },
        None => player.state = Player::Idle,
    }
}

fn update_pressing_up(
    resources: &mut Resources,
    entering: &mut EnteringMonsterPark,
    lifecycle: Lifecycle,
    sight: &MonsterParkSight,
)
    requires
        old(entering).state is PressingUp,
    ensures
        ({
            let (state, events) = entering_step(old(entering).state, lifecycle, *sight);
            &&& final(entering).state == state
            &&& final(resources).sent(*old(resources), events)
        }),
{
    match lifecycle {
        Lifecycle::Started(timeout) => {
            resources.input.send_key(KeyKind::Up);
            entering.state = State::PressingUp(timeout);
        },
        Lifecycle::Ended => {
            entering.state = match sight.ticket_label {
                Some(label) => State::SelectingDungeon(Timeout::default(), label),
                None => State::Done,
            };
        },
        Lifecycle::Updated(timeout) => entering.state = State::PressingUp(timeout),
    }
}

fn update_selecting_dungeon(
    resources: &mut Resources,
    entering: &mut EnteringMonsterPark,
    lifecycle: Lifecycle,
    sight: &MonsterParkSight,
)
    requires
        old(entering).state is SelectingDungeon,
        click_fits(old(entering).state, lifecycle, *sight),
    ensures
        ({
            let (state, events) = entering_step(old(entering).state, lifecycle, *sight);
            &&& final(entering).state == state
            &&& final(resources).sent(*old(resources), events)
        }),
{
    let ticket_label = match entering.state {
        State::SelectingDungeon(_, label) => label,
        _ => {
            return ;
        },
    };
    match lifecycle {
        Lifecycle::Started(timeout) => {
            let point = last_active_dungeon_tile(&sight.locked_tiles, ticket_label);
            resources.input.send_mouse(point.x, point.y, MouseKind::Click);
            entering.state = State::SelectingDungeon(timeout, ticket_label);
        },
        Lifecycle::Ended => entering.state = State::Confirming(Timeout::default()),
        Lifecycle::Updated(timeout) => {
            entering.state = State::SelectingDungeon(timeout, ticket_label);
        },
    }
}

fn update_confirming(
    resources: &mut Resources,
    entering: &mut EnteringMonsterPark,
    lifecycle: Lifecycle,
    sight: &MonsterParkSight,
)
    requires
        old(entering).state is Confirming,
        click_fits(old(entering).state, lifecycle, *sight),
    ensures
        ({
            let (state, events) = entering_step(old(entering).state, lifecycle, *sight);
            &&& final(entering).state == state
            &&& final(resources).sent(*old(resources), events)
        }),
{
    match lifecycle {
        Lifecycle::Started(timeout) => match sight.enter_button {
            Some(button) => {
                let point = button.center();
                resources.input.send_mouse(point.x, point.y, MouseKind::Click);
                entering.state = State::Confirming(timeout);
            },
            None => entering.state = State::Done,
        },
        Lifecycle::Ended => entering.state = State::Done,
        Lifecycle::Updated(timeout) => entering.state = State::Confirming(timeout),
    }
}

/// The center of a coordinate range that starts at `start`.
fn middle(start: i32, size: i32) -> (r: i64)
    ensures
        r == start + crate::geometry::half(size as int),
        lowest() <= r <= 0x1_0000_0000,
{
    start as i64 + (size / 2) as i64
}

fn distance_between(a: i64, b: i64) -> (r: i64)
    requires
        lowest() * 4 <= a <= 0x4_0000_0000,
        lowest() * 4 <= b <= 0x4_0000_0000,
    ensures
        r == magnitude(a - b),
{
    if a >= b {
        a - b
    } else {
        b - a
    }
}

/// Finds the least of the values that is at least `floor`.
fn find_least(values: &Vec<i64>, floor: i64) -> (r: Option<i64>)
    ensures
        r is Some == least_from(values@.map_values(|v: i64| v as int), floor as int) is Some,
        r is Some ==> r->0 == least_from(
            values@.map_values(|v: i64| v as int),
            floor as int,
        )->0,
{
    let ghost all = values@.map_values(|v: i64| v as int);
    let mut least: Option<i64> = None;
    let mut i: usize = 0;
    assert(all.take(0) == Seq::<int>::empty());
    while i < values.len()
        invariant
            i <= values.len(),
            all == values@.map_values(|v: i64| v as int),
            least is Some == least_from(all.take(i as int), floor as int) is Some,
            least is Some ==> least->0 == least_from(all.take(i as int), floor as int)->0,
        decreases values.len() - i,
    {
        let value: i64 = values[i];
        assert(all.take(i + 1).drop_last() == all.take(i as int));
        assert(all.take(i + 1).last() == value);
        if floor <= value {
            least = match least {
                Some(current) => if value < current {
                    Some(value)
                } else {
                    Some(current)
                },
                None => Some(value),
            };
        }
        i += 1;
    }
    assert(all.take(i as int) == all);
    least
}

/// Finds the center of the last unlocked dungeon tile in reading order (top-to-bottom,
/// left-to-right).
///
/// The locked tiles come last, so it is the one right before the first locked tile. The columns
/// and the row spacing are taken from the locked tiles as far as they show them.
pub fn last_active_dungeon_tile(locked_tiles: &Vec<Rect>, ticket_label: Rect) -> (point: Point)
    requires
        fits(last_active_tile(locked_tiles@, ticket_label).0),
        fits(last_active_tile(locked_tiles@, ticket_label).1),
    ensures
        (point.x as int, point.y as int) == last_active_tile(locked_tiles@, ticket_label),
{
    if locked_tiles.len() == 0 {
        return Point {
            x: ticket_label.x + FALLBACK_RIGHT_COL_X_OFFSET,
            y: ticket_label.y + FALLBACK_LAST_ROW_Y_OFFSET,
        };
    }
    let mut xs: Vec<i64> = Vec::new();
    let mut ys: Vec<i64> = Vec::new();
    let mut i: usize = 0;
    while i < locked_tiles.len()
        invariant
            i <= locked_tiles.len(),
            xs.len() == i,
            ys.len() == i,
            forall|j: int| 0 <= j < i ==> #[trigger] xs@[j] == locked_tiles@[j].center_x(),
            forall|j: int| 0 <= j < i ==> #[trigger] ys@[j] == locked_tiles@[j].center_y(),
            forall|j: int| 0 <= j < i ==> lowest() <= #[trigger] xs@[j] <= 0x1_0000_0000,
            forall|j: int| 0 <= j < i ==> lowest() <= #[trigger] ys@[j] <= 0x1_0000_0000,
        decreases locked_tiles.len() - i,
    {
        let tile = locked_tiles[i];
        xs.push(middle(tile.x, tile.width));
        ys.push(middle(tile.y, tile.height));
        i += 1;
    }
    let ghost center_x = xs@.map_values(|v: i64| v as int);
    let ghost center_y = ys@.map_values(|v: i64| v as int);
    proof {
        assert(center_x == center_xs(locked_tiles@));
        assert(center_y == center_ys(locked_tiles@));
        least_from_is_least(center_x, lowest());
        least_from_is_least(center_y, lowest());
        assert(center_x[0] == xs@[0]);
        assert(center_y[0] == ys@[0]);
    }
    let first_x: i64 = match find_least(&xs, -0x1_0000_0000) {
        Some(x) => x,
        None => 0,
    };
    let first_y: i64 = match find_least(&ys, -0x1_0000_0000) {
        Some(y) => y,
        None => 0,
    };
    assert(lowest() <= first_x <= 0x1_0000_0000 && lowest() <= first_y <= 0x1_0000_0000) by {
        let x = center_x.index_of(first_x as int);
        let y = center_y.index_of(first_y as int);
        assert(center_x[x] == xs@[x] && center_y[y] == ys@[y]);
    }
    let second_x = find_least(&xs, first_x + CLUSTER_TOLERANCE as i64);
    let second_y = find_least(&ys, first_y + CLUSTER_TOLERANCE as i64);
    proof {
        least_from_is_least(center_x, first_x + CLUSTER_TOLERANCE);
        least_from_is_least(center_y, first_y + CLUSTER_TOLERANCE);
        if second_x is Some {
            let x = center_x.index_of(second_x->0 as int);
            assert(center_x[x] == xs@[x]);
        }
        if second_y is Some {
            let y = center_y.index_of(second_y->0 as int);
            assert(center_y[y] == ys@[y]);
        }
    }
    let usual_left: i64 = ticket_label.x as i64 + FALLBACK_LEFT_COL_X_OFFSET as i64;
    let usual_right: i64 = ticket_label.x as i64 + FALLBACK_RIGHT_COL_X_OFFSET as i64;
    let (left, right): (i64, i64) = match second_x {
        Some(second) => (first_x, second),
        None => if distance_between(first_x, usual_left) <= distance_between(
            first_x,
            usual_right,
        ) {
            (first_x, usual_right)
        } else {
            (usual_left, first_x)
        },
    };
    let spacing: i64 = match second_y {
        Some(second) => second - first_y,
        None => FALLBACK_ROW_SPACING as i64,
    };
    let mut left_locked_in_first_row = false;
    let mut j: usize = 0;
    while j < locked_tiles.len()
        invariant
            j <= locked_tiles.len(),
            xs.len() == locked_tiles.len(),
            ys.len() == locked_tiles.len(),
            forall|k: int|
                0 <= k < xs.len() ==> #[trigger] xs@[k] == locked_tiles@[k].center_x(),
            forall|k: int|
                0 <= k < ys.len() ==> #[trigger] ys@[k] == locked_tiles@[k].center_y(),
            forall|k: int| 0 <= k < xs.len() ==> lowest() <= #[trigger] xs@[k] <= 0x1_0000_0000,
            forall|k: int| 0 <= k < ys.len() ==> lowest() <= #[trigger] ys@[k] <= 0x1_0000_0000,
            lowest() * 2 <= left <= 0x2_0000_0000,
            lowest() <= first_y <= 0x1_0000_0000,
            left_locked_in_first_row == exists|k: int|
                0 <= k < j && tile_at(#[trigger] locked_tiles@[k], left as int, first_y as int),
        decreases locked_tiles.len() - j,
    {
        let x: i64 = xs[j];
        let y: i64 = ys[j];
        let here = distance_between(y, first_y) < CLUSTER_TOLERANCE as i64 && distance_between(
            x,
            left,
        ) < CLUSTER_TOLERANCE as i64;
        assert(here == tile_at(locked_tiles@[j as int], left as int, first_y as int));
        left_locked_in_first_row = left_locked_in_first_row || here;
        j += 1;
    }
    if !left_locked_in_first_row {
        Point { x: left as i32, y: first_y as i32 }
    } else {
        Point { x: right as i32, y: (first_y - spacing) as i32 }
    }
}

/// The center of the tile at `index` in reading order, in a grid of two columns.
pub open spec fn grid_center(left: int, right: int, top: int, spacing: int, index: int) -> (
    int,
    int,
) {
    (
        if index % 2 == 0 {
            left
        } else {
            right
        },
        top + spacing * (index / 2),
    )
}

/// Whether the locked tiles are exactly those from `first` up to `end` in reading order.
#[verifier::opaque]
pub open spec fn locked_from(
    tiles: Seq<Rect>,
    left: int,
    right: int,
    top: int,
    spacing: int,
    first: int,
    end: int,
) -> bool {
    &&& forall|i: int|
        0 <= i < tiles.len() ==> exists|k: int|
            first <= k < end && (#[trigger] tiles[i].center_x(), tiles[i].center_y())
                == #[trigger] grid_center(left, right, top, spacing, k)
    &&& forall|k: int|
        first <= k < end ==> exists|i: int|
            0 <= i < tiles.len() && (#[trigger] tiles[i].center_x(), tiles[i].center_y())
                == #[trigger] grid_center(left, right, top, spacing, k)
}

proof fn lower_rows_are_below(spacing: int, row: int, other: int)
    by (nonlinear_arith)
    requires
        spacing >= CLUSTER_TOLERANCE,
        row < other,
    ensures
        spacing * row + CLUSTER_TOLERANCE <= spacing * other,
        spacing * (row + 1) == spacing * row + spacing,
        spacing * (row + 1) <= spacing * other,
{
    assert(spacing * other >= spacing * (row + 1));
    assert(spacing * (row + 1) == spacing * row + spacing);
}

proof fn first_line_is(values: Seq<int>, first: int)
    requires
        values.contains(first),
        first >= lowest(),
        forall|i: int| 0 <= i < values.len() ==> #[trigger] values[i] >= first,
    ensures
        first_line(values) == first,
{
    least_from_is_least(values, lowest());
    let i = values.index_of(first);
    assert(values[i] == first);
    let j = values.index_of(first_line(values));
    assert(values[j] == first_line(values));
}

proof fn second_line_is(values: Seq<int>, first: int, second: int)
    requires
        values.contains(first),
        values.contains(second),
        first >= lowest(),
        second >= first + CLUSTER_TOLERANCE,
        forall|i: int|
            0 <= i < values.len() ==> #[trigger] values[i] == first || values[i] >= second,
    ensures
        first_line(values) == first,
        second_line(values) == Some(second),
{
    first_line_is(values, first);
    least_from_is_least(values, first + CLUSTER_TOLERANCE);
    let i = values.index_of(second);
    assert(values[i] == second);
    let j = values.index_of(second_line(values)->0);
    assert(values[j] == second_line(values)->0);
}

proof fn locked_tile(
    tiles: Seq<Rect>,
    left: int,
    right: int,
    top: int,
    spacing: int,
    first: int,
    end: int,
    k: int,
) -> (i: int)
    requires
        locked_from(tiles, left, right, top, spacing, first, end),
        first <= k < end,
    ensures
        0 <= i < tiles.len(),
        (tiles[i].center_x(), tiles[i].center_y()) == grid_center(left, right, top, spacing, k),
        center_xs(tiles).contains(grid_center(left, right, top, spacing, k).0),
        center_ys(tiles).contains(grid_center(left, right, top, spacing, k).1),
        lowest() <= grid_center(left, right, top, spacing, k).0,
        lowest() <= grid_center(left, right, top, spacing, k).1,
{
    reveal(locked_from);
    let i = choose|i: int|
        0 <= i < tiles.len() && (#[trigger] tiles[i].center_x(), tiles[i].center_y())
            == grid_center(left, right, top, spacing, k);
    assert(center_xs(tiles)[i] == tiles[i].center_x());
    assert(center_ys(tiles)[i] == tiles[i].center_y());
    i
}

proof fn locked_tile_position(
    tiles: Seq<Rect>,
    left: int,
    right: int,
    top: int,
    spacing: int,
    first: int,
    end: int,
    i: int,
)
    requires
        locked_from(tiles, left, right, top, spacing, first, end),
        spacing >= CLUSTER_TOLERANCE,
        0 <= i < tiles.len(),
    ensures
        tiles[i].center_x() == left || tiles[i].center_x() == right,
        ({
            let first_y = top + spacing * (first / 2);
            &&& tiles[i].center_y() == first_y || tiles[i].center_y() >= first_y + spacing
            &&& first % 2 == 1 && tiles[i].center_y() == first_y ==> tiles[i].center_x() == right
        }),
{
    reveal(locked_from);
    let k = choose|k: int|
        first <= k < end && (tiles[i].center_x(), tiles[i].center_y())
            == #[trigger] grid_center(left, right, top, spacing, k);
    if k / 2 > first / 2 {
        lower_rows_are_below(spacing, first / 2, k / 2);
    } else {
        assert(k / 2 == first / 2);
        assert(first % 2 == 1 ==> k == first);
    }
}

/// Where the locked tiles are the last ones of a grid, the tile picked is the one right before
/// the first of them. Both columns have to show, and a second row where the tile picked is in
/// the row above.
pub proof fn picks_the_tile_before_the_first_locked(
    tiles: Seq<Rect>,
    label: Rect,
    left: int,
    right: int,
    top: int,
    spacing: int,
    first: int,
    end: int,
)
    requires
        right - left >= CLUSTER_TOLERANCE,
        spacing >= CLUSTER_TOLERANCE,
        0 < first,
        first + 2 <= end,
        first % 2 == 0 ==> first + 2 < end,
        locked_from(tiles, left, right, top, spacing, first, end),
    ensures
        last_active_tile(tiles, label) == grid_center(left, right, top, spacing, first - 1),
{
    let xs = center_xs(tiles);
    let ys = center_ys(tiles);
    let row = first / 2;
    let first_y = top + spacing * row;

    let i = locked_tile(tiles, left, right, top, spacing, first, end, first);
    let j = locked_tile(tiles, left, right, top, spacing, first, end, first + 1);
    assert forall|n: int|
        #![trigger xs[n]]
        #![trigger ys[n]]
        #![trigger tiles[n]]
        0 <= n < tiles.len() implies {
        &&& xs[n] == left || xs[n] == right
        &&& ys[n] == first_y || ys[n] >= first_y + spacing
        &&& first % 2 == 1 && ys[n] == first_y ==> xs[n] == right
        &&& xs[n] == tiles[n].center_x()
        &&& ys[n] == tiles[n].center_y()
    } by {
        locked_tile_position(tiles, left, right, top, spacing, first, end, n);
    }
    second_line_is(xs, left, right);
    first_line_is(ys, first_y);
    if first % 2 == 0 {
        let k = locked_tile(tiles, left, right, top, spacing, first, end, first + 2);
        lower_rows_are_below(spacing, row, row + 1);
        assert((first + 2) / 2 == row + 1);
        second_line_is(ys, first_y, first_y + spacing);
        assert(tile_at(tiles[i], left, first_y));
        assert((first - 1) / 2 == row - 1);
        lower_rows_are_below(spacing, row - 1, row);
    } else {
        assert forall|n: int| 0 <= n < tiles.len() implies !tile_at(
            #[trigger] tiles[n],
            left,
            first_y,
        ) by {
            assert(xs[n] == tiles[n].center_x());
        }
        assert((first - 1) / 2 == row);
    }
}

} // verus!
