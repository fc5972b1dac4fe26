//! Monster Park: clearing stage after stage of mobs and going on through the portals.

use vstd::prelude::*;

use super::mobbing::{auto_mob, auto_mob_action};
use super::Tuning;
use crate::ecs::{DetectionRequest, Detections, Minimap, Resources, Update};
use crate::geometry::{
    distance, distance_squared, fits, half, is_near, magnitude, near, squared_distance, Point, Rect,
};
use crate::models::{ActionKeyWith, KeyKind, MobbingKey, Position};
use crate::player::actions::{Key, Move, PlayerAction, PlayerActionView};
use crate::player::context::{PlayerContext, PlayerContextView};

verus! {

/// How far apart two sightings of the same enemy may be along each axis.
pub const MONSTER_PARK_TARGET_MATCH_THRESHOLD: i32 = 10;

/// How many times in a row an enemy has to be missing to count as gone.
pub const MONSTER_PARK_TARGET_MISSING_DEBOUNCE_COUNT: u32 = 3;

/// How many times in a row an enemy has to be seen to be pursued.
pub const MONSTER_PARK_NEW_TARGET_DEBOUNCE_COUNT: u32 = 2;

/// How many times in a row no enemy has to be seen for the map to count as cleared.
pub const MONSTER_PARK_NO_ENEMY_DEBOUNCE_COUNT: u32 = 3;

/// How many times in a row a portal is tried.
pub const MONSTER_PARK_PORTAL_ATTEMPT_LIMIT: u32 = 5;

/// How far the ground is below the center of a portal.
pub const PORTAL_GROUND_Y_OFFSET: i32 = 6;

/// How far from a portal's center the player may stand to use it.
pub const PORTAL_ARRIVED_X_THRESHOLD: i32 = 1;

/// How far from a portal's ground the player may be to count as on the same platform.
pub const PORTAL_Y_THRESHOLD: i32 = 14;

/// The position of the entrance for characters below level 260.
pub const GATE_X_UNDER_LEVEL_260: i32 = 109;

/// The position of the entrance for characters from level 260 on.
pub const GATE_X_LEVEL_260_AND_ABOVE: i32 = 120;

/// The height of the entrances.
pub const GATE_Y: i32 = 0;

/// How far from the entrance the player may stand to use it.
pub const GATE_ARRIVED_THRESHOLD: i32 = 1;

/// An enemy that has been seen, but not often enough yet to be pursued.
#[derive(Clone, Copy, Debug, PartialEq, Eq, Structural)]
pub struct PendingTarget {
    pub point: Point,
    /// How many times in a row it has been seen.
    pub seen_count: u32,
}

/// The state of clearing a Monster Park map.
#[derive(Debug)]
pub struct MonsterPark {
    /// How many times in a row no enemy was seen.
    pub no_enemy_count: u32,
    /// Where the portal was last seen, with its vertical position counted from the bottom.
    ///
    /// A player that stands at the portal can cover it. It is forgotten as soon as an enemy is
    /// seen again.
    pub last_portal: Option<Rect>,
    /// How many times in a row the portal was tried without the map changing.
    pub portal_attempts: u32,
    /// The enemy that is being pursued.
    pub target: Option<Point>,
    /// How many times in a row that enemy was missing.
    pub target_missing_count: u32,
    pub pending_target: Option<PendingTarget>,
    /// Where enemies were last seen, with their vertical positions counted from the bottom.
    pub enemies: Vec<Point>,
}

/// What a [`MonsterPark`] holds.
pub struct MonsterParkView {
    pub no_enemy_count: u32,
    pub last_portal: Option<Rect>,
    pub portal_attempts: u32,
    pub target: Option<Point>,
    pub target_missing_count: u32,
    pub pending_target: Option<PendingTarget>,
    pub enemies: Seq<Point>,
}

impl View for MonsterPark {
    type V = MonsterParkView;

    open spec fn view(&self) -> MonsterParkView {
        MonsterParkView {
            no_enemy_count: self.no_enemy_count,
            last_portal: self.last_portal,
            portal_attempts: self.portal_attempts,
            target: self.target,
            target_missing_count: self.target_missing_count,
            pending_target: self.pending_target,
            enemies: self.enemies@,
        }
    }
}

/// `value`, counted up by one but not past the largest number.
pub open spec fn counted_up(value: u32) -> u32 {
    if value == u32::MAX {
        value
    } else {
        (value + 1) as u32
    }
}

/// The vertical center of `rect` once vertical positions are counted from the bottom.
pub open spec fn flipped_center_y(rect: Rect, minimap: Rect) -> int {
    rect.flipped_y(minimap.height as int) + half(rect.height as int)
}

/// The center of an enemy's dot, with its vertical position counted from the bottom.
pub open spec fn enemy_at(rect: Rect, minimap: Rect) -> Point {
    Point { x: rect.center_x() as i32, y: flipped_center_y(rect, minimap) as i32 }
}

/// The centers of the enemies' dots.
pub open spec fn enemies_at(rects: Seq<Rect>, minimap: Rect) -> Seq<Point> {
    rects.map_values(|rect: Rect| enemy_at(rect, minimap))
}

/// Whether the center of an enemy's dot is a pixel position.
pub open spec fn enemy_fits(rect: Rect, minimap: Rect) -> bool {
    fits(rect.center_x()) && fits(flipped_center_y(rect, minimap))
}

/// The spot to stand at to use a portal.
pub open spec fn portal_x(portal: Rect) -> int {
    portal.center_x()
}

/// See [`portal_x`].
pub open spec fn portal_y(portal: Rect) -> int {
    portal.center_y() - PORTAL_GROUND_Y_OFFSET
}

/// Whether the spot to stand at is a pixel position.
pub open spec fn portal_fits(portal: Rect) -> bool {
    fits(portal_x(portal)) && fits(portal_y(portal))
}

/// Whether the player stands at a portal.
pub open spec fn stands_at(pos: Point, portal: Rect) -> bool {
    &&& magnitude(pos.x - portal_x(portal)) <= PORTAL_ARRIVED_X_THRESHOLD
    &&& magnitude(pos.y - portal_y(portal)) <= PORTAL_Y_THRESHOLD
}

/// Whether an enemy is among those seen.
pub open spec fn is_present(enemies: Seq<Point>, target: Point) -> bool {
    exists|i: int|
        0 <= i < enemies.len() && near(
            #[trigger] enemies[i],
            target,
            MONSTER_PARK_TARGET_MATCH_THRESHOLD as int,
        )
}

/// The position of the closest of the first `count` enemies, the first one of several.
pub open spec fn nearest_of(enemies: Seq<Point>, pos: Point, count: nat) -> Option<Point>
    decreases count,
{
    if count == 0 {
        None
    } else {
        let enemy = enemies[count - 1];
        match nearest_of(enemies, pos, (count - 1) as nat) {
            Some(nearest) => if squared_distance(enemy, pos) < squared_distance(nearest, pos) {
                Some(enemy)
            } else {
                Some(nearest)
            },
            None => Some(enemy),
        }
    }
}

/// The position of the closest enemy.
pub open spec fn nearest(enemies: Seq<Point>, pos: Point) -> Option<Point> {
    nearest_of(enemies, pos, enemies.len())
}

/// The closest enemy is one of the enemies, and none is closer.
pub proof fn nearest_is_nearest(enemies: Seq<Point>, pos: Point)
    ensures
        match nearest(enemies, pos) {
            Some(nearest) => {
                &&& enemies.contains(nearest)
                &&& forall|i: int|
                    0 <= i < enemies.len() ==> squared_distance(nearest, pos) <= squared_distance(
                        #[trigger] enemies[i],
                        pos,
                    )
            },
            None => enemies.len() == 0,
        },
{
    nearest_of_is_nearest(enemies, pos, enemies.len());
}

proof fn nearest_of_is_nearest(enemies: Seq<Point>, pos: Point, count: nat)
    requires
        count <= enemies.len(),
    ensures
        match nearest_of(enemies, pos, count) {
            Some(nearest) => {
                &&& enemies.contains(nearest)
                &&& forall|i: int|
                    0 <= i < count ==> squared_distance(nearest, pos) <= squared_distance(
                        #[trigger] enemies[i],
                        pos,
                    )
            },
            None => count == 0,
        },
    decreases count,
{
    if count > 0 {
        nearest_of_is_nearest(enemies, pos, (count - 1) as nat);
        assert(enemies[count - 1] == enemies[count - 1]);
    }
}

/// What a tick of Monster Park comes to.
pub struct MonsterParkOutcome {
    pub park: MonsterParkView,
    pub context: PlayerContextView,
    /// The detections that are used.
    pub requests: Seq<DetectionRequest>,
}

/// The action that presses `key` in place.
pub open spec fn press(key: KeyKind) -> PlayerActionView {
    PlayerActionView::Plain(PlayerAction::Key(Key::pressed(key, ActionKeyWith::Stationary, 5, 0)))
}

/// The action that moves to a spot and ends right there.
pub open spec fn move_to(x: int, y: int) -> PlayerActionView {
    PlayerActionView::Plain(
        PlayerAction::Move(
            Move {
                position: Position::at(Point { x: x as i32, y: y as i32 }, true),
                wait_after_move_ticks: 0,
            },
        ),
    )
}

impl MonsterParkView {
    /// Whether the portal can be walked to.
    pub open spec fn wf(self) -> bool {
        self.last_portal is Some ==> portal_fits(self.last_portal->0)
    }

    /// Nothing seen yet.
    pub open spec fn fresh() -> MonsterParkView {
        MonsterParkView {
            no_enemy_count: 0,
            last_portal: None,
            portal_attempts: 0,
            target: None,
            target_missing_count: 0,
            pending_target: None,
            enemies: seq![],
        }
    }

    /// With the enemies that were seen.
    pub open spec fn scanned(self, scan: Update<Vec<Rect>>, minimap: Rect) -> MonsterParkView {
        match scan {
            Update::Ready(rects) => MonsterParkView { enemies: enemies_at(rects@, minimap), ..self },
            _ => self,
        }
    }

    /// Checks that the enemy pursued is still there: the state, and whether to look for another
    /// one.
    pub open spec fn pursued(self) -> (MonsterParkView, bool) {
        match self.target {
            None => (self, false),
            Some(target) => if is_present(self.enemies, target) {
                (MonsterParkView { target_missing_count: 0, ..self }, false)
            } else {
                let missing = counted_up(self.target_missing_count);
                if missing < MONSTER_PARK_TARGET_MISSING_DEBOUNCE_COUNT {
                    (MonsterParkView { target_missing_count: missing, ..self }, false)
                } else {
                    (MonsterParkView { target: None, target_missing_count: 0, ..self }, true)
                }
            },
        }
    }

    /// How many times in a row the enemy at `point` has now been seen.
    pub open spec fn seen_count(self, point: Point) -> u32 {
        match self.pending_target {
            Some(pending) => if near(
                pending.point,
                point,
                MONSTER_PARK_TARGET_MATCH_THRESHOLD as int,
            ) {
                counted_up(pending.seen_count)
            } else {
                1
            },
            None => 1,
        }
    }

    /// Goes for the enemy at `point` once it has been seen often enough.
    pub open spec fn engaged(
        self,
        context: PlayerContextView,
        point: Point,
        key: MobbingKey,
        tuning: Tuning,
    ) -> (MonsterParkView, PlayerContextView) {
        let seen_count = self.seen_count(point);
        let noticed = MonsterParkView {
            no_enemy_count: 0,
            last_portal: None,
            pending_target: Some(PendingTarget { point, seen_count }),
            ..self
        };
        if seen_count < MONSTER_PARK_NEW_TARGET_DEBOUNCE_COUNT {
            (noticed, context)
        } else {
            (
                MonsterParkView {
                    portal_attempts: 0,
                    target: Some(point),
                    target_missing_count: 0,
                    ..noticed
                },
                context.with_normal(
                    None,
                    PlayerActionView::Plain(
                        PlayerAction::AutoMob(
                            auto_mob(
                                key,
                                tuning.ms_per_tick,
                                Position::at(point, false),
                                false,
                                true,
                            ),
                        ),
                    ),
                ),
            )
        }
    }

    /// Goes to the portal, or uses it.
    pub open spec fn at_portal(
        self,
        context: PlayerContextView,
        pos: Point,
        portal: Rect,
        tuning: Tuning,
    ) -> (MonsterParkView, PlayerContextView) {
        let dx = magnitude(pos.x - portal_x(portal));
        let dy = magnitude(pos.y - portal_y(portal));
        if stands_at(pos, portal) {
            if self.portal_attempts >= MONSTER_PARK_PORTAL_ATTEMPT_LIMIT {
                (
                    MonsterParkView {
                        no_enemy_count: 0,
                        last_portal: None,
                        portal_attempts: 0,
                        ..self
                    },
                    context,
                )
            } else {
                (
                    MonsterParkView {
                        portal_attempts: (self.portal_attempts + 1) as u32,
                        ..self
                    },
                    context.with_priority(None, press(KeyKind::Up)),
                )
            }
        } else {
            let same_platform = dx < tuning.double_jump_threshold && dy <= PORTAL_Y_THRESHOLD;
            let y = if same_platform {
                pos.y as int
            } else {
                portal_y(portal)
            };
            (
                MonsterParkView { portal_attempts: 0, ..self },
                context.with_normal(None, move_to(portal_x(portal), y)),
            )
        }
    }

    /// With the portal that was seen, if there was one.
    pub open spec fn portal_scanned(
        self,
        scan: Update<Vec<Rect>>,
        minimap: Rect,
    ) -> MonsterParkView {
        match scan {
            Update::Ready(rects) => if rects@.len() > 0 {
                MonsterParkView {
                    last_portal: Some(rects@[0].flipped(minimap.height as int)),
                    ..self
                }
            } else {
                self
            },
            _ => self,
        }
    }

    /// What happens while no enemy is seen.
    pub open spec fn cleared(
        self,
        detections: Detections,
        context: PlayerContextView,
        pos: Point,
        minimap: Rect,
        tuning: Tuning,
        requests: Seq<DetectionRequest>,
    ) -> MonsterParkOutcome {
        let unseen = MonsterParkView {
            pending_target: None,
            no_enemy_count: counted_up(self.no_enemy_count),
            ..self
        };
        if unseen.no_enemy_count < MONSTER_PARK_NO_ENEMY_DEBOUNCE_COUNT {
            MonsterParkOutcome { park: unseen, context, requests }
        } else {
            let clear = (MonsterParkView {
                target: None,
                target_missing_count: 0,
                ..unseen
            }).portal_scanned(detections.monster_park_portals, minimap);
            let requests = requests.push(DetectionRequest::MonsterParkPortals(minimap));
            match clear.last_portal {
                None => MonsterParkOutcome { park: clear, context, requests },
                Some(portal) => {
                    let (park, context) = clear.at_portal(context, pos, portal, tuning);
                    MonsterParkOutcome { park, context, requests }
                },
            }
        }
    }

    /// What happens while the player has nothing to do.
    pub open spec fn free(
        self,
        detections: Detections,
        context: PlayerContextView,
        minimap: Rect,
        key: MobbingKey,
        tuning: Tuning,
        requests: Seq<DetectionRequest>,
    ) -> MonsterParkOutcome {
        if detections.dialog_continue_button {
            MonsterParkOutcome {
                park: self,
                context: context.with_priority(None, press(context.config.interact_key)),
                requests,
            }
        } else {
            match context.last_known_pos {
                None => MonsterParkOutcome { park: self, context, requests },
                Some(pos) => match nearest(self.enemies, pos) {
                    Some(point) => {
                        let (park, context) = self.engaged(context, point, key, tuning);
                        MonsterParkOutcome { park, context, requests }
                    },
                    None => self.cleared(detections, context, pos, minimap, tuning, requests),
                },
            }
        }
    }

    /// What [`MonsterPark::rotate`] does.
    pub open spec fn rotated(
        self,
        detections: Detections,
        context: PlayerContextView,
        minimap: Minimap,
        key: MobbingKey,
        tuning: Tuning,
    ) -> MonsterParkOutcome {
        match minimap {
            Minimap::Detecting => MonsterParkOutcome { park: self, context, requests: seq![] },
            Minimap::Idle(idle) => {
                let requests = seq![DetectionRequest::MonsterParkEnemies(idle.bbox)];
                let scanned = self.scanned(detections.monster_park_enemies, idle.bbox);
                let (park, looks) = if context.normal is Some {
                    scanned.pursued()
                } else {
                    (scanned, true)
                };
                if !looks {
                    MonsterParkOutcome { park, context, requests }
                } else {
                    let context = if context.normal is Some {
                        context.without_normal()
                    } else {
                        context
                    };
                    if context.priority is Some {
                        MonsterParkOutcome { park, context, requests }
                    } else {
                        park.free(detections, context, idle.bbox, key, tuning, requests)
                    }
                }
            },
        }
    }
}

/// Whether what was seen of a Monster Park map is at pixel positions.
pub open spec fn sights_fit(detections: Detections, minimap: Minimap) -> bool {
    minimap matches Minimap::Idle(idle) ==> {
        &&& detections.monster_park_enemies matches Update::Ready(rects) ==> (forall|i: int|
            0 <= i < rects@.len() ==> enemy_fits(#[trigger] rects@[i], idle.bbox))
        &&& detections.monster_park_portals matches Update::Ready(rects) ==> (
        rects@.len() > 0 ==> {
            &&& rects@[0].can_flip(idle.bbox.height as int)
            &&& portal_fits(rects@[0].flipped(idle.bbox.height as int))
        })
    }
}

impl MonsterPark {
    /// Nothing seen yet.
    pub fn new() -> (r: MonsterPark)
        ensures
            r@ == MonsterParkView::fresh(),
            r@.wf(),
    {
        MonsterPark {
            no_enemy_count: 0,
            last_portal: None,
            portal_attempts: 0,
            target: None,
            target_missing_count: 0,
            pending_target: None,
            enemies: Vec::new(),
        }
    }

    fn scan_enemies(&mut self, scan: &Update<Vec<Rect>>, minimap: Rect)
        requires
            scan matches Update::Ready(rects) ==> (forall|i: int|
                0 <= i < rects@.len() ==> enemy_fits(#[trigger] rects@[i], minimap)),
        ensures
            final(self)@ == old(self)@.scanned(*scan, minimap),
    {
        if let Update::Ready(rects) = scan {
            let mut enemies: Vec<Point> = Vec::new();
            let mut i: usize = 0;
            while i < rects.len()
                invariant
                    i <= rects.len(),
                    enemies.len() == i,
                    forall|j: int|
                        0 <= j < rects@.len() ==> enemy_fits(#[trigger] rects@[j], minimap),
                    forall|j: int|
                        0 <= j < i ==> #[trigger] enemies@[j] == enemy_at(rects@[j], minimap),
                decreases rects.len() - i,
            {
                let rect = rects[i];
                assert(enemy_fits(rects@[i as int], minimap));
                let x: i64 = rect.x as i64 + (rect.width / 2) as i64;
                let bottom: i64 = minimap.height as i64 - (rect.y as i64 + rect.height as i64);
                let y: i64 = bottom + (rect.height / 2) as i64;
                enemies.push(Point { x: x as i32, y: y as i32 });
                i += 1;
            }
            assert(enemies@ == enemies_at(rects@, minimap));
            self.enemies = enemies;
        }
    }

    fn is_target_present(&self, target: Point) -> (r: bool)
        ensures
            r == is_present(self@.enemies, target),
    {
        let mut i: usize = 0;
        while i < self.enemies.len()
            invariant
                i <= self.enemies.len(),
                forall|j: int|
                    0 <= j < i ==> !near(
                        #[trigger] self.enemies@[j],
                        target,
                        MONSTER_PARK_TARGET_MATCH_THRESHOLD as int,
                    ),
            decreases self.enemies.len() - i,
        {
            if is_near(self.enemies[i], target, MONSTER_PARK_TARGET_MATCH_THRESHOLD) {
                assert(near(
                    self@.enemies[i as int],
                    target,
                    MONSTER_PARK_TARGET_MATCH_THRESHOLD as int,
                ));
                return true;
            }
            i += 1;
        }
        false
    }

    fn pursue(&mut self) -> (r: bool)
        ensures
            (final(self)@, r) == old(self)@.pursued(),
    {
        let target = match self.target {
            Some(target) => target,
            None => {
                return false;
            },
        };
        if self.is_target_present(target) {
            self.target_missing_count = 0;
            return false;
        }
        self.target_missing_count = self.target_missing_count.saturating_add(1);
        if self.target_missing_count < MONSTER_PARK_TARGET_MISSING_DEBOUNCE_COUNT {
            return false;
        }
        self.target = None;
        self.target_missing_count = 0;
        true
    }

    fn nearest_enemy(&self, pos: Point) -> (r: Option<Point>)
        ensures
            r == nearest(self@.enemies, pos),
    {
        let mut nearest: Option<Point> = None;
        let mut i: usize = 0;
        while i < self.enemies.len()
            invariant
                i <= self.enemies.len(),
                nearest == nearest_of(self.enemies@, pos, i as nat),
            decreases self.enemies.len() - i,
        {
            let enemy = self.enemies[i];
            nearest = match nearest {
                Some(point) => if distance_squared(enemy, pos) < distance_squared(point, pos) {
                    Some(enemy)
                } else {
                    Some(point)
                },
                None => Some(enemy),
            };
            i += 1;
        }
        nearest
    }

    fn engage(
        &mut self,
        player_context: &mut PlayerContext,
        point: Point,
        key: MobbingKey,
        tuning: Tuning,
    )
        requires
            tuning.wf(),
        ensures
            (final(self)@, final(player_context)@) == old(self)@.engaged(
                old(player_context)@,
                point,
                key,
                tuning,
            ),
            final(self)@.wf(),
    {
        let seen_count: u32 = match self.pending_target {
            Some(pending) => if is_near(
                pending.point,
                point,
                MONSTER_PARK_TARGET_MATCH_THRESHOLD,
            ) {
                pending.seen_count.saturating_add(1)
            } else {
                1
            },
            None => 1,
        };
        self.no_enemy_count = 0;
        self.last_portal = None;
        self.pending_target = Some(PendingTarget { point, seen_count });
        if seen_count < MONSTER_PARK_NEW_TARGET_DEBOUNCE_COUNT {
            return ;
        }
        self.portal_attempts = 0;
        self.target = Some(point);
        self.target_missing_count = 0;
        player_context.set_normal_action(
            None,
            PlayerAction::AutoMob(
                auto_mob_action(
                    key,
                    tuning.ms_per_tick,
                    Position::exactly(point, false),
                    false,
                    true,
                ),
            ),
        );
    }

    fn go_through_portal(
        &mut self,
        player_context: &mut PlayerContext,
        pos: Point,
        portal: Rect,
        tuning: Tuning,
    )
        requires
            portal_fits(portal),
            old(self)@.wf(),
        ensures
            (final(self)@, final(player_context)@) == old(self)@.at_portal(
                old(player_context)@,
                pos,
                portal,
                tuning,
            ),
            final(self)@.wf(),
    {
        let x: i64 = portal.x as i64 + (portal.width / 2) as i64;
        let y: i64 = portal.y as i64 + (portal.height / 2) as i64 - PORTAL_GROUND_Y_OFFSET as i64;
        let spot = Point { x: x as i32, y: y as i32 };
        let dx: i64 = distance(pos.x, spot.x);
        let dy: i64 = distance(pos.y, spot.y);
        if dx <= PORTAL_ARRIVED_X_THRESHOLD as i64 && dy <= PORTAL_Y_THRESHOLD as i64 {
            if self.portal_attempts >= MONSTER_PARK_PORTAL_ATTEMPT_LIMIT {
                self.no_enemy_count = 0;
                self.last_portal = None;
                self.portal_attempts = 0;
                return ;
            }
            self.portal_attempts = self.portal_attempts + 1;
            // Not by position: on the way there the player could jump instead.
            player_context.set_priority_action(
                None,
                PlayerAction::Key(Key::press(KeyKind::Up, ActionKeyWith::Stationary, 5, 0)),
            );
        } else {
            self.portal_attempts = 0;
            let same_platform = dx < tuning.double_jump_threshold as i64 && dy
                <= PORTAL_Y_THRESHOLD as i64;
            let target_y: i32 = if same_platform {
                pos.y
            } else {
                spot.y
            };
            player_context.set_normal_action(
                None,
                PlayerAction::Move(
                    Move {
                        position: Position::exactly(Point { x: spot.x, y: target_y }, true),
                        wait_after_move_ticks: 0,
                    },
                ),
            );
        }
    }

    fn clear(
        &mut self,
        resources: &mut Resources,
        player_context: &mut PlayerContext,
        pos: Point,
        minimap: Rect,
        tuning: Tuning,
    )
        requires
            old(self)@.wf(),
            old(resources).detections.monster_park_portals matches Update::Ready(rects) ==> (
            rects@.len() > 0 ==> {
                &&& rects@[0].can_flip(minimap.height as int)
                &&& portal_fits(rects@[0].flipped(minimap.height as int))
            }),
        ensures
            ({
                let outcome = old(self)@.cleared(
                    old(resources).detections,
                    old(player_context)@,
                    pos,
                    minimap,
                    tuning,
                    seq![],
                );
                &&& final(self)@ == outcome.park
                &&& final(player_context)@ == outcome.context
                &&& final(resources).used(*old(resources), outcome.requests)
            }),
            final(self)@.wf(),
    {
        self.pending_target = None;
        self.no_enemy_count = self.no_enemy_count.saturating_add(1);
        if self.no_enemy_count < MONSTER_PARK_NO_ENEMY_DEBOUNCE_COUNT {
            return ;
        }
        self.target = None;
        self.target_missing_count = 0;
        resources.polled.push(DetectionRequest::MonsterParkPortals(minimap));
        if let Update::Ready(rects) = &resources.detections.monster_park_portals {
            if rects.len() > 0 {
                self.last_portal = Some(rects[0].flip(minimap.height));
            }
        }
        match self.last_portal {
            Some(portal) => self.go_through_portal(player_context, pos, portal, tuning),
            None => {},
        }
    }

    fn act(
        &mut self,
        resources: &mut Resources,
        player_context: &mut PlayerContext,
        minimap: Rect,
        key: MobbingKey,
        tuning: Tuning,
    )
        requires
            old(self)@.wf(),
            tuning.wf(),
            old(resources).detections.monster_park_portals matches Update::Ready(rects) ==> (
            rects@.len() > 0 ==> {
                &&& rects@[0].can_flip(minimap.height as int)
                &&& portal_fits(rects@[0].flipped(minimap.height as int))
            }),
        ensures
            ({
                let outcome = old(self)@.free(
                    old(resources).detections,
                    old(player_context)@,
                    minimap,
                    key,
                    tuning,
                    seq![],
                );
                &&& final(self)@ == outcome.park
                &&& final(player_context)@ == outcome.context
                &&& final(resources).used(*old(resources), outcome.requests)
            }),
            final(self)@.wf(),
    {
        if resources.detections.dialog_continue_button {
            let key = Key::press(
                player_context.config.interact_key,
                ActionKeyWith::Stationary,
                5,
                0,
            );
            player_context.set_priority_action(None, PlayerAction::Key(key));
            return ;
        }
        let pos = match player_context.last_known_pos {
            Some(pos) => pos,
            None => {
                return ;
            },
        };
        match self.nearest_enemy(pos) {
            Some(point) => self.engage(player_context, point, key, tuning),
            None => self.clear(resources, player_context, pos, minimap, tuning),
        }
    }

    /// Gives the player an enemy to go for, or the portal once there is none left.
    ///
    /// A single look can miss an enemy or show one that is not there. So everything has to be
    /// seen several times in a row before it counts.
    pub fn rotate(
        &mut self,
        resources: &mut Resources,
        player_context: &mut PlayerContext,
        minimap_state: Minimap,
        key: MobbingKey,
        tuning: Tuning,
    )
        requires
            old(self)@.wf(),
            tuning.wf(),
            sights_fit(old(resources).detections, minimap_state),
        ensures
            ({
                let outcome = old(self)@.rotated(
                    old(resources).detections,
                    old(player_context)@,
                    minimap_state,
                    key,
                    tuning,
                );
                &&& final(self)@ == outcome.park
                &&& final(player_context)@ == outcome.context
                &&& final(resources).used(*old(resources), outcome.requests)
            }),
            final(self)@.wf(),
    {
        let minimap = match minimap_state {
            Minimap::Idle(idle) => idle.bbox,
            Minimap::Detecting => {
                return ;
            },
        };
        resources.polled.push(DetectionRequest::MonsterParkEnemies(minimap));
        self.scan_enemies(&resources.detections.monster_park_enemies, minimap);
        if player_context.has_normal_action() {
            if !self.pursue() {
                return ;
            }
            player_context.reset_normal_action();
        }
        if player_context.has_priority_action() {
            return ;
        }
        self.act(resources, player_context, minimap, key, tuning);
    }
}

/// The entrance for a character of the given level.
pub open spec fn gate_x(character_level: u32) -> i32 {
    if character_level < 260 {
        GATE_X_UNDER_LEVEL_260
    } else {
        GATE_X_LEVEL_260_AND_ABOVE
    }
}

/// What [`rotate_monster_park_entry`] does.
pub open spec fn entry_rotated(
    context: PlayerContextView,
    minimap: Minimap,
    character_level: u32,
) -> PlayerContextView {
    if context.normal is Some || context.priority is Some || minimap is Detecting {
        context
    } else {
        match context.last_known_pos {
            None => context,
            Some(pos) => if near(
                pos,
                Point { x: gate_x(character_level), y: GATE_Y },
                GATE_ARRIVED_THRESHOLD as int,
            ) {
                context.with_priority(
                    None,
                    PlayerActionView::Plain(PlayerAction::EnterMonsterPark),
                )
            } else {
                context.with_normal(None, move_to(gate_x(character_level) as int, GATE_Y as int))
            },
        }
    }
}

/// Sends the player to the entrance in the lobby, and through it once there.
///
/// Attempts are not counted here. An attempt presses the up arrow once and gives up by itself
/// when no dialog opens, and before another one the player's position is checked anew.
pub fn rotate_monster_park_entry(
    player_context: &mut PlayerContext,
    minimap_state: Minimap,
    character_level: u32,
)
    ensures
        final(player_context)@ == entry_rotated(
            old(player_context)@,
            minimap_state,
            character_level,
        ),
{
    if player_context.has_normal_action() || player_context.has_priority_action() {
        return ;
    }
    match minimap_state {
        Minimap::Idle(_) => {},
        Minimap::Detecting => {
            return ;
        },
    }
    let pos = match player_context.last_known_pos {
        Some(pos) => pos,
        None => {
            return ;
        },
    };
    let target_x: i32 = if character_level < 260 {
        GATE_X_UNDER_LEVEL_260
    } else {
        GATE_X_LEVEL_260_AND_ABOVE
    };
    let entrance = Point { x: target_x, y: GATE_Y };
    if !is_near(pos, entrance, GATE_ARRIVED_THRESHOLD) {
        player_context.set_normal_action(
            None,
            PlayerAction::Move(
                Move { position: Position::exactly(entrance, true), wait_after_move_ticks: 0 },
            ),
        );
        return ;
    }
    player_context.set_priority_action(None, PlayerAction::EnterMonsterPark);
}

/// Entering is tried only at the entrance: away from it, the player is sent there first.
pub proof fn entering_is_tried_at_the_entrance(
    context: PlayerContextView,
    minimap: Minimap,
    character_level: u32,
)
    requires
        context.normal is None,
        context.priority is None,
        context.last_known_pos is Some,
        minimap is Idle,
    ensures
        ({
            let after = entry_rotated(context, minimap, character_level);
            let entrance = Point { x: gate_x(character_level), y: GATE_Y };
            if near(context.last_known_pos->0, entrance, GATE_ARRIVED_THRESHOLD as int) {
                after == context.with_priority(
                    None,
                    PlayerActionView::Plain(PlayerAction::EnterMonsterPark),
                )
            } else {
                after == context.with_normal(
                    None,
                    move_to(entrance.x as int, entrance.y as int),
                )
            }
        }),
{
}

/// An enemy that was not seen before is not pursued yet, and one that was is.
pub proof fn enemies_are_pursued_from_the_second_sighting(
    park: MonsterParkView,
    context: PlayerContextView,
    point: Point,
    key: MobbingKey,
    tuning: Tuning,
)
    requires
        park.pending_target is Some ==> park.pending_target->0.seen_count >= 1,
    ensures
        ({
            let (after, context_after) = park.engaged(context, point, key, tuning);
            let seen_before = park.pending_target is Some && near(
                park.pending_target->0.point,
                point,
                MONSTER_PARK_TARGET_MATCH_THRESHOLD as int,
            );
            &&& !seen_before ==> context_after == context && after.target == park.target
            &&& seen_before ==> after.target == Some(point) && context_after.normal is Some
            &&& after.pending_target is Some && after.pending_target->0.seen_count >= 1
            &&& after.last_portal is None
            &&& after.no_enemy_count == 0
        }),
{
}

/// An enemy that is pursued is given up only when it was missing three times in a row.
pub proof fn targets_are_given_up_at_the_third_miss(park: MonsterParkView)
    requires
        park.target is Some,
    ensures
        ({
            let (after, gives_up) = park.pursued();
            &&& gives_up <==> !is_present(park.enemies, park.target->0)
                && park.target_missing_count >= 2
            &&& gives_up ==> after.target is None
            &&& !gives_up ==> after.target == park.target
            &&& is_present(park.enemies, park.target->0) ==> after.target_missing_count == 0
        }),
{
}

/// The portal is looked for exactly when no enemy was seen for the third time in a row.
pub proof fn maps_are_cleared_at_the_third_empty_look(
    park: MonsterParkView,
    detections: Detections,
    context: PlayerContextView,
    pos: Point,
    minimap: Rect,
    tuning: Tuning,
    requests: Seq<DetectionRequest>,
)
    ensures
        ({
            let outcome = park.cleared(detections, context, pos, minimap, tuning, requests);
            &&& park.no_enemy_count < 2 ==> {
                &&& outcome.context == context
                &&& outcome.requests == requests
                &&& outcome.park.no_enemy_count == park.no_enemy_count + 1
            }
            &&& park.no_enemy_count >= 2 ==> {
                &&& outcome.requests == requests.push(DetectionRequest::MonsterParkPortals(minimap))
                &&& outcome.park.target is None
            }
        }),
{
}

/// A portal is tried at most five times in a row. After that, enemies are looked for again.
pub proof fn portals_are_not_tried_forever(
    park: MonsterParkView,
    context: PlayerContextView,
    pos: Point,
    portal: Rect,
    tuning: Tuning,
)
    ensures
        ({
            let (after, context_after) = park.at_portal(context, pos, portal, tuning);
            &&& after.portal_attempts <= MONSTER_PARK_PORTAL_ATTEMPT_LIMIT
            &&& stands_at(pos, portal) && park.portal_attempts
                < MONSTER_PARK_PORTAL_ATTEMPT_LIMIT ==> {
                &&& context_after == context.with_priority(None, press(KeyKind::Up))
                &&& after.portal_attempts == park.portal_attempts + 1
            }
            &&& stands_at(pos, portal) && park.portal_attempts
                >= MONSTER_PARK_PORTAL_ATTEMPT_LIMIT ==> {
                &&& context_after == context
                &&& after.no_enemy_count == 0
                &&& after.last_portal is None
                &&& after.portal_attempts == 0
            }
        }),
{
}

} // verus!
