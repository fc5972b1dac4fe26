//! Mobbing: going for mobs on the current map, and sweeping it from side to side.

use vstd::prelude::*;

use crate::ecs::{
    DetectionRequest, Detections, Draws, Minimap, MobSighting, Resources, Update,
};
use crate::geometry::{fits, magnitude, Point, Rect};
use crate::models::{ticks, ticks_in, Bound, MobbingKey, Position};
use crate::player::actions::{
    AutoMob, PingPong, PingPongDirection, PlayerAction, PlayerActionView,
};
use crate::player::context::{PlayerContext, PlayerContextView, Quadrant};
use crate::player::GRAPPLING_THRESHOLD;

verus! {

/// After how many mobs in a row from the same quadrant the player explores.
pub const AUTO_MOB_SAME_QUAD_THRESHOLD: u32 = 5;

/// The action that goes to `position` and uses the mobbing key there.
pub open spec fn auto_mob(
    key: MobbingKey,
    ms_per_tick: u64,
    position: Position,
    is_pathing: bool,
    is_monster_park: bool,
) -> AutoMob {
    AutoMob {
        key: key.key,
        key_hold_ticks: ticks(key.key_hold_millis, ms_per_tick),
        link_key: key.link_key,
        count: key.uses(),
        with: key.with,
        wait_before_ticks: ticks(key.wait_before_millis, ms_per_tick),
        wait_before_ticks_random_range: ticks(key.wait_before_millis_random_range, ms_per_tick),
        wait_after_ticks: ticks(key.wait_after_millis, ms_per_tick),
        wait_after_ticks_random_range: ticks(key.wait_after_millis_random_range, ms_per_tick),
        position,
        is_pathing,
        is_monster_park,
    }
}

/// The action that goes to `position` and uses the mobbing key there.
pub fn auto_mob_action(
    key: MobbingKey,
    ms_per_tick: u64,
    position: Position,
    is_pathing: bool,
    is_monster_park: bool,
) -> (r: AutoMob)
    requires
        ms_per_tick > 0,
    ensures
        r == auto_mob(key, ms_per_tick, position, is_pathing, is_monster_park),
{
    AutoMob {
        key: key.key,
        key_hold_ticks: ticks_in(key.key_hold_millis, ms_per_tick),
        link_key: key.link_key,
        count: key.use_count(),
        with: key.with,
        wait_before_ticks: ticks_in(key.wait_before_millis, ms_per_tick),
        wait_before_ticks_random_range: ticks_in(key.wait_before_millis_random_range, ms_per_tick),
        wait_after_ticks: ticks_in(key.wait_after_millis, ms_per_tick),
        wait_after_ticks_random_range: ticks_in(key.wait_after_millis_random_range, ms_per_tick),
        position,
        is_pathing,
        is_monster_park,
    }
}

/// Whether a mob is not too high up for a player at `pos`: at most as high, or within a grapple.
pub open spec fn within_reach(point: Point, minimap: Rect, pos: Point) -> bool {
    let y = minimap.height - point.y;
    y <= pos.y || magnitude(y - pos.y) <= GRAPPLING_THRESHOLD
}

/// The position of a mob with its height counted from the bottom of the minimap, if it is not
/// too high up. This is where a place to stand at is looked for.
pub fn candidate_position(point: Point, minimap: Rect, pos: Point) -> (r: Option<Point>)
    requires
        fits(minimap.height - point.y),
    ensures
        r == if within_reach(point, minimap, pos) {
            Some(Point { x: point.x, y: (minimap.height - point.y) as i32 })
        } else {
            None
        },
{
    if is_within_reach(point, minimap, pos) {
        Some(Point { x: point.x, y: minimap.height - point.y })
    } else {
        None
    }
}

fn is_within_reach(point: Point, minimap: Rect, pos: Point) -> (r: bool)
    ensures
        r == within_reach(point, minimap, pos),
{
    let y: i64 = minimap.height as i64 - point.y as i64;
    y <= pos.y as i64 || y - pos.y as i64 <= GRAPPLING_THRESHOLD as i64
}

/// The places to stand at for the first `count` of the mobs, in order: those of the mobs that
/// are not too high up, where there is a place.
pub open spec fn places(mobs: Seq<MobSighting>, minimap: Rect, pos: Point, count: nat) -> Seq<Point>
    decreases count,
{
    if count == 0 {
        seq![]
    } else {
        let before = places(mobs, minimap, pos, (count - 1) as nat);
        let mob = mobs[count - 1];
        match mob.reachable {
            Some(place) => if within_reach(mob.point, minimap, pos) {
                before.push(place)
            } else {
                before
            },
            None => before,
        }
    }
}

/// How many mobs in a row were from the same quadrant, once another one from `quadrant` is
/// picked.
pub open spec fn count_after(
    count: Option<(Quadrant, u32)>,
    quadrant: Quadrant,
) -> u32 {
    match count {
        Some((last, count)) => if last == quadrant {
            (count + 1) as u32
        } else {
            1
        },
        None => 1,
    }
}

/// The state of mobbing.
#[derive(Clone, Copy, Debug)]
pub struct AutoMobbing {
    /// How many mobs in a row were from the same quadrant.
    ///
    /// When there were too many, the player explores, to get to another quadrant.
    pub quadrant_consecutive_count: Option<(Quadrant, u32)>,
}

impl AutoMobbing {
    /// Whether exploring is not overdue.
    pub open spec fn wf(self) -> bool {
        match self.quadrant_consecutive_count {
            Some((_, count)) => count < AUTO_MOB_SAME_QUAD_THRESHOLD,
            None => true,
        }
    }

    /// The state once mobs with the given places are seen, and whether the player explores rather
    /// than going for one of them.
    pub open spec fn seen(self, last_quadrant: Option<Quadrant>, places: Seq<Point>) -> (
        AutoMobbing,
        bool,
    ) {
        match last_quadrant {
            Some(quadrant) => if places.len() > 0 {
                let count = count_after(self.quadrant_consecutive_count, quadrant);
                let explores = count >= AUTO_MOB_SAME_QUAD_THRESHOLD;
                (
                    AutoMobbing {
                        quadrant_consecutive_count: Some(
                            (
                                quadrant,
                                if explores {
                                    0
                                } else {
                                    count
                                },
                            ),
                        ),
                    },
                    explores,
                )
            } else {
                (self, false)
            },
            None => (self, false),
        }
    }

    /// Whether there is mobbing to be done: the player is idle and its position known.
    pub open spec fn looks(context: PlayerContextView, minimap: Minimap) -> bool {
        context.normal is None && minimap is Idle && context.last_known_pos is Some
    }

    /// The detection that mobbing uses.
    pub open spec fn request(
        context: PlayerContextView,
        minimap: Minimap,
        bound: Bound,
    ) -> Seq<DetectionRequest> {
        if AutoMobbing::looks(context, minimap) {
            seq![
                DetectionRequest::Mobs {
                    bbox: minimap->Idle_0.bbox,
                    bound,
                    pos: context.last_known_pos->0,
                    name: context.name,
                },
            ]
        } else {
            seq![]
        }
    }

    /// What [`AutoMobbing::rotate`] does.
    pub open spec fn rotated(
        self,
        detections: Detections,
        draws: Draws,
        context: PlayerContextView,
        minimap: Minimap,
        key: MobbingKey,
        ms_per_tick: u64,
    ) -> (AutoMobbing, PlayerContextView) {
        match detections.mobs {
            Update::Ready(mobs) => if AutoMobbing::looks(context, minimap) {
                let places = places(
                    mobs@,
                    minimap->Idle_0.bbox,
                    context.last_known_pos->0,
                    mobs@.len(),
                );
                let (after, explores) = self.seen(context.auto_mob_last_quadrant, places);
                let is_pathing = explores || places.len() == 0;
                let point = if is_pathing {
                    draws.pathing_point
                } else {
                    places[draws.number as int % places.len() as int]
                };
                (
                    after,
                    context.with_normal(
                        None,
                        PlayerActionView::Plain(
                            PlayerAction::AutoMob(
                                auto_mob(
                                    key,
                                    ms_per_tick,
                                    Position::at(point, false),
                                    is_pathing,
                                    false,
                                ),
                            ),
                        ),
                    ),
                )
            } else {
                (self, context)
            },
            _ => (self, context),
        }
    }

    /// Nothing seen yet.
    pub fn new() -> (r: AutoMobbing)
        ensures
            r.quadrant_consecutive_count is None,
            r.wf(),
    {
        AutoMobbing { quadrant_consecutive_count: None }
    }

    fn see(&mut self, last_quadrant: Option<Quadrant>, places: &Vec<Point>) -> (r: bool)
        requires
            old(self).wf(),
        ensures
            (*final(self), r) == old(self).seen(last_quadrant, places@),
            final(self).wf(),
    {
        match last_quadrant {
            Some(quadrant) => {
                if places.len() == 0 {
                    return false;
                }
                let count: u32 = match self.quadrant_consecutive_count {
                    Some((last, count)) => if last == quadrant {
                        count + 1
                    } else {
                        1
                    },
                    None => 1,
                };
                if count >= AUTO_MOB_SAME_QUAD_THRESHOLD {
                    self.quadrant_consecutive_count = Some((quadrant, 0));
                    true
                } else {
                    self.quadrant_consecutive_count = Some((quadrant, count));
                    false
                }
            },
            None => false,
        }
    }

    /// Gives the player a mob to go for, or a position to explore if there is none.
    pub fn rotate(
        &mut self,
        resources: &mut Resources,
        player_context: &mut PlayerContext,
        minimap_state: Minimap,
        key: MobbingKey,
        bound: Bound,
        ms_per_tick: u64,
    )
        requires
            old(self).wf(),
            ms_per_tick > 0,
        ensures
            (*final(self), final(player_context)@) == old(self).rotated(
                old(resources).detections,
                old(resources).draws,
                old(player_context)@,
                minimap_state,
                key,
                ms_per_tick,
            ),
            final(resources).used(
                *old(resources),
                AutoMobbing::request(old(player_context)@, minimap_state, bound),
            ),
            final(self).wf(),
    {
        if player_context.has_normal_action() {
            return ;
        }
        let idle = match minimap_state {
            Minimap::Idle(idle) => idle,
            Minimap::Detecting => {
                return ;
            },
        };
        let pos = match player_context.last_known_pos {
            Some(pos) => pos,
            None => {
                return ;
            },
        };
        let name = player_context.name();
        resources.polled.push(DetectionRequest::Mobs { bbox: idle.bbox, bound, pos, name });
        let places = match &resources.detections.mobs {
            Update::Ready(mobs) => reachable_places(mobs, idle.bbox, pos),
            _ => {
                return ;
            },
        };
        let use_pathing_point = self.see(player_context.auto_mob_last_quadrant, &places);
        let is_pathing = use_pathing_point || places.len() == 0;
        let point = if is_pathing {
            resources.draws.pathing_point
        } else {
            let i: usize = (resources.draws.number % places.len() as u64) as usize;
            places[i]
        };
        player_context.set_normal_action(
            None,
            PlayerAction::AutoMob(
                auto_mob_action(
                    key,
                    ms_per_tick,
                    Position::exactly(point, false),
                    is_pathing,
                    false,
                ),
            ),
        );
    }
}

fn reachable_places(mobs: &Vec<MobSighting>, minimap: Rect, pos: Point) -> (r: Vec<Point>)
    ensures
        r@ == places(mobs@, minimap, pos, mobs@.len()),
{
    let mut places: Vec<Point> = Vec::new();
    let mut i: usize = 0;
    while i < mobs.len()
        invariant
            i <= mobs.len(),
            places@ == self::places(mobs@, minimap, pos, i as nat),
        decreases mobs.len() - i,
    {
        let mob = mobs[i];
        if let Some(place) = mob.reachable {
            if is_within_reach(mob.point, minimap, pos) {
                places.push(place);
            }
        }
        i += 1;
    }
    places
}

/// The direction of a sweep: away from the closer side of the minimap.
pub open spec fn sweep_direction(minimap: Rect, pos: Point) -> PingPongDirection {
    if pos.x - minimap.x > (minimap.x + minimap.width) - pos.x {
        PingPongDirection::Left
    } else {
        PingPongDirection::Right
    }
}

/// The area to sweep, with its vertical position counted from the bottom of the minimap.
pub open spec fn sweep_bound(minimap: Rect, bound: Bound) -> Rect {
    Rect {
        x: bound.x,
        y: (minimap.height - (bound.y + bound.height)) as i32,
        width: bound.width,
        height: bound.height,
    }
}

/// What [`rotate_ping_pong`] does.
pub open spec fn ping_ponged(
    context: PlayerContextView,
    minimap: Minimap,
    key: MobbingKey,
    bound: Bound,
    ms_per_tick: u64,
) -> PlayerContextView {
    if AutoMobbing::looks(context, minimap) {
        let bbox = minimap->Idle_0.bbox;
        let pos = context.last_known_pos->0;
        context.with_normal(
            None,
            PlayerActionView::Plain(
                PlayerAction::PingPong(
                    PingPong {
                        key: key.key,
                        key_hold_ticks: ticks(key.key_hold_millis, ms_per_tick),
                        link_key: key.link_key,
                        count: key.uses(),
                        with: key.with,
                        wait_before_ticks: ticks(key.wait_before_millis, ms_per_tick),
                        wait_before_ticks_random_range: ticks(
                            key.wait_before_millis_random_range,
                            ms_per_tick,
                        ),
                        wait_after_ticks: ticks(key.wait_after_millis, ms_per_tick),
                        wait_after_ticks_random_range: ticks(
                            key.wait_after_millis_random_range,
                            ms_per_tick,
                        ),
                        bound: sweep_bound(bbox, bound),
                        direction: sweep_direction(bbox, pos),
                    },
                ),
            ),
        )
    } else {
        context
    }
}

/// Whether the area to sweep is at a pixel position.
pub open spec fn sweep_fits(context: PlayerContextView, minimap: Minimap, bound: Bound) -> bool {
    AutoMobbing::looks(context, minimap) ==> fits(
        minimap->Idle_0.bbox.height - (bound.y + bound.height),
    )
}

/// Sends the player sweeping toward the farther side of the minimap.
pub fn rotate_ping_pong(
    player_context: &mut PlayerContext,
    minimap_state: Minimap,
    key: MobbingKey,
    bound: Bound,
    ms_per_tick: u64,
)
    requires
        sweep_fits(old(player_context)@, minimap_state, bound),
        ms_per_tick > 0,
    ensures
        final(player_context)@ == ping_ponged(
            old(player_context)@,
            minimap_state,
            key,
            bound,
            ms_per_tick,
        ),
{
    if player_context.has_normal_action() {
        return ;
    }
    let bbox = match minimap_state {
        Minimap::Idle(idle) => idle.bbox,
        Minimap::Detecting => {
            return ;
        },
    };
    let pos = match player_context.last_known_pos {
        Some(pos) => pos,
        None => {
            return ;
        },
    };
    let dist_left: i64 = pos.x as i64 - bbox.x as i64;
    let dist_right: i64 = (bbox.x as i64 + bbox.width as i64) - pos.x as i64;
    let direction = if dist_left > dist_right {
        PingPongDirection::Left
    } else {
        PingPongDirection::Right
    };
    let bottom: i64 = bbox.height as i64 - (bound.y as i64 + bound.height as i64);
    player_context.set_normal_action(
        None,
        PlayerAction::PingPong(
            PingPong {
                key: key.key,
                key_hold_ticks: ticks_in(key.key_hold_millis, ms_per_tick),
                link_key: key.link_key,
                count: key.use_count(),
                with: key.with,
                wait_before_ticks: ticks_in(key.wait_before_millis, ms_per_tick),
                wait_before_ticks_random_range: ticks_in(
                    key.wait_before_millis_random_range,
                    ms_per_tick,
                ),
                wait_after_ticks: ticks_in(key.wait_after_millis, ms_per_tick),
                wait_after_ticks_random_range: ticks_in(
                    key.wait_after_millis_random_range,
                    ms_per_tick,
                ),
                bound: Rect {
                    x: bound.x,
                    y: bottom as i32,
                    width: bound.width,
                    height: bound.height,
                },
                direction,
            },
        ),
    );
}

/// The state after mobs of the same quadrant were seen the given number of times in a row.
pub open spec fn seen_in_a_row(quadrant: Quadrant, places: Seq<Point>, times: nat) -> AutoMobbing
    decreases times,
{
    if times == 0 {
        AutoMobbing { quadrant_consecutive_count: None }
    } else {
        seen_in_a_row(quadrant, places, (times - 1) as nat).seen(Some(quadrant), places).0
    }
}

/// Of the times in a row that there are mobs in the same quadrant, the player explores every
/// fifth one.
pub proof fn explores_every_fifth_time(quadrant: Quadrant, places: Seq<Point>, times: nat)
    requires
        places.len() > 0,
        times > 0,
    ensures
        ({
            let before = seen_in_a_row(quadrant, places, (times - 1) as nat);
            before.seen(Some(quadrant), places).1 <==> times % AUTO_MOB_SAME_QUAD_THRESHOLD as nat
                == 0
        }),
{
    counts_up_to_five(quadrant, places, (times - 1) as nat);
}

proof fn counts_up_to_five(quadrant: Quadrant, places: Seq<Point>, times: nat)
    requires
        places.len() > 0,
    ensures
        times > 0 ==> seen_in_a_row(quadrant, places, times).quadrant_consecutive_count == Some(
            (quadrant, (times % 5) as u32),
        ),
    decreases times,
{
    if times > 0 {
        counts_up_to_five(quadrant, places, (times - 1) as nat);
    }
}

/// A mob is gone for only where there is a place to stand at, and it is one of these places.
pub proof fn goes_to_a_place(
    mobbing: AutoMobbing,
    detections: Detections,
    draws: Draws,
    context: PlayerContextView,
    minimap: Minimap,
    key: MobbingKey,
    ms_per_tick: u64,
)
    requires
        AutoMobbing::looks(context, minimap),
        detections.mobs is Ready,
    ensures
        ({
            let mobs = detections.mobs->Ready_0@;
            let pos = context.last_known_pos->0;
            let places = places(mobs, minimap->Idle_0.bbox, pos, mobs.len());
            let (_, after) = mobbing.rotated(
                detections,
                draws,
                context,
                minimap,
                key,
                ms_per_tick,
            );
            &&& after.normal matches Some(assigned)
            &&& assigned.action matches PlayerActionView::Plain(PlayerAction::AutoMob(mob))
            &&& !mob.is_pathing ==> exists|i: int|
                0 <= i < places.len() && mob.position == Position::at(#[trigger] places[i], false)
            &&& mob.is_pathing ==> mob.position == Position::at(draws.pathing_point, false)
            &&& places.len() == 0 ==> mob.is_pathing
        }),
{
    let mobs = detections.mobs->Ready_0@;
    let pos = context.last_known_pos->0;
    let places = places(mobs, minimap->Idle_0.bbox, pos, mobs.len());
    if places.len() > 0 {
        let i = draws.number as int % places.len() as int;
        vstd::arithmetic::div_mod::lemma_mod_bound(draws.number as int, places.len() as int);
        assert(places[i] == places[i]);
    }
}

} // verus!
