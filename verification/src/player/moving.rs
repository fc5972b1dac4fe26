//! Movement toward a destination.

use vstd::prelude::*;

use super::timeout::Timeout;
use crate::geometry::{distance, magnitude, Point};

verus! {

/// The stops on the way to a final destination.
#[derive(Clone, Copy, Debug, PartialEq, Eq, Structural)]
pub struct MovingIntermediates {
    /// The final destination.
    pub last: Point,
    /// Whether the current destination is a stop on the way.
    pub at_intermediate: bool,
}

/// A movement toward a destination.
#[derive(Clone, Copy, Debug, PartialEq, Eq, Structural)]
pub struct Moving {
    pub pos: Point,
    /// The current destination.
    pub dest: Point,
    pub exact: bool,
    pub completed: bool,
    pub timeout: Timeout,
    pub intermediates: Option<MovingIntermediates>,
}

impl Moving {
    /// A movement that has not started.
    pub open spec fn fresh(
        pos: Point,
        dest: Point,
        exact: bool,
        intermediates: Option<MovingIntermediates>,
    ) -> Moving {
        Moving { pos, dest, exact, completed: false, timeout: Timeout::fresh(), intermediates }
    }

    pub open spec fn spec_is_destination_intermediate(self) -> bool {
        match self.intermediates {
            Some(intermediates) => intermediates.at_intermediate,
            None => false,
        }
    }

    /// The current destination, or the final one.
    pub open spec fn destination(self, current: bool) -> Point {
        match self.intermediates {
            Some(intermediates) => if !current && intermediates.at_intermediate {
                intermediates.last
            } else {
                self.dest
            },
            None => self.dest,
        }
    }

    /// A movement that has not started.
    pub fn new(
        pos: Point,
        dest: Point,
        exact: bool,
        intermediates: Option<MovingIntermediates>,
    ) -> (r: Moving)
        ensures
            r == Moving::fresh(pos, dest, exact, intermediates),
    {
        Moving { pos, dest, exact, completed: false, timeout: Timeout::default(), intermediates }
    }

    /// This movement with the timeout marked as started or not.
    pub fn timeout_started(self, started: bool) -> (r: Moving)
        ensures
            r == (Moving { timeout: Timeout { started, ..self.timeout }, ..self }),
    {
        let mut moving = self;
        moving.timeout.started = started;
        moving
    }

    /// Whether the current destination is a stop on the way to another one.
    pub fn is_destination_intermediate(&self) -> (r: bool)
        ensures
            r == self.spec_is_destination_intermediate(),
    {
        match self.intermediates {
            Some(intermediates) => intermediates.at_intermediate,
            None => false,
        }
    }

    /// The current destination, or the final one.
    pub fn destination_point(&self, current: bool) -> (r: Point)
        ensures
            r == self.destination(current),
    {
        match self.intermediates {
            Some(intermediates) => if !current && intermediates.at_intermediate {
                intermediates.last
            } else {
                self.dest
            },
            None => self.dest,
        }
    }

    /// How far and in which direction the current or the final destination is from `pos`
    /// horizontally. The direction is positive to the right.
    pub fn x_distance_direction_from(&self, current_destination: bool, pos: Point) -> (r: (
        i64,
        i64,
    ))
        ensures
            r.0 == magnitude(self.destination(current_destination).x - pos.x),
            r.1 == self.destination(current_destination).x - pos.x,
    {
        let dest = self.destination_point(current_destination);
        (distance(dest.x, pos.x), dest.x as i64 - pos.x as i64)
    }

    /// How far and in which direction the current or the final destination is from `pos`
    /// vertically. The direction is positive upward.
    pub fn y_distance_direction_from(&self, current_destination: bool, pos: Point) -> (r: (
        i64,
        i64,
    ))
        ensures
            r.0 == magnitude(self.destination(current_destination).y - pos.y),
            r.1 == self.destination(current_destination).y - pos.y,
    {
        let dest = self.destination_point(current_destination);
        (distance(dest.y, pos.y), dest.y as i64 - pos.y as i64)
    }
}

} // verus!
