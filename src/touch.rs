//! Touch events and the two capabilities around the driver: the transport it
//! reads raw samples from and the touch screen interface it offers.

use vstd::prelude::*;

verus! {

/// A point in display coordinates.
#[derive(Clone, Copy, Debug, PartialEq, Eq, Structural)]
pub struct Point {
    pub x: i32,
    pub y: i32,
}

impl Point {
    pub fn new(x: i32, y: i32) -> (r: Point)
        ensures
            r.x == x,
            r.y == y,
    {
        Point { x, y }
    }
}

/// Where an event stands in the life of a contact.
#[derive(Clone, Copy, Debug, PartialEq, Eq, Structural)]
pub enum TouchKind {
    /// First recognised contact after a release.
    Start,
    /// Continuation of an ongoing contact.
    Move,
    /// Contact lifted; carries the last stable position.
    End,
}

/// A touch event in display coordinates.
#[derive(Clone, Copy, Debug, PartialEq, Eq, Structural)]
pub struct TouchEvent {
    pub point: Point,
    pub kind: TouchKind,
}

/// The serial link to the touch controller: one X/Y conversion pair per call.
pub trait Transport {
    type Error;

    /// Reads one raw `(x, y)` sample; fails on a line-level fault.
    fn read_xy(&mut self) -> Result<(u16, u16), Self::Error>;
}

/// A source of touch events that is polled at a fixed interval.
pub trait TouchScreen {
    type TouchError;

    /// Polls once: `Ok(None)` when this poll produced no event.
    fn get_touch_event(&mut self) -> Result<Option<TouchEvent>, Self::TouchError>;
}

} // verus!
