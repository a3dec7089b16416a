use vstd::prelude::*;

verus! {

/// Width of one grid cell, in pixels.
pub const FOOD_WIDTH: u16 = 25;

/// Height of one grid cell, in pixels.
pub const FOOD_HEIGHT: u16 = 25;

/// True when both coordinates of a cell are present.
pub open spec fn placed(v: (Option<u16>, Option<u16>)) -> bool {
    v.0 is Some && v.1 is Some
}

/// The grid coordinate of a placed cell.
pub open spec fn cell_of(v: (Option<u16>, Option<u16>)) -> (u16, u16)
    recommends
        placed(v),
{
    (v.0->0, v.1->0)
}

/// One grid cell: a food pellet, or one segment of the snake's body.
/// A coordinate may be absent while the cell has not been placed yet.
#[derive(Clone, Copy, Debug, PartialEq, Eq, Structural)]
pub struct Food {
    x: Option<u16>,
    y: Option<u16>,
}

impl View for Food {
    type V = (Option<u16>, Option<u16>);

    closed spec fn view(&self) -> (Option<u16>, Option<u16>) {
        (self.x, self.y)
    }
}

impl Food {
    pub fn new(x: u16, y: u16) -> (r: Self)
        ensures
            r@ == (Some(x), Some(y)),
    {
        Food { x: Some(x), y: Some(y) }
    }

    /// A cell that exists but has no coordinate yet.
    pub fn blank() -> (r: Self)
        ensures
            r@ == (None::<u16>, None::<u16>),
    {
        Food { x: None, y: None }
    }

    pub fn get_x(&self) -> (r: Option<u16>)
        ensures
            r == self@.0,
    {
        self.x
    }

    pub fn get_y(&self) -> (r: Option<u16>)
        ensures
            r == self@.1,
    {
        self.y
    }

    pub fn set_x(&mut self, x: u16)
        ensures
            final(self)@ == (Some(x), old(self)@.1),
    {
        self.x = Some(x);
    }

    pub fn set_y(&mut self, y: u16)
        ensures
            final(self)@ == (old(self)@.0, Some(y)),
    {
        self.y = Some(y);
    }

    /// True iff the cell is placed exactly at `(x1, y1)`.
    pub fn equal(&self, x1: u16, y1: u16) -> (r: bool)
        ensures
            r == (self@.0 == Some(x1) && self@.1 == Some(y1)),
    {
        match (self.x, self.y) {
            (Some(x2), Some(y2)) => x1 == x2 && y1 == y2,
            _ => false,
        }
    }
}

} // verus!
