use crate::food::{cell_of, placed, Food, FOOD_HEIGHT, FOOD_WIDTH};
use vstd::prelude::*;

verus! {

/// Margin, in pixels, that the wall check keeps from each edge of the arena:
/// the distance that one movement step covers on screen.
pub const SNAKE_SPEED: u16 = 20;

/// Arena width, in pixels.
pub const GAME_WIDTH: u32 = 1000;

/// Arena height, in pixels.
pub const GAME_HEIGHT: u32 = 1000;

/// The snake's heading. `Initial` is the heading before the first move: it
/// moves nothing.
#[derive(Clone, Copy, Debug, PartialEq, Eq, Structural)]
pub enum SnakeDirection {
    Initial,
    Left,
    Right,
    Up,
    Down,
}

/// Unit displacement of one step along each axis.
pub open spec fn offset(d: SnakeDirection) -> (int, int) {
    match d {
        SnakeDirection::Left => (-1, 0),
        SnakeDirection::Right => (1, 0),
        SnakeDirection::Up => (0, -1),
        SnakeDirection::Down => (0, 1),
        SnakeDirection::Initial => (0, 0),
    }
}

/// Displacement of one step: the unit displacement, doubled when boosted.
pub open spec fn displacement(d: SnakeDirection, boosted: bool) -> (int, int) {
    let k: int = if boosted { 2 } else { 1 };
    (k * offset(d).0, k * offset(d).1)
}

/// `c + delta` in the 16-bit coordinate type, wrapping around at both ends.
pub open spec fn shifted(c: u16, delta: int) -> u16 {
    if c + delta > u16::MAX {
        (c + delta - 0x10000) as u16
    } else if c + delta < 0 {
        (c + delta + 0x10000) as u16
    } else {
        (c + delta) as u16
    }
}

/// Where a head at `head` goes in one step.
pub open spec fn next_head(head: (u16, u16), d: SnakeDirection, boosted: bool) -> (u16, u16) {
    (shifted(head.0, displacement(d, boosted).0), shifted(head.1, displacement(d, boosted).1))
}

/// The body after one step: the new head in front, and the tail dropped
/// unless the snake grows.
pub open spec fn walked(
    body: Seq<(u16, u16)>,
    d: SnakeDirection,
    boosted: bool,
    grew: bool,
) -> Seq<(u16, u16)> {
    let moved = seq![next_head(body[0], d, boosted)] + body;
    if grew {
        moved
    } else {
        moved.drop_last()
    }
}

/// True when the head, given in grid coordinates, lies within one movement
/// step (`SNAKE_SPEED` pixels) of an edge of the arena, or beyond it.
pub open spec fn hits_wall(head: (u16, u16)) -> bool {
    let px = head.0 * FOOD_WIDTH;
    let py = head.1 * FOOD_HEIGHT;
    ||| px - SNAKE_SPEED < 0
    ||| py - SNAKE_SPEED < 0
    ||| px + SNAKE_SPEED > GAME_WIDTH
    ||| py + SNAKE_SPEED > GAME_HEIGHT
}

/// True when some segment other than the head lies on the head's cell.
pub open spec fn bitten(body: Seq<(u16, u16)>) -> bool {
    exists|i: int| 1 <= i < body.len() && #[trigger] body[i] == body[0]
}

/// True when both headings lie on the same axis.
pub open spec fn same_axis(a: SnakeDirection, b: SnakeDirection) -> bool {
    let horizontal = |d: SnakeDirection| d == SnakeDirection::Left || d == SnakeDirection::Right;
    let vertical = |d: SnakeDirection| d == SnakeDirection::Up || d == SnakeDirection::Down;
    (horizontal(a) && horizontal(b)) || (vertical(a) && vertical(b))
}

/// The heading after a request to turn from `current` to `requested`: turns
/// along the current axis are ignored.
pub open spec fn turned(current: SnakeDirection, requested: SnakeDirection) -> SnakeDirection {
    if same_axis(current, requested) {
        current
    } else {
        requested
    }
}

/// A step moves the head by exactly one cell along the heading's axis (two
/// when boosted) and not at all along the other axis; `Initial` does not move
/// it. Stated for heads whose moved coordinates stay within the coordinate
/// type's range.
pub proof fn lemma_step_displacement(
    body: Seq<(u16, u16)>,
    d: SnakeDirection,
    boosted: bool,
    grew: bool,
)
    requires
        body.len() > 0,
        0 <= body[0].0 + displacement(d, boosted).0 <= u16::MAX,
        0 <= body[0].1 + displacement(d, boosted).1 <= u16::MAX,
    ensures
        ({
            let h = walked(body, d, boosted, grew)[0];
            let k: int = if boosted { 2 } else { 1 };
            match d {
                SnakeDirection::Left => h.0 == body[0].0 - k && h.1 == body[0].1,
                SnakeDirection::Right => h.0 == body[0].0 + k && h.1 == body[0].1,
                SnakeDirection::Up => h.0 == body[0].0 && h.1 == body[0].1 - k,
                SnakeDirection::Down => h.0 == body[0].0 && h.1 == body[0].1 + k,
                SnakeDirection::Initial => h == body[0],
            }
        }),
{
}

/// A step keeps the body's length, or adds exactly one segment when the
/// snake grows; the segments behind the new head are the old body, head
/// first.
pub proof fn lemma_step_length(body: Seq<(u16, u16)>, d: SnakeDirection, boosted: bool, grew: bool)
    requires
        body.len() > 0,
    ensures
        walked(body, d, boosted, grew).len() == body.len() + if grew { 1int } else { 0int },
        forall|i: int|
            1 <= i < walked(body, d, boosted, grew).len() ==> #[trigger] walked(
                body,
                d,
                boosted,
                grew,
            )[i] == body[i - 1],
{
}

/// True when `requested` is the exact reverse of `current`.
pub open spec fn reverses(current: SnakeDirection, requested: SnakeDirection) -> bool {
    match (current, requested) {
        (SnakeDirection::Left, SnakeDirection::Right) => true,
        (SnakeDirection::Right, SnakeDirection::Left) => true,
        (SnakeDirection::Up, SnakeDirection::Down) => true,
        (SnakeDirection::Down, SnakeDirection::Up) => true,
        _ => false,
    }
}

/// A request to turn is ignored exactly when it reverses the current
/// heading; any other request, from `Initial` too, takes effect at once.
pub proof fn lemma_turn(current: SnakeDirection, requested: SnakeDirection)
    ensures
        turned(current, requested) == if reverses(current, requested) {
            current
        } else {
            requested
        },
        current == SnakeDirection::Initial ==> turned(current, requested) == requested,
{
}

/// The head has hit a wall exactly when one more movement step of
/// `SNAKE_SPEED` pixels, in some direction, would take its pixel position out
/// of `[0, GAME_WIDTH) x [0, GAME_HEIGHT)`.
pub proof fn lemma_wall_margin(head: (u16, u16))
    ensures
        !hits_wall(head) <==> ({
            let px = head.0 * FOOD_WIDTH;
            let py = head.1 * FOOD_HEIGHT;
            &&& 0 <= px - SNAKE_SPEED < GAME_WIDTH
            &&& 0 <= px + SNAKE_SPEED < GAME_WIDTH
            &&& 0 <= py - SNAKE_SPEED < GAME_HEIGHT
            &&& 0 <= py + SNAKE_SPEED < GAME_HEIGHT
        }),
{
    let px = head.0 * FOOD_WIDTH;
    let py = head.1 * FOOD_HEIGHT;
    assert(px + SNAKE_SPEED != GAME_WIDTH);
    assert(py + SNAKE_SPEED != GAME_HEIGHT);
}

/// A snake of one segment has not bitten itself.
pub proof fn lemma_single_segment_unbitten(body: Seq<(u16, u16)>)
    requires
        body.len() == 1,
    ensures
        !bitten(body),
{
}

/// The abstract state of a snake: heading, body cells from head to tail,
/// and the boost flag.
pub struct SnakeView {
    pub direction: SnakeDirection,
    pub body: Seq<(u16, u16)>,
    pub accelerate: bool,
}

#[derive(Debug)]
pub struct Snake {
    direction: SnakeDirection,
    body: Vec<Food>,
    accelerate: bool,
}

impl View for Snake {
    type V = SnakeView;

    closed spec fn view(&self) -> SnakeView {
        SnakeView {
            direction: self.direction,
            body: self.body@.map_values(|f: Food| cell_of(f@)),
            accelerate: self.accelerate,
        }
    }
}

/// Column of the head at spawn.
pub const START_X: u16 = 20;

/// Row of the head at spawn.
pub const START_Y: u16 = 20;

impl Snake {
    /// The body is never empty and every segment is placed.
    pub closed spec fn wf(&self) -> bool {
        &&& self.body@.len() > 0
        &&& forall|i: int| 0 <= i < self.body@.len() ==> placed(#[trigger] self.body@[i]@)
    }

    /// A snake of one segment at the start cell, heading `Initial`, not boosted.
    pub fn new() -> (r: Self)
        ensures
            r.wf(),
            r@ == (SnakeView {
                direction: SnakeDirection::Initial,
                body: seq![(START_X, START_Y)],
                accelerate: false,
            }),
    {
        Self::with_head(START_X, START_Y)
    }

    /// A snake of one segment at `(x, y)`, heading `Initial`, not boosted.
    pub fn with_head(x: u16, y: u16) -> (r: Self)
        ensures
            r.wf(),
            r@ == (SnakeView {
                direction: SnakeDirection::Initial,
                body: seq![(x, y)],
                accelerate: false,
            }),
    {
        let r = Snake {
            direction: SnakeDirection::Initial,
            body: vec![Food::new(x, y)],
            accelerate: false,
        };
        assert(r@.body =~= seq![(x, y)]);
        r
    }

    pub fn get_head_x(&self) -> (r: u16)
        requires
            self.wf(),
        ensures
            r == self@.body[0].0,
    {
        proof {
            assert(placed(self.body@[0]@));
        }
        self.body[0].get_x().unwrap()
    }

    pub fn get_head_y(&self) -> (r: u16)
        requires
            self.wf(),
        ensures
            r == self@.body[0].1,
    {
        proof {
            assert(placed(self.body@[0]@));
        }
        self.body[0].get_y().unwrap()
    }

    pub fn direction(&self) -> (r: SnakeDirection)
        ensures
            r == self@.direction,
    {
        self.direction
    }

    pub fn is_accelerating(&self) -> (r: bool)
        ensures
            r == self@.accelerate,
    {
        self.accelerate
    }

    /// Number of segments, head included.
    pub fn len(&self) -> (r: usize)
        ensures
            r == self@.body.len(),
    {
        self.body.len()
    }

    /// The segments, head first.
    pub fn body(&self) -> (r: &Vec<Food>)
        requires
            self.wf(),
        ensures
            r@.map_values(|f: Food| cell_of(f@)) == self@.body,
            forall|i: int| 0 <= i < r@.len() ==> placed(#[trigger] r@[i]@),
    {
        &self.body
    }

    /// True iff the head lies on the food's cell.
    pub fn can_eat(&self, food: &Food) -> (r: bool)
        requires
            self.wf(),
        ensures
            r == (food@ == (Some(self@.body[0].0), Some(self@.body[0].1))),
    {
        match (food.get_x(), food.get_y()) {
            (Some(x), Some(y)) => self.get_head_x() == x && self.get_head_y() == y,
            _ => false,
        }
    }

    /// True iff the head is within one movement step of a wall, or past it.
    pub fn has_collided_with_any_wall(&self) -> (r: bool)
        requires
            self.wf(),
        ensures
            r == hits_wall(self@.body[0]),
    {
        let x: u32 = self.get_head_x() as u32 * FOOD_WIDTH as u32;
        let y: u32 = self.get_head_y() as u32 * FOOD_HEIGHT as u32;
        let speed: u32 = SNAKE_SPEED as u32;
        x < speed || y < speed || x + speed > GAME_WIDTH || y + speed > GAME_HEIGHT
    }

    /// Turns the snake, unless the request lies on the current axis, which
    /// would reverse the snake onto itself.
    pub fn set_direction(&mut self, direction: SnakeDirection)
        requires
            old(self).wf(),
        ensures
            final(self).wf(),
            final(self)@ == (SnakeView {
                direction: turned(old(self)@.direction, direction),
                ..old(self)@
            }),
    {
        let current = self.direction;
        let current_horizontal = current == SnakeDirection::Left || current
            == SnakeDirection::Right;
        let current_vertical = current == SnakeDirection::Up || current == SnakeDirection::Down;
        let horizontal = direction == SnakeDirection::Left || direction == SnakeDirection::Right;
        let vertical = direction == SnakeDirection::Up || direction == SnakeDirection::Down;
        if !((current_horizontal && horizontal) || (current_vertical && vertical)) {
            self.direction = direction;
        }
    }

    /// True iff a segment other than the head lies on the head's cell.
    pub fn ate_itself(&self) -> (r: bool)
        requires
            self.wf(),
        ensures
            r == bitten(self@.body),
    {
        let x = self.get_head_x();
        let y = self.get_head_y();
        let mut i: usize = 1;
        while i < self.body.len()
            invariant
                1 <= i <= self.body@.len(),
                self.wf(),
                (x, y) == self@.body[0],
                forall|j: int| 1 <= j < i ==> #[trigger] self@.body[j] != self@.body[0],
            decreases self.body@.len() - i,
        {
            proof {
                assert(placed(self.body@[i as int]@));
            }
            if self.body[i].equal(x, y) {
                assert(self@.body[i as int] == self@.body[0]);
                return true;
            }
            i += 1;
        }
        false
    }

    /// True iff a segment lies on `(x, y)`.
    pub fn occupies(&self, x: u16, y: u16) -> (r: bool)
        requires
            self.wf(),
        ensures
            r == self@.body.contains((x, y)),
    {
        let mut i: usize = 0;
        while i < self.body.len()
            invariant
                0 <= i <= self.body@.len(),
                self.wf(),
                forall|j: int| 0 <= j < i ==> #[trigger] self@.body[j] != (x, y),
            decreases self.body@.len() - i,
        {
            proof {
                assert(placed(self.body@[i as int]@));
            }
            if self.body[i].equal(x, y) {
                assert(self@.body[i as int] == (x, y));
                return true;
            }
            i += 1;
        }
        false
    }

    /// Switches the speed boost on or off.
    pub fn toggle_acceleration(&mut self)
        requires
            old(self).wf(),
        ensures
            final(self).wf(),
            final(self)@ == (SnakeView { accelerate: !old(self)@.accelerate, ..old(self)@ }),
    {
        self.accelerate = !self.accelerate;
    }

    /// Moves the snake one step along its heading; `eating` keeps the tail,
    /// so that the body grows by one segment.
    pub fn walk(&mut self, eating: bool)
        requires
            old(self).wf(),
        ensures
            final(self).wf(),
            final(self)@ == (SnakeView {
                body: walked(old(self)@.body, old(self)@.direction, old(self)@.accelerate, eating),
                ..old(self)@
            }),
    {
        let old_head = self.body[0];
        let offset: (i16, i16) = match self.direction {
            SnakeDirection::Left => (-1, 0),
            SnakeDirection::Right => (1, 0),
            SnakeDirection::Up => (0, -1),
            SnakeDirection::Down => (0, 1),
            SnakeDirection::Initial => (0, 0),
        };
        let scale: i16 = if self.accelerate { 2 } else { 1 };
        proof {
            assert(placed(self.body@[0]@));
        }
        let x = old_head.get_x().unwrap();
        let y = old_head.get_y().unwrap();
        let new_x = x.wrapping_add_signed(scale * offset.0);
        let new_y = y.wrapping_add_signed(scale * offset.1);
        let ghost old_body = self.body@;
        self.body.insert(0, Food::new(new_x, new_y));
        if !eating {
            self.body.pop();
        }
        proof {
            let v = self@.body;
            let w = walked(old(self)@.body, old(self)@.direction, old(self)@.accelerate, eating);
            assert forall|i: int| 0 <= i < v.len() implies v[i] == w[i] by {
                if i > 0 {
                    assert(self.body@[i] == old_body[i - 1]);
                }
            }
            assert(v =~= w);
            assert forall|i: int| 0 <= i < self.body@.len() implies placed(
                #[trigger] self.body@[i]@,
            ) by {
                if i > 0 {
                    assert(self.body@[i] == old_body[i - 1]);
                }
            }
        }
    }
}

} // verus!
