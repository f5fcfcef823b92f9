//! Cells of the playing field and how to step between them.

use vstd::prelude::*;
use vstd::arithmetic::div_mod::{
    lemma_fundamental_div_mod, lemma_fundamental_div_mod_converse, lemma_mod_bound,
};
use crate::config::{GRID_CELL_SIZE, GRID_SIZE, SCREEN_SIZE};
use crate::direction::Direction;
use crate::rng::{after_draw, drawn, is_valid, state_of, valid};
use oorandom::Rand32;

verus! {

/// A cell of the playing field, by column `x` and row `y`.
///
/// Row 0 is the top row, so moving up decreases `y`.
#[derive(Clone, Copy, Debug, PartialEq, Eq, Structural)]
pub struct GridElem {
    pub x: i32,
    pub y: i32,
}

/// The rectangle a cell covers on screen, in pixels: its top-left corner and
/// its size.
#[derive(Clone, Copy, Debug, PartialEq, Eq, Structural)]
pub struct PixelRect {
    pub x: i32,
    pub y: i32,
    pub w: i32,
    pub h: i32,
}

/// The least non-negative remainder of `v` modulo `size`, as a number.
pub open spec fn wrapped(v: int, size: int) -> int {
    v % size
}

/// The remainder of a negative number, from that of its positive twin: both
/// are multiples of `d` together, and otherwise their remainders add up to `d`.
proof fn lemma_mod_of_negative(a: int, d: int)
    requires
        a > 0,
        d > 0,
    ensures
        (-a) % d == if a % d == 0 {
            0
        } else {
            d - a % d
        },
{
    let q: int = a / d;
    let t: int = a % d;
    lemma_fundamental_div_mod(a, d);
    lemma_mod_bound(a, d);
    if t == 0 {
        assert(-a == (-q) * d + 0) by (nonlinear_arith)
            requires
                a == d * q + t,
                t == 0,
        ;
        lemma_fundamental_div_mod_converse(-a, d, -q, 0);
    } else {
        assert(-a == (-q - 1) * d + (d - t)) by (nonlinear_arith)
            requires
                a == d * q + t,
        ;
        lemma_fundamental_div_mod_converse(-a, d, -q - 1, d - t);
    }
}

/// Reduces `v` into `0..size`, wrapping around in both directions.
fn wrap(v: i64, size: i32) -> (r: i32)
    requires
        size > 0,
    ensures
        r == wrapped(v as int, size as int),
        0 <= r < size,
{
    let m: i64 = v % (size as i64);
    proof {
        if v < 0 {
            lemma_mod_of_negative(-(v as int), size as int);
        } else {
            lemma_mod_bound(v as int, size as int);
        }
    }
    if m < 0 {
        (m + size as i64) as i32
    } else {
        m as i32
    }
}

impl GridElem {
    /// Whether this cell lies on the playing field.
    pub open spec fn in_grid(self) -> bool {
        0 <= self.x < GRID_SIZE.0 && 0 <= self.y < GRID_SIZE.1
    }

    /// The cell one step away in `direction`, on a field whose opposite edges
    /// are glued together.
    ///
    /// Only the axis that moves is reduced modulo the field's size.
    pub open spec fn spec_move_dir(self, direction: Direction) -> GridElem {
        match direction {
            Direction::Up => GridElem {
                x: self.x,
                y: wrapped(self.y - 1, GRID_SIZE.1 as int) as i32,
            },
            Direction::Down => GridElem {
                x: self.x,
                y: wrapped(self.y + 1, GRID_SIZE.1 as int) as i32,
            },
            Direction::Left => GridElem {
                x: wrapped(self.x - 1, GRID_SIZE.0 as int) as i32,
                y: self.y,
            },
            Direction::Right => GridElem {
                x: wrapped(self.x + 1, GRID_SIZE.0 as int) as i32,
                y: self.y,
            },
        }
    }

    /// Whether this is the cell that generator `rng` yields within the
    /// bounds: its next draw below `max_x` as the column, and the draw after
    /// that, below `max_y`, as the row.
    pub open spec fn is_drawn_from(self, rng: Rand32, max_x: i32, max_y: i32) -> bool {
        &&& self.x == drawn(rng, 0, max_x as u32)
        &&& self.y == drawn(after_draw(rng, 0, max_x as u32), 0, max_y as u32)
    }

    /// The generator `rng` after it has yielded a cell within the bounds:
    /// two draws on.
    pub open spec fn after_random(rng: Rand32, max_x: i32, max_y: i32) -> Rand32 {
        after_draw(after_draw(rng, 0, max_x as u32), 0, max_y as u32)
    }

    /// Whether the pixel coordinates of this cell fit into an `i32`.
    pub open spec fn fits_screen(self) -> bool {
        &&& i32::MIN <= self.x * GRID_CELL_SIZE.0 <= i32::MAX
        &&& i32::MIN <= self.y * GRID_CELL_SIZE.1 <= i32::MAX
    }

    /// The rectangle this cell covers on screen.
    ///
    /// Cells are laid out edge to edge from the top-left corner of the
    /// window, each as wide and as high as `GRID_CELL_SIZE` says.
    pub open spec fn spec_to_rect(self) -> PixelRect {
        PixelRect {
            x: (self.x * GRID_CELL_SIZE.0) as i32,
            y: (self.y * GRID_CELL_SIZE.1) as i32,
            w: GRID_CELL_SIZE.0,
            h: GRID_CELL_SIZE.1,
        }
    }

    /// Returns the rectangle this cell covers on screen.
    pub fn to_rect(&self) -> (r: PixelRect)
        requires
            self.fits_screen(),
        ensures
            r == self.spec_to_rect(),
    {
        PixelRect {
            x: self.x * GRID_CELL_SIZE.0,
            y: self.y * GRID_CELL_SIZE.1,
            w: GRID_CELL_SIZE.0,
            h: GRID_CELL_SIZE.1,
        }
    }

    /// Draws a cell with `0 <= x < max_x` and `0 <= y < max_y` from `rng`:
    /// the column is the generator's next draw, the row the one after it.
    ///
    /// The generator must be valid; it still is afterwards, with the
    /// increment it had.
    pub fn random(rng: &mut Rand32, max_x: i32, max_y: i32) -> (r: GridElem)
        requires
            valid(*old(rng)),
            max_x > 0,
            max_y > 0,
        ensures
            r.is_drawn_from(*old(rng), max_x, max_y),
            *final(rng) == Self::after_random(*old(rng), max_x, max_y),
            state_of(*final(rng)).1 == state_of(*old(rng)).1,
            valid(*final(rng)),
            0 <= r.x < max_x,
            0 <= r.y < max_y,
    {
        let x: u32 = rng.rand_range(0..(max_x as u32));
        let y: u32 = rng.rand_range(0..(max_y as u32));
        GridElem { x: x as i32, y: y as i32 }
    }

    /// Draws a cell as [`GridElem::random`] does if `rng` is a valid
    /// generator, and else returns `None` and leaves `rng` alone.
    pub fn try_random(rng: &mut Rand32, max_x: i32, max_y: i32) -> (r: Option<GridElem>)
        requires
            max_x > 0,
            max_y > 0,
        ensures
            r.is_some() == valid(*old(rng)),
            match r {
                Some(cell) => {
                    &&& cell.is_drawn_from(*old(rng), max_x, max_y)
                    &&& *final(rng) == Self::after_random(*old(rng), max_x, max_y)
                    &&& valid(*final(rng))
                    &&& 0 <= cell.x < max_x
                    &&& 0 <= cell.y < max_y
                },
                None => *final(rng) == *old(rng),
            },
    {
        if is_valid(rng) {
            Some(GridElem::random(rng, max_x, max_y))
        } else {
            None
        }
    }

    /// Returns the neighbouring cell in `direction`, wrapping around the
    /// edges of the field.
    pub fn move_dir(&self, direction: Direction) -> (r: GridElem)
        ensures
            r == self.spec_move_dir(direction),
    {
        match direction {
            Direction::Up => GridElem { x: self.x, y: wrap(self.y as i64 - 1, GRID_SIZE.1) },
            Direction::Down => GridElem { x: self.x, y: wrap(self.y as i64 + 1, GRID_SIZE.1) },
            Direction::Left => GridElem { x: wrap(self.x as i64 - 1, GRID_SIZE.0), y: self.y },
            Direction::Right => GridElem { x: wrap(self.x as i64 + 1, GRID_SIZE.0), y: self.y },
        }
    }
}

impl GridElem {
    /// A step never leaves the playing field along the axis it moves on, and
    /// never changes the other axis.
    pub proof fn step_lands_in_range(self, direction: Direction)
        ensures
            match direction {
                Direction::Up | Direction::Down => {
                    &&& 0 <= self.spec_move_dir(direction).y < GRID_SIZE.1
                    &&& self.spec_move_dir(direction).x == self.x
                },
                Direction::Left | Direction::Right => {
                    &&& 0 <= self.spec_move_dir(direction).x < GRID_SIZE.0
                    &&& self.spec_move_dir(direction).y == self.y
                },
            },
            self.in_grid() ==> self.spec_move_dir(direction).in_grid(),
    {
    }

    /// On the playing field, a step followed by a step the opposite way leads
    /// back to where one started, also across an edge.
    pub proof fn step_and_back(self, direction: Direction)
        requires
            self.in_grid(),
        ensures
            self.spec_move_dir(direction).spec_move_dir(direction.spec_inverse()) == self,
    {
    }

    /// On the playing field, going up, down, left and right in turn leads
    /// back to where one started.
    pub proof fn round_trip(self)
        requires
            self.in_grid(),
        ensures
            self.spec_move_dir(Direction::Up).spec_move_dir(Direction::Down).spec_move_dir(
                Direction::Left,
            ).spec_move_dir(Direction::Right) == self,
    {
        self.step_and_back(Direction::Up);
        self.step_and_back(Direction::Left);
    }

    /// The rectangle of a cell on the playing field lies within the window, and
    /// its pixel coordinates fit.
    pub proof fn cells_lie_on_screen(self)
        requires
            self.in_grid(),
        ensures
            self.fits_screen(),
            0 <= self.spec_to_rect().x,
            self.spec_to_rect().x + self.spec_to_rect().w <= SCREEN_SIZE.0,
            0 <= self.spec_to_rect().y,
            self.spec_to_rect().y + self.spec_to_rect().h <= SCREEN_SIZE.1,
    {
    }

    /// Stepping off an edge of the playing field arrives at the opposite edge.
    pub proof fn edges_are_glued(self)
        ensures
            self.y == 0 ==> self.spec_move_dir(Direction::Up).y == GRID_SIZE.1 - 1,
            self.y == GRID_SIZE.1 - 1 ==> self.spec_move_dir(Direction::Down).y == 0,
            self.x == 0 ==> self.spec_move_dir(Direction::Left).x == GRID_SIZE.0 - 1,
            self.x == GRID_SIZE.0 - 1 ==> self.spec_move_dir(Direction::Right).x == 0,
    {
    }
}

/// Whether two cells are the same cell.
pub fn same_position(elem1: &GridElem, elem2: &GridElem) -> (r: bool)
    ensures
        r == (*elem1 == *elem2),
{
    *elem1 == *elem2
}

} // verus!
