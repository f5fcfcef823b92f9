//! The snake and the food it hunts.

use vstd::prelude::*;
use std::collections::VecDeque;
use crate::direction::Direction;
use crate::grid::{same_position, GridElem};

verus! {

/// The piece of food on the field.
#[derive(Clone, Copy, Debug, PartialEq, Eq, Structural)]
pub struct Food {
    /// The cell the food lies on.
    pub elem: GridElem,
}

/// The snake: its head, the cells its body covers, and what happened on its
/// last move.
#[derive(Debug, PartialEq, Eq)]
pub struct Snake {
    /// The cell the head is on.
    pub head: GridElem,
    /// The cells behind the head, from the neck at the front to the tail at
    /// the back.
    pub body: VecDeque<GridElem>,
    /// Whether the last move ended on the food.
    pub ate: bool,
    /// Whether the last move ran the head into the snake itself.
    pub self_ate: bool,
    /// The direction the next move goes in.
    pub direction: Direction,
}

/// A snake as a mathematical value, with its body as a sequence.
pub struct SnakeView {
    /// The cell the head is on.
    pub head: GridElem,
    /// The cells behind the head, neck first and tail last.
    pub body: Seq<GridElem>,
    /// Whether the last move ended on the food.
    pub ate: bool,
    /// Whether the last move ran the head into the snake itself.
    pub self_ate: bool,
    /// The direction the next move goes in.
    pub direction: Direction,
}

impl SnakeView {
    /// The snake as it is born at `pos`: one body segment directly to the
    /// left of the head, heading right, having eaten nothing and hit nothing.
    pub open spec fn newborn(pos: GridElem) -> SnakeView {
        SnakeView {
            head: pos,
            body: seq![GridElem { x: (pos.x - 1) as i32, y: pos.y }],
            ate: false,
            self_ate: false,
            direction: Direction::Right,
        }
    }

    /// The number of cells the snake covers: its head and its body.
    pub open spec fn len(self) -> nat {
        1 + self.body.len()
    }

    /// Every cell the snake covers, head first.
    pub open spec fn cells(self) -> Seq<GridElem> {
        seq![self.head] + self.body
    }

    /// Whether the whole snake lies on the playing field.
    pub open spec fn in_grid(self) -> bool {
        forall|i: int| 0 <= i < self.cells().len() ==> (#[trigger] self.cells()[i]).in_grid()
    }

    /// The cell the head moves to next.
    pub open spec fn next_head(self) -> GridElem {
        self.head.spec_move_dir(self.direction)
    }

    /// The snake after one move, with `food` on the field.
    ///
    /// The head advances one cell. The cell it leaves joins the front of the
    /// body, and the tail leaves the body unless the head landed on the food.
    /// The snake has hit itself if the head landed on a cell that it covered
    /// before the move, the one the head just left included.
    pub open spec fn update(self, food: Food) -> SnakeView {
        let ate = self.next_head() == food.elem;
        SnakeView {
            head: self.next_head(),
            body: if ate {
                self.cells()
            } else {
                self.cells().drop_last()
            },
            ate,
            self_ate: self.cells().contains(self.next_head()),
            direction: self.direction,
        }
    }

    /// Whether the snake may turn to `direction`: any way but straight back.
    pub open spec fn may_turn(self, direction: Direction) -> bool {
        direction.spec_inverse() != self.direction
    }

    /// The snake after a request to turn to `direction`, which is granted
    /// unless it would reverse the snake.
    pub open spec fn steer(self, direction: Direction) -> SnakeView {
        if self.may_turn(direction) {
            SnakeView { direction, ..self }
        } else {
            self
        }
    }
}

impl SnakeView {
    /// A move lengthens the snake by one cell if it ate, and leaves its length
    /// as it was if it did not.
    pub proof fn grows_only_by_eating(self, food: Food)
        ensures
            self.update(food).ate ==> self.update(food).len() == self.len() + 1,
            !self.update(food).ate ==> self.update(food).len() == self.len(),
    {
    }

    /// A snake whose head moves onto a cell of its body has hit itself.
    pub proof fn running_into_the_body_is_noticed(self, food: Food)
        requires
            self.body.contains(self.next_head()),
        ensures
            self.update(food).self_ate,
    {
        let j: int = choose|j: int| 0 <= j < self.body.len() && self.body[j] == self.next_head();
        assert(self.cells()[j + 1] == self.next_head());
    }

    /// The head never stays where it is, so a snake hits itself exactly when
    /// its head moves onto a cell of its body; one without a body never does.
    pub proof fn only_the_body_can_be_hit(self, food: Food)
        ensures
            self.next_head() != self.head,
            self.update(food).self_ate == self.body.contains(self.next_head()),
            self.body.len() == 0 ==> !self.update(food).self_ate,
    {
        if self.body.contains(self.next_head()) {
            self.running_into_the_body_is_noticed(food);
        }
        if self.cells().contains(self.next_head()) {
            let j: int = choose|j: int|
                0 <= j < self.cells().len() && self.cells()[j] == self.next_head();
            assert(j > 0);
            assert(self.body[j - 1] == self.next_head());
        }
    }

    /// A snake that lies on the playing field still does after a move.
    pub proof fn stays_in_grid(self, food: Food)
        requires
            self.in_grid(),
        ensures
            self.update(food).in_grid(),
    {
        self.head.step_lands_in_range(self.direction);
        assert(self.cells()[0].in_grid());
        let next = self.update(food);
        assert forall|k: int| 0 <= k < next.cells().len() implies (
        #[trigger] next.cells()[k]).in_grid() by {
            if k > 0 {
                assert(next.cells()[k] == self.cells()[k - 1]);
            }
        }
    }
}

impl View for Snake {
    type V = SnakeView;

    open spec fn view(&self) -> SnakeView {
        SnakeView {
            head: self.head,
            body: self.body@,
            ate: self.ate,
            self_ate: self.self_ate,
            direction: self.direction,
        }
    }
}

impl Clone for Snake {
    /// Returns a snake that covers the same cells and carries the same flags.
    fn clone(&self) -> (r: Snake)
        ensures
            r@ == self@,
    {
        let body = self.body.clone();
        assert(body@ =~= self.body@);
        Snake {
            head: self.head,
            body,
            ate: self.ate,
            self_ate: self.self_ate,
            direction: self.direction,
        }
    }
}

impl Snake {
    /// Creates a snake with its head on `pos` and one body segment on the
    /// cell to the left of it, heading right.
    pub fn new(pos: GridElem) -> (r: Snake)
        requires
            pos.x > i32::MIN,
        ensures
            r@ == SnakeView::newborn(pos),
    {
        let body_pos = GridElem { x: pos.x - 1, y: pos.y };
        let mut body = VecDeque::new();
        body.push_back(body_pos);
        let snake = Snake {
            head: pos,
            body: body,
            ate: false,
            self_ate: false,
            direction: Direction::Right,
        };
        assert(snake@.body =~= SnakeView::newborn(pos).body);
        snake
    }

    /// Returns the cell the head moves to next.
    pub fn next_head(&self) -> (r: GridElem)
        ensures
            r == self@.next_head(),
    {
        self.head.move_dir(self.direction)
    }

    /// Moves the snake one cell in its direction, with `food` on the field.
    ///
    /// Afterwards `ate` tells whether the head landed on the food, in which
    /// case the snake has grown by one cell, and `self_ate` tells whether the
    /// head landed on the snake itself.
    pub fn update(&mut self, food: &Food)
        ensures
            final(self)@ == old(self)@.update(*food),
            final(self)@.len() == old(self)@.len() + if final(self).ate { 1nat } else { 0nat },
            final(self).self_ate == old(self)@.cells().contains(old(self)@.next_head()),
            old(self)@.in_grid() ==> final(self)@.in_grid(),
    {
        let new_head = self.next_head();
        self.ate = same_position(&new_head, &food.elem);
        self.body.push_front(self.head);
        assert(self.body@ =~= old(self)@.cells());

        let mut self_ate = false;
        let mut i: usize = 0;
        while i < self.body.len()
            invariant
                i <= self.body@.len(),
                self_ate == (exists|j: int| 0 <= j < i && self.body@[j] == new_head),
            decreases self.body@.len() - i,
        {
            if same_position(&new_head, &self.body[i]) {
                self_ate = true;
            }
            i += 1;
        }
        self.self_ate = self_ate;

        if !self.ate {
            self.body.pop_back();
        }
        self.head = new_head;
        assert(self@.body =~= old(self)@.update(*food).body);
        proof {
            if old(self)@.in_grid() {
                old(self)@.stays_in_grid(*food);
            }
        }
    }
}

} // verus!
