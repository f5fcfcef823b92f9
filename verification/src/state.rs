//! The game as a whole: snake, food, generator and clock, advanced tick by
//! tick.
//!
//! Time is a count of nanoseconds on a clock chosen by the driver, which
//! must not run backwards for the game to advance.

use vstd::prelude::*;
use oorandom::Rand32;
use crate::config::{GRID_SIZE, TIME_PER_UPDATE};
use crate::direction::{Direction, KeyCode};
use crate::grid::{same_position, GridElem};
use crate::rng::{is_valid, seeded, valid};
use crate::snake::{Food, Snake, SnakeView};

verus! {

/// What a call of [`State::on_tick`] did.
#[derive(Clone, Copy, Debug, PartialEq, Eq, Structural)]
pub enum TickOutcome {
    /// It was too early for the next tick: nothing changed.
    NoOp,
    /// The snake moved and the game goes on.
    Advanced,
    /// The snake moved and hit itself: the game is over.
    Terminated,
}

/// The whole state of a game.
#[derive(Debug, PartialEq, Eq)]
pub struct State {
    /// The snake.
    pub snake: Snake,
    /// The food the snake is after.
    pub food: Food,
    /// The generator that decides where food appears.
    pub rng: Rand32,
    /// When the snake last moved, in nanoseconds.
    pub last_update_time: u64,
}

/// A game as a mathematical value. The generator is not part of it.
pub struct StateView {
    /// The snake.
    pub snake: SnakeView,
    /// The food the snake is after.
    pub food: Food,
    /// When the snake last moved, in nanoseconds.
    pub last_update_time: u64,
}

impl StateView {
    /// The game as it starts at time `now`: a newborn snake with its head on
    /// cell (15, 10) and the food on cell (5, 5).
    pub open spec fn initial(now: u64) -> StateView {
        StateView {
            snake: SnakeView::newborn(GridElem { x: 15, y: 10 }),
            food: Food { elem: GridElem { x: 5, y: 5 } },
            last_update_time: now,
        }
    }

    /// Whether snake and food lie on the playing field.
    pub open spec fn in_grid(self) -> bool {
        self.snake.in_grid() && self.food.elem.in_grid()
    }

    /// Whether a tick is due at time `now`: at least `TIME_PER_UPDATE` has
    /// passed since the last one.
    pub open spec fn tick_due(self, now: u64) -> bool {
        now - self.last_update_time >= TIME_PER_UPDATE
    }

    /// Whether the snake's next move ends on the food.
    pub open spec fn will_eat(self) -> bool {
        self.snake.next_head() == self.food.elem
    }

    /// The game after one tick at time `now`, and what the tick did.
    ///
    /// The snake moves. If it ate, the food reappears on `spare`, else it
    /// stays where it is. The game is over if the snake hit itself.
    pub open spec fn step(self, now: u64, spare: GridElem) -> (StateView, TickOutcome) {
        let snake = self.snake.update(self.food);
        (
            StateView {
                snake,
                food: if snake.ate {
                    Food { elem: spare }
                } else {
                    self.food
                },
                last_update_time: now,
            },
            if snake.self_ate {
                TickOutcome::Terminated
            } else {
                TickOutcome::Advanced
            },
        )
    }

    /// The game after the driver reported time `now`, and what that did: a
    /// tick if one is due, else nothing.
    pub open spec fn on_tick(self, now: u64, spare: GridElem) -> (StateView, TickOutcome) {
        if self.tick_due(now) {
            self.step(now, spare)
        } else {
            (self, TickOutcome::NoOp)
        }
    }

    /// The game after a key was pressed: an arrow key turns the snake unless
    /// that would reverse it, and no other key does anything.
    pub open spec fn on_key(self, keycode: KeyCode) -> StateView {
        match Direction::spec_from_keycode(keycode) {
            Some(direction) => StateView { snake: self.snake.steer(direction), ..self },
            None => self,
        }
    }
}

impl StateView {
    /// Of two reports of the time less than `TIME_PER_UPDATE` apart, the
    /// second changes nothing, provided that the first performed a tick, or
    /// that the second comes too early after the last tick as well.
    pub proof fn early_second_call_does_nothing(
        self,
        first: u64,
        spare: GridElem,
        second: u64,
        other_spare: GridElem,
    )
        requires
            second - first < TIME_PER_UPDATE,
            self.tick_due(first) || !self.tick_due(second),
        ensures
            self.on_tick(first, spare).0.on_tick(second, other_spare) == (
                self.on_tick(first, spare).0,
                TickOutcome::NoOp,
            ),
    {
    }

    /// A tick ends the game exactly when the snake hits itself, and moves the
    /// food exactly when the snake eats it.
    pub proof fn tick_outcome(self, now: u64, spare: GridElem)
        ensures
            self.step(now, spare).1 != TickOutcome::NoOp,
            self.step(now, spare).1 == TickOutcome::Terminated <==> self.step(
                now,
                spare,
            ).0.snake.self_ate,
            self.step(now, spare).0.snake.ate <==> self.will_eat(),
            self.will_eat() ==> self.step(now, spare).0.food.elem == spare,
            !self.will_eat() ==> self.step(now, spare).0.food == self.food,
    {
    }

    /// A game on the playing field stays on it, tick after tick, as long as
    /// food reappears on the field.
    pub proof fn stays_in_grid(self, now: u64, spare: GridElem)
        requires
            self.in_grid(),
            spare.in_grid(),
        ensures
            self.on_tick(now, spare).0.in_grid(),
    {
        self.snake.stays_in_grid(self.food);
    }

    /// A key moves neither snake nor food.
    pub proof fn keys_move_nothing(self, keycode: KeyCode)
        ensures
            self.on_key(keycode).snake.cells() == self.snake.cells(),
            self.on_key(keycode).food == self.food,
            self.in_grid() ==> self.on_key(keycode).in_grid(),
    {
    }

    /// No key can make the snake reverse: after any key the snake heads
    /// where the key points or where it headed before, never straight back.
    pub proof fn no_key_reverses_the_snake(self, keycode: KeyCode)
        ensures
            self.on_key(keycode).snake.direction != self.snake.direction.spec_inverse(),
            Direction::spec_from_keycode(keycode) == Some(self.on_key(keycode).snake.direction)
                || self.on_key(keycode).snake.direction == self.snake.direction,
    {
    }
}

impl View for State {
    type V = StateView;

    open spec fn view(&self) -> StateView {
        StateView {
            snake: self.snake@,
            food: self.food,
            last_update_time: self.last_update_time,
        }
    }
}

impl Clone for State {
    /// Returns a game in the same state, with a generator in the same state.
    fn clone(&self) -> (r: State)
        ensures
            r@ == self@,
            r.rng == self.rng,
    {
        State {
            snake: self.snake.clone(),
            food: self.food,
            rng: self.rng,
            last_update_time: self.last_update_time,
        }
    }
}

impl State {
    /// Whether a report of time `now` turns this game into `after`, with
    /// `outcome` as what it did.
    ///
    /// If no tick is due, nothing changes. Else the snake moves as
    /// [`StateView::step`] says. If it eats, the food reappears on the cell
    /// that the game's generator yields, a cell of the field, and the
    /// generator is two draws on; if not, the generator is left alone.
    pub open spec fn ticks_to(&self, now: u64, after: State, outcome: TickOutcome) -> bool {
        &&& (after@, outcome) == self@.on_tick(now, after.food.elem)
        &&& outcome == TickOutcome::NoOp ==> after == *self
        &&& self@.tick_due(now) && self@.will_eat() ==> {
            &&& after.food.elem.is_drawn_from(self.rng, GRID_SIZE.0, GRID_SIZE.1)
            &&& after.food.elem.in_grid()
            &&& after.rng == self.generator_after_draw()
        }
        &&& !(self@.tick_due(now) && self@.will_eat()) ==> after.rng == self.rng
        &&& valid(after.rng)
        &&& self@.in_grid() ==> after@.in_grid()
    }

    /// The game's generator after it has yielded a cell for the food.
    pub open spec fn generator_after_draw(&self) -> Rand32 {
        GridElem::after_random(self.rng, GRID_SIZE.0, GRID_SIZE.1)
    }

    /// Starts a game at time `now`, with the food generator seeded by `seed`.
    pub fn new(seed: u64, now: u64) -> (r: State)
        ensures
            r@ == StateView::initial(now),
            r.rng == seeded(seed),
            valid(r.rng),
            r@.in_grid(),
    {
        let state = State {
            snake: Snake::new(GridElem { x: 15, y: 10 }),
            food: Food { elem: GridElem { x: 5, y: 5 } },
            rng: Rand32::new(seed),
            last_update_time: now,
        };
        assert(state@.snake.cells() =~= seq![
            GridElem { x: 15, y: 10 },
            GridElem { x: 14, y: 10 },
        ]);
        state
    }

    /// Tells whether a tick is due at time `now`.
    pub fn tick_due(&self, now: u64) -> (r: bool)
        ensures
            r == self@.tick_due(now),
    {
        now >= self.last_update_time && now - self.last_update_time >= TIME_PER_UPDATE
    }

    /// Performs one tick at time `now`, whether one is due or not, with
    /// `spare` as the cell for the food to reappear on if the snake eats it.
    pub fn step(&mut self, now: u64, spare: GridElem) -> (outcome: TickOutcome)
        ensures
            (final(self)@, outcome) == old(self)@.step(now, spare),
            final(self).rng == old(self).rng,
            old(self)@.in_grid() && spare.in_grid() ==> final(self)@.in_grid(),
    {
        self.snake.update(&self.food);
        if self.snake.ate {
            self.food = Food { elem: spare };
        }
        self.last_update_time = now;
        if self.snake.self_ate {
            TickOutcome::Terminated
        } else {
            TickOutcome::Advanced
        }
    }

    /// Reports time `now` to the game, which performs a tick if one is due.
    ///
    /// When the snake eats, the food's new cell is drawn from the game's own
    /// generator: any cell of the field, the snake's own cells included.
    /// When it does not, the generator is left alone.
    ///
    /// `Terminated` tells the driver to end the game. The state keeps no
    /// record of that beyond the snake's `self_ate`: a further tick would move
    /// the snake on.
    ///
    /// The game's generator must be valid, as that of a new game is; it
    /// stays so.
    pub fn on_tick(&mut self, now: u64) -> (outcome: TickOutcome)
        requires
            valid(old(self).rng),
        ensures
            old(self).ticks_to(now, *final(self), outcome),
    {
        if !self.tick_due(now) {
            return TickOutcome::NoOp;
        }
        let next_head = self.snake.next_head();
        let spare = if same_position(&next_head, &self.food.elem) {
            GridElem::random(&mut self.rng, GRID_SIZE.0, GRID_SIZE.1)
        } else {
            self.food.elem
        };
        self.step(now, spare)
    }

    /// Reports time `now` to the game as [`State::on_tick`] does if the
    /// game's generator is valid, and else returns `None` and changes nothing.
    pub fn try_on_tick(&mut self, now: u64) -> (r: Option<TickOutcome>)
        ensures
            r.is_some() == valid(old(self).rng),
            match r {
                Some(outcome) => old(self).ticks_to(now, *final(self), outcome),
                None => *final(self) == *old(self),
            },
    {
        if is_valid(&self.rng) {
            Some(self.on_tick(now))
        } else {
            None
        }
    }

    /// Reports a pressed key to the game: an arrow key turns the snake,
    /// unless it points straight back along the snake's direction.
    pub fn on_key(&mut self, keycode: KeyCode)
        ensures
            final(self)@ == old(self)@.on_key(keycode),
            final(self).rng == old(self).rng,
            old(self)@.in_grid() ==> final(self)@.in_grid(),
    {
        if let Some(direction) = Direction::from_keycode(keycode) {
            if direction.inverse() != self.snake.direction {
                self.snake.direction = direction;
            }
        }
        proof {
            old(self)@.keys_move_nothing(keycode);
        }
    }
}

} // verus!
