//! The per-tick state transition of the game: input handling, movement,
//! eating, and the terminal conditions. Rendering and key polling happen
//! outside the library; each tick is handed the key that was read, if any.
use vstd::prelude::*;

use crate::food::Food;
use crate::grid::Direction;
use crate::grid::step_underflows;
use crate::grid::stepped_head;
use crate::snake::Snake;
use crate::snake::initial_body;

verus! {

/// A key press the game reacts to: an arrow key mapped to a direction, or
/// the quit key. Any other key is handed in as no press at all.
#[derive(Clone, Copy, PartialEq, Eq, Structural, Debug)]
pub enum KeyPress {
    Arrow(Direction),
    Quit,
}

/// Why a game stopped: the player quit, or the snake hit a wall or itself.
#[derive(Clone, Copy, PartialEq, Eq, Structural, Debug)]
pub enum EndReason {
    Quit,
    Collision,
}

/// The state the loop is in after a tick: still running, or terminated for
/// one of the two reasons.
#[derive(Clone, Copy, PartialEq, Eq, Structural, Debug)]
pub enum GameStatus {
    Running,
    Terminated(EndReason),
}

/// The direction the snake faces after the input of one tick is applied: a
/// press of the reverse direction is ignored, any other arrow is taken, and
/// no press leaves the direction alone.
pub open spec fn turned(cur: Direction, input: Option<KeyPress>) -> Direction {
    match input {
        Some(KeyPress::Arrow(d)) => if cur == d.spec_opposite() {
            cur
        } else {
            d
        },
        _ => cur,
    }
}

/// The whole state one game owns: the snake and the food cell.
pub struct Game {
    pub snake: Snake,
    pub food: Food,
}

impl Game {
    /// A game is well formed while running: the snake has a body, its head
    /// lies inside the grid, and the food lies inside the grid.
    pub open spec fn wf(self) -> bool {
        self.snake.wf() && !self.snake.hits_wall() && self.food.wf()
    }

    /// How one tick transforms the state `pre` into `post` with outcome
    /// `status`, given the key press of the tick. The quit key stops the
    /// game untouched. Otherwise the direction turns, the snake advances
    /// (an underflowing step counts as a wall collision and leaves the body
    /// in place), a head on the food grows the body and re-rolls the food,
    /// and the grown or moved snake decides between running on and a
    /// collision. Only the re-rolled food cell is left open, up to lying in
    /// the grid: it is a random draw.
    pub open spec fn tick_rel(
        pre: Game,
        input: Option<KeyPress>,
        post: Game,
        status: GameStatus,
    ) -> bool {
        if input == Some(KeyPress::Quit) {
            post == pre && status == GameStatus::Terminated(EndReason::Quit)
        } else {
            let d = turned(pre.snake.direction, input);
            let h = pre.snake.head_spec();
            if step_underflows(h, d) {
                &&& post.snake.body@ == pre.snake.body@
                &&& post.snake.direction == d
                &&& post.food == pre.food
                &&& status == GameStatus::Terminated(EndReason::Collision)
            } else {
                let moved = seq![stepped_head(h, d)] + pre.snake.body@.drop_last();
                let ate = stepped_head(h, d) == pre.food.position;
                &&& post.snake.direction == d
                &&& post.snake.body@ == if ate {
                    moved.push(moved.last())
                } else {
                    moved
                }
                &&& if ate {
                    post.food.wf()
                } else {
                    post.food == pre.food
                }
                &&& status == if post.snake.collides() {
                    GameStatus::Terminated(EndReason::Collision)
                } else {
                    GameStatus::Running
                }
            }
        }
    }

    /// Starts a game: the snake on its fixed starting body facing right,
    /// the food at a random cell.
    pub fn new() -> (g: Game)
        ensures
            g.snake.body@ == initial_body(),
            g.snake.direction == Direction::Right,
            g.wf(),
    {
        Game { snake: Snake::new(), food: Food::new() }
    }

    /// Runs one tick: applies the input, advances the snake, feeds it when
    /// its head reaches the food, and reports whether the game runs on or
    /// stopped, and why. The body never shrinks, and it lengthens exactly
    /// when the food was eaten.
    pub fn tick(&mut self, input: Option<KeyPress>) -> (status: GameStatus)
        requires
            old(self).wf(),
        ensures
            Game::tick_rel(*old(self), input, *final(self), status),
            final(self).snake.body@.len() >= old(self).snake.body@.len(),
            status == GameStatus::Running ==> final(self).wf(),
    {
        match input {
            Some(KeyPress::Quit) => {
                return GameStatus::Terminated(EndReason::Quit);
            },
            Some(KeyPress::Arrow(d)) => {
                self.snake.turn(d);
            },
            None => {},
        }
        let moved = self.snake.move_forward();
        if !moved {
            return GameStatus::Terminated(EndReason::Collision);
        }
        let h = self.snake.head();
        if h.0 == self.food.position.0 && h.1 == self.food.position.1 {
            self.snake.grow();
            self.food.spawn();
        }
        if self.snake.collision() {
            GameStatus::Terminated(EndReason::Collision)
        } else {
            GameStatus::Running
        }
    }
}

} // verus!
