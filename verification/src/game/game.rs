//! The game: a snake in a play area, the food, and the rules that move the
//! snake, let it grow and end the game.

use crate::game::environment::Environment;
use crate::game::snake::{Block, Direction, Snake, SnakeView};
use crate::game::{BLOCK_SIZE, FOOD_ATTEMPTS, MOVING_PERIOD, RESTART_TIME, SPAWN_X, SPAWN_Y};
use vstd::prelude::*;

verus! {

pub struct AppData {
    pub environment: Environment,
    pub snake: Snake,
    pub food_exist: bool,
    pub game_over: bool,
}

/// What a game is, as a mathematical value.
pub struct GameView {
    pub environment: Environment,
    pub snake: SnakeView,
    pub food_exist: bool,
    pub game_over: bool,
}

/// What a game shows at one moment.
#[derive(Debug)]
pub struct Snapshot {
    /// The snake's body, head first.
    pub body: Vec<Block>,
    /// The food, if there is any.
    pub food: Option<Block>,
    pub game_over: bool,
}

impl GameView {
    /// The area and the snake are well formed, and the head is far enough
    /// from the ends of the coordinate range to take a step.
    pub open spec fn wf(self) -> bool {
        &&& self.environment.wf()
        &&& self.snake.wf()
        &&& self.snake.head().has_room()
    }

    /// The game that starts in an area of the given size.
    pub open spec fn fresh(width: u32, height: u32) -> GameView {
        GameView {
            environment: Environment { width, height, food_x: 0, food_y: 0 },
            snake: SnakeView::fresh(SPAWN_X, SPAWN_Y),
            food_exist: false,
            game_over: false,
        }
    }

    /// Whether `(x, y)` lies in the range that a head may move to: both
    /// coordinates above `-BLOCK_SIZE`, x below the width and y below the
    /// height.
    pub open spec fn in_bounds(self, x: int, y: int) -> bool {
        &&& x > -BLOCK_SIZE
        &&& y > -BLOCK_SIZE
        &&& x < self.environment.width
        &&& y < self.environment.height
    }

    /// Whether the next move is legal: the head would neither run into the
    /// body, the last block not counted, nor leave the bounds.
    pub open spec fn check_bounds(self, dir: Option<Direction>) -> bool {
        let next = self.snake.head_next(dir);
        &&& !self.snake.overlap_tail(next.x as int, next.y as int)
        &&& self.in_bounds(next.x as int, next.y as int)
    }

    /// Whether there is food and the head lies on it.
    pub open spec fn eats(self) -> bool {
        self.food_exist && self.snake.head().at(
            self.environment.food_x as int,
            self.environment.food_y as int,
        )
    }

    /// The game after the snake has eaten what lies under its head, if
    /// anything does: the food is gone and the pending tail is back.
    pub open spec fn eating_apple(self) -> GameView {
        if self.eats() {
            GameView { food_exist: false, snake: self.snake.restore_tail(), ..self }
        } else {
            self
        }
    }

    /// The game after one move is asked for: a legal move is made and the
    /// food under the new head eaten; an illegal one ends the game and moves
    /// nothing.
    pub open spec fn update_snake(self, dir: Option<Direction>) -> GameView {
        if self.check_bounds(dir) {
            (GameView { snake: self.snake.move_forward(dir), ..self }).eating_apple()
        } else {
            GameView { game_over: true, ..self }
        }
    }

    /// Whether the move that `update_snake` makes lets the snake grow.
    pub open spec fn grows(self, dir: Option<Direction>) -> bool {
        let next = self.snake.head_next(dir);
        &&& self.check_bounds(dir)
        &&& self.food_exist
        &&& next.at(self.environment.food_x as int, self.environment.food_y as int)
    }

    /// The game after food maintenance has left the area as `env`: nothing
    /// changes while there is food; else the food is where `env` has it, and
    /// it counts as present if the snake, its last block not counted, does not
    /// lie there.
    pub open spec fn fed(self, env: Environment) -> GameView {
        if self.food_exist {
            self
        } else {
            GameView {
                environment: env,
                food_exist: !self.snake.overlap_tail(env.food_x as int, env.food_y as int),
                ..self
            }
        }
    }

    /// The game after a change of heading is asked for: taken over while the
    /// game runs, unless it is the opposite of the current heading.
    pub open spec fn request_direction_change(self, d: Direction) -> GameView {
        if !self.game_over && d != self.snake.direction.opposite() {
            GameView { snake: SnakeView { direction: d, ..self.snake }, ..self }
        } else {
            self
        }
    }

    /// The game started over in the same area.
    pub open spec fn restart(self) -> GameView {
        Self::fresh(self.environment.width, self.environment.height)
    }

    /// A fresh game is well formed.
    pub proof fn lemma_fresh_wf(width: u32, height: u32)
        requires
            (Environment { width, height, food_x: 0, food_y: 0 }).wf(),
        ensures
            Self::fresh(width, height).wf(),
            Self::fresh(width, height).snake.cells.len() == 3,
    {
        SnakeView::lemma_fresh_wf(SPAWN_X, SPAWN_Y);
    }

    /// Every state that a game reaches is well formed, so its snake has at
    /// least three blocks: a move request, legal or not, leads from a well
    /// formed game to a well formed one.
    pub proof fn lemma_update_snake_wf(self, dir: Option<Direction>)
        requires
            self.wf(),
        ensures
            self.update_snake(dir).wf(),
            self.update_snake(dir).snake.cells.len() >= 3,
    {
        if self.check_bounds(dir) {
            self.snake.lemma_move_forward_wf(dir);
            let moved = GameView { snake: self.snake.move_forward(dir), ..self };
            assert(moved.snake.head() == self.snake.head_next(dir));
            if moved.eats() {
                moved.snake.lemma_restore_tail_wf();
                assert(moved.snake.restore_tail().cells[0] == moved.snake.cells[0]);
            }
        }
    }

    /// The snake gets longer only by eating: a move request adds one block
    /// if the move is legal and ends on the food, and else leaves the length
    /// as it was. When it grows, the food is gone afterwards.
    pub proof fn lemma_length_grows_only_on_food(self, dir: Option<Direction>)
        requires
            self.wf(),
        ensures
            self.grows(dir) ==> self.update_snake(dir).snake.cells.len() == self.snake.cells.len()
                + 1 && !self.update_snake(dir).food_exist,
            !self.grows(dir) ==> self.update_snake(dir).snake.cells.len()
                == self.snake.cells.len(),
            !self.grows(dir) ==> self.update_snake(dir).food_exist == self.food_exist,
    {
        if self.check_bounds(dir) {
            self.snake.lemma_move_forward_wf(dir);
            let moved = GameView { snake: self.snake.move_forward(dir), ..self };
            assert(moved.snake.head() == self.snake.head_next(dir));
            if moved.eats() {
                moved.snake.lemma_restore_tail_wf();
            }
        }
    }

    /// None of the other steps of a game changes the length of a running
    /// snake: food maintenance and a change of heading leave the body as it
    /// is, and a restart gives a snake of three blocks.
    pub proof fn lemma_other_steps_keep_length(self, env: Environment, d: Direction)
        ensures
            self.fed(env).snake == self.snake,
            self.request_direction_change(d).snake.cells == self.snake.cells,
            self.restart().snake.cells.len() == 3,
    {
    }

    /// Food maintenance, a change of heading and a restart lead from a well
    /// formed game to a well formed one, as a move request does.
    pub proof fn lemma_other_steps_keep_wf(self, env: Environment, d: Direction)
        requires
            self.wf(),
            env.wf(),
        ensures
            self.fed(env).wf(),
            self.request_direction_change(d).wf(),
            self.restart().wf(),
    {
        Self::lemma_fresh_wf(self.environment.width, self.environment.height);
    }

    /// A move onto the block that the snake's end is about to leave is no
    /// collision: if the head would land where the last block lies, no other
    /// block lies there, and the place is in bounds, the move is legal.
    pub proof fn lemma_move_onto_vacated_block_is_legal(self, dir: Option<Direction>)
        requires
            self.snake.head_next(dir) == self.snake.cells.last(),
            forall|i: int|
                0 <= i < self.snake.cells.len() - 1 ==> (#[trigger] self.snake.cells[i])
                    != self.snake.cells.last(),
            self.in_bounds(
                self.snake.head_next(dir).x as int,
                self.snake.head_next(dir).y as int,
            ),
        ensures
            self.check_bounds(dir),
    {
        let next = self.snake.head_next(dir);
        self.snake.lemma_last_block_is_no_collision(next.x as int, next.y as int);
    }

    /// An illegal move changes nothing but the flag that ends the game.
    pub proof fn lemma_illegal_move_ends_game(self, dir: Option<Direction>)
        requires
            !self.check_bounds(dir),
        ensures
            self.update_snake(dir) == (GameView { game_over: true, ..self }),
            self.update_snake(dir).snake == self.snake,
    {
    }

    /// A request for the opposite of the heading is always turned down.
    pub proof fn lemma_reversal_is_rejected(self)
        ensures
            self.request_direction_change(self.snake.direction.opposite()) == self,
    {
    }
}

impl View for AppData {
    type V = GameView;

    open spec fn view(&self) -> GameView {
        GameView {
            environment: self.environment,
            snake: self.snake@,
            food_exist: self.food_exist,
            game_over: self.game_over,
        }
    }
}

impl AppData {
    /// A game that starts in an area of the given size: no food yet, the
    /// snake at its spawn point.
    pub fn new(width: u32, height: u32) -> (data: Self)
        requires
            (Environment { width, height, food_x: 0, food_y: 0 }).wf(),
        ensures
            data@ == GameView::fresh(width, height),
            data@.wf(),
    {
        proof {
            GameView::lemma_fresh_wf(width, height);
        }
        Self {
            environment: Environment::new(width, height),
            snake: Snake::new(SPAWN_X, SPAWN_Y),
            food_exist: false,
            game_over: false,
        }
    }

    /// Milliseconds between two moves.
    pub fn iter_interval(&self) -> (ms: u64)
        ensures
            ms == 1000u64 / MOVING_PERIOD,
            ms == 100,
    {
        1000 / MOVING_PERIOD
    }

    /// Lets the snake eat: if there is food and the head lies exactly on it,
    /// the food goes and the pending tail comes back.
    pub fn eating_apple(&mut self)
        requires
            old(self)@.snake.wf(),
            old(self)@.eats() ==> old(self)@.snake.tail.is_some(),
            old(self)@.eats() ==> old(self)@.snake.cells.len() < usize::MAX,
        ensures
            final(self)@ == old(self)@.eating_apple(),
            final(self)@.snake.wf(),
    {
        let (head_x, head_y) = self.snake.head_position();

        if self.food_exist && self.environment.food_x == head_x && self.environment.food_y
            == head_y {
            self.food_exist = false;
            self.snake.restore_tail();
        }
    }

    /// Asks for one move. A legal move is made, and food under the new head
    /// is eaten; an illegal one ends the game and moves nothing.
    pub fn update_snake(&mut self, dir: Option<Direction>)
        requires
            old(self)@.wf(),
            old(self)@.snake.cells.len() < usize::MAX,
        ensures
            final(self)@ == old(self)@.update_snake(dir),
            final(self)@.wf(),
            final(self)@.game_over == (old(self)@.game_over || !old(self)@.check_bounds(dir)),
    {
        proof {
            old(self)@.lemma_update_snake_wf(dir);
        }
        if self.check_bounds(dir) {
            self.snake.move_forward(dir);
            self.eating_apple();
        } else {
            self.game_over = true;
        }
    }

    /// Whether the next move is legal: the head would neither run into the
    /// body, the last block not counted, nor leave the bounds.
    pub fn check_bounds(&self, dir: Option<Direction>) -> (legal: bool)
        requires
            self@.snake.cells.len() > 0,
            self@.snake.head().has_room(),
        ensures
            legal == self@.check_bounds(dir),
    {
        let (next_x, next_y) = self.snake.head_next(dir);

        if self.snake.overlap_tail(next_x, next_y) {
            return false;
        }
        return next_x > -BLOCK_SIZE && next_y > -BLOCK_SIZE && next_x < self.environment.width as i64
            && next_y < self.environment.height as i64;
    }

    /// Starts over in the same area: a fresh snake, no food, the game
    /// running.
    pub fn restart(&mut self)
        requires
            old(self).environment.wf(),
        ensures
            final(self)@ == old(self)@.restart(),
            final(self)@.wf(),
    {
        proof {
            GameView::lemma_fresh_wf(self.environment.width, self.environment.height);
        }
        self.snake = Snake::new(SPAWN_X, SPAWN_Y);
        self.game_over = false;
        self.food_exist = false;
        self.environment = Environment::new(self.environment.width, self.environment.height);
    }

    /// Starts over if the game has ended and has been over for more than
    /// `RESTART_TIME` milliseconds. Says whether it did.
    pub fn restart_if_ready(&mut self, waited_ms: u64) -> (restarted: bool)
        requires
            old(self).environment.wf(),
        ensures
            restarted == (old(self).game_over && waited_ms > RESTART_TIME),
            restarted ==> final(self)@ == old(self)@.restart() && final(self)@.wf(),
            !restarted ==> final(self)@ == old(self)@,
    {
        if self.game_over && waited_ms > RESTART_TIME {
            self.restart();
            true
        } else {
            false
        }
    }

    /// Asks for a new heading, which the next move then takes. The request
    /// is dropped when the game is over or when `d` is the opposite of the
    /// current heading.
    pub fn request_direction_change(&mut self, d: Direction)
        ensures
            final(self)@ == old(self)@.request_direction_change(d),
            old(self)@.wf() ==> final(self)@.wf(),
    {
        if self.game_over {
            return ;
        }
        if d != self.snake.head_direction().opposite() {
            self.snake.direction = d;
        }
    }

    /// Sees to it that there is food. While there is none, random cells of
    /// the grid are tried, at most `FOOD_ATTEMPTS` of them, until one is
    /// found where the snake, its last block not counted, does not lie. If
    /// none is found the game goes on without food.
    pub fn maintain_food(&mut self)
        requires
            old(self).environment.wf(),
        ensures
            final(self)@ == old(self)@.fed(final(self).environment),
            final(self).environment.width == old(self).environment.width,
            final(self).environment.height == old(self).environment.height,
            !old(self).food_exist ==> final(self).environment.food_on_grid(),
            old(self)@.wf() ==> final(self)@.wf(),
    {
        let mut attempts: u32 = 0;
        while !self.food_exist && attempts < FOOD_ATTEMPTS
            invariant
                self.environment.wf(),
                self@.snake == old(self)@.snake,
                self.game_over == old(self).game_over,
                self.environment.width == old(self).environment.width,
                self.environment.height == old(self).environment.height,
                attempts <= FOOD_ATTEMPTS,
                attempts == 0 ==> self@ == old(self)@,
                attempts > 0 ==> !old(self).food_exist && self.environment.food_on_grid()
                    && self.food_exist == !self@.snake.overlap_tail(
                    self.environment.food_x as int,
                    self.environment.food_y as int,
                ),
            decreases FOOD_ATTEMPTS - attempts + if self.food_exist { 0int } else { 1int },
        {
            self.environment.add_food();
            if !self.snake.overlap_tail(self.environment.food_x, self.environment.food_y) {
                self.food_exist = true;
            }
            attempts += 1;
        }
    }

    /// One time step of a running game: food maintenance, then the move.
    /// Nothing happens when the game is over, or when the body could not
    /// take one more block; the result says whether the step was taken.
    pub fn tick(&mut self, dir: Option<Direction>) -> (stepped: bool)
        requires
            old(self)@.wf(),
        ensures
            final(self)@.wf(),
            stepped == (!old(self).game_over && old(self)@.snake.cells.len() < usize::MAX),
            !stepped ==> final(self)@ == old(self)@,
            stepped ==> final(self)@ == old(self)@.fed(final(self).environment).update_snake(dir),
            final(self).environment.width == old(self).environment.width,
            final(self).environment.height == old(self).environment.height,
            old(self).food_exist ==> final(self).environment == old(self).environment,
            stepped && !old(self).food_exist ==> final(self).environment.food_on_grid(),
    {
        if self.game_over || self.snake.len() == usize::MAX {
            return false;
        }
        self.maintain_food();
        self.update_snake(dir);
        true
    }

    pub fn is_game_over(&self) -> (over: bool)
        ensures
            over == self@.game_over,
    {
        self.game_over
    }

    /// What the game shows now.
    pub fn snapshot(&self) -> (shot: Snapshot)
        ensures
            shot.body@ == self@.snake.cells,
            shot.food == if self.food_exist {
                Some(Block { x: self.environment.food_x, y: self.environment.food_y })
            } else {
                None
            },
            shot.game_over == self.game_over,
    {
        let food = if self.food_exist {
            Some(Block { x: self.environment.food_x, y: self.environment.food_y })
        } else {
            None
        };
        Snapshot { body: self.snake.to_vec(), food, game_over: self.game_over }
    }
}

} // verus!
