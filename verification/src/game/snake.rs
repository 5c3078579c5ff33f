//! The snake: an ordered run of blocks, head first, with a heading and the
//! block that the last move dropped from its end.

use crate::game::cells::{
    blocks, vector_front, vector_index, vector_len, vector_new, vector_pop_back, vector_push_back,
    vector_push_front,
};
use crate::game::BLOCK_SIZE;
use im::Vector;
use vstd::prelude::*;

verus! {

#[derive(Copy, Clone, Debug, PartialEq, Eq, Structural)]
pub enum Direction {
    Up,
    Down,
    Left,
    Right,
}

impl Direction {
    pub open spec fn spec_opposite(&self) -> Direction {
        match *self {
            Direction::Up => Direction::Down,
            Direction::Down => Direction::Up,
            Direction::Left => Direction::Right,
            Direction::Right => Direction::Left,
        }
    }

    /// The direction that points the other way.
    #[verifier::when_used_as_spec(spec_opposite)]
    pub fn opposite(&self) -> (r: Self)
        ensures
            r == self.spec_opposite(),
    {
        match *self {
            Direction::Up => Direction::Down,
            Direction::Down => Direction::Up,
            Direction::Left => Direction::Right,
            Direction::Right => Direction::Left,
        }
    }

    /// Change of the x coordinate in one step this way.
    pub open spec fn dx(self) -> int {
        match self {
            Direction::Left => -(BLOCK_SIZE as int),
            Direction::Right => BLOCK_SIZE as int,
            _ => 0,
        }
    }

    /// Change of the y coordinate in one step this way. Up is towards
    /// smaller y.
    pub open spec fn dy(self) -> int {
        match self {
            Direction::Up => -(BLOCK_SIZE as int),
            Direction::Down => BLOCK_SIZE as int,
            _ => 0,
        }
    }

    /// Turning round twice gives the first direction back, and turning round
    /// once never does.
    pub proof fn lemma_opposite_is_involution(d: Direction)
        ensures
            d.opposite().opposite() == d,
            d.opposite() != d,
            d.opposite().dx() == -d.dx(),
            d.opposite().dy() == -d.dy(),
    {
    }
}

/// One grid-aligned position of the play area.
#[derive(Copy, Clone, Debug, PartialEq, Eq, Structural)]
pub struct Block {
    pub x: i64,
    pub y: i64,
}

impl Block {
    /// Whether this block lies at `(x, y)`.
    pub open spec fn at(self, x: int, y: int) -> bool {
        self.x == x && self.y == y
    }

    /// Whether a step of one block can be taken from here in any direction
    /// without leaving the range of the coordinates.
    pub open spec fn has_room(self) -> bool {
        &&& i64::MIN + BLOCK_SIZE <= self.x <= i64::MAX - BLOCK_SIZE
        &&& i64::MIN + BLOCK_SIZE <= self.y <= i64::MAX - BLOCK_SIZE
    }

    /// The block one step away in direction `d`.
    pub open spec fn step(self, d: Direction) -> Block
        recommends
            self.has_room(),
    {
        Block { x: (self.x + d.dx()) as i64, y: (self.y + d.dy()) as i64 }
    }

    /// Whether the two blocks are exactly one block apart along one axis and
    /// level on the other.
    pub open spec fn adjacent(self, other: Block) -> bool {
        ||| self.y == other.y && (self.x - other.x == BLOCK_SIZE || other.x - self.x == BLOCK_SIZE)
        ||| self.x == other.x && (self.y - other.y == BLOCK_SIZE || other.y - self.y == BLOCK_SIZE)
    }
}

/// What a snake is, as a mathematical value.
pub struct SnakeView {
    /// The current heading.
    pub direction: Direction,
    /// The body, head first.
    pub cells: Seq<Block>,
    /// The block that the last move took from the end of the body, until it
    /// is put back.
    pub tail: Option<Block>,
}

impl SnakeView {
    /// The body has at least three blocks, neighbours in it are adjacent, and
    /// a pending tail is adjacent to the last block.
    pub open spec fn wf(self) -> bool {
        &&& self.cells.len() >= 3
        &&& forall|i: int, j: int|
            0 <= i && j == i + 1 && j < self.cells.len() ==> (#[trigger] self.cells[i]).adjacent(
                #[trigger] self.cells[j],
            )
        &&& self.tail matches Some(t) ==> self.cells.last().adjacent(t)
    }

    pub open spec fn head(self) -> Block {
        self.cells[0]
    }

    /// The heading of the next move: the requested one, if any, else the
    /// current one.
    pub open spec fn heading(self, dir: Option<Direction>) -> Direction {
        match dir {
            Some(d) => d,
            None => self.direction,
        }
    }

    /// Where the head would be after a move.
    pub open spec fn head_next(self, dir: Option<Direction>) -> Block {
        self.head().step(self.heading(dir))
    }

    /// Whether `(x, y)` is one of the blocks of the body other than the last.
    pub open spec fn overlap_tail(self, x: int, y: int) -> bool {
        exists|i: int| 0 <= i < self.cells.len() - 1 && (#[trigger] self.cells[i]).at(x, y)
    }

    /// The snake after one move: a new head in front, the last block taken
    /// off and kept as the pending tail.
    pub open spec fn move_forward(self, dir: Option<Direction>) -> SnakeView {
        SnakeView {
            direction: self.heading(dir),
            cells: seq![self.head_next(dir)] + self.cells.drop_last(),
            tail: Some(self.cells.last()),
        }
    }

    /// The snake after its pending tail is put back at the end.
    pub open spec fn restore_tail(self) -> SnakeView
        recommends
            self.tail.is_some(),
    {
        SnakeView { direction: self.direction, cells: self.cells.push(self.tail.unwrap()), tail: None }
    }

    /// The snake that `Snake::new(x, y)` makes.
    pub open spec fn fresh(x: i64, y: i64) -> SnakeView {
        SnakeView {
            direction: Direction::Right,
            cells: seq![
                Block { x: (x + 2 * BLOCK_SIZE) as i64, y },
                Block { x: (x + BLOCK_SIZE) as i64, y },
                Block { x, y },
            ],
            tail: None,
        }
    }

    /// A fresh snake is well formed.
    pub proof fn lemma_fresh_wf(x: i64, y: i64)
        requires
            x + 2 * BLOCK_SIZE <= i64::MAX,
        ensures
            Self::fresh(x, y).wf(),
            Self::fresh(x, y).cells.len() == 3,
    {
    }

    /// A move keeps the snake well formed and its length unchanged, whatever
    /// direction is asked for.
    pub proof fn lemma_move_forward_wf(self, dir: Option<Direction>)
        requires
            self.wf(),
            self.head().has_room(),
        ensures
            self.move_forward(dir).wf(),
            self.move_forward(dir).cells.len() == self.cells.len(),
            self.move_forward(dir).tail.is_some(),
    {
        let next = self.move_forward(dir);
        assert(next.cells[0].adjacent(self.cells[0]));
        assert forall|i: int, j: int| 0 <= i && j == i + 1 && j < next.cells.len() implies (
        #[trigger] next.cells[i]).adjacent(#[trigger] next.cells[j]) by {
            if i == 0 {
                assert(next.cells[j] == self.cells[0]);
            } else {
                assert(next.cells[i] == self.cells[i - 1]);
                assert(next.cells[j] == self.cells[j - 1]);
            }
        }
        assert(next.cells.last() == self.cells[self.cells.len() - 2]);
        assert(self.cells[self.cells.len() - 2].adjacent(self.cells[self.cells.len() - 1]));
    }

    /// Putting the pending tail back keeps the snake well formed and makes it
    /// one block longer.
    pub proof fn lemma_restore_tail_wf(self)
        requires
            self.wf(),
            self.tail.is_some(),
        ensures
            self.restore_tail().wf(),
            self.restore_tail().cells.len() == self.cells.len() + 1,
    {
        let next = self.restore_tail();
        assert forall|i: int, j: int| 0 <= i && j == i + 1 && j < next.cells.len() implies (
        #[trigger] next.cells[i]).adjacent(#[trigger] next.cells[j]) by {
            if j < self.cells.len() {
                assert(next.cells[i] == self.cells[i]);
                assert(next.cells[j] == self.cells[j]);
            } else {
                assert(next.cells[i] == self.cells.last());
            }
        }
    }

    /// A move followed by putting the tail back keeps every block of the old
    /// body, in order, behind the new head.
    pub proof fn lemma_move_then_restore(self, dir: Option<Direction>)
        requires
            self.cells.len() > 0,
        ensures
            self.move_forward(dir).restore_tail().cells == seq![self.head_next(dir)] + self.cells,
    {
        assert(self.move_forward(dir).restore_tail().cells =~= seq![self.head_next(dir)]
            + self.cells);
    }

    /// The block that a move is about to vacate never counts as a collision:
    /// a position that none of the blocks before the last one holds does not
    /// overlap, whether or not the last block lies there.
    pub proof fn lemma_last_block_is_no_collision(self, x: int, y: int)
        requires
            forall|i: int| 0 <= i < self.cells.len() - 1 ==> !(#[trigger] self.cells[i]).at(x, y),
        ensures
            !self.overlap_tail(x, y),
    {
    }

    /// The lookahead depends on nothing but the head, the heading and the
    /// request: two snakes that agree on these look ahead to the same block.
    pub proof fn lemma_head_next_is_a_function(self, other: SnakeView, dir: Option<Direction>)
        requires
            self.head() == other.head(),
            self.direction == other.direction,
        ensures
            self.head_next(dir) == other.head_next(dir),
    {
    }
}

/// The snake itself. Its body is a persistent vector, head first.
pub struct Snake {
    pub direction: Direction,
    pub body: Vector<Block>,
    pub tail: Option<Block>,
}

impl View for Snake {
    type V = SnakeView;

    open spec fn view(&self) -> SnakeView {
        SnakeView { direction: self.direction, cells: blocks(self.body), tail: self.tail }
    }
}

impl Snake {
    /// A snake of three blocks in a row that faces right, its last block at
    /// `(x, y)` and its head two blocks to the right of it.
    pub fn new(x: i64, y: i64) -> (s: Self)
        requires
            x + 2 * BLOCK_SIZE <= i64::MAX,
        ensures
            s@ == SnakeView::fresh(x, y),
            s@.wf(),
    {
        let mut body = vector_new();
        vector_push_back(&mut body, Block { x: x + 2 * BLOCK_SIZE, y });
        vector_push_back(&mut body, Block { x: x + BLOCK_SIZE, y });
        vector_push_back(&mut body, Block { x, y });
        proof {
            assert(blocks(body) =~= SnakeView::fresh(x, y).cells);
            SnakeView::lemma_fresh_wf(x, y);
        }
        Self { direction: Direction::Right, body, tail: None }
    }

    /// The position of the head.
    pub fn head_position(&self) -> (p: (i64, i64))
        requires
            self@.cells.len() > 0,
        ensures
            p.0 == self@.head().x,
            p.1 == self@.head().y,
    {
        match vector_front(&self.body) {
            Some(head_block) => (head_block.x, head_block.y),
            None => vstd::pervasive::unreached(),
        }
    }

    /// Takes one step: the requested direction, if there is one, becomes the
    /// heading; a new head is put one block ahead of the old one; the last
    /// block leaves the body and is kept as the pending tail.
    pub fn move_forward(&mut self, dir: Option<Direction>)
        requires
            old(self)@.wf(),
            old(self)@.head().has_room(),
            old(self)@.cells.len() < usize::MAX,
        ensures
            final(self)@ == old(self)@.move_forward(dir),
            final(self)@.wf(),
            final(self)@.cells.len() == old(self)@.cells.len(),
    {
        match dir {
            Some(d) => self.direction = d,
            None => (),
        }

        let (last_x, last_y) = self.head_position();
        let new_block = match self.direction {
            Direction::Up => Block { x: last_x, y: last_y - BLOCK_SIZE },
            Direction::Down => Block { x: last_x, y: last_y + BLOCK_SIZE },
            Direction::Left => Block { x: last_x - BLOCK_SIZE, y: last_y },
            Direction::Right => Block { x: last_x + BLOCK_SIZE, y: last_y },
        };
        assert(new_block == old(self)@.head_next(dir));

        vector_push_front(&mut self.body, new_block);
        let removed_block = vector_pop_back(&mut self.body);
        self.tail = removed_block;
        proof {
            assert(self@.cells =~= old(self)@.move_forward(dir).cells);
            old(self)@.lemma_move_forward_wf(dir);
        }
    }

    pub fn head_direction(&self) -> (d: Direction)
        ensures
            d == self@.direction,
    {
        self.direction
    }

    /// Where the head would be after a move with this request. Nothing
    /// changes.
    pub fn head_next(&self, dir: Option<Direction>) -> (p: (i64, i64))
        requires
            self@.cells.len() > 0,
            self@.head().has_room(),
        ensures
            p.0 == self@.head_next(dir).x,
            p.1 == self@.head_next(dir).y,
            p.0 == self@.head().x + self@.heading(dir).dx(),
            p.1 == self@.head().y + self@.heading(dir).dy(),
    {
        let (head_x, head_y) = self.head_position();
        let mut moving_dir = self.direction;

        match dir {
            Some(d) => moving_dir = d,
            None => (),
        }

        match moving_dir {
            Direction::Up => (head_x, head_y - BLOCK_SIZE),
            Direction::Down => (head_x, head_y + BLOCK_SIZE),
            Direction::Left => (head_x - BLOCK_SIZE, head_y),
            Direction::Right => (head_x + BLOCK_SIZE, head_y),
        }
    }

    /// Puts the pending tail back at the end of the body, which makes the
    /// snake one block longer. There must be a pending tail: a move leaves
    /// one, and this call uses it up.
    pub fn restore_tail(&mut self)
        requires
            old(self)@.wf(),
            old(self)@.tail.is_some(),
            old(self)@.cells.len() < usize::MAX,
        ensures
            final(self)@ == old(self)@.restore_tail(),
            final(self)@.wf(),
            final(self)@.cells.len() == old(self)@.cells.len() + 1,
    {
        match self.tail {
            Some(blk) => {
                vector_push_back(&mut self.body, blk);
                self.tail = None;
            },
            None => {},
        }
        proof {
            old(self)@.lemma_restore_tail_wf();
        }
    }

    /// Whether `(x, y)` is the position of a block of the body other than the
    /// last one. The last block is left out because the next move vacates it.
    pub fn overlap_tail(&self, x: i64, y: i64) -> (hit: bool)
        ensures
            hit == self@.overlap_tail(x as int, y as int),
    {
        let n = vector_len(&self.body);
        if n == 0 {
            return false;
        }
        let mut c: usize = 0;
        while c < n - 1
            invariant
                n == self@.cells.len(),
                n > 0,
                c <= n - 1,
                forall|i: int| 0 <= i < c ==> !(#[trigger] self@.cells[i]).at(x as int, y as int),
            decreases n - c,
        {
            let block = vector_index(&self.body, c);
            if x == block.x && y == block.y {
                assert(self@.cells[c as int].at(x as int, y as int));
                return true;
            }
            c += 1;
        }
        false
    }

    /// The number of blocks in the body.
    pub fn len(&self) -> (n: usize)
        ensures
            n == self@.cells.len(),
    {
        vector_len(&self.body)
    }

    /// The blocks of the body, head first.
    pub fn to_vec(&self) -> (v: Vec<Block>)
        ensures
            v@ == self@.cells,
    {
        let n = vector_len(&self.body);
        let mut v: Vec<Block> = Vec::new();
        let mut i: usize = 0;
        while i < n
            invariant
                n == self@.cells.len(),
                i <= n,
                v@ == self@.cells.take(i as int),
            decreases n - i,
        {
            v.push(vector_index(&self.body, i));
            assert(self@.cells.take(i as int).push(self@.cells[i as int]) =~= self@.cells.take(
                i + 1,
            ));
            i += 1;
        }
        assert(self@.cells.take(n as int) =~= self@.cells);
        v
    }
}

} // verus!
