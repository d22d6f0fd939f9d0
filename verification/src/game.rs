//! The state of a game and the tick that advances it.

use vstd::prelude::*;
use std::collections::VecDeque;
use crate::grid::{Direction, Position};
use crate::input::{steer, steered, Key};
use crate::chance::random_u16;

verus! {

/// The state of a game as contracts speak of it. The snake's body runs from
/// its head, at index 0, to its tail.
pub struct GameState {
    pub snake: Seq<Position>,
    pub direction: Direction,
    pub food: Position,
    pub width: u16,
    pub height: u16,
    pub game_over: bool,
}

impl GameState {
    /// The snake has a head, lies on the board and crosses itself nowhere.
    pub open spec fn wf(self) -> bool {
        &&& self.snake.len() > 0
        &&& self.snake.no_duplicates()
        &&& forall|i: int|
            0 <= i < self.snake.len() ==> (#[trigger] self.snake[i]).within(self.width, self.height)
    }

    /// The cell that the head moves to in the next tick.
    pub open spec fn next_head(self) -> Position {
        self.snake[0].neighbour(self.direction)
    }

    /// Whether the head reaches the food in the next tick.
    pub open spec fn eats(self) -> bool {
        self.next_head() == self.food
    }

    /// The body that the head is checked against: all of it when the snake
    /// eats, all but the tail when it does not.
    pub open spec fn trimmed(self) -> Seq<Position> {
        if self.eats() {
            self.snake
        } else {
            self.snake.drop_last()
        }
    }

    /// Whether the next tick ends the game: the head would enter a cell of
    /// the trimmed body, or leave the board.
    pub open spec fn collides(self) -> bool {
        self.trimmed().contains(self.next_head()) || !self.next_head().within(
            self.width,
            self.height,
        )
    }

    /// The body after the next tick. Without a collision the new head leads
    /// the trimmed body. With one the trimmed body stays as it is, except
    /// that a snake of one segment keeps that segment: the body is never
    /// empty.
    pub open spec fn next_snake(self) -> Seq<Position> {
        if !self.collides() {
            seq![self.next_head()] + self.trimmed()
        } else if self.trimmed().len() == 0 {
            self.snake
        } else {
            self.trimmed()
        }
    }

    /// The state after one tick, where `fresh` is the cell that the food
    /// moves to if it is eaten. A game that is over stays as it is.
    pub open spec fn advance(self, fresh: Position) -> GameState {
        if self.game_over {
            self
        } else {
            GameState {
                snake: self.next_snake(),
                direction: self.direction,
                food: if self.eats() {
                    fresh
                } else {
                    self.food
                },
                width: self.width,
                height: self.height,
                game_over: self.collides(),
            }
        }
    }

    /// The state after `key` was handled: only the direction may differ.
    pub open spec fn steer(self, key: Option<Key>) -> GameState {
        GameState {
            snake: self.snake,
            direction: steered(self.direction, key),
            food: self.food,
            width: self.width,
            height: self.height,
            game_over: self.game_over,
        }
    }
}

/// A tick keeps a well-formed state well-formed, wherever the food goes.
pub proof fn lemma_advance_wf(g: GameState, fresh: Position)
    requires
        g.wf(),
    ensures
        g.advance(fresh).wf(),
{
    let t = g.trimmed();
    let h = g.next_head();
    assert forall|i: int| 0 <= i < t.len() implies t[i] == g.snake[i] by {}
    if !g.game_over && !g.collides() {
        let s = seq![h] + t;
        assert forall|i: int, j: int| 0 <= i < s.len() && 0 <= j < s.len() && i != j implies s[i]
            != s[j] by {
            if i > 0 {
                assert(s[i] == t[i - 1]);
            }
            if j > 0 {
                assert(s[j] == t[j - 1]);
            }
            if i == 0 {
                assert(t.contains(t[j - 1]));
            }
            if j == 0 {
                assert(t.contains(t[i - 1]));
            }
        }
        assert forall|i: int| 0 <= i < s.len() implies (#[trigger] s[i]).within(
            g.width,
            g.height,
        ) by {
            if i > 0 {
                assert(s[i] == t[i - 1]);
            }
        }
    }
}

/// A snake game: the snake, where it is heading, the food, the board's size
/// and whether the game has ended.
pub struct SnakeGame {
    snake: VecDeque<Position>,
    direction: Direction,
    food: Position,
    width: u16,
    height: u16,
    game_over: bool,
}

impl View for SnakeGame {
    type V = GameState;

    closed spec fn view(&self) -> GameState {
        GameState {
            snake: self.snake@,
            direction: self.direction,
            food: self.food,
            width: self.width,
            height: self.height,
            game_over: self.game_over,
        }
    }
}

/// Whether `cell` is among the first `count` segments of `body`.
fn occupied(body: &VecDeque<Position>, cell: Position, count: usize) -> (found: bool)
    requires
        count <= body@.len(),
    ensures
        found == body@.take(count as int).contains(cell),
{
    let mut i: usize = 0;
    while i < count
        invariant
            i <= count <= body@.len(),
            forall|j: int| 0 <= j < i ==> body@[j] != cell,
        decreases count - i,
    {
        if body[i] == cell {
            assert(body@.take(count as int)[i as int] == cell);
            return true;
        }
        i += 1;
    }
    false
}

impl SnakeGame {
    /// The game's state is well-formed.
    pub open spec fn wf(&self) -> bool {
        self@.wf()
    }

    /// A new game on a board of `width` columns and `height` rows: a snake
    /// of one segment in the middle of the board heading right, the food at
    /// column 3 and row 3. Any board is taken. The game is well-formed, and
    /// so can be played, exactly if the board has at least one cell: on a
    /// board without cells the snake has nowhere to stand.
    pub fn new(width: u16, height: u16) -> (game: SnakeGame)
        ensures
            game.wf() <==> (width > 0 && height > 0),
            game@ == (GameState {
                snake: seq![Position { x: width / 2, y: height / 2 }],
                direction: Direction::Right,
                food: Position { x: 3, y: 3 },
                width: width,
                height: height,
                game_over: false,
            }),
    {
        let mut snake: VecDeque<Position> = VecDeque::new();
        snake.push_back(Position { x: width / 2, y: height / 2 });
        assert(snake@ =~= seq![Position { x: width / 2, y: height / 2 }]);
        let game = SnakeGame {
            snake,
            direction: Direction::Right,
            food: Position { x: 3, y: 3 },
            width,
            height,
            game_over: false,
        };
        proof {
            if game@.wf() {
                assert(game@.snake[0].within(width, height));
            }
        }
        game
    }

    /// A game that starts from the given board, snake, direction and food,
    /// with `snake` running from head to tail. `None` where the snake is
    /// empty, leaves the board or crosses itself.
    pub fn from_parts(
        width: u16,
        height: u16,
        snake: Vec<Position>,
        direction: Direction,
        food: Position,
    ) -> (made: Option<SnakeGame>)
        ensures
            made.is_some() <==> (GameState {
                snake: snake@,
                direction: direction,
                food: food,
                width: width,
                height: height,
                game_over: false,
            }).wf(),
            made matches Some(game) ==> game@ == (GameState {
                snake: snake@,
                direction: direction,
                food: food,
                width: width,
                height: height,
                game_over: false,
            }),
    {
        if snake.len() == 0 {
            return None;
        }
        let mut body: VecDeque<Position> = VecDeque::new();
        let mut i: usize = 0;
        while i < snake.len()
            invariant
                i <= snake.len(),
                body@ == snake@.take(i as int),
                body@.no_duplicates(),
                forall|j: int| 0 <= j < i ==> (#[trigger] snake@[j]).within(width, height),
            decreases snake.len() - i,
        {
            let cell: Position = snake[i];
            if cell.x >= width || cell.y >= height {
                assert(!snake@[i as int].within(width, height));
                return None;
            }
            if occupied(&body, cell, i) {
                assert(body@.take(i as int) =~= body@);
                let ghost j = body@.index_of(cell);
                assert(snake@[j] == snake@[i as int]);
                return None;
            }
            let ghost before = body@;
            assert(before.take(i as int) =~= before);
            body.push_back(cell);
            i += 1;
            proof {
                assert(body@ =~= snake@.take(i as int));
                assert forall|a: int, b: int|
                    0 <= a < body@.len() && 0 <= b < body@.len() && a != b implies body@[a]
                    != body@[b] by {
                    if a < before.len() {
                        assert(before.contains(before[a]));
                    }
                    if b < before.len() {
                        assert(before.contains(before[b]));
                    }
                }
            }
        }
        assert(snake@.take(i as int) =~= snake@);
        Some(SnakeGame { snake: body, direction, food, width, height, game_over: false })
    }

    /// Turns the snake as `key` asks: see [`steered`]. `None` stands for no
    /// key pressed.
    pub fn handle_input(&mut self, key: Option<Key>)
        ensures
            final(self)@ == old(self)@.steer(key),
            old(self).wf() ==> final(self).wf(),
    {
        self.direction = steer(self.direction, key);
    }

    /// The number of columns of the board.
    pub fn width(&self) -> (w: u16)
        ensures
            w == self@.width,
    {
        self.width
    }

    /// The number of rows of the board.
    pub fn height(&self) -> (h: u16)
        ensures
            h == self@.height,
    {
        self.height
    }

    /// The direction in which the snake is heading.
    pub fn direction(&self) -> (d: Direction)
        ensures
            d == self@.direction,
    {
        self.direction
    }

    /// The cell that holds the food.
    pub fn food(&self) -> (cell: Position)
        ensures
            cell == self@.food,
    {
        self.food
    }

    /// Whether the game has ended.
    pub fn game_over(&self) -> (over: bool)
        ensures
            over == self@.game_over,
    {
        self.game_over
    }

    /// The cells of the snake, from head to tail.
    pub fn snake(&self) -> (cells: Vec<Position>)
        ensures
            cells@ == self@.snake,
    {
        let mut cells: Vec<Position> = Vec::new();
        let mut i: usize = 0;
        while i < self.snake.len()
            invariant
                i <= self.snake@.len(),
                cells@ == self.snake@.take(i as int),
            decreases self.snake@.len() - i,
        {
            cells.push(self.snake[i]);
            i += 1;
            assert(cells@ =~= self.snake@.take(i as int));
        }
        assert(self.snake@.take(i as int) =~= self.snake@);
        cells
    }

    /// One tick in which the food, if it is eaten, moves to column
    /// `rx % width` and row `ry % height`.
    ///
    /// The head moves one cell in the direction of travel. If it reaches the
    /// food, the snake keeps its tail and the food moves; if not, the tail is
    /// taken off. The game ends if the head would then enter a cell of the
    /// body or leave the board, and the head is not added; otherwise it
    /// becomes the first segment. A snake of one segment that dies keeps
    /// that segment. Once the game is over, nothing changes any more.
    pub fn update_with(&mut self, rx: u16, ry: u16)
        requires
            old(self).wf(),
        ensures
            final(self).wf(),
            final(self)@ == old(self)@.advance(
                Position { x: rx % old(self)@.width, y: ry % old(self)@.height },
            ),
    {
        if self.game_over {
            return;
        }
        let new_head = self.snake[0].step(self.direction);
        let eats: bool = new_head == self.food;
        let len: usize = self.snake.len();
        let kept: usize = if eats {
            len
        } else {
            len - 1
        };
        proof {
            assert(self.snake@[0].within(self.width, self.height));
            assert(self@.trimmed() =~= self.snake@.take(kept as int));
            lemma_advance_wf(self@, Position { x: rx % self.width, y: ry % self.height });
        }
        let hit: bool = occupied(&self.snake, new_head, kept) || new_head.x >= self.width || new_head.y
            >= self.height;
        if eats {
            self.food = Position { x: rx % self.width, y: ry % self.height };
        }
        if hit {
            self.game_over = true;
            if !eats && kept > 0 {
                self.snake.pop_back();
            }
        } else {
            if !eats {
                self.snake.pop_back();
            }
            self.snake.push_front(new_head);
        }
    }

    /// One tick: the snake advances by one cell as in
    /// [`SnakeGame::update_with`]. If it eats, the food moves to a cell of
    /// the board drawn at random, which may be a cell of the snake or the
    /// cell where the food was.
    pub fn update(&mut self)
        requires
            old(self).wf(),
        ensures
            final(self).wf(),
            final(self)@ == old(self)@.advance(final(self)@.food),
            !old(self)@.game_over && old(self)@.eats() ==> final(self)@.food.within(
                old(self)@.width,
                old(self)@.height,
            ),
    {
        if !self.game_over && self.snake[0].step(self.direction) == self.food {
            let rx: u16 = random_u16();
            let ry: u16 = random_u16();
            self.update_with(rx, ry);
        } else {
            self.update_with(0, 0);
        }
    }
}

} // verus!
