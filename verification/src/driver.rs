//! The fixed timestep of the game: when a tick is due and what one does.
//!
//! The program that runs the game keeps the clock, reads the keyboard and
//! draws. Between two ticks it sleeps for [`IDLE_MILLIS`]; once [`tick_due`]
//! says so it reads at most one key, calls [`tick`] and draws the state, until
//! the game is over.

use vstd::prelude::*;
use crate::game::SnakeGame;
use crate::input::Key;

verus! {

/// The number of columns of the board.
pub const BOARD_WIDTH: u16 = 40;

/// The number of rows of the board.
pub const BOARD_HEIGHT: u16 = 20;

/// The time between two ticks, in milliseconds.
pub const TICK_MILLIS: u128 = 100;

/// The time to sleep between two looks at the clock, in milliseconds.
pub const IDLE_MILLIS: u64 = 10;

/// Whether a tick is due, `elapsed_millis` after the last one.
pub fn tick_due(elapsed_millis: u128) -> (due: bool)
    ensures
        due == (elapsed_millis >= TICK_MILLIS),
{
    elapsed_millis >= TICK_MILLIS
}

/// One tick of the game: the snake is turned as `key` asks, where `None`
/// stands for no key waiting, and then advances by one cell.
pub fn tick(game: &mut SnakeGame, key: Option<Key>)
    requires
        old(game).wf(),
    ensures
        final(game).wf(),
        final(game)@ == old(game)@.steer(key).advance(final(game)@.food),
        !old(game)@.game_over && old(game)@.steer(key).eats() ==> final(game)@.food.within(
            old(game)@.width,
            old(game)@.height,
        ),
{
    game.handle_input(key);
    game.update();
}

} // verus!
