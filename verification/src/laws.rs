//! What holds of steering and of a tick, for every state of the game.

use vstd::prelude::*;
use crate::game::GameState;
use crate::grid::{Direction, Position};
use crate::input::{steered, Key};

verus! {

/// An arrow against the direction of travel changes nothing, an arrow along
/// it changes nothing, and an arrow across it is obeyed.
pub proof fn law_steering(current: Direction, wanted: Direction)
    ensures
        steered(current, Some(Key::arrow(current.opposite()))) == current,
        steered(current, Some(Key::arrow(current))) == current,
        wanted != current && wanted != current.opposite() ==> steered(
            current,
            Some(Key::arrow(wanted)),
        ) == wanted,
        steered(current, Some(Key::Other)) == current,
        steered(current, None) == current,
{
}

/// A tick never leaves the snake without a body.
pub proof fn law_body_never_empty(g: GameState, fresh: Position)
    requires
        g.wf(),
    ensures
        g.advance(fresh).snake.len() >= 1,
{
}

/// A tick in which the snake does not eat leaves the food where it is. If
/// the snake survives it, the body keeps its length. If the snake dies in it,
/// the body stays as it was once the tail was taken off; a snake of one
/// segment keeps that segment.
pub proof fn law_length_without_food(g: GameState, fresh: Position)
    requires
        g.wf(),
        !g.game_over,
        !g.eats(),
    ensures
        g.advance(fresh).food == g.food,
        !g.collides() ==> g.advance(fresh).snake.len() == g.snake.len(),
        g.collides() && g.snake.len() >= 2 ==> g.advance(fresh).snake == g.snake.drop_last(),
        g.collides() && g.snake.len() == 1 ==> g.advance(fresh).snake == g.snake,
{
}

/// A tick in which the snake eats moves the food to the fresh cell. If the
/// snake survives it, the body grows by one: the new head, on the cell where
/// the food was, leads the whole old body. If it dies in it, the body stays
/// as it was.
pub proof fn law_growth_with_food(g: GameState, fresh: Position)
    requires
        g.wf(),
        !g.game_over,
        g.eats(),
    ensures
        g.advance(fresh).food == fresh,
        !g.collides() ==> g.advance(fresh).snake == seq![g.food] + g.snake,
        !g.collides() ==> g.advance(fresh).snake.len() == g.snake.len() + 1,
        g.collides() ==> g.advance(fresh).snake == g.snake,
{
}

/// Whatever two numbers are drawn, the cell they are reduced to lies on the
/// board.
pub proof fn law_fresh_food_on_board(g: GameState, rx: u16, ry: u16)
    requires
        g.wf(),
    ensures
        (Position { x: rx % g.width, y: ry % g.height }).within(g.width, g.height),
{
    assert(g.snake[0].within(g.width, g.height));
}

/// A running game ends in a tick exactly if the head would enter a cell of
/// the trimmed body or leave the board; the new head then stays off the body.
pub proof fn law_collision_ends_game(g: GameState, fresh: Position)
    requires
        g.wf(),
        !g.game_over,
    ensures
        g.trimmed().contains(g.next_head()) ==> g.advance(fresh).game_over,
        g.next_head().x >= g.width ==> g.advance(fresh).game_over,
        g.next_head().y >= g.height ==> g.advance(fresh).game_over,
        g.advance(fresh).game_over <==> g.collides(),
        g.advance(fresh).game_over ==> g.advance(fresh).snake.is_prefix_of(g.snake),
        !g.advance(fresh).game_over ==> g.advance(fresh).snake[0] == g.next_head(),
{
}

/// A game that is over stays over: a tick changes nothing, and steering
/// changes the direction at most.
pub proof fn law_game_over_is_final(g: GameState, fresh: Position, key: Option<Key>)
    requires
        g.game_over,
    ensures
        g.advance(fresh) == g,
        g.steer(key).game_over,
{
}

} // verus!
