//! What holds of every game, stated over the game's mathematical value.

use vstd::prelude::*;
use crate::direction::ArrowKeys;
use crate::direction::Direction;
use crate::game::uneaten;
use crate::game::start_segments;
use crate::game::Game;
use crate::game::GameView;
use crate::grid::lemma_wrap_in_range;
use crate::grid::Position;

verus! {

/// Holding the key of the opposite heading leaves the game as it is;
/// holding the key of any other heading sets the heading to it and
/// touches nothing else.
pub proof fn lemma_input_rejects_only_reversal(game: GameView, wanted: Direction)
    ensures
        game.steered(ArrowKeys::only(game.direction.opposite())) == game,
        wanted != game.direction.opposite() ==> game.steered(ArrowKeys::only(wanted)) == (GameView {
            direction: wanted,
            ..game
        }),
        game.steered(ArrowKeys::none()) == game,
{
}

/// On a grid of any size and from any cell, a movement puts the head on
/// the grid, on the cell one step from the old head with each axis taken
/// modulo the size of the grid.
pub proof fn lemma_head_stays_on_grid(game: GameView)
    requires
        game.wf(),
    ensures
        game.moved().head() == game.next_head(),
        game.moved().head().in_bounds(game.width, game.height),
        game.moved().head().x == (game.head().x + game.direction.dx()) % (game.width as int),
        game.moved().head().y == (game.head().y + game.direction.dy()) % (game.height as int),
{
    lemma_wrap_in_range(game.head().x + game.direction.dx(), game.width as int);
    lemma_wrap_in_range(game.head().y + game.direction.dy(), game.height as int);
}

/// A movement keeps the length of the snake and moves every segment but
/// the head onto the cell that the segment ahead of it had before.
pub proof fn lemma_body_follows(game: GameView, i: int)
    requires
        game.wf(),
        1 <= i < game.segments.len(),
    ensures
        game.moved().segments.len() == game.segments.len(),
        game.moved().segments[i] == game.segments[i - 1],
        game.moved().last_tail_position == Some(game.segments[game.segments.len() - 1]),
{
}

/// A movement raises exactly one game-over signal if the head enters a
/// cell that some segment had before the movement, and none otherwise.
pub proof fn lemma_collision_signals_once(game: GameView)
    requires
        game.wf(),
    ensures
        (exists|i: int| 0 <= i < game.segments.len() && game.segments[i] == game.next_head())
            ==> game.moved().game_over_events == game.game_over_events + 1,
        (forall|i: int| 0 <= i < game.segments.len() ==> game.segments[i] != game.next_head())
            ==> game.moved().game_over_events == game.game_over_events,
{
}

/// Eating raises one growth signal for each food item it removes, and
/// removes exactly the items on the head's cell.
pub proof fn lemma_eating_counts_food(game: GameView)
    ensures
        game.fed().foods.len() <= game.foods.len(),
        game.fed().growth_events == game.growth_events + (game.foods.len() - game.fed().foods.len()),
        !game.fed().foods.contains(game.head()),
        forall|food: Position|
            food != game.head() && game.foods.contains(food) ==> #[trigger] game.fed().foods.contains(
                food,
            ),
        forall|food: Position| #[trigger]
            game.fed().foods.contains(food) ==> game.foods.contains(food),
{
    let keep = uneaten(game.head());
    game.foods.lemma_filter_len(keep);
    if game.fed().foods.contains(game.head()) {
        game.foods.lemma_filter_contains_rev(keep, game.head());
    }
    assert forall|food: Position|
        food != game.head() && game.foods.contains(food) implies #[trigger] game.fed().foods.contains(
        food,
    ) by {
        let i = choose|i: int| 0 <= i < game.foods.len() && game.foods[i] == food;
        game.foods.lemma_filter_contains(keep, i);
    }
    assert forall|food: Position| #[trigger] game.fed().foods.contains(food) implies game.foods.contains(
        food,
    ) by {
        game.foods.lemma_filter_contains_rev(keep, food);
    }
}

/// However many growth signals are pending, growth appends one segment,
/// on the recorded tail cell, and leaves no signal behind. With none
/// pending it changes nothing.
pub proof fn lemma_growth_adds_one_segment(game: GameView)
    ensures
        game.growth_events > 0 ==> game.grown().segments == game.segments.push(
            game.last_tail_position.unwrap(),
        ),
        game.growth_events > 0 ==> game.grown().segments.len() == game.segments.len() + 1,
        game.growth_events == 0 ==> game.grown() == game,
        game.grown().growth_events == 0,
        game.growth_events > 0 ==> game.grown() == (GameView { growth_events: 1, ..game }).grown(),
{
}

/// Within one movement, eating and growth the snake gains at most one
/// segment, whatever number of food items lay on the cell the head
/// entered; the new segment takes the cell the tail has just left.
pub proof fn lemma_one_segment_per_tick(game: GameView)
    requires
        game.wf(),
    ensures
        game.moved().fed().grown().segments.len() == game.segments.len() + (if game.moved().fed().growth_events
            > 0 {
            1int
        } else {
            0int
        }),
        game.moved().fed().growth_events > 0 ==> game.moved().fed().grown().segments.last()
            == game.segments.last(),
{
}

/// A game-over signal, however many are pending, clears the food and puts
/// the starting snake in place; without one nothing changes.
pub proof fn lemma_reset_is_total(game: GameView)
    ensures
        game.game_over_events > 0 ==> game.settled().segments == start_segments(),
        game.game_over_events > 0 ==> game.settled().direction == Direction::Up,
        game.game_over_events > 0 ==> game.settled().foods.len() == 0,
        game.game_over_events == 0 ==> game.settled() == game,
        game.settled().game_over_events == 0,
        game.wf() ==> game.settled().wf(),
{
}

/// A new game on a grid that holds the starting cells has all its cells
/// on the grid.
pub proof fn lemma_fresh_game_on_grid(width: i32, height: i32)
    requires
        width > 3,
        height > 3,
    ensures
        Game::fresh(width, height).wf(),
        Game::fresh(width, height).on_grid(),
{
}

/// On a grid that holds the starting cells, a tick of a game whose
/// cells all lie on the grid leaves all cells on the grid.
pub proof fn lemma_tick_keeps_on_grid(game: GameView)
    requires
        game.wf(),
        game.on_grid(),
        game.width > 3,
        game.height > 3,
    ensures
        game.moved().on_grid(),
        game.moved().fed().on_grid(),
        game.moved().fed().grown().on_grid(),
        game.ticked().on_grid(),
        game.ticked().wf(),
{
    lemma_head_stays_on_grid(game);
    let moved = game.moved();
    assert(moved.on_grid()) by {
        assert forall|i: int| 0 <= i < moved.segments.len() implies (#[trigger] moved.segments[i]).in_bounds(
            moved.width,
            moved.height,
        ) by {
            if i > 0 {
                assert(moved.segments[i] == game.segments[i - 1]);
            }
        }
    }
    let fed = moved.fed();
    assert(fed.on_grid()) by {
        assert forall|i: int| 0 <= i < fed.foods.len() implies (#[trigger] fed.foods[i]).in_bounds(
            fed.width,
            fed.height,
        ) by {
            assert(fed.foods.contains(fed.foods[i]));
            moved.foods.lemma_filter_contains_rev(uneaten(moved.head()), fed.foods[i]);
        }
    }
    let grown = fed.grown();
    assert(grown.on_grid());
    assert(grown.settled().on_grid());
}

} // verus!
