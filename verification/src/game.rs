//! The simulation state and the rules that advance it.

use vstd::prelude::*;
use crate::direction::ArrowKeys;
use crate::direction::Direction;
use crate::grid::Position;
use crate::grid::ARENA_HEIGHT;
use crate::grid::ARENA_WIDTH;

verus! {

/// Signal that the head has reached a food item.
#[derive(Clone, Copy, Debug, PartialEq, Eq, Structural)]
pub struct GrowthEvent;

/// Signal that the head has run into the snake.
#[derive(Clone, Copy, Debug, PartialEq, Eq, Structural)]
pub struct GameOverEvent;

/// Everything the game knows between two steps.
///
/// `segments` lists the snake head first; `direction` is the heading the
/// head will take at the next movement. `foods` may hold several items,
/// also on one cell. The two event lists hold the signals that a step has
/// raised and that the step reading them has not yet drained.
#[derive(Debug)]
pub struct Game {
    pub width: i32,
    pub height: i32,
    pub direction: Direction,
    pub segments: Vec<Position>,
    pub foods: Vec<Position>,
    pub last_tail_position: Option<Position>,
    pub growth_events: Vec<GrowthEvent>,
    pub game_over_events: Vec<GameOverEvent>,
}

/// The mathematical value of a [`Game`]: sequences for the lists, counts
/// for the pending signals.
#[verifier::ext_equal]
pub struct GameView {
    pub width: i32,
    pub height: i32,
    pub direction: Direction,
    pub segments: Seq<Position>,
    pub foods: Seq<Position>,
    pub last_tail_position: Option<Position>,
    pub growth_events: nat,
    pub game_over_events: nat,
}

impl View for Game {
    type V = GameView;

    open spec fn view(&self) -> GameView {
        GameView {
            width: self.width,
            height: self.height,
            direction: self.direction,
            segments: self.segments@,
            foods: self.foods@,
            last_tail_position: self.last_tail_position,
            growth_events: self.growth_events@.len(),
            game_over_events: self.game_over_events@.len(),
        }
    }
}

/// The snake a game starts with, head first.
pub open spec fn start_segments() -> Seq<Position> {
    seq![Position { x: 3, y: 3 }, Position { x: 3, y: 2 }]
}

/// The test a food item passes when the head at `head` does not eat it.
pub open spec fn uneaten(head: Position) -> spec_fn(Position) -> bool {
    |food: Position| food != head
}

impl GameView {
    /// A state the rules can work on: a grid with cells and a snake with a
    /// head.
    pub open spec fn wf(self) -> bool {
        &&& self.width > 0
        &&& self.height > 0
        &&& self.segments.len() > 0
    }

    /// Whether every segment, every food item and the recorded tail cell
    /// lie on the grid.
    pub open spec fn on_grid(self) -> bool {
        &&& forall|i: int|
            0 <= i < self.segments.len() ==> (#[trigger] self.segments[i]).in_bounds(
                self.width,
                self.height,
            )
        &&& forall|i: int|
            0 <= i < self.foods.len() ==> (#[trigger] self.foods[i]).in_bounds(
                self.width,
                self.height,
            )
        &&& self.last_tail_position matches Some(cell) ==> cell.in_bounds(self.width, self.height)
    }

    /// The cell of the head.
    pub open spec fn head(self) -> Position {
        self.segments[0]
    }

    /// The cell the head enters at the next movement.
    pub open spec fn next_head(self) -> Position {
        self.head().stepped(self.direction, self.width, self.height)
    }

    /// Whether the next movement takes the head onto a cell that a segment
    /// occupies before the movement, the head and the tail included.
    pub open spec fn hits_itself(self) -> bool {
        self.segments.contains(self.next_head())
    }

    /// The state with `direction` replaced by what the held keys ask for.
    pub open spec fn steered(self, keys: ArrowKeys) -> GameView {
        GameView { direction: keys.resolved(self.direction), ..self }
    }

    /// The state after one movement: the head enters its next cell, every
    /// other segment takes the cell of the one ahead of it, the cell the
    /// tail leaves is recorded, and a collision raises one game-over
    /// signal.
    pub open spec fn moved(self) -> GameView {
        GameView {
            segments: seq![self.next_head()] + self.segments.drop_last(),
            last_tail_position: Some(self.segments.last()),
            game_over_events: if self.hits_itself() {
                self.game_over_events + 1
            } else {
                self.game_over_events
            },
            ..self
        }
    }

    /// The state after eating: every food item on the head's cell is gone
    /// and has raised a growth signal of its own; the others stay in order.
    pub open spec fn fed(self) -> GameView {
        let left = self.foods.filter(uneaten(self.head()));
        GameView {
            foods: left,
            growth_events: (self.growth_events + self.foods.len() - left.len()) as nat,
            ..self
        }
    }

    /// The state with one more segment at the tail end.
    pub open spec fn with_segment(self, position: Position) -> GameView {
        GameView { segments: self.segments.push(position), ..self }
    }

    /// The state with one more food item.
    pub open spec fn with_food(self, position: Position) -> GameView {
        GameView { foods: self.foods.push(position), ..self }
    }

    /// The state after growth: all pending growth signals are drained, and
    /// if there was at least one the snake is one segment longer, the new
    /// segment on the recorded tail cell.
    pub open spec fn grown(self) -> GameView {
        if self.growth_events > 0 {
            GameView { growth_events: 0, ..self.with_segment(self.last_tail_position.unwrap()) }
        } else {
            self
        }
    }

    /// The state with the snake replaced by the starting snake, heading up.
    pub open spec fn respawned(self) -> GameView {
        GameView { direction: Direction::Up, segments: start_segments(), ..self }
    }

    /// The state after the game-over check: all pending game-over signals
    /// are drained, and if there was at least one the food is gone and the
    /// snake is the starting snake again.
    pub open spec fn settled(self) -> GameView {
        if self.game_over_events > 0 {
            GameView { foods: Seq::empty(), game_over_events: 0, ..self.respawned() }
        } else {
            self
        }
    }

    /// The state after one fixed tick: movement, eating, growth and the
    /// game-over check, in that order.
    pub open spec fn ticked(self) -> GameView {
        self.moved().fed().grown().settled()
    }
}

/// Whether `cell` is one of `cells`.
pub fn occupies(cells: &Vec<Position>, cell: Position) -> (found: bool)
    ensures
        found == cells@.contains(cell),
{
    let mut i: usize = 0;
    while i < cells.len()
        invariant
            i <= cells.len(),
            forall|j: int| 0 <= j < i ==> cells@[j] != cell,
        decreases cells.len() - i,
    {
        if cells[i] == cell {
            return true;
        }
        i += 1;
    }
    false
}

impl Game {
    /// A game on the standard field with the starting snake and no food.
    pub fn new() -> (game: Game)
        ensures
            game@.wf(),
            game@ == Game::fresh(ARENA_WIDTH as i32, ARENA_HEIGHT as i32),
    {
        Game {
            width: ARENA_WIDTH as i32,
            height: ARENA_HEIGHT as i32,
            direction: Direction::Up,
            segments: vec![Position { x: 3, y: 3 }, Position { x: 3, y: 2 }],
            foods: Vec::new(),
            last_tail_position: None,
            growth_events: Vec::new(),
            game_over_events: Vec::new(),
        }
    }

    /// The state a game of the given size starts in.
    pub open spec fn fresh(width: i32, height: i32) -> GameView {
        GameView {
            width,
            height,
            direction: Direction::Up,
            segments: start_segments(),
            foods: Seq::empty(),
            last_tail_position: None,
            growth_events: 0,
            game_over_events: 0,
        }
    }

    /// A game on a field of `width` columns and `height` rows, or `None`
    /// where the field would have no cell.
    pub fn with_size(width: i32, height: i32) -> (made: Option<Game>)
        ensures
            made is Some <==> width > 0 && height > 0,
            made matches Some(game) ==> game@ == Game::fresh(width, height) && game@.wf(),
    {
        if width > 0 && height > 0 {
            let mut game = Game::new();
            game.width = width;
            game.height = height;
            Some(game)
        } else {
            None
        }
    }

    /// Whether the rules can work on this state, see [`GameView::wf`].
    pub fn is_wf(&self) -> (ok: bool)
        ensures
            ok == self@.wf(),
    {
        self.width > 0 && self.height > 0 && self.segments.len() > 0
    }

    /// Appends a body segment on `position` behind the current tail.
    pub fn spawn_segment(&mut self, position: Position)
        ensures
            final(self)@ == old(self)@.with_segment(position),
    {
        self.segments.push(position);
    }

    /// Replaces the snake by the starting snake: the head on `(3, 3)`
    /// heading up, one body segment on `(3, 2)`.
    pub fn spawn_snake(&mut self)
        ensures
            final(self)@ == old(self)@.respawned(),
    {
        self.direction = Direction::Up;
        self.segments = vec![Position { x: 3, y: 3 }];
        self.spawn_segment(Position { x: 3, y: 2 });
    }

    /// Applies the held keys to the heading. May run any number of times
    /// between two movements; the heading it leaves last is the one the
    /// next movement takes.
    pub fn snake_movement_input(&mut self, keys: &ArrowKeys)
        ensures
            final(self)@ == old(self)@.steered(*keys),
    {
        self.direction = keys.resolve(self.direction);
    }

    /// Advances the snake by one cell in its heading. A head that enters
    /// a cell some segment had before the step raises a game-over signal;
    /// the step is completed all the same.
    pub fn snake_movement(&mut self)
        requires
            old(self)@.wf(),
        ensures
            final(self)@ == old(self)@.moved(),
            final(self)@.wf(),
            final(self)@.head().in_bounds(old(self).width, old(self).height),
    {
        let count = self.segments.len();
        let tail = self.segments[count - 1];
        let next = self.segments[0].step(self.direction, self.width, self.height);
        if occupies(&self.segments, next) {
            self.game_over_events.push(GameOverEvent);
        }
        let mut shifted: Vec<Position> = vec![next];
        let mut i: usize = 0;
        while i < count - 1
            invariant
                count == self.segments@.len(),
                count > 0,
                i <= count - 1,
                shifted@ == seq![next] + self.segments@.take(i as int),
            decreases count - i,
        {
            shifted.push(self.segments[i]);
            i += 1;
        }
        assert(self.segments@.take(count - 1) == self.segments@.drop_last());
        self.segments = shifted;
        self.last_tail_position = Some(tail);
    }

    /// Lets the head eat every food item on its cell; each item eaten
    /// raises a growth signal.
    pub fn snake_eating(&mut self)
        requires
            old(self)@.segments.len() > 0,
        ensures
            final(self)@ == old(self)@.fed(),
    {
        let head = self.segments[0];
        let ghost keep = uneaten(head);
        let ghost pending = self.growth_events@.len();
        let mut left: Vec<Position> = Vec::new();
        let mut i: usize = 0;
        assert(self.foods@.take(0).filter(keep) == Seq::<Position>::empty()) by {
            reveal(Seq::filter);
        }
        while i < self.foods.len()
            invariant
                i <= self.foods.len(),
                keep == uneaten(head),
                left@ == self.foods@.take(i as int).filter(keep),
                self.growth_events@.len() == pending + i - left@.len(),
                self.foods == old(self).foods,
                self.segments == old(self).segments,
                self.width == old(self).width,
                self.height == old(self).height,
                self.direction == old(self).direction,
                self.last_tail_position == old(self).last_tail_position,
                self.game_over_events == old(self).game_over_events,
            decreases self.foods.len() - i,
        {
            let food = self.foods[i];
            assert(self.foods@.take(i + 1).filter(keep) == if keep(food) {
                left@.push(food)
            } else {
                left@
            }) by {
                reveal(Seq::filter);
                assert(self.foods@.take(i + 1).drop_last() == self.foods@.take(i as int));
            }
            if food == head {
                self.growth_events.push(GrowthEvent);
            } else {
                left.push(food);
            }
            i += 1;
        }
        assert(self.foods@.take(i as int) == self.foods@);
        self.foods = left;
    }

    /// Grows the snake by one segment if any food was eaten since the
    /// last growth, and drains the growth signals. Several items eaten on
    /// one cell raise several signals and still add a single segment,
    /// which may surprise; the cap is deliberate. The new segment takes
    /// the cell the tail left at the last movement, so a pending signal
    /// needs a movement to have run before.
    pub fn snake_growth(&mut self)
        requires
            old(self)@.growth_events > 0 ==> old(self)@.last_tail_position is Some,
        ensures
            final(self)@ == old(self)@.grown(),
            old(self)@.wf() ==> final(self)@.wf(),
    {
        if self.growth_events.len() > 0 {
            let vacated = self.last_tail_position.unwrap();
            self.spawn_segment(vacated);
            self.growth_events.clear();
        }
    }

    /// Starts over if the snake has run into itself: all food and the
    /// whole snake go, and the starting snake takes their place.
    pub fn game_over(&mut self)
        ensures
            final(self)@ == old(self)@.settled(),
            old(self)@.wf() ==> final(self)@.wf(),
    {
        if self.game_over_events.len() > 0 {
            self.foods.clear();
            self.spawn_snake();
            self.game_over_events.clear();
        }
    }

    /// Runs one fixed tick.
    pub fn tick(&mut self)
        requires
            old(self)@.wf(),
        ensures
            final(self)@ == old(self)@.ticked(),
            final(self)@.wf(),
    {
        self.snake_movement();
        self.snake_eating();
        self.snake_growth();
        self.game_over();
    }
}

} // verus!
