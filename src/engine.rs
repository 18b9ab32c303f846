//! The game engine: the snake, its food, speed and score, moved one discrete
//! step at a time as time passes.
use vstd::prelude::*;
use crate::grid::{
    Direction, Position, GRID_SIZE, advanced, all_in_grid, in_grid, lemma_distinct_cells_bounded,
    opposite_of,
};
use crate::outside::random_below;
use crate::stats::{GameStats, Report, reports, with_turn};

verus! {

/// Time between steps at the start, in microseconds.
pub const BASE_SPEED_US: u64 = 100_000;

/// How much each point of score shortens the time between steps, in microseconds.
pub const SPEED_DECREMENT_US: u64 = 2_000;

/// The shortest time between steps, in microseconds.
pub const MIN_SPEED_US: u64 = 50_000;

/// Column of the cell where a new snake starts.
pub const START_X: u32 = 10;

/// Row of the cell where a new snake starts.
pub const START_Y: u32 = 10;

/// Random cells drawn for the food before the grid is searched in order.
pub const MAX_FOOD_DRAWS: u64 = 1_000_000;

/// The time between steps at a given score: the base time less the decrement
/// for each point, but never below the minimum.
pub open spec fn speed_for(score: nat) -> int {
    let s = BASE_SPEED_US as int - score * SPEED_DECREMENT_US as int;
    if s < MIN_SPEED_US as int { MIN_SPEED_US as int } else { s }
}

/// The time between steps at `score`, in microseconds.
pub fn speed_for_score(score: u32) -> (r: u64)
    ensures
        r == speed_for(score as nat),
{
    // Past this score the decrement reaches the minimum.
    if score >= 25 {
        MIN_SPEED_US
    } else {
        BASE_SPEED_US - score as u64 * SPEED_DECREMENT_US
    }
}

/// `p` is a cell of the grid that the snake does not cover.
pub open spec fn is_free(snake: Seq<Position>, p: Position) -> bool {
    in_grid(p, GRID_SIZE as int) && !snake.contains(p)
}

/// Some cell of the grid is not covered by the snake.
pub open spec fn has_free_cell(snake: Seq<Position>) -> bool {
    exists|p: Position| is_free(snake, p)
}

/// `p` is one of the segments behind the head.
pub open spec fn hits_body(snake: Seq<Position>, p: Position) -> bool {
    exists|i: int| 1 <= i < snake.len() && snake[i] == p
}

/// What one call of the engine brought about.
pub enum Tick {
    /// No step was taken.
    Idle,
    /// The snake took a step.
    Moved,
    /// The snake ran into itself; the report of the session that ended.
    Ended(Report),
}

/// The state of one game session.
pub struct Game {
    /// The segments, head first.
    pub snake: Vec<Position>,
    pub food: Position,
    pub direction: Direction,
    pub is_game_over: bool,
    pub score: u32,
    /// Time between steps, in microseconds.
    pub speed_us: u64,
    /// Time gathered towards the next step, in microseconds.
    pub last_update_us: u64,
    pub stats: GameStats,
}

impl Game {
    /// The snake is a non-empty run of distinct cells of the grid, one longer
    /// than the score; the food lies on the grid; the food eaten equals the
    /// score and the speed is that of the score.
    pub open spec fn wf(&self) -> bool {
        &&& self.snake@.len() >= 1
        &&& self.snake@.no_duplicates()
        &&& all_in_grid(self.snake@)
        &&& in_grid(self.food, GRID_SIZE as int)
        &&& self.score as int + 1 == self.snake@.len()
        &&& self.stats.food_eaten == self.score
        &&& self.speed_us == speed_for(self.score as nat)
    }

    /// The cell the head moves to on the next step.
    pub open spec fn next_head(&self) -> Position {
        advanced(self.snake@[0], self.direction, GRID_SIZE as int)
    }
}

/// Cell `p` is among the segments from index `from` on.
fn occupies(snake: &Vec<Position>, p: Position, from: usize) -> (r: bool)
    ensures
        r == exists|i: int| from <= i < snake@.len() && snake@[i] == p,
{
    let mut i = from;
    while i < snake.len()
        invariant
            from <= i,
            forall|j: int| from <= j < i && j < snake@.len() ==> snake@[j] != p,
        decreases snake@.len() - i,
    {
        if snake[i] == p {
            assert(snake@[i as int] == p);
            return true;
        }
        i = i + 1;
    }
    false
}

/// The first cell, row by row, that the snake does not cover.
fn first_free_cell(snake: &Vec<Position>) -> (r: Option<Position>)
    ensures
        match r {
            Some(p) => is_free(snake@, p),
            None => !has_free_cell(snake@),
        },
{
    let mut y: u32 = 0;
    while y < GRID_SIZE
        invariant
            y <= GRID_SIZE,
            forall|p: Position| in_grid(p, GRID_SIZE as int) && p.y < y ==> snake@.contains(p),
        decreases GRID_SIZE - y,
    {
        let mut x: u32 = 0;
        while x < GRID_SIZE
            invariant
                x <= GRID_SIZE,
                y < GRID_SIZE,
                forall|p: Position|
                    in_grid(p, GRID_SIZE as int) && (p.y < y || (p.y == y && p.x < x))
                        ==> snake@.contains(p),
            decreases GRID_SIZE - x,
        {
            let c = Position { x, y };
            if !occupies(snake, c, 0) {
                return Some(c);
            }
            assert(snake@.contains(c));
            x = x + 1;
        }
        y = y + 1;
    }
    None
}

/// One discrete step from `pre` to `post`, reporting `r`. The head moves one
/// cell in the current direction. If that cell holds a segment behind the
/// head, the game ends with the snake as it was and the session's report.
/// Otherwise the new head is put in front; on the food the snake keeps its
/// tail, the score and the food eaten rise by one, the speed follows the score
/// and the food moves to a free cell, if there is one; elsewhere the tail goes.
pub open spec fn stepped(pre: Game, post: Game, r: Tick) -> bool {
    let h = pre.next_head();
    if hits_body(pre.snake@, h) {
        &&& post == Game { is_game_over: true, ..pre }
        &&& match r {
            Tick::Ended(rep) => reports(rep, pre.stats, pre.score),
            _ => false,
        }
    } else if h == pre.food {
        &&& r is Moved
        &&& post.snake@ == seq![h] + pre.snake@
        &&& post.score == pre.score + 1
        &&& post.stats == GameStats { food_eaten: (pre.stats.food_eaten + 1) as u32, ..pre.stats }
        &&& post.speed_us == speed_for(post.score as nat)
        &&& post.direction == pre.direction
        &&& post.is_game_over == pre.is_game_over
        &&& post.last_update_us == pre.last_update_us
        &&& has_free_cell(post.snake@) ==> is_free(post.snake@, post.food)
        &&& !has_free_cell(post.snake@) ==> post.food == pre.food
    } else {
        &&& r is Moved
        &&& post.snake@ == (seq![h] + pre.snake@).drop_last()
        &&& post == Game { snake: post.snake, ..pre }
    }
}

/// `dt_us` microseconds pass from `pre` to `post`, reporting `r`. A game that
/// is over stays as it is. Otherwise the time gathers until it reaches the
/// speed; then it starts again from zero and one step is taken.
pub open spec fn ticked(pre: Game, post: Game, dt_us: u64, r: Tick) -> bool {
    let acc = pre.last_update_us + dt_us;
    if pre.is_game_over {
        r is Idle && post == pre
    } else if acc < pre.speed_us {
        r is Idle && post == Game { last_update_us: acc as u64, ..pre }
    } else {
        stepped(Game { last_update_us: 0, ..pre }, post, r)
    }
}

/// A new session that began at `start_ms`, with the snake on its starting cell.
pub open spec fn is_fresh(g: Game, start_ms: u64) -> bool {
    &&& g.wf()
    &&& g.snake@ == seq![Position { x: START_X, y: START_Y }]
    &&& g.direction == Direction::Right
    &&& !g.is_game_over
    &&& g.score == 0
    &&& g.speed_us == BASE_SPEED_US
    &&& g.last_update_us == 0
    &&& g.stats == GameStats::spec_started_at(start_ms)
}

impl Game {
    /// A new session that began at `start_ms`, with the food at `food`.
    pub fn with_start(start_ms: u64, food: Position) -> (r: Game)
        requires
            in_grid(food, GRID_SIZE as int),
        ensures
            is_fresh(r, start_ms),
            r.food == food,
    {
        let g = Game {
            snake: vec![Position { x: START_X, y: START_Y }],
            food,
            direction: Direction::Right,
            is_game_over: false,
            score: 0,
            speed_us: BASE_SPEED_US,
            last_update_us: 0,
            stats: GameStats::started_at(start_ms),
        };
        assert(g.snake@ =~= seq![Position { x: START_X, y: START_Y }]);
        g
    }

    /// A new session beginning now, with the food on a random cell.
    pub fn new() -> (r: Game)
        ensures
            is_fresh(r, r.stats.start_ms),
    {
        let x = random_below(GRID_SIZE);
        let y = random_below(GRID_SIZE);
        let stats = GameStats::new();
        Game::with_start(stats.start_ms, Position { x, y })
    }
    /// Moves the food to a cell that the snake does not cover, drawn at random
    /// until one is found, and reports whether there was such a cell. Should a
    /// long run of draws all land on the snake, the first free cell row by row
    /// is taken. Where the snake covers the whole grid the food stays.
    pub fn spawn_food(&mut self) -> (placed: bool)
        requires
            old(self).wf(),
        ensures
            *final(self) == (Game { food: final(self).food, ..*old(self) }),
            final(self).wf(),
            placed == has_free_cell(old(self).snake@),
            placed ==> is_free(old(self).snake@, final(self).food),
            !placed ==> final(self).food == old(self).food,
    {
        if self.snake.len() as u64 >= GRID_SIZE as u64 * GRID_SIZE as u64 {
            proof {
                if has_free_cell(self.snake@) {
                    let p = choose|p: Position| is_free(self.snake@, p);
                    let longer = self.snake@.push(p);
                    assert(longer.no_duplicates()) by {
                        assert forall|i: int| 0 <= i < self.snake@.len() implies longer[i] != p by {
                            assert(self.snake@.contains(self.snake@[i]));
                        }
                    }
                    assert(all_in_grid(longer)) by {
                        assert forall|i: int| 0 <= i < longer.len() implies in_grid(#[trigger] longer[i], GRID_SIZE as int) by {
                            if i < self.snake@.len() {
                                assert(in_grid(self.snake@[i], GRID_SIZE as int));
                            }
                        }
                    }
                    lemma_distinct_cells_bounded(longer);
                }
            }
            return false;
        }
        let mut draws: u64 = 0;
        while draws < MAX_FOOD_DRAWS
            invariant
                *self == *old(self),
                self.wf(),
            decreases MAX_FOOD_DRAWS - draws,
        {
            let c = Position { x: random_below(GRID_SIZE), y: random_below(GRID_SIZE) };
            if !occupies(&self.snake, c, 0) {
                assert(is_free(self.snake@, c));
                self.food = c;
                return true;
            }
            draws = draws + 1;
        }
        match first_free_cell(&self.snake) {
            Some(c) => {
                self.food = c;
                true
            },
            None => false,
        }
    }

    /// Takes one discrete step, as `stepped` describes.
    pub fn step(&mut self) -> (r: Tick)
        requires
            old(self).wf(),
        ensures
            final(self).wf(),
            stepped(*old(self), *final(self), r),
    {
        let ghost pre = *self;
        let h = self.snake[0].advance(self.direction, GRID_SIZE);
        if occupies(&self.snake, h, 1) {
            let rep = self.stats.report(self.score);
            self.is_game_over = true;
            return Tick::Ended(rep);
        }
        self.snake.insert(0, h);
        proof {
            let s = self.snake@;
            assert(s =~= seq![h] + pre.snake@);
            assert(h != pre.snake@[0]);
            assert(s.no_duplicates()) by {
                assert forall|i: int, j: int| 0 <= i < s.len() && 0 <= j < s.len() && i != j implies s[i] != s[j] by {
                    if i == 0 && j >= 2 {
                        assert(pre.snake@[j - 1] != h);
                    } else if j == 0 && i >= 2 {
                        assert(pre.snake@[i - 1] != h);
                    }
                }
            }
            assert(all_in_grid(s)) by {
                assert forall|i: int| 0 <= i < s.len() implies in_grid(#[trigger] s[i], GRID_SIZE as int) by {
                    if i > 0 {
                        assert(in_grid(pre.snake@[i - 1], GRID_SIZE as int));
                    }
                }
            }
            lemma_distinct_cells_bounded(s);
        }
        if h == self.food {
            self.score = self.score + 1;
            self.stats.record_food();
            self.speed_us = speed_for_score(self.score);
            self.spawn_food();
        } else {
            let ghost grown = self.snake@;
            self.snake.pop();
            proof {
                assert(self.snake@ =~= grown.drop_last());
                assert(self.snake@.no_duplicates()) by {
                    assert forall|i: int, j: int|
                        0 <= i < self.snake@.len() && 0 <= j < self.snake@.len() && i != j
                            implies self.snake@[i] != self.snake@[j] by {
                        assert(grown[i] != grown[j]);
                    }
                }
                assert(all_in_grid(self.snake@)) by {
                    assert forall|i: int| 0 <= i < self.snake@.len() implies in_grid(#[trigger] self.snake@[i], GRID_SIZE as int) by {
                        assert(in_grid(grown[i], GRID_SIZE as int));
                    }
                }
            }
        }
        Tick::Moved
    }
    /// Lets `dt_us` microseconds pass, as `ticked` describes.
    pub fn tick(&mut self, dt_us: u64) -> (r: Tick)
        requires
            old(self).wf(),
        ensures
            final(self).wf(),
            ticked(*old(self), *final(self), dt_us, r),
    {
        if self.is_game_over {
            return Tick::Idle;
        }
        // Once the sum passes the speed its exact value no longer matters.
        let acc = self.last_update_us.saturating_add(dt_us);
        if acc < self.speed_us {
            self.last_update_us = acc;
            return Tick::Idle;
        }
        self.last_update_us = 0;
        self.step()
    }

    /// Refreshes the time played from the system clock while the game runs,
    /// then lets `dt_us` microseconds pass, as `ticked` describes.
    pub fn update(&mut self, dt_us: u64) -> (r: Tick)
        requires
            old(self).wf(),
        ensures
            final(self).wf(),
            ticked(
                Game {
                    stats: GameStats { time_played_ms: final(self).stats.time_played_ms, ..old(self).stats },
                    ..*old(self)
                },
                *final(self),
                dt_us,
                r,
            ),
    {
        if self.is_game_over {
            return Tick::Idle;
        }
        self.stats.update();
        self.tick(dt_us)
    }

    /// Turns the snake towards `new_direction` and counts the turn, unless it
    /// would reverse onto itself, in which case nothing changes.
    pub fn change_direction(&mut self, new_direction: Direction)
        requires
            old(self).wf(),
        ensures
            final(self).wf(),
            new_direction == opposite_of(old(self).direction) ==> *final(self) == *old(self),
            opposite_of(new_direction) == old(self).direction ==> *final(self) == *old(self),
            opposite_of(new_direction) != old(self).direction ==> *final(self) == (Game {
                direction: new_direction,
                stats: with_turn(old(self).stats, new_direction),
                ..*old(self)
            }),
    {
        proof {
            crate::grid::lemma_opposite_involutive(old(self).direction);
        }
        if new_direction.opposite() != self.direction {
            self.stats.record_turn(new_direction);
            self.direction = new_direction;
        }
    }

    /// Ends the session and starts a new one: returns the report of the
    /// session that ends, with its score at this moment.
    pub fn reset(&mut self) -> (r: Report)
        ensures
            reports(r, old(self).stats, old(self).score),
            is_fresh(*final(self), final(self).stats.start_ms),
    {
        let report = self.stats.report(self.score);
        *self = Game::new();
        report
    }
}

/// The time between steps never drops below the minimum, and once the score is
/// high enough for the decrement to pass it, it is exactly the minimum.
pub proof fn lemma_speed_floor(score: nat)
    ensures
        speed_for(score) >= MIN_SPEED_US,
        BASE_SPEED_US - score * SPEED_DECREMENT_US < MIN_SPEED_US ==> speed_for(score) == MIN_SPEED_US,
{
}

/// A higher score never slows the game down.
pub proof fn lemma_speed_non_increasing(a: nat, b: nat)
    requires
        a <= b,
    ensures
        speed_for(b) <= speed_for(a),
{
    assert(a * SPEED_DECREMENT_US <= b * SPEED_DECREMENT_US) by (nonlinear_arith)
        requires
            a <= b,
    ;
}

/// A step that does not end the game and lands on the food makes the snake one
/// segment longer and raises the score and the food eaten by one; any other
/// such step leaves the length, the score and the food eaten as they were.
pub proof fn lemma_growth(pre: Game, post: Game, r: Tick)
    requires
        pre.wf(),
        stepped(pre, post, r),
        !hits_body(pre.snake@, pre.next_head()),
    ensures
        pre.next_head() == pre.food ==> {
            &&& post.snake@.len() == pre.snake@.len() + 1
            &&& post.score == pre.score + 1
            &&& post.stats.food_eaten == pre.stats.food_eaten + 1
        },
        pre.next_head() != pre.food ==> {
            &&& post.snake@.len() == pre.snake@.len()
            &&& post.score == pre.score
            &&& post.stats.food_eaten == pre.stats.food_eaten
        },
{
}

/// A step whose head lands on a segment behind the head ends the game and
/// leaves the snake exactly as it was.
pub proof fn lemma_self_collision(pre: Game, post: Game, r: Tick)
    requires
        pre.wf(),
        pre.snake@.len() >= 2,
        hits_body(pre.snake@, pre.next_head()),
        stepped(pre, post, r),
    ensures
        post.is_game_over,
        post.snake@ == pre.snake@,
        r is Ended,
{
}

/// Food moved by a step lies on no segment of the snake after the step,
/// whenever some cell is left free.
pub proof fn lemma_food_placement(pre: Game, post: Game, r: Tick)
    requires
        pre.wf(),
        stepped(pre, post, r),
        !hits_body(pre.snake@, pre.next_head()),
        pre.next_head() == pre.food,
        has_free_cell(post.snake@),
    ensures
        !post.snake@.contains(post.food),
        in_grid(post.food, GRID_SIZE as int),
{
}

} // verus!
