use crate::food::{cell_of, placed, Food};
use crate::snake::{bitten, hits_wall, walked, Snake, SnakeView};
use vstd::prelude::*;

verus! {

/// Number of columns of the arena's grid: `GAME_WIDTH / FOOD_WIDTH`.
pub const GRID_COLUMNS: u16 = 40;

/// Number of rows of the arena's grid: `GAME_HEIGHT / FOOD_HEIGHT`.
pub const GRID_ROWS: u16 = 40;

/// Points awarded for each pellet eaten.
pub const SCORE_PER_FOOD: u32 = 100;

/// The grid cell with row-major index `i`.
pub open spec fn grid_cell(i: int) -> (u16, u16) {
    ((i % GRID_COLUMNS as int) as u16, (i / GRID_COLUMNS as int) as u16)
}

/// The cells among the first `n` of the grid, in row-major order, that no
/// segment of `body` covers.
pub open spec fn free_prefix(body: Seq<(u16, u16)>, n: nat) -> Seq<(u16, u16)>
    decreases n,
{
    if n == 0 {
        seq![]
    } else {
        let rest = free_prefix(body, (n - 1) as nat);
        let c = grid_cell(n - 1);
        if body.contains(c) {
            rest
        } else {
            rest.push(c)
        }
    }
}

/// The cells of the grid, in row-major order, that no segment of `body` covers.
pub open spec fn free_grid(body: Seq<(u16, u16)>) -> Seq<(u16, u16)> {
    free_prefix(body, (GRID_COLUMNS * GRID_ROWS) as nat)
}

/// The free cell that `draw` picks: the free cells in row-major order,
/// indexed by `draw` modulo their number.
pub open spec fn chosen_cell(body: Seq<(u16, u16)>, draw: u64) -> (u16, u16) {
    free_grid(body)[(draw as int) % (free_grid(body).len() as int)]
}

/// The food value placed at cell `c`.
pub open spec fn placed_at(c: (u16, u16)) -> (Option<u16>, Option<u16>) {
    (Some(c.0), Some(c.1))
}

/// The score after one more pellet, held at `u32::MAX` once it gets there.
pub open spec fn scored(s: u32) -> u32 {
    if s + SCORE_PER_FOOD > u32::MAX {
        u32::MAX
    } else {
        (s + SCORE_PER_FOOD) as u32
    }
}

proof fn lemma_free_prefix(body: Seq<(u16, u16)>, n: nat)
    requires
        n <= GRID_COLUMNS * GRID_ROWS,
    ensures
        forall|k: int|
            0 <= k < free_prefix(body, n).len() ==> {
                let c = #[trigger] free_prefix(body, n)[k];
                &&& !body.contains(c)
                &&& c.0 < GRID_COLUMNS
                &&& c.1 < GRID_ROWS
            },
    decreases n,
{
    if n > 0 {
        lemma_free_prefix(body, (n - 1) as nat);
        let rest = free_prefix(body, (n - 1) as nat);
        assert forall|k: int| 0 <= k < free_prefix(body, n).len() implies {
            let c = #[trigger] free_prefix(body, n)[k];
            &&& !body.contains(c)
            &&& c.0 < GRID_COLUMNS
            &&& c.1 < GRID_ROWS
        } by {
            if k < rest.len() {
                assert(free_prefix(body, n)[k] == rest[k]);
            }
        }
    }
}

/// Every cell that the spawn policy can choose lies on the grid and under no
/// segment of the snake, whatever the draw.
pub proof fn lemma_spawn_avoids_body(body: Seq<(u16, u16)>, draw: u64)
    requires
        free_grid(body).len() > 0,
    ensures
        ({
            let c = chosen_cell(body, draw);
            &&& !body.contains(c)
            &&& c.0 < GRID_COLUMNS
            &&& c.1 < GRID_ROWS
        }),
{
    lemma_free_prefix(body, (GRID_COLUMNS * GRID_ROWS) as nat);
    let k = (draw as int) % (free_grid(body).len() as int);
    assert(chosen_cell(body, draw) == free_prefix(body, (GRID_COLUMNS * GRID_ROWS) as nat)[k]);
}

/// The cells of the grid, in row-major order, that no segment of the snake
/// covers.
pub fn free_cells(snake: &Snake) -> (r: Vec<(u16, u16)>)
    requires
        snake.wf(),
    ensures
        r@ == free_grid(snake@.body),
{
    let mut r: Vec<(u16, u16)> = Vec::new();
    let mut i: u16 = 0;
    while i < GRID_COLUMNS * GRID_ROWS
        invariant
            i <= GRID_COLUMNS * GRID_ROWS,
            snake.wf(),
            r@ == free_prefix(snake@.body, i as nat),
        decreases GRID_COLUMNS * GRID_ROWS - i,
    {
        let c = (i % GRID_COLUMNS, i / GRID_COLUMNS);
        assert(c == grid_cell(i as int));
        if !snake.occupies(c.0, c.1) {
            r.push(c);
        }
        i += 1;
    }
    r
}

/// Moves `food` to a free cell: the free cells are taken in row-major order
/// and `draw`, reduced modulo their number, picks one. Returns false and
/// leaves `food` as it was when the snake covers every cell.
pub fn place_food(food: &mut Food, snake: &Snake, draw: u64) -> (r: bool)
    requires
        snake.wf(),
    ensures
        r == (free_grid(snake@.body).len() > 0),
        r ==> final(food)@ == placed_at(chosen_cell(snake@.body, draw)),
        r ==> !snake@.body.contains(cell_of(final(food)@)),
        !r ==> final(food)@ == old(food)@,
{
    let free = free_cells(snake);
    if free.len() == 0 {
        return false;
    }
    let k = (draw % free.len() as u64) as usize;
    let c = free[k];
    food.set_x(c.0);
    food.set_y(c.1);
    proof {
        lemma_spawn_avoids_body(snake@.body, draw);
    }
    true
}

pub assume_specification<T>[ rand::random::<T> ]() -> (r: T)
    where
        rand::distributions::Standard: rand::distributions::Distribution<T>,
;

/// Moves `food` to a free cell drawn at random. Returns false and leaves
/// `food` as it was when the snake covers every cell.
pub fn respawn_food(food: &mut Food, snake: &Snake) -> (r: bool)
    requires
        snake.wf(),
    ensures
        r == (free_grid(snake@.body).len() > 0),
        r ==> placed(final(food)@) && free_grid(snake@.body).contains(cell_of(final(food)@)),
        r ==> !snake@.body.contains(cell_of(final(food)@)),
        !r ==> final(food)@ == old(food)@,
{
    let draw: u64 = rand::random::<u64>();
    let r = place_food(food, snake, draw);
    proof {
        if r {
            let free = free_grid(snake@.body);
            let k = (draw as int) % (free.len() as int);
            assert(free[k] == cell_of(final(food)@));
        }
    }
    r
}

/// The score after a tick in which the snake did or did not eat.
pub open spec fn score_after(s: u32, ate: bool) -> u32 {
    if ate {
        scored(s)
    } else {
        s
    }
}

/// True when the tick ends the game: the head is at a wall or on the body.
pub open spec fn game_over(v: SnakeView) -> bool {
    hits_wall(v.body[0]) || bitten(v.body)
}

/// True when the head lies on the food's cell.
pub open spec fn eats(v: SnakeView, food: (Option<u16>, Option<u16>)) -> bool {
    food == placed_at(v.body[0])
}

/// The snake after a tick that did not end the game.
pub open spec fn moved(v: SnakeView, ate: bool) -> SnakeView {
    SnakeView { body: walked(v.body, v.direction, v.accelerate, ate), ..v }
}

fn add_points(score: &mut u32)
    ensures
        *final(score) == scored(*old(score)),
{
    if *score <= u32::MAX - SCORE_PER_FOOD {
        *score = *score + SCORE_PER_FOOD;
    } else {
        *score = u32::MAX;
    }
}

/// One tick of a single-player game. Returns true, changing nothing, when
/// the snake is at a wall or has bitten itself. Otherwise the snake steps,
/// growing when its head was on the food; in that case the score rises by
/// `SCORE_PER_FOOD` and the food moves to the free cell that `draw` picks
/// (it stays where it was if no cell is free).
pub fn single_player_step(snake: &mut Snake, food: &mut Food, score: &mut u32, draw: u64) -> (over:
    bool)
    requires
        old(snake).wf(),
    ensures
        final(snake).wf(),
        over == game_over(old(snake)@),
        over ==> final(snake)@ == old(snake)@ && final(food)@ == old(food)@ && *final(score)
            == *old(score),
        !over ==> ({
            let ate = eats(old(snake)@, old(food)@);
            &&& final(snake)@ == moved(old(snake)@, ate)
            &&& *final(score) == score_after(*old(score), ate)
            &&& final(food)@ == if ate && free_grid(final(snake)@.body).len() > 0 {
                placed_at(chosen_cell(final(snake)@.body, draw))
            } else {
                old(food)@
            }
        }),
{
    if snake.has_collided_with_any_wall() || snake.ate_itself() {
        return true;
    }
    if snake.can_eat(food) {
        snake.walk(true);
        add_points(score);
        place_food(food, snake, draw);
    } else {
        snake.walk(false);
    }
    false
}

/// One tick of a single-player game, as `single_player_step` does it, with
/// the food's new cell drawn at random among the free cells.
pub fn single_player_game(snake: &mut Snake, food: &mut Food, score: &mut u32) -> (over: bool)
    requires
        old(snake).wf(),
    ensures
        final(snake).wf(),
        over == game_over(old(snake)@),
        over ==> final(snake)@ == old(snake)@ && final(food)@ == old(food)@ && *final(score)
            == *old(score),
        !over ==> ({
            let ate = eats(old(snake)@, old(food)@);
            &&& final(snake)@ == moved(old(snake)@, ate)
            &&& *final(score) == score_after(*old(score), ate)
            &&& if ate && free_grid(final(snake)@.body).len() > 0 {
                &&& placed(final(food)@)
                &&& free_grid(final(snake)@.body).contains(cell_of(final(food)@))
                &&& !final(snake)@.body.contains(cell_of(final(food)@))
            } else {
                final(food)@ == old(food)@
            }
        }),
{
    let draw: u64 = rand::random::<u64>();
    let over = single_player_step(snake, food, score, draw);
    proof {
        if !over && eats(old(snake)@, old(food)@) && free_grid(snake@.body).len() > 0 {
            let body = snake@.body;
            lemma_spawn_avoids_body(body, draw);
            let n = (draw as int) % (free_grid(body).len() as int);
            assert(free_grid(body)[n] == cell_of(food@));
        }
    }
    over
}

} // verus!
