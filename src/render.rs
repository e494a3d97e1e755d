use vstd::prelude::*;

use crate::bird::Bird;
use crate::config::{GAME_HEIGHT, GAME_WIDTH};
use crate::game::{Game, GameView};
use crate::obstacle::{Obstacle, ObstacleType};

verus! {

/// The glyph of the ground row.
pub const GROUND_GLYPH: char = '=';

/// The glyph of an empty cell.
pub const EMPTY_GLYPH: char = ' ';

/// The glyph of the bird (a baby chick).
pub const BIRD_GLYPH: char = '\u{1F424}';

/// The glyph drawn across an obstacle of type `t`.
pub open spec fn glyph_of(t: ObstacleType) -> char {
    match t {
        ObstacleType::Tree => '\u{1F332}',
        ObstacleType::Rock => '\u{25C6}',
        ObstacleType::Cloud => '\u{2601}',
    }
}

/// Obstacle `o` occupies the cell at `row`, `col`.
pub open spec fn covers(o: Obstacle, row: int, col: int) -> bool {
    o.y == row && o.x <= col < o.x + o.width
}

/// The cell at `row`, `col` with the obstacles `obs` drawn over `under` in
/// their order, so that the last one covering the cell shows.
pub open spec fn painted(obs: Seq<Obstacle>, row: int, col: int, under: char) -> char
    decreases obs.len(),
{
    if obs.len() == 0 {
        under
    } else if covers(obs.last(), row, col) {
        glyph_of(obs.last().obstacle_type)
    } else {
        painted(obs.drop_last(), row, col, under)
    }
}

/// The cell at `row`, `col` before obstacles are drawn: the bird over the
/// ground line over an empty field.
pub open spec fn background(bird: Bird, row: int, col: int) -> char {
    if row == bird.y && col == bird.x {
        BIRD_GLYPH
    } else if row == GAME_HEIGHT - 1 {
        GROUND_GLYPH
    } else {
        EMPTY_GLYPH
    }
}

/// The glyph shown at `row`, `col` of the field for game `g`.
pub open spec fn cell(g: GameView, row: int, col: int) -> char {
    painted(g.obstacles, row, col, background(g.bird, row, col))
}

/// The glyph drawn across an obstacle of type `t`.
pub fn obstacle_glyph(t: ObstacleType) -> (r: char)
    ensures
        r == glyph_of(t),
{
    match t {
        ObstacleType::Tree => '\u{1F332}',
        ObstacleType::Rock => '\u{25C6}',
        ObstacleType::Cloud => '\u{2601}',
    }
}

/// The glyph shown at `row`, `col` of the field.
pub fn cell_glyph(game: &Game, row: u16, col: u16) -> (r: char)
    ensures
        r == cell(game@, row as int, col as int),
{
    let under = if row == game.bird.y && col == game.bird.x {
        BIRD_GLYPH
    } else if row == GAME_HEIGHT - 1 {
        GROUND_GLYPH
    } else {
        EMPTY_GLYPH
    };
    let obs = &game.obstacles;
    let mut j: usize = obs.len();
    assert(obs@.take(j as int) =~= obs@);
    while j > 0
        invariant
            j <= obs@.len(),
            under == background(game.bird, row as int, col as int),
            cell(game@, row as int, col as int) == painted(
                obs@.take(j as int),
                row as int,
                col as int,
                under,
            ),
        decreases j,
    {
        let o = obs[j - 1];
        assert(obs@.take(j as int).drop_last() =~= obs@.take(j - 1));
        if o.y == row && (o.x as u32) <= (col as u32) && (col as u32) < (o.x as u32) + (
        o.width as u32) {
            return obstacle_glyph(o.obstacle_type);
        }
        j = j - 1;
    }
    under
}

/// The field as rows of glyphs, top row first: `GAME_HEIGHT` rows of
/// `GAME_WIDTH` cells, cell by cell as `cell` gives them.
pub fn game_grid(game: &Game) -> (r: Vec<Vec<char>>)
    ensures
        r@.len() == GAME_HEIGHT,
        forall|i: int| 0 <= i < GAME_HEIGHT ==> (#[trigger] r@[i])@.len() == GAME_WIDTH,
        forall|i: int, j: int|
            0 <= i < GAME_HEIGHT && 0 <= j < GAME_WIDTH ==> #[trigger] r@[i]@[j] == cell(
                game@,
                i,
                j,
            ),
{
    let mut grid: Vec<Vec<char>> = Vec::new();
    let mut row: u16 = 0;
    while row < GAME_HEIGHT
        invariant
            row <= GAME_HEIGHT,
            grid@.len() == row,
            forall|i: int| 0 <= i < row ==> (#[trigger] grid@[i])@.len() == GAME_WIDTH,
            forall|i: int, j: int|
                0 <= i < row && 0 <= j < GAME_WIDTH ==> #[trigger] grid@[i]@[j] == cell(
                    game@,
                    i,
                    j,
                ),
        decreases GAME_HEIGHT - row,
    {
        let mut line: Vec<char> = Vec::new();
        let mut col: u16 = 0;
        while col < GAME_WIDTH
            invariant
                col <= GAME_WIDTH,
                row < GAME_HEIGHT,
                line@.len() == col,
                forall|j: int| 0 <= j < col ==> #[trigger] line@[j] == cell(game@, row as int, j),
            decreases GAME_WIDTH - col,
        {
            line.push(cell_glyph(game, row, col));
            col = col + 1;
        }
        grid.push(line);
        row = row + 1;
    }
    grid
}

} // verus!
