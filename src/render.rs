use vstd::prelude::*;
use crate::game::Game;
use crate::grid::{Arena, Coords};

verus! {

/// What a drawn cell shows.
#[derive(Clone, Copy, Debug, PartialEq, Eq, Structural)]
pub enum Glyph {
    Snake,
    Food,
}

/// One cell to draw.
#[derive(Clone, Copy, Debug, PartialEq, Eq, Structural)]
pub struct Sprite {
    pub at: Coords,
    pub glyph: Glyph,
}

/// The cells of the playing scene: each snake segment from the head on,
/// then the food.
pub open spec fn scene_spec(snake: Seq<Coords>, food: Coords) -> Seq<Sprite> {
    snake.map_values(|c: Coords| Sprite { at: c, glyph: Glyph::Snake }).push(
        Sprite { at: food, glyph: Glyph::Food },
    )
}

/// The cells to draw for the playing scene, below the status line.
pub fn scene_sprites(game: &Game) -> (r: Vec<Sprite>)
    ensures
        r@ == scene_spec(game.snake@, game.food),
{
    let mut r: Vec<Sprite> = Vec::new();
    let mut i: usize = 0;
    while i < game.snake.len()
        invariant
            i <= game.snake@.len(),
            r@ == game.snake@.subrange(0, i as int).map_values(
                |c: Coords| Sprite { at: c, glyph: Glyph::Snake },
            ),
        decreases game.snake@.len() - i,
    {
        r.push(Sprite { at: game.snake[i], glyph: Glyph::Snake });
        i = i + 1;
        assert(r@ =~= game.snake@.subrange(0, i as int).map_values(
            |c: Coords| Sprite { at: c, glyph: Glyph::Snake },
        ));
    }
    assert(game.snake@.subrange(0, i as int) =~= game.snake@);
    r.push(Sprite { at: game.food, glyph: Glyph::Food });
    r
}

/// Where a line of `text_len` characters starts so that it sits centred on
/// the field; a line wider than the field starts at column 0.
pub open spec fn centred_spec(arena: Arena, text_len: usize) -> Coords {
    Coords {
        x: if text_len / 2 <= arena.width / 2 {
            (arena.width / 2 - text_len / 2) as usize
        } else {
            0
        },
        y: (arena.height / 2) as usize,
    }
}

/// The starting cell of the centred end-of-game line.
pub fn end_screen_origin(arena: &Arena, text_len: usize) -> (r: Coords)
    ensures
        r == centred_spec(*arena, text_len),
{
    let half = text_len / 2;
    let x = if half <= arena.width / 2 {
        arena.width / 2 - half
    } else {
        0
    };
    Coords { x, y: arena.height / 2 }
}

} // verus!
