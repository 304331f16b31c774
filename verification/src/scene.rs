//! What a drawn level consists of: the tiles copied onto the canvas, in the
//! order in which they are copied.

use vstd::prelude::*;
use crate::level::Level;
use crate::position::Position;
use crate::rect::Rect;
use crate::shadow::{shadow_mask, Shadow, ShadowFlags};
use crate::tile::{elevated_top_left, top_left, Tile, TILE_HEIGHT, TILE_WIDTH};

verus! {

/// One tile copied from the tileset onto the canvas.
#[derive(Clone, Copy, Debug, PartialEq, Eq, Structural)]
pub struct Blit {
    /// The tile that is copied.
    pub tile: Tile,
    /// Where its image lies in the tileset.
    pub source: Rect,
    /// Where it is put on the canvas.
    pub target: Rect,
}

/// The rectangle of the tileset's cell `cell`, column first.
pub open spec fn tile_rect(cell: (u32, u32)) -> Rect {
    Rect {
        x: (cell.0 * TILE_WIDTH) as i32,
        y: (cell.1 * TILE_HEIGHT) as i32,
        width: TILE_WIDTH,
        height: TILE_HEIGHT,
    }
}

/// The copy of `tile` to the place on the canvas whose top-left corner is `corner`.
pub open spec fn blit(tile: Tile, corner: (int, int)) -> Blit {
    Blit {
        tile,
        source: tile_rect(tile.atlas_location()->0),
        target: Rect {
            x: corner.0 as i32,
            y: corner.1 as i32,
            width: TILE_WIDTH,
            height: TILE_HEIGHT,
        },
    }
}

/// The ground of the cell at `pos`: a target square where the cell is one,
/// plain floor elsewhere.
pub open spec fn ground_tile(level: Level, pos: Position) -> Tile {
    if level.square_at(pos) {
        Tile::Square
    } else {
        Tile::Floor
    }
}

/// The copies that lay the first `count` of the eight overlays, in their
/// order, over the tile at `corner`: one for each whose flag is raised.
pub open spec fn shadow_blits(flags: ShadowFlags, corner: (int, int), count: int) -> Seq<Blit>
    decreases count,
{
    if count <= 0 {
        Seq::empty()
    } else {
        let shadow = Shadow::in_order()[count - 1];
        let below = shadow_blits(flags, corner, count - 1);
        if flags.raised(shadow) {
            below.push(blit(Tile::Shadow(ShadowFlags::just(shadow)), corner))
        } else {
            below
        }
    }
}

/// The copies that put on the cell at `pos` what stands there: a wall, then
/// a box, then the player, each only where the cell holds it.
pub open spec fn object_blits(level: Level, pos: Position) -> Seq<Blit> {
    let corner = elevated_top_left(pos);
    let wall = if level.wall_at(pos) {
        seq![blit(Tile::Wall, corner)]
    } else {
        Seq::empty()
    };
    let rock = if level.box_at(pos) {
        seq![blit(Tile::Rock, corner)]
    } else {
        Seq::empty()
    };
    let player = if level.player_at(pos) {
        seq![blit(Tile::Player, corner)]
    } else {
        Seq::empty()
    };
    wall + rock + player
}

/// The copies that draw the cell at `pos`: its ground, the shadows on it, and
/// on top what stands there.
pub open spec fn cell_blits(level: Level, pos: Position) -> Seq<Blit> {
    seq![blit(ground_tile(level, pos), top_left(pos))] + shadow_blits(
        shadow_mask(level, pos),
        top_left(pos),
        8,
    ) + object_blits(level, pos)
}

/// The copies that draw the first `count` cells of the row `row`, from the left.
pub open spec fn row_blits(level: Level, row: int, count: int) -> Seq<Blit>
    decreases count,
{
    if count <= 0 {
        Seq::empty()
    } else {
        row_blits(level, row, count - 1) + cell_blits(level, Position::at(row, count - 1))
    }
}

/// The copies that draw the first `count` rows, from the top.
pub open spec fn rows_blits(level: Level, count: int) -> Seq<Blit>
    decreases count,
{
    if count <= 0 {
        Seq::empty()
    } else {
        rows_blits(level, count - 1) + row_blits(level, count - 1, level.columns())
    }
}

/// The copies that draw the whole level: row after row from the top, and in
/// each row cell after cell from the left.
pub open spec fn scene(level: Level) -> Seq<Blit> {
    rows_blits(level, level.rows())
}

/// Whether `copy` can be made: its tile has an image in the tileset, it is
/// copied from the place of that image, and it covers one tile's size on the
/// canvas.
pub open spec fn drawable(copy: Blit) -> bool {
    &&& copy.tile.atlas_location() is Some
    &&& copy.source == tile_rect(copy.tile.atlas_location()->0)
    &&& copy.target.width == TILE_WIDTH
    &&& copy.target.height == TILE_HEIGHT
}

/// Whether every copy of `copies` can be made.
pub open spec fn all_drawable(copies: Seq<Blit>) -> bool {
    forall|i: int| 0 <= i < copies.len() ==> drawable(#[trigger] copies[i])
}

/// Every shadow laid over a tile has one flag raised, and so an image.
proof fn lemma_shadow_blits_drawable(flags: ShadowFlags, corner: (int, int), count: int)
    requires
        count <= 8,
    ensures
        all_drawable(shadow_blits(flags, corner, count)),
    decreases count,
{
    if count > 0 {
        lemma_shadow_blits_drawable(flags, corner, count - 1);
        let shadow = Shadow::in_order()[count - 1];
        ShadowFlags::just(shadow).lemma_sole(shadow);
    }
}

/// Every copy that draws a cell can be made.
proof fn lemma_cell_blits_drawable(level: Level, pos: Position)
    ensures
        all_drawable(cell_blits(level, pos)),
{
    lemma_shadow_blits_drawable(shadow_mask(level, pos), top_left(pos), 8);
}

/// Every copy that draws the start of a row can be made.
proof fn lemma_row_blits_drawable(level: Level, row: int, count: int)
    ensures
        all_drawable(row_blits(level, row, count)),
    decreases count,
{
    if count > 0 {
        lemma_row_blits_drawable(level, row, count - 1);
        lemma_cell_blits_drawable(level, Position::at(row, count - 1));
    }
}

/// Every copy that draws the first rows can be made.
proof fn lemma_rows_blits_drawable(level: Level, count: int)
    ensures
        all_drawable(rows_blits(level, count)),
    decreases count,
{
    if count > 0 {
        lemma_rows_blits_drawable(level, count - 1);
        lemma_row_blits_drawable(level, count - 1, level.columns());
    }
}

/// Drawing a level never asks for a tile that has no image: every copy of
/// the scene takes a tile from its own place in the tileset. In particular no
/// shadow is ever drawn with more than one flag raised, or with none.
pub proof fn lemma_scene_is_drawable(level: Level)
    ensures
        all_drawable(scene(level)),
{
    lemma_rows_blits_drawable(level, level.rows());
}

} // verus!
