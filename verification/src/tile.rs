//! The kinds of tile, where each lies in the tileset image, and where a tile
//! is put on the canvas.

use vstd::prelude::*;
use crate::position::Position;
use crate::shadow::{Shadow, ShadowFlags};

verus! {

/// Width of a tile in pixels.
pub const TILE_WIDTH: u32 = 101;

/// Height of a tile in pixels.
pub const TILE_HEIGHT: u32 = 171;

/// Distance in pixels from the top of one row of tiles to the top of the next.
/// It is less than a tile's height: each row overlaps the one above it.
pub const TILE_EFFECTIVE_HEIGHT: u32 = 83;

/// How far above its cell's floor tile an object that stands on the floor is drawn.
pub const TILE_OFFSET: i32 = 40;

/// Represents a kind of tile.
#[derive(Clone, Copy, Debug, PartialEq, Eq, Structural)]
pub enum Tile {
    /// Standard floor tile
    Floor,
    /// Wall tile
    Wall,
    /// Rock tile
    Rock,
    /// Target square tile
    Square,
    /// Player tile
    Player,
    /// Shadow tile
    Shadow(ShadowFlags),
}

/// The cell of the tileset, column first, that holds the image of `shadow`.
pub open spec fn shadow_location(shadow: Shadow) -> (u32, u32) {
    match shadow {
        Shadow::NEdge => (4, 0),
        Shadow::SEdge => (5, 0),
        Shadow::EEdge => (0, 1),
        Shadow::WEdge => (1, 1),
        Shadow::NeCorner => (2, 1),
        Shadow::NwCorner => (3, 1),
        Shadow::SeCorner => (4, 1),
        Shadow::SwCorner => (5, 1),
    }
}

/// The pixel at which the floor tile of the cell at `pos` has its top-left corner.
pub open spec fn top_left(pos: Position) -> (int, int) {
    (TILE_WIDTH * pos.column, TILE_EFFECTIVE_HEIGHT * pos.row)
}

/// The pixel at which an object that stands on the cell at `pos` has its
/// top-left corner.
pub open spec fn elevated_top_left(pos: Position) -> (int, int) {
    (top_left(pos).0, top_left(pos).1 - TILE_OFFSET)
}

/// Whether both coordinates of a pixel can be held in an `i32`.
pub open spec fn is_pixel(point: (int, int)) -> bool {
    i32::MIN <= point.0 <= i32::MAX && i32::MIN <= point.1 <= i32::MAX
}

impl Tile {
    /// The cell of the tileset, column first, that holds the image of this
    /// tile. A shadow tile has an image where exactly one of its flags is
    /// raised, and no other tile lies in the same cell.
    pub open spec fn atlas_location(self) -> Option<(u32, u32)> {
        match self {
            Tile::Floor => Some((0u32, 0u32)),
            Tile::Wall => Some((0u32, 2u32)),
            Tile::Rock => Some((2u32, 0u32)),
            Tile::Square => Some((1u32, 0u32)),
            Tile::Player => Some((3u32, 0u32)),
            Tile::Shadow(flags) => match flags.sole() {
                Some(shadow) => Some(shadow_location(shadow)),
                None => None,
            },
        }
    }

    /// Returns the location of the tile in the tileset texture.
    pub fn location(&self) -> (cell: Option<(u32, u32)>)
        ensures
            cell == self.atlas_location(),
    {
        match *self {
            Tile::Floor => Some((0, 0)),
            Tile::Wall => Some((0, 2)),
            Tile::Rock => Some((2, 0)),
            Tile::Square => Some((1, 0)),
            Tile::Player => Some((3, 0)),
            Tile::Shadow(flags) => match flags.single() {
                Some(Shadow::NEdge) => Some((4, 0)),
                Some(Shadow::SEdge) => Some((5, 0)),
                Some(Shadow::EEdge) => Some((0, 1)),
                Some(Shadow::WEdge) => Some((1, 1)),
                Some(Shadow::NeCorner) => Some((2, 1)),
                Some(Shadow::NwCorner) => Some((3, 1)),
                Some(Shadow::SeCorner) => Some((4, 1)),
                Some(Shadow::SwCorner) => Some((5, 1)),
                None => None,
            },
        }
    }

    /// Returns the width of a tile.
    pub fn width() -> (w: u32)
        ensures
            w == TILE_WIDTH,
            w == 101,
    {
        TILE_WIDTH
    }

    /// Returns the height of a tile.
    pub fn height() -> (h: u32)
        ensures
            h == TILE_HEIGHT,
            h == 171,
    {
        TILE_HEIGHT
    }

    /// Returns the effective height of a tile (used for stacking)
    pub fn effective_height() -> (h: u32)
        ensures
            h == TILE_EFFECTIVE_HEIGHT,
            h == 83,
    {
        TILE_EFFECTIVE_HEIGHT
    }

    /// Returns the offset need to draw items on the floor.
    pub fn offset() -> (o: i32)
        ensures
            o == TILE_OFFSET,
            o == 40,
    {
        TILE_OFFSET
    }

    /// Returns the top-left corner coordinates of the tile corresponding
    /// to the given position.
    pub fn get_coordinates(pos: &Position) -> (corner: (i32, i32))
        requires
            is_pixel(top_left(*pos)),
        ensures
            corner.0 == top_left(*pos).0,
            corner.1 == top_left(*pos).1,
            corner.0 == 101 * pos.column,
            corner.1 == 83 * pos.row,
    {
        let x = Self::width() as i32 * pos.column();
        let y = Self::effective_height() as i32 * pos.row();
        (x, y)
    }

    /// Returns the top-left corner coordinates of an object that stands on
    /// the floor at the given position: as far above the floor tile's corner
    /// as the offset says.
    pub fn get_elevated_coordinates(pos: &Position) -> (corner: (i32, i32))
        requires
            is_pixel(top_left(*pos)),
            is_pixel(elevated_top_left(*pos)),
        ensures
            corner.0 == elevated_top_left(*pos).0,
            corner.1 == elevated_top_left(*pos).1,
            corner.0 == 101 * pos.column,
            corner.1 == 83 * pos.row - 40,
    {
        let (x, y) = Self::get_coordinates(pos);
        (x, y - Self::offset())
    }
}

/// No two tiles share a cell of the tileset.
pub proof fn lemma_location_is_one_to_one(a: Tile, b: Tile)
    requires
        a.atlas_location() is Some,
        a.atlas_location() == b.atlas_location(),
    ensures
        a == b,
{
    if let Tile::Shadow(flags_a) = a {
        if let Tile::Shadow(flags_b) = b {
            let shadow_a = flags_a.sole()->0;
            let shadow_b = flags_b.sole()->0;
            assert(shadow_a == shadow_b);
            flags_a.lemma_sole(shadow_a);
            flags_b.lemma_sole(shadow_b);
        }
    }
}

/// A shadow tile has an image exactly where one flag is raised and no other,
/// and then it is the image of that flag's overlay.
pub proof fn lemma_shadow_location(flags: ShadowFlags, shadow: Shadow)
    ensures
        Tile::Shadow(flags).atlas_location() is Some <==> exists|one: Shadow|
            flags == ShadowFlags::just(one),
        Tile::Shadow(ShadowFlags::just(shadow)).atlas_location() == Some(shadow_location(shadow)),
        Tile::Shadow(flags).atlas_location() == Some(shadow_location(shadow)) <==> flags@ == set![
            shadow,
        ],
{
    ShadowFlags::just(shadow).lemma_sole(shadow);
    flags.lemma_sole(shadow);
    if Tile::Shadow(flags).atlas_location() == Some(shadow_location(shadow)) {
        lemma_location_is_one_to_one(Tile::Shadow(flags), Tile::Shadow(ShadowFlags::just(shadow)));
    }
}

} // verus!
