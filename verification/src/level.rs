//! The level: a grid of cells with walls, boxes, target squares and a player.

use vstd::prelude::*;
use crate::position::Position;

verus! {

/// A level of the puzzle.
///
/// Its extents are never negative. Nothing stands beside the grid: every
/// question about a position outside it is answered with `false`.
pub struct Level {
    columns: i32,
    rows: i32,
    walls: Vec<Position>,
    boxes: Vec<Position>,
    squares: Vec<Position>,
    player: Option<Position>,
}

/// Whether `pos` occurs in `list`.
fn listed(list: &Vec<Position>, pos: Position) -> (found: bool)
    ensures
        found == list@.contains(pos),
{
    let mut i: usize = 0;
    while i < list.len()
        invariant
            i <= list.len(),
            forall|j: int| 0 <= j < i ==> list@[j] != pos,
        decreases list.len() - i,
    {
        if list[i] == pos {
            return true;
        }
        i += 1;
    }
    false
}

impl Level {
    #[verifier::type_invariant]
    pub closed spec fn well_formed(self) -> bool {
        self.columns >= 0 && self.rows >= 0
    }

    /// The number of columns of the grid.
    pub closed spec fn columns(self) -> int {
        self.columns as int
    }

    /// The number of rows of the grid.
    pub closed spec fn rows(self) -> int {
        self.rows as int
    }

    /// The positions that were given a wall.
    pub closed spec fn walls(self) -> Set<Position> {
        self.walls@.to_set()
    }

    /// The positions that were given a box.
    pub closed spec fn boxes(self) -> Set<Position> {
        self.boxes@.to_set()
    }

    /// The positions that were made target squares.
    pub closed spec fn squares(self) -> Set<Position> {
        self.squares@.to_set()
    }

    /// Where the player was put, if anywhere.
    pub closed spec fn player(self) -> Option<Position> {
        self.player
    }

    /// Whether `pos` is a cell of the grid.
    pub open spec fn contains(self, pos: Position) -> bool {
        0 <= pos.row < self.rows() && 0 <= pos.column < self.columns()
    }

    /// Whether the cell at `pos` is a wall. Beside the grid there are no walls.
    pub open spec fn wall_at(self, pos: Position) -> bool {
        self.contains(pos) && self.walls().contains(pos)
    }

    /// Whether the cell at `pos` holds a box.
    pub open spec fn box_at(self, pos: Position) -> bool {
        self.contains(pos) && self.boxes().contains(pos)
    }

    /// Whether the cell at `pos` is a target square.
    pub open spec fn square_at(self, pos: Position) -> bool {
        self.contains(pos) && self.squares().contains(pos)
    }

    /// Whether the player stands on the cell at `pos`.
    pub open spec fn player_at(self, pos: Position) -> bool {
        self.contains(pos) && self.player() == Some(pos)
    }

    /// An empty level of the given extents, or nothing where one of them is negative.
    pub fn new(columns: i32, rows: i32) -> (level: Option<Level>)
        ensures
            level is Some <==> columns >= 0 && rows >= 0,
            level matches Some(l) ==> {
                &&& l.columns() == columns
                &&& l.rows() == rows
                &&& l.walls() == Set::<Position>::empty()
                &&& l.boxes() == Set::<Position>::empty()
                &&& l.squares() == Set::<Position>::empty()
                &&& l.player() == None::<Position>
            },
    {
        if columns < 0 || rows < 0 {
            return None;
        }
        let level = Level {
            columns,
            rows,
            walls: Vec::new(),
            boxes: Vec::new(),
            squares: Vec::new(),
            player: None,
        };
        assert(level.walls@.to_set() =~= Set::<Position>::empty());
        assert(level.boxes@.to_set() =~= Set::<Position>::empty());
        assert(level.squares@.to_set() =~= Set::<Position>::empty());
        Some(level)
    }

    /// The extents of the grid: columns first, then rows.
    pub fn extents(&self) -> (size: (i32, i32))
        ensures
            size.0 == self.columns(),
            size.1 == self.rows(),
            size.0 >= 0,
            size.1 >= 0,
    {
        proof {
            use_type_invariant(self);
        }
        (self.columns, self.rows)
    }

    /// The same level with a wall at `pos`.
    pub fn with_wall(self, pos: Position) -> (level: Level)
        ensures
            level.walls() == self.walls().insert(pos),
            level.columns() == self.columns(),
            level.rows() == self.rows(),
            level.boxes() == self.boxes(),
            level.squares() == self.squares(),
            level.player() == self.player(),
    {
        proof {
            use_type_invariant(&self);
            self.walls@.lemma_push_to_set_commute(pos);
        }
        let Level { columns, rows, mut walls, boxes, squares, player } = self;
        walls.push(pos);
        Level { columns, rows, walls, boxes, squares, player }
    }

    /// The same level with a box at `pos`.
    pub fn with_box(self, pos: Position) -> (level: Level)
        ensures
            level.boxes() == self.boxes().insert(pos),
            level.columns() == self.columns(),
            level.rows() == self.rows(),
            level.walls() == self.walls(),
            level.squares() == self.squares(),
            level.player() == self.player(),
    {
        proof {
            use_type_invariant(&self);
            self.boxes@.lemma_push_to_set_commute(pos);
        }
        let Level { columns, rows, walls, mut boxes, squares, player } = self;
        boxes.push(pos);
        Level { columns, rows, walls, boxes, squares, player }
    }

    /// The same level with a target square at `pos`.
    pub fn with_square(self, pos: Position) -> (level: Level)
        ensures
            level.squares() == self.squares().insert(pos),
            level.columns() == self.columns(),
            level.rows() == self.rows(),
            level.walls() == self.walls(),
            level.boxes() == self.boxes(),
            level.player() == self.player(),
    {
        proof {
            use_type_invariant(&self);
            self.squares@.lemma_push_to_set_commute(pos);
        }
        let Level { columns, rows, walls, boxes, mut squares, player } = self;
        squares.push(pos);
        Level { columns, rows, walls, boxes, squares, player }
    }

    /// The same level with the player at `pos`, and nowhere else.
    pub fn with_player(self, pos: Position) -> (level: Level)
        ensures
            level.player() == Some(pos),
            level.columns() == self.columns(),
            level.rows() == self.rows(),
            level.walls() == self.walls(),
            level.boxes() == self.boxes(),
            level.squares() == self.squares(),
    {
        proof {
            use_type_invariant(&self);
        }
        let Level { columns, rows, walls, boxes, squares, player: _ } = self;
        Level { columns, rows, walls, boxes, squares, player: Some(pos) }
    }

    /// Whether the cell at `pos` is a wall. Beside the grid there are no walls.
    pub fn is_wall(&self, pos: &Position) -> (wall: bool)
        ensures
            wall == self.wall_at(*pos),
    {
        self.covers(pos) && listed(&self.walls, *pos)
    }

    /// Whether the cell at `pos` holds a box.
    pub fn is_box(&self, pos: &Position) -> (found: bool)
        ensures
            found == self.box_at(*pos),
    {
        self.covers(pos) && listed(&self.boxes, *pos)
    }

    /// Whether the cell at `pos` is a target square.
    pub fn is_square(&self, pos: &Position) -> (square: bool)
        ensures
            square == self.square_at(*pos),
    {
        self.covers(pos) && listed(&self.squares, *pos)
    }

    /// Whether the player stands on the cell at `pos`.
    pub fn is_player(&self, pos: &Position) -> (here: bool)
        ensures
            here == self.player_at(*pos),
    {
        self.covers(pos) && match self.player {
            Some(p) => p == *pos,
            None => false,
        }
    }

    /// Whether `pos` is a cell of the grid.
    pub fn covers(&self, pos: &Position) -> (inside: bool)
        ensures
            inside == self.contains(*pos),
    {
        0 <= pos.row && pos.row < self.rows && 0 <= pos.column && pos.column < self.columns
    }
}

} // verus!
