//! Grid positions and the four directions one can step in.

use vstd::prelude::*;

verus! {

/// A direction on the grid. `Up` is towards row zero, `Left` towards column zero.
#[derive(Clone, Copy, Debug, PartialEq, Eq, Structural)]
pub enum Direction {
    Up,
    Down,
    Left,
    Right,
}

impl Direction {
    /// The change in row that one step in this direction makes.
    pub open spec fn row_step(self) -> int {
        match self {
            Direction::Up => -1,
            Direction::Down => 1,
            Direction::Left => 0,
            Direction::Right => 0,
        }
    }

    /// The change in column that one step in this direction makes.
    pub open spec fn column_step(self) -> int {
        match self {
            Direction::Up => 0,
            Direction::Down => 0,
            Direction::Left => -1,
            Direction::Right => 1,
        }
    }
}

/// A cell's place on the grid. Positions beside the grid exist too: they are
/// what the neighbours of a border cell are.
#[derive(Clone, Copy, Debug, PartialEq, Eq, Structural)]
pub struct Position {
    pub row: i32,
    pub column: i32,
}

impl Position {
    /// The position `(row, column)` as a value of the specification.
    pub open spec fn at(row: int, column: int) -> Position
        recommends
            i32::MIN <= row <= i32::MAX,
            i32::MIN <= column <= i32::MAX,
    {
        Position { row: row as i32, column: column as i32 }
    }

    /// Whether a step in `direction` stays within what a position can hold.
    pub open spec fn can_step(self, direction: Direction) -> bool {
        &&& i32::MIN <= self.row + direction.row_step() <= i32::MAX
        &&& i32::MIN <= self.column + direction.column_step() <= i32::MAX
    }

    /// The position one step away in `direction`.
    pub open spec fn step(self, direction: Direction) -> Position {
        Position::at(self.row + direction.row_step(), self.column + direction.column_step())
    }

    /// Whether every one of the eight positions around this one can be held.
    pub open spec fn has_surroundings(self) -> bool {
        &&& i32::MIN < self.row < i32::MAX
        &&& i32::MIN < self.column < i32::MAX
    }

    /// Whether `other` is one of the eight positions around this one: across
    /// an edge or across a corner.
    pub open spec fn adjacent(self, other: Position) -> bool {
        &&& self != other
        &&& -1 <= other.row - self.row <= 1
        &&& -1 <= other.column - self.column <= 1
    }

    /// The position in the given row and column.
    pub fn new(row: i32, column: i32) -> (pos: Position)
        ensures
            pos.row == row,
            pos.column == column,
    {
        Position { row, column }
    }

    /// The row, counted from the top.
    pub fn row(&self) -> (r: i32)
        ensures
            r == self.row,
    {
        self.row
    }

    /// The column, counted from the left.
    pub fn column(&self) -> (c: i32)
        ensures
            c == self.column,
    {
        self.column
    }

    /// The neighbouring position in `direction`, whether or not it lies on any grid.
    pub fn neighbor(&self, direction: Direction) -> (next: Position)
        requires
            self.can_step(direction),
        ensures
            next == self.step(direction),
            next.row == self.row + direction.row_step(),
            next.column == self.column + direction.column_step(),
    {
        match direction {
            Direction::Up => Position { row: self.row - 1, column: self.column },
            Direction::Down => Position { row: self.row + 1, column: self.column },
            Direction::Left => Position { row: self.row, column: self.column - 1 },
            Direction::Right => Position { row: self.row, column: self.column + 1 },
        }
    }
}

} // verus!
