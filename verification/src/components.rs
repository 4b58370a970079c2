//! The component values an entity can carry: a grid position, an appearance,
//! and the two behaviour tags.

use vstd::prelude::*;

verus! {

/// Number of columns of the grid.
pub const GRID_WIDTH: i32 = 80;

/// Number of rows of the grid.
pub const GRID_HEIGHT: i32 = 50;

/// `v` brought into `[lo, hi]`: values below `lo` become `lo`, values above
/// `hi` become `hi`.
pub open spec fn clamp(v: int, lo: int, hi: int) -> int {
    if v < lo {
        lo
    } else if v > hi {
        hi
    } else {
        v
    }
}

/// A cell of the character grid. On the grid, `x` is a column in
/// `0..GRID_WIDTH` and `y` a row in `0..GRID_HEIGHT`.
#[derive(Clone, Copy, Debug, PartialEq, Eq)]
pub struct Position {
    pub x: i32,
    pub y: i32,
}

impl Position {
    /// Whether the cell lies on the grid.
    pub open spec fn in_bounds(self) -> bool {
        0 <= self.x < GRID_WIDTH && 0 <= self.y < GRID_HEIGHT
    }

    /// The cell reached by adding `(dx, dy)` and then clamping each
    /// coordinate to the grid.
    pub open spec fn moved(self, dx: int, dy: int) -> Position {
        Position {
            x: clamp(self.x + dx, 0, GRID_WIDTH - 1) as i32,
            y: clamp(self.y + dy, 0, GRID_HEIGHT - 1) as i32,
        }
    }

    /// The cell one column to the left, or the last column of the same row
    /// when there is no column to the left.
    pub open spec fn drifted(self) -> Position {
        Position { x: if self.x > 0 { (self.x - 1) as i32 } else { (GRID_WIDTH - 1) as i32 }, y: self.y }
    }

    pub fn new(x: i32, y: i32) -> (p: Position)
        ensures
            p == (Position { x, y }),
    {
        Position { x, y }
    }

    /// Whether the cell lies on the grid.
    pub fn is_in_bounds(&self) -> (b: bool)
        ensures
            b == self.in_bounds(),
    {
        0 <= self.x && self.x < GRID_WIDTH && 0 <= self.y && self.y < GRID_HEIGHT
    }

    /// Moves by `(dx, dy)` and clamps to the grid. Total: the sum is taken
    /// without wrapping, whatever the operands.
    pub fn step(self, dx: i32, dy: i32) -> (p: Position)
        ensures
            p == self.moved(dx as int, dy as int),
            p.in_bounds(),
    {
        Position {
            x: clamped_sum(self.x, dx, GRID_WIDTH - 1),
            y: clamped_sum(self.y, dy, GRID_HEIGHT - 1),
        }
    }

    /// Moves one column to the left, wrapping from the first column to the
    /// last. The row is kept.
    pub fn drift_left(self) -> (p: Position)
        ensures
            p == self.drifted(),
            self.in_bounds() ==> p.in_bounds(),
    {
        if self.x > 0 {
            Position { x: self.x - 1, y: self.y }
        } else {
            Position { x: GRID_WIDTH - 1, y: self.y }
        }
    }
}

/// `v + d` clamped to `[0, hi]`.
fn clamped_sum(v: i32, d: i32, hi: i32) -> (r: i32)
    requires
        0 <= hi,
    ensures
        r == clamp(v + d, 0, hi as int),
{
    let sum: i64 = v as i64 + d as i64;
    if sum < 0 {
        0
    } else if sum > hi as i64 {
        hi
    } else {
        sum as i32
    }
}

/// A colour as red, green and blue intensities.
#[derive(Clone, Copy, Debug, PartialEq, Eq)]
pub struct Color {
    pub r: u8,
    pub g: u8,
    pub b: u8,
}

impl Color {
    pub open spec fn spec_black() -> Color {
        Color { r: 0, g: 0, b: 0 }
    }

    pub open spec fn spec_red() -> Color {
        Color { r: 255, g: 0, b: 0 }
    }

    pub open spec fn spec_yellow() -> Color {
        Color { r: 255, g: 255, b: 0 }
    }

    #[verifier::when_used_as_spec(spec_black)]
    pub fn black() -> (c: Color)
        ensures
            c == Color::spec_black(),
    {
        Color { r: 0, g: 0, b: 0 }
    }

    #[verifier::when_used_as_spec(spec_red)]
    pub fn red() -> (c: Color)
        ensures
            c == Color::spec_red(),
    {
        Color { r: 255, g: 0, b: 0 }
    }

    #[verifier::when_used_as_spec(spec_yellow)]
    pub fn yellow() -> (c: Color)
        ensures
            c == Color::spec_yellow(),
    {
        Color { r: 255, g: 255, b: 0 }
    }
}

/// How an entity is drawn: a glyph of code page 437 and its two colours.
/// Fixed when the entity is made.
#[derive(Clone, Copy, Debug, PartialEq, Eq)]
pub struct Renderable {
    pub glyph: u16,
    pub fg: Color,
    pub bg: Color,
}

/// Tag of an entity that drifts to the left by itself.
#[derive(Clone, Copy, Debug, PartialEq, Eq)]
pub struct LeftMover {}

/// Tag of the entity that the keyboard moves.
#[derive(Clone, Copy, Debug, PartialEq, Eq)]
pub struct Player {}

} // verus!
