//! Squares on the canvas and the nine cells they divide into.

use vstd::prelude::*;

verus! {

/// An axis-aligned square region of the canvas, given by its upper left
/// corner and the length of its side in pixels.
#[derive(Clone, Copy, Debug)]
pub struct Square {
    pub x0: u32,
    pub y0: u32,
    pub len: u32,
}

impl Square {
    /// The coordinates of the far corner can be represented.
    pub open spec fn wf(self) -> bool {
        &&& self.x0 + self.len <= u32::MAX
        &&& self.y0 + self.len <= u32::MAX
    }

    /// The side of each of the nine cells that the square divides into. What
    /// is left of a side that three does not divide belongs to no cell.
    pub open spec fn third(self) -> int {
        self.len as int / 3
    }

    /// The pixel at column `x` of row `y` lies in the square.
    pub open spec fn contains(self, x: int, y: int) -> bool {
        &&& self.x0 <= x < self.x0 + self.len
        &&& self.y0 <= y < self.y0 + self.len
    }

    /// The pixel at column `x` of row `y` lies in the middle cell.
    pub open spec fn in_center(self, x: int, y: int) -> bool {
        &&& self.x0 + self.third() <= x < self.x0 + 2 * self.third()
        &&& self.y0 + self.third() <= y < self.y0 + 2 * self.third()
    }

    /// The cell numbered `cell`, counting from 0 along the rows: the cells
    /// 0, 1, 2 are the top row and cell 4 is the middle.
    pub open spec fn cell(self, cell: int) -> Square {
        Square {
            x0: (self.x0 + band_start(self.third(), cell % 3)) as u32,
            y0: (self.y0 + band_start(self.third(), cell / 3)) as u32,
            len: self.third() as u32,
        }
    }

    /// The two squares have no pixel in common.
    pub open spec fn apart(self, other: Square) -> bool {
        ||| self.x0 + self.len <= other.x0
        ||| other.x0 + other.len <= self.x0
        ||| self.y0 + self.len <= other.y0
        ||| other.y0 + other.len <= self.y0
    }

    /// The square lies within `outer`.
    pub open spec fn within(self, outer: Square) -> bool {
        &&& outer.x0 <= self.x0
        &&& self.x0 + self.len <= outer.x0 + outer.len
        &&& outer.y0 <= self.y0
        &&& self.y0 + self.len <= outer.y0 + outer.len
    }

    pub fn new(x0: u32, y0: u32, len: u32) -> (sqr: Square)
        ensures
            sqr == (Square { x0, y0, len }),
    {
        Square { x0, y0, len }
    }
}

/// Where the band numbered `band` begins, of three bands of width `third`
/// that lie side by side from 0.
pub open spec fn band_start(third: int, band: int) -> int {
    if band == 0 {
        0
    } else if band == 1 {
        third
    } else {
        2 * third
    }
}

/// The number of the band that holds `v`.
pub open spec fn band_of(third: int, v: int) -> int {
    if v < third {
        0
    } else if v < 2 * third {
        1
    } else {
        2
    }
}

/// Numbers the eight cells around the middle one.
pub open spec fn is_outer_cell(cell: int) -> bool {
    0 <= cell < 9 && cell != 4
}

} // verus!
