//! The ground of a map, cell by cell.

use vstd::prelude::*;

verus! {

/// The bit of a cell's type that says characters can walk on the cell.
pub const CELL_WALKABLE: u8 = 1;

/// The ground of a map: the type of each cell, row after row.
pub struct Gat {
    pub width: u32,
    pub height: u32,
    pub cells: Vec<u8>,
}

impl Gat {
    /// Whether the cell in column `x` of row `y` lies on the map and can be
    /// walked on.
    pub open spec fn walkable_at(self, x: usize, y: usize) -> bool {
        &&& x < self.width
        &&& y < self.height
        &&& y * self.width + x < self.cells.len()
        &&& self.cells[y * self.width + x] & CELL_WALKABLE != 0
    }

    /// A map of `width` columns and `height` rows on which every cell can be
    /// walked on.
    pub fn open_field(width: u32, height: u32) -> (map: Gat)
        requires
            width * height <= usize::MAX,
        ensures
            map.width == width,
            map.height == height,
            map.cells.len() == width * height,
            forall|i: int| 0 <= i < map.cells.len() ==> map.cells[i] == CELL_WALKABLE,
    {
        let ghost total = width as int * height as int;
        let mut cells: Vec<u8> = Vec::new();
        let mut row: u32 = 0;
        while row < height
            invariant
                row <= height,
                total == width * height,
                total <= usize::MAX,
                cells.len() == width * row,
                forall|i: int| 0 <= i < cells.len() ==> cells[i] == CELL_WALKABLE,
            decreases height - row,
        {
            let mut column: u32 = 0;
            while column < width
                invariant
                    row < height,
                    column <= width,
                    total == width * height,
                    total <= usize::MAX,
                    cells.len() == width * row + column,
                    forall|i: int| 0 <= i < cells.len() ==> cells[i] == CELL_WALKABLE,
                decreases width - column,
            {
                proof {
                    assert(width * row + column < width * height) by (nonlinear_arith)
                        requires
                            row < height,
                            column < width,
                    ;
                }
                cells.push(CELL_WALKABLE);
                column += 1;
            }
            proof {
                assert(width * row + width == width * (row + 1)) by (nonlinear_arith);
            }
            row += 1;
        }
        Gat { width, height, cells }
    }

    /// Whether the cell in column `x` of row `y` can be walked on. A cell
    /// off the map cannot.
    pub fn is_walkable(&self, x: usize, y: usize) -> (walkable: bool)
        ensures
            walkable == self.walkable_at(x, y),
    {
        if x >= self.width as usize || y >= self.height as usize {
            return false;
        }
        proof {
            assert(y * self.width + x < 0x1_0000_0000 * 0x1_0000_0000) by (nonlinear_arith)
                requires
                    x < self.width,
                    y < self.height,
                    self.width < 0x1_0000_0000,
                    self.height < 0x1_0000_0000,
            ;
        }
        let index: u64 = (y as u64) * (self.width as u64) + (x as u64);
        if index >= self.cells.len() as u64 {
            return false;
        }
        self.cells[index as usize] & CELL_WALKABLE != 0
    }
}

} // verus!
