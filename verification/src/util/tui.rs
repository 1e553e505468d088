//! Reading a buffer back as text.

use compact_str::CompactString;
use ratatui::buffer::Buffer;
use vstd::prelude::*;

use crate::canvas::whole_bounds;
use crate::canvas::extent;
use crate::canvas::symbol_at;
use crate::canvas::symbols;
use crate::canvas::whole;
use crate::text::compact_from;
use crate::text::text_of;

verus! {

/// The symbols of the cells of row `y` from column `left` up to column
/// `right`, one after the other.
pub open spec fn row_text(
    cells: Map<(int, int), Seq<char>>,
    left: int,
    right: int,
    y: int,
) -> Seq<char>
    decreases right - left,
{
    if left >= right {
        Seq::empty()
    } else {
        row_text(cells, left, right - 1, y) + cells[(right - 1, y)]
    }
}

pub trait BufferExt {
    /// Gets a line from the buffer as a string.
    ///
    /// Returns `None` if `line` is out of bounds.
    fn get_line(&self, line: usize) -> Option<CompactString>;
}

impl BufferExt for Buffer {
    /// Gets the line `line` of the buffer, counted from its top row: the
    /// symbols of its cells from left to right. A buffer without columns has
    /// no lines, nor has one that is not whole.
    fn get_line(&self, line: usize) -> (text: Option<CompactString>)
        ensures
            text is Some <==> whole(*self) && extent(*self).left < extent(*self).right && line
                < extent(*self).bottom - extent(*self).top,
            text matches Some(t) ==> text_of(t) == row_text(
                symbols(*self),
                extent(*self).left as int,
                extent(*self).right as int,
                extent(*self).top + line,
            ),
    {
        let grid = match whole_bounds(self) {
            Some(grid) => grid,
            None => {
                return None;
            },
        };
        if grid.left >= grid.right || grid.top > grid.bottom || line >= (grid.bottom
            - grid.top) as usize {
            return None;
        }
        let y: u16 = grid.top + (line as u16);
        let mut row = String::new();
        let mut x: u16 = grid.left;
        while x < grid.right
            invariant
                grid.left <= x <= grid.right,
                grid.top <= y < grid.bottom,
                whole(*self),
                symbols(*self).dom() == grid.cells(),
                row@ == row_text(symbols(*self), grid.left as int, x as int, y as int),
            decreases grid.right - x,
        {
            row.append(symbol_at(self, x, y));
            x += 1;
        }
        Some(compact_from(row.as_str()))
    }
}

} // verus!
