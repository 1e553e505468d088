//! Rectangles, sizes and alignments on the cell grid.

use vstd::prelude::*;

use crate::text::decimal;
use crate::text::push_decimal;

verus! {

/// The extent of a rectangle of cells.
#[derive(Clone, Copy, Debug, PartialEq, Eq, Structural)]
pub struct Size {
    pub width: u16,
    pub height: u16,
}

impl Size {
    /// The size written as its width, an `x` and its height.
    pub open spec fn text(self) -> Seq<char> {
        decimal(self.width as nat) + seq!['x'] + decimal(self.height as nat)
    }

    pub fn new(width: u16, height: u16) -> (size: Size)
        ensures
            size == (Size { width, height }),
    {
        Size { width, height }
    }

    /// Appends the size to `out`, as its width, an `x` and its height.
    pub fn push_to(&self, out: &mut String)
        ensures
            final(out)@ == old(out)@ + self.text(),
    {
        proof {
            reveal_strlit("x");
        }
        push_decimal(out, self.width as usize);
        out.append("x");
        push_decimal(out, self.height as usize);
    }
}

/// An axis-aligned rectangle of cells: its top left corner and its extent.
#[derive(Clone, Copy, Debug, PartialEq, Eq, Structural)]
pub struct Area {
    pub x: u16,
    pub y: u16,
    pub width: u16,
    pub height: u16,
}

impl Area {
    /// The column just right of the rectangle.
    pub open spec fn right(self) -> int {
        self.x + self.width
    }

    /// The row just below the rectangle.
    pub open spec fn bottom(self) -> int {
        self.y + self.height
    }

    /// Whether the cell at column `p.0` and row `p.1` lies in the rectangle.
    pub open spec fn contains(self, p: (int, int)) -> bool {
        self.x <= p.0 < self.right() && self.y <= p.1 < self.bottom()
    }

    /// The cells of the rectangle.
    pub open spec fn cells(self) -> Set<(int, int)> {
        Set::new(|p: (int, int)| self.contains(p))
    }

    /// The rectangle that is left when `horizontal` columns are taken from the
    /// left and from the right and `vertical` rows from the top and from the
    /// bottom; the empty rectangle at the origin when that much is not there.
    /// Twice a margin counts as no more than the greatest `u16`, and a corner
    /// moves no further than that.
    pub open spec fn spec_inner(self, horizontal: u16, vertical: u16) -> Area {
        let columns = spec_saturating(2 * horizontal);
        let rows = spec_saturating(2 * vertical);
        if self.width < columns || self.height < rows {
            Area { x: 0, y: 0, width: 0, height: 0 }
        } else {
            Area {
                x: spec_saturating(self.x + horizontal),
                y: spec_saturating(self.y + vertical),
                width: (self.width - columns) as u16,
                height: (self.height - rows) as u16,
            }
        }
    }

    pub fn new(x: u16, y: u16, width: u16, height: u16) -> (area: Area)
        ensures
            area == (Area { x, y, width, height }),
    {
        Area { x, y, width, height }
    }

    /// The extent of the rectangle.
    pub fn as_size(&self) -> (size: Size)
        ensures
            size == (Size { width: self.width, height: self.height }),
    {
        Size { width: self.width, height: self.height }
    }

    /// Shrinks the rectangle by a margin on each side.
    pub fn inner(&self, horizontal: u16, vertical: u16) -> (area: Area)
        ensures
            area == self.spec_inner(horizontal, vertical),
    {
        let columns: u16 = saturating(horizontal as u32 * 2);
        let rows: u16 = saturating(vertical as u32 * 2);
        if self.width < columns || self.height < rows {
            return Area { x: 0, y: 0, width: 0, height: 0 };
        }
        Area {
            x: saturating(self.x as u32 + horizontal as u32),
            y: saturating(self.y as u32 + vertical as u32),
            width: self.width - columns,
            height: self.height - rows,
        }
    }
}

/// `n` where a `u16` can hold it, else the greatest `u16`.
pub open spec fn spec_saturating(n: int) -> u16 {
    if n > u16::MAX {
        u16::MAX
    } else {
        n as u16
    }
}

/// `n` where a `u16` can hold it, else the greatest `u16`.
fn saturating(n: u32) -> (s: u16)
    ensures
        s == spec_saturating(n as int),
{
    if n > 0xffff {
        0xffff
    } else {
        n as u16
    }
}

/// Where a line of text stands in the columns it is given.
#[derive(Clone, Copy, Debug, PartialEq, Eq, Structural)]
pub enum Alignment {
    Left,
    Center,
    Right,
}

/// The number of columns left free before a text of `used` columns that is
/// aligned in `available` columns.
pub open spec fn spec_indent(alignment: Alignment, available: int, used: int) -> int {
    if used >= available {
        0
    } else {
        match alignment {
            Alignment::Left => 0,
            Alignment::Center => (available - used) / 2,
            Alignment::Right => available - used,
        }
    }
}

} // verus!
