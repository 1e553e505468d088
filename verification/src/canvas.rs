//! The cell grid that nodes are painted on, and what is taken on trust of it.
//!
//! The grid is a `ratatui` [`Buffer`]. Contracts speak of it through
//! [`symbols`] and [`styles`]: the text that each of its cells shows and the
//! style it is shown in, by column and row. A buffer can be built that lacks
//! cells of its area; [`whole`] leaves such buffers out, and [`is_whole`] and
//! [`fits_in`] test for them. The functions of this file that call into
//! `ratatui` are believed, not proved; each says which call it makes and what
//! it claims of it.

use ratatui::buffer::Buffer;
use ratatui::layout::Rect;
use ratatui::style::Style;
use ratatui::text::Line;
use ratatui::widgets::Block;
use ratatui::widgets::Widget;
use vstd::prelude::*;

use crate::layout::Alignment;
use crate::layout::Area;
use crate::layout::spec_indent;
use crate::text::byte_len;
use crate::text::is_plain;
use crate::text::lemma_byte_len_plain;
use crate::text::str_len;

verus! {

// THE GRID

/// `ratatui::buffer::Buffer`, opaque to the verifier. Its area and its cells
/// are public fields, so a buffer can be built that lacks cells of its area;
/// [`whole`] says of a buffer that it does not.
#[verifier::external_type_specification]
#[verifier::external_body]
pub struct ExBuffer(Buffer);

/// The symbol of each cell of a buffer, keyed by the cell's column and row in
/// the coordinates of the terminal. The domain of a whole buffer is its area.
pub uninterp spec fn symbols(buf: Buffer) -> Map<(int, int), Seq<char>>;

/// `ratatui::style::Style`, opaque to the verifier.
#[verifier::external_type_specification]
#[verifier::external_body]
pub struct ExStyle(Style);

/// The style of each cell of a buffer, as `Cell::style` gives it: the colours
/// and the modifiers of the cell. It is keyed as [`symbols`] is.
pub uninterp spec fn styles(buf: Buffer) -> Map<(int, int), Style>;

/// The area of a buffer: the columns and rows that it spans, where `right` and
/// `bottom` are the first column and row outside it, and the width and the
/// height that it was given.
#[derive(Clone, Copy, Debug)]
pub struct Bounds {
    pub left: u16,
    pub top: u16,
    pub right: u16,
    pub bottom: u16,
    pub width: u16,
    pub height: u16,
}

impl Bounds {
    /// Whether the cell at column `p.0` and row `p.1` lies within the bounds.
    pub open spec fn contains(self, p: (int, int)) -> bool {
        self.left <= p.0 < self.right && self.top <= p.1 < self.bottom
    }

    /// The cells within the bounds.
    pub open spec fn cells(self) -> Set<(int, int)> {
        Set::new(|p: (int, int)| self.contains(p))
    }
}

/// The area of a buffer.
pub uninterp spec fn extent(buf: Buffer) -> Bounds;

/// The number of cells that a buffer holds.
pub uninterp spec fn cell_count(buf: Buffer) -> nat;

/// Whether a buffer holds one cell for each position of its area, as its
/// documentation asks and its constructors provide. The calls that reach
/// cells by their position panic on a buffer that holds fewer.
pub open spec fn whole(buf: Buffer) -> bool {
    cell_count(buf) == extent(buf).width * extent(buf).height
}

/// Reads `Buffer::area` through its fields `width` and `height` and through
/// `Rect::left`, `top`, `right` and `bottom`, and the length of
/// `Buffer::content`. Claims that the cells of a whole buffer are those within
/// these bounds, which is how `Rect::contains` and the buffer's indexing
/// decide it.
#[verifier::external_body]
pub(crate) fn bounds(buf: &Buffer) -> (grid: (Bounds, usize))
    ensures
        grid.0 == extent(*buf),
        grid.1 == cell_count(*buf),
        whole(*buf) ==> symbols(*buf).dom() == grid.0.cells(),
{
    let area: Rect = buf.area;
    let bounds = Bounds {
        left: area.left(),
        top: area.top(),
        right: area.right(),
        bottom: area.bottom(),
        width: area.width,
        height: area.height,
    };
    (bounds, buf.content.len())
}

/// Whether every cell of `area` is a cell of the grid `cells`.
pub open spec fn inside(area: Area, cells: Map<(int, int), Seq<char>>) -> bool {
    area.cells().subset_of(cells.dom())
}

/// Whether `buf` is whole and every cell of `area` is a cell of it.
pub open spec fn lies_in(area: Area, buf: Buffer) -> bool {
    whole(buf) && inside(area, symbols(buf))
}

/// Whether every cell outside `area` has in `after` the style it had in
/// `before`.
pub open spec fn styles_kept_outside(area: Area, before: Buffer, after: Buffer) -> bool {
    forall|p: (int, int)|
        #![trigger styles(after)[p]]
        symbols(before).dom().contains(p) && !area.contains(p) ==> styles(after)[p] == styles(
            before,
        )[p]
}

/// The bounds of `buf`, if it holds one cell for each position of its area.
pub(crate) fn whole_bounds(buf: &Buffer) -> (bounds: Option<Bounds>)
    ensures
        bounds is Some <==> whole(*buf),
        bounds matches Some(grid) ==> grid == extent(*buf) && symbols(*buf).dom() == grid.cells(),
{
    let (grid, count) = bounds(buf);
    assert(grid.width * grid.height <= 0xffff * 0xffff) by (nonlinear_arith)
        requires
            0 <= grid.width <= 0xffff,
            0 <= grid.height <= 0xffff,
    ;
    if count as u64 == (grid.width as u64) * (grid.height as u64) {
        Some(grid)
    } else {
        None
    }
}

/// Whether `buf` holds one cell for each position of its area.
pub fn is_whole(buf: &Buffer) -> (is: bool)
    ensures
        is == whole(*buf),
{
    whole_bounds(buf).is_some()
}

/// Whether `buf` is whole and every cell of `area` is a cell of it. An area
/// with cells that lies in a buffer ends within the columns and rows that a
/// `u16` can count.
pub fn fits_in(area: Area, buf: &Buffer) -> (fits: bool)
    ensures
        fits == lies_in(area, *buf),
        fits && area.width > 0 && area.height > 0 ==> area.right() <= u16::MAX && area.bottom()
            <= u16::MAX,
{
    let grid = match whole_bounds(buf) {
        Some(grid) => grid,
        None => {
            return false;
        },
    };
    if area.width == 0 || area.height == 0 {
        return true;
    }
    let fits = grid.left <= area.x && area.x as u32 + area.width as u32 <= grid.right as u32
        && grid.top <= area.y && area.y as u32 + area.height as u32 <= grid.bottom as u32;
    proof {
        if !fits {
            let first = (area.x as int, area.y as int);
            let last = (area.x + area.width - 1, area.y + area.height - 1);
            assert(!grid.cells().contains(first) || !grid.cells().contains(last));
        }
    }
    fits
}

// CELLS

/// Calls `Cell::set_symbol` on the cell that the buffer's index operator gives
/// for `(x, y)`. Claims that this cell then shows `symbol`, that no other
/// cell and no style changes, and that the buffer stays whole. The index
/// operator panics outside the buffer.
#[verifier::external_body]
pub(crate) fn set_symbol(buf: &mut Buffer, x: u16, y: u16, symbol: &str)
    requires
        whole(*old(buf)),
        symbols(*old(buf)).dom().contains((x as int, y as int)),
    ensures
        whole(*final(buf)),
        symbols(*final(buf)) == symbols(*old(buf)).insert((x as int, y as int), symbol@),
        styles(*final(buf)) == styles(*old(buf)),
{
    buf[(x, y)].set_symbol(symbol);
}

/// Calls `Cell::symbol` on the cell that the buffer's index operator gives for
/// `(x, y)`. Claims that the result is what the cell shows. The index operator
/// panics outside the buffer.
#[verifier::external_body]
pub(crate) fn symbol_at<'b>(buf: &'b Buffer, x: u16, y: u16) -> (symbol: &'b str)
    requires
        whole(*buf),
        symbols(*buf).dom().contains((x as int, y as int)),
    ensures
        symbol@ == symbols(*buf)[(x as int, y as int)],
{
    buf[(x, y)].symbol()
}

// TEXT

/// The grid `cells` with the characters of `text` in the cells of row `y` from
/// column `x` on, one character in each.
pub open spec fn text_put(
    cells: Map<(int, int), Seq<char>>,
    x: int,
    y: int,
    text: Seq<char>,
) -> Map<(int, int), Seq<char>> {
    Map::new(
        |p: (int, int)| cells.dom().contains(p),
        |p: (int, int)|
            if p.1 == y && x <= p.0 < x + text.len() {
                seq![text[p.0 - x]]
            } else {
                cells[p]
            },
    )
}

/// What `Buffer::set_stringn` makes of the grid `cells` when it prints `text`
/// from `(x, y)` on with at most `limit` columns. It splits the text into
/// grapheme clusters and gives each the columns of its display width.
pub uninterp spec fn printed(
    cells: Map<(int, int), Seq<char>>,
    x: int,
    y: int,
    text: Seq<char>,
    limit: int,
) -> Map<(int, int), Seq<char>>;

/// Calls `Buffer::set_stringn` with the default style. Claims, beside the name
/// of the result: that only cells of row `y` in the `limit` columns from `x`
/// on change, in symbol or in style; that a text of printable ASCII
/// characters that fits the limit and the row comes out one character to a
/// cell and changes no style, as the default style sets none and only a
/// wider grapheme resets the cells it hides; and that the buffer
/// stays whole. The call panics where text is to be printed outside the
/// buffer, or on a cell that the buffer lacks.
#[verifier::external_body]
pub(crate) fn put_text(buf: &mut Buffer, x: u16, y: u16, text: &str, limit: usize)
    requires
        whole(*old(buf)),
        symbols(*old(buf)).dom().contains((x as int, y as int)),
    ensures
        whole(*final(buf)),
        symbols(*final(buf)) == printed(
            symbols(*old(buf)),
            x as int,
            y as int,
            text@,
            limit as int,
        ),
        symbols(*final(buf)).dom() == symbols(*old(buf)).dom(),
        forall|p: (int, int)|
            #![trigger symbols(*final(buf))[p]]
            symbols(*old(buf)).dom().contains(p) && !(p.1 == y && x <= p.0 < x + limit)
                ==> symbols(*final(buf))[p] == symbols(*old(buf))[p],
        forall|p: (int, int)|
            #![trigger styles(*final(buf))[p]]
            symbols(*old(buf)).dom().contains(p) && !(p.1 == y && x <= p.0 < x + limit)
                ==> styles(*final(buf))[p] == styles(*old(buf))[p],
        is_plain(text@) && text@.len() <= limit && (text@.len() == 0 || symbols(
            *old(buf),
        ).dom().contains((x + text@.len() - 1, y as int))) ==> symbols(*final(buf)) == text_put(
            symbols(*old(buf)),
            x as int,
            y as int,
            text@,
        ) && styles(*final(buf)) == styles(*old(buf)),
{
    buf.set_stringn(x, y, text, limit, Style::new());
}

/// The grid `cells` with the type hint `text` printed from `(x, y)` on. A hint
/// of printable ASCII characters whose first and last cell lie in the grid
/// takes one cell for each character, and an empty hint none; for any other
/// hint the result is what the buffer makes of it.
pub open spec fn hint_put(
    cells: Map<(int, int), Seq<char>>,
    x: int,
    y: int,
    text: Seq<char>,
) -> Map<(int, int), Seq<char>> {
    if is_plain(text) && (text.len() == 0 || (cells.dom().contains((x, y))
        && cells.dom().contains((x + text.len() - 1, y)))) {
        text_put(cells, x, y, text)
    } else {
        printed(cells, x, y, text, byte_len(text) as int)
    }
}

/// Prints the type hint `text` from `(x, y)` on, in no more columns than the
/// hint has bytes.
pub(crate) fn draw_hint(buf: &mut Buffer, x: u16, y: u16, text: &str)
    requires
        whole(*old(buf)),
        symbols(*old(buf)).dom().contains((x as int, y as int)),
    ensures
        whole(*final(buf)),
        symbols(*final(buf)) == hint_put(symbols(*old(buf)), x as int, y as int, text@),
        symbols(*final(buf)).dom() == symbols(*old(buf)).dom(),
        forall|p: (int, int)|
            #![trigger symbols(*final(buf))[p]]
            symbols(*old(buf)).dom().contains(p) && !(p.1 == y && x <= p.0 < x + byte_len(text@))
                ==> symbols(*final(buf))[p] == symbols(*old(buf))[p],
        forall|p: (int, int)|
            #![trigger styles(*final(buf))[p]]
            symbols(*old(buf)).dom().contains(p) && !(p.1 == y && x <= p.0 < x + byte_len(text@))
                ==> styles(*final(buf))[p] == styles(*old(buf))[p],
        is_plain(text@) && (text@.len() == 0 || symbols(*old(buf)).dom().contains(
            (x + text@.len() - 1, y as int),
        )) ==> styles(*final(buf)) == styles(*old(buf)),
{
    proof {
        if is_plain(text@) {
            lemma_byte_len_plain(text@);
        }
    }
    put_text(buf, x, y, text, str_len(text));
}

// LINES

/// What rendering a `ratatui` `Line` of `text` with the given alignment in
/// `area` makes of the grid `cells`. The line is split into grapheme clusters
/// by their display width and cut where it is wider than the area.
pub uninterp spec fn line_rendered(
    cells: Map<(int, int), Seq<char>>,
    area: Area,
    text: Seq<char>,
    alignment: Alignment,
) -> Map<(int, int), Seq<char>>;

/// Builds a `Line` from `text`, sets its alignment and calls its
/// `Widget::render`. Claims, beside the name of the result: that only cells of
/// `area` change, in symbol or in style; that a text of printable ASCII
/// characters that is no wider than an area inside the buffer comes out in
/// the first row of the area, one character to a cell, after the indent that
/// the alignment asks for, and changes no style, as the line has the default
/// style; that in an area inside the buffer only the first row changes; and
/// that the buffer stays whole. The call reaches the cells of the area that
/// lie in the buffer's area, and panics on one that the buffer lacks. It
/// steps past the right edge of an area that ends at the last column a `u16`
/// can count, and panics or wraps there.
#[verifier::external_body]
pub(crate) fn draw_line(buf: &mut Buffer, area: Area, text: &str, alignment: Alignment)
    requires
        whole(*old(buf)),
        area.right() < u16::MAX,
    ensures
        whole(*final(buf)),
        symbols(*final(buf)) == line_rendered(symbols(*old(buf)), area, text@, alignment),
        symbols(*final(buf)).dom() == symbols(*old(buf)).dom(),
        forall|p: (int, int)|
            #![trigger symbols(*final(buf))[p]]
            symbols(*old(buf)).dom().contains(p) && !area.contains(p) ==> symbols(*final(buf))[p]
                == symbols(*old(buf))[p],
        forall|p: (int, int)|
            #![trigger styles(*final(buf))[p]]
            symbols(*old(buf)).dom().contains(p) && !area.contains(p) ==> styles(*final(buf))[p]
                == styles(*old(buf))[p],
        inside(area, symbols(*old(buf))) ==> forall|p: (int, int)|
            #![trigger symbols(*final(buf))[p]]
            #![trigger styles(*final(buf))[p]]
            symbols(*old(buf)).dom().contains(p) && p.1 != area.y ==> symbols(*final(buf))[p]
                == symbols(*old(buf))[p] && styles(*final(buf))[p] == styles(*old(buf))[p],
        is_plain(text@) && text@.len() <= area.width && area.height >= 1 && area.cells().subset_of(
            symbols(*old(buf)).dom(),
        ) ==> symbols(*final(buf)) == text_put(
            symbols(*old(buf)),
            area.x + spec_indent(alignment, area.width as int, text@.len() as int),
            area.y as int,
            text@,
        ) && styles(*final(buf)) == styles(*old(buf)),
{
    let target = Rect { x: area.x, y: area.y, width: area.width, height: area.height };
    let aligned = match alignment {
        Alignment::Left => ratatui::layout::Alignment::Left,
        Alignment::Center => ratatui::layout::Alignment::Center,
        Alignment::Right => ratatui::layout::Alignment::Right,
    };
    Line::from(text).alignment(aligned).render(target, buf);
}

/// Whether `text` is a line of printable ASCII characters that is no wider
/// than `area`, and `area` has a row and lies inside the grid `cells`.
pub open spec fn fits_plainly(cells: Map<(int, int), Seq<char>>, area: Area, text: Seq<char>) -> bool {
    is_plain(text) && text.len() <= area.width && area.height >= 1 && inside(area, cells)
}

/// The grid `cells` with the line `text` drawn in the first row of `area`. A
/// line of printable ASCII characters that is no wider than an area inside
/// the grid takes one cell for each character, after the indent of its
/// alignment; for any other line the result is what the line widget makes of
/// it.
pub open spec fn line_put(
    cells: Map<(int, int), Seq<char>>,
    area: Area,
    text: Seq<char>,
    alignment: Alignment,
) -> Map<(int, int), Seq<char>> {
    if fits_plainly(cells, area, text) {
        text_put(
            cells,
            area.x + spec_indent(alignment, area.width as int, text.len() as int),
            area.y as int,
            text,
        )
    } else {
        line_rendered(cells, area, text, alignment)
    }
}

// BORDERS

/// The weight of the lines that a node's border is drawn with.
#[derive(Clone, Copy, Debug, PartialEq, Eq, Structural)]
pub enum LineWeight {
    Thick,
    Double,
}

impl LineWeight {
    /// The vertical line.
    pub open spec fn vertical(self) -> Seq<char> {
        match self {
            LineWeight::Thick => seq!['┃'],
            LineWeight::Double => seq!['║'],
        }
    }

    /// The horizontal line.
    pub open spec fn horizontal(self) -> Seq<char> {
        match self {
            LineWeight::Thick => seq!['━'],
            LineWeight::Double => seq!['═'],
        }
    }

    /// The corner at the top left.
    pub open spec fn top_left(self) -> Seq<char> {
        match self {
            LineWeight::Thick => seq!['┏'],
            LineWeight::Double => seq!['╔'],
        }
    }

    /// The corner at the top right.
    pub open spec fn top_right(self) -> Seq<char> {
        match self {
            LineWeight::Thick => seq!['┓'],
            LineWeight::Double => seq!['╗'],
        }
    }

    /// The corner at the bottom left.
    pub open spec fn bottom_left(self) -> Seq<char> {
        match self {
            LineWeight::Thick => seq!['┗'],
            LineWeight::Double => seq!['╚'],
        }
    }

    /// The corner at the bottom right.
    pub open spec fn bottom_right(self) -> Seq<char> {
        match self {
            LineWeight::Thick => seq!['┛'],
            LineWeight::Double => seq!['╝'],
        }
    }

    /// The vertical line with a branch to the left.
    pub open spec fn vertical_left(self) -> Seq<char> {
        match self {
            LineWeight::Thick => seq!['┫'],
            LineWeight::Double => seq!['╣'],
        }
    }

    /// The vertical line with a branch to the right.
    pub open spec fn vertical_right(self) -> Seq<char> {
        match self {
            LineWeight::Thick => seq!['┣'],
            LineWeight::Double => seq!['╠'],
        }
    }
}

/// The two glyphs of a line set at which a vertical line branches.
#[derive(Clone, Copy, Debug)]
pub(crate) struct Junctions {
    pub(crate) vertical_left: &'static str,
    pub(crate) vertical_right: &'static str,
}

/// Reads `vertical_left` and `vertical_right` of `ratatui::symbols::line::THICK`
/// or `DOUBLE`. Claims which glyphs these constants hold.
#[verifier::external_body]
pub(crate) fn junctions(weight: LineWeight) -> (j: Junctions)
    ensures
        j.vertical_left@ == weight.vertical_left(),
        j.vertical_right@ == weight.vertical_right(),
{
    let set = match weight {
        LineWeight::Thick => ratatui::symbols::line::THICK,
        LineWeight::Double => ratatui::symbols::line::DOUBLE,
    };
    Junctions { vertical_left: set.vertical_left, vertical_right: set.vertical_right }
}

/// The glyph that a border around `area` puts on the cell `p`, if any. Where
/// the rectangle is one cell wide or high, the glyph is the one that is drawn
/// last: a corner before a side, and among the corners the upper before the
/// lower and the left before the right.
pub open spec fn outline_glyph(area: Area, weight: LineWeight, p: (int, int)) -> Option<
    Seq<char>,
> {
    let left = area.x as int;
    let top = area.y as int;
    let right = area.right() - 1;
    let bottom = area.bottom() - 1;
    if !area.contains(p) {
        None
    } else if p.0 == left && p.1 == top {
        Some(weight.top_left())
    } else if p.0 == left && p.1 == bottom {
        Some(weight.bottom_left())
    } else if p.0 == right && p.1 == top {
        Some(weight.top_right())
    } else if p.0 == right && p.1 == bottom {
        Some(weight.bottom_right())
    } else if p.1 == top || p.1 == bottom {
        Some(weight.horizontal())
    } else if p.0 == left || p.0 == right {
        Some(weight.vertical())
    } else {
        None
    }
}

/// The grid `cells` with a border drawn on the rim of `area`.
pub open spec fn outlined(
    cells: Map<(int, int), Seq<char>>,
    area: Area,
    weight: LineWeight,
) -> Map<(int, int), Seq<char>> {
    Map::new(
        |p: (int, int)| cells.dom().contains(p),
        |p: (int, int)|
            match outline_glyph(area, weight, p) {
                Some(glyph) => glyph,
                None => cells[p],
            },
    )
}

/// Renders a `Block` with all four borders, the border set
/// `ratatui::symbols::border::THICK` or `DOUBLE`, no title and the default
/// style. Claims that an area inside the buffer gets the glyphs of that set on
/// its rim, that no other symbol and no style changes, and that the buffer
/// stays whole. The
/// call panics on a cell that the buffer lacks.
#[verifier::external_body]
pub(crate) fn draw_outline(buf: &mut Buffer, area: Area, weight: LineWeight)
    requires
        whole(*old(buf)),
        area.cells().subset_of(symbols(*old(buf)).dom()),
    ensures
        whole(*final(buf)),
        symbols(*final(buf)) == outlined(symbols(*old(buf)), area, weight),
        styles(*final(buf)) == styles(*old(buf)),
{
    let target = Rect { x: area.x, y: area.y, width: area.width, height: area.height };
    let set = match weight {
        LineWeight::Thick => ratatui::symbols::border::THICK,
        LineWeight::Double => ratatui::symbols::border::DOUBLE,
    };
    Block::bordered().border_set(set).render(target, buf);
}

} // verus!
