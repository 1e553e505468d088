//! What a painted node looks like on the cell grid.

use vstd::prelude::*;

use crate::canvas::hint_put;
use crate::canvas::inside;
use crate::canvas::line_put;
use crate::canvas::outline_glyph;
use crate::canvas::outlined;
use crate::canvas::text_put;
use crate::canvas::LineWeight;
use crate::layout::spec_indent;
use crate::layout::Alignment;
use crate::layout::Area;
use crate::node::measure::formatted_name;
use crate::node::measure::lemma_content_covers;
use crate::node::measure::lemma_name_clear_of_hints;
use crate::node::measure::lemma_slot_hints_clear;
use crate::node::measure::port_rows;
use crate::node::measure::sufficient;
use crate::node::options::DisplayOptions;
use crate::node::ports::Port;
use crate::node::ports::PortConfiguration;
use crate::node::ports::PRIMARY_SLOT;
use crate::node::Node;
use crate::text::byte_len;
use crate::text::is_plain;
use crate::text::lemma_byte_len_plain;

verus! {

/// The glyph that marks a port on the edge of a node.
pub open spec fn marker() -> Seq<char> {
    seq!['◈']
}

/// The type hint that is written beside `port`, if hints are shown.
pub open spec fn shown_hint(port: Port, options: DisplayOptions) -> Option<Seq<char>> {
    if options.show_type_hints {
        Some(port.hint())
    } else {
        None
    }
}

/// The grid `cells` with an input port drawn on `row`: the marker on the left
/// edge of `area`, beside it the branch of the border towards the marker, and
/// beside that the hint, running to the right.
pub open spec fn input_painted(
    cells: Map<(int, int), Seq<char>>,
    area: Area,
    row: int,
    hint: Option<Seq<char>>,
    weight: LineWeight,
) -> Map<(int, int), Seq<char>> {
    let marked = cells.insert((area.x as int, row), marker()).insert(
        (area.x + 1, row),
        weight.vertical_left(),
    );
    match hint {
        Some(text) => hint_put(marked, area.x + 2, row, text),
        None => marked,
    }
}

/// The room in which the hint of an output port on `row` is written: as
/// many cells as the hint has bytes, ending just before the branch of the
/// border.
pub open spec fn output_hint_room(area: Area, row: int, text: Seq<char>) -> Area {
    Area {
        x: (area.right() - 2 - byte_len(text)) as u16,
        y: row as u16,
        width: byte_len(text) as u16,
        height: 1,
    }
}

/// The grid `cells` with an output port drawn on `row`: the marker on the
/// right edge of `area`, beside it the branch of the border towards the
/// marker, and the hint aligned to the right of its room, so that it ends
/// just before that.
pub open spec fn output_painted(
    cells: Map<(int, int), Seq<char>>,
    area: Area,
    row: int,
    hint: Option<Seq<char>>,
    weight: LineWeight,
) -> Map<(int, int), Seq<char>> {
    let edge = area.right() - 1;
    let marked = cells.insert((edge, row), marker()).insert(
        (edge - 1, row),
        weight.vertical_right(),
    );
    match hint {
        Some(text) => line_put(marked, output_hint_room(area, row, text), text, Alignment::Right),
        None => marked,
    }
}

/// The grid `cells` with the input ports of the first `n` slots drawn, each on
/// the row of its slot.
pub open spec fn inputs_painted(
    cells: Map<(int, int), Seq<char>>,
    area: Area,
    pc: PortConfiguration,
    options: DisplayOptions,
    weight: LineWeight,
    n: nat,
) -> Map<(int, int), Seq<char>>
    decreases n,
{
    if n == 0 {
        cells
    } else {
        input_painted(
            inputs_painted(cells, area, pc, options, weight, (n - 1) as nat),
            area,
            area.y + pc.slot_row(n - 1, false),
            shown_hint(pc.inputs()[n - 1], options),
            weight,
        )
    }
}

/// The grid `cells` with the output ports of the first `n` slots drawn, each
/// on the row of its slot.
pub open spec fn outputs_painted(
    cells: Map<(int, int), Seq<char>>,
    area: Area,
    pc: PortConfiguration,
    options: DisplayOptions,
    weight: LineWeight,
    n: nat,
) -> Map<(int, int), Seq<char>>
    decreases n,
{
    if n == 0 {
        cells
    } else {
        output_painted(
            outputs_painted(cells, area, pc, options, weight, (n - 1) as nat),
            area,
            area.y + pc.slot_row(n - 1, true),
            shown_hint(pc.outputs()[n - 1], options),
            weight,
        )
    }
}

/// The grid `cells` with the primary ports of the node drawn on the name row.
pub open spec fn primaries_painted(
    cells: Map<(int, int), Seq<char>>,
    area: Area,
    node: &Node,
    options: DisplayOptions,
) -> Map<(int, int), Seq<char>> {
    let pc = node.ports();
    let weight = node.spec_type().weight();
    let row = area.y + pc.row_for_slot(PRIMARY_SLOT, false);
    let with_input = match pc.primary_input() {
        Some(port) => input_painted(cells, area, row, shown_hint(port, options), weight),
        None => cells,
    };
    match pc.primary_output() {
        Some(port) => output_painted(with_input, area, row, shown_hint(port, options), weight),
        None => with_input,
    }
}

/// The grid `cells` with all ports of the node drawn in `area`: the primary
/// input, the primary output, the other inputs by slot, then the other outputs
/// by slot.
pub open spec fn ports_painted(
    cells: Map<(int, int), Seq<char>>,
    area: Area,
    node: &Node,
    options: DisplayOptions,
) -> Map<(int, int), Seq<char>> {
    let pc = node.ports();
    let weight = node.spec_type().weight();
    outputs_painted(
        inputs_painted(
            primaries_painted(cells, area, node, options),
            area,
            pc,
            options,
            weight,
            pc.inputs().len(),
        ),
        area,
        pc,
        options,
        weight,
        pc.outputs().len(),
    )
}

/// The glyph that the separator below the name row is made of.
pub open spec fn separator() -> Seq<char> {
    seq!['┅']
}

/// The grid `cells` with the separator drawn on the third row of the border
/// `rim`, as far as column `end`: where the row meets the border, the border
/// branches towards the inside; between, the separator glyph is repeated.
pub open spec fn separator_drawn(
    cells: Map<(int, int), Seq<char>>,
    rim: Area,
    weight: LineWeight,
    end: int,
) -> Map<(int, int), Seq<char>> {
    Map::new(
        |p: (int, int)| cells.dom().contains(p),
        |p: (int, int)|
            if p.1 == rim.y + 2 && p.0 == rim.right() - 1 {
                weight.vertical_left()
            } else if p.1 == rim.y + 2 && p.0 == rim.x {
                weight.vertical_right()
            } else if p.1 == rim.y + 2 && rim.x < p.0 < end && p.0 < rim.right() - 1 {
                separator()
            } else {
                cells[p]
            },
    )
}

/// The grid `cells` with the border of the node drawn one column inside of
/// `area` on each side, in lines of the weight that the node's classification
/// asks for, and with the separator below the name row where the node has ports
/// other than the primary ones.
pub open spec fn borders_painted(
    cells: Map<(int, int), Seq<char>>,
    area: Area,
    node: &Node,
) -> Map<(int, int), Seq<char>> {
    let rim = area.spec_inner(1, 0);
    let weight = node.spec_type().weight();
    let outline = outlined(cells, rim, weight);
    if node.ports().spec_is_not_only_primaries() {
        separator_drawn(outline, rim, weight, rim.right() - 1)
    } else {
        outline
    }
}

/// The grid `cells` with the whole node drawn in `area`: its border, its ports,
/// and its name on the name row, two columns inside of `area` on each side.
pub open spec fn painted(
    cells: Map<(int, int), Seq<char>>,
    area: Area,
    node: &Node,
    options: DisplayOptions,
) -> Map<(int, int), Seq<char>> {
    line_put(
        ports_painted(borders_painted(cells, area, node), area, node, options),
        area.spec_inner(2, 1),
        formatted_name(node),
        node.ports().name_alignment(),
    )
}

/// The border of a node that builds a record is drawn in double lines, that of
/// any other node in thick lines, on the same cells: each cell on the rim of
/// the border, outside the row of the separator, shows the glyph of its
/// place in the line set of that weight.
pub proof fn lemma_border_glyphs(
    cells: Map<(int, int), Seq<char>>,
    area: Area,
    node: &Node,
    p: (int, int),
)
    requires
        cells.dom().contains(p),
        outline_glyph(area.spec_inner(1, 0), LineWeight::Thick, p) is Some,
        p.1 != area.spec_inner(1, 0).y + 2 || !node.ports().spec_is_not_only_primaries(),
    ensures
        node.spec_type() is StructInitializtion ==> Some(borders_painted(cells, area, node)[p])
            == outline_glyph(area.spec_inner(1, 0), LineWeight::Double, p),
        !(node.spec_type() is StructInitializtion) ==> Some(borders_painted(cells, area, node)[p])
            == outline_glyph(area.spec_inner(1, 0), LineWeight::Thick, p),
        LineWeight::Double.top_left() == seq!['╔'],
        LineWeight::Double.top_right() == seq!['╗'],
        LineWeight::Double.bottom_left() == seq!['╚'],
        LineWeight::Double.bottom_right() == seq!['╝'],
        LineWeight::Double.horizontal() == seq!['═'],
        LineWeight::Double.vertical() == seq!['║'],
        LineWeight::Thick.top_left() == seq!['┏'],
        LineWeight::Thick.top_right() == seq!['┓'],
        LineWeight::Thick.bottom_left() == seq!['┗'],
        LineWeight::Thick.bottom_right() == seq!['┛'],
        LineWeight::Thick.horizontal() == seq!['━'],
        LineWeight::Thick.vertical() == seq!['┃'],
{
}

/// The separator of a node with ports other than the primary ones, on the
/// third row of its border: where it meets the border, the border branches
/// towards the inside, in double lines for a node that builds a record and
/// in thick lines for any other; between, the separator glyph is repeated,
/// the same for both.
pub proof fn lemma_separator_glyphs(
    cells: Map<(int, int), Seq<char>>,
    area: Area,
    node: &Node,
    p: (int, int),
)
    requires
        cells.dom().contains(p),
        node.ports().spec_is_not_only_primaries(),
        area.spec_inner(1, 0).width >= 2,
        p.1 == area.spec_inner(1, 0).y + 2,
        area.spec_inner(1, 0).x <= p.0 < area.spec_inner(1, 0).right(),
    ensures
        ({
            let rim = area.spec_inner(1, 0);
            let weight = node.spec_type().weight();
            borders_painted(cells, area, node)[p] == if p.0 == rim.x {
                weight.vertical_right()
            } else if p.0 == rim.right() - 1 {
                weight.vertical_left()
            } else {
                separator()
            }
        }),
        node.spec_type() is StructInitializtion <==> node.spec_type().weight()
            == LineWeight::Double,
        LineWeight::Double.vertical_right() == seq!['╠'],
        LineWeight::Double.vertical_left() == seq!['╣'],
        LineWeight::Thick.vertical_right() == seq!['┣'],
        LineWeight::Thick.vertical_left() == seq!['┫'],
        separator() == seq!['┅'],
{
}

/// A name of printable ASCII characters that fits the row it is given stands
/// there one character to a cell: from the first column where it is aligned
/// to the left, up to the last column where it is aligned to the right, and
/// with half of the free columns, rounded down, before it where it is
/// centered.
pub proof fn lemma_name_position(
    cells: Map<(int, int), Seq<char>>,
    area: Area,
    node: &Node,
    i: int,
)
    requires
        is_plain(formatted_name(node)),
        formatted_name(node).len() <= area.width,
        area.height >= 1,
        inside(area, cells),
        0 <= i < formatted_name(node).len(),
    ensures
        ({
            let name = formatted_name(node);
            let free = area.width - name.len();
            let indent = match node.ports().name_alignment() {
                Alignment::Left => 0,
                Alignment::Center => free / 2,
                Alignment::Right => free,
            };
            line_put(cells, area, name, node.ports().name_alignment())[(
                area.x + indent + i,
                area.y as int,
            )] == seq![name[i]]
        }),
{
    let name = formatted_name(node);
    let indent = spec_indent(node.ports().name_alignment(), area.width as int, name.len() as int);
    let p = (area.x + indent + i, area.y as int);
}

// THE PICTURE OF A PLAIN NODE

/// Whether the type hint of each port of the node is made of printable ASCII
/// characters.
pub open spec fn has_plain_hints(node: &Node) -> bool {
    let pc = node.ports();
    &&& (pc.primary_input() matches Some(port) ==> is_plain(port.hint()))
    &&& (pc.primary_output() matches Some(port) ==> is_plain(port.hint()))
    &&& forall|i: int| 0 <= i < pc.inputs().len() ==> is_plain(#[trigger] pc.inputs()[i].hint())
    &&& forall|i: int| 0 <= i < pc.outputs().len() ==> is_plain(#[trigger] pc.outputs()[i].hint())
}

/// Whether the name of the node and the type hint of each of its ports are
/// made of printable ASCII characters.
pub open spec fn is_plain_node(node: &Node) -> bool {
    is_plain(node.shown_name()) && has_plain_hints(node)
}

/// Whether all that is written for the node under `options` is made of
/// printable ASCII characters: its name and, where hints are shown, the hint
/// of each of its ports.
pub open spec fn writes_plainly(node: &Node, options: DisplayOptions) -> bool {
    is_plain(node.shown_name()) && (options.show_type_hints ==> has_plain_hints(node))
}

/// Whether the grid `cells` marks an input port on `row` of `area`: the
/// marker on the left edge and the branch of the border beside it.
pub open spec fn marks_input(
    cells: Map<(int, int), Seq<char>>,
    area: Area,
    row: int,
    weight: LineWeight,
) -> bool {
    cells[(area.x as int, row)] == marker() && cells[(area.x + 1, row)] == weight.vertical_left()
}

/// Whether the grid `cells` marks an output port on `row` of `area`: the
/// marker on the right edge and the branch of the border beside it.
pub open spec fn marks_output(
    cells: Map<(int, int), Seq<char>>,
    area: Area,
    row: int,
    weight: LineWeight,
) -> bool {
    cells[(area.right() - 1, row)] == marker() && cells[(area.right() - 2, row)]
        == weight.vertical_right()
}

/// Whether the grid `cells` marks every port of the node on its row of
/// `area`, whatever the type hints are made of.
pub open spec fn ports_marked(cells: Map<(int, int), Seq<char>>, area: Area, node: &Node) -> bool {
    let pc = node.ports();
    let weight = node.spec_type().weight();
    &&& pc.primary_input() is Some ==> marks_input(cells, area, area.y + 1, weight)
    &&& pc.primary_output() is Some ==> marks_output(cells, area, area.y + 1, weight)
    &&& forall|j: int|
        0 <= j < pc.inputs().len() ==> marks_input(
            cells,
            area,
            area.y + #[trigger] pc.slot_row(j, false),
            weight,
        )
    &&& forall|j: int|
        0 <= j < pc.outputs().len() ==> marks_output(
            cells,
            area,
            area.y + #[trigger] pc.slot_row(j, true),
            weight,
        )
}

/// Whether the grid `cells` shows an input port on `row` of `area`: its marks,
/// and beside them the hint, one character to a cell.
pub open spec fn shows_input(
    cells: Map<(int, int), Seq<char>>,
    area: Area,
    row: int,
    hint: Option<Seq<char>>,
    weight: LineWeight,
) -> bool {
    &&& marks_input(cells, area, row, weight)
    &&& hint matches Some(text) ==> forall|k: int|
        0 <= k < text.len() ==> #[trigger] cells[(area.x + 2 + k, row)] == seq![text[k]]
}

/// Whether the grid `cells` shows an output port on `row` of `area`: its
/// marks, and the hint ending just before them, one character to a cell.
pub open spec fn shows_output(
    cells: Map<(int, int), Seq<char>>,
    area: Area,
    row: int,
    hint: Option<Seq<char>>,
    weight: LineWeight,
) -> bool {
    &&& marks_output(cells, area, row, weight)
    &&& hint matches Some(text) ==> forall|k: int|
        0 <= k < text.len() ==> #[trigger] cells[(area.right() - 2 - text.len() + k, row)]
            == seq![text[k]]
}

/// Whether the grid `cells` shows each primary port whose hint is made of
/// printable ASCII characters: its marks and, where hints are shown, its
/// hint.
pub open spec fn primaries_shown(
    cells: Map<(int, int), Seq<char>>,
    area: Area,
    node: &Node,
    options: DisplayOptions,
) -> bool {
    let pc = node.ports();
    let weight = node.spec_type().weight();
    &&& pc.primary_input() matches Some(port) ==> (is_plain(port.hint()) ==> shows_input(
        cells,
        area,
        area.y + 1,
        shown_hint(port, options),
        weight,
    ))
    &&& pc.primary_output() matches Some(port) ==> (is_plain(port.hint()) ==> shows_output(
        cells,
        area,
        area.y + 1,
        shown_hint(port, options),
        weight,
    ))
}

/// Whether the grid `cells` shows each port of a slot whose hint is made of
/// printable ASCII characters, whatever the hints of the other ports are made
/// of: its marks and, where hints are shown, its hint.
pub open spec fn slots_shown(
    cells: Map<(int, int), Seq<char>>,
    area: Area,
    node: &Node,
    options: DisplayOptions,
) -> bool {
    let pc = node.ports();
    let weight = node.spec_type().weight();
    &&& forall|j: int|
        0 <= j < pc.inputs().len() && is_plain(pc.inputs()[j].hint()) ==> shows_input(
            cells,
            area,
            area.y + #[trigger] pc.slot_row(j, false),
            shown_hint(pc.inputs()[j], options),
            weight,
        )
    &&& forall|j: int|
        0 <= j < pc.outputs().len() && is_plain(pc.outputs()[j].hint()) ==> shows_output(
            cells,
            area,
            area.y + #[trigger] pc.slot_row(j, true),
            shown_hint(pc.outputs()[j], options),
            weight,
        )
}

/// Whether a port is drawn on `row`: the name row where there is a primary
/// port, and the rows of the slots.
pub open spec fn on_port_row(area: Area, pc: PortConfiguration, row: int) -> bool {
    ||| row == area.y + 1 && (pc.primary_input() is Some || pc.primary_output() is Some)
    ||| area.y + 3 <= row < area.y + 3 + port_rows(pc)
}

/// The number of characters of the type hint that is written beside `port`.
pub open spec fn shown_len(port: Port, options: DisplayOptions) -> nat {
    match shown_hint(port, options) {
        Some(text) => text.len(),
        None => 0,
    }
}

/// Whether the cell `p` is one that a primary port is drawn on.
pub open spec fn on_primaries(
    area: Area,
    pc: PortConfiguration,
    options: DisplayOptions,
    p: (int, int),
) -> bool {
    p.1 == area.y + 1 && ({
        ||| pc.primary_input() matches Some(port) && area.x <= p.0 < area.x + 2 + shown_len(
            port,
            options,
        )
        ||| pc.primary_output() matches Some(port) && area.right() - 2 - shown_len(port, options)
            <= p.0 < area.right()
    })
}

/// Whether the cell `p` is one that the input port of one of the first `n`
/// slots is drawn on.
pub open spec fn on_inputs(
    area: Area,
    pc: PortConfiguration,
    options: DisplayOptions,
    n: nat,
    p: (int, int),
) -> bool
    decreases n,
{
    n > 0 && (on_inputs(area, pc, options, (n - 1) as nat, p) || (p.1 == area.y + pc.slot_row(
        n - 1,
        false,
    ) && area.x <= p.0 < area.x + 2 + shown_len(pc.inputs()[n - 1], options)))
}

/// Whether the cell `p` is one that the output port of one of the first `n`
/// slots is drawn on.
pub open spec fn on_outputs(
    area: Area,
    pc: PortConfiguration,
    options: DisplayOptions,
    n: nat,
    p: (int, int),
) -> bool
    decreases n,
{
    n > 0 && (on_outputs(area, pc, options, (n - 1) as nat, p) || (p.1 == area.y + pc.slot_row(
        n - 1,
        true,
    ) && area.right() - 2 - shown_len(pc.outputs()[n - 1], options) <= p.0 < area.right()))
}

/// Whether the cell `p` is one that the name of the node is written on.
pub open spec fn on_name(area: Area, node: &Node, p: (int, int)) -> bool {
    let name = formatted_name(node);
    let start = area.x + 2 + spec_indent(
        node.ports().name_alignment(),
        area.width - 4,
        name.len() as int,
    );
    p.1 == area.y + 1 && start <= p.0 < start + name.len()
}

/// Whether the cell `p` is one that the name of the node may be written on:
/// a cell of the name row between the two columns on each side of `area`.
pub open spec fn in_name_room(area: Area, p: (int, int)) -> bool {
    p.1 == area.y + 1 && area.x + 2 <= p.0 < area.right() - 2
}

/// What is shown of the primary ports stays shown when a name of printable
/// ASCII characters is written between them.
pub proof fn lemma_primaries_beside_name(
    before: Map<(int, int), Seq<char>>,
    area: Area,
    node: &Node,
    options: DisplayOptions,
)
    requires
        primaries_shown(before, area, node, options),
        sufficient(node, options, area),
        inside(area, before),
        is_plain(node.shown_name()),
    ensures
        primaries_shown(
            text_put(
                before,
                area.x + 2 + spec_indent(
                    node.ports().name_alignment(),
                    area.width - 4,
                    formatted_name(node).len() as int,
                ),
                area.y + 1,
                formatted_name(node),
            ),
            area,
            node,
            options,
        ),
{
    let pc = node.ports();
    let row = area.y + 1;
    lemma_content_covers(node, options);
    lemma_name_clear_of_hints(node, options, area);
    lemma_byte_len_plain(formatted_name(node));
    assert forall|c: int| area.x <= c < area.right() implies before.dom().contains((c, row)) by {
        assert(area.cells().contains((c, row)));
    }
    if pc.primary_input() is Some && is_plain(pc.primary_input().unwrap().hint()) {
        lemma_byte_len_plain(pc.primary_input().unwrap().hint());
    }
    if pc.primary_output() is Some && is_plain(pc.primary_output().unwrap().hint()) {
        lemma_byte_len_plain(pc.primary_output().unwrap().hint());
    }
}

/// What is shown of the primary ports stays shown where nothing changes on
/// the name row.
pub proof fn lemma_primaries_kept(
    before: Map<(int, int), Seq<char>>,
    after: Map<(int, int), Seq<char>>,
    area: Area,
    node: &Node,
    options: DisplayOptions,
)
    requires
        primaries_shown(before, area, node, options),
        sufficient(node, options, area),
        inside(area, before),
        forall|p: (int, int)|
            #![trigger after[p]]
            before.dom().contains(p) && p.1 == area.y + 1 ==> after[p] == before[p],
    ensures
        primaries_shown(after, area, node, options),
{
    let pc = node.ports();
    let row = area.y + 1;
    lemma_content_covers(node, options);
    assert forall|c: int| area.x <= c < area.right() implies before.dom().contains((c, row)) by {
        assert(area.cells().contains((c, row)));
    }
    if pc.primary_input() is Some && is_plain(pc.primary_input().unwrap().hint()) {
        lemma_byte_len_plain(pc.primary_input().unwrap().hint());
    }
    if pc.primary_output() is Some && is_plain(pc.primary_output().unwrap().hint()) {
        lemma_byte_len_plain(pc.primary_output().unwrap().hint());
    }
}

/// What is shown of the input ports of the first `n` slots stays shown where
/// the only cells that change stand on one row from column `from` on, and
/// the input port on that row, if there is one, ends before that column.
pub proof fn lemma_inputs_kept(
    before: Map<(int, int), Seq<char>>,
    after: Map<(int, int), Seq<char>>,
    area: Area,
    node: &Node,
    options: DisplayOptions,
    n: nat,
    row: int,
    from: int,
)
    requires
        n <= node.ports().inputs().len(),
        sufficient(node, options, area),
        inside(area, before),
        forall|j: int|
            0 <= j < n && is_plain(node.ports().inputs()[j].hint()) ==> shows_input(
                before,
                area,
                area.y + #[trigger] node.ports().slot_row(j, false),
                shown_hint(node.ports().inputs()[j], options),
                node.spec_type().weight(),
            ),
        forall|p: (int, int)|
            #![trigger after[p]]
            before.dom().contains(p) && !(p.1 == row && from <= p.0) ==> after[p] == before[p],
        forall|j: int|
            0 <= j < n && is_plain(node.ports().inputs()[j].hint()) && area.y
                + #[trigger] node.ports().slot_row(j, false) == row ==> area.x + 2 + shown_len(
                node.ports().inputs()[j],
                options,
            ) <= from,
    ensures
        forall|j: int|
            0 <= j < n && is_plain(node.ports().inputs()[j].hint()) ==> shows_input(
                after,
                area,
                area.y + #[trigger] node.ports().slot_row(j, false),
                shown_hint(node.ports().inputs()[j], options),
                node.spec_type().weight(),
            ),
{
    let pc = node.ports();
    lemma_content_covers(node, options);
    assert forall|j: int| 0 <= j < n && is_plain(pc.inputs()[j].hint()) implies shows_input(
        after,
        area,
        area.y + #[trigger] pc.slot_row(j, false),
        shown_hint(pc.inputs()[j], options),
        node.spec_type().weight(),
    ) by {
        let shown = area.y + pc.slot_row(j, false);
        lemma_byte_len_plain(pc.inputs()[j].hint());
        assert forall|c: int| area.x <= c < area.right() implies before.dom().contains(
            (c, shown),
        ) by {
            assert(area.cells().contains((c, shown)));
        }
    }
}

/// What is shown of the output ports of the first `n` slots stays shown where
/// the only cells that change stand on one row, which is the row of none of
/// them.
pub proof fn lemma_outputs_kept(
    before: Map<(int, int), Seq<char>>,
    after: Map<(int, int), Seq<char>>,
    area: Area,
    node: &Node,
    options: DisplayOptions,
    n: nat,
    row: int,
)
    requires
        n <= node.ports().outputs().len(),
        sufficient(node, options, area),
        inside(area, before),
        forall|j: int|
            0 <= j < n && is_plain(node.ports().outputs()[j].hint()) ==> shows_output(
                before,
                area,
                area.y + #[trigger] node.ports().slot_row(j, true),
                shown_hint(node.ports().outputs()[j], options),
                node.spec_type().weight(),
            ),
        forall|p: (int, int)|
            #![trigger after[p]]
            before.dom().contains(p) && p.1 != row ==> after[p] == before[p],
        forall|j: int| 0 <= j < n ==> area.y + #[trigger] node.ports().slot_row(j, true) != row,
    ensures
        forall|j: int|
            0 <= j < n && is_plain(node.ports().outputs()[j].hint()) ==> shows_output(
                after,
                area,
                area.y + #[trigger] node.ports().slot_row(j, true),
                shown_hint(node.ports().outputs()[j], options),
                node.spec_type().weight(),
            ),
{
    let pc = node.ports();
    lemma_content_covers(node, options);
    assert forall|j: int| 0 <= j < n && is_plain(pc.outputs()[j].hint()) implies shows_output(
        after,
        area,
        area.y + #[trigger] pc.slot_row(j, true),
        shown_hint(pc.outputs()[j], options),
        node.spec_type().weight(),
    ) by {
        let shown = area.y + pc.slot_row(j, true);
        lemma_byte_len_plain(pc.outputs()[j].hint());
        assert forall|c: int| area.x <= c < area.right() implies before.dom().contains(
            (c, shown),
        ) by {
            assert(area.cells().contains((c, shown)));
        }
    }
}

/// After the input ports of the first `n` slots of a plain node are drawn in
/// a sufficient area, the grid has the cells it had, shows each of these
/// ports, and is unchanged in the first three rows of the area and in every
/// cell but those that these ports are drawn on.
proof fn lemma_inputs_painted(
    cells: Map<(int, int), Seq<char>>,
    area: Area,
    node: &Node,
    options: DisplayOptions,
    n: nat,
)
    requires
        n <= node.ports().inputs().len(),
        sufficient(node, options, area),
        inside(area, cells),
        is_plain_node(node),
    ensures
        ({
            let pc = node.ports();
            let weight = node.spec_type().weight();
            let after = inputs_painted(cells, area, pc, options, weight, n);
            &&& after.dom() == cells.dom()
            &&& forall|p: (int, int)|
                cells.dom().contains(p) && (p.1 < area.y + 3 || !on_inputs(area, pc, options, n, p))
                    ==> #[trigger] after[p] == cells[p]
            &&& forall|j: int|
                0 <= j < n ==> shows_input(
                    after,
                    area,
                    area.y + #[trigger] pc.slot_row(j, false),
                    shown_hint(pc.inputs()[j], options),
                    weight,
                )
        }),
    decreases n,
{
    let pc = node.ports();
    let weight = node.spec_type().weight();
    let after = inputs_painted(cells, area, pc, options, weight, n);
    if n > 0 {
        lemma_inputs_painted(cells, area, node, options, (n - 1) as nat);
        lemma_content_covers(node, options);
        lemma_byte_len_plain(pc.inputs()[n - 1].hint());
        assert forall|j: int| 0 <= j < n implies shows_input(
            after,
            area,
            area.y + #[trigger] pc.slot_row(j, false),
            shown_hint(pc.inputs()[j], options),
            weight,
        ) by {
            lemma_byte_len_plain(pc.inputs()[j].hint());
        }
    }
}

/// After the output ports of the first `n` slots of a plain node are drawn
/// in a sufficient area, the grid has the cells it had, shows each of these
/// ports, and is unchanged in the first three rows of the area and in every
/// cell but those that these ports are drawn on.
proof fn lemma_outputs_painted(
    cells: Map<(int, int), Seq<char>>,
    area: Area,
    node: &Node,
    options: DisplayOptions,
    n: nat,
)
    requires
        n <= node.ports().outputs().len(),
        sufficient(node, options, area),
        inside(area, cells),
        area.right() <= 0x10000,
        area.bottom() <= 0x10000,
        is_plain_node(node),
    ensures
        ({
            let pc = node.ports();
            let weight = node.spec_type().weight();
            let after = outputs_painted(cells, area, pc, options, weight, n);
            &&& after.dom() == cells.dom()
            &&& forall|p: (int, int)|
                cells.dom().contains(p) && (p.1 < area.y + 3 || !on_outputs(area, pc, options, n, p))
                    ==> #[trigger] after[p] == cells[p]
            &&& forall|j: int|
                0 <= j < n ==> shows_output(
                    after,
                    area,
                    area.y + #[trigger] pc.slot_row(j, true),
                    shown_hint(pc.outputs()[j], options),
                    weight,
                )
        }),
    decreases n,
{
    let pc = node.ports();
    let weight = node.spec_type().weight();
    let after = outputs_painted(cells, area, pc, options, weight, n);
    if n > 0 {
        lemma_outputs_painted(cells, area, node, options, (n - 1) as nat);
        lemma_content_covers(node, options);
        lemma_byte_len_plain(pc.outputs()[n - 1].hint());
        let row = area.y + pc.slot_row(n - 1, true);
        let room = output_hint_room(area, row, pc.outputs()[n - 1].hint());
        if options.show_type_hints {
            assert forall|p: (int, int)| room.cells().contains(p) implies area.cells().contains(
                p,
            ) by {
                assert(room.contains(p));
            }
        }
        assert forall|j: int| 0 <= j < n implies shows_output(
            after,
            area,
            area.y + #[trigger] pc.slot_row(j, true),
            shown_hint(pc.outputs()[j], options),
            weight,
        ) by {
            lemma_byte_len_plain(pc.outputs()[j].hint());
        }
    }
}

/// In a sufficient area no output port of a plain node is drawn on a cell of
/// the input port in slot `i`.
proof fn lemma_outputs_clear_of_input(
    area: Area,
    node: &Node,
    options: DisplayOptions,
    n: nat,
    i: int,
    p: (int, int),
)
    requires
        n <= node.ports().outputs().len(),
        0 <= i < node.ports().inputs().len(),
        sufficient(node, options, area),
        is_plain_node(node),
        p.1 == area.y + node.ports().slot_row(i, false),
        area.x <= p.0 < area.x + 2 + shown_len(node.ports().inputs()[i], options),
    ensures
        !on_outputs(area, node.ports(), options, n, p),
    decreases n,
{
    let pc = node.ports();
    if n > 0 {
        lemma_outputs_clear_of_input(area, node, options, (n - 1) as nat, i, p);
        lemma_byte_len_plain(pc.inputs()[i].hint());
        lemma_byte_len_plain(pc.outputs()[n - 1].hint());
        if pc.slot_row(n - 1, true) == pc.slot_row(i, false) && options.show_type_hints {
            lemma_slot_hints_clear(node, options, area, i);
        }
    }
}

/// The picture of a plain node in a sufficient area inside the grid is the
/// grid after the ports are drawn, with the name written over it on the name
/// row, one character to a cell, where the alignment of the name puts it.
proof fn lemma_name_over_ports(
    cells: Map<(int, int), Seq<char>>,
    area: Area,
    node: &Node,
    options: DisplayOptions,
)
    requires
        sufficient(node, options, area),
        inside(area, cells),
        area.right() <= 0x10000,
        area.bottom() <= 0x10000,
        is_plain_node(node),
    ensures
        ({
            let pc = node.ports();
            let weight = node.spec_type().weight();
            let name = formatted_name(node);
            let indent = spec_indent(pc.name_alignment(), area.width - 4, name.len() as int);
            let primaries = primaries_painted(
                borders_painted(cells, area, node),
                area,
                node,
                options,
            );
            let with_inputs = inputs_painted(
                primaries,
                area,
                pc,
                options,
                weight,
                pc.inputs().len(),
            );
            let with_outputs = outputs_painted(
                with_inputs,
                area,
                pc,
                options,
                weight,
                pc.outputs().len(),
            );
            &&& primaries.dom() == cells.dom()
            &&& painted(cells, area, node, options) == text_put(
                with_outputs,
                area.x + 2 + indent,
                area.y + 1,
                name,
            )
        }),
{
    let pc = node.ports();
    let weight = node.spec_type().weight();
    let name = formatted_name(node);
    lemma_name_clear_of_hints(node, options, area);
    lemma_byte_len_plain(name);
    if pc.primary_input() is Some {
        lemma_byte_len_plain(pc.primary_input().unwrap().hint());
    }
    if pc.primary_output() is Some {
        lemma_byte_len_plain(pc.primary_output().unwrap().hint());
    }
    let bordered = borders_painted(cells, area, node);
    assert(bordered.dom() =~= cells.dom());
    let primaries = primaries_painted(bordered, area, node, options);
    let name_row = area.y + 1;
    assert forall|c: int| area.x <= c < area.right() implies cells.dom().contains(
        (c, name_row),
    ) by {
        assert(area.cells().contains((c, name_row)));
    }
    assert(primaries.dom() =~= cells.dom());
    let with_inputs = inputs_painted(primaries, area, pc, options, weight, pc.inputs().len());
    lemma_inputs_painted(primaries, area, node, options, pc.inputs().len());
    let with_outputs = outputs_painted(with_inputs, area, pc, options, weight, pc.outputs().len());
    lemma_outputs_painted(with_inputs, area, node, options, pc.outputs().len());
    let inner = area.spec_inner(2, 1);
    assert forall|p: (int, int)| inner.cells().contains(p) implies with_outputs.dom().contains(
        p,
    ) by {
        assert(area.cells().contains(p));
    }
    assert(inside(inner, with_outputs));
}

/// In the picture of a plain node in a sufficient area inside the grid, every
/// cell that neither the name nor a port is drawn on is as the borders left
/// it: a cell of the border shows the border, any other cell what it showed
/// before.
pub proof fn lemma_rest_is_border(
    cells: Map<(int, int), Seq<char>>,
    area: Area,
    node: &Node,
    options: DisplayOptions,
    p: (int, int),
)
    requires
        sufficient(node, options, area),
        inside(area, cells),
        area.right() <= 0x10000,
        area.bottom() <= 0x10000,
        is_plain_node(node),
        cells.dom().contains(p),
        !on_name(area, node, p),
        !on_primaries(area, node.ports(), options, p),
        !on_inputs(area, node.ports(), options, node.ports().inputs().len(), p),
        !on_outputs(area, node.ports(), options, node.ports().outputs().len(), p),
    ensures
        painted(cells, area, node, options)[p] == borders_painted(cells, area, node)[p],
{
    let pc = node.ports();
    let weight = node.spec_type().weight();
    lemma_name_over_ports(cells, area, node, options);
    let bordered = borders_painted(cells, area, node);
    let primaries = primaries_painted(bordered, area, node, options);
    let with_inputs = inputs_painted(primaries, area, pc, options, weight, pc.inputs().len());
    lemma_inputs_painted(primaries, area, node, options, pc.inputs().len());
    let with_outputs = outputs_painted(with_inputs, area, pc, options, weight, pc.outputs().len());
    lemma_outputs_painted(with_inputs, area, node, options, pc.outputs().len());
    assert(with_outputs[p] == with_inputs[p]);
    assert(with_inputs[p] == primaries[p]);
    lemma_content_covers(node, options);
    if pc.primary_input() is Some {
        lemma_byte_len_plain(pc.primary_input().unwrap().hint());
    }
    if pc.primary_output() is Some {
        lemma_byte_len_plain(pc.primary_output().unwrap().hint());
    }
    assert(bordered.dom() =~= cells.dom());
    let name_row = area.y + 1;
    assert forall|c: int| area.x <= c < area.right() implies cells.dom().contains(
        (c, name_row),
    ) by {
        assert(area.cells().contains((c, name_row)));
    }
    assert(primaries[p] == bordered[p]);
}

/// The name row of a painted node, for a node whose name and hints are
/// printable ASCII, in a sufficient area inside the grid. From the left it
/// shows: where there is a primary input, the marker, the branch of the
/// border and, where hints are shown, the hint; the name, where its alignment
/// puts it; and where there is a primary output, the hint, the branch of the
/// border and the marker. None of them covers another.
pub proof fn lemma_name_row(
    cells: Map<(int, int), Seq<char>>,
    area: Area,
    node: &Node,
    options: DisplayOptions,
)
    requires
        sufficient(node, options, area),
        inside(area, cells),
        area.right() <= 0x10000,
        area.bottom() <= 0x10000,
        is_plain_node(node),
    ensures
        ({
            let picture = painted(cells, area, node, options);
            let pc = node.ports();
            let weight = node.spec_type().weight();
            let row = area.y + 1;
            let name = formatted_name(node);
            let indent = spec_indent(pc.name_alignment(), area.width - 4, name.len() as int);
            &&& picture.dom() == cells.dom()
            &&& forall|i: int|
                0 <= i < name.len() ==> #[trigger] picture[(area.x + 2 + indent + i, row)]
                    == seq![name[i]]
            &&& pc.primary_input() matches Some(port) ==> shows_input(
                picture,
                area,
                row,
                shown_hint(port, options),
                weight,
            )
            &&& pc.primary_output() matches Some(port) ==> shows_output(
                picture,
                area,
                row,
                shown_hint(port, options),
                weight,
            )
        }),
{
    let pc = node.ports();
    let weight = node.spec_type().weight();
    let row = area.y + 1;
    lemma_name_over_ports(cells, area, node, options);
    lemma_name_clear_of_hints(node, options, area);
    lemma_byte_len_plain(formatted_name(node));
    if pc.primary_input() is Some {
        lemma_byte_len_plain(pc.primary_input().unwrap().hint());
    }
    if pc.primary_output() is Some {
        lemma_byte_len_plain(pc.primary_output().unwrap().hint());
    }
    let bordered = borders_painted(cells, area, node);
    let primaries = primaries_painted(bordered, area, node, options);
    let with_inputs = inputs_painted(primaries, area, pc, options, weight, pc.inputs().len());
    lemma_inputs_painted(primaries, area, node, options, pc.inputs().len());
    let with_outputs = outputs_painted(with_inputs, area, pc, options, weight, pc.outputs().len());
    lemma_outputs_painted(with_inputs, area, node, options, pc.outputs().len());
    let picture = painted(cells, area, node, options);
    assert(picture.dom() =~= cells.dom());
    assert forall|p: (int, int)| cells.dom().contains(p) && p.1 == row implies with_outputs[p]
        == primaries[p] by {
        assert(with_inputs[p] == primaries[p]);
    }
    assert forall|c: int| area.x <= c < area.right() implies cells.dom().contains((c, row)) by {
        assert(area.cells().contains((c, row)));
    }
}

/// The row of the input port in slot `i` of a painted node, for a node whose
/// name and hints are printable ASCII, in a sufficient area inside the grid:
/// it shows the marker, the branch of the border and, where hints are shown,
/// the hint of the port. Nothing that is painted later covers them.
pub proof fn lemma_input_row(
    cells: Map<(int, int), Seq<char>>,
    area: Area,
    node: &Node,
    options: DisplayOptions,
    i: int,
)
    requires
        sufficient(node, options, area),
        inside(area, cells),
        area.right() <= 0x10000,
        area.bottom() <= 0x10000,
        is_plain_node(node),
        0 <= i < node.ports().inputs().len(),
    ensures
        shows_input(
            painted(cells, area, node, options),
            area,
            area.y + node.ports().slot_row(i, false),
            shown_hint(node.ports().inputs()[i], options),
            node.spec_type().weight(),
        ),
{
    let pc = node.ports();
    let weight = node.spec_type().weight();
    let row = area.y + pc.slot_row(i, false);
    let hint = shown_hint(pc.inputs()[i], options);
    lemma_name_over_ports(cells, area, node, options);
    lemma_content_covers(node, options);
    lemma_byte_len_plain(pc.inputs()[i].hint());
    let primaries = primaries_painted(borders_painted(cells, area, node), area, node, options);
    let with_inputs = inputs_painted(primaries, area, pc, options, weight, pc.inputs().len());
    lemma_inputs_painted(primaries, area, node, options, pc.inputs().len());
    let with_outputs = outputs_painted(with_inputs, area, pc, options, weight, pc.outputs().len());
    lemma_outputs_painted(with_inputs, area, node, options, pc.outputs().len());
    let picture = painted(cells, area, node, options);
    let width = shown_len(pc.inputs()[i], options);
    assert forall|c: int| area.x <= c < area.x + 2 + width implies picture[(c, row)]
        == with_inputs[(c, row)] by {
        lemma_outputs_clear_of_input(area, node, options, pc.outputs().len(), i, (c, row));
        assert(area.cells().contains((c, row)));
    }
    assert(shows_input(with_inputs, area, row, hint, weight));
}

/// The row of the output port in slot `i` of a painted node, for a node whose
/// name and hints are printable ASCII, in a sufficient area inside the grid:
/// it shows the marker, the branch of the border and, where hints are shown,
/// the hint of the port. Nothing that is painted later covers them.
pub proof fn lemma_output_row(
    cells: Map<(int, int), Seq<char>>,
    area: Area,
    node: &Node,
    options: DisplayOptions,
    i: int,
)
    requires
        sufficient(node, options, area),
        inside(area, cells),
        area.right() <= 0x10000,
        area.bottom() <= 0x10000,
        is_plain_node(node),
        0 <= i < node.ports().outputs().len(),
    ensures
        shows_output(
            painted(cells, area, node, options),
            area,
            area.y + node.ports().slot_row(i, true),
            shown_hint(node.ports().outputs()[i], options),
            node.spec_type().weight(),
        ),
{
    let pc = node.ports();
    let weight = node.spec_type().weight();
    let row = area.y + pc.slot_row(i, true);
    let hint = shown_hint(pc.outputs()[i], options);
    lemma_name_over_ports(cells, area, node, options);
    lemma_content_covers(node, options);
    lemma_byte_len_plain(pc.outputs()[i].hint());
    let primaries = primaries_painted(borders_painted(cells, area, node), area, node, options);
    let with_inputs = inputs_painted(primaries, area, pc, options, weight, pc.inputs().len());
    lemma_inputs_painted(primaries, area, node, options, pc.inputs().len());
    let with_outputs = outputs_painted(with_inputs, area, pc, options, weight, pc.outputs().len());
    lemma_outputs_painted(with_inputs, area, node, options, pc.outputs().len());
    let picture = painted(cells, area, node, options);
    assert forall|c: int| area.x <= c < area.right() implies picture[(c, row)] == with_outputs[(
        c,
        row,
    )] by {
        assert(area.cells().contains((c, row)));
    }
    assert(shows_output(with_outputs, area, row, hint, weight));
}

} // verus!
