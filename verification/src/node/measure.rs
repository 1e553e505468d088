//! The size that a node asks for.

use vstd::prelude::*;

use crate::layout::spec_indent;
use crate::layout::Area;
use crate::layout::Size;
use crate::node::options::DisplayOptions;
use crate::node::ports::Port;
use crate::node::ports::PortConfiguration;
use crate::node::ports::PortRenderingStrategy;
use crate::node::render::MINIMUM_NODE_HEIGHT;
use crate::node::Node;
use crate::text::byte_len;
use crate::text::lemma_byte_len_concat;
use crate::text::lemma_byte_len_plain;

verus! {

/// The greater of two numbers.
pub open spec fn larger(a: nat, b: nat) -> nat {
    if a >= b {
        a
    } else {
        b
    }
}

/// The name of the node as it is written on the name row: with a space before
/// and after.
pub open spec fn formatted_name(node: &Node) -> Seq<char> {
    seq![' '] + node.shown_name() + seq![' ']
}

/// The columns that the type hint of a port takes; none where there is no
/// port.
pub open spec fn hint_width(port: Option<Port>) -> nat {
    match port {
        Some(p) => byte_len(p.hint()),
        None => 0,
    }
}

/// The port in slot `i` of `ports`, if there is one.
pub open spec fn port_at<'a>(ports: Seq<Port<'a>>, i: int) -> Option<Port<'a>> {
    if 0 <= i < ports.len() {
        Some(ports[i])
    } else {
        None
    }
}

/// The columns that the name row asks for between the borders when type hints
/// are shown: the name, and on each side of it room for the longer of the two
/// primary hints.
pub open spec fn primaries_width(node: &Node) -> nat {
    2 * larger(hint_width(node.ports().primary_input()), hint_width(node.ports().primary_output()))
        + byte_len(formatted_name(node))
}

/// The columns that the row of slot `i` asks for when inputs and outputs share
/// rows: room for the longer of its two hints on each side, and a column
/// between them where both ports are there.
pub open spec fn slot_width(pc: PortConfiguration, i: int) -> nat {
    let input = port_at(pc.inputs(), i);
    let output = port_at(pc.outputs(), i);
    let spacing: nat = if input is Some && output is Some {
        1
    } else {
        0
    };
    2 * larger(hint_width(input), hint_width(output)) + spacing
}

/// The widest of the name row and the rows of the first `n` slots, for inputs
/// and outputs that share rows.
pub open spec fn inline_width(node: &Node, n: nat) -> nat
    decreases n,
{
    if n == 0 {
        primaries_width(node)
    } else {
        larger(inline_width(node, (n - 1) as nat), slot_width(node.ports(), n - 1))
    }
}

/// The longest type hint among the first `n` of `ports`.
pub open spec fn longest_hint(ports: Seq<Port>, n: nat) -> nat
    decreases n,
{
    if n == 0 {
        0
    } else {
        larger(longest_hint(ports, (n - 1) as nat), hint_width(port_at(ports, n - 1)))
    }
}

/// The widest row where inputs and outputs stand on rows of their own: the name
/// row, or the row of the port with the longest hint.
pub open spec fn stacked_width(node: &Node) -> nat {
    larger(
        primaries_width(node),
        larger(
            longest_hint(node.ports().inputs(), node.ports().inputs().len()),
            longest_hint(node.ports().outputs(), node.ports().outputs().len()),
        ),
    )
}

/// The columns that the node asks for between its borders and their padding.
/// Without type hints, or without ports, that is the name. With them it is
/// the widest row under the node's rendering strategy.
pub open spec fn content_width(node: &Node, options: DisplayOptions) -> nat {
    let pc = node.ports();
    if options.show_type_hints && !pc.spec_is_empty() {
        match pc.strategy() {
            PortRenderingStrategy::Inline => inline_width(
                node,
                larger(pc.inputs().len(), pc.outputs().len()),
            ),
            PortRenderingStrategy::InputsFirst | PortRenderingStrategy::OutputsFirst => stacked_width(
                node,
            ),
        }
    } else {
        byte_len(formatted_name(node))
    }
}

/// The least width in which the node can be drawn: a port column, a border
/// column, the content, a border column and a port column.
pub open spec fn required_width(node: &Node, options: DisplayOptions) -> nat {
    4 + content_width(node, options)
}

/// The rows that the ports other than the primary ones take: one for each
/// slot where inputs and outputs share rows, else one for each port.
pub open spec fn port_rows(pc: PortConfiguration) -> nat {
    match pc.strategy() {
        PortRenderingStrategy::Inline => larger(pc.inputs().len(), pc.outputs().len()),
        PortRenderingStrategy::InputsFirst | PortRenderingStrategy::OutputsFirst => pc.inputs().len()
            + pc.outputs().len(),
    }
}

/// The least height in which the node can be drawn: the top border, the name
/// row and the bottom border, and where there are ports other than the primary
/// ones, their rows and the row of the separator above them.
pub open spec fn required_height(node: &Node) -> nat {
    if node.ports().spec_is_not_only_primaries() {
        (MINIMUM_NODE_HEIGHT + port_rows(node.ports()) + 1) as nat
    } else {
        MINIMUM_NODE_HEIGHT as nat
    }
}

/// `n` where a `u16` can hold it, else the greatest `u16`.
pub open spec fn clipped(n: nat) -> u16 {
    if n > u16::MAX {
        u16::MAX
    } else {
        n as u16
    }
}

/// The minimum size of the node, each side cut to what a `u16` can hold.
pub open spec fn minimum_size_of(node: &Node, options: DisplayOptions) -> Size {
    Size {
        width: clipped(required_width(node, options)),
        height: clipped(required_height(node)),
    }
}

/// Whether `area` has the width and the height that the node asks for.
pub open spec fn sufficient(node: &Node, options: DisplayOptions, area: Area) -> bool {
    area.width >= required_width(node, options) && area.height >= required_height(node)
}

/// The width that the node asks for covers its name and, where type hints
/// are shown, the hint of each of its ports.
pub proof fn lemma_content_covers(node: &Node, options: DisplayOptions)
    ensures
        byte_len(formatted_name(node)) <= content_width(node, options),
        options.show_type_hints ==> hint_width(node.ports().primary_input()) <= content_width(
            node,
            options,
        ),
        options.show_type_hints ==> hint_width(node.ports().primary_output()) <= content_width(
            node,
            options,
        ),
        forall|i: int|
            #![trigger node.ports().inputs()[i]]
            options.show_type_hints && 0 <= i < node.ports().inputs().len() ==> byte_len(
                node.ports().inputs()[i].hint(),
            ) <= content_width(node, options),
        forall|i: int|
            #![trigger node.ports().outputs()[i]]
            options.show_type_hints && 0 <= i < node.ports().outputs().len() ==> byte_len(
                node.ports().outputs()[i].hint(),
            ) <= content_width(node, options),
{
    let pc = node.ports();
    let slots = larger(pc.inputs().len(), pc.outputs().len());
    lemma_inline_covers_primaries(node, slots);
    assert forall|i: int|
        #![trigger node.ports().inputs()[i]]
        options.show_type_hints && 0 <= i < pc.inputs().len() implies byte_len(
        pc.inputs()[i].hint(),
    ) <= content_width(node, options) by {
        lemma_inline_covers_slot(node, slots, i);
        lemma_longest_covers(pc.inputs(), pc.inputs().len(), i);
    }
    assert forall|i: int|
        #![trigger node.ports().outputs()[i]]
        options.show_type_hints && 0 <= i < pc.outputs().len() implies byte_len(
        pc.outputs()[i].hint(),
    ) <= content_width(node, options) by {
        lemma_inline_covers_slot(node, slots, i);
        lemma_longest_covers(pc.outputs(), pc.outputs().len(), i);
    }
}

/// The widest shared row is at least as wide as the name row.
proof fn lemma_inline_covers_primaries(node: &Node, n: nat)
    ensures
        primaries_width(node) <= inline_width(node, n),
    decreases n,
{
    if n > 0 {
        lemma_inline_covers_primaries(node, (n - 1) as nat);
    }
}

/// The widest shared row is at least as wide as the row of each slot.
proof fn lemma_inline_covers_slot(node: &Node, n: nat, i: int)
    requires
        0 <= i < n,
    ensures
        slot_width(node.ports(), i) <= inline_width(node, n),
    decreases n,
{
    if i < n - 1 {
        lemma_inline_covers_slot(node, (n - 1) as nat, i);
    }
}

/// The longest hint is at least as long as the hint of each port.
proof fn lemma_longest_covers(ports: Seq<Port>, n: nat, i: int)
    requires
        0 <= i < n,
    ensures
        hint_width(port_at(ports, i)) <= longest_hint(ports, n),
    decreases n,
{
    if i < n - 1 {
        lemma_longest_covers(ports, (n - 1) as nat, i);
    }
}

/// The name row takes two bytes more than the name of the node.
pub proof fn lemma_formatted_name_len(node: &Node)
    ensures
        byte_len(formatted_name(node)) == byte_len(node.shown_name()) + 2,
{
    let space = seq![' '];
    lemma_byte_len_plain(space);
    lemma_byte_len_concat(space, node.shown_name());
    lemma_byte_len_concat(space + node.shown_name(), space);
}

/// A node whose name is not empty asks for at least seven columns, and
/// every node asks for at least three rows.
pub proof fn lemma_minimum_size_floor(node: &Node, options: DisplayOptions)
    requires
        byte_len(node.shown_name()) >= 1,
    ensures
        required_width(node, options) >= 7,
        required_height(node) >= 3,
        minimum_size_of(node, options).width >= 7,
        minimum_size_of(node, options).height >= 3,
{
    lemma_formatted_name_len(node);
    lemma_content_covers(node, options);
}

/// A node with primary ports alone, or with no port, asks for three rows. One
/// with other ports asks for four rows and a row for each slot where inputs
/// and outputs share rows, else a row for each port. The height of the
/// minimum size is that number wherever a `u16` can hold it.
pub proof fn lemma_height_scaling(node: &Node, options: DisplayOptions)
    ensures
        !node.ports().spec_is_not_only_primaries() ==> required_height(node) == 3,
        node.ports().spec_is_not_only_primaries() && node.ports().strategy()
            == PortRenderingStrategy::Inline ==> required_height(node) == 3 + larger(
            node.ports().inputs().len(),
            node.ports().outputs().len(),
        ) + 1,
        node.ports().spec_is_not_only_primaries() && node.ports().strategy()
            != PortRenderingStrategy::Inline ==> required_height(node) == 3
            + node.ports().inputs().len() + node.ports().outputs().len() + 1,
        required_height(node) <= u16::MAX ==> minimum_size_of(node, options).height
            == required_height(node),
        required_height(node) > u16::MAX ==> minimum_size_of(node, options).height == u16::MAX,
{
}

/// An area that is narrower or lower than the minimum size of a node is not
/// sufficient for it.
pub proof fn lemma_smaller_area_is_insufficient(node: &Node, options: DisplayOptions, area: Area)
    requires
        area.width < minimum_size_of(node, options).width || area.height < minimum_size_of(
            node,
            options,
        ).height,
    ensures
        !sufficient(node, options, area),
{
}

/// In a sufficient area the name fits between the two columns on each side,
/// and where type hints are shown it stands clear of the hints of the primary
/// ports: the hint of the primary input ends before the name begins, and the
/// name ends before the hint of the primary output begins.
pub proof fn lemma_name_clear_of_hints(node: &Node, options: DisplayOptions, area: Area)
    requires
        sufficient(node, options, area),
    ensures
        ({
            let room = area.width - 4;
            let name = byte_len(formatted_name(node)) as int;
            let indent = spec_indent(node.ports().name_alignment(), room, name);
            &&& name <= room
            &&& options.show_type_hints ==> hint_width(node.ports().primary_input()) <= indent
            &&& options.show_type_hints ==> indent + name + hint_width(
                node.ports().primary_output(),
            ) <= room
        }),
{
    let pc = node.ports();
    if options.show_type_hints && !pc.spec_is_empty() {
        lemma_inline_covers_primaries(node, larger(pc.inputs().len(), pc.outputs().len()));
    }
}

/// In a sufficient area, where type hints are shown and inputs and outputs
/// share rows, the two hints of a slot stand clear of each other, with a
/// column between them.
pub proof fn lemma_slot_hints_clear(node: &Node, options: DisplayOptions, area: Area, i: int)
    requires
        sufficient(node, options, area),
        options.show_type_hints,
        node.ports().strategy() == PortRenderingStrategy::Inline,
        0 <= i < node.ports().inputs().len(),
        i < node.ports().outputs().len(),
    ensures
        byte_len(node.ports().inputs()[i].hint()) + 1 + byte_len(node.ports().outputs()[i].hint())
            <= area.width - 4,
{
    let pc = node.ports();
    lemma_inline_covers_slot(node, larger(pc.inputs().len(), pc.outputs().len()), i);
}

} // verus!
