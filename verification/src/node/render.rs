//! Measuring a node and painting it on the cell grid.

use compact_str::CompactString;
use ratatui::buffer::Buffer;
use vstd::prelude::*;

use crate::canvas::bounds;
use crate::canvas::draw_hint;
use crate::canvas::draw_line;
use crate::canvas::draw_outline;
use crate::canvas::fits_in;
use crate::canvas::inside;
use crate::canvas::lies_in;
use crate::canvas::whole;
use crate::canvas::junctions;
use crate::canvas::line_put;
use crate::canvas::fits_plainly;
use crate::canvas::set_symbol;
use crate::canvas::styles;
use crate::canvas::styles_kept_outside;
use crate::canvas::symbols;
use crate::canvas::LineWeight;
use crate::layout::Alignment;
use crate::layout::Area;
use crate::layout::Size;
use crate::node::measure::clipped;
use crate::node::measure::formatted_name;
use crate::node::measure::inline_width;
use crate::node::measure::larger;
use crate::node::measure::lemma_content_covers;
use crate::node::measure::lemma_name_clear_of_hints;
use crate::node::measure::lemma_slot_hints_clear;
use crate::node::measure::longest_hint;
use crate::node::measure::content_width;
use crate::node::measure::minimum_size_of;
use crate::node::measure::primaries_width;
use crate::node::measure::required_height;
use crate::node::measure::required_width;
use crate::node::measure::stacked_width;
use crate::node::measure::sufficient;
use crate::node::options::DisplayOptions;
use crate::node::picture::borders_painted;
use crate::node::picture::input_painted;
use crate::node::picture::inputs_painted;
use crate::node::picture::has_plain_hints;
use crate::node::picture::marker;
use crate::node::picture::writes_plainly;
use crate::node::picture::marks_input;
use crate::node::picture::lemma_inputs_kept;
use crate::node::picture::lemma_outputs_kept;
use crate::node::picture::in_name_room;
use crate::node::picture::lemma_primaries_beside_name;
use crate::node::picture::lemma_primaries_kept;
use crate::node::picture::marks_output;
use crate::node::picture::on_port_row;
use crate::node::picture::primaries_shown;
use crate::node::picture::shows_input;
use crate::node::picture::shows_output;
use crate::node::picture::slots_shown;
use crate::node::picture::ports_marked;
use crate::node::picture::output_painted;
use crate::node::picture::outputs_painted;
use crate::node::picture::painted;
use crate::node::picture::ports_painted;
use crate::node::picture::separator;
use crate::node::picture::separator_drawn;
use crate::node::picture::shown_hint;
use crate::node::ports::Port;
use crate::node::ports::PortRenderingStrategy;
use crate::node::ports::PRIMARY_SLOT;
use crate::node::Node;
use crate::text::byte_len;
use crate::text::compact_as_str;
use crate::text::is_plain;
use crate::text::lemma_byte_len_plain;
use crate::text::str_len;
use crate::text::text_of;

verus! {

/// The minimum height a node can be. This includes the top border, the name (along with primary ports), and the bottom border.
pub const MINIMUM_NODE_HEIGHT: u16 = 3;

// HELPERS

/// The length in bytes of an optional text; none counts as empty.
pub open spec fn text_len(text: Option<&CompactString>) -> nat {
    match text {
        Some(t) => byte_len(text_of(*t)),
        None => 0,
    }
}

/// Returns the maximum length in bytes of the two optionally supplied strings. If both strings
/// are none, `0` is returned.
pub fn get_max_compact_string_len(
    left: Option<&CompactString>,
    right: Option<&CompactString>,
) -> (len: usize)
    ensures
        len == larger(text_len(left), text_len(right)),
{
    let left_len: usize = match left {
        Some(text) => str_len(compact_as_str(text)),
        None => 0,
    };
    let right_len: usize = match right {
        Some(text) => str_len(compact_as_str(text)),
        None => 0,
    };
    if left_len >= right_len {
        left_len
    } else {
        right_len
    }
}

/// The characters of an optional type hint.
spec fn hint_text(hint: Option<CompactString>) -> Option<Seq<char>> {
    match hint {
        Some(text) => Some(text_of(text)),
        None => None,
    }
}

/// The length in bytes of an optional type hint; none counts as empty.
spec fn hint_len(hint: Option<CompactString>) -> nat {
    match hint {
        Some(text) => byte_len(text_of(text)),
        None => 0,
    }
}

/// Draws an input port on `row`: its marks and beside them its hint. No cell
/// changes but those.
fn draw_input(
    buf: &mut Buffer,
    area: Area,
    row: u16,
    hint: &Option<CompactString>,
    junction: &str,
    weight: LineWeight,
)
    requires
        lies_in(area, *old(buf)),
        area.right() <= 0x10000,
        area.width >= 4,
        area.y <= row < area.bottom(),
        *hint matches Some(text) ==> byte_len(text_of(text)) + 4 <= area.width,
        junction@ == weight.vertical_left(),
    ensures
        whole(*final(buf)),
        symbols(*final(buf)) == input_painted(
            symbols(*old(buf)),
            area,
            row as int,
            hint_text(*hint),
            weight,
        ),
        marks_input(symbols(*final(buf)), area, row as int, weight),
        symbols(*final(buf)).dom() == symbols(*old(buf)).dom(),
        forall|p: (int, int)|
            #![trigger symbols(*final(buf))[p]]
            #![trigger styles(*final(buf))[p]]
            symbols(*old(buf)).dom().contains(p) && !(p.1 == row && area.x <= p.0 < area.x + 2 + hint_len(*hint))
                ==> symbols(*final(buf))[p] == symbols(*old(buf))[p] && styles(*final(buf))[p]
                == styles(*old(buf))[p],
        (*hint matches Some(text) ==> is_plain(text_of(text))) ==> styles(*final(buf)) == styles(
            *old(buf),
        ) && shows_input(symbols(*final(buf)), area, row as int, hint_text(*hint), weight),
{
    proof {
        reveal_strlit("◈");
        assert("◈"@ =~= marker());
    }
    set_symbol(buf, area.x, row, "◈");
    set_symbol(buf, area.x + 1, row, junction);
    if let Some(text) = hint {
        proof {
            if is_plain(text_of(*text)) {
                lemma_byte_len_plain(text_of(*text));
            }
        }
        draw_hint(buf, area.x + 2, row, compact_as_str(text));
    }
}

/// Draws an output port on `row`: its marks and before them its hint, aligned
/// to the right of a room of as many cells as it has bytes, so that it ends
/// at the branch of the border. No cell changes but those.
fn draw_output(
    buf: &mut Buffer,
    area: Area,
    row: u16,
    hint: &Option<CompactString>,
    junction: &str,
    weight: LineWeight,
)
    requires
        lies_in(area, *old(buf)),
        area.right() <= 0x10000,
        area.width >= 4,
        area.y <= row < area.bottom(),
        *hint matches Some(text) ==> byte_len(text_of(text)) + 4 <= area.width,
        junction@ == weight.vertical_right(),
    ensures
        whole(*final(buf)),
        symbols(*final(buf)) == output_painted(
            symbols(*old(buf)),
            area,
            row as int,
            hint_text(*hint),
            weight,
        ),
        marks_output(symbols(*final(buf)), area, row as int, weight),
        symbols(*final(buf)).dom() == symbols(*old(buf)).dom(),
        forall|p: (int, int)|
            #![trigger symbols(*final(buf))[p]]
            #![trigger styles(*final(buf))[p]]
            symbols(*old(buf)).dom().contains(p) && !(p.1 == row && area.right() - 2 - hint_len(*hint) <= p.0 < area.right())
                ==> symbols(*final(buf))[p] == symbols(*old(buf))[p] && styles(*final(buf))[p]
                == styles(*old(buf))[p],
        (*hint matches Some(text) ==> is_plain(text_of(text))) ==> styles(*final(buf)) == styles(
            *old(buf),
        ) && shows_output(symbols(*final(buf)), area, row as int, hint_text(*hint), weight),
{
    let output_port_x: u16 = area.x + (area.width - 1);
    proof {
        reveal_strlit("◈");
        assert("◈"@ =~= marker());
    }
    set_symbol(buf, output_port_x, row, "◈");
    set_symbol(buf, output_port_x - 1, row, junction);
    if let Some(text) = hint {
        let type_hint = compact_as_str(text);
        let len: usize = str_len(type_hint);
        let room = Area::new(output_port_x - 1 - (len as u16), row, len as u16, 1);
        proof {
            if is_plain(type_hint@) {
                lemma_byte_len_plain(type_hint@);
            }
        }
        draw_line(buf, room, type_hint, Alignment::Right);
    }
}

// ERRORS

/// Why a node was not drawn.
#[derive(Debug, Clone, Copy, PartialEq, Eq, Structural)]
pub enum RenderError {
    /// The area is narrower or lower than the minimum size of the node.
    InsufficientArea { minimum: Size, given: Size },
}

impl RenderError {
    /// The words in which the error is reported: what was asked for and what
    /// was given.
    pub open spec fn spec_message(&self) -> Seq<char> {
        match self {
            RenderError::InsufficientArea { minimum, given } => {
                "Cannot draw node; Supplied area is too small: minimum = "@ + minimum.text()
                    + ", given = "@ + given.text() + "."@
            },
        }
    }

    /// The words in which the error is reported.
    pub fn message(&self) -> (message: String)
        ensures
            message@ == self.spec_message(),
    {
        match self {
            RenderError::InsufficientArea { minimum, given } => {
                let mut message = String::from_str(
                    "Cannot draw node; Supplied area is too small: minimum = ",
                );
                minimum.push_to(&mut message);
                message.append(", given = ");
                given.push_to(&mut message);
                message.append(".");
                message
            },
        }
    }
}

// THE PAINTED NODE

/// What painting the node in `area` makes of the buffer `before`.
///
/// The symbols of `after` are those of [`painted`]. Whatever the name and the
/// hints are made of: every port is marked; each port of a slot whose hint is
/// printable ASCII shows it, and so does each primary port where the name is
/// printable ASCII too; every cell off the room of the name is as the ports
/// and the borders left it; every cell off that room and off the rows of the
/// ports shows what the borders left there and keeps its style; and nothing
/// outside `area` changes. Where all that is written is printable ASCII, no
/// style changes at all.
pub open spec fn paints(
    before: Buffer,
    after: Buffer,
    area: Area,
    node: &Node,
    options: DisplayOptions,
) -> bool {
    let cells = symbols(before);
    let picture = symbols(after);
    let bordered = borders_painted(cells, area, node);
    &&& picture == painted(cells, area, node, options)
    &&& picture.dom() == cells.dom()
    &&& ports_marked(picture, area, node)
    &&& slots_shown(picture, area, node, options)
    &&& is_plain(node.shown_name()) ==> primaries_shown(picture, area, node, options)
    &&& forall|p: (int, int)|
        #![trigger picture[p]]
        cells.dom().contains(p) && !in_name_room(area, p) ==> picture[p] == ports_painted(
            bordered,
            area,
            node,
            options,
        )[p]
    &&& forall|p: (int, int)|
        #![trigger picture[p]]
        #![trigger styles(after)[p]]
        cells.dom().contains(p) && !in_name_room(area, p) && !on_port_row(area, node.ports(), p.1)
            ==> picture[p] == bordered[p] && styles(after)[p] == styles(before)[p]
    &&& forall|p: (int, int)|
        #![trigger picture[p]]
        cells.dom().contains(p) && !area.contains(p) ==> picture[p] == cells[p]
    &&& styles_kept_outside(area, before, after)
    &&& writes_plainly(node, options) ==> styles(after) == styles(before)
}

// RENDERER

/// Measures and paints one node at a time with the display options it was
/// made with. It is made without a node; binding a node gives a renderer that
/// remembers the minimum size once it has computed it.
#[derive(Debug)]
pub struct NodeRenderer<'a, NodeRefOrNone> {
    node_ref: NodeRefOrNone,
    cache: Option<RenderingCache>,
    display_options: &'a DisplayOptions,
}

impl<'a, NodeRefOrNone> NodeRenderer<'a, NodeRefOrNone> {
    /// The display options of the renderer.
    pub closed spec fn options(&self) -> DisplayOptions {
        *self.display_options
    }

    /// The minimum size that the renderer remembers, if it has computed one.
    pub closed spec fn cached(&self) -> Option<Size> {
        match self.cache {
            Some(cache) => Some(cache.minimum_size),
            None => None,
        }
    }
}

impl<'a> NodeRenderer<'a, ()> {
    // Constructors

    pub fn new(display_options: &'a DisplayOptions) -> (renderer: Self)
        ensures
            renderer.options() == *display_options,
            renderer.cached() is None,
    {
        Self { node_ref: (), cache: None, display_options }
    }

    // Setters

    pub fn with_node(&self, node_ref: &'a Node<'a>) -> (renderer: NodeRenderer<'a, &'a Node<'a>>)
        ensures
            renderer.node() == node_ref,
            renderer.options() == self.options(),
            renderer.cached() is None,
            renderer.wf(),
    {
        NodeRenderer { node_ref, cache: None, display_options: self.display_options }
    }
}

impl<'a> NodeRenderer<'a, &'a Node<'a>> {
    /// The node that the renderer is bound to.
    pub closed spec fn node(&self) -> &'a Node<'a> {
        self.node_ref
    }

    /// What the renderer remembers is the minimum size of its node.
    pub closed spec fn wf(&self) -> bool {
        match self.cache {
            Some(cache) => {
                &&& cache.minimum_size == minimum_size_of(self.node_ref, *self.display_options)
                &&& cache.exact == (cache.minimum_size.width == required_width(
                    self.node_ref,
                    *self.display_options,
                ) && cache.minimum_size.height == required_height(self.node_ref))
            },
            None => true,
        }
    }

    // Setters

    #[must_use]
    pub fn release_node(self) -> (renderer: NodeRenderer<'a, ()>)
        ensures
            renderer.options() == self.options(),
            renderer.cached() is None,
    {
        NodeRenderer { node_ref: (), cache: None, display_options: self.display_options }
    }

    /// Swaps the current node in the renderer for a new one. Invalidates the cache.
    pub fn swap_node(&mut self, node_ref: &'a Node<'a>)
        ensures
            final(self).node() == node_ref,
            final(self).options() == old(self).options(),
            final(self).cached() is None,
            final(self).wf(),
    {
        self.node_ref = node_ref;
        self.cache = None;
    }

    // Getters

    fn get_formatted_node_name(&self) -> (name: String)
        ensures
            name@ == formatted_name(self.node()),
    {
        proof {
            reveal_strlit(" ");
        }
        let mut name = String::from_str(" ");
        name.append(self.node_ref.get_node_name_or_alias());
        name.append(" ");
        name
    }

    /// The columns that the name row asks for when type hints are shown.
    fn measure_primaries(&self) -> (width: u128)
        ensures
            width == primaries_width(self.node()),
            width <= 3 * usize::MAX,
    {
        let pc = self.node_ref.get_port_configuration();
        let input_hint: Option<CompactString> = match pc.get_primary_input() {
            Some(port) => Some(port.get_type_name()),
            None => None,
        };
        let output_hint: Option<CompactString> = match pc.get_primary_output() {
            Some(port) => Some(port.get_type_name()),
            None => None,
        };
        // Get the longer of the two primaries, or 0
        let max_primaries_len: usize = get_max_compact_string_len(
            input_hint.as_ref(),
            output_hint.as_ref(),
        );
        // Use the longer primary length and pad the formatted name with it
        let name_len: usize = str_len(self.get_formatted_node_name().as_str());
        (max_primaries_len as u128) * 2 + (name_len as u128)
    }

    /// The columns of the widest row where inputs and outputs share rows.
    fn measure_inline(&self) -> (width: u128)
        ensures
            width == inline_width(
                self.node(),
                larger(self.node().ports().inputs().len(), self.node().ports().outputs().len()),
            ),
            width <= 3 * usize::MAX,
    {
        let pc = self.node_ref.get_port_configuration();
        let mut max_len: u128 = self.measure_primaries();
        let inputs = pc.get_input_ports();
        let outputs = pc.get_output_ports();
        let slots: usize = if inputs.len() >= outputs.len() {
            inputs.len()
        } else {
            outputs.len()
        };
        let mut i: usize = 0;
        while i < slots
            invariant
                i <= slots,
                inputs@ == self.node().ports().inputs(),
                outputs@ == self.node().ports().outputs(),
                max_len == inline_width(self.node(), i as nat),
                max_len <= 3 * usize::MAX,
            decreases slots - i,
        {
            // Get the longer of the two ports for this slot, or 0
            let input_hint: Option<CompactString> = if i < inputs.len() {
                Some(inputs[i].get_type_name())
            } else {
                None
            };
            let output_hint: Option<CompactString> = if i < outputs.len() {
                Some(outputs[i].get_type_name())
            } else {
                None
            };
            let max: usize = get_max_compact_string_len(input_hint.as_ref(), output_hint.as_ref());
            // If both ports are present for this slot, add a space in between
            let needs_spacing = input_hint.is_some() && output_hint.is_some();
            let row: u128 = (max as u128) * 2 + if needs_spacing {
                1
            } else {
                0
            };
            if row > max_len {
                max_len = row;
            }
            i += 1;
        }
        max_len
    }

    /// The length of the longest type hint among `ports`.
    fn measure_longest(ports: &Vec<Port<'a>>) -> (width: u128)
        ensures
            width == longest_hint(ports@, ports@.len()),
            width <= usize::MAX,
    {
        let mut max_len: u128 = 0;
        let mut i: usize = 0;
        while i < ports.len()
            invariant
                i <= ports.len(),
                max_len == longest_hint(ports@, i as nat),
                max_len <= usize::MAX,
            decreases ports.len() - i,
        {
            let hint = ports[i].get_type_name();
            let len: usize = str_len(compact_as_str(&hint));
            if len as u128 > max_len {
                max_len = len as u128;
            }
            i += 1;
        }
        max_len
    }

    /// The columns of the widest row where inputs and outputs stand on rows of
    /// their own.
    fn measure_stacked(&self) -> (width: u128)
        ensures
            width == stacked_width(self.node()),
            width <= 3 * usize::MAX,
    {
        let pc = self.node_ref.get_port_configuration();
        let primaries: u128 = self.measure_primaries();
        let inputs: u128 = Self::measure_longest(pc.get_input_ports());
        let outputs: u128 = Self::measure_longest(pc.get_output_ports());
        let ports: u128 = if inputs >= outputs {
            inputs
        } else {
            outputs
        };
        if primaries >= ports {
            primaries
        } else {
            ports
        }
    }

    /// The width and the height that the node asks for.
    fn measure(&self) -> (size: (u128, u128))
        ensures
            size.0 == required_width(self.node(), self.options()),
            size.1 == required_height(self.node()),
    {
        let pc = self.node_ref.get_port_configuration();
        let show_type_hints = self.display_options.show_type_hints;

        let mut width: u128 = 2 + 2;
        if show_type_hints && !pc.is_empty() {
            let max_slot_width: u128 = match pc.get_rendering_strategy() {
                PortRenderingStrategy::Inline => self.measure_inline(),
                PortRenderingStrategy::InputsFirst => self.measure_stacked(),
                PortRenderingStrategy::OutputsFirst => self.measure_stacked(),
            };
            width += max_slot_width;
        } else {
            width += str_len(self.get_formatted_node_name().as_str()) as u128;
        }

        // The minimum height of the node accounts for the borders, seperator, and ports
        let mut height: u128 = MINIMUM_NODE_HEIGHT as u128;
        if pc.is_not_only_primaries() {
            let inputs: u128 = pc.get_input_port_count() as u128;
            let outputs: u128 = pc.get_output_port_count() as u128;
            let rows: u128 = match pc.get_rendering_strategy() {
                PortRenderingStrategy::Inline => if inputs >= outputs {
                    inputs
                } else {
                    outputs
                },
                PortRenderingStrategy::InputsFirst => inputs + outputs,
                PortRenderingStrategy::OutputsFirst => inputs + outputs,
            };
            height += rows + 1;
        }
        (width, height)
    }

    /// Gets the minimum size necessary to render this node.
    ///
    /// The width is that of the widest row and of the two columns on each
    /// side of it, which hold the border and the port markers. Without type
    /// hints, or without ports, the widest row is the name. With them, and
    /// with inputs and outputs on shared rows, each row asks for twice its
    /// longer hint, the name row for the name between, a slot row for a column
    /// between two hints. With inputs and outputs on rows of their own, a slot
    /// row asks for its hint alone. The height is three rows, and where there
    /// are ports other than the primary ones, a row for the separator and the
    /// rows of those ports.
    ///
    /// The size is computed once and remembered until another node is bound.
    /// A side that a `u16` cannot hold is given as the greatest `u16`; no area
    /// is sufficient for such a node.
    pub fn get_minimum_size(&mut self) -> (size: Size)
        requires
            old(self).wf(),
        ensures
            size == minimum_size_of(old(self).node(), old(self).options()),
            final(self).wf(),
            final(self).node() == old(self).node(),
            final(self).options() == old(self).options(),
            final(self).cached() == Some(size),
            old(self).cached() matches Some(known) ==> size == known && *final(self) == *old(self),
    {
        if let Some(cache) = &self.cache {
            return cache.minimum_size;
        }
        let (width, height) = self.measure();
        let size = Size::new(clip(width), clip(height));
        let exact = width <= 0xffff && height <= 0xffff;
        self.cache = Some(RenderingCache { minimum_size: size, exact });
        size
    }

    /// Whether `area` is at least as wide and as high as the node asks for.
    pub fn is_sufficient(&mut self, area: Area) -> (enough: bool)
        requires
            old(self).wf(),
        ensures
            enough == sufficient(old(self).node(), old(self).options(), area),
            final(self).wf(),
            final(self).node() == old(self).node(),
            final(self).options() == old(self).options(),
            final(self).cached() == Some(minimum_size_of(old(self).node(), old(self).options())),
    {
        let minimum_size = self.get_minimum_size();
        let exact = match &self.cache {
            Some(cache) => cache.exact,
            None => false,
        };
        exact && area.width >= minimum_size.width && area.height >= minimum_size.height
    }

    /// The type hint that is written beside `port`, if hints are shown.
    fn type_hint(&self, port: &Port<'a>) -> (hint: Option<CompactString>)
        ensures
            hint_text(hint) == shown_hint(*port, self.options()),
    {
        if self.display_options.show_type_hints {
            Some(port.get_type_name())
        } else {
            None
        }
    }

    // Rendering

    /// Draws the ports of the node on the edges of `area`: the primary ports on
    /// the name row, the others on the rows of their slots. Every port is
    /// marked, whatever its hint is made of, and a hint of printable ASCII
    /// characters is shown, whatever the other hints are made of. Nothing
    /// outside `area` changes, and inside it nothing on a row without a port.
    pub fn render_ports(&self, area: Area, buf: &mut Buffer)
        requires
            sufficient(self.node(), self.options(), area),
            lies_in(area, *old(buf)),
        ensures
            whole(*final(buf)),
            symbols(*final(buf)) == ports_painted(
                symbols(*old(buf)),
                area,
                self.node(),
                self.options(),
            ),
            ports_marked(symbols(*final(buf)), area, self.node()),
            primaries_shown(symbols(*final(buf)), area, self.node(), self.options()),
            slots_shown(symbols(*final(buf)), area, self.node(), self.options()),
            symbols(*final(buf)).dom() == symbols(*old(buf)).dom(),
            forall|p: (int, int)|
                #![trigger symbols(*final(buf))[p]]
                symbols(*old(buf)).dom().contains(p) && !area.contains(p) ==> symbols(
                    *final(buf),
                )[p] == symbols(*old(buf))[p],
            styles_kept_outside(area, *old(buf), *final(buf)),
            forall|p: (int, int)|
                #![trigger symbols(*final(buf))[p]]
                #![trigger styles(*final(buf))[p]]
                symbols(*old(buf)).dom().contains(p) && !on_port_row(
                    area,
                    self.node().ports(),
                    p.1,
                ) ==> symbols(*final(buf))[p] == symbols(*old(buf))[p] && styles(*final(buf))[p]
                    == styles(*old(buf))[p],
            !self.options().show_type_hints || has_plain_hints(self.node()) ==> styles(
                *final(buf),
            ) == styles(*old(buf)),
    {
        let pc = self.node_ref.get_port_configuration();
        let weight = self.node_ref.get_type().line_weight();
        let line_set = junctions(weight);
        // The cells of the buffer have `u16` coordinates, so the edges of `area` have too
        let (grid, _) = bounds(buf);
        proof {
            lemma_content_covers(self.node(), self.options());
            let last = (area.right() - 1, area.bottom() - 1);
            assert(grid.cells().contains(last));
        }

        let name_row: u16 = area.y + pc.get_cell_row_for_slot(PRIMARY_SLOT, false);
        proof {
            lemma_name_clear_of_hints(self.node(), self.options(), area);
            if pc.primary_input() is Some {
                if is_plain(pc.primary_input().unwrap().hint()) {
                    lemma_byte_len_plain(pc.primary_input().unwrap().hint());
                }
            }
        }
        if let Some(primary_input) = pc.get_primary_input() {
            let hint = self.type_hint(primary_input);
            draw_input(buf, area, name_row, &hint, line_set.vertical_left, weight);
        }
        if let Some(primary_output) = pc.get_primary_output() {
            let hint = self.type_hint(primary_output);
            draw_output(buf, area, name_row, &hint, line_set.vertical_right, weight);
        }
        let ghost primaries = symbols(*buf);

        // Iterate through the ports and set the character for the port's row to be a slot
        let inputs = pc.get_input_ports();
        let mut slot: u16 = 0;
        while (slot as usize) < inputs.len()
            invariant
                slot <= inputs.len(),
                pc == self.node().ports(),
                inputs@ == pc.inputs(),
                line_set.vertical_left@ == weight.vertical_left(),
                weight == self.node().spec_type().weight(),
                sufficient(self.node(), self.options(), area),
                lies_in(area, *buf),
                area.right() <= 0x10000,
                area.bottom() <= 0x10000,
                name_row == area.y + 1,
                pc.primary_input() is Some ==> marks_input(
                    symbols(*buf),
                    area,
                    name_row as int,
                    weight,
                ),
                pc.primary_output() is Some ==> marks_output(
                    symbols(*buf),
                    area,
                    name_row as int,
                    weight,
                ),
                forall|j: int|
                    0 <= j < slot ==> marks_input(
                        symbols(*buf),
                        area,
                        area.y + #[trigger] pc.slot_row(j, false),
                        weight,
                    ),
                forall|p: (int, int)|
                    #![trigger symbols(*buf)[p]]
                    #![trigger styles(*buf)[p]]
                    symbols(*old(buf)).dom().contains(p) && !on_port_row(area, *pc, p.1)
                        ==> symbols(*buf)[p] == symbols(*old(buf))[p] && styles(*buf)[p] == styles(
                        *old(buf),
                    )[p],
                primaries_shown(symbols(*buf), area, self.node(), self.options()),
                forall|j: int|
                    0 <= j < slot && is_plain(pc.inputs()[j].hint()) ==> shows_input(
                        symbols(*buf),
                        area,
                        area.y + #[trigger] pc.slot_row(j, false),
                        shown_hint(pc.inputs()[j], self.options()),
                        weight,
                    ),
                forall|i: int|
                    #![trigger self.node().ports().inputs()[i]]
                    self.options().show_type_hints && 0 <= i < self.node().ports().inputs().len()
                        ==> byte_len(self.node().ports().inputs()[i].hint()) <= content_width(
                        self.node(),
                        self.options(),
                    ),
                symbols(*buf) == inputs_painted(
                    primaries,
                    area,
                    *pc,
                    self.options(),
                    weight,
                    slot as nat,
                ),
                symbols(*buf).dom() == symbols(*old(buf)).dom(),
                forall|p: (int, int)|
                    #![trigger symbols(*buf)[p]]
                    symbols(*old(buf)).dom().contains(p) && !area.contains(p) ==> symbols(*buf)[p]
                        == symbols(*old(buf))[p],
                styles_kept_outside(area, *old(buf), *buf),
                !self.options().show_type_hints || has_plain_hints(self.node()) ==> styles(*buf)
                    == styles(*old(buf)),
            decreases inputs.len() - slot,
        {
            let row: u16 = area.y + pc.get_cell_row_for_slot(slot, false);
            let hint = self.type_hint(&inputs[slot as usize]);
            let ghost before = symbols(*buf);
            draw_input(buf, area, row, &hint, line_set.vertical_left, weight);
            proof {
                // What the earlier ports show stands on other rows
                let after = symbols(*buf);
                lemma_primaries_kept(before, after, area, self.node(), self.options());
                lemma_inputs_kept(
                    before,
                    after,
                    area,
                    self.node(),
                    self.options(),
                    slot as nat,
                    row as int,
                    area.x as int,
                );
            }
            slot += 1;
        }
        let ghost with_inputs = symbols(*buf);

        let outputs = pc.get_output_ports();
        let mut slot: u16 = 0;
        while (slot as usize) < outputs.len()
            invariant
                slot <= outputs.len(),
                pc == self.node().ports(),
                outputs@ == pc.outputs(),
                line_set.vertical_right@ == weight.vertical_right(),
                weight == self.node().spec_type().weight(),
                sufficient(self.node(), self.options(), area),
                lies_in(area, *buf),
                area.right() <= 0x10000,
                area.bottom() <= 0x10000,
                name_row == area.y + 1,
                pc.primary_input() is Some ==> marks_input(
                    symbols(*buf),
                    area,
                    name_row as int,
                    weight,
                ),
                pc.primary_output() is Some ==> marks_output(
                    symbols(*buf),
                    area,
                    name_row as int,
                    weight,
                ),
                forall|j: int|
                    0 <= j < pc.inputs().len() ==> marks_input(
                        symbols(*buf),
                        area,
                        area.y + #[trigger] pc.slot_row(j, false),
                        weight,
                    ),
                forall|j: int|
                    0 <= j < slot ==> marks_output(
                        symbols(*buf),
                        area,
                        area.y + #[trigger] pc.slot_row(j, true),
                        weight,
                    ),
                forall|p: (int, int)|
                    #![trigger symbols(*buf)[p]]
                    #![trigger styles(*buf)[p]]
                    symbols(*old(buf)).dom().contains(p) && !on_port_row(area, *pc, p.1)
                        ==> symbols(*buf)[p] == symbols(*old(buf))[p] && styles(*buf)[p] == styles(
                        *old(buf),
                    )[p],
                primaries_shown(symbols(*buf), area, self.node(), self.options()),
                forall|j: int|
                    0 <= j < pc.inputs().len() && is_plain(pc.inputs()[j].hint()) ==> shows_input(
                        symbols(*buf),
                        area,
                        area.y + #[trigger] pc.slot_row(j, false),
                        shown_hint(pc.inputs()[j], self.options()),
                        weight,
                    ),
                forall|j: int|
                    0 <= j < slot && is_plain(pc.outputs()[j].hint()) ==> shows_output(
                        symbols(*buf),
                        area,
                        area.y + #[trigger] pc.slot_row(j, true),
                        shown_hint(pc.outputs()[j], self.options()),
                        weight,
                    ),
                forall|i: int|
                    #![trigger self.node().ports().outputs()[i]]
                    self.options().show_type_hints && 0 <= i < self.node().ports().outputs().len()
                        ==> byte_len(self.node().ports().outputs()[i].hint()) <= content_width(
                        self.node(),
                        self.options(),
                    ),
                symbols(*buf) == outputs_painted(
                    with_inputs,
                    area,
                    *pc,
                    self.options(),
                    weight,
                    slot as nat,
                ),
                symbols(*buf).dom() == symbols(*old(buf)).dom(),
                forall|p: (int, int)|
                    #![trigger symbols(*buf)[p]]
                    symbols(*old(buf)).dom().contains(p) && !area.contains(p) ==> symbols(*buf)[p]
                        == symbols(*old(buf))[p],
                styles_kept_outside(area, *old(buf), *buf),
                !self.options().show_type_hints || has_plain_hints(self.node()) ==> styles(*buf)
                    == styles(*old(buf)),
            decreases outputs.len() - slot,
        {
            let row: u16 = area.y + pc.get_cell_row_for_slot(slot, true);
            let hint = self.type_hint(&outputs[slot as usize]);
            proof {
                // The hint of the input that shares the row ends before this hint begins
                if self.options().show_type_hints && pc.strategy() == PortRenderingStrategy::Inline
                    && slot < pc.inputs().len() {
                    lemma_slot_hints_clear(self.node(), self.options(), area, slot as int);
                    if is_plain(pc.inputs()[slot as int].hint()) {
                        lemma_byte_len_plain(pc.inputs()[slot as int].hint());
                    }
                }
            }
            let ghost before = symbols(*buf);
            draw_output(buf, area, row, &hint, line_set.vertical_right, weight);
            proof {
                // What the earlier ports show stands on other rows, or ends before this hint
                let after = symbols(*buf);
                lemma_primaries_kept(before, after, area, self.node(), self.options());
                lemma_inputs_kept(
                    before,
                    after,
                    area,
                    self.node(),
                    self.options(),
                    pc.inputs().len(),
                    row as int,
                    area.right() - 2 - hint_len(hint),
                );
                lemma_outputs_kept(
                    before,
                    after,
                    area,
                    self.node(),
                    self.options(),
                    slot as nat,
                    row as int,
                );
            }
            slot += 1;
        }
    }

    /// Renders all the borders for the node: the outline one column inside of
    /// `area` on each side, and the separator below the name row where the
    /// node has ports other than the primary ones. The separator asks for an
    /// area of four columns and three rows. Nothing outside `area` changes.
    pub fn render_borders(&self, area: Area, buf: &mut Buffer)
        requires
            lies_in(area, *old(buf)),
            self.node().ports().spec_is_not_only_primaries() ==> area.width >= 4 && area.height
                >= 3,
        ensures
            whole(*final(buf)),
            symbols(*final(buf)) == borders_painted(symbols(*old(buf)), area, self.node()),
            styles(*final(buf)) == styles(*old(buf)),
            symbols(*final(buf)).dom() == symbols(*old(buf)).dom(),
            forall|p: (int, int)|
                #![trigger symbols(*final(buf))[p]]
                symbols(*old(buf)).dom().contains(p) && !area.contains(p) ==> symbols(
                    *final(buf),
                )[p] == symbols(*old(buf))[p],
    {
        let pc = self.node_ref.get_port_configuration();
        // Change the border depending on the node type
        let weight = self.node_ref.get_type().line_weight();
        // The cells of the buffer have `u16` coordinates, so the edges of `area` have too
        let (grid, _) = bounds(buf);
        proof {
            if area.width > 0 && area.height > 0 {
                let last = (area.right() - 1, area.bottom() - 1);
                assert(grid.cells().contains(last));
            }
        }

        let b_area = area.inner(1, 0);
        draw_outline(buf, b_area, weight);
        let ghost outline = symbols(*buf);

        // Draw a seperator if other ports besides primaries exist
        if pc.is_not_only_primaries() {
            let line_set = junctions(weight);
            let row: u16 = b_area.y + 2;
            let last: u16 = b_area.x + (b_area.width - 1);
            proof {
                reveal_strlit("┅");
            }
            set_symbol(buf, b_area.x, row, line_set.vertical_right);
            set_symbol(buf, last, row, line_set.vertical_left);

            let mut column: u16 = b_area.x + 1;
            while column < last
                invariant
                    b_area.x < column <= last,
                    last == b_area.right() - 1,
                    row == b_area.y + 2,
                    whole(*buf),
                    forall|c: int|
                        b_area.x <= c <= last ==> outline.dom().contains((c, row as int)),
                    "┅"@ == separator(),
                    symbols(*buf) == separator_drawn(outline, b_area, weight, column as int),
                    styles(*buf) == styles(*old(buf)),
                decreases last - column,
            {
                set_symbol(buf, column, row, "┅");
                column += 1;
            }
        }
    }

    /// Draws the name of the node, with a space before and after, in the
    /// first row of `area`, aligned by the primary ports that the node has.
    /// The area ends before the last column that a `u16` can count. Nothing
    /// outside `area` changes, and in an area inside the buffer nothing outside
    /// its first row.
    pub fn render_name(&self, area: Area, buf: &mut Buffer)
        requires
            whole(*old(buf)),
            area.right() < u16::MAX,
        ensures
            whole(*final(buf)),
            symbols(*final(buf)) == line_put(
                symbols(*old(buf)),
                area,
                formatted_name(self.node()),
                self.node().ports().name_alignment(),
            ),
            symbols(*final(buf)).dom() == symbols(*old(buf)).dom(),
            forall|p: (int, int)|
                #![trigger symbols(*final(buf))[p]]
                symbols(*old(buf)).dom().contains(p) && !area.contains(p) ==> symbols(
                    *final(buf),
                )[p] == symbols(*old(buf))[p],
            styles_kept_outside(area, *old(buf), *final(buf)),
            inside(area, symbols(*old(buf))) ==> forall|p: (int, int)|
                #![trigger symbols(*final(buf))[p]]
                #![trigger styles(*final(buf))[p]]
                symbols(*old(buf)).dom().contains(p) && p.1 != area.y ==> symbols(*final(buf))[p]
                    == symbols(*old(buf))[p] && styles(*final(buf))[p] == styles(*old(buf))[p],
            fits_plainly(symbols(*old(buf)), area, formatted_name(self.node())) ==> styles(
                *final(buf),
            ) == styles(*old(buf)),
    {
        let alignment = self.node_ref.get_port_configuration().get_name_alignment();
        let name = self.get_formatted_node_name();
        draw_line(buf, area, name.as_str(), alignment);
    }

    /// Paints the node in `area`: the borders, then the ports, then the name.
    ///
    /// The area has at least the minimum size of the node and lies in the
    /// buffer; [`NodeRenderer::try_render`] tests both. What the buffer then
    /// holds is said by [`paints`].
    pub fn render(&mut self, area: Area, buf: &mut Buffer)
        requires
            old(self).wf(),
            sufficient(old(self).node(), old(self).options(), area),
            lies_in(area, *old(buf)),
        ensures
            final(self).wf(),
            final(self).node() == old(self).node(),
            final(self).options() == old(self).options(),
            final(self).cached() == Some(minimum_size_of(old(self).node(), old(self).options())),
            whole(*final(buf)),
            paints(*old(buf), *final(buf), area, old(self).node(), old(self).options()),
    {
        // Measure the node, so that its size is remembered
        self.get_minimum_size();
        // The cells of the buffer have `u16` coordinates, so the edges of `area` have too
        let (grid, _) = bounds(buf);
        proof {
            let last = (area.right() - 1, area.bottom() - 1);
            assert(grid.cells().contains(last));
        }

        self.render_borders(area, buf);
        self.render_ports(area, buf);
        let ghost with_ports = symbols(*buf);

        let inner_area = area.inner(2, 1);
        proof {
            lemma_name_clear_of_hints(self.node(), self.options(), area);
            if is_plain(self.node().shown_name()) {
                lemma_byte_len_plain(formatted_name(self.node()));
            }
        }
        self.render_name(inner_area, buf);
        proof {
            // The name is written in its room on the name row, where no slot stands
            let picture = symbols(*buf);
            let row = area.y + 1;
            lemma_inputs_kept(
                with_ports,
                picture,
                area,
                self.node(),
                self.options(),
                self.node().ports().inputs().len(),
                row,
                area.x as int,
            );
            lemma_outputs_kept(
                with_ports,
                picture,
                area,
                self.node(),
                self.options(),
                self.node().ports().outputs().len(),
                row,
            );
            if is_plain(self.node().shown_name()) {
                lemma_primaries_beside_name(with_ports, area, self.node(), self.options());
            }
        }
    }

    /// Paints the node in `area` as [`NodeRenderer::render`] does, where the
    /// area has the minimum size of the node and lies in the buffer.
    ///
    /// An area that is narrower or lower than the minimum size of the node is
    /// refused with an error, wherever it lies. For an area of that size that
    /// does not lie in the buffer, or a buffer that is not whole, the result is
    /// `None`. In both cases nothing is painted.
    pub fn try_render(&mut self, area: Area, buf: &mut Buffer) -> (result: Option<
        Result<(), RenderError>,
    >)
        requires
            old(self).wf(),
        ensures
            final(self).wf(),
            final(self).node() == old(self).node(),
            final(self).options() == old(self).options(),
            final(self).cached() == Some(minimum_size_of(old(self).node(), old(self).options())),
            !sufficient(old(self).node(), old(self).options(), area) ==> result == Some(
                Err::<(), RenderError>(
                    RenderError::InsufficientArea {
                        minimum: minimum_size_of(old(self).node(), old(self).options()),
                        given: Size { width: area.width, height: area.height },
                    },
                ),
            ),
            sufficient(old(self).node(), old(self).options(), area) && !lies_in(area, *old(buf))
                ==> result is None,
            sufficient(old(self).node(), old(self).options(), area) && lies_in(area, *old(buf))
                ==> {
                &&& result == Some(Ok::<(), RenderError>(()))
                &&& whole(*final(buf))
                &&& paints(*old(buf), *final(buf), area, old(self).node(), old(self).options())
                &&& area.right() <= u16::MAX && area.bottom() <= u16::MAX
            },
            !(result matches Some(Ok(_))) ==> *final(buf) == *old(buf),
            symbols(*final(buf)).dom() == symbols(*old(buf)).dom(),
            forall|p: (int, int)|
                #![trigger symbols(*final(buf))[p]]
                symbols(*old(buf)).dom().contains(p) && !area.contains(p) ==> symbols(
                    *final(buf),
                )[p] == symbols(*old(buf))[p],
            styles_kept_outside(area, *old(buf), *final(buf)),
    {
        // Ensure the node can be drawn
        if !self.is_sufficient(area) {
            let minimum_size = self.get_minimum_size();
            return Some(
                Err(RenderError::InsufficientArea { minimum: minimum_size, given: area.as_size() }),
            );
        }
        if !fits_in(area, buf) {
            return None;
        }
        self.render(area, buf);
        Some(Ok(()))
    }
}

// CACHE

/// What a renderer remembers of its node: the minimum size, and whether that
/// is the size that the node asks for or a cut one.
#[derive(Debug, Clone, Copy)]
struct RenderingCache {
    minimum_size: Size,
    exact: bool,
}

// UTIL

/// `n` where a `u16` can hold it, else the greatest `u16`.
fn clip(n: u128) -> (c: u16)
    ensures
        c == clipped(n as nat),
{
    if n > 0xffff {
        0xffff
    } else {
        n as u16
    }
}

} // verus!
