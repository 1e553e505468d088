//! The ports of a node and the order in which they are laid out.

use compact_str::CompactString;
use vstd::prelude::*;

use crate::layout::Alignment;
use crate::node::render::MINIMUM_NODE_HEIGHT;
use crate::node::types::Type;
use crate::text::compact_from;
use crate::text::text_of;

verus! {

/// The slot that stands for a primary port, which is drawn on the name row.
pub const PRIMARY_SLOT: u16 = 0xffff;

// PORT

/// A typed connection point of a node.
#[derive(Debug, Clone, PartialEq)]
pub struct Port<'a> {
    ty: &'a Type<'a>,
    name: Option<CompactString>,
}

impl<'a> Port<'a> {
    /// The type of the values that pass through the port.
    pub closed spec fn spec_type(&self) -> &'a Type<'a> {
        self.ty
    }

    /// The name of the port; a primary port has none.
    pub closed spec fn spec_name(&self) -> Option<Seq<char>> {
        match self.name {
            Some(name) => Some(text_of(name)),
            None => None,
        }
    }

    /// The type hint of the port: the display string of its type.
    pub open spec fn hint(&self) -> Seq<char> {
        self.spec_type().display()
    }

    // Constructors

    pub fn new(ty: &'a Type<'a>, name: CompactString) -> (port: Self)
        ensures
            port.spec_type() == ty,
            port.spec_name() == Some(text_of(name)),
    {
        Self { ty, name: Some(name) }
    }

    pub fn primary(ty: &'a Type<'a>) -> (port: Self)
        ensures
            port.spec_type() == ty,
            port.spec_name() is None,
    {
        Self { ty, name: None }
    }

    // Getters

    pub fn get_type_name(&self) -> (name: CompactString)
        ensures
            text_of(name) == self.hint(),
    {
        let name = self.ty.display_name();
        compact_from(name.as_str())
    }
}

// RENDERING STRATEGY

/// How the rows of the input ports and of the output ports are ordered.
#[derive(Debug, Clone, Copy, PartialEq, Eq, Structural)]
pub enum PortRenderingStrategy {
    /// Inputs and output slots are inline with each other.
    Inline,
    /// Inputs are above the outputs.
    InputsFirst,
    /// Outputs are above the inputs.
    OutputsFirst,
}

impl Default for PortRenderingStrategy {
    fn default() -> (strategy: Self)
        ensures
            strategy == PortRenderingStrategy::Inline,
    {
        PortRenderingStrategy::Inline
    }
}

// NAME ALIGNMENT

/// How a name is aligned between the primary ports that are there: centered
/// between both or neither, towards the output side beside a primary input
/// alone, towards the input side beside a primary output alone.
pub open spec fn alignment_beside(has_input: bool, has_output: bool) -> Alignment {
    if has_input == has_output {
        Alignment::Center
    } else if has_input {
        Alignment::Right
    } else {
        Alignment::Left
    }
}

/// The name of a node is centered where the node has both primary ports or
/// neither, stands to the right where it has a primary input alone, and to
/// the left where it has a primary output alone.
pub proof fn lemma_name_alignment(pc: PortConfiguration)
    ensures
        pc.primary_input() is Some && pc.primary_output() is Some ==> pc.name_alignment()
            == Alignment::Center,
        pc.primary_input() is None && pc.primary_output() is None ==> pc.name_alignment()
            == Alignment::Center,
        pc.primary_input() is Some && pc.primary_output() is None ==> pc.name_alignment()
            == Alignment::Right,
        pc.primary_input() is None && pc.primary_output() is Some ==> pc.name_alignment()
            == Alignment::Left,
{
}

// PORT CONFIGURATION

/// The configuration of ports (and how they're rendered) for a node.
#[derive(Debug, Clone, PartialEq)]
pub struct PortConfiguration<'a> {
    /// The primary input of the node; inline with the node's name.
    primary_input: Option<Port<'a>>,
    /// The primary output of the node; inline with the node's name.
    primary_output: Option<Port<'a>>,
    /// The input ports of the node.
    inputs: Vec<Port<'a>>,
    /// The output ports of the node.
    outputs: Vec<Port<'a>>,
    /// Designates how the ports will be rendered.
    rendering_strategy: PortRenderingStrategy,
}

impl<'a> Default for PortConfiguration<'a> {
    fn default() -> (pc: Self)
        ensures
            pc.primary_input() is None,
            pc.primary_output() is None,
            pc.inputs().len() == 0,
            pc.outputs().len() == 0,
            pc.strategy() == PortRenderingStrategy::Inline,
    {
        Self {
            primary_input: None,
            primary_output: None,
            inputs: Vec::new(),
            outputs: Vec::new(),
            rendering_strategy: PortRenderingStrategy::Inline,
        }
    }
}

impl<'a> PortConfiguration<'a> {
    // Model

    /// The primary input, if there is one.
    pub closed spec fn primary_input(&self) -> Option<Port<'a>> {
        self.primary_input
    }

    /// The primary output, if there is one.
    pub closed spec fn primary_output(&self) -> Option<Port<'a>> {
        self.primary_output
    }

    /// The input ports other than the primary one, by slot.
    pub closed spec fn inputs(&self) -> Seq<Port<'a>> {
        self.inputs@
    }

    /// The output ports other than the primary one, by slot.
    pub closed spec fn outputs(&self) -> Seq<Port<'a>> {
        self.outputs@
    }

    /// The rendering strategy.
    pub closed spec fn strategy(&self) -> PortRenderingStrategy {
        self.rendering_strategy
    }

    /// There is no port at all.
    pub open spec fn spec_is_empty(&self) -> bool {
        self.primary_input() is None && self.primary_output() is None && self.inputs().len() == 0
            && self.outputs().len() == 0
    }

    /// There is a primary port and no other port.
    pub open spec fn spec_is_only_primaries(&self) -> bool {
        (self.primary_input() is Some || self.primary_output() is Some) && self.inputs().len() == 0
            && self.outputs().len() == 0
    }

    /// There is a port that is not primary.
    pub open spec fn spec_is_not_only_primaries(&self) -> bool {
        self.inputs().len() != 0 || self.outputs().len() != 0
    }

    /// The row, counted from the top edge of the node, of the port in `slot` on
    /// the given side, for a port other than the primary ones. These ports
    /// follow the three rows that every node has: slot by slot when inputs and
    /// outputs share rows, else one group below the whole of the other.
    pub open spec fn slot_row(&self, slot: int, is_output: bool) -> int {
        MINIMUM_NODE_HEIGHT + match self.strategy() {
            PortRenderingStrategy::Inline => slot,
            PortRenderingStrategy::InputsFirst => if is_output {
                self.inputs().len() + slot
            } else {
                slot
            },
            PortRenderingStrategy::OutputsFirst => if !is_output {
                self.outputs().len() + slot
            } else {
                slot
            },
        }
    }

    /// The row, counted from the top edge of the node, of the port in `slot` on
    /// the given side. The primary ports stand on the name row, whatever the
    /// rendering strategy.
    pub open spec fn row_for_slot(&self, slot: u16, is_output: bool) -> int {
        if slot == PRIMARY_SLOT {
            1
        } else {
            self.slot_row(slot as int, is_output)
        }
    }

    /// How the name of the node is aligned on the name row.
    pub open spec fn name_alignment(&self) -> Alignment {
        alignment_beside(self.primary_input() is Some, self.primary_output() is Some)
    }

    // Constructors

    /// Creates a new port configuration with the given inputs and outputs.
    pub fn new(
        primary_input: Option<Port<'a>>,
        primary_output: Option<Port<'a>>,
        inputs: Vec<Port<'a>>,
        outputs: Vec<Port<'a>>,
    ) -> (pc: Self)
        ensures
            pc.primary_input() == primary_input,
            pc.primary_output() == primary_output,
            pc.inputs() == inputs@,
            pc.outputs() == outputs@,
            pc.strategy() == PortRenderingStrategy::Inline,
    {
        Self {
            primary_input,
            primary_output,
            inputs,
            outputs,
            rendering_strategy: PortRenderingStrategy::Inline,
        }
    }

    // Builder Methods

    /// Modifies the rendering method of how the ports are drawn. By default, ports are drawn inline
    /// with each other (1st input port is on the same line as the 1st output port) with the
    /// [PortRenderingStrategy::Inline] strategy. See [PortRenderingStrategy] for available options.
    #[must_use]
    pub fn with_rendering_strategy(self, rendering_strategy: PortRenderingStrategy) -> (pc: Self)
        ensures
            pc.strategy() == rendering_strategy,
            pc.primary_input() == self.primary_input(),
            pc.primary_output() == self.primary_output(),
            pc.inputs() == self.inputs(),
            pc.outputs() == self.outputs(),
    {
        let mut pc = self;
        pc.rendering_strategy = rendering_strategy;
        pc
    }

    pub fn with_primary_input(self, port: Port<'a>) -> (pc: Self)
        ensures
            pc.primary_input() == Some(port),
            pc.primary_output() == self.primary_output(),
            pc.inputs() == self.inputs(),
            pc.outputs() == self.outputs(),
            pc.strategy() == self.strategy(),
    {
        let mut pc = self;
        pc.primary_input = Some(port);
        pc
    }

    pub fn with_primary_output(self, port: Port<'a>) -> (pc: Self)
        ensures
            pc.primary_output() == Some(port),
            pc.primary_input() == self.primary_input(),
            pc.inputs() == self.inputs(),
            pc.outputs() == self.outputs(),
            pc.strategy() == self.strategy(),
    {
        let mut pc = self;
        pc.primary_output = Some(port);
        pc
    }

    pub fn with_input(self, port: Port<'a>) -> (pc: Self)
        ensures
            pc.inputs() == self.inputs().push(port),
            pc.primary_input() == self.primary_input(),
            pc.primary_output() == self.primary_output(),
            pc.outputs() == self.outputs(),
            pc.strategy() == self.strategy(),
    {
        let mut pc = self;
        pc.inputs.push(port);
        pc
    }

    pub fn with_output(self, port: Port<'a>) -> (pc: Self)
        ensures
            pc.outputs() == self.outputs().push(port),
            pc.primary_input() == self.primary_input(),
            pc.primary_output() == self.primary_output(),
            pc.inputs() == self.inputs(),
            pc.strategy() == self.strategy(),
    {
        let mut pc = self;
        pc.outputs.push(port);
        pc
    }

    // States

    /// Returns `true` if there are no input or output ports.
    pub fn is_empty(&self) -> (empty: bool)
        ensures
            empty == self.spec_is_empty(),
    {
        self.primary_input.is_none() && self.primary_output.is_none() && self.inputs.len() == 0
            && self.outputs.len() == 0
    }

    /// Returns `true` if there are no non-primary ports.
    pub fn is_only_primaries(&self) -> (only: bool)
        ensures
            only == self.spec_is_only_primaries(),
    {
        (self.primary_input.is_some() || self.primary_output.is_some()) && self.inputs.len() == 0
            && self.outputs.len() == 0
    }

    /// Returns `true` if there are non-primary ports.
    pub fn is_not_only_primaries(&self) -> (not_only: bool)
        ensures
            not_only == self.spec_is_not_only_primaries(),
    {
        self.inputs.len() != 0 || self.outputs.len() != 0
    }

    // Getters

    /// Gets the number of input ports, excluding the primary port (if present).
    pub fn get_input_port_count(&self) -> (count: usize)
        ensures
            count == self.inputs().len(),
    {
        self.inputs.len()
    }

    /// Gets the number of output ports, excluding the primary port (if present).
    pub fn get_output_port_count(&self) -> (count: usize)
        ensures
            count == self.outputs().len(),
    {
        self.outputs.len()
    }

    /// Gets the rendering strategy.
    pub fn get_rendering_strategy(&self) -> (strategy: &PortRenderingStrategy)
        ensures
            *strategy == self.strategy(),
    {
        &self.rendering_strategy
    }

    /// Gets a reference to the primary input port (if present).
    pub fn get_primary_input(&self) -> (port: Option<&Port<'a>>)
        ensures
            match port {
                Some(p) => self.primary_input() == Some(*p),
                None => self.primary_input() is None,
            },
    {
        self.primary_input.as_ref()
    }

    /// Gets a reference to the primary output port (if present).
    pub fn get_primary_output(&self) -> (port: Option<&Port<'a>>)
        ensures
            match port {
                Some(p) => self.primary_output() == Some(*p),
                None => self.primary_output() is None,
            },
    {
        self.primary_output.as_ref()
    }

    /// Gets a reference to the input ports.
    pub fn get_input_ports(&self) -> (ports: &Vec<Port<'a>>)
        ensures
            ports@ == self.inputs(),
    {
        &self.inputs
    }

    /// Gets a reference to the output ports.
    pub fn get_output_ports(&self) -> (ports: &Vec<Port<'a>>)
        ensures
            ports@ == self.outputs(),
    {
        &self.outputs
    }

    // Setters

    /// Sets the primary input to `port`.
    pub fn set_primary_input(&mut self, port: Port<'a>)
        ensures
            final(self).primary_input() == Some(port),
            final(self).primary_output() == old(self).primary_output(),
            final(self).inputs() == old(self).inputs(),
            final(self).outputs() == old(self).outputs(),
            final(self).strategy() == old(self).strategy(),
    {
        self.primary_input = Some(port);
    }

    /// Sets the primary output to `port`.
    pub fn set_primary_output(&mut self, port: Port<'a>)
        ensures
            final(self).primary_output() == Some(port),
            final(self).primary_input() == old(self).primary_input(),
            final(self).inputs() == old(self).inputs(),
            final(self).outputs() == old(self).outputs(),
            final(self).strategy() == old(self).strategy(),
    {
        self.primary_output = Some(port);
    }

    /// Removes the primary input.
    pub fn remove_primary_input(&mut self)
        ensures
            final(self).primary_input() is None,
            final(self).primary_output() == old(self).primary_output(),
            final(self).inputs() == old(self).inputs(),
            final(self).outputs() == old(self).outputs(),
            final(self).strategy() == old(self).strategy(),
    {
        self.primary_input = None;
    }

    /// Removes the primary output.
    pub fn remove_primary_output(&mut self)
        ensures
            final(self).primary_output() is None,
            final(self).primary_input() == old(self).primary_input(),
            final(self).inputs() == old(self).inputs(),
            final(self).outputs() == old(self).outputs(),
            final(self).strategy() == old(self).strategy(),
    {
        self.primary_output = None;
    }

    /// Adds an input port.
    pub fn add_input(&mut self, port: Port<'a>)
        ensures
            final(self).inputs() == old(self).inputs().push(port),
            final(self).primary_input() == old(self).primary_input(),
            final(self).primary_output() == old(self).primary_output(),
            final(self).outputs() == old(self).outputs(),
            final(self).strategy() == old(self).strategy(),
    {
        self.inputs.push(port);
    }

    /// Adds an output port.
    pub fn add_output(&mut self, port: Port<'a>)
        ensures
            final(self).outputs() == old(self).outputs().push(port),
            final(self).primary_input() == old(self).primary_input(),
            final(self).primary_output() == old(self).primary_output(),
            final(self).inputs() == old(self).inputs(),
            final(self).strategy() == old(self).strategy(),
    {
        self.outputs.push(port);
    }

    /// Gets the alignment of the name of the node on the name row.
    pub fn get_name_alignment(&self) -> (alignment: Alignment)
        ensures
            alignment == self.name_alignment(),
    {
        if self.primary_input.is_some() == self.primary_output.is_some() {
            Alignment::Center
        } else if self.primary_input.is_some() {
            Alignment::Right
        } else {
            Alignment::Left
        }
    }

    // Util

    /// Gets the row relative to the top border of a node that the port on the specified side and slot is on.
    pub fn get_cell_row_for_slot(&self, slot: u16, is_output: bool) -> (row: u16)
        requires
            self.row_for_slot(slot, is_output) <= u16::MAX,
        ensures
            row == self.row_for_slot(slot, is_output),
    {
        if slot == PRIMARY_SLOT {
            return 1;
        }
        // Bypass the top border, name, and seperator then add depending on the strategy
        let pushed: usize = match self.rendering_strategy {
            PortRenderingStrategy::Inline => 0,
            PortRenderingStrategy::InputsFirst => {
                if is_output {
                    self.inputs.len()
                } else {
                    0
                }
            },
            PortRenderingStrategy::OutputsFirst => {
                if !is_output {
                    self.outputs.len()
                } else {
                    0
                }
            },
        };
        MINIMUM_NODE_HEIGHT + (pushed as u16) + slot
    }
}

} // verus!
