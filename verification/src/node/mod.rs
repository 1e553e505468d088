//! Nodes: what they are, how they are named, and the ports they have.

use compact_str::CompactString;
use vstd::prelude::*;

use crate::canvas::LineWeight;
use crate::node::ports::PortConfiguration;
use crate::node::types::DefinedType;
use crate::text::compact_as_str;
use crate::text::compact_from;
use crate::text::text_of;

pub mod measure;
pub mod options;
pub mod picture;
pub mod ports;
pub mod render;
pub mod types;

verus! {

// NODE

/// A node of the graph: its classification, an optional alias that is shown
/// in place of its own name, and its ports.
#[derive(Debug, PartialEq, Clone)]
pub struct Node<'a> {
    ty: NodeType<'a>,
    alias: Option<CompactString>,
    port_configuration: PortConfiguration<'a>,
}

impl<'a> Node<'a> {
    // Model

    /// The classification of the node.
    pub closed spec fn spec_type(&self) -> NodeType<'a> {
        self.ty
    }

    /// The alias of the node, if it has one.
    pub closed spec fn spec_alias(&self) -> Option<Seq<char>> {
        match self.alias {
            Some(alias) => Some(text_of(alias)),
            None => None,
        }
    }

    /// The ports of the node.
    pub closed spec fn ports(&self) -> PortConfiguration<'a> {
        self.port_configuration
    }

    /// The name under which the node is shown: its alias where it has one,
    /// else the name that its classification gives.
    pub open spec fn shown_name(&self) -> Seq<char> {
        match self.spec_alias() {
            Some(alias) => alias,
            None => self.spec_type().name(),
        }
    }

    // Constructors

    pub fn new(ty: NodeType<'a>, port_configuration: PortConfiguration<'a>) -> (node: Self)
        ensures
            node.spec_type() == ty,
            node.spec_alias() is None,
            node.ports() == port_configuration,
    {
        Self { ty, alias: None, port_configuration }
    }

    // Builder Methods

    pub fn with_alias(self, alias: &str) -> (node: Self)
        ensures
            node.spec_alias() == Some(alias@),
            node.spec_type() == self.spec_type(),
            node.ports() == self.ports(),
    {
        let mut node = self;
        node.alias = Some(compact_from(alias));
        node
    }

    pub fn without_alias(self) -> (node: Self)
        ensures
            node.spec_alias() is None,
            node.spec_type() == self.spec_type(),
            node.ports() == self.ports(),
    {
        let mut node = self;
        node.alias = None;
        node
    }

    pub fn with_type(self, ty: NodeType<'a>) -> (node: Self)
        ensures
            node.spec_type() == ty,
            node.spec_alias() == self.spec_alias(),
            node.ports() == self.ports(),
    {
        let mut node = self;
        node.ty = ty;
        node
    }

    pub fn with_port_configuration(self, pc: PortConfiguration<'a>) -> (node: Self)
        ensures
            node.ports() == pc,
            node.spec_type() == self.spec_type(),
            node.spec_alias() == self.spec_alias(),
    {
        let mut node = self;
        node.port_configuration = pc;
        node
    }

    // Getters

    pub fn get_node_name_or_alias(&self) -> (name: &str)
        ensures
            name@ == self.shown_name(),
    {
        match &self.alias {
            Some(alias) => compact_as_str(alias),
            None => self.get_node_name(),
        }
    }

    pub fn get_node_name(&self) -> (name: &str)
        ensures
            name@ == self.spec_type().name(),
    {
        match &self.ty {
            NodeType::Builtin(ty) => Self::get_builtin_node_name(ty),
            NodeType::StructInitializtion(dt) => dt.get_name(),
            NodeType::Defined(t_) => t_,
        }
    }

    fn get_builtin_node_name(ty: &BuiltinType) -> (name: &'static str)
        ensures
            name@ == ty.name(),
    {
        match ty {
            BuiltinType::ENTRY => "ENTRY",
            BuiltinType::EXIT => "EXIT",
            BuiltinType::COMMENT => "COMMENT",
        }
    }

    /// Gets a reference to the ports of the node.
    pub fn get_port_configuration(&self) -> (pc: &PortConfiguration<'a>)
        ensures
            *pc == self.ports(),
    {
        &self.port_configuration
    }

    /// Gets a reference to the classification of the node.
    pub fn get_type(&self) -> (ty: &NodeType<'a>)
        ensures
            *ty == self.spec_type(),
    {
        &self.ty
    }
}

// NODE TYPES

/// What a node is: one of the nodes that every graph knows, the construction
/// of a value of a record type, or a node type that the graph declares.
#[derive(Debug, PartialEq, Clone)]
pub enum NodeType<'a> {
    Builtin(BuiltinType),
    StructInitializtion(&'a DefinedType<'a>),
    Defined(&'a str),
}

impl<'a> NodeType<'a> {
    /// The weight of the lines that a node of this classification is drawn
    /// with: double lines where it builds a record, thick lines otherwise.
    pub open spec fn weight(&self) -> LineWeight {
        match self {
            NodeType::StructInitializtion(_) => LineWeight::Double,
            NodeType::Builtin(_) | NodeType::Defined(_) => LineWeight::Thick,
        }
    }

    /// The weight of the lines that a node of this classification is drawn
    /// with.
    pub fn line_weight(&self) -> (weight: LineWeight)
        ensures
            weight == self.weight(),
    {
        match self {
            NodeType::StructInitializtion(_) => LineWeight::Double,
            NodeType::Builtin(_) | NodeType::Defined(_) => LineWeight::Thick,
        }
    }

    /// The name that the classification gives a node without an alias.
    pub open spec fn name(&self) -> Seq<char> {
        match self {
            NodeType::Builtin(ty) => ty.name(),
            NodeType::StructInitializtion(dt) => dt.name_text(),
            NodeType::Defined(name) => name@,
        }
    }
}

#[derive(Debug, PartialEq, Clone)]
pub enum BuiltinType {
    COMMENT,
    ENTRY,
    EXIT,
}

impl BuiltinType {
    /// The name of the builtin node.
    pub open spec fn name(&self) -> Seq<char> {
        match self {
            BuiltinType::ENTRY => "ENTRY"@,
            BuiltinType::EXIT => "EXIT"@,
            BuiltinType::COMMENT => "COMMENT"@,
        }
    }
}

} // verus!
