//! Layout and painting of the nodes of a node-graph editor on a grid of
//! character cells.
//!
//! A [`node::Node`] carries a classification, an optional alias and its ports.
//! A [`node::render::NodeRenderer`] measures the smallest rectangle in which the
//! node can be drawn and paints it into a `ratatui` buffer: the border, the
//! ports with their type hints, and the name.
//!
//! Every function carries a contract. The contracts of the renderer speak of
//! the size that a node asks for ([`node::measure`]) and of the picture that
//! painting leaves on the grid ([`node::picture`]), over the model of the
//! buffer that [`canvas`] gives: the symbol that each cell shows and the style
//! it is shown in. What is believed of `ratatui` and of `compact_str` without
//! proof stands in [`canvas`] and in [`text`].

pub mod canvas;
pub mod layout;
pub mod node;
pub mod text;
pub mod util;
