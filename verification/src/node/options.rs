//! What a caller can choose about how nodes are drawn.

use vstd::prelude::*;

verus! {

/// The display options that a renderer draws with.
#[derive(Debug, Clone, Copy, PartialEq, Eq, Structural)]
pub struct DisplayOptions {
    /// Whether the type of each port is written beside it.
    pub show_type_hints: bool,
}

impl Default for DisplayOptions {
    fn default() -> (options: Self)
        ensures
            !options.show_type_hints,
    {
        DisplayOptions { show_type_hints: false }
    }
}

} // verus!
