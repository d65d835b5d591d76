//! The `Render` trait: every displayable type turns into an ASCII panel.
use vstd::prelude::*;

verus! {

/// Render a type to an ASCII art dashboard representation.
pub trait Render {
    /// Returns an ASCII dashboard string.
    fn render(&self) -> String;
}

} // verus!
