//! The layout-settings value the foreign caller hands to text generation.

use vstd::prelude::*;

verus! {

/// Horizontal wrap mode: wrap at the layout rectangle's edge.
pub const HORIZONTAL_WRAP_MODE_WRAP: i32 = 0;

/// Horizontal wrap mode: let the text overflow the layout rectangle.
pub const HORIZONTAL_WRAP_MODE_OVERFLOW: i32 = 1;

/// Vertical wrap mode: truncate at the layout rectangle's edge.
pub const VERTICAL_WRAP_MODE_TRUNCATE: i32 = 0;

/// Vertical wrap mode: let the text overflow the layout rectangle.
pub const VERTICAL_WRAP_MODE_OVERFLOW: i32 = 1;

/// The mutable configuration the foreign caller passes along with each
/// string to lay out.  The fields are plain values; filter directives
/// embedded in template text mutate them in place, and the possibly-changed
/// value is forwarded to the pre-redirection implementation.
#[derive(Clone, Copy, Debug, PartialEq, Eq, Structural)]
pub struct TextGenerationSettings {
    /// Horizontal overflow mode: one of the `HORIZONTAL_WRAP_MODE_*` values.
    pub horizontal_overflow: i32,
    /// Vertical overflow mode: one of the `VERTICAL_WRAP_MODE_*` values.
    pub vertical_overflow: i32,
    /// Whether glyphs may be generated outside the layout bounds.
    pub generate_out_of_bounds: bool,
    /// Text anchor position, zero-based in grid order (top-left is 0,
    /// bottom-right is 8).
    pub text_anchor: i32,
    /// Font size.
    pub font_size: i32,
}

} // verus!
