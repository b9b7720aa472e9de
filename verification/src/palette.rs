//! The named colours that the views paint with, and colours made translucent.
use vstd::prelude::*;

verus! {

/// One of the named colours of GPUI's palette (`gpui::red()` and the others).
#[derive(Clone, Copy, Debug, PartialEq, Eq, Structural)]
pub enum PaletteColor {
    Red,
    Green,
    Blue,
    Yellow,
    Black,
    White,
}

/// A palette colour drawn at a given opacity, in percent (`color.opacity(percent / 100)`).
#[derive(Clone, Copy, Debug, PartialEq, Eq, Structural)]
pub struct Tint {
    pub color: PaletteColor,
    pub opacity_percent: u8,
}

/// The opacity of a hover highlight and of the drop target's fill.
pub const HIGHLIGHT_OPACITY: u8 = 20;

/// The opacity of the preview that follows the pointer while an item is dragged.
pub const PREVIEW_OPACITY: u8 = 50;

impl Tint {
    /// Whether the opacity is a percentage.
    pub open spec fn wf(self) -> bool {
        self.opacity_percent <= 100
    }

    /// `color` at `opacity_percent` percent opacity.
    pub fn new(color: PaletteColor, opacity_percent: u8) -> (t: Tint)
        requires
            opacity_percent <= 100,
        ensures
            t.wf(),
            t.color == color,
            t.opacity_percent == opacity_percent,
    {
        Tint { color, opacity_percent }
    }
}

} // verus!
