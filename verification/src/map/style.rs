use vstd::prelude::*;

verus! {

/// An sRGB colour with alpha, each channel in thousandths (`0..=1000`).
#[derive(Clone, Copy, PartialEq, Eq, Structural, Debug)]
pub struct Rgba {
    pub r: u16,
    pub g: u16,
    pub b: u16,
    pub a: u16,
}

/// Yellow, the colour of the selected node.
pub open spec fn spec_node_selected_color() -> Rgba {
    Rgba { r: 1000, g: 1000, b: 0, a: 1000 }
}

/// Translucent blue-grey, the colour of a link with no selected end.
pub open spec fn spec_link_color() -> Rgba {
    Rgba { r: 500, g: 500, b: 800, a: 500 }
}

/// Yellow, the colour of a link one of whose ends is selected.
pub open spec fn spec_link_selected_color() -> Rgba {
    Rgba { r: 1000, g: 1000, b: 0, a: 1000 }
}

/// The colour of a node: yellow while selected, its own colour otherwise.
pub fn node_color(base: Rgba, selected: bool) -> (c: Rgba)
    ensures
        c == (if selected { spec_node_selected_color() } else { base }),
{
    if selected {
        Rgba { r: 1000, g: 1000, b: 0, a: 1000 }
    } else {
        base
    }
}

/// The colour a link is drawn in, from whether one of its ends is selected.
pub fn link_color(highlighted: bool) -> (c: Rgba)
    ensures
        c == (if highlighted { spec_link_selected_color() } else { spec_link_color() }),
{
    if highlighted {
        Rgba { r: 1000, g: 1000, b: 0, a: 1000 }
    } else {
        Rgba { r: 500, g: 500, b: 800, a: 500 }
    }
}

} // verus!
