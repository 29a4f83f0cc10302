//! The design vocabulary shared by every component: control size, semantic
//! intent, visual variant, layout orientation, overlay placement and
//! theme mode.
use vstd::prelude::*;

verus! {

/// Control size; every component scales its metrics by it.
#[derive(Clone, Copy, Debug, PartialEq, Eq, Structural)]
pub enum Size {
    Small,
    Medium,
    Large,
}

/// Semantic colour family a component is drawn with.
#[derive(Clone, Copy, Debug, PartialEq, Eq, Structural)]
pub enum Intent {
    Neutral,
    Primary,
    Secondary,
    Success,
    Warning,
    Danger,
    Info,
}

/// Fill treatment of a component.
#[derive(Clone, Copy, Debug, PartialEq, Eq, Structural)]
pub enum Variant {
    Solid,
    Subtle,
    Outline,
    /// No fill or border until the control is hovered.
    Ghosted,
}

/// Direction in which a group lays out its children.
#[derive(Clone, Copy, Debug, PartialEq, Eq, Structural)]
pub enum Orientation {
    Horizontal,
    Vertical,
}

/// The side of its anchor on which an overlay opens.
#[derive(Clone, Copy, Debug, PartialEq, Eq, Structural)]
pub enum Placement {
    Top,
    Right,
    Bottom,
    Left,
}

/// Light or dark appearance of the theme.
#[derive(Clone, Copy, Debug, PartialEq, Eq, Structural)]
pub enum ThemeMode {
    Light,
    Dark,
}

} // verus!
