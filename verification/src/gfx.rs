//! Rendering-facing value types: colors, flip and fullscreen modes, and the
//! error taxonomy of the graphics layer.

use vstd::prelude::*;

verus! {

/// Errors of the windowing and rendering layer. Initialization and render
/// failures are fatal for the frame loop; nothing here is retried.
#[derive(Clone, Copy, Debug, PartialEq, Eq, Structural)]
pub enum SDLErrs {
    DefaultErr,
    InitializationErr,
    LoadTextureErr,
    TTFQueryTextureErr,
    TTFFontErr,
    DisplayModeErr,
    WindowFullScreenErr,
    LoadSurfaceErr,
    CreateRGBSurfaceErr,
    BlitSurfaceErr,
    CreateTextureFromSurfaceErr,
    FillRectFaild,
    RenderErr,
}

/// How a sprite is mirrored when blitted.
#[derive(Clone, Copy, Debug, PartialEq, Eq, Structural)]
pub enum RendererFlip {
    NoFlip,
    Horizontal,
    Vertical,
}

/// Window fullscreen mode.
#[derive(Clone, Copy, Debug, PartialEq, Eq, Structural)]
pub enum FullscreenType {
    Off,
    True,
    Desktop,
}

/// An RGBA color.
#[derive(Clone, Copy, Debug, PartialEq, Eq, Structural)]
pub struct Color {
    pub r: u8,
    pub g: u8,
    pub b: u8,
    pub a: u8,
}

impl From<(u8, u8, u8)> for Color {
    /// An opaque color from an RGB triple.
    fn from(t: (u8, u8, u8)) -> (c: Color) {
        Color { r: t.0, g: t.1, b: t.2, a: 0xff }
    }
}

impl vstd::std_specs::convert::FromSpecImpl<(u8, u8, u8)> for Color {
    open spec fn obeys_from_spec() -> bool {
        true
    }

    open spec fn from_spec(t: (u8, u8, u8)) -> Color {
        Color { r: t.0, g: t.1, b: t.2, a: 0xff }
    }
}

impl From<(u8, u8, u8, u8)> for Color {
    /// A color from an RGBA quadruple.
    fn from(t: (u8, u8, u8, u8)) -> (c: Color) {
        Color { r: t.0, g: t.1, b: t.2, a: t.3 }
    }
}

impl vstd::std_specs::convert::FromSpecImpl<(u8, u8, u8, u8)> for Color {
    open spec fn obeys_from_spec() -> bool {
        true
    }

    open spec fn from_spec(t: (u8, u8, u8, u8)) -> Color {
        Color { r: t.0, g: t.1, b: t.2, a: t.3 }
    }
}

} // verus!
