//! Appearance data for the board's visual elements: a color and a
//! texture reference per element kind, with conventional defaults.

use vstd::prelude::*;

verus! {

/// Handle value standing for the conventional blank/default texture.
pub const DEFAULT_TEXTURE: u64 = 0;

/// An RGBA color with 8-bit channels.
#[derive(Clone, Copy, Debug, PartialEq, Eq, Structural)]
pub struct Color {
    pub r: u8,
    pub g: u8,
    pub b: u8,
    pub a: u8,
}

impl Color {
    /// An opaque color from red, green and blue channels.
    pub fn rgb(r: u8, g: u8, b: u8) -> (c: Color)
        ensures
            c == (Color { r, g, b, a: 255 }),
    {
        Color { r, g, b, a: 255 }
    }

    /// Opaque white.
    pub fn white() -> (c: Color)
        ensures
            c == (Color { r: 255, g: 255, b: 255, a: 255 }),
    {
        Color::rgb(255, 255, 255)
    }
}

/// Material of a visual element: a color and a texture reference.
#[derive(Clone, Copy, Debug, PartialEq, Eq, Structural)]
pub struct SpriteMaterial {
    pub color: Color,
    pub texture: u64,
}

impl Default for SpriteMaterial {
    /// The default material: opaque white with the default texture.
    fn default() -> (r: Self)
        ensures
            r == (SpriteMaterial {
                color: Color { r: 255, g: 255, b: 255, a: 255 },
                texture: DEFAULT_TEXTURE,
            }),
    {
        SpriteMaterial { color: Color::white(), texture: DEFAULT_TEXTURE }
    }
}

/// Assets for the board: a label and one material per element kind.
#[derive(Clone, Debug, PartialEq, Eq)]
pub struct BoardAssets {
    /// Label.
    pub label: String,
    /// Board background.
    pub board_material: SpriteMaterial,
    pub tank: SpriteMaterial,
    pub cover: SpriteMaterial,
    pub alien: SpriteMaterial,
}

impl BoardAssets {
    /// Default color set: white, green, yellow, orange, purple.
    pub fn default_colors() -> (r: Vec<Color>)
        ensures
            r@ == seq![
                Color { r: 255, g: 255, b: 255, a: 255 },
                Color { r: 0, g: 255, b: 0, a: 255 },
                Color { r: 255, g: 255, b: 0, a: 255 },
                Color { r: 255, g: 165, b: 0, a: 255 },
                Color { r: 128, g: 0, b: 128, a: 255 },
            ],
    {
        let mut colors: Vec<Color> = Vec::new();
        colors.push(Color::white());
        colors.push(Color::rgb(0, 255, 0));
        colors.push(Color::rgb(255, 255, 0));
        colors.push(Color::rgb(255, 165, 0));
        colors.push(Color::rgb(128, 0, 128));
        proof {
            assert(colors@ =~= seq![
                Color { r: 255, g: 255, b: 255, a: 255 },
                Color { r: 0, g: 255, b: 0, a: 255 },
                Color { r: 255, g: 255, b: 0, a: 255 },
                Color { r: 255, g: 165, b: 0, a: 255 },
                Color { r: 128, g: 0, b: 128, a: 255 },
            ]);
        }
        colors
    }
}

} // verus!
