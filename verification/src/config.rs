//! The fixed values the program hands to the windowing and graphics
//! layers: the window and context request, the per-frame clear color,
//! the layout of the one vertex attribute, and the byte sizes of the
//! uploaded buffers.

use vstd::prelude::*;

verus! {

/// What the program asks of the windowing layer: a titled window of a
/// fixed size with a core-profile context of a fixed version.
pub struct WindowConfig {
    pub title: &'static str,
    pub width: u32,
    pub height: u32,
    pub gl_major: u8,
    pub gl_minor: u8,
    pub core_profile: bool,
}

/// The one window this program opens: "Window", 800 by 600, asking for
/// a core-profile context of version 4.4.
pub fn window_config() -> (c: WindowConfig)
    ensures
        c.title@ == "Window"@,
        c.width == 800,
        c.height == 600,
        c.gl_major == 4,
        c.gl_minor == 4,
        c.core_profile,
{
    WindowConfig {
        title: "Window",
        width: 800,
        height: 600,
        gl_major: 4,
        gl_minor: 4,
        core_profile: true,
    }
}

/// A color with 8-bit normalized channels: 0 stands for 0.0 and 255 for
/// full intensity 1.0.
#[derive(Clone, Copy, PartialEq, Eq, Structural, Debug)]
pub struct Color {
    pub r: u8,
    pub g: u8,
    pub b: u8,
    pub a: u8,
}

/// The per-frame clear color: opaque green, against which the red quad
/// is drawn.
pub fn clear_color() -> (c: Color)
    ensures
        c == (Color { r: 0u8, g: 255u8, b: 0u8, a: 255u8 }),
{
    Color { r: 0, g: 255, b: 0, a: 255 }
}

/// The layout of one vertex attribute: which attribute slot it fills,
/// how many components it has, whether the driver should normalize it,
/// and where its values sit in the buffer.
#[derive(Clone, Copy, PartialEq, Eq, Structural, Debug)]
pub struct AttributeLayout {
    pub index: u32,
    pub components: u32,
    pub normalized: bool,
    pub stride_bytes: u32,
    pub offset_bytes: u32,
}

/// The byte width of one four-byte float component.
pub const FLOAT_BYTES: u32 = 4;

/// The position attribute: slot zero, two float components, tightly
/// packed from the start of the buffer, not normalized.
pub fn position_attribute_layout() -> (l: AttributeLayout)
    ensures
        l.index == 0,
        l.components == 2,
        !l.normalized,
        l.stride_bytes == l.components * FLOAT_BYTES,
        l.offset_bytes == 0,
{
    AttributeLayout { index: 0, components: 2, normalized: false, stride_bytes: 8, offset_bytes: 0 }
}

/// The byte size of a buffer of `len` elements of `elem_bytes` each,
/// or nothing where the product does not fit the machine word.
pub fn buffer_byte_size(len: usize, elem_bytes: usize) -> (r: Option<usize>)
    ensures
        r is Some <==> len * elem_bytes <= usize::MAX,
        r matches Some(n) ==> n == len * elem_bytes,
{
    len.checked_mul(elem_bytes)
}

} // verus!
