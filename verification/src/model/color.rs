//! Color abstraction for chart elements.
//!
//! [`ColorType`] lets users specify solid colors or gradients, from RGBA
//! components or CSS-style hex strings. Components are premultiplied RGBA, as
//! egui's `Color32` holds them.
use crate::text::push_str;
use vstd::prelude::*;
use vstd::string::StringSliceAdditionalSpecFns;
use vstd::utf8::{decode_utf8, encode_utf8_decode_utf8, is_continuation_byte};

verus! {

/// An RGBA color with premultiplied alpha: the four components of an egui `Color32`.
#[derive(Debug, Clone, Copy, PartialEq, Eq, Hash, Structural)]
pub struct Rgba {
    pub r: u8,
    pub g: u8,
    pub b: u8,
    pub a: u8,
}

/// A color specification that can be a solid RGBA value or a gradient.
///
/// Most chart elements accept a `ColorType` so users can choose between flat
/// colors and gradients without changing APIs.
#[derive(Debug, Clone, Copy, PartialEq, Eq, Structural)]
pub enum ColorType {
    /// Solid color (RGBA)
    Solid(Rgba),
    /// Vertical gradient from top to bottom
    VerticalGradient { top_color: Rgba, bottom_color: Rgba },
    /// Horizontal gradient from left to right (rarely used)
    HorizontalGradient { left_color: Rgba, right_color: Rgba },
}

/// Number of leading `#` bytes.
pub open spec fn leading_hashes(b: Seq<u8>) -> nat
    decreases b.len(),
{
    if b.len() > 0 && b[0] == 0x23u8 {
        1 + leading_hashes(b.drop_first())
    } else {
        0
    }
}

/// Value of an ASCII hexadecimal digit, of either case.
pub open spec fn hex_digit(c: u8) -> Option<nat> {
    if 0x30 <= c <= 0x39 {
        Some((c - 0x30) as nat)
    } else if 0x61 <= c <= 0x66 {
        Some((c - 0x61 + 10) as nat)
    } else if 0x41 <= c <= 0x46 {
        Some((c - 0x41 + 10) as nat)
    } else {
        None
    }
}

/// Value of a run of hexadecimal digits, or none if some byte is not one.
pub open spec fn hex_value(d: Seq<u8>) -> Option<nat>
    decreases d.len(),
{
    if d.len() == 0 {
        Some(0)
    } else {
        match (hex_value(d.drop_last()), hex_digit(d.last())) {
            (Some(v), Some(x)) => Some(v * 16 + x),
            _ => None,
        }
    }
}

/// What `u8::from_str_radix(text, 16)` gives for the bytes of `text`: an
/// optional `+` followed by at least one hexadecimal digit, of value at most 255.
pub open spec fn radix16(b: Seq<u8>) -> Option<u8> {
    let d = if b.len() > 0 && b[0] == 0x2bu8 { b.drop_first() } else { b };
    if d.len() == 0 {
        None
    } else {
        match hex_value(d) {
            Some(v) => if v <= 255 { Some(v as u8) } else { None },
            None => None,
        }
    }
}

/// Whether byte offset `i` of the encoded text `h` is a character boundary: the
/// start or end of the text, or a byte that starts a character.
pub open spec fn on_boundary(h: Seq<u8>, i: int) -> bool {
    i == 0 || i == h.len() || (0 <= i < h.len() && !is_continuation_byte(h[i]))
}

/// The hex digits of a color text: the bytes after its leading `#`s.
pub open spec fn hex_digits_of(b: Seq<u8>) -> Seq<u8> {
    b.skip(leading_hashes(b) as int)
}

/// Whether reading a color from the encoded text `b` slices a component across
/// a character: the slices are taken one by one, each after the one before
/// parsed.
pub open spec fn hex_slicing_fails(b: Seq<u8>) -> bool {
    let h = hex_digits_of(b);
    &&& h.len() == 6 || h.len() == 8
    &&& {
        ||| !on_boundary(h, 2)
        ||| radix16(h.subrange(0, 2)) is Some && !on_boundary(h, 4)
        ||| radix16(h.subrange(0, 2)) is Some && radix16(h.subrange(2, 4)) is Some && !on_boundary(
            h,
            6,
        )
    }
}

/// The color written by the encoded text `b` ("#RRGGBB", "RRGGBB" or with an
/// alpha pair "RRGGBBAA"), or the message for the first part that is not valid.
pub open spec fn color_from_hex(b: Seq<u8>) -> Result<Rgba, Seq<char>> {
    let h = hex_digits_of(b);
    if h.len() != 6 && h.len() != 8 {
        Err("Invalid hex color: "@ + decode_utf8(h))
    } else {
        match radix16(h.subrange(0, 2)) {
            None => Err("Invalid red component: "@ + decode_utf8(h.subrange(0, 2))),
            Some(r) => match radix16(h.subrange(2, 4)) {
                None => Err("Invalid green component: "@ + decode_utf8(h.subrange(2, 4))),
                Some(g) => match radix16(h.subrange(4, 6)) {
                    None => Err("Invalid blue component: "@ + decode_utf8(h.subrange(4, 6))),
                    Some(bl) => if h.len() == 8 {
                        match radix16(h.subrange(6, 8)) {
                            None => Err(
                                "Invalid alpha component: "@ + decode_utf8(h.subrange(6, 8)),
                            ),
                            Some(a) => Ok(Rgba { r, g, b: bl, a }),
                        }
                    } else {
                        Ok(Rgba { r, g, b: bl, a: 255 })
                    },
                },
            },
        }
    }
}

/// Calls `str::trim_start_matches('#')`, which removes every leading `#`; the
/// contract states that over the bytes of the text, whose number fits in a
/// `usize` as that of every string slice does.
#[verifier::external_body]
fn trim_hashes(s: &str) -> (r: &str)
    ensures
        r.spec_bytes() == hex_digits_of(s.spec_bytes()),
        r.spec_bytes().len() <= usize::MAX,
{
    s.trim_start_matches('#')
}

/// Calls `&s[from..to]`: the bytes from `from` up to `to`, which std requires
/// to lie on character boundaries.
#[verifier::external_body]
fn byte_slice(s: &str, from: usize, to: usize) -> (r: &str)
    requires
        from <= to <= s.spec_bytes().len(),
        on_boundary(s.spec_bytes(), from as int),
        on_boundary(s.spec_bytes(), to as int),
    ensures
        r.spec_bytes() == s.spec_bytes().subrange(from as int, to as int),
{
    &s[from..to]
}

/// Calls `u8::from_str_radix(text, 16)`: an optional `+` followed by
/// hexadecimal digits of either case, whose value must fit in a `u8`.
#[verifier::external_body]
fn parse_hex_u8(text: &str) -> (r: Option<u8>)
    ensures
        r == radix16(text.spec_bytes()),
{
    u8::from_str_radix(text, 16).ok()
}

/// `prefix` followed by `part`.
fn message(prefix: &str, part: &str) -> (r: String)
    ensures
        r@ == prefix@ + decode_utf8(part.spec_bytes()),
{
    proof {
        encode_utf8_decode_utf8(part@);
    }
    let mut r = prefix.to_owned();
    push_str(&mut r, part);
    r
}

impl ColorType {
    /// Create a solid color from RGB values (opaque)
    pub fn from_rgb(r: u8, g: u8, b: u8) -> (c: Self)
        ensures
            c == ColorType::Solid(Rgba { r, g, b, a: 255 }),
    {
        ColorType::Solid(Rgba { r, g, b, a: 255 })
    }

    /// Create a solid color from premultiplied RGBA values
    pub fn from_rgba(r: u8, g: u8, b: u8, a: u8) -> (c: Self)
        ensures
            c == ColorType::Solid(Rgba { r, g, b, a }),
    {
        ColorType::Solid(Rgba { r, g, b, a })
    }

    /// Create a solid color from hex string (e.g., "#FF5733" or "FF5733", with
    /// an optional alpha pair "FF5733CC").
    ///
    /// A text that would be cut inside a character by the two-byte component
    /// slices is outside the domain of this function.
    pub fn from_hex(hex: &str) -> (r: Result<Self, String>)
        requires
            !hex_slicing_fails(hex.spec_bytes()),
        ensures
            match color_from_hex(hex.spec_bytes()) {
                Ok(c) => r == Ok::<ColorType, String>(ColorType::Solid(c)),
                Err(m) => r is Err && r->Err_0@ == m,
            },
    {
        let h = trim_hashes(hex);
        let n = h.len();
        if n != 6 && n != 8 {
            return Err(message("Invalid hex color: ", h));
        }
        let red_text = byte_slice(h, 0, 2);
        let r = match parse_hex_u8(red_text) {
            Some(v) => v,
            None => return Err(message("Invalid red component: ", red_text)),
        };
        let green_text = byte_slice(h, 2, 4);
        let g = match parse_hex_u8(green_text) {
            Some(v) => v,
            None => return Err(message("Invalid green component: ", green_text)),
        };
        let blue_text = byte_slice(h, 4, 6);
        let b = match parse_hex_u8(blue_text) {
            Some(v) => v,
            None => return Err(message("Invalid blue component: ", blue_text)),
        };
        let a = if n == 8 {
            let alpha_text = byte_slice(h, 6, 8);
            match parse_hex_u8(alpha_text) {
                Some(v) => v,
                None => return Err(message("Invalid alpha component: ", alpha_text)),
            }
        } else {
            255
        };
        Ok(ColorType::Solid(Rgba { r, g, b, a }))
    }

    /// Create a vertical gradient
    pub fn vertical_gradient(top: Rgba, bottom: Rgba) -> (c: Self)
        ensures
            c == (ColorType::VerticalGradient { top_color: top, bottom_color: bottom }),
    {
        ColorType::VerticalGradient { top_color: top, bottom_color: bottom }
    }

    /// Create a horizontal gradient
    pub fn horizontal_gradient(left: Rgba, right: Rgba) -> (c: Self)
        ensures
            c == (ColorType::HorizontalGradient { left_color: left, right_color: right }),
    {
        ColorType::HorizontalGradient { left_color: left, right_color: right }
    }

    /// The primary color: the solid color, or the top/left color of a gradient.
    pub open spec fn spec_primary(self) -> Rgba {
        match self {
            ColorType::Solid(c) => c,
            ColorType::VerticalGradient { top_color, .. } => top_color,
            ColorType::HorizontalGradient { left_color, .. } => left_color,
        }
    }

    /// Get the primary color (for solid) or top/left color (for gradients)
    pub fn primary_color(&self) -> (r: Rgba)
        ensures
            r == self.spec_primary(),
    {
        match self {
            ColorType::Solid(color) => *color,
            ColorType::VerticalGradient { top_color, .. } => *top_color,
            ColorType::HorizontalGradient { left_color, .. } => *left_color,
        }
    }

    /// Check if this is a solid color
    pub fn is_solid(&self) -> (r: bool)
        ensures
            r == (*self is Solid),
    {
        matches!(self, ColorType::Solid(_))
    }

    /// Check if this is a gradient
    pub fn is_gradient(&self) -> (r: bool)
        ensures
            r == !(*self is Solid),
    {
        !self.is_solid()
    }
}

impl Default for ColorType {
    /// Opaque white.
    fn default() -> (r: Self)
        ensures
            r == ColorType::Solid(Rgba { r: 255, g: 255, b: 255, a: 255 }),
    {
        ColorType::Solid(Rgba { r: 255, g: 255, b: 255, a: 255 })
    }
}

} // verus!
