//! RGBA colors held with premultiplied alpha: each color channel is already
//! scaled by the alpha channel.

use vstd::prelude::*;

verus! {

/// A straight channel `c` scaled by alpha `a`, rounded down.
pub open spec fn multiplied(c: int, a: int) -> int {
    c * a / 255
}

/// A premultiplied channel `c` scaled back by alpha `a`, rounded down and
/// cut to a byte; nothing is left of a channel whose alpha is zero.
pub open spec fn demultiplied(c: int, a: int) -> int {
    if a == 0 {
        0
    } else {
        (c * 255 / a) as u8 as int
    }
}

/// Channel `d` of the destination after a source channel `s` of alpha `sa`
/// is laid over it: `s + d * (255 - sa) / 255`, cut to a byte.
pub open spec fn over(s: int, d: int, sa: int) -> int {
    (s + d * (255 - sa) / 255) as u8 as int
}

pub fn multiply_channel(c: u8, a: u8) -> (r: u8)
    ensures
        r == multiplied(c as int, a as int),
{
    proof {
        assert(c as int * a as int <= 255 * 255) by (nonlinear_arith)
            requires
                c <= 255,
                a <= 255,
        ;
        assert(c as int * a as int / 255 <= 255) by (nonlinear_arith)
            requires
                c as int * a as int <= 255 * 255,
        ;
    }
    (c as u32 * a as u32 / 255) as u8
}

pub fn demultiply_channel(c: u8, a: u8) -> (r: u8)
    requires
        a > 0,
    ensures
        r == demultiplied(c as int, a as int),
{
    (c as u32 * 255 / a as u32) as u8
}

/// A color whose red, green and blue channels are premultiplied by `a`.
#[derive(Clone, Copy, Debug, PartialEq, Eq, Structural)]
pub struct Color {
    pub r: u8,
    pub g: u8,
    pub b: u8,
    pub a: u8,
}

impl Color {
    /// The straight color `(r, g, b, a)`, premultiplied.
    pub fn from_rgba(r: u8, g: u8, b: u8, a: u8) -> (res: Color)
        ensures
            res.r == multiplied(r as int, a as int),
            res.g == multiplied(g as int, a as int),
            res.b == multiplied(b as int, a as int),
            res.a == a,
    {
        let mut ret = Color { r, g, b, a };
        ret.multiply();
        ret
    }

    /// The first four bytes of `value`, taken as premultiplied RGBA.
    pub fn from_multiplied(value: &[u8]) -> (res: Color)
        requires
            value@.len() >= 4,
        ensures
            res.r == value@[0],
            res.g == value@[1],
            res.b == value@[2],
            res.a == value@[3],
    {
        Color { r: value[0], g: value[1], b: value[2], a: value[3] }
    }

    /// `source` laid over `self`; an opaque source replaces it.
    pub open spec fn blended(self, source: Color) -> Color {
        if source.a == 255 {
            source
        } else {
            Color {
                r: over(source.r as int, self.r as int, source.a as int) as u8,
                g: over(source.g as int, self.g as int, source.a as int) as u8,
                b: over(source.b as int, self.b as int, source.a as int) as u8,
                a: over(source.a as int, self.a as int, source.a as int) as u8,
            }
        }
    }

    /// `source` laid over `self`; an opaque source replaces it.
    pub fn blend(&self, source: Color) -> (res: Color)
        ensures
            res == self.blended(source),
    {
        if source.a == 255 {
            source
        } else {
            let keep = 255 - source.a as u32;
            proof {
                assert(self.r as int * keep <= 255 * 255) by (nonlinear_arith)
                    requires self.r <= 255, keep <= 255;
                assert(self.g as int * keep <= 255 * 255) by (nonlinear_arith)
                    requires self.g <= 255, keep <= 255;
                assert(self.b as int * keep <= 255 * 255) by (nonlinear_arith)
                    requires self.b <= 255, keep <= 255;
                assert(self.a as int * keep <= 255 * 255) by (nonlinear_arith)
                    requires self.a <= 255, keep <= 255;
            }
            Color {
                r: (source.r as u32 + self.r as u32 * keep / 255) as u8,
                g: (source.g as u32 + self.g as u32 * keep / 255) as u8,
                b: (source.b as u32 + self.b as u32 * keep / 255) as u8,
                a: (source.a as u32 + self.a as u32 * keep / 255) as u8,
            }
        }
    }

    /// Scales the color channels by alpha, in place.
    pub fn multiply(&mut self)
        ensures
            final(self).r == multiplied(old(self).r as int, old(self).a as int),
            final(self).g == multiplied(old(self).g as int, old(self).a as int),
            final(self).b == multiplied(old(self).b as int, old(self).a as int),
            final(self).a == old(self).a,
    {
        let a = self.a;
        if a != 255 {
            self.r = multiply_channel(self.r, a);
            self.g = multiply_channel(self.g, a);
            self.b = multiply_channel(self.b, a);
        } else {
            assert(forall|c: int| 0 <= c <= 255 ==> multiplied(c, 255) == c);
        }
    }

    /// The straight RGBA bytes of the color. A fully transparent color has
    /// no straight color to recover (dividing by its alpha is undefined): it
    /// gives `[0, 0, 0, 0]`. The conversions to bytes and to a packed `u32`
    /// go through here and admit every color, so no alpha is excluded.
    pub fn demultiply(&self) -> (res: [u8; 4])
        ensures
            res@ == seq![
                demultiplied(self.r as int, self.a as int) as u8,
                demultiplied(self.g as int, self.a as int) as u8,
                demultiplied(self.b as int, self.a as int) as u8,
                self.a,
            ],
    {
        if self.a == 255 {
            assert(forall|c: int| 0 <= c <= 255 ==> #[trigger] demultiplied(c, 255) == c);
            [self.r, self.g, self.b, self.a]
        } else if self.a == 0 {
            [0, 0, 0, 0]
        } else {
            [
                demultiply_channel(self.r, self.a),
                demultiply_channel(self.g, self.a),
                demultiply_channel(self.b, self.a),
                self.a,
            ]
        }
    }

    /// The premultiplied RGBA bytes of the color.
    pub fn channels(&self) -> (res: [u8; 4])
        ensures
            res@ == seq![self.r, self.g, self.b, self.a],
    {
        [self.r, self.g, self.b, self.a]
    }
}

impl Color {
    /// The premultiplied form of the straight color `(r, g, b, a)`.
    pub open spec fn from_rgba_spec(r: u8, g: u8, b: u8, a: u8) -> Color {
        Color {
            r: multiplied(r as int, a as int) as u8,
            g: multiplied(g as int, a as int) as u8,
            b: multiplied(b as int, a as int) as u8,
            a,
        }
    }

    /// The straight RGBA bytes of a color, as `demultiply` gives them.
    pub open spec fn straight(self) -> Seq<u8> {
        seq![
            demultiplied(self.r as int, self.a as int) as u8,
            demultiplied(self.g as int, self.a as int) as u8,
            demultiplied(self.b as int, self.a as int) as u8,
            self.a,
        ]
    }

    /// The straight red, green and blue of a color packed as `0x00RRGGBB`.
    pub open spec fn packed_rgb(self) -> u32 {
        (self.straight()[0] as int * 65536 + self.straight()[1] as int * 256
            + self.straight()[2] as int) as u32
    }
}

impl From<Color> for [u8; 4] {
    /// The straight RGBA bytes of the color.
    fn from(value: Color) -> (res: [u8; 4])
        ensures
            res@ == value.straight(),
    {
        let res = value.demultiply();
        assert(res =~= [res[0], res[1], res[2], res[3]]);
        res
    }
}

impl From<&[u8; 4]> for Color {
    /// The straight RGBA bytes `value`, premultiplied.
    fn from(value: &[u8; 4]) -> (res: Color)
        ensures
            res == Color::from_rgba_spec(value[0], value[1], value[2], value[3]),
    {
        Color::from_rgba(value[0], value[1], value[2], value[3])
    }
}

impl vstd::std_specs::convert::FromSpecImpl<&[u8; 4]> for Color {
    open spec fn obeys_from_spec() -> bool {
        true
    }

    open spec fn from_spec(v: &[u8; 4]) -> Color {
        Color::from_rgba_spec(v[0], v[1], v[2], v[3])
    }
}

impl From<Color> for u32 {
    /// The straight red, green and blue of the color packed as `0x00RRGGBB`.
    fn from(value: Color) -> (res: u32)
        ensures
            res == value.packed_rgb(),
    {
        let d = value.demultiply();
        let (r, g, b) = (d[0] as u32, d[1] as u32, d[2] as u32);
        assert((r << 16u32) | (g << 8u32) | b == r * 65536 + g * 256 + b) by (bit_vector)
            requires
                r < 256,
                g < 256,
                b < 256,
        ;
        (r << 16) | (g << 8) | b
    }
}

impl vstd::std_specs::convert::FromSpecImpl<Color> for u32 {
    open spec fn obeys_from_spec() -> bool {
        true
    }

    open spec fn from_spec(v: Color) -> u32 {
        v.packed_rgb()
    }
}

impl vstd::std_specs::convert::FromSpecImpl<Color> for [u8; 4] {
    open spec fn obeys_from_spec() -> bool {
        true
    }

    open spec fn from_spec(v: Color) -> [u8; 4] {
        [v.straight()[0], v.straight()[1], v.straight()[2], v.straight()[3]]
    }
}

} // verus!
