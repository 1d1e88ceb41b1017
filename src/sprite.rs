//! Sprites: rectangular grids of premultiplied colors, row by row, decoded
//! from image files.

use vstd::prelude::*;

use crate::color::{multiplied, Color};
use crate::geometry::{max_int, max_int_value};

verus! {

/// What `image`'s built-in PNG decoder makes of the bytes of a PNG file: its
/// width, its height and its pixels as 8-bit RGBA, row by row; nothing where
/// the bytes do not decode or decode to another pixel format.
pub uninterp spec fn png_rgba8(bytes: Seq<u8>) -> Option<(u32, u32, Seq<u8>)>;

/// Relies on `image::load_from_memory_with_format` with `ImageFormat::Png`,
/// which decodes the bytes with the built-in PNG decoder under the default
/// limits (no format detection, no registered hooks), and on
/// `DynamicImage::as_rgba8` and `ImageBuffer::width`, `height` and `as_raw`,
/// which hand out the decoded pixels where the image holds 8-bit RGBA. The
/// result depends on the bytes alone.
#[verifier::external_body]
fn decode_rgba8(bytes: &[u8]) -> (r: Option<(u32, u32, Vec<u8>)>)
    ensures
        r matches Some(t) ==> png_rgba8(bytes@) == Some((t.0, t.1, t.2@)),
        r is None ==> png_rgba8(bytes@) is None,
{
    let image = image::load_from_memory_with_format(bytes, image::ImageFormat::Png).ok()?;
    let rgba = image.as_rgba8()?;
    Some((rgba.width(), rgba.height(), rgba.as_raw().clone()))
}

/// Whether `width` by `height` pixels of straight RGBA bytes `rgba` make a
/// sprite: both sizes in `1 ..= max_int()`, four bytes for each pixel.
pub open spec fn sprite_fits(width: int, height: int, rgba: Seq<u8>) -> bool {
    &&& 1 <= width <= max_int()
    &&& 1 <= height <= max_int()
    &&& rgba.len() == 4 * width * height
}

/// The premultiplied pixels of the straight RGBA bytes `rgba`.
pub open spec fn premultiplied_pixels(rgba: Seq<u8>) -> Seq<Color> {
    Seq::new(
        rgba.len() / 4,
        |i: int|
            Color::from_rgba_spec(rgba[4 * i], rgba[4 * i + 1], rgba[4 * i + 2], rgba[4 * i + 3]),
    )
}

pub struct Sprite {
    pub(crate) graphics: Vec<Color>,
    pub(crate) width: u32,
    pub(crate) height: u32,
}

impl Sprite {
    /// The pixels, row after row.
    pub open(crate) spec fn pixels(&self) -> Seq<Color> {
        self.graphics@
    }

    pub open(crate) spec fn w(&self) -> int {
        self.width as int
    }

    pub open(crate) spec fn h(&self) -> int {
        self.height as int
    }

    /// Both sizes in `1 ..= max_int()`, one color for each pixel.
    pub open spec fn wf(&self) -> bool {
        &&& 1 <= self.w() <= max_int()
        &&& 1 <= self.h() <= max_int()
        &&& self.pixels().len() == self.w() * self.h()
    }

    /// The color at column `x` of row `y`.
    pub open spec fn pixel(&self, x: int, y: int) -> Color {
        self.pixels()[y * self.w() + x]
    }

    /// A sprite of `width` by `height` pixels from their straight RGBA
    /// bytes, row by row; `None` where the sizes are out of range or the
    /// bytes are not four for each pixel.
    pub fn from_rgba8(width: u32, height: u32, rgba: &[u8]) -> (r: Option<Sprite>)
        ensures
            r is Some <==> sprite_fits(width as int, height as int, rgba@),
            r matches Some(s) ==> s.wf() && s.w() == width && s.h() == height
                && s.pixels() == premultiplied_pixels(rgba@),
    {
        let len = rgba.len();
        let hi = max_int_value();
        if width < 1 || width > hi || height < 1 || height > hi {
            return None;
        }
        let n = match (width as usize).checked_mul(height as usize) {
            Some(n) => n,
            None => {
                proof {
                    assert(4 * (width as int * height as int) > rgba@.len()) by (nonlinear_arith)
                        requires
                            width as int * height as int > usize::MAX,
                            rgba@.len() == len,
                    ;
                    assert(4 * width as int * height as int == 4 * (width as int * height as int))
                        by (nonlinear_arith);
                }
                return None;
            },
        };
        assert(4 * width as int * height as int == 4 * n as int) by (nonlinear_arith)
            requires
                n == width as int * height as int,
        ;
        if n > len / 4 || len != 4 * n {
            return None;
        }
        let mut graphics: Vec<Color> = Vec::with_capacity(n);
        let mut i: usize = 0;
        while i < n
            invariant
                i <= n,
                rgba@.len() == 4 * n,
                4 * n <= usize::MAX,
                graphics@.len() == i,
                forall|j: int|
                    0 <= j < i ==> graphics@[j] == #[trigger] premultiplied_pixels(rgba@)[j],
            decreases n - i,
        {
            assert(4 * i + 3 < 4 * n);
            let c = Color::from_rgba(rgba[4 * i], rgba[4 * i + 1], rgba[4 * i + 2], rgba[4 * i + 3]);
            graphics.push(c);
            i = i + 1;
        }
        assert(graphics@ =~= premultiplied_pixels(rgba@));
        Some(Sprite { graphics, width, height })
    }

    /// The sprite that the bytes of a PNG file hold, where they decode to
    /// 8-bit RGBA pixels that make a sprite.
    pub fn decode(bytes: &[u8]) -> (r: Option<Sprite>)
        ensures
            r is Some <==> (png_rgba8(bytes@) matches Some(t) && sprite_fits(
                t.0 as int,
                t.1 as int,
                t.2,
            )),
            r matches Some(s) ==> png_rgba8(bytes@) matches Some(t) && s.wf() && s.w() == t.0
                && s.h() == t.1 && s.pixels() == premultiplied_pixels(t.2),
    {
        match decode_rgba8(bytes) {
            Some((width, height, rgba)) => Sprite::from_rgba8(width, height, rgba.as_slice()),
            None => None,
        }
    }

    /// The pixels, row after row.
    pub fn graphics(&self) -> (r: &[Color])
        ensures
            r@ == self.pixels(),
    {
        self.graphics.as_slice()
    }

    pub fn width(&self) -> (r: u32)
        ensures
            r == self.w(),
    {
        self.width
    }

    pub fn height(&self) -> (r: u32)
        ensures
            r == self.h(),
    {
        self.height
    }
}

} // verus!
