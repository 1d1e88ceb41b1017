//! A software canvas: a grid of premultiplied colors at a fixed logical
//! size, onto which sprites are blitted with alpha compositing, and which is
//! turned into opaque straight RGBA bytes for display.

use vstd::prelude::*;

use crate::color::Color;
use crate::geometry::{clamped_position, max, max_int, max_int_value, min, Point, Rect};
use crate::sprite::Sprite;

verus! {

/// The pixel at column `x` of row `y` of a grid `w` pixels wide lies
/// inside the grid's `w * h` pixels.
pub proof fn lemma_grid_index_bound(x: int, y: int, w: int, h: int)
    requires
        0 <= x < w,
        0 <= y < h,
    ensures
        0 <= y * w + x < w * h,
{
    assert(0 <= y * w + x < w * h) by (nonlinear_arith)
        requires
            0 <= x < w,
            0 <= y < h,
    ;
}

/// Two pixels of a grid `w` pixels wide that have the same index are the
/// same pixel.
pub proof fn lemma_grid_index_unique(x1: int, y1: int, x2: int, y2: int, w: int)
    requires
        0 <= x1 < w,
        0 <= x2 < w,
        0 <= y1,
        0 <= y2,
        y1 * w + x1 == y2 * w + x2,
    ensures
        x1 == x2,
        y1 == y2,
{
    if y1 < y2 {
        assert((y1 + 1) * w <= y2 * w) by (nonlinear_arith)
            requires
                y1 + 1 <= y2,
                0 <= w,
        ;
        assert(false) by (nonlinear_arith)
            requires
                (y1 + 1) * w <= y2 * w,
                y1 * w + x1 == y2 * w + x2,
                x1 < w,
                0 <= x2,
        ;
    } else if y2 < y1 {
        assert((y2 + 1) * w <= y1 * w) by (nonlinear_arith)
            requires
                y2 + 1 <= y1,
                0 <= w,
        ;
        assert(false) by (nonlinear_arith)
            requires
                (y2 + 1) * w <= y1 * w,
                y1 * w + x1 == y2 * w + x2,
                x2 < w,
                0 <= x1,
        ;
    }
}

/// Whether a sprite of `sw` by `sh` pixels, placed with its corner at
/// `position` clamped into range, covers the pixel `(x, y)`.
pub open spec fn covers(position: Point, sw: int, sh: int, x: int, y: int) -> bool {
    let left = clamped_position(position.x as int);
    let top = clamped_position(position.y as int);
    left <= x < left + sw && top <= y < top + sh
}

/// The color that a canvas pixel `(x, y)` holding `under` gets when a
/// sprite is blitted with its corner at `position`.
pub open spec fn blit_pixel(under: Color, sprite: Sprite, position: Point, x: int, y: int) -> Color {
    if covers(position, sprite.w(), sprite.h(), x, y) {
        let sx = x - clamped_position(position.x as int);
        let sy = y - clamped_position(position.y as int);
        under.blended(sprite.pixel(sx, sy))
    } else {
        under
    }
}

pub struct Canvas {
    pub(crate) screen: Vec<Color>,
    pub(crate) rect: Rect,
    pub(crate) color: Color,
}

impl Canvas {
    /// The pixels, row after row.
    pub open(crate) spec fn screen(&self) -> Seq<Color> {
        self.screen@
    }

    /// The whole canvas as a rectangle with its corner at the origin.
    pub open(crate) spec fn bounds(&self) -> Rect {
        self.rect
    }

    /// The color that `clear` fills the canvas with.
    pub open(crate) spec fn fill(&self) -> Color {
        self.color
    }

    pub open spec fn width(&self) -> int {
        self.bounds().width()
    }

    pub open spec fn height(&self) -> int {
        self.bounds().height()
    }

    /// The bounds start at the origin, one color stands for each pixel, and
    /// the frame of four bytes a pixel fits in memory.
    pub open spec fn wf(&self) -> bool {
        &&& self.bounds().wf()
        &&& self.bounds().left() == 0
        &&& self.bounds().top() == 0
        &&& self.screen().len() == self.width() * self.height()
        &&& 4 * self.screen().len() <= usize::MAX
    }

    /// Whether `(x, y)` is a pixel of the canvas.
    pub open spec fn inside(&self, x: int, y: int) -> bool {
        0 <= x < self.width() && 0 <= y < self.height()
    }

    /// The color at column `x` of row `y`.
    pub open spec fn at(&self, x: int, y: int) -> Color {
        self.screen()[y * self.width() + x]
    }

    /// A canvas of `width` by `height` transparent pixels that clears to
    /// opaque black; `None` where a size is out of `1 ..= max_int()` or
    /// the frame would not fit in memory.
    pub fn new(width: u32, height: u32) -> (r: Option<Canvas>)
        ensures
            r is Some <==> (1 <= width <= max_int() && 1 <= height <= max_int() && 4 * width
                * height <= usize::MAX),
            r matches Some(c) ==> c.wf() && c.width() == width && c.height() == height
                && c.fill() == Color::from_rgba_spec(0, 0, 0, 255)
                && forall|i: int| 0 <= i < c.screen().len() ==> #[trigger] c.screen()[i] == (Color { r: 0, g: 0, b: 0, a: 0 }),
    {
        let hi = max_int_value();
        if width < 1 || width > hi || height < 1 || height > hi {
            return None;
        }
        let n = match (width as usize).checked_mul(height as usize) {
            Some(n) => n,
            None => {
                assert(4 * width * height > usize::MAX) by (nonlinear_arith)
                    requires
                        width * height > usize::MAX,
                ;
                return None;
            },
        };
        if n > usize::MAX / 4 {
            assert(4 * width * height > usize::MAX) by (nonlinear_arith)
                requires
                    n == width * height,
                    n > usize::MAX / 4,
            ;
            return None;
        }
        assert(4 * width * height == 4 * n) by (nonlinear_arith)
            requires
                n == width * height,
        ;
        let mut screen: Vec<Color> = Vec::with_capacity(n);
        let mut i: usize = 0;
        while i < n
            invariant
                i <= n,
                screen@.len() == i,
                forall|j: int| 0 <= j < i ==> #[trigger] screen@[j] == (Color { r: 0, g: 0, b: 0, a: 0 }),
            decreases n - i,
        {
            screen.push(Color { r: 0, g: 0, b: 0, a: 0 });
            i = i + 1;
        }
        Some(Canvas {
            screen,
            rect: Rect::new(0, 0, width, height),
            color: Color::from_rgba(0, 0, 0, 255),
        })
    }

    /// Sets the color that `clear` fills the canvas with.
    pub fn set_color(&mut self, color: Color)
        ensures
            final(self).screen() == old(self).screen(),
            final(self).bounds() == old(self).bounds(),
            final(self).fill() == color,
    {
        self.color = color;
    }

    /// Fills every pixel with the canvas's color.
    pub fn clear(&mut self)
        ensures
            final(self).bounds() == old(self).bounds(),
            final(self).fill() == old(self).fill(),
            final(self).screen().len() == old(self).screen().len(),
            forall|i: int|
                0 <= i < final(self).screen().len() ==> #[trigger] final(self).screen()[i]
                    == old(self).fill(),
    {
        let color = self.color;
        let n = self.screen.len();
        let mut i: usize = 0;
        while i < n
            invariant
                i <= n,
                self.screen@.len() == n,
                self.color == color,
                self.rect == old(self).rect,
                forall|j: int| 0 <= j < i ==> #[trigger] self.screen@[j] == color,
            decreases n - i,
        {
            self.screen[i] = color;
            i = i + 1;
        }
    }
}

/// Byte `k` of pixel `i` in the frame shown for `screen`: the pixel's
/// straight color, made opaque.
pub open spec fn frame_byte(screen: Seq<Color>, i: int, k: int) -> u8 {
    if k == 3 {
        255
    } else {
        screen[i].straight()[k]
    }
}

/// Whether the blit into `dest` has reached the pixel `(x, y)`: rows above
/// `row` of `dest` are done, and in row `row` the columns left of `col`.
spec fn blit_reached(dest: Rect, row: int, col: int, x: int, y: int) -> bool {
    &&& dest.contains(x, y)
    &&& (y - dest.top() < row || (y - dest.top() == row && x - dest.left() < col))
}

impl Canvas {
    /// Blits `sprite` with its corner at `position`: each canvas pixel that
    /// the sprite covers gets the sprite's pixel laid over it; the rest, and
    /// whatever of the sprite falls outside the canvas, is left alone.
    pub fn blit(&mut self, sprite: &Sprite, position: Point)
        requires
            old(self).wf(),
            sprite.wf(),
        ensures
            final(self).wf(),
            final(self).bounds() == old(self).bounds(),
            final(self).fill() == old(self).fill(),
            forall|x: int, y: int|
                old(self).inside(x, y) ==> #[trigger] final(self).at(x, y) == blit_pixel(
                    old(self).at(x, y),
                    *sprite,
                    position,
                    x,
                    y,
                ),
    {
        let ghost before = *self;
        let placed = Rect::from_point(position, sprite.width(), sprite.height());
        match self.rect.intersection(placed) {
            None => {
                assert forall|x: int, y: int| old(self).inside(x, y) implies #[trigger] self.at(x, y)
                    == blit_pixel(old(self).at(x, y), *sprite, position, x, y) by {
                    assert(self.rect.contains(x, y));
                    assert(!placed.contains(x, y));
                }
            },
            Some(dest) => {
                let cw = self.rect.w as usize;
                let sw = sprite.width as usize;
                let slen = sprite.graphics.len();
                let dx = dest.x as usize;
                let dy = dest.y as usize;
                let dw = dest.w as usize;
                let dh = dest.h as usize;
                let start_x = (dest.x - placed.x) as usize;
                let start_y = (dest.y - placed.y) as usize;
                let mut row: usize = 0;
                while row < dh
                    invariant
                        before.wf(),
                        sprite.wf(),
                        self.rect == before.rect,
                        self.color == before.color,
                        self.screen@.len() == before.screen@.len(),
                        placed.wf(),
                        dest.wf(),
                        placed.left() == clamped_position(position.x as int),
                        placed.top() == clamped_position(position.y as int),
                        placed.width() == sprite.w(),
                        placed.height() == sprite.h(),
                        dest.left() == max(0, placed.left()),
                        dest.top() == max(0, placed.top()),
                        dest.right() == min(before.width(), placed.right()),
                        dest.bottom() == min(before.height(), placed.bottom()),
                        cw == before.width(),
                        sw == sprite.w(),
                        slen == sprite.pixels().len(),
                        dx == dest.left(),
                        dy == dest.top(),
                        dw == dest.width(),
                        dh == dest.height(),
                        start_x == dest.left() - placed.left(),
                        start_y == dest.top() - placed.top(),
                        row <= dh,
                        forall|x: int, y: int|
                            before.inside(x, y) ==> #[trigger] self.at(x, y) == if blit_reached(
                                dest,
                                row as int,
                                0,
                                x,
                                y,
                            ) {
                                before.at(x, y).blended(sprite.pixel(x - placed.left(), y - placed.top()))
                            } else {
                                before.at(x, y)
                            },
                    decreases dh - row,
                {
                    let mut col: usize = 0;
                    while col < dw
                        invariant
                            before.wf(),
                            sprite.wf(),
                            self.rect == before.rect,
                            self.color == before.color,
                            self.screen@.len() == before.screen@.len(),
                            placed.wf(),
                            dest.wf(),
                            placed.left() == clamped_position(position.x as int),
                            placed.top() == clamped_position(position.y as int),
                            placed.width() == sprite.w(),
                            placed.height() == sprite.h(),
                            dest.left() == max(0, placed.left()),
                            dest.top() == max(0, placed.top()),
                            dest.right() == min(before.width(), placed.right()),
                            dest.bottom() == min(before.height(), placed.bottom()),
                            cw == before.width(),
                            sw == sprite.w(),
                            slen == sprite.pixels().len(),
                            dx == dest.left(),
                            dy == dest.top(),
                            dw == dest.width(),
                            dh == dest.height(),
                            start_x == dest.left() - placed.left(),
                            start_y == dest.top() - placed.top(),
                            row < dh,
                            col <= dw,
                            forall|x: int, y: int|
                                before.inside(x, y) ==> #[trigger] self.at(x, y) == if blit_reached(
                                    dest,
                                    row as int,
                                    col as int,
                                    x,
                                    y,
                                ) {
                                    before.at(x, y).blended(
                                        sprite.pixel(x - placed.left(), y - placed.top()),
                                    )
                                } else {
                                    before.at(x, y)
                                },
                        decreases dw - col,
                    {
                        let ghost (cx, cy) = ((dx + col) as int, (dy + row) as int);
                        proof {
                            lemma_grid_index_bound(cx, cy, cw as int, before.height());
                            lemma_grid_index_bound(
                                start_x + col,
                                start_y + row,
                                sw as int,
                                sprite.h(),
                            );
                        }
                        let si = (dy + row) * cw + dx + col;
                        let pi = (start_y + row) * sw + start_x + col;
                        let ghost cur = *self;
                        assert(cy - placed.top() == start_y + row);
                        assert(cx - placed.left() == start_x + col);
                        assert(sprite.pixel(cx - placed.left(), cy - placed.top()) == sprite.pixels()[pi as int]);
                        assert(!blit_reached(dest, row as int, col as int, cx, cy));
                        assert(cur.at(cx, cy) == before.at(cx, cy));
                        let c = self.screen[si].blend(sprite.graphics[pi]);
                        self.screen[si] = c;
                        proof {
                            assert forall|x: int, y: int| before.inside(x, y) implies #[trigger] self.at(x, y)
                                == if blit_reached(dest, row as int, col + 1, x, y) {
                                before.at(x, y).blended(sprite.pixel(x - placed.left(), y - placed.top()))
                            } else {
                                before.at(x, y)
                            } by {
                                if x == cx && y == cy {
                                    assert(self.at(x, y) == c);
                                } else {
                                    lemma_grid_index_bound(x, y, cw as int, before.height());
                                    if y * cw + x == cy * cw + cx {
                                        lemma_grid_index_unique(x, y, cx, cy, cw as int);
                                    }
                                    assert(self.at(x, y) == cur.at(x, y));
                                }
                            }
                        }
                        col = col + 1;
                    }
                    row = row + 1;
                }
                assert forall|x: int, y: int| old(self).inside(x, y) implies #[trigger] self.at(x, y)
                    == blit_pixel(old(self).at(x, y), *sprite, position, x, y) by {
                    assert(self.rect.contains(x, y));
                    assert(blit_reached(dest, row as int, 0, x, y) <==> placed.contains(x, y));
                }
            },
        }
    }
}

impl Canvas {
    /// The frame to show: four bytes for each pixel, its straight red,
    /// green and blue and an opaque alpha. A fully transparent pixel, as a
    /// new canvas holds before its first `clear`, shows as opaque black.
    pub fn frame(&self) -> (r: Vec<u8>)
        requires
            self.wf(),
        ensures
            r@.len() == 4 * self.screen().len(),
            forall|i: int, k: int|
                0 <= i < self.screen().len() && 0 <= k < 4 ==> #[trigger] r@[4 * i + k]
                    == frame_byte(self.screen(), i, k),
    {
        let n = self.screen.len();
        let mut frame: Vec<u8> = Vec::with_capacity(4 * n);
        let mut i: usize = 0;
        while i < n
            invariant
                i <= n,
                n == self.screen().len(),
                4 * n <= usize::MAX,
                frame@.len() == 4 * i,
                forall|j: int, k: int|
                    0 <= j < i && 0 <= k < 4 ==> #[trigger] frame@[4 * j + k] == frame_byte(
                        self.screen(),
                        j,
                        k,
                    ),
            decreases n - i,
        {
            let straight: [u8; 4] = self.screen[i].into();
            frame.push(straight[0]);
            frame.push(straight[1]);
            frame.push(straight[2]);
            frame.push(255);
            assert forall|j: int, k: int| 0 <= j < i + 1 && 0 <= k < 4 implies #[trigger] frame@[4
                * j + k] == frame_byte(self.screen(), j, k) by {
                if j == i {
                    assert(frame@[4 * j + k] == frame@[4 * i + k]);
                }
            }
            i = i + 1;
        }
        frame
    }
}

} // verus!
