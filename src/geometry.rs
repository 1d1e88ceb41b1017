//! Integer points and rectangles whose coordinates stay in a range where
//! sums of a position and a size can never overflow an `i32`.

use vstd::prelude::*;

verus! {

/// The largest position or size: half of `i32::MAX`.
pub open spec fn max_int() -> int {
    1073741823
}

/// The smallest position: half of `i32::MIN`.
pub open spec fn min_int() -> int {
    -1073741824
}

/// A size forced into `1 ..= max_int()`.
pub open spec fn clamped_size(val: int) -> int {
    if val < 1 {
        1
    } else if val > max_int() {
        max_int()
    } else {
        val
    }
}

/// A position forced into `min_int() ..= max_int()`.
pub open spec fn clamped_position(val: int) -> int {
    if val < min_int() {
        min_int()
    } else if val > max_int() {
        max_int()
    } else {
        val
    }
}

pub open spec fn max(a: int, b: int) -> int {
    if a > b {
        a
    } else {
        b
    }
}

pub open spec fn min(a: int, b: int) -> int {
    if a < b {
        a
    } else {
        b
    }
}

/// Division that rounds toward zero, as Rust's `/` on signed integers does,
/// for a nonzero `d` of either sign. Spec `/` is Euclidean: for `x >= 0` it
/// already rounds toward zero, whatever the sign of `d`.
pub open spec fn div_toward_zero(x: int, d: int) -> int {
    if x >= 0 {
        x / d
    } else {
        -((-x) / d)
    }
}

pub fn max_int_value() -> (r: u32)
    ensures
        r == max_int(),
{
    i32::MAX as u32 / 2
}

pub fn min_int_value() -> (r: i32)
    ensures
        r == min_int(),
{
    i32::MIN / 2
}

pub fn clamp_size(val: u32) -> (r: u32)
    ensures
        r == clamped_size(val as int),
{
    let hi = max_int_value();
    if val < 1 {
        1
    } else if val > hi {
        hi
    } else {
        val
    }
}

pub fn clamp_position(val: i32) -> (r: i32)
    ensures
        r == clamped_position(val as int),
{
    let lo = min_int_value();
    let hi = max_int_value() as i32;
    if val < lo {
        lo
    } else if val > hi {
        hi
    } else {
        val
    }
}

/// `clamp_position` for a sum of two `i32`s, which may not fit in one.
fn clamp_wide(val: i64) -> (r: i32)
    ensures
        r == clamped_position(val as int),
{
    let lo = min_int_value() as i64;
    let hi = max_int_value() as i64;
    if val < lo {
        lo as i32
    } else if val > hi {
        hi as i32
    } else {
        val as i32
    }
}

#[derive(Clone, Copy, Debug, PartialEq, Eq, Structural)]
pub struct Point {
    pub x: i32,
    pub y: i32,
}

impl Point {
    pub fn new(x: i32, y: i32) -> (r: Point)
        ensures
            r.x == x,
            r.y == y,
    {
        Point { x, y }
    }

    pub fn x(&self) -> (r: i32)
        ensures
            r == self.x,
    {
        self.x
    }

    pub fn y(&self) -> (r: i32)
        ensures
            r == self.y,
    {
        self.y
    }

    pub fn set_x(&mut self, x: i32)
        ensures
            *final(self) == (Point { x, y: old(self).y }),
    {
        self.x = x;
    }

    pub fn set_y(&mut self, y: i32)
        ensures
            *final(self) == (Point { x: old(self).x, y }),
    {
        self.y = y;
    }

    /// `self` moved by `rhs`, each component clamped to the position range.
    pub open spec fn moved(self, rhs: Point) -> Point {
        Point {
            x: clamped_position(self.x + rhs.x) as i32,
            y: clamped_position(self.y + rhs.y) as i32,
        }
    }

    /// `self` with both components divided by `d`, rounding toward zero.
    pub open spec fn divided(self, d: int) -> Point {
        Point {
            x: div_toward_zero(self.x as int, d) as i32,
            y: div_toward_zero(self.y as int, d) as i32,
        }
    }

    /// Adds `rhs` component by component; each sum is clamped to the
    /// position range.
    pub fn add_assign(&mut self, rhs: Point)
        ensures
            *final(self) == old(self).moved(rhs),
    {
        self.x = clamp_wide(self.x as i64 + rhs.x as i64);
        self.y = clamp_wide(self.y as i64 + rhs.y as i64);
    }

    /// Divides both components by `rhs`, rounding toward zero; the one
    /// quotient that does not fit in an `i32`, `i32::MIN / -1`, is excluded.
    pub fn div_assign(&mut self, rhs: i32)
        requires
            rhs != 0,
            !(rhs == -1 && (old(self).x == i32::MIN || old(self).y == i32::MIN)),
        ensures
            *final(self) == old(self).divided(rhs as int),
    {
        self.x = self.x / rhs;
        self.y = self.y / rhs;
    }
}

/// An axis-aligned rectangle: corner `(x, y)`, width `w`, height `h`.
#[derive(Clone, Copy, Debug, PartialEq, Eq, Structural)]
pub struct Rect {
    pub(crate) x: i32,
    pub(crate) y: i32,
    pub(crate) w: i32,
    pub(crate) h: i32,
}

/// Whether the corner `(x, y)` and the sizes `w` and `h` stand for a
/// rectangle whose far edges fit in an `i32`.
pub open spec fn rect_wf(x: int, y: int, w: int, h: int) -> bool {
    &&& min_int() <= x <= max_int()
    &&& min_int() <= y <= max_int()
    &&& 1 <= w <= max_int()
    &&& 1 <= h <= max_int()
}

impl Rect {
    pub open(crate) spec fn left(&self) -> int {
        self.x as int
    }

    pub open(crate) spec fn top(&self) -> int {
        self.y as int
    }

    pub open(crate) spec fn width(&self) -> int {
        self.w as int
    }

    pub open(crate) spec fn height(&self) -> int {
        self.h as int
    }

    pub open spec fn right(&self) -> int {
        self.left() + self.width()
    }

    pub open spec fn bottom(&self) -> int {
        self.top() + self.height()
    }

    /// A rectangle has its corner in the position range and both sizes in
    /// `1 ..= max_int()`; every constructor gives one.
    pub open spec fn wf(&self) -> bool {
        rect_wf(self.left(), self.top(), self.width(), self.height())
    }

    /// Whether the pixel at `(px, py)` lies inside.
    pub open spec fn contains(&self, px: int, py: int) -> bool {
        self.left() <= px < self.right() && self.top() <= py < self.bottom()
    }

    /// A rectangle at `(x, y)` of `width` by `height`, with the corner and the
    /// sizes clamped into range.
    pub fn new(x: i32, y: i32, width: u32, height: u32) -> (r: Rect)
        ensures
            r.wf(),
            r.left() == clamped_position(x as int),
            r.top() == clamped_position(y as int),
            r.width() == clamped_size(width as int),
            r.height() == clamped_size(height as int),
    {
        Rect {
            x: clamp_position(x),
            y: clamp_position(y),
            w: clamp_size(width) as i32,
            h: clamp_size(height) as i32,
        }
    }

    /// `Rect::new` with the corner at `position`.
    pub fn from_point(position: Point, width: u32, height: u32) -> (r: Rect)
        ensures
            r.wf(),
            r.left() == clamped_position(position.x as int),
            r.top() == clamped_position(position.y as int),
            r.width() == clamped_size(width as int),
            r.height() == clamped_size(height as int),
    {
        Rect::new(position.x, position.y, width, height)
    }

    pub fn x(&self) -> (r: i32)
        ensures
            r == self.left(),
    {
        self.x
    }

    pub fn y(&self) -> (r: i32)
        ensures
            r == self.top(),
    {
        self.y
    }

    pub fn w(&self) -> (r: i32)
        ensures
            r == self.width(),
    {
        self.w
    }

    pub fn h(&self) -> (r: i32)
        ensures
            r == self.height(),
    {
        self.h
    }

    /// The corner.
    pub fn position(&self) -> (r: Point)
        ensures
            r == self.position_spec(),
    {
        Point { x: self.x, y: self.y }
    }

    /// The corner.
    pub open spec fn position_spec(&self) -> Point {
        Point { x: self.left() as i32, y: self.top() as i32 }
    }

    /// The corner that `center_on(point)` gives a rectangle of this size.
    pub open spec fn centered(self, point: Point) -> Point {
        Point {
            x: clamped_position(clamped_position(point.x as int) - self.width() / 2) as i32,
            y: clamped_position(clamped_position(point.y as int) - self.height() / 2) as i32,
        }
    }

    /// Moves the rectangle so that its center, rounded up and left, is at
    /// `point` clamped into range; the corner is clamped again.
    pub fn center_on(&mut self, point: Point)
        requires
            old(self).wf(),
        ensures
            final(self).wf(),
            final(self).width() == old(self).width(),
            final(self).height() == old(self).height(),
            final(self).left() == old(self).centered(point).x,
            final(self).top() == old(self).centered(point).y,
    {
        self.x = clamp_position(clamp_position(point.x) - self.w / 2);
        self.y = clamp_position(clamp_position(point.y) - self.h / 2);
    }

    /// The overlap of two rectangles, or `None` where they share no pixel.
    pub fn intersection(&self, other: Rect) -> (r: Option<Rect>)
        requires
            self.wf(),
            other.wf(),
        ensures
            r.is_some() <==> exists|px: int, py: int|
                self.contains(px, py) && other.contains(px, py),
            r matches Some(o) ==> o.wf() && o.left() == max(self.left(), other.left())
                && o.top() == max(self.top(), other.top())
                && o.right() == min(self.right(), other.right())
                && o.bottom() == min(self.bottom(), other.bottom()),
            r matches Some(o) ==> forall|px: int, py: int|
                o.contains(px, py) <==> self.contains(px, py) && other.contains(px, py),
    {
        let x0 = if self.x > other.x { self.x } else { other.x };
        let y0 = if self.y > other.y { self.y } else { other.y };
        let sr = self.x + self.w;
        let orr = other.x + other.w;
        let sb = self.y + self.h;
        let ob = other.y + other.h;
        let x1 = if sr < orr { sr } else { orr };
        let y1 = if sb < ob { sb } else { ob };
        if x0 < x1 && y0 < y1 {
            let o = Rect { x: x0, y: y0, w: x1 - x0, h: y1 - y0 };
            assert(self.contains(x0 as int, y0 as int) && other.contains(x0 as int, y0 as int));
            Some(o)
        } else {
            assert forall|px: int, py: int|
                !(self.contains(px, py) && other.contains(px, py)) by {}
            None
        }
    }
}

impl From<Point> for (i32, i32) {
    fn from(value: Point) -> (r: (i32, i32))
        ensures
            r == (value.x, value.y),
    {
        (value.x, value.y)
    }
}

impl vstd::std_specs::convert::FromSpecImpl<Point> for (i32, i32) {
    open spec fn obeys_from_spec() -> bool {
        true
    }

    open spec fn from_spec(v: Point) -> (i32, i32) {
        (v.x, v.y)
    }
}

impl From<Rect> for Point {
    /// The rectangle's corner.
    fn from(value: Rect) -> (r: Point)
        ensures
            r == value.position_spec(),
    {
        value.position()
    }
}

impl vstd::std_specs::convert::FromSpecImpl<Rect> for Point {
    open spec fn obeys_from_spec() -> bool {
        true
    }

    open spec fn from_spec(v: Rect) -> Point {
        v.position_spec()
    }
}

} // verus!
