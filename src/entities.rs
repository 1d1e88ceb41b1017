//! The ship that the player steers up and down, and the asteroid that
//! drifts across the screen.

use vstd::prelude::*;

use crate::canvas::{blit_pixel, Canvas};
use crate::geometry::{Point, Rect};
use crate::sprite::Sprite;

verus! {

/// The highest the ship's center goes.
pub const SHIP_TOP: i32 = 8;

/// The lowest the ship's center goes.
pub const SHIP_BOTTOM: i32 = 216;

/// What one frame of holding a direction key adds to the ship's speed.
pub const SHIP_THRUST: i32 = 2;

/// The ship's velocity after the keys held this frame: thrust up for `up`,
/// then down for `down`.
pub open spec fn steered(velocity: Point, up: bool, down: bool) -> Point {
    let v = if up {
        velocity.moved(Point { x: 0, y: (-SHIP_THRUST) as i32 })
    } else {
        velocity
    };
    if down {
        v.moved(Point { x: 0, y: SHIP_THRUST })
    } else {
        v
    }
}

/// The ship's center and velocity after one frame: it moves by its
/// velocity; at the top or bottom limit it stops there, and elsewhere its
/// velocity halves.
pub open spec fn ship_step(position: Point, velocity: Point) -> (Point, Point) {
    let p = position.moved(velocity);
    if p.y <= SHIP_TOP {
        (Point { x: p.x, y: SHIP_TOP }, Point { x: velocity.x, y: 0 })
    } else if p.y >= SHIP_BOTTOM {
        (Point { x: p.x, y: SHIP_BOTTOM }, Point { x: velocity.x, y: 0 })
    } else {
        (p, velocity.divided(2))
    }
}

/// Whether `rect` is a valid rectangle of the size of `sprite`.
pub open spec fn fits_sprite(rect: Rect, sprite: Sprite) -> bool {
    &&& sprite.wf()
    &&& rect.wf()
    &&& rect.width() == sprite.w()
    &&& rect.height() == sprite.h()
}

pub struct Ship {
    pub(crate) sprite: Sprite,
    pub(crate) position: Point,
    pub(crate) velocity: Point,
    pub(crate) rect: Rect,
}

impl Ship {
    pub open(crate) spec fn sprite_spec(&self) -> Sprite {
        self.sprite
    }

    /// Where the ship's center is.
    pub open(crate) spec fn position_spec(&self) -> Point {
        self.position
    }

    pub open(crate) spec fn velocity_spec(&self) -> Point {
        self.velocity
    }

    /// Where the ship is drawn.
    pub open(crate) spec fn rect_spec(&self) -> Rect {
        self.rect
    }

    pub open spec fn wf(&self) -> bool {
        fits_sprite(self.rect_spec(), self.sprite_spec())
    }

    /// A ship at rest with its center at `(16, 112)`, drawn at the origin
    /// until its first update.
    pub fn new(sprite: Sprite) -> (r: Ship)
        requires
            sprite.wf(),
        ensures
            r.wf(),
            r.sprite_spec() == sprite,
            r.position_spec() == (Point { x: 16, y: 112 }),
            r.velocity_spec() == (Point { x: 0, y: 0 }),
            r.rect_spec().left() == 0,
            r.rect_spec().top() == 0,
    {
        let width = sprite.width();
        let height = sprite.height();
        Ship {
            sprite,
            rect: Rect::new(0, 0, width, height),
            position: Point::new(16, 112),
            velocity: Point::new(0, 0),
        }
    }

    /// Moves the ship one frame and centers its rectangle on it.
    pub fn update(&mut self)
        requires
            old(self).wf(),
        ensures
            final(self).wf(),
            final(self).sprite_spec() == old(self).sprite_spec(),
            (final(self).position_spec(), final(self).velocity_spec()) == ship_step(
                old(self).position_spec(),
                old(self).velocity_spec(),
            ),
            final(self).rect_spec().position_spec() == old(self).rect_spec().centered(
                final(self).position_spec(),
            ),
    {
        self.position.add_assign(self.velocity);
        if self.position.y() <= SHIP_TOP {
            self.velocity.set_y(0);
            self.position.set_y(SHIP_TOP);
        } else if self.position.y() >= SHIP_BOTTOM {
            self.velocity.set_y(0);
            self.position.set_y(SHIP_BOTTOM);
        } else {
            self.velocity.div_assign(2);
        }
        self.rect.center_on(self.position);
    }

    /// Adds thrust up where `up` is held and down where `down` is held.
    pub fn handle_input(&mut self, up: bool, down: bool)
        ensures
            final(self).velocity_spec() == steered(old(self).velocity_spec(), up, down),
            final(self).position_spec() == old(self).position_spec(),
            final(self).rect_spec() == old(self).rect_spec(),
            final(self).sprite_spec() == old(self).sprite_spec(),
    {
        if up {
            self.velocity.add_assign(Point::new(0, -SHIP_THRUST));
        }
        if down {
            self.velocity.add_assign(Point::new(0, SHIP_THRUST));
        }
    }

    pub fn sprite(&self) -> (r: &Sprite)
        ensures
            *r == self.sprite_spec(),
    {
        &self.sprite
    }

    pub fn rect(&self) -> (r: Rect)
        ensures
            r == self.rect_spec(),
    {
        self.rect
    }

    /// Blits the ship's sprite at its rectangle's corner.
    pub fn render(&self, canvas: &mut Canvas)
        requires
            self.wf(),
            old(canvas).wf(),
        ensures
            final(canvas).wf(),
            final(canvas).bounds() == old(canvas).bounds(),
            final(canvas).fill() == old(canvas).fill(),
            forall|x: int, y: int|
                old(canvas).inside(x, y) ==> #[trigger] final(canvas).at(x, y) == blit_pixel(
                    old(canvas).at(x, y),
                    self.sprite_spec(),
                    self.rect_spec().position_spec(),
                    x,
                    y,
                ),
    {
        canvas.blit(&self.sprite, self.rect.position());
    }
}

pub struct Asteroid {
    pub(crate) sprite: Sprite,
    pub(crate) rect: Rect,
    pub(crate) position: Point,
    pub(crate) velocity: Point,
}

impl Asteroid {
    pub open(crate) spec fn sprite_spec(&self) -> Sprite {
        self.sprite
    }

    /// Where the asteroid's center is.
    pub open(crate) spec fn position_spec(&self) -> Point {
        self.position
    }

    pub open(crate) spec fn velocity_spec(&self) -> Point {
        self.velocity
    }

    /// Where the asteroid is drawn.
    pub open(crate) spec fn rect_spec(&self) -> Rect {
        self.rect
    }

    pub open spec fn wf(&self) -> bool {
        fits_sprite(self.rect_spec(), self.sprite_spec())
    }

    /// An asteroid with its center at `(256, 100)`, drifting left one pixel
    /// a frame, drawn at the origin until its first update.
    pub fn new(sprite: Sprite) -> (r: Asteroid)
        requires
            sprite.wf(),
        ensures
            r.wf(),
            r.sprite_spec() == sprite,
            r.position_spec() == (Point { x: 256, y: 100 }),
            r.velocity_spec() == (Point { x: -1i32, y: 0 }),
            r.rect_spec().left() == 0,
            r.rect_spec().top() == 0,
    {
        let width = sprite.width();
        let height = sprite.height();
        Asteroid {
            sprite,
            rect: Rect::new(0, 0, width, height),
            position: Point::new(256, 100),
            velocity: Point::new(-1, 0),
        }
    }

    /// Moves the asteroid by its velocity and centers its rectangle on it.
    pub fn update(&mut self)
        requires
            old(self).wf(),
        ensures
            final(self).wf(),
            final(self).sprite_spec() == old(self).sprite_spec(),
            final(self).velocity_spec() == old(self).velocity_spec(),
            final(self).position_spec() == old(self).position_spec().moved(
                old(self).velocity_spec(),
            ),
            final(self).rect_spec().position_spec() == old(self).rect_spec().centered(
                final(self).position_spec(),
            ),
    {
        self.position.add_assign(self.velocity);
        self.rect.center_on(self.position);
    }

    pub fn sprite(&self) -> (r: &Sprite)
        ensures
            *r == self.sprite_spec(),
    {
        &self.sprite
    }

    pub fn rect(&self) -> (r: Rect)
        ensures
            r == self.rect_spec(),
    {
        self.rect
    }

    /// Blits the asteroid's sprite at its rectangle's corner.
    pub fn render(&self, canvas: &mut Canvas)
        requires
            self.wf(),
            old(canvas).wf(),
        ensures
            final(canvas).wf(),
            final(canvas).bounds() == old(canvas).bounds(),
            final(canvas).fill() == old(canvas).fill(),
            forall|x: int, y: int|
                old(canvas).inside(x, y) ==> #[trigger] final(canvas).at(x, y) == blit_pixel(
                    old(canvas).at(x, y),
                    self.sprite_spec(),
                    self.rect_spec().position_spec(),
                    x,
                    y,
                ),
    {
        canvas.blit(&self.sprite, self.rect.position());
    }
}

} // verus!
