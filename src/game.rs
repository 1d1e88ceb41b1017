//! One game: the ship, the asteroid and the canvas they are drawn on, at a
//! fixed logical resolution.

use vstd::prelude::*;

use crate::canvas::{blit_pixel, Canvas};
use crate::color::Color;
use crate::entities::{ship_step, steered, Asteroid, Ship};
use crate::sprite::Sprite;

verus! {

/// The width of the canvas, in logical pixels.
pub const LOGICAL_WIDTH: u32 = 256;

/// The height of the canvas, in logical pixels.
pub const LOGICAL_HEIGHT: u32 = 224;

/// The color of space behind the ship and the asteroid, before
/// premultiplying: a dark blue.
pub open spec fn background() -> Color {
    Color::from_rgba_spec(10, 15, 30, 255)
}

pub struct Game {
    pub(crate) canvas: Canvas,
    pub(crate) ship: Ship,
    pub(crate) asteroid: Asteroid,
}

impl Game {
    pub open(crate) spec fn canvas_spec(&self) -> Canvas {
        self.canvas
    }

    pub open(crate) spec fn ship_spec(&self) -> Ship {
        self.ship
    }

    pub open(crate) spec fn asteroid_spec(&self) -> Asteroid {
        self.asteroid
    }

    pub open spec fn wf(&self) -> bool {
        &&& self.canvas_spec().wf()
        &&& self.canvas_spec().width() == LOGICAL_WIDTH
        &&& self.canvas_spec().height() == LOGICAL_HEIGHT
        &&& self.ship_spec().wf()
        &&& self.asteroid_spec().wf()
    }

    /// A game on a fresh canvas of the logical size that clears to the
    /// background, with a new ship and a new asteroid.
    pub fn new(ship_sprite: Sprite, asteroid_sprite: Sprite) -> (r: Game)
        requires
            ship_sprite.wf(),
            asteroid_sprite.wf(),
        ensures
            r.wf(),
            r.canvas_spec().fill() == background(),
            r.ship_spec().sprite_spec() == ship_sprite,
            r.ship_spec().position_spec() == (crate::geometry::Point { x: 16, y: 112 }),
            r.ship_spec().velocity_spec() == (crate::geometry::Point { x: 0, y: 0 }),
            r.ship_spec().rect_spec().left() == 0,
            r.ship_spec().rect_spec().top() == 0,
            r.asteroid_spec().sprite_spec() == asteroid_sprite,
            r.asteroid_spec().position_spec() == (crate::geometry::Point { x: 256, y: 100 }),
            r.asteroid_spec().velocity_spec() == (crate::geometry::Point { x: -1i32, y: 0 }),
            r.asteroid_spec().rect_spec().left() == 0,
            r.asteroid_spec().rect_spec().top() == 0,
    {
        assert(4 * LOGICAL_WIDTH * LOGICAL_HEIGHT <= usize::MAX);
        let mut canvas = Canvas::new(LOGICAL_WIDTH, LOGICAL_HEIGHT).unwrap();
        canvas.set_color(Color::from_rgba(10, 15, 30, 255));
        Game { canvas, ship: Ship::new(ship_sprite), asteroid: Asteroid::new(asteroid_sprite) }
    }

    /// One frame of play: the ship takes the keys held (`up`, `down`), then
    /// the ship and the asteroid move.
    pub fn update(&mut self, up: bool, down: bool)
        requires
            old(self).wf(),
        ensures
            final(self).wf(),
            final(self).canvas_spec() == old(self).canvas_spec(),
            (final(self).ship_spec().position_spec(), final(self).ship_spec().velocity_spec())
                == ship_step(
                old(self).ship_spec().position_spec(),
                steered(old(self).ship_spec().velocity_spec(), up, down),
            ),
            final(self).asteroid_spec().position_spec() == old(
                self,
            ).asteroid_spec().position_spec().moved(old(self).asteroid_spec().velocity_spec()),
            final(self).asteroid_spec().velocity_spec() == old(self).asteroid_spec().velocity_spec(),
            final(self).ship_spec().sprite_spec() == old(self).ship_spec().sprite_spec(),
            final(self).asteroid_spec().sprite_spec() == old(self).asteroid_spec().sprite_spec(),
            final(self).ship_spec().rect_spec().position_spec() == old(
                self,
            ).ship_spec().rect_spec().centered(final(self).ship_spec().position_spec()),
            final(self).asteroid_spec().rect_spec().position_spec() == old(
                self,
            ).asteroid_spec().rect_spec().centered(final(self).asteroid_spec().position_spec()),
    {
        self.ship.handle_input(up, down);
        self.ship.update();
        self.asteroid.update();
    }

    /// Draws a frame: the canvas is cleared, then the ship and then the
    /// asteroid are blitted onto it.
    pub fn render(&mut self)
        requires
            old(self).wf(),
        ensures
            final(self).wf(),
            final(self).ship_spec() == old(self).ship_spec(),
            final(self).asteroid_spec() == old(self).asteroid_spec(),
            final(self).canvas_spec().fill() == old(self).canvas_spec().fill(),
            forall|x: int, y: int|
                final(self).canvas_spec().inside(x, y) ==> #[trigger] final(self).canvas_spec().at(x, y)
                    == blit_pixel(
                    blit_pixel(
                        old(self).canvas_spec().fill(),
                        old(self).ship_spec().sprite_spec(),
                        old(self).ship_spec().rect_spec().position_spec(),
                        x,
                        y,
                    ),
                    old(self).asteroid_spec().sprite_spec(),
                    old(self).asteroid_spec().rect_spec().position_spec(),
                    x,
                    y,
                ),
    {
        self.canvas.clear();
        let ghost cleared = self.canvas;
        assert forall|x: int, y: int| cleared.inside(x, y) implies #[trigger] cleared.at(x, y)
            == old(self).canvas.color by {
            crate::canvas::lemma_grid_index_bound(x, y, cleared.width(), cleared.height());
        }
        self.ship.render(&mut self.canvas);
        let ghost shipped = self.canvas;
        self.asteroid.render(&mut self.canvas);
        assert forall|x: int, y: int| self.canvas.inside(x, y) implies #[trigger] self.canvas.at(x, y)
            == blit_pixel(
            blit_pixel(
                old(self).canvas.color,
                self.ship.sprite,
                self.ship.rect.position_spec(),
                x,
                y,
            ),
            self.asteroid.sprite,
            self.asteroid.rect.position_spec(),
            x,
            y,
        ) by {
            assert(shipped.at(x, y) == blit_pixel(
                cleared.at(x, y),
                self.ship.sprite,
                self.ship.rect.position_spec(),
                x,
                y,
            ));
        }
    }

    /// The frame to show for the canvas as it was last drawn.
    pub fn frame(&self) -> (r: Vec<u8>)
        requires
            self.wf(),
        ensures
            r@.len() == 4 * self.canvas_spec().screen().len(),
            forall|i: int, k: int|
                0 <= i < self.canvas_spec().screen().len() && 0 <= k < 4 ==> #[trigger] r@[4 * i
                    + k] == crate::canvas::frame_byte(self.canvas_spec().screen(), i, k),
    {
        self.canvas.frame()
    }
}

} // verus!
