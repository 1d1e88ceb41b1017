use ships::canvas::Canvas;
use ships::entities::{Asteroid, Ship};
use ships::sprite::Sprite;

fn solid(width: u32, height: u32) -> Sprite {
    Sprite::from_rgba8(width, height, &vec![255; (4 * width * height) as usize]).unwrap()
}

#[test]
fn ship_starts_at_origin_rect() {
    let ship = Ship::new(solid(16, 16));
    let r = ship.rect();
    assert_eq!((r.x(), r.y(), r.w(), r.h()), (0, 0, 16, 16));
    assert_eq!(ship.sprite().width(), 16);
}

#[test]
fn ship_update_at_rest_centers_rect() {
    let mut ship = Ship::new(solid(16, 16));
    ship.update();
    assert_eq!((ship.rect().x(), ship.rect().y()), (8, 104));
}

#[test]
fn ship_thrust_then_velocity_halves() {
    let mut ship = Ship::new(solid(16, 16));
    ship.handle_input(true, false);
    ship.update();
    assert_eq!(ship.rect().y(), 102);
    ship.update();
    assert_eq!(ship.rect().y(), 101);
    ship.update();
    assert_eq!(ship.rect().y(), 101);
}

#[test]
fn ship_both_keys_cancel() {
    let mut ship = Ship::new(solid(16, 16));
    ship.handle_input(true, true);
    ship.update();
    assert_eq!(ship.rect().y(), 104);
}

#[test]
fn ship_stops_at_top() {
    let mut ship = Ship::new(solid(16, 16));
    for _ in 0..100 {
        ship.handle_input(true, false);
        ship.update();
        assert!(ship.rect().y() >= 0);
    }
    assert_eq!(ship.rect().y(), 0);
}

#[test]
fn ship_stops_at_bottom() {
    let mut ship = Ship::new(solid(16, 16));
    for _ in 0..100 {
        ship.handle_input(false, true);
        ship.update();
        assert!(ship.rect().y() <= 208);
    }
    assert_eq!(ship.rect().y(), 208);
}

#[test]
fn asteroid_drifts_left() {
    let mut asteroid = Asteroid::new(solid(8, 8));
    asteroid.update();
    assert_eq!((asteroid.rect().x(), asteroid.rect().y()), (251, 96));
    asteroid.update();
    assert_eq!(asteroid.rect().x(), 250);
    assert_eq!(asteroid.sprite().height(), 8);
}

#[test]
fn ship_render_draws_at_rect() {
    let mut canvas = Canvas::new(32, 32).unwrap();
    let ship = Ship::new(solid(2, 2));
    ship.render(&mut canvas);
    let frame = canvas.frame();
    assert_eq!(&frame[0..4], &[255, 255, 255, 255]);
    assert_eq!(&frame[8..12], &[0, 0, 0, 255]);
}

#[test]
fn asteroid_render_draws_at_rect() {
    let mut canvas = Canvas::new(4, 4).unwrap();
    let asteroid = Asteroid::new(solid(1, 1));
    asteroid.render(&mut canvas);
    let frame = canvas.frame();
    assert_eq!(&frame[0..4], &[255, 255, 255, 255]);
    assert_eq!(&frame[4..8], &[0, 0, 0, 255]);
}
