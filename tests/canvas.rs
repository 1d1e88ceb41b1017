use ships::canvas::Canvas;
use ships::color::Color;
use ships::geometry::Point;
use ships::sprite::Sprite;

fn pixel(frame: &[u8], width: usize, x: usize, y: usize) -> [u8; 4] {
    let i = 4 * (y * width + x);
    [frame[i], frame[i + 1], frame[i + 2], frame[i + 3]]
}

fn solid(width: u32, height: u32, rgba: [u8; 4]) -> Sprite {
    let mut bytes = Vec::new();
    for _ in 0..width * height {
        bytes.extend_from_slice(&rgba);
    }
    Sprite::from_rgba8(width, height, &bytes).unwrap()
}

#[test]
fn canvas_new_rejects_empty_sizes() {
    assert!(Canvas::new(0, 5).is_none());
    assert!(Canvas::new(5, 0).is_none());
    assert!(Canvas::new(1073741824, 1).is_none());
}

#[test]
fn new_canvas_is_transparent_and_shows_black() {
    let c = Canvas::new(4, 3).unwrap();
    let frame = c.frame();
    assert_eq!(frame.len(), 48);
    for y in 0..3 {
        for x in 0..4 {
            assert_eq!(pixel(&frame, 4, x, y), [0, 0, 0, 255]);
        }
    }
}

#[test]
fn clear_fills_with_color() {
    let mut c = Canvas::new(4, 3).unwrap();
    c.set_color(Color::from_rgba(10, 20, 30, 255));
    c.clear();
    let frame = c.frame();
    for y in 0..3 {
        for x in 0..4 {
            assert_eq!(pixel(&frame, 4, x, y), [10, 20, 30, 255]);
        }
    }
}

#[test]
fn clear_default_color_is_black() {
    let mut c = Canvas::new(2, 2).unwrap();
    c.clear();
    assert_eq!(c.frame(), vec![0, 0, 0, 255, 0, 0, 0, 255, 0, 0, 0, 255, 0, 0, 0, 255]);
}

#[test]
fn frame_shows_straight_color_opaque() {
    let mut c = Canvas::new(1, 1).unwrap();
    c.set_color(Color::from_rgba(200, 100, 50, 128));
    c.clear();
    assert_eq!(c.frame(), vec![199, 99, 49, 255]);
}

#[test]
fn blit_clips_at_top_left() {
    let mut c = Canvas::new(4, 3).unwrap();
    c.blit(&solid(2, 2, [255, 0, 0, 255]), Point::new(-1, -1));
    let frame = c.frame();
    for y in 0..3 {
        for x in 0..4 {
            let expected = if x == 0 && y == 0 { [255, 0, 0, 255] } else { [0, 0, 0, 255] };
            assert_eq!(pixel(&frame, 4, x, y), expected);
        }
    }
}

#[test]
fn blit_clips_at_bottom_right() {
    let mut c = Canvas::new(4, 3).unwrap();
    c.blit(&solid(2, 2, [0, 255, 0, 255]), Point::new(3, 2));
    let frame = c.frame();
    for y in 0..3 {
        for x in 0..4 {
            let expected = if x == 3 && y == 2 { [0, 255, 0, 255] } else { [0, 0, 0, 255] };
            assert_eq!(pixel(&frame, 4, x, y), expected);
        }
    }
}

#[test]
fn blit_outside_changes_nothing() {
    let mut c = Canvas::new(4, 3).unwrap();
    c.set_color(Color::from_rgba(1, 2, 3, 255));
    c.clear();
    let before = c.frame();
    c.blit(&solid(2, 2, [255, 255, 255, 255]), Point::new(4, 0));
    c.blit(&solid(2, 2, [255, 255, 255, 255]), Point::new(-2, 0));
    c.blit(&solid(2, 2, [255, 255, 255, 255]), Point::new(i32::MIN, i32::MAX));
    assert_eq!(c.frame(), before);
}

#[test]
fn blit_places_sprite_rows() {
    let mut c = Canvas::new(4, 3).unwrap();
    let s = Sprite::from_rgba8(
        2,
        2,
        &[1, 0, 0, 255, 2, 0, 0, 255, 3, 0, 0, 255, 4, 0, 0, 255],
    )
    .unwrap();
    c.blit(&s, Point::new(1, 1));
    let frame = c.frame();
    assert_eq!(pixel(&frame, 4, 1, 1), [1, 0, 0, 255]);
    assert_eq!(pixel(&frame, 4, 2, 1), [2, 0, 0, 255]);
    assert_eq!(pixel(&frame, 4, 1, 2), [3, 0, 0, 255]);
    assert_eq!(pixel(&frame, 4, 2, 2), [4, 0, 0, 255]);
    assert_eq!(pixel(&frame, 4, 0, 1), [0, 0, 0, 255]);
    assert_eq!(pixel(&frame, 4, 3, 2), [0, 0, 0, 255]);
}

#[test]
fn blit_blends_translucent_sprite() {
    let mut c = Canvas::new(2, 1).unwrap();
    c.set_color(Color::from_rgba(10, 20, 30, 255));
    c.clear();
    c.blit(&solid(1, 1, [200, 100, 50, 128]), Point::new(1, 0));
    let frame = c.frame();
    assert_eq!(pixel(&frame, 2, 0, 0), [10, 20, 30, 255]);
    assert_eq!(pixel(&frame, 2, 1, 0), [104, 59, 39, 255]);
}

#[test]
fn blit_transparent_sprite_keeps_canvas() {
    let mut c = Canvas::new(2, 2).unwrap();
    c.set_color(Color::from_rgba(10, 20, 30, 255));
    c.clear();
    c.blit(&solid(2, 2, [255, 255, 255, 0]), Point::new(0, 0));
    assert_eq!(pixel(&c.frame(), 2, 1, 1), [10, 20, 30, 255]);
}
