use ships::game::{Game, LOGICAL_HEIGHT, LOGICAL_WIDTH};
use ships::sprite::Sprite;

fn solid(width: u32, height: u32) -> Sprite {
    Sprite::from_rgba8(width, height, &vec![255; (4 * width * height) as usize]).unwrap()
}

fn pixel(frame: &[u8], x: usize, y: usize) -> [u8; 4] {
    let i = 4 * (y * LOGICAL_WIDTH as usize + x);
    [frame[i], frame[i + 1], frame[i + 2], frame[i + 3]]
}

#[test]
fn game_frame_has_logical_size() {
    let mut game = Game::new(solid(16, 16), solid(8, 8));
    game.render();
    assert_eq!(game.frame().len(), 4 * 256 * 224);
    assert_eq!((LOGICAL_WIDTH, LOGICAL_HEIGHT), (256, 224));
}

#[test]
fn game_draws_background_ship_and_asteroid() {
    let mut game = Game::new(solid(16, 16), solid(8, 8));
    game.update(false, false);
    game.render();
    let frame = game.frame();
    assert_eq!(pixel(&frame, 0, 0), [10, 15, 30, 255]);
    assert_eq!(pixel(&frame, 8, 104), [255, 255, 255, 255]);
    assert_eq!(pixel(&frame, 23, 119), [255, 255, 255, 255]);
    assert_eq!(pixel(&frame, 24, 119), [10, 15, 30, 255]);
    assert_eq!(pixel(&frame, 251, 96), [255, 255, 255, 255]);
    assert_eq!(pixel(&frame, 255, 103), [255, 255, 255, 255]);
    assert_eq!(pixel(&frame, 250, 96), [10, 15, 30, 255]);
}

#[test]
fn game_update_moves_ship_with_keys() {
    let mut game = Game::new(solid(16, 16), solid(8, 8));
    game.update(false, true);
    game.render();
    let frame = game.frame();
    assert_eq!(pixel(&frame, 8, 106), [255, 255, 255, 255]);
    assert_eq!(pixel(&frame, 8, 105), [10, 15, 30, 255]);
}

#[test]
fn game_starts_with_entities_drawn_at_origin() {
    let mut game = Game::new(solid(16, 16), solid(8, 8));
    game.render();
    let frame = game.frame();
    assert_eq!(pixel(&frame, 0, 0), [255, 255, 255, 255]);
    assert_eq!(pixel(&frame, 15, 15), [255, 255, 255, 255]);
    assert_eq!(pixel(&frame, 16, 16), [10, 15, 30, 255]);
}
