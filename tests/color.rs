use ships::color::{demultiply_channel, multiply_channel, Color};

#[test]
fn from_rgba_premultiplies() {
    let c = Color::from_rgba(200, 100, 50, 128);
    assert_eq!(c, Color { r: 100, g: 50, b: 25, a: 128 });
}

#[test]
fn from_rgba_keeps_opaque_colors() {
    let c = Color::from_rgba(1, 2, 3, 255);
    assert_eq!(c, Color { r: 1, g: 2, b: 3, a: 255 });
}

#[test]
fn from_rgba_clears_transparent_colors() {
    let c = Color::from_rgba(200, 100, 50, 0);
    assert_eq!(c, Color { r: 0, g: 0, b: 0, a: 0 });
}

#[test]
fn from_multiplied_takes_first_four_bytes() {
    let c = Color::from_multiplied(&[9, 8, 7, 6, 5]);
    assert_eq!(c, Color { r: 9, g: 8, b: 7, a: 6 });
}

#[test]
fn blend_opaque_source_replaces() {
    let dest = Color { r: 10, g: 20, b: 30, a: 255 };
    let src = Color { r: 1, g: 2, b: 3, a: 255 };
    assert_eq!(dest.blend(src), src);
}

#[test]
fn blend_translucent_source() {
    let dest = Color { r: 10, g: 20, b: 30, a: 255 };
    let src = Color { r: 100, g: 50, b: 25, a: 128 };
    assert_eq!(dest.blend(src), Color { r: 104, g: 59, b: 39, a: 255 });
}

#[test]
fn blend_transparent_source_keeps_destination() {
    let dest = Color { r: 10, g: 20, b: 30, a: 255 };
    let src = Color { r: 0, g: 0, b: 0, a: 0 };
    assert_eq!(dest.blend(src), dest);
}

#[test]
fn multiply_in_place() {
    let mut c = Color { r: 255, g: 128, b: 0, a: 51 };
    c.multiply();
    assert_eq!(c, Color { r: 51, g: 25, b: 0, a: 51 });
}

#[test]
fn demultiply_restores_straight_color() {
    let c = Color { r: 100, g: 50, b: 25, a: 128 };
    assert_eq!(c.demultiply(), [199, 99, 49, 128]);
}

#[test]
fn demultiply_opaque_and_transparent() {
    assert_eq!(Color { r: 1, g: 2, b: 3, a: 255 }.demultiply(), [1, 2, 3, 255]);
    assert_eq!(Color { r: 7, g: 2, b: 3, a: 0 }.demultiply(), [0, 0, 0, 0]);
}

#[test]
fn channels_are_premultiplied_bytes() {
    assert_eq!(Color { r: 100, g: 50, b: 25, a: 128 }.channels(), [100, 50, 25, 128]);
}

#[test]
fn channel_helpers() {
    assert_eq!(multiply_channel(255, 128), 128);
    assert_eq!(multiply_channel(200, 128), 100);
    assert_eq!(demultiply_channel(128, 128), 255);
    assert_eq!(demultiply_channel(25, 128), 49);
    assert_eq!(demultiply_channel(200, 100), 254);
}

#[test]
fn color_into_bytes_demultiplies() {
    let bytes: [u8; 4] = Color { r: 100, g: 50, b: 25, a: 128 }.into();
    assert_eq!(bytes, [199, 99, 49, 128]);
}

#[test]
fn color_from_byte_array_premultiplies() {
    let c = Color::from(&[200u8, 100, 50, 128]);
    assert_eq!(c, Color { r: 100, g: 50, b: 25, a: 128 });
}

#[test]
fn color_into_u32_packs_rgb() {
    let packed: u32 = Color { r: 10, g: 20, b: 30, a: 255 }.into();
    assert_eq!(packed, 0x000A141E);
    let half: u32 = Color { r: 100, g: 50, b: 25, a: 128 }.into();
    assert_eq!(half, (199 << 16) | (99 << 8) | 49);
}
