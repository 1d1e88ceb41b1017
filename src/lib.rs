//! A small arcade game's core: premultiplied-alpha colors, clamped integer
//! geometry, sprites, a software canvas that blits with alpha compositing,
//! and the ship and asteroid entities that move over it.

pub mod canvas;
pub mod color;
pub mod entities;
pub mod game;
pub mod geometry;
pub mod sprite;
