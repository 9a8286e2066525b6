//! The decisions of an interactive drawing program: what each window event
//! does to the program's state, how the keys steer the brush, and how an
//! RGBA image is laid out when it is uploaded to a texture.

pub mod events;
pub mod input;
pub mod paint;
pub mod texture;
