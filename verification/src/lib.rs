//! Byte-to-pixel mapping for looking at binary data: every byte of a buffer
//! becomes one coloured cell of a pixel canvas.

pub mod color;
pub mod settings;
pub mod view;
