//! A verified direct-framebuffer text renderer, together with a handful of
//! small verified utility functions.
//!
//! The heart of the crate is [`writer::FrameBufferWriter`]: it owns a byte
//! buffer that stands for video memory, plus the geometry and pixel format of
//! that buffer, and turns a stream of characters into glyph pixels at a
//! tracked cursor position, wrapping at the right edge and scrolling at the
//! bottom. Every pixel write is bounds-checked and the whole rendering path
//! is specified down to the byte.

pub mod basics;
pub mod decimal;
pub mod font;
pub mod framebuffer;
pub mod functions;
pub mod laws;
pub mod shapes;
pub mod writer;
