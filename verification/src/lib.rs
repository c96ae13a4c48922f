//! Pixel-buffer combining library.
//!
//! Two same-size RGBA images are merged into one by copying 4-byte pixel
//! blocks alternately from each source, one pixel block at a time. Image
//! decoding, resizing and encoding are delegated to an external imaging
//! library; the interleaving logic itself is verified.

pub mod calc;
pub mod floating_image;
pub mod image_ops;
pub mod interleave;
