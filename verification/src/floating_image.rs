//! The output image buffer and the library's error type.
//!
//! A `FloatingImage` is built for known dimensions before its pixel data
//! exists: it reserves room for four bytes per pixel, and `set_data` accepts
//! a buffer only if it fits within that reserved capacity.

use vstd::prelude::*;

verus! {

/// The ways building or combining images can fail.
#[derive(Debug)]
pub enum ImageDataErrors {
    /// The two input images are stored in different file formats.
    DifferentImageFormats,
    /// The pixel data is larger than the buffer reserved for it.
    BufferTooSmall,
}

/// An output image: dimensions, a pixel-data buffer with room reserved for
/// four bytes per pixel, and the path the image will be written to.
pub struct FloatingImage {
    pub width: u32,
    pub height: u32,
    pub data: Vec<u8>,
    pub name: String,
}

impl FloatingImage {
    /// The buffer capacity reserved at construction: four bytes per pixel.
    pub open spec fn buffer_capacity(self) -> int {
        self.height * self.width * 4
    }

    /// The reserved capacity was computed without overflowing a `u32`.
    pub open spec fn well_formed(self) -> bool {
        self.height * self.width * 4 <= u32::MAX
    }

    /// Builds an empty image of the given dimensions, reserving room for
    /// four bytes per pixel of data to be supplied later.
    pub fn new(width: u32, height: u32, name: String) -> (r: Self)
        requires
            height * width * 4 <= u32::MAX,
        ensures
            r.width == width,
            r.height == height,
            r.name == name,
            r.data@ == Seq::<u8>::empty(),
            r.well_formed(),
    {
        proof {
            assert(height * width <= height * width * 4) by (nonlinear_arith);
            assert(0 <= height * width) by (nonlinear_arith);
        }
        let buffer_capacity = height * width * 4;

        let buffer: Vec<u8> = Vec::with_capacity(buffer_capacity as usize);

        FloatingImage { width, height, data: buffer, name }
    }

    /// Stores pixel data in the image. Data longer than the reserved
    /// capacity is rejected with `BufferTooSmall` and leaves the image
    /// unchanged; otherwise the data replaces the buffer.
    pub fn set_data(&mut self, data: Vec<u8>) -> (r: Result<(), ImageDataErrors>)
        requires
            old(self).well_formed(),
        ensures
            data@.len() <= old(self).buffer_capacity() ==> (
                r is Ok
                && final(self).data@ == data@
                && final(self).width == old(self).width
                && final(self).height == old(self).height
                && final(self).name == old(self).name
            ),
            data@.len() > old(self).buffer_capacity() ==> (
                r == Err::<(), ImageDataErrors>(ImageDataErrors::BufferTooSmall)
                && *final(self) == *old(self)
            ),
            final(self).well_formed(),
    {
        proof {
            assert(self.height * self.width <= self.height * self.width * 4)
                by (nonlinear_arith);
            assert(0 <= self.height * self.width) by (nonlinear_arith);
        }
        let capacity = self.height * self.width * 4;
        if data.len() > capacity as usize {
            return Err(ImageDataErrors::BufferTooSmall);
        }

        self.data = data;
        Ok(())
    }
}

} // verus!
