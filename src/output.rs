//! The output record: the reconciled dimensions, a byte buffer and the
//! path the result goes to.

use vstd::prelude::*;
use crate::bitmap::{rgba_byte_len, rgba_len};
use crate::error::ImageDataErrors;

verus! {

/// An output image being assembled. `new` allocates `width * height * 4`
/// zero bytes; `set_data` replaces them once the composite is ready.
pub struct FloatingImage {
    pub width: u32,
    pub height: u32,
    pub data: Vec<u8>,
    pub name: String,
}

impl FloatingImage {
    /// Bytes allocated for the image: `width * height * 4`.
    pub open spec fn capacity(&self) -> int {
        rgba_len(self.width, self.height)
    }

    /// The buffer never holds more than was allocated for it.
    pub open spec fn wf(&self) -> bool {
        self.data@.len() <= self.capacity()
    }

    /// A `width` by `height` record with a zeroed RGBA8 buffer.
    pub fn new(width: u32, height: u32, name: String) -> (r: Self)
        requires
            rgba_len(width, height) <= usize::MAX,
        ensures
            r.width == width,
            r.height == height,
            r.name@ == name@,
            r.data@ == Seq::new(rgba_len(width, height) as nat, |i: int| 0u8),
            r.wf(),
    {
        let buffer_capacity = rgba_byte_len(width, height) as usize;
        let mut buffer: Vec<u8> = Vec::with_capacity(buffer_capacity);
        let mut i: usize = 0;
        while i < buffer_capacity
            invariant
                i <= buffer_capacity,
                buffer@ == Seq::new(i as nat, |j: int| 0u8),
            decreases buffer_capacity - i,
        {
            buffer.push(0u8);
            i = i + 1;
            assert(buffer@ =~= Seq::new(i as nat, |j: int| 0u8));
        }
        FloatingImage { width, height, data: buffer, name }
    }

    /// Replaces the buffer with `data`, unless `data` is longer than the
    /// allocation: then fails with `BufferTooSmall` and changes nothing.
    pub fn set_data(&mut self, data: Vec<u8>) -> (r: Result<(), ImageDataErrors>)
        ensures
            r is Err <==> data@.len() > old(self).capacity(),
            r is Err ==> r == Err::<(), _>(ImageDataErrors::BufferTooSmall),
            r is Err ==> *final(self) == *old(self),
            r is Ok ==> final(self).data@ == data@ && final(self).width == old(self).width
                && final(self).height == old(self).height && final(self).name
                == old(self).name,
            r is Ok ==> final(self).wf(),
    {
        if data.len() as u128 > rgba_byte_len(self.width, self.height) {
            return Err(ImageDataErrors::BufferTooSmall);
        }
        self.data = data;
        Ok(())
    }
}

} // verus!
