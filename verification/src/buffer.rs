//! The output buffer: a named, sized buffer of RGBA bytes.

use crate::error::ImageDataErrors;
use crate::resolution::count_pixels;
use vstd::prelude::*;

verus! {

/// What a [`FloatingImage`] stands for: its resolution, its bytes, its name.
pub struct FloatingImageView {
    pub width: u32,
    pub height: u32,
    pub data: Seq<u8>,
    pub name: Seq<char>,
}

impl FloatingImageView {
    /// The number of bytes the buffer committed to when it was made: four for
    /// each pixel of its resolution.
    pub open spec fn declared_capacity(self) -> nat {
        self.width as nat * self.height as nat * 4
    }

    /// The buffer holds a whole image: exactly as many bytes as it declared.
    pub open spec fn finalized(self) -> bool {
        self.data.len() == self.declared_capacity()
    }

    /// A buffer is either still empty or finalized.
    pub open spec fn well_formed(self) -> bool {
        self.data.len() == 0 || self.finalized()
    }
}

/// A buffer of raw RGBA pixels with a resolution and an output name. Its
/// declared capacity is fixed when it is made; its bytes are assigned once,
/// whole, by [`FloatingImage::set_data`].
pub struct FloatingImage {
    width: u32,
    height: u32,
    data: Vec<u8>,
    name: String,
}

impl View for FloatingImage {
    type V = FloatingImageView;

    closed spec fn view(&self) -> FloatingImageView {
        FloatingImageView {
            width: self.width,
            height: self.height,
            data: self.data@,
            name: self.name@,
        }
    }
}

impl FloatingImage {
    #[verifier::type_invariant]
    spec fn inv(self) -> bool {
        self@.well_formed()
    }

    /// An empty buffer for an image of `width` by `height` pixels.
    pub fn new(width: u32, height: u32, name: String) -> (image: Self)
        ensures
            image@ == (FloatingImageView {
                width,
                height,
                data: Seq::<u8>::empty(),
                name: name@,
            }),
    {
        FloatingImage { width, height, data: Vec::new(), name }
    }

    /// Assigns the buffer's bytes. The length of `data` is held against the
    /// declared capacity, and against nothing else: on a mismatch the buffer
    /// stays as it was.
    pub fn set_data(&mut self, data: Vec<u8>) -> (result: Result<(), ImageDataErrors>)
        ensures
            result is Ok <==> data@.len() == old(self)@.declared_capacity(),
            result is Ok ==> final(self)@ == (FloatingImageView { data: data@, ..old(self)@ }),
            result is Ok ==> final(self)@.finalized(),
            result is Err ==> result == Err::<(), ImageDataErrors>(ImageDataErrors::BufferTooSmall),
            result is Err ==> *final(self) == *old(self),
    {
        let pixels: u64 = count_pixels(self.width, self.height);
        if data.len() as u128 != pixels as u128 * 4 {
            return Err(ImageDataErrors::BufferTooSmall);
        }
        self.data = data;
        Ok(())
    }

    /// The width in pixels.
    pub fn width(&self) -> (width: u32)
        ensures
            width == self@.width,
    {
        self.width
    }

    /// The height in pixels.
    pub fn height(&self) -> (height: u32)
        ensures
            height == self@.height,
    {
        self.height
    }

    /// The bytes assigned so far: none, or a whole image.
    pub fn data(&self) -> (data: &Vec<u8>)
        ensures
            data@ == self@.data,
            self@.well_formed(),
    {
        proof {
            use_type_invariant(self);
        }
        &self.data
    }

    /// The name under which the image is to be written.
    pub fn name(&self) -> (name: &String)
        ensures
            name@ == self@.name,
    {
        &self.name
    }
}

} // verus!
