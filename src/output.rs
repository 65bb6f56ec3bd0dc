//! The combined output image: a size, a name, and room for exactly its pixels.

use vstd::prelude::*;

use crate::error::ImageDataErr;

verus! {

/// An output image whose pixel data is filled in after it is made.
pub struct FloatingImg {
    width: u32,
    height: u32,
    data: Vec<u8>,
    name: String,
}

/// What an output image holds, as plain values.
pub struct FloatingImgView {
    pub width: u32,
    pub height: u32,
    pub data: Seq<u8>,
    pub name: Seq<char>,
}

impl FloatingImgView {
    /// Bytes reserved for the pixels: four for each one.
    pub open spec fn capacity(&self) -> int {
        self.width as int * self.height as int * 4
    }
}

impl View for FloatingImg {
    type V = FloatingImgView;

    closed spec fn view(&self) -> FloatingImgView {
        FloatingImgView {
            width: self.width,
            height: self.height,
            data: self.data@,
            name: self.name@,
        }
    }
}

impl FloatingImg {
    /// The reserved room fits in memory and the data does not exceed it.
    pub open spec fn wf(&self) -> bool {
        &&& self@.capacity() <= usize::MAX
        &&& self@.data.len() <= self@.capacity()
    }

    /// Makes an empty output image of the given size, with room reserved for
    /// `width * height` RGBA8 pixels.
    pub fn new(width: u32, height: u32, name: String) -> (r: Self)
        requires
            width as int * height as int * 4 <= usize::MAX,
        ensures
            r.wf(),
            r@ == (FloatingImgView { width, height, data: Seq::empty(), name: name@ }),
    {
        let buffer_capacity = width as usize * height as usize * 4;
        let buffer: Vec<u8> = Vec::with_capacity(buffer_capacity);
        FloatingImg { width, height, data: buffer, name }
    }

    /// Puts `data` in as the pixel data; fails with `BufferCapacityExceeded`,
    /// changing nothing, when it is longer than the room reserved.
    pub fn set_data(&mut self, data: Vec<u8>) -> (r: Result<(), ImageDataErr>)
        requires
            old(self).wf(),
        ensures
            final(self).wf(),
            data@.len() > old(self)@.capacity() ==> r == Err::<(), ImageDataErr>(
                ImageDataErr::BufferCapacityExceeded,
            ) && final(self)@ == old(self)@,
            data@.len() <= old(self)@.capacity() ==> r is Ok && final(self)@ == (FloatingImgView {
                data: data@,
                ..old(self)@
            }),
    {
        let capacity = self.width as usize * self.height as usize * 4;
        if data.len() > capacity {
            return Err(ImageDataErr::BufferCapacityExceeded);
        }
        self.data = data;
        Ok(())
    }

    /// Width in pixels.
    pub fn width(&self) -> (r: u32)
        ensures
            r == self@.width,
    {
        self.width
    }

    /// Height in pixels.
    pub fn height(&self) -> (r: u32)
        ensures
            r == self@.height,
    {
        self.height
    }

    /// The RGBA8 pixel data.
    pub fn data(&self) -> (r: &Vec<u8>)
        ensures
            r@ == self@.data,
    {
        &self.data
    }

    /// The name the image is stored under.
    pub fn name(&self) -> (r: &String)
        ensures
            r@ == self@.name,
    {
        &self.name
    }
}

} // verus!
