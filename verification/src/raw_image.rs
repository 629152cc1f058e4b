//! Raw images as the clipboard hands them out: a width, a height and a
//! buffer of RGBA bytes, four for each pixel, row after row.

use vstd::prelude::*;

verus! {

/// An image as read from the clipboard. Nothing ties the length of the buffer
/// to the dimensions until `is_well_sized` has been asked.
#[derive(Clone, Debug, PartialEq, Eq)]
pub struct RawImage {
    pub width: u32,
    pub height: u32,
    pub bytes: Vec<u8>,
}

/// What a `RawImage` holds, as plain values.
pub struct RawImageView {
    pub width: u32,
    pub height: u32,
    pub bytes: Seq<u8>,
}

impl RawImageView {
    /// The number of bytes that a grid of these dimensions holds.
    pub open spec fn expected_len(self) -> nat {
        self.width as nat * self.height as nat * 4
    }

    /// Whether the buffer holds exactly the pixels of a `width` by `height`
    /// grid.
    pub open spec fn well_sized(self) -> bool {
        self.bytes.len() == self.expected_len()
    }
}

impl View for RawImage {
    type V = RawImageView;

    open spec fn view(&self) -> RawImageView {
        RawImageView { width: self.width, height: self.height, bytes: self.bytes@ }
    }
}

impl RawImage {
    /// Puts the three parts together.
    pub fn new(width: u32, height: u32, bytes: Vec<u8>) -> (image: RawImage)
        ensures
            image@ == (RawImageView { width, height, bytes: bytes@ }),
    {
        RawImage { width, height, bytes }
    }

    /// Tells whether the buffer's length is `width * height * 4`.
    pub fn is_well_sized(&self) -> (ok: bool)
        ensures
            ok == self@.well_sized(),
    {
        let width = self.width as u128;
        let height = self.height as u128;
        assert(width * height <= 0xffff_ffff * 0xffff_ffff) by (nonlinear_arith)
            requires
                width <= 0xffff_ffff,
                height <= 0xffff_ffff,
        ;
        self.bytes.len() as u128 == width * height * 4
    }
}

} // verus!
