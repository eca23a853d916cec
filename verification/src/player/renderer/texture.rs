//! Decoded images: RGBA, eight bits a channel, rows from the top.

use vstd::prelude::*;

verus! {

/// How many bytes an image of the given size holds: four for each pixel.
pub open spec fn byte_len(width: u32, height: u32) -> int {
    width * height * 4
}

/// A decoded image. It holds exactly `byte_len(width, height)` bytes.
#[derive(Debug, PartialEq, Eq)]
pub struct Rgba8Image {
    width: u32,
    height: u32,
    data: Vec<u8>,
}

impl Rgba8Image {
    #[verifier::type_invariant]
    spec fn sized(self) -> bool {
        self.data@.len() == byte_len(self.width, self.height)
    }

    /// The width in pixels.
    pub closed spec fn columns(&self) -> u32 {
        self.width
    }

    /// The height in pixels.
    pub closed spec fn rows(&self) -> u32 {
        self.height
    }

    /// The bytes, row by row, four to a pixel.
    pub closed spec fn bytes(&self) -> Seq<u8> {
        self.data@
    }

    /// An image of the given size, every byte zero.
    pub fn new(width: u32, height: u32) -> (r: Self)
        requires
            byte_len(width, height) <= usize::MAX,
        ensures
            r.columns() == width,
            r.rows() == height,
            r.bytes() == Seq::new(byte_len(width, height) as nat, |i: int| 0u8),
    {
        assert(0 <= width * height <= byte_len(width, height)) by (nonlinear_arith);
        let n: usize = (width as usize) * (height as usize) * 4;
        let mut data: Vec<u8> = Vec::new();
        let mut i: usize = 0;
        while i < n
            invariant
                i <= n,
                data@.len() == i,
                forall|k: int| 0 <= k < i ==> data@[k] == 0u8,
            decreases n - i,
        {
            data.push(0u8);
            i = i + 1;
        }
        assert(data@ =~= Seq::new(byte_len(width, height) as nat, |i: int| 0u8));
        Rgba8Image { width, height, data }
    }

    /// The image of the given size over the given bytes, where there are as
    /// many of them as the size asks for.
    pub fn from_raw(width: u32, height: u32, data: Vec<u8>) -> (r: Option<Self>)
        ensures
            r is Some <==> data@.len() == byte_len(width, height),
            r matches Some(img) ==> img.columns() == width && img.rows() == height
                && img.bytes() == data@,
    {
        assert(0 <= width * height <= 0xffff_ffff * 0xffff_ffff) by (nonlinear_arith)
            requires
                0 <= width <= 0xffff_ffff,
                0 <= height <= 0xffff_ffff,
        ;
        let want: u128 = (width as u128) * (height as u128) * 4;
        if data.len() as u128 == want {
            Some(Rgba8Image { width, height, data })
        } else {
            None
        }
    }

    /// What stands in for an image that could not be had: one pixel, every
    /// byte zero.
    pub fn placeholder() -> (r: Self)
        ensures
            r.columns() == 1,
            r.rows() == 1,
            r.bytes() == seq![0u8, 0u8, 0u8, 0u8],
    {
        let r = Rgba8Image::new(1, 1);
        assert(r.bytes() =~= seq![0u8, 0u8, 0u8, 0u8]);
        r
    }

    /// The width in pixels.
    pub fn width(&self) -> (r: u32)
        ensures
            r == self.columns(),
    {
        self.width
    }

    /// The height in pixels.
    pub fn height(&self) -> (r: u32)
        ensures
            r == self.rows(),
    {
        self.height
    }

    /// Width and height, in this order.
    pub fn dimensions(&self) -> (r: (u32, u32))
        ensures
            r == (self.columns(), self.rows()),
    {
        (self.width, self.height)
    }

    /// The bytes, row by row, four to a pixel.
    pub fn as_raw(&self) -> (r: &Vec<u8>)
        ensures
            r@ == self.bytes(),
            r@.len() == byte_len(self.columns(), self.rows()),
    {
        proof {
            use_type_invariant(self);
        }
        &self.data
    }

    /// Gives up the image for its bytes.
    pub fn into_raw(self) -> (r: Vec<u8>)
        ensures
            r@ == self.bytes(),
            r@.len() == byte_len(self.columns(), self.rows()),
    {
        proof {
            use_type_invariant(&self);
        }
        self.data
    }
}

} // verus!
