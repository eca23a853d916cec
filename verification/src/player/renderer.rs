//! The integer state of the viewport: the sizes of surface and texture, the
//! pan, and the index buffer of the quad.

use vstd::prelude::*;

pub mod texture;

verus! {

/// The order in which the quad's four corners are drawn, as two triangles.
pub const INDICES: [u16; 6] = [0, 2, 3, 0, 1, 2];

/// The two bytes at place `i` of `bytes` hold the word at place `i` of
/// `words`, low byte first or high byte first.
pub open spec fn holds_word_at(bytes: Seq<u8>, words: Seq<u16>, i: int) -> bool {
    let first = bytes[2 * i];
    let second = bytes[2 * i + 1];
    words[i] == first + 256 * second || words[i] == 256 * first + second
}

/// `bytes` holds `words` in order, two bytes for each.
pub open spec fn holds_words(bytes: Seq<u8>, words: Seq<u16>) -> bool {
    &&& bytes.len() == 2 * words.len()
    &&& forall|i: int| 0 <= i < words.len() ==> #[trigger] holds_word_at(bytes, words, i)
}

/// `bytemuck::cast_slice` from `u16` to `u8`: the words as the bytes that the
/// machine keeps them in. There are two bytes for each word, in the order of
/// the words; which of the two comes first is the machine's matter.
#[verifier::external_body]
fn cast_bytes(words: &[u16]) -> (r: Vec<u8>)
    ensures
        holds_words(r@, words@),
{
    bytemuck::cast_slice::<u16, u8>(words).to_vec()
}

/// The bytes of the index buffer: `INDICES`, two bytes each.
pub fn index_bytes() -> (r: Vec<u8>)
    ensures
        r@.len() == 12,
        holds_words(r@, INDICES@),
{
    let indices: [u16; 6] = INDICES;
    cast_bytes(indices.as_slice())
}

/// The sum of two `i32` as the machine keeps it: reduced into the type's
/// range by a multiple of 2^32.
pub open spec fn wrapped_sum(a: i32, b: i32) -> i32 {
    if a + b > i32::MAX {
        (a + b - 0x1_0000_0000) as i32
    } else if a + b < i32::MIN {
        (a + b + 0x1_0000_0000) as i32
    } else {
        (a + b) as i32
    }
}

/// An offset into the texture, in texture pixels.
#[derive(Debug, Clone, Copy, PartialEq, Eq, Structural)]
pub struct Pan {
    pub width: i32,
    pub height: i32,
}

impl Pan {
    /// Moves the pan along the width by `v`, with no bound but the type's.
    pub fn increase_width(&mut self, v: i32)
        ensures
            final(self).width == wrapped_sum(old(self).width, v),
            final(self).height == old(self).height,
            i32::MIN <= old(self).width + v <= i32::MAX ==> final(self).width == old(self).width
                + v,
    {
        self.width = self.width.wrapping_add(v);
    }

    /// Moves the pan along the height by `v`, with no bound but the type's.
    pub fn increase_height(&mut self, v: i32)
        ensures
            final(self).height == wrapped_sum(old(self).height, v),
            final(self).width == old(self).width,
            i32::MIN <= old(self).height + v <= i32::MAX ==> final(self).height == old(
                self,
            ).height + v,
    {
        self.height = self.height.wrapping_add(v);
    }
}

impl Default for Pan {
    fn default() -> (r: Self)
        ensures
            r == (Pan { width: 0, height: 0 }),
    {
        Pan { width: 0, height: 0 }
    }
}

/// A width and a height in pixels.
#[derive(Debug, Clone, Copy, PartialEq, Eq, Structural)]
pub struct Size {
    pub width: u32,
    pub height: u32,
}

impl Size {
    /// A side of the size is zero: no surface can have it.
    pub fn is_empty(&self) -> (r: bool)
        ensures
            r == (self.width == 0 || self.height == 0),
    {
        self.width == 0 || self.height == 0
    }
}

/// What the transform is computed from, but for the scale: the size of the
/// drawing surface, the size of the texture on show, and the pan.
#[derive(Debug, Clone, Copy, PartialEq, Eq, Structural)]
pub struct Viewport {
    pub size: Size,
    pub texture: Size,
    pub pan: Pan,
}

impl Viewport {
    /// The viewport once it has been asked to take `size` for its surface: as
    /// it was where the size has a side of length zero, else with that size
    /// and nothing else changed.
    pub open spec fn resized(self, size: Size) -> Viewport {
        if size.width == 0 || size.height == 0 {
            self
        } else {
            Viewport { size, ..self }
        }
    }

    /// The viewport of a surface that shows a texture for the first time.
    pub fn new(size: Size, texture: Size) -> (r: Self)
        ensures
            r == (Viewport { size, texture, pan: Pan { width: 0, height: 0 } }),
    {
        Viewport { size, texture, pan: Pan { width: 0, height: 0 } }
    }

    /// Takes the size of an image for that of the texture, and sets the pan
    /// back to the origin.
    pub fn update_image(&mut self, dimensions: (u32, u32))
        ensures
            final(self).texture == (Size { width: dimensions.0, height: dimensions.1 }),
            final(self).pan == (Pan { width: 0, height: 0 }),
            final(self).size == old(self).size,
    {
        self.texture = Size { width: dimensions.0, height: dimensions.1 };
        self.pan = Pan { width: 0, height: 0 };
    }

    /// Takes a new size for the surface. A surface has no side of length
    /// zero: such a size is not taken.
    pub fn resize(&mut self, size: Size)
        requires
            size.width != 0,
            size.height != 0,
        ensures
            final(self).size == size,
            final(self).size.width != 0 && final(self).size.height != 0,
            final(self).texture == old(self).texture,
            final(self).pan == old(self).pan,
    {
        self.size = size;
    }

    /// Takes a new size for the surface where it has no side of length
    /// zero, and says whether it did; a size with such a side is turned
    /// down and changes nothing.
    pub fn try_resize(&mut self, size: Size) -> (taken: bool)
        ensures
            taken == (size.width != 0 && size.height != 0),
            *final(self) == old(self).resized(size),
    {
        if size.is_empty() {
            false
        } else {
            self.resize(size);
            true
        }
    }

    /// The size of the drawing surface.
    pub fn surface_size(&self) -> (r: Size)
        ensures
            r == self.size,
    {
        self.size
    }

    /// The size of the texture on show.
    pub fn texture_size(&self) -> (r: Size)
        ensures
            r == self.texture,
    {
        self.texture
    }
}

/// No size with a side of length zero is ever taken: a viewport whose
/// surface has no such side has none after any number of requests to
/// resize, and a request with such a size changes nothing.
pub proof fn lemma_surface_keeps_its_sides(v: Viewport, sizes: Seq<Size>)
    requires
        v.size.width != 0 && v.size.height != 0,
    ensures
        resized_all(v, sizes).size.width != 0 && resized_all(v, sizes).size.height != 0,
        resized_all(v, sizes).texture == v.texture,
        resized_all(v, sizes).pan == v.pan,
        forall|size: Size| size.width == 0 || size.height == 0 ==> #[trigger] v.resized(size) == v,
    decreases sizes.len(),
{
    if sizes.len() > 0 {
        lemma_surface_keeps_its_sides(v, sizes.drop_last());
    }
}

/// The viewport after the requests to resize it to each of `sizes` in turn.
pub open spec fn resized_all(v: Viewport, sizes: Seq<Size>) -> Viewport
    decreases sizes.len(),
{
    if sizes.len() == 0 {
        v
    } else {
        resized_all(v, sizes.drop_last()).resized(sizes.last())
    }
}

} // verus!
