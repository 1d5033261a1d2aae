//! A decoded image as a flat array of packed pixels, sampled with wraparound.
use vstd::prelude::*;
use vstd::arithmetic::div_mod::{
    lemma_fundamental_div_mod,
    lemma_fundamental_div_mod_converse,
    lemma_mod_add_multiples_vanish,
    lemma_mod_bound,
};
use crate::utils::{argb8, argb8_parts, from_argb8, to_argb8};
use crate::vector::Vec4;

verus! {

/// The pixel that a sample outside the stored data gives: opaque magenta.
pub const SENTINEL: u32 = 0xFFFF_00FF;

/// The texel column (or row) that the coordinate `t` selects in an image
/// `size` texels wide (or high): the coordinate scaled by the size, wrapped
/// around the size. A negative coordinate selects the first.
pub open spec fn texel_coord(t: i32, size: int) -> int {
    if t < 0 {
        0
    } else {
        ((t * size) / 65536) % size
    }
}

/// The value between 0 and 1 that a channel byte stands for.
pub open spec fn byte_to_unit(b: u8) -> i32 {
    ((b * 65536) / 255) as i32
}

/// A texture: `width * height` packed pixels in row-major order.
#[derive(Debug, Clone, PartialEq, Eq)]
pub struct Texture {
    pub width: usize,
    pub height: usize,
    pub data: Vec<u32>,
}

impl Texture {
    /// The texture has texels, and as many stored pixels as its size asks for.
    pub open spec fn wf(&self) -> bool {
        &&& self.width > 0
        &&& self.height > 0
        &&& self.data@.len() == self.width * self.height
    }

    /// The position in `data` of the texel that the coordinates select.
    pub open spec fn index_spec(&self, u: i32, v: i32) -> int {
        texel_coord(u, self.width as int) + texel_coord(v, self.height as int) * self.width
    }

    /// The pixel that the coordinates select; the sentinel where the texture
    /// has no texels or stores too few pixels.
    pub open spec fn argb_spec(&self, u: i32, v: i32) -> u32 {
        if self.width > 0 && self.height > 0 && self.index_spec(u, v) < self.data@.len() {
            self.data@[self.index_spec(u, v)]
        } else {
            SENTINEL
        }
    }

    /// The colour that the coordinates select, with alpha in `x`, then red,
    /// green and blue, each between 0 and 1.
    pub open spec fn color_spec(&self, u: i32, v: i32) -> Vec4 {
        if self.width > 0 && self.height > 0 && self.index_spec(u, v) < self.data@.len() {
            let (a, r, g, b) = argb8_parts(self.data@[self.index_spec(u, v)]);
            Vec4 { x: byte_to_unit(a), y: byte_to_unit(r), z: byte_to_unit(g), w: byte_to_unit(b) }
        } else {
            Vec4 { x: 65536, y: 65536, z: 0, w: 65536 }
        }
    }

    /// A texture of the given size over the given pixels, or nothing when the
    /// size is empty or does not match the number of pixels.
    pub fn new(width: usize, height: usize, data: Vec<u32>) -> (r: Option<Texture>)
        ensures
            r matches Some(t) ==> t.wf() && t.width == width && t.height == height && t.data@
                == data@,
            r is Some <==> width > 0 && height > 0 && data@.len() == width * height,
    {
        if width == 0 || height == 0 {
            return None;
        }
        let len = data.len();
        match width.checked_mul(height) {
            Some(n) => {
                if n == len {
                    Some(Texture { width, height, data })
                } else {
                    None
                }
            },
            None => None,
        }
    }

    /// The texture of an image given as rows of pixels of four bytes each:
    /// red, green, blue and alpha. Nothing where the number of bytes is not
    /// that of a `width` by `height` image.
    pub fn from_rgba8(width: usize, height: usize, bytes: &[u8]) -> (r: Option<Texture>)
        ensures
            r is Some <==> bytes@.len() == 4 * (width * height),
            r matches Some(t) ==> {
                &&& t.width == width
                &&& t.height == height
                &&& t.data@.len() == width * height
                &&& forall|i: int|
                    0 <= i < t.data@.len() ==> #[trigger] t.data@[i] == argb8(
                        bytes@[4 * i + 3],
                        bytes@[4 * i],
                        bytes@[4 * i + 1],
                        bytes@[4 * i + 2],
                    )
            },
    {
        let len = bytes.len();
        let count = match width.checked_mul(height) {
            Some(count) => count,
            None => { return None; },
        };
        if len % 4 != 0 || len / 4 != count {
            return None;
        }
        let mut data: Vec<u32> = Vec::new();
        let mut i: usize = 0;
        while i < count
            invariant
                i <= count,
                len == 4 * count,
                bytes@.len() == len,
                data@.len() == i,
                forall|j: int|
                    0 <= j < i ==> #[trigger] data@[j] == argb8(
                        bytes@[4 * j + 3],
                        bytes@[4 * j],
                        bytes@[4 * j + 1],
                        bytes@[4 * j + 2],
                    ),
            decreases count - i,
        {
            let r = bytes[4 * i];
            let g = bytes[4 * i + 1];
            let b = bytes[4 * i + 2];
            let a = bytes[4 * i + 3];
            data.push(to_argb8(a, r, g, b));
            i += 1;
        }
        Some(Texture { width, height, data })
    }

    fn coord(t: i32, size: usize) -> (r: usize)
        requires
            size > 0,
        ensures
            r == texel_coord(t, size as int),
            r < size,
    {
        if t < 0 {
            0
        } else {
            assert(0 <= t * size <= 0x8000_0000 * 0x1_0000_0000_0000_0000) by (nonlinear_arith)
                requires
                    0 <= t <= 0x8000_0000,
                    0 <= size <= 0x1_0000_0000_0000_0000,
            ;
            proof {
                lemma_mod_bound((t * size) / 65536, size as int);
            }
            let scaled: u128 = (t as u128) * (size as u128) / 65536;
            (scaled % (size as u128)) as usize
        }
    }

    /// Position in `data` of the texel that the coordinates select.
    pub fn uv_to_index(&self, u: i32, v: i32) -> (r: usize)
        requires
            self.width > 0,
            self.height > 0,
            self.width * self.height <= usize::MAX,
        ensures
            r == self.index_spec(u, v),
            r < self.width * self.height,
    {
        let x = Self::coord(u, self.width);
        let y = Self::coord(v, self.height);
        proof {
            lemma_index_in_range(x as int, y as int, self.width as int, self.height as int);
        }
        x + y * self.width
    }

    fn lookup(&self, u: i32, v: i32) -> (r: Option<u32>)
        ensures
            r == if self.width > 0 && self.height > 0 && self.index_spec(u, v)
                < self.data@.len() {
                Some(self.data@[self.index_spec(u, v)])
            } else {
                None
            },
    {
        if self.width == 0 || self.height == 0 {
            return None;
        }
        let x = Self::coord(u, self.width);
        let y = Self::coord(v, self.height);
        assert(0 <= y * self.width <= 0xFFFF_FFFF_FFFF_FFFF * 0xFFFF_FFFF_FFFF_FFFF)
            by (nonlinear_arith)
            requires
                0 <= y <= 0xFFFF_FFFF_FFFF_FFFF,
                0 <= self.width <= 0xFFFF_FFFF_FFFF_FFFF,
        ;
        let id: u128 = (x as u128) + (y as u128) * (self.width as u128);
        if id < self.data.len() as u128 {
            Some(self.data[id as usize])
        } else {
            None
        }
    }

    /// The pixel that the coordinates select.
    pub fn argb_at_uv(&self, u: i32, v: i32) -> (r: u32)
        ensures
            r == self.argb_spec(u, v),
    {
        match self.lookup(u, v) {
            Some(p) => p,
            None => to_argb8(255, 255, 0, 255),
        }
    }

    /// The colour that the coordinates select, each channel between 0 and 1.
    pub fn argb_at_uvf(&self, u: i32, v: i32) -> (r: Vec4)
        ensures
            r == self.color_spec(u, v),
    {
        match self.lookup(u, v) {
            Some(p) => {
                let color = from_argb8(p);
                Vec4 {
                    x: unit_from_byte(color.0),
                    y: unit_from_byte(color.1),
                    z: unit_from_byte(color.2),
                    w: unit_from_byte(color.3),
                }
            },
            None => Vec4 { x: 65536, y: 65536, z: 0, w: 65536 },
        }
    }
}

/// Computes [`byte_to_unit`].
pub fn unit_from_byte(b: u8) -> (r: i32)
    ensures
        r == byte_to_unit(b),
        0 <= r <= 65536,
{
    (b as i32 * 65536) / 255
}

/// A column inside the width and a row inside the height give a position
/// inside the image.
pub proof fn lemma_index_in_range(x: int, y: int, width: int, height: int)
    by (nonlinear_arith)
    requires
        0 <= x < width,
        0 <= y < height,
    ensures
        0 <= x + y * width < width * height,
{
}

/// In a well-formed texture every coordinate selects a stored pixel: no
/// sample gives the sentinel for want of data.
pub proof fn lemma_sampling_in_range(tex: Texture, u: i32, v: i32)
    requires
        tex.wf(),
    ensures
        0 <= tex.index_spec(u, v) < tex.data@.len(),
        tex.argb_spec(u, v) == tex.data@[tex.index_spec(u, v)],
{
    if u >= 0 {
        lemma_mod_bound((u * tex.width) / 65536, tex.width as int);
    }
    if v >= 0 {
        lemma_mod_bound((v * tex.height) / 65536, tex.height as int);
    }
    lemma_index_in_range(
        texel_coord(u, tex.width as int),
        texel_coord(v, tex.height as int),
        tex.width as int,
        tex.height as int,
    );
}

/// A coordinate and the same coordinate one whole turn further select the
/// same texel column.
pub proof fn lemma_texel_coord_wraps(t: i32, size: int)
    requires
        0 <= t,
        t + 65536 <= i32::MAX,
        size > 0,
    ensures
        texel_coord((t + 65536) as i32, size) == texel_coord(t, size),
{
    let q = (t * size) / 65536;
    let r = (t * size) % 65536;
    lemma_fundamental_div_mod(t * size, 65536);
    assert((t + 65536) * size == t * size + 65536 * size) by (nonlinear_arith);
    lemma_fundamental_div_mod_converse((t + 65536) * size, 65536, q + size, r);
    lemma_mod_add_multiples_vanish(q, size);
}

/// Sampling one whole turn further along either axis gives the same pixel.
pub proof fn lemma_sampling_wraps(tex: Texture, u: i32, v: i32)
    requires
        0 <= u,
        0 <= v,
        u + 65536 <= i32::MAX,
        v + 65536 <= i32::MAX,
    ensures
        tex.argb_spec((u + 65536) as i32, v) == tex.argb_spec(u, v),
        tex.argb_spec(u, (v + 65536) as i32) == tex.argb_spec(u, v),
        tex.color_spec((u + 65536) as i32, v) == tex.color_spec(u, v),
        tex.color_spec(u, (v + 65536) as i32) == tex.color_spec(u, v),
{
    if tex.width > 0 && tex.height > 0 {
        lemma_texel_coord_wraps(u, tex.width as int);
        lemma_texel_coord_wraps(v, tex.height as int);
    }
}

} // verus!
