use core::marker::PhantomData;

use vstd::prelude::*;

use crate::math::{Fixed, Scalar, Vector2, Vector3, Vector4};
use crate::{PhantomUnsend, PhantomUnsync};

verus! {

/// An opaque handle to a texture owned by a renderer.
#[derive(Debug, Clone, Copy, PartialEq, Eq, Hash)]
pub struct TextureID(pub(crate) u64, pub(crate) PhantomUnsend, pub(crate) PhantomUnsync);

impl View for TextureID {
    type V = int;

    closed spec fn view(&self) -> int {
        self.0 as int
    }
}

impl TextureID {
    pub(crate) fn make(value: u64) -> (r: TextureID)
        ensures
            r@ == value as int,
    {
        TextureID(value, PhantomData, PhantomData)
    }

    /// The numeric value of the handle.
    pub fn value(&self) -> (r: u64)
        ensures
            r as int == self@,
    {
        self.0
    }
}

/// Decoded image data: three or four channels, 8-bit or fixed-point.
pub enum Pixels {
    RGB(Vec<Vector3<u8>>),
    RGBA(Vec<Vector4<u8>>),
    RGBF(Vec<Vector3<Fixed>>),
    RGBAF(Vec<Vector4<Fixed>>),
}

/// The number of pixels held.
pub open spec fn pixels_count_m(p: Pixels) -> int {
    match p {
        Pixels::RGB(v) => v@.len() as int,
        Pixels::RGBA(v) => v@.len() as int,
        Pixels::RGBF(v) => v@.len() as int,
        Pixels::RGBAF(v) => v@.len() as int,
    }
}

/// An 8-bit channel normalized into fixed-point units: `v / 255` of one.
pub open spec fn channel_m(v: int) -> int {
    (v * 65536) / 255
}

/// Pixel `i` as normalized fixed-point RGBA models; three-channel
/// formats read back with a fully opaque alpha.
pub open spec fn pixel_at_m(p: Pixels, i: int) -> (int, int, int, int) {
    match p {
        Pixels::RGB(v) => (
            channel_m(v@[i].x as int),
            channel_m(v@[i].y as int),
            channel_m(v@[i].z as int),
            65536,
        ),
        Pixels::RGBA(v) => (
            channel_m(v@[i].x as int),
            channel_m(v@[i].y as int),
            channel_m(v@[i].z as int),
            channel_m(v@[i].w as int),
        ),
        Pixels::RGBF(v) => (v@[i].x.m(), v@[i].y.m(), v@[i].z.m(), 65536),
        Pixels::RGBAF(v) => (v@[i].x.m(), v@[i].y.m(), v@[i].z.m(), v@[i].w.m()),
    }
}

impl Pixels {
    /// The number of pixels held.
    pub fn len(&self) -> (r: usize)
        ensures
            r as int == pixels_count_m(*self),
    {
        match self {
            Pixels::RGB(v) => v.len(),
            Pixels::RGBA(v) => v.len(),
            Pixels::RGBF(v) => v.len(),
            Pixels::RGBAF(v) => v.len(),
        }
    }
}

/// Normalizes an 8-bit channel into fixed-point units.
fn channel(v: u8) -> (r: Fixed)
    ensures
        r.m() == channel_m(v as int),
{
    let q: u64 = (v as u64) * 65536 / 255;
    Fixed::from_raw(q as i64)
}

/// A texture registered with a renderer: its size and the pixel data
/// last uploaded.
pub struct TextureResource {
    pub(crate) id: TextureID,
    pub(crate) size: Vector2<usize>,
    pub(crate) pixels: Pixels,
}

impl TextureResource {
    pub(crate) fn make(id: TextureID, size: Vector2<usize>, pixels: Pixels) -> (r:
        TextureResource)
        ensures
            r.spec_id() == id@,
            r.spec_size() == size,
            r.spec_pixels() == pixels,
    {
        TextureResource { id, size, pixels }
    }

    /// The handle value this resource is registered under.
    pub closed spec fn spec_id(&self) -> int {
        self.id@
    }

    /// The size the texture was created or last refilled with.
    pub closed spec fn spec_size(&self) -> Vector2<usize> {
        self.size
    }

    /// The pixel data last uploaded.
    pub closed spec fn spec_pixels(&self) -> Pixels {
        self.pixels
    }

    pub fn get_id(&self) -> (r: TextureID)
        ensures
            r@ == self.spec_id(),
    {
        self.id
    }

    /// The size the texture was created or last refilled with.
    pub fn get_size(&self) -> (r: Vector2<usize>)
        ensures
            r == self.spec_size(),
    {
        self.size
    }

    /// The full image as normalized fixed-point RGBA, one entry per
    /// pixel, whatever format the data was uploaded in.
    pub fn get_pixels(&self) -> (r: Vec<Vector4<Fixed>>)
        ensures
            r@.len() == pixels_count_m(self.spec_pixels()),
            forall|i: int|
                0 <= i < r@.len() ==> (#[trigger] r@[i]).models() == pixel_at_m(
                    self.spec_pixels(),
                    i,
                ),
    {
        let mut out: Vec<Vector4<Fixed>> = Vec::new();
        match &self.pixels {
            Pixels::RGB(v) => {
                let n = v.len();
                let mut i: usize = 0;
                while i < n
                    invariant
                        n == v@.len(),
                        i <= n,
                        out@.len() == i,
                        forall|k: int|
                            0 <= k < i ==> (#[trigger] out@[k]).models() == pixel_at_m(
                                Pixels::RGB(*v),
                                k,
                            ),
                    decreases n - i,
                {
                    let p = v[i];
                    out.push(
                        Vector4::new(channel(p.x), channel(p.y), channel(p.z), Fixed::from_raw(65536)),
                    );
                    i += 1;
                }
            },
            Pixels::RGBA(v) => {
                let n = v.len();
                let mut i: usize = 0;
                while i < n
                    invariant
                        n == v@.len(),
                        i <= n,
                        out@.len() == i,
                        forall|k: int|
                            0 <= k < i ==> (#[trigger] out@[k]).models() == pixel_at_m(
                                Pixels::RGBA(*v),
                                k,
                            ),
                    decreases n - i,
                {
                    let p = v[i];
                    out.push(Vector4::new(channel(p.x), channel(p.y), channel(p.z), channel(p.w)));
                    i += 1;
                }
            },
            Pixels::RGBF(v) => {
                let n = v.len();
                let mut i: usize = 0;
                while i < n
                    invariant
                        n == v@.len(),
                        i <= n,
                        out@.len() == i,
                        forall|k: int|
                            0 <= k < i ==> (#[trigger] out@[k]).models() == pixel_at_m(
                                Pixels::RGBF(*v),
                                k,
                            ),
                    decreases n - i,
                {
                    let p = v[i];
                    out.push(Vector4::new(p.x, p.y, p.z, Fixed::from_raw(65536)));
                    i += 1;
                }
            },
            Pixels::RGBAF(v) => {
                let n = v.len();
                let mut i: usize = 0;
                while i < n
                    invariant
                        n == v@.len(),
                        i <= n,
                        out@.len() == i,
                        forall|k: int|
                            0 <= k < i ==> (#[trigger] out@[k]).models() == pixel_at_m(
                                Pixels::RGBAF(*v),
                                k,
                            ),
                    decreases n - i,
                {
                    let p = v[i];
                    out.push(Vector4::new(p.x, p.y, p.z, p.w));
                    i += 1;
                }
            },
        }
        out
    }
}

} // verus!
