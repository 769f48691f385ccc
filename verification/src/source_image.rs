//! The decoded working image: a row-major RGB sample grid at 16-bit depth.
//!
//! A [`SourceImage`] is created once per decode and never mutated; every
//! render works on a fresh copy of it.  Its mathematical view is a
//! [`Frame`], over which the rotation and serialization transforms are
//! specified exactly.

use vstd::arithmetic::div_mod::{
    lemma_fundamental_div_mod_converse_div, lemma_fundamental_div_mod_converse_mod,
};
use vstd::prelude::*;

verus! {

/// The mathematical value of an image: dimensions and the flat, row-major
/// sequence of 16-bit samples, three per pixel (red, green, blue).
#[verifier::ext_equal]
pub ghost struct Frame {
    pub width: int,
    pub height: int,
    pub data: Seq<u16>,
}

impl Frame {
    /// A frame is well formed when it holds exactly three samples per pixel.
    pub open spec fn wf(self) -> bool {
        &&& self.width >= 0
        &&& self.height >= 0
        &&& self.data.len() == 3 * (self.width * self.height)
    }

    /// Channel `c` of the pixel at column `x`, row `y`.
    pub open spec fn sample(self, x: int, y: int, c: int) -> u16 {
        self.data[3 * (y * self.width + x) + c]
    }
}

/// The frame rotated 90 degrees clockwise: the pixel at `(x, y)` of the
/// result is the source pixel at `(y, height - 1 - x)`.
pub open spec fn rot90(f: Frame) -> Frame {
    Frame {
        width: f.height,
        height: f.width,
        data: Seq::new(
            f.data.len(),
            |i: int|
                {
                    let p = i / 3;
                    let c = i % 3;
                    let x = p % f.height;
                    let y = p / f.height;
                    f.sample(y, f.height - 1 - x, c)
                },
        ),
    }
}

/// The frame rotated 180 degrees: the pixel at `(x, y)` of the result is
/// the source pixel at `(width - 1 - x, height - 1 - y)`.
pub open spec fn rot180(f: Frame) -> Frame {
    Frame {
        width: f.width,
        height: f.height,
        data: Seq::new(
            f.data.len(),
            |i: int|
                {
                    let p = i / 3;
                    let c = i % 3;
                    let x = p % f.width;
                    let y = p / f.width;
                    f.sample(f.width - 1 - x, f.height - 1 - y, c)
                },
        ),
    }
}

/// The frame rotated 270 degrees clockwise: the pixel at `(x, y)` of the
/// result is the source pixel at `(width - 1 - y, x)`.
pub open spec fn rot270(f: Frame) -> Frame {
    Frame {
        width: f.height,
        height: f.width,
        data: Seq::new(
            f.data.len(),
            |i: int|
                {
                    let p = i / 3;
                    let c = i % 3;
                    let x = p % f.height;
                    let y = p / f.height;
                    f.sample(f.width - 1 - y, x, c)
                },
        ),
    }
}

/// A 16-bit channel value reduced to 8-bit depth, rounding to nearest:
/// `round(v * 255 / 65535)`.
pub open spec fn scaled_8bit(v: u16) -> int {
    (v + 128) / 257
}

/// The frame serialized to the interchange layout: row-major, four 8-bit
/// channels per pixel, the fourth channel fully opaque.
pub open spec fn rgba_bytes(f: Frame) -> Seq<u8> {
    Seq::new(
        (4 * (f.width * f.height)) as nat,
        |i: int|
            {
                let p = i / 4;
                let c = i % 4;
                if c == 3 {
                    255u8
                } else {
                    scaled_8bit(f.data[3 * p + c]) as u8
                }
            },
    )
}

/// Decomposition facts for the flat index of channel `c` of pixel `(x, y)`
/// in a `w`-wide, `h`-high frame.
proof fn lemma_sample_index(w: int, h: int, x: int, y: int, c: int)
    requires
        0 <= x < w,
        0 <= y < h,
        0 <= c < 3,
    ensures
        0 <= y * w + x < w * h,
        0 <= 3 * (y * w + x) + c < 3 * (w * h),
        (3 * (y * w + x) + c) / 3 == y * w + x,
        (3 * (y * w + x) + c) % 3 == c,
        (y * w + x) / w == y,
        (y * w + x) % w == x,
{
    assert(0 <= y * w + x < w * h) by (nonlinear_arith)
        requires
            0 <= x < w,
            0 <= y < h,
    ;
    let p = y * w + x;
    lemma_fundamental_div_mod_converse_div(3 * p + c, 3, p, c);
    lemma_fundamental_div_mod_converse_mod(3 * p + c, 3, p, c);
    lemma_fundamental_div_mod_converse_div(p, w, y, x);
    lemma_fundamental_div_mod_converse_mod(p, w, y, x);
}

/// An immutable decoded image: `width * height` pixels, three 16-bit
/// samples each, rows stored top to bottom.
pub struct SourceImage {
    pub width: u32,
    pub height: u32,
    pub data: Vec<u16>,
}

impl View for SourceImage {
    type V = Frame;

    open spec fn view(&self) -> Frame {
        Frame { width: self.width as int, height: self.height as int, data: self.data@ }
    }
}

impl SourceImage {
    /// Well-formedness: three samples per pixel, and small enough that the
    /// four-channel interchange buffer can be addressed.
    pub open spec fn wf(self) -> bool {
        &&& self.data@.len() == 3 * ((self.width as int) * (self.height as int))
        &&& 4 * ((self.width as int) * (self.height as int)) <= usize::MAX as int
    }

    /// Builds an image from its parts, accepting exactly the buffers whose
    /// length matches the dimensions and whose pixel count is addressable
    /// at four channels per pixel.
    pub fn from_parts(width: u32, height: u32, data: Vec<u16>) -> (r: Option<SourceImage>)
        ensures
            match r {
                Some(img) => {
                    &&& img.wf()
                    &&& img@ == (Frame { width: width as int, height: height as int, data: data@ })
                },
                None => {
                    ||| data@.len() != 3 * ((width as int) * (height as int))
                    ||| 4 * ((width as int) * (height as int)) > usize::MAX as int
                },
            },
    {
        proof {
            assert((width as int) * (height as int) <= 0xffffffff * 0xffffffff)
                by (nonlinear_arith)
                requires
                    0 <= width as int <= 0xffffffff,
                    0 <= height as int <= 0xffffffff,
            ;
        }
        let pixels: u64 = (width as u64) * (height as u64);
        if pixels > (usize::MAX as u64) / 4 {
            return None;
        }
        if (data.len() as u64) != 3 * pixels {
            return None;
        }
        Some(SourceImage { width, height, data })
    }

    /// A fresh copy of the image's sample buffer.
    pub fn samples_copy(&self) -> (r: Vec<u16>)
        ensures
            r@ == self.data@,
    {
        let n: usize = self.data.len();
        let mut out: Vec<u16> = Vec::new();
        let mut i: usize = 0;
        while i < n
            invariant
                n == self.data@.len(),
                i <= n,
                out@ =~= self.data@.subrange(0, i as int),
            decreases n - i,
        {
            out.push(self.data[i]);
            i = i + 1;
        }
        assert(out@ =~= self.data@);
        out
    }

    /// The image rotated 90 degrees clockwise.
    pub fn rotated90(&self) -> (r: SourceImage)
        requires
            self.wf(),
        ensures
            r.wf(),
            r@ == rot90(self@),
    {
        let w = self.width;
        let h = self.height;
        let mut data: Vec<u16> = Vec::new();
        let mut y: u32 = 0;
        while y < w
            invariant
                self.wf(),
                w == self.width,
                h == self.height,
                y <= w,
                data@.len() == 3 * ((y as int) * (h as int)),
                forall|j: int| 0 <= j < data@.len() ==> data@[j] == rot90(self@).data[j],
            decreases w - y,
        {
            let mut x: u32 = 0;
            while x < h
                invariant
                    self.wf(),
                    w == self.width,
                    h == self.height,
                    y < w,
                    x <= h,
                    data@.len() == 3 * ((y as int) * (h as int) + (x as int)),
                    forall|j: int| 0 <= j < data@.len() ==> data@[j] == rot90(self@).data[j],
                decreases h - x,
            {
                proof {
                    lemma_sample_index(h as int, w as int, x as int, y as int, 0);
                    lemma_sample_index(h as int, w as int, x as int, y as int, 1);
                    lemma_sample_index(h as int, w as int, x as int, y as int, 2);
                    lemma_sample_index(w as int, h as int, y as int, h - 1 - x as int, 0);
                    lemma_sample_index(w as int, h as int, y as int, h - 1 - x as int, 1);
                    lemma_sample_index(w as int, h as int, y as int, h - 1 - x as int, 2);
                }
                let base: usize = 3 * (((h - 1 - x) as usize) * (w as usize) + (y as usize));
                data.push(self.data[base]);
                data.push(self.data[base + 1]);
                data.push(self.data[base + 2]);
                x = x + 1;
            }
            proof {
                assert((y as int) * (h as int) + (h as int) == (y as int + 1) * (h as int))
                    by (nonlinear_arith);
            }
            y = y + 1;
        }
        let r = SourceImage { width: h, height: w, data };
        assert(r@.data =~= rot90(self@).data);
        assert(r@ =~= rot90(self@));
        r
    }

    /// The image rotated 180 degrees.
    pub fn rotated180(&self) -> (r: SourceImage)
        requires
            self.wf(),
        ensures
            r.wf(),
            r@ == rot180(self@),
    {
        let w = self.width;
        let h = self.height;
        let mut data: Vec<u16> = Vec::new();
        let mut y: u32 = 0;
        while y < h
            invariant
                self.wf(),
                w == self.width,
                h == self.height,
                y <= h,
                data@.len() == 3 * ((y as int) * (w as int)),
                forall|j: int| 0 <= j < data@.len() ==> data@[j] == rot180(self@).data[j],
            decreases h - y,
        {
            let mut x: u32 = 0;
            while x < w
                invariant
                    self.wf(),
                    w == self.width,
                    h == self.height,
                    y < h,
                    x <= w,
                    data@.len() == 3 * ((y as int) * (w as int) + (x as int)),
                    forall|j: int| 0 <= j < data@.len() ==> data@[j] == rot180(self@).data[j],
                decreases w - x,
            {
                proof {
                    lemma_sample_index(w as int, h as int, x as int, y as int, 0);
                    lemma_sample_index(w as int, h as int, x as int, y as int, 1);
                    lemma_sample_index(w as int, h as int, x as int, y as int, 2);
                    lemma_sample_index(w as int, h as int, w - 1 - x as int, h - 1 - y as int, 0);
                    lemma_sample_index(w as int, h as int, w - 1 - x as int, h - 1 - y as int, 1);
                    lemma_sample_index(w as int, h as int, w - 1 - x as int, h - 1 - y as int, 2);
                }
                let base: usize = 3 * (((h - 1 - y) as usize) * (w as usize) + ((w - 1 - x) as usize));
                data.push(self.data[base]);
                data.push(self.data[base + 1]);
                data.push(self.data[base + 2]);
                x = x + 1;
            }
            proof {
                assert((y as int) * (w as int) + (w as int) == (y as int + 1) * (w as int))
                    by (nonlinear_arith);
            }
            y = y + 1;
        }
        let r = SourceImage { width: w, height: h, data };
        proof {
            assert((h as int) * (w as int) == (w as int) * (h as int)) by (nonlinear_arith);
        }
        assert(r@.data =~= rot180(self@).data);
        assert(r@ =~= rot180(self@));
        r
    }

    /// The image rotated 270 degrees clockwise.
    pub fn rotated270(&self) -> (r: SourceImage)
        requires
            self.wf(),
        ensures
            r.wf(),
            r@ == rot270(self@),
    {
        let w = self.width;
        let h = self.height;
        let mut data: Vec<u16> = Vec::new();
        let mut y: u32 = 0;
        while y < w
            invariant
                self.wf(),
                w == self.width,
                h == self.height,
                y <= w,
                data@.len() == 3 * ((y as int) * (h as int)),
                forall|j: int| 0 <= j < data@.len() ==> data@[j] == rot270(self@).data[j],
            decreases w - y,
        {
            let mut x: u32 = 0;
            while x < h
                invariant
                    self.wf(),
                    w == self.width,
                    h == self.height,
                    y < w,
                    x <= h,
                    data@.len() == 3 * ((y as int) * (h as int) + (x as int)),
                    forall|j: int| 0 <= j < data@.len() ==> data@[j] == rot270(self@).data[j],
                decreases h - x,
            {
                proof {
                    lemma_sample_index(h as int, w as int, x as int, y as int, 0);
                    lemma_sample_index(h as int, w as int, x as int, y as int, 1);
                    lemma_sample_index(h as int, w as int, x as int, y as int, 2);
                    lemma_sample_index(w as int, h as int, w - 1 - y as int, x as int, 0);
                    lemma_sample_index(w as int, h as int, w - 1 - y as int, x as int, 1);
                    lemma_sample_index(w as int, h as int, w - 1 - y as int, x as int, 2);
                }
                let base: usize = 3 * ((x as usize) * (w as usize) + ((w - 1 - y) as usize));
                data.push(self.data[base]);
                data.push(self.data[base + 1]);
                data.push(self.data[base + 2]);
                proof {
                    let f = self@;
                    let p = (y as int) * (h as int) + (x as int);
                    assert(data@[3 * p + 0] == f.sample(w - 1 - y as int, x as int, 0));
                    assert(data@[3 * p + 1] == f.sample(w - 1 - y as int, x as int, 1));
                    assert(data@[3 * p + 2] == f.sample(w - 1 - y as int, x as int, 2));
                    assert(rot270(f).data[3 * p + 0] == f.sample(w - 1 - y as int, x as int, 0));
                    assert(rot270(f).data[3 * p + 1] == f.sample(w - 1 - y as int, x as int, 1));
                    assert(rot270(f).data[3 * p + 2] == f.sample(w - 1 - y as int, x as int, 2));
                }
                x = x + 1;
            }
            proof {
                assert((y as int) * (h as int) + (h as int) == (y as int + 1) * (h as int))
                    by (nonlinear_arith);
            }
            y = y + 1;
        }
        let r = SourceImage { width: h, height: w, data };
        assert(r@.data =~= rot270(self@).data);
        assert(r@ =~= rot270(self@));
        r
    }
}

/// A 16-bit channel value reduced to 8-bit depth at run time.
pub fn scale_channel_8bit(v: u16) -> (r: u8)
    ensures
        r == scaled_8bit(v),
{
    proof {
        vstd::arithmetic::div_mod::lemma_div_is_ordered(v as int + 128, 65663, 257);
    }
    (((v as u32) + 128) / 257) as u8
}

/// Serializes a well-formed image to the interchange layout: row-major,
/// four channels per pixel, 8 bits per channel, fully opaque.
pub fn serialize_rgba(img: &SourceImage) -> (r: Vec<u8>)
    requires
        img.wf(),
    ensures
        r@ == rgba_bytes(img@),
{
    let w = img.width;
    let h = img.height;
    let count: usize = (w as usize) * (h as usize);
    let mut out: Vec<u8> = Vec::new();
    let mut p: usize = 0;
    while p < count
        invariant
            img.wf(),
            w == img.width,
            h == img.height,
            count == (w as int) * (h as int),
            p <= count,
            out@.len() == 4 * (p as int),
            forall|j: int| 0 <= j < out@.len() ==> out@[j] == rgba_bytes(img@)[j],
        decreases count - p,
    {
        proof {
            lemma_fundamental_div_mod_converse_div(4 * p + 0, 4, p as int, 0);
            lemma_fundamental_div_mod_converse_mod(4 * p + 0, 4, p as int, 0);
            lemma_fundamental_div_mod_converse_div(4 * p + 1, 4, p as int, 1);
            lemma_fundamental_div_mod_converse_mod(4 * p + 1, 4, p as int, 1);
            lemma_fundamental_div_mod_converse_div(4 * p + 2, 4, p as int, 2);
            lemma_fundamental_div_mod_converse_mod(4 * p + 2, 4, p as int, 2);
            lemma_fundamental_div_mod_converse_div(4 * p + 3, 4, p as int, 3);
            lemma_fundamental_div_mod_converse_mod(4 * p + 3, 4, p as int, 3);
        }
        let base: usize = 3 * p;
        out.push(scale_channel_8bit(img.data[base]));
        out.push(scale_channel_8bit(img.data[base + 1]));
        out.push(scale_channel_8bit(img.data[base + 2]));
        out.push(255);
        p = p + 1;
    }
    assert(out@ =~= rgba_bytes(img@));
    out
}

} // verus!
