//! The pixel adapter: every decoded pixel layout is mapped into one
//! uniform 8-bit RGBA representation. 16-bit samples keep their high byte;
//! gray values are replicated into the three color channels; layouts
//! without alpha become fully opaque.

use vstd::prelude::*;
use load_image::ImageData;

verus! {

broadcast use vstd::std_specs::vec::axiom_spec_len;

#[verifier::external_type_specification]
#[verifier::reject_recursive_types(T)]
pub struct ExRgb<T>(load_image::export::rgb::Rgb<T>);

#[verifier::external_type_specification]
#[verifier::reject_recursive_types(T)]
#[verifier::reject_recursive_types(A)]
pub struct ExRgba<T, A>(load_image::export::rgb::Rgba<T, A>);

#[verifier::external_type_specification]
#[verifier::reject_recursive_types(T)]
pub struct ExGray<T>(load_image::export::rgb::Gray<T>);

#[verifier::external_type_specification]
#[verifier::reject_recursive_types(T)]
#[verifier::reject_recursive_types(A)]
pub struct ExGrayAlpha<T, A>(load_image::export::rgb::GrayAlpha<T, A>);

#[verifier::external_type_specification]
pub struct ExImageData(ImageData);

/// One pixel of the uniform representation the engine consumes.
#[derive(Clone, Copy, PartialEq, Eq, Structural, Debug)]
pub struct Pixel {
    pub r: u8,
    pub g: u8,
    pub b: u8,
    pub a: u8,
}

/// How many pixels a decoded bitmap holds.
pub open spec fn spec_pixel_count(d: ImageData) -> int {
    match d {
        ImageData::RGB8(p) => p@.len() as int,
        ImageData::RGBA8(p) => p@.len() as int,
        ImageData::RGB16(p) => p@.len() as int,
        ImageData::RGBA16(p) => p@.len() as int,
        ImageData::GRAY8(p) => p@.len() as int,
        ImageData::GRAY16(p) => p@.len() as int,
        ImageData::GRAYA8(p) => p@.len() as int,
        ImageData::GRAYA16(p) => p@.len() as int,
    }
}

/// The uniform pixel that source pixel `i` of `d` maps to.
#[allow(deprecated)]
pub open spec fn spec_adapted_pixel(d: ImageData, i: int) -> Pixel {
    match d {
        ImageData::RGB8(p) => Pixel { r: p@[i].r, g: p@[i].g, b: p@[i].b, a: 255 },
        ImageData::RGBA8(p) => Pixel { r: p@[i].r, g: p@[i].g, b: p@[i].b, a: p@[i].a },
        ImageData::RGB16(p) => Pixel {
            r: (p@[i].r >> 8) as u8,
            g: (p@[i].g >> 8) as u8,
            b: (p@[i].b >> 8) as u8,
            a: 255,
        },
        ImageData::RGBA16(p) => Pixel {
            r: (p@[i].r >> 8) as u8,
            g: (p@[i].g >> 8) as u8,
            b: (p@[i].b >> 8) as u8,
            a: (p@[i].a >> 8) as u8,
        },
        ImageData::GRAY8(p) => Pixel { r: p@[i].0, g: p@[i].0, b: p@[i].0, a: 255 },
        ImageData::GRAY16(p) => Pixel {
            r: (p@[i].0 >> 8) as u8,
            g: (p@[i].0 >> 8) as u8,
            b: (p@[i].0 >> 8) as u8,
            a: 255,
        },
        ImageData::GRAYA8(p) => Pixel { r: p@[i].0, g: p@[i].0, b: p@[i].0, a: p@[i].1 },
        ImageData::GRAYA16(p) => Pixel {
            r: (p@[i].0 >> 8) as u8,
            g: (p@[i].0 >> 8) as u8,
            b: (p@[i].0 >> 8) as u8,
            a: (p@[i].1 >> 8) as u8,
        },
    }
}

/// Every 16-bit gray-plus-alpha pixel adapts to its gray high byte
/// replicated across the three color channels, with its alpha high byte
/// carried through.
#[allow(deprecated)]
pub proof fn lemma_gray_alpha16_adapt(p: Vec<load_image::export::rgb::GRAYA16>, i: int)
    requires
        0 <= i < p@.len(),
    ensures
        ({
            let px = spec_adapted_pixel(ImageData::GRAYA16(p), i);
            &&& px.r == (p@[i].0 >> 8) as u8
            &&& px.g == px.r
            &&& px.b == px.r
            &&& px.a == (p@[i].1 >> 8) as u8
        }),
{
}

/// A decoded image: its dimensions and its pixels in the layout the
/// decoder produced.
pub struct DecodedImage {
    pub width: usize,
    pub height: usize,
    pub bitmap: ImageData,
}

impl DecodedImage {
    /// The bitmap holds exactly one pixel per coordinate.
    pub open spec fn wf(self) -> bool {
        spec_pixel_count(self.bitmap) == self.width * self.height
    }
}

/// How many pixels `d` holds.
pub fn pixel_count(d: &ImageData) -> (n: usize)
    ensures
        n == spec_pixel_count(*d),
{
    match d {
        ImageData::RGB8(p) => p.len(),
        ImageData::RGBA8(p) => p.len(),
        ImageData::RGB16(p) => p.len(),
        ImageData::RGBA16(p) => p.len(),
        ImageData::GRAY8(p) => p.len(),
        ImageData::GRAY16(p) => p.len(),
        ImageData::GRAYA8(p) => p.len(),
        ImageData::GRAYA16(p) => p.len(),
    }
}

/// The uniform pixel for source pixel `i` of `d`.
#[allow(deprecated)]
pub fn adapted_pixel(d: &ImageData, i: usize) -> (r: Pixel)
    requires
        i < spec_pixel_count(*d),
    ensures
        r == spec_adapted_pixel(*d, i as int),
{
    match d {
        ImageData::RGB8(p) => Pixel { r: p[i].r, g: p[i].g, b: p[i].b, a: 255 },
        ImageData::RGBA8(p) => Pixel { r: p[i].r, g: p[i].g, b: p[i].b, a: p[i].a },
        ImageData::RGB16(p) => Pixel {
            r: (p[i].r >> 8) as u8,
            g: (p[i].g >> 8) as u8,
            b: (p[i].b >> 8) as u8,
            a: 255,
        },
        ImageData::RGBA16(p) => Pixel {
            r: (p[i].r >> 8) as u8,
            g: (p[i].g >> 8) as u8,
            b: (p[i].b >> 8) as u8,
            a: (p[i].a >> 8) as u8,
        },
        ImageData::GRAY8(p) => {
            let v = p[i].0;
            Pixel { r: v, g: v, b: v, a: 255 }
        },
        ImageData::GRAY16(p) => {
            let v = (p[i].0 >> 8) as u8;
            Pixel { r: v, g: v, b: v, a: 255 }
        },
        ImageData::GRAYA8(p) => {
            let v = p[i].0;
            Pixel { r: v, g: v, b: v, a: p[i].1 }
        },
        ImageData::GRAYA16(p) => {
            let v = (p[i].0 >> 8) as u8;
            Pixel { r: v, g: v, b: v, a: (p[i].1 >> 8) as u8 }
        },
    }
}

/// One row of the uniform representation. Rows are independent: this
/// reads only the row's own source pixels, so different rows of the same
/// image can be produced concurrently.
pub fn convert_row(img: &DecodedImage, y: usize) -> (r: Vec<Pixel>)
    requires
        img.wf(),
        y < img.height,
    ensures
        r@.len() == img.width,
        forall|x: int|
            0 <= x < img.width ==> r@[x] == spec_adapted_pixel(
                img.bitmap,
                y * img.width + x,
            ),
{
    let w = img.width;
    let n = pixel_count(&img.bitmap);
    proof {
        assert(y * w + w <= img.height * w) by (nonlinear_arith)
            requires
                y + 1 <= img.height,
                w >= 0,
        ;
        assert(img.height * w == img.width * img.height) by (nonlinear_arith)
            requires
                w == img.width,
        ;
    }
    let base: usize = y * w;
    let mut r: Vec<Pixel> = Vec::new();
    let mut x: usize = 0;
    while x < w
        invariant
            0 <= x <= w,
            w == img.width,
            base == y * w,
            base + w <= spec_pixel_count(img.bitmap),
            spec_pixel_count(img.bitmap) <= usize::MAX,
            r@.len() == x,
            forall|k: int|
                0 <= k < x ==> r@[k] == spec_adapted_pixel(img.bitmap, base + k),
        decreases w - x,
    {
        let px = adapted_pixel(&img.bitmap, base + x);
        r.push(px);
        x = x + 1;
    }
    r
}

/// The whole image in the uniform representation, row by row.
pub fn adapt_image(img: &DecodedImage) -> (r: Vec<Pixel>)
    requires
        img.wf(),
    ensures
        r@.len() == spec_pixel_count(img.bitmap),
        forall|i: int|
            0 <= i < r@.len() ==> r@[i] == spec_adapted_pixel(img.bitmap, i),
{
    let n = pixel_count(&img.bitmap);
    let mut r: Vec<Pixel> = Vec::new();
    let mut i: usize = 0;
    while i < n
        invariant
            0 <= i <= n,
            n == spec_pixel_count(img.bitmap),
            r@.len() == i,
            forall|k: int| 0 <= k < i ==> r@[k] == spec_adapted_pixel(img.bitmap, k),
        decreases n - i,
    {
        let px = adapted_pixel(&img.bitmap, i);
        r.push(px);
        i = i + 1;
    }
    r
}

} // verus!
