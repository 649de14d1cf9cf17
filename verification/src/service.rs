//! The boundary with the external image service and the randomness source.
//!
//! Each function here wraps one call of an outside crate; its contract is
//! what that crate's documentation promises, and Verus takes it on trust.
//! The pixel arithmetic of a transform is not restated: the bytes a
//! transform produces are named by an uninterpreted function of the input
//! bytes and the parameters, which is sound because each of these transforms
//! is deterministic in its arguments.

use vstd::prelude::*;
use crate::image_data::Image;

verus! {

/// The bytes of `pixels` (a `width` x `height` RGBA bitmap) mirrored across
/// the vertical axis.
pub uninterp spec fn flipped_horizontal(pixels: Seq<u8>, width: nat, height: nat) -> Seq<u8>;

/// The bytes of the bitmap mirrored across the horizontal axis.
pub uninterp spec fn flipped_vertical(pixels: Seq<u8>, width: nat, height: nat) -> Seq<u8>;

/// The bytes of the bitmap with every pixel's hue rotated by `degrees`.
pub uninterp spec fn hue_rotated(pixels: Seq<u8>, width: nat, height: nat, degrees: int) -> Seq<u8>;

/// The bytes of the bitmap with every color channel shifted by `amount`,
/// saturating at the channel bounds; the alpha channel is unchanged.
pub uninterp spec fn brightened(pixels: Seq<u8>, width: nat, height: nat, amount: int) -> Seq<u8>;

/// The PNG encoding of the bitmap.
pub uninterp spec fn png_encoded(pixels: Seq<u8>, width: nat, height: nat) -> Seq<u8>;

/// Relies on `image::DynamicImage::fliph`: mirrors the bitmap across the
/// vertical axis; dimensions and pixel format are unchanged.
#[verifier::external_body]
pub fn flip_horizontal(img: Image) -> (r: Image)
    requires
        img.wf(),
    ensures
        r.width == img.width,
        r.height == img.height,
        r@.pixels == flipped_horizontal(img@.pixels, img@.width, img@.height),
        r.wf(),
{
    let (w, h) = (img.width, img.height);
    let buf = image::RgbaImage::from_raw(w, h, img.pixels).unwrap();
    let out = image::DynamicImage::ImageRgba8(buf).fliph().into_rgba8();
    Image { width: w, height: h, pixels: out.into_raw() }
}

/// Relies on `image::DynamicImage::flipv`: mirrors the bitmap across the
/// horizontal axis; dimensions and pixel format are unchanged.
#[verifier::external_body]
pub fn flip_vertical(img: Image) -> (r: Image)
    requires
        img.wf(),
    ensures
        r.width == img.width,
        r.height == img.height,
        r@.pixels == flipped_vertical(img@.pixels, img@.width, img@.height),
        r.wf(),
{
    let (w, h) = (img.width, img.height);
    let buf = image::RgbaImage::from_raw(w, h, img.pixels).unwrap();
    let out = image::DynamicImage::ImageRgba8(buf).flipv().into_rgba8();
    Image { width: w, height: h, pixels: out.into_raw() }
}

/// Relies on `image::DynamicImage::huerotate`: rotates every pixel's hue by
/// `degrees`; dimensions and pixel format are unchanged.
#[verifier::external_body]
pub fn rotate_hue(img: Image, degrees: i32) -> (r: Image)
    requires
        img.wf(),
    ensures
        r.width == img.width,
        r.height == img.height,
        r@.pixels == hue_rotated(img@.pixels, img@.width, img@.height, degrees as int),
        r.wf(),
{
    let (w, h) = (img.width, img.height);
    let buf = image::RgbaImage::from_raw(w, h, img.pixels).unwrap();
    let out = image::DynamicImage::ImageRgba8(buf).huerotate(degrees).into_rgba8();
    Image { width: w, height: h, pixels: out.into_raw() }
}

/// Relies on `image::DynamicImage::brighten`: shifts every color channel
/// by `amount`, saturating, leaving alpha alone; dimensions and pixel
/// format are unchanged.
#[verifier::external_body]
pub fn brighten(img: Image, amount: i32) -> (r: Image)
    requires
        img.wf(),
    ensures
        r.width == img.width,
        r.height == img.height,
        r@.pixels == brightened(img@.pixels, img@.width, img@.height, amount as int),
        r.wf(),
{
    let (w, h) = (img.width, img.height);
    let buf = image::RgbaImage::from_raw(w, h, img.pixels).unwrap();
    let out = image::DynamicImage::ImageRgba8(buf).brighten(amount).into_rgba8();
    Image { width: w, height: h, pixels: out.into_raw() }
}

/// Relies on `image::DynamicImage::write_to` with `ImageFormat::Png`:
/// writing a correctly sized RGBA bitmap into an in-memory buffer fails
/// exactly when the bitmap has zero width or height, which the PNG format
/// forbids. On success the buffer holds exactly the PNG encoding of the
/// bitmap, a deterministic function of the pixel data and dimensions.
#[verifier::external_body]
pub fn encode_png(img: &Image, out: &mut Vec<u8>) -> (r: Result<(), ()>)
    requires
        img.wf(),
        old(out)@.len() == 0,
    ensures
        r is Ok ==> img@.width > 0 && img@.height > 0,
        r is Err ==> img@.width == 0 || img@.height == 0,
        r is Ok ==> final(out)@ == png_encoded(img@.pixels, img@.width, img@.height),
{
    let buf = image::RgbaImage::from_raw(img.width, img.height, img.pixels.clone()).unwrap();
    let dynamic = image::DynamicImage::ImageRgba8(buf);
    let mut cursor = std::io::Cursor::new(out);
    match dynamic.write_to(&mut cursor, image::ImageFormat::Png) {
        Ok(()) => Ok(()),
        Err(_) => Err(()),
    }
}

/// Relies on `rand::random::<bool>`: an independent fair coin per call.
/// Nothing can be promised of a single random outcome.
#[verifier::external_body]
pub fn random_coin() -> bool {
    rand::random::<bool>()
}

/// Relies on `rand::random_range`: an independent uniform draw from
/// `lo..=hi` per call. The call panics on an empty range, which the
/// precondition rules out.
#[verifier::external_body]
pub fn random_in_range(lo: i32, hi: i32) -> (r: i32)
    requires
        lo <= hi,
    ensures
        lo <= r <= hi,
{
    rand::random_range(lo..=hi)
}

} // verus!
