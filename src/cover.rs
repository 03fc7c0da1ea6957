//! Cover art: an uncompressed RGBA bitmap, and the decoding of a fetched JPEG.
use vstd::prelude::*;

use crate::api::HTTP_OK;

verus! {

/// An image as rows of RGBA pixels, four bytes per pixel.
#[derive(Debug, PartialEq, Eq)]
pub struct Bitmap {
    width: u32,
    height: u32,
    rgba: Vec<u8>,
}

/// Whether `len` bytes are exactly the RGBA pixels of a `width` by `height` image.
pub open spec fn rgba_fits(width: u32, height: u32, len: nat) -> bool {
    len == 4 * (width as nat) * (height as nat)
}

/// Whether the bytes decode as a JPEG, and if so its width and height. The
/// pixels themselves are not named: the decoder may round them differently
/// from one processor to another.
pub uninterp spec fn jpeg_size(bytes: Seq<u8>) -> Option<(u32, u32)>;

/// Relies on `image::load_from_memory_with_format` with the JPEG format, and on
/// `DynamicImage::into_rgba8` and `ImageBuffer::into_raw` to hand out its pixels
/// as RGBA bytes. A JPEG never decodes to RGBA directly, so `into_rgba8` converts
/// into a buffer made by `ImageBuffer::new`, which holds exactly four bytes per
/// pixel.
#[verifier::external_body]
fn decode_jpeg(bytes: &[u8]) -> (r: Option<(u32, u32, Vec<u8>)>)
    ensures
        r is Some <==> jpeg_size(bytes@) is Some,
        r matches Some((w, h, px)) ==> jpeg_size(bytes@) == Some((w, h)) && rgba_fits(
            w,
            h,
            px@.len(),
        ),
{
    match image::load_from_memory_with_format(bytes, image::ImageFormat::Jpeg) {
        Ok(img) => {
            let rgba = img.into_rgba8();
            Some((rgba.width(), rgba.height(), rgba.into_raw()))
        },
        Err(_) => None,
    }
}

impl View for Bitmap {
    type V = (u32, u32, Seq<u8>);

    closed spec fn view(&self) -> (u32, u32, Seq<u8>) {
        (self.width, self.height, self.rgba@)
    }
}

impl Bitmap {
    /// A bitmap holds exactly the pixels of its size.
    #[verifier::type_invariant]
    spec fn inv(&self) -> bool {
        rgba_fits(self.width, self.height, self.rgba@.len())
    }

    /// A bitmap of the given size over these pixels, where they are exactly enough.
    pub fn from_rgba(width: u32, height: u32, rgba: Vec<u8>) -> (r: Option<Bitmap>)
        ensures
            r is Some <==> rgba_fits(width, height, rgba@.len()),
            r matches Some(b) ==> b@ == (width, height, rgba@),
    {
        proof {
            vstd::arithmetic::mul::lemma_mul_upper_bound(width as int, u32::MAX as int, height as int, u32::MAX as int);
            assert(4 * (width as nat) * (height as nat) == 4 * ((width as nat) * (height as nat))) by (nonlinear_arith);
        }
        let area: u64 = width as u64 * height as u64;
        if rgba.len() % 4 == 0 && (rgba.len() / 4) as u64 == area {
            Some(Bitmap { width, height, rgba })
        } else {
            None
        }
    }

    pub fn width(&self) -> (r: u32)
        ensures
            r == self@.0,
    {
        self.width
    }

    pub fn height(&self) -> (r: u32)
        ensures
            r == self@.1,
    {
        self.height
    }

    pub fn rgba(&self) -> (r: &Vec<u8>)
        ensures
            r@ == self@.2,
            rgba_fits(self@.0, self@.1, r@.len()),
    {
        proof {
            use_type_invariant(self);
        }
        &self.rgba
    }
}

/// The cover that a fetch answered with this status and body stands for: a
/// successful answer that decodes as a JPEG gives one of the JPEG's size, and
/// nothing else does.
pub fn cover_from_response(status: u16, body: &[u8]) -> (r: Option<Bitmap>)
    ensures
        r is Some <==> (status == HTTP_OK && jpeg_size(body@) is Some),
        r matches Some(b) ==> jpeg_size(body@) == Some((b@.0, b@.1)),
{
    if status != HTTP_OK {
        return None;
    }
    match decode_jpeg(body) {
        Some((w, h, px)) => Bitmap::from_rgba(w, h, px),
        None => None,
    }
}

} // verus!
