use vstd::prelude::*;

verus! {

/// A decoded raster image: 8-bit RGBA pixels, row by row, four bytes each.
#[derive(Debug)]
pub struct Bitmap {
    pub width: u32,
    pub height: u32,
    pub pixels: Vec<u8>,
}

impl View for Bitmap {
    type V = (u32, u32, Seq<u8>);

    open spec fn view(&self) -> (u32, u32, Seq<u8>) {
        (self.width, self.height, self.pixels@)
    }
}

impl Bitmap {
    /// The pixel buffer holds exactly four bytes per pixel.
    pub open spec fn wf(&self) -> bool {
        self.pixels@.len() == 4 * (self.width as int) * (self.height as int)
    }

    /// A pixel-for-pixel copy.
    pub fn copy(&self) -> (r: Bitmap)
        ensures
            r@ == self@,
    {
        let mut pixels: Vec<u8> = Vec::with_capacity(self.pixels.len());
        let mut i: usize = 0;
        while i < self.pixels.len()
            invariant
                i <= self.pixels@.len(),
                pixels@ == self.pixels@.subrange(0, i as int),
            decreases self.pixels@.len() - i,
        {
            pixels.push(self.pixels[i]);
            i = i + 1;
        }
        assert(pixels@ == self.pixels@);
        Bitmap { width: self.width, height: self.height, pixels }
    }
}

/// The failure of an image codec.
#[verifier::external_type_specification]
#[verifier::external_body]
pub struct ExImageError(image::ImageError);

/// Why bytes could not be taken as an image.
#[derive(Debug, Clone, Copy, PartialEq, Eq, Structural)]
pub enum LoadError {
    /// The bytes are not an image in a format that the decoder knows.
    Decode,
}

/// Why a bitmap could not be written out.
#[derive(Debug, Clone, Copy, PartialEq, Eq, Structural)]
pub enum EncodeError {
    /// The pixel buffer does not hold four bytes per pixel.
    Malformed,
    /// The image has no pixels: its width or its height is zero.
    Encode,
}

/// What decoding `bytes` as an image gives: its width, height and RGBA
/// pixels, or nothing where the bytes are no image the decoder knows.
pub uninterp spec fn decoded_rgba(bytes: Seq<u8>) -> Option<(u32, u32, Seq<u8>)>;

/// The PNG file that encodes an RGBA image of the given size.
pub uninterp spec fn png_file(width: u32, height: u32, pixels: Seq<u8>) -> Seq<u8>;

/// Relies on `image::load_from_memory`, which guesses the format from the
/// bytes and decodes them, and on `DynamicImage::to_rgba8`, whose buffer is
/// freshly allocated with four bytes for each pixel.
#[verifier::external_body]
fn decode_rgba(bytes: &[u8]) -> (r: Result<Bitmap, image::ImageError>)
    ensures
        match r {
            Ok(b) => decoded_rgba(bytes@) == Some(b@) && b.wf(),
            Err(_) => decoded_rgba(bytes@) is None,
        },
{
    image::load_from_memory(bytes).map(|img| {
        let rgba = img.to_rgba8();
        Bitmap { width: rgba.width(), height: rgba.height(), pixels: rgba.into_raw() }
    })
}

/// Relies on `image::codecs::png::PngEncoder::write_image` for RGBA8 data,
/// which asserts that the buffer holds four bytes per pixel. Writing into a
/// `Vec` cannot fail, and for 8-bit RGBA the `png` encoder refuses only a
/// zero width or height.
#[verifier::external_body]
fn encode_png(b: &Bitmap) -> (r: Result<Vec<u8>, image::ImageError>)
    requires
        b.wf(),
    ensures
        r is Ok <==> (b.width > 0 && b.height > 0),
        r is Ok ==> r->Ok_0@ == png_file(b.width, b.height, b.pixels@),
{
    let mut out: Vec<u8> = Vec::new();
    let encoder = image::codecs::png::PngEncoder::new(&mut out);
    image::ImageEncoder::write_image(encoder, &b.pixels, b.width, b.height, image::ColorType::Rgba8)
        .map(|()| out)
}

/// Decodes an encoded image (PNG, JPEG and the other formats the decoder
/// knows) into RGBA pixels.
pub fn decode_image(bytes: &[u8]) -> (r: Result<Bitmap, LoadError>)
    ensures
        match r {
            Ok(b) => decoded_rgba(bytes@) == Some(b@) && b.wf(),
            Err(e) => decoded_rgba(bytes@) is None && e == LoadError::Decode,
        },
{
    match decode_rgba(bytes) {
        Ok(b) => Ok(b),
        Err(_) => Err(LoadError::Decode),
    }
}

/// Encodes a bitmap as a PNG file. A buffer of the wrong length is refused
/// before the encoder sees it, and an image without pixels (zero width or
/// height) has no PNG form.
pub fn encode_image(b: &Bitmap) -> (r: Result<Vec<u8>, EncodeError>)
    ensures
        !b.wf() <==> r == Err::<Vec<u8>, EncodeError>(EncodeError::Malformed),
        b.wf() && (b.width == 0 || b.height == 0) <==> r == Err::<Vec<u8>, EncodeError>(
            EncodeError::Encode,
        ),
        b.wf() && b.width > 0 && b.height > 0 ==> r is Ok && r->Ok_0@ == png_file(
            b.width,
            b.height,
            b.pixels@,
        ),
{
    let w: u128 = b.width as u128;
    let h: u128 = b.height as u128;
    assert(w * h <= 0xffff_ffffu128 * 0xffff_ffffu128) by (nonlinear_arith)
        requires
            w <= 0xffff_ffffu128,
            h <= 0xffff_ffffu128,
    ;
    let expected: u128 = 4 * (w * h);
    assert(expected as int == 4 * (b.width as int) * (b.height as int)) by (nonlinear_arith)
        requires
            expected as int == 4 * (w as int * h as int),
            w as int == b.width as int,
            h as int == b.height as int,
    ;
    if b.pixels.len() as u128 != expected {
        return Err(EncodeError::Malformed);
    }
    match encode_png(b) {
        Ok(bytes) => Ok(bytes),
        Err(_) => Err(EncodeError::Encode),
    }
}

} // verus!
