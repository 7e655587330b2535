use vstd::prelude::*;

verus! {

/// Width and height of a 2D texture in texels.
#[derive(Clone, Copy, Debug, PartialEq, Eq, Structural)]
pub struct Extent {
    pub width: u32,
    pub height: u32,
}

/// `v`, raised to at least 1.
pub open spec fn at_least_one(v: u32) -> u32 {
    if v >= 1 {
        v
    } else {
        1
    }
}

/// Size of the depth target for a surface of `width` x `height`: the same
/// size, with each side raised to at least one texel, since a texture cannot
/// be empty.
pub fn depth_extent(width: u32, height: u32) -> (r: Extent)
    ensures
        r.width == at_least_one(width),
        r.height == at_least_one(height),
{
    Extent { width: if width >= 1 { width } else { 1 }, height: if height >= 1 { height } else { 1 } }
}

/// Why an encoded image cannot become a texture.
#[derive(Clone, Copy, Debug, PartialEq, Eq, Structural)]
pub enum TextureError {
    /// The bytes are not a PNG image that can be decoded.
    Decode,
    /// A row of the image holds more bytes than a `u32` counts.
    TooWide,
}

/// An RGBA8 image laid out for a staged write into a 2D texture: `pixels`
/// holds `rows_per_image` rows of `bytes_per_row` bytes.
#[derive(Debug)]
pub struct TextureUpload {
    pub width: u32,
    pub height: u32,
    pub bytes_per_row: u32,
    pub rows_per_image: u32,
    pub pixels: Vec<u8>,
}

impl TextureUpload {
    /// `self` lays out the RGBA8 image of `width` x `height` with samples
    /// `pixels`: four bytes per texel in each row, one row per texel row.
    pub open spec fn lays_out(self, width: u32, height: u32, pixels: Seq<u8>) -> bool {
        &&& self.width == width
        &&& self.height == height
        &&& self.bytes_per_row == 4 * width
        &&& self.rows_per_image == height
        &&& self.pixels@ == pixels
    }
}

#[verifier::external_type_specification]
#[verifier::external_body]
pub struct ExImageError(image::ImageError);

/// Width, height and RGBA8 samples of the PNG image that `bytes` encode, or
/// `None` where they encode none that can be decoded.
pub uninterp spec fn decoded_png(bytes: Seq<u8>) -> Option<(u32, u32, Seq<u8>)>;

/// Relies on `image::ImageReader::with_format(.., ImageFormat::Png)` and
/// `decode`, which decode the bytes as a PNG, and on
/// `DynamicImage::to_rgba8`, which converts the result to 8-bit RGBA. The
/// format is named rather than guessed: a built-in format bypasses the
/// process-wide format-detection and decoding hooks, so the outcome depends
/// on the bytes alone.
#[verifier::external_body]
fn decode_rgba8(bytes: &[u8]) -> (r: Result<(u32, u32, Vec<u8>), image::ImageError>)
    ensures
        match r {
            Ok((w, h, p)) => decoded_png(bytes@) == Some((w, h, p@)),
            Err(_) => decoded_png(bytes@) is None,
        },
{
    let reader = image::ImageReader::with_format(std::io::Cursor::new(bytes), image::ImageFormat::Png);
    match reader.decode() {
        Ok(img) => {
            let rgba = img.to_rgba8();
            Ok((rgba.width(), rgba.height(), rgba.into_raw()))
        },
        Err(e) => Err(e),
    }
}

/// The upload layout of a decoded RGBA8 image of `width` x `height`: rows of
/// four bytes per texel, `height` rows. Fails when a row's byte count does
/// not fit a `u32`.
pub fn texture_upload(width: u32, height: u32, pixels: Vec<u8>) -> (r: Result<
    TextureUpload,
    TextureError,
>)
    ensures
        4 * width > u32::MAX ==> r == Err::<TextureUpload, TextureError>(TextureError::TooWide),
        4 * width <= u32::MAX ==> (r matches Ok(u) && u.lays_out(width, height, pixels@)),
{
    if width > u32::MAX / 4 {
        Err(TextureError::TooWide)
    } else {
        Ok(TextureUpload { width, height, bytes_per_row: 4 * width, rows_per_image: height, pixels })
    }
}

/// Decodes `bytes` as a PNG image and lays it out for upload as an sRGB RGBA8
/// texture.
pub fn decode_texture(bytes: &[u8]) -> (r: Result<TextureUpload, TextureError>)
    ensures
        decoded_png(bytes@) is None ==> r == Err::<TextureUpload, TextureError>(
            TextureError::Decode,
        ),
        decoded_png(bytes@) matches Some((w, h, p)) ==> {
            &&& 4 * w > u32::MAX ==> r == Err::<TextureUpload, TextureError>(TextureError::TooWide)
            &&& 4 * w <= u32::MAX ==> (r matches Ok(u) && u.lays_out(w, h, p))
        },
{
    match decode_rgba8(bytes) {
        Ok((width, height, pixels)) => texture_upload(width, height, pixels),
        Err(_) => Err(TextureError::Decode),
    }
}

} // verus!
