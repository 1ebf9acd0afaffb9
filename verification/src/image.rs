//! Rendered images as PNG files.

use vstd::prelude::*;

verus! {

/// Why an image could not be encoded.
#[derive(Clone, Copy, Debug, PartialEq, Eq)]
pub enum ImageError {
    /// The image has no columns or no rows.
    Empty,
    /// A side of the image does not fit in 32 bits, or its bytes cannot be counted.
    TooLarge,
    /// The data is not three bytes for each pixel.
    WrongLength,
    /// The encoder gave up.
    Encoder,
}

impl ImageError {
    /// What went wrong, in words.
    pub open spec fn spec_message(&self) -> Seq<char> {
        match self {
            ImageError::Empty => "the image has no pixels"@,
            ImageError::TooLarge => "the image is too large"@,
            ImageError::WrongLength => "the data is not three bytes for each pixel"@,
            ImageError::Encoder => "the encoder failed"@,
        }
    }

    /// What went wrong, in words.
    pub fn message(&self) -> (r: String)
        ensures
            r@ == self.spec_message(),
    {
        match self {
            ImageError::Empty => "the image has no pixels".to_owned(),
            ImageError::TooLarge => "the image is too large".to_owned(),
            ImageError::WrongLength => "the data is not three bytes for each pixel".to_owned(),
            ImageError::Encoder => "the encoder failed".to_owned(),
        }
    }
}

/// The error of the encoder of the `png` crate. Nothing is read from it.
#[verifier::external_type_specification]
#[verifier::external_body]
pub struct ExEncodingError(png::EncodingError);

/// The PNG file that the encoder of the `png` crate writes for an image of
/// `width` by `height` pixels with eight bits for each of red, green and
/// blue, from the bytes of its pixels, row by row; `None` where the encoder
/// reports an error.
pub uninterp spec fn png_file(width: u32, height: u32, data: Seq<u8>) -> Option<Seq<u8>>;

/// Encodes an image into memory with `png::Encoder`: `Encoder::new` on a
/// vector, `set_color` with RGB, `set_depth` with eight bits, `write_header`
/// and `Writer::write_image_data`. The writer ends the file when it is
/// dropped. What comes back depends on the three arguments alone. The
/// encoder makes a row buffer of `3 * width + 1` bytes and counts
/// `3 * width * height` bytes of data, which `requires` keeps in range.
#[verifier::external_body]
fn encode_rgb(width: u32, height: u32, data: &Vec<u8>) -> (r: Result<Vec<u8>, png::EncodingError>)
    requires
        width > 0,
        height > 0,
        data@.len() == 3 * width * height,
        data@.len() < usize::MAX,
    ensures
        match r {
            Ok(file) => png_file(width, height, data@) == Some(file@),
            Err(_) => png_file(width, height, data@) is None,
        },
{
    let mut file = Vec::new();
    {
        let mut encoder = png::Encoder::new(&mut file, width, height);
        encoder.set_color(png::ColorType::RGB);
        encoder.set_depth(png::BitDepth::Eight);
        let mut writer = encoder.write_header()?;
        writer.write_image_data(data)?;
    }
    Ok(file)
}

/// What stands against encoding an image of `width` by `height` pixels
/// from `length` bytes of data, if anything does.
pub open spec fn refusal(width: usize, height: usize, length: nat) -> Option<ImageError> {
    if width == 0 || height == 0 {
        Some(ImageError::Empty)
    } else if width > u32::MAX || height > u32::MAX || 3 * width * height >= usize::MAX {
        Some(ImageError::TooLarge)
    } else if length != 3 * width * height {
        Some(ImageError::WrongLength)
    } else {
        None
    }
}

/// Checks that an image of `width` by `height` pixels can be encoded from
/// `length` bytes of data: that it has pixels, that its sides fit in 32
/// bits, and that the data is three bytes for each pixel.
pub fn check_image(width: usize, height: usize, length: usize) -> (r: Result<(), ImageError>)
    ensures
        match r {
            Ok(_) => refusal(width, height, length as nat) is None,
            Err(e) => refusal(width, height, length as nat) == Some(e),
        },
{
    if width == 0 || height == 0 {
        return Err(ImageError::Empty);
    }
    if width > u32::MAX as usize || height > u32::MAX as usize {
        return Err(ImageError::TooLarge);
    }
    assert(3 * width * height <= 3 * 0xffff_ffff * 0xffff_ffff) by (nonlinear_arith)
        requires
            width <= 0xffff_ffff,
            height <= 0xffff_ffff,
    ;
    let expected: u128 = 3 * (width as u128) * (height as u128);
    if expected >= usize::MAX as u128 {
        return Err(ImageError::TooLarge);
    }
    if length as u128 != expected {
        return Err(ImageError::WrongLength);
    }
    Ok(())
}

/// What the encoder gave, with its error taken to [`ImageError::Encoder`].
pub fn encoded_or_error(encoded: Result<Vec<u8>, png::EncodingError>) -> (r: Result<
    Vec<u8>,
    ImageError,
>)
    ensures
        encoded matches Ok(file) ==> r == Ok::<Vec<u8>, ImageError>(file),
        encoded is Err ==> r == Err::<Vec<u8>, ImageError>(ImageError::Encoder),
{
    match encoded {
        Ok(file) => Ok(file),
        Err(_) => Err(ImageError::Encoder),
    }
}

/// The bytes of the PNG file for an image of `width` by `height` pixels,
/// from three bytes for each pixel: red, green and blue, the rows from top
/// to bottom and each row from left to right.
///
/// An image without pixels, one with a side beyond 32 bits and data of
/// another length than three bytes for each pixel are refused.
pub fn encode_png(width: usize, height: usize, data: &Vec<u8>) -> (r: Result<Vec<u8>, ImageError>)
    ensures
        match r {
            Ok(file) => refusal(width, height, data@.len()) is None && png_file(
                width as u32,
                height as u32,
                data@,
            ) == Some(file@),
            Err(e) => match refusal(width, height, data@.len()) {
                Some(reason) => e == reason,
                None => e == ImageError::Encoder && png_file(width as u32, height as u32, data@)
                    is None,
            },
        },
{
    match check_image(width, height, data.len()) {
        Ok(_) => encoded_or_error(encode_rgb(width as u32, height as u32, data)),
        Err(e) => Err(e),
    }
}

} // verus!
