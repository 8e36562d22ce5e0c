//! The icon of the controller window and of the tray, decoded from an
//! encoded picture into the plain bytes that both take.

use vstd::prelude::*;

verus! {

/// Bytes per pixel of a decoded icon: red, green, blue and alpha.
pub const BYTES_PER_PIXEL: u32 = 4;

/// A decoded picture: its pixels row by row, four bytes each, and its
/// width and height in pixels.
#[derive(Debug, PartialEq, Eq)]
pub struct IconImage {
    pub rgba: Vec<u8>,
    pub width: u32,
    pub height: u32,
}

/// True when the bytes are exactly the pixels of a picture of the given
/// width and height.
pub open spec fn fills_picture(rgba: Seq<u8>, width: u32, height: u32) -> bool {
    rgba.len() == BYTES_PER_PIXEL * width * height
}

/// The icon that a decoded picture makes: the picture itself when its bytes
/// are exactly its pixels, and nothing otherwise.
pub open spec fn icon_of(decoded: Option<(Seq<u8>, u32, u32)>) -> Option<(Seq<u8>, u32, u32)> {
    match decoded {
        Some((rgba, width, height)) => if fills_picture(rgba, width, height) {
            decoded
        } else {
            None
        },
        None => None,
    }
}

/// The view of an optional icon.
pub open spec fn optional_icon(icon: Option<IconImage>) -> Option<(Seq<u8>, u32, u32)> {
    match icon {
        Some(image) => Some((image.rgba@, image.width, image.height)),
        None => None,
    }
}

/// The view of an optional decoded picture.
pub open spec fn optional_picture(decoded: Option<(Vec<u8>, u32, u32)>) -> Option<
    (Seq<u8>, u32, u32),
> {
    match decoded {
        Some((rgba, width, height)) => Some((rgba@, width, height)),
        None => None,
    }
}

/// Decodes a picture with `image::load_from_memory`, which guesses the
/// format from the bytes, turns it into 8-bit RGBA with
/// `DynamicImage::into_rgba8`, and takes it apart with
/// `ImageBuffer::dimensions` and `ImageBuffer::into_raw`. A picture that
/// cannot be decoded gives nothing. Nothing is claimed of the outcome: the
/// decoder consults format hooks that any code of the process may register,
/// so even the same bytes need not decode alike twice.
#[verifier::external_body]
fn decode_rgba8(encoded: &[u8]) -> (decoded: Option<(Vec<u8>, u32, u32)>) {
    match image::load_from_memory(encoded) {
        Ok(picture) => {
            let picture = picture.into_rgba8();
            let (width, height) = picture.dimensions();
            Some((picture.into_raw(), width, height))
        },
        Err(_) => None,
    }
}

/// Makes an icon of a decoded picture, if its bytes are exactly its
/// pixels: four for each pixel of its width times its height.
pub fn icon_from_decoded(decoded: Option<(Vec<u8>, u32, u32)>) -> (icon: Option<IconImage>)
    ensures
        optional_icon(icon) == icon_of(optional_picture(decoded)),
        icon matches Some(image) ==> fills_picture(image.rgba@, image.width, image.height),
{
    match decoded {
        Some((rgba, width, height)) => {
            assert(width * height <= 0xffff_ffff * 0xffff_ffff) by (nonlinear_arith)
                requires
                    width <= 0xffff_ffff,
                    height <= 0xffff_ffff,
            ;
            let pixels: u64 = (width as u64) * (height as u64);
            let wanted: u128 = (BYTES_PER_PIXEL as u128) * (pixels as u128);
            assert(wanted == BYTES_PER_PIXEL * width * height) by (nonlinear_arith)
                requires
                    wanted == BYTES_PER_PIXEL * pixels,
                    pixels == width * height,
            ;
            if rgba.len() as u128 == wanted {
                Some(IconImage { rgba, width, height })
            } else {
                None
            }
        },
        None => None,
    }
}

/// Decodes the icon from an encoded picture. Returns the icon when the
/// picture can be decoded and its bytes are exactly its pixels, and nothing
/// otherwise. What the decoder makes of the bytes is its own affair; of an
/// icon that comes back it holds that its bytes are exactly its pixels.
pub fn load_icon_rgba(encoded: &[u8]) -> (icon: Option<IconImage>)
    ensures
        icon matches Some(image) ==> fills_picture(image.rgba@, image.width, image.height),
{
    icon_from_decoded(decode_rgba8(encoded))
}

} // verus!
