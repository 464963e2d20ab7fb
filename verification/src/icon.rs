//! The tray's icon.

use vstd::prelude::*;

use crate::pixels::Shot;

verus! {

/// What `image::load_from_memory_with_format` and `DynamicImage::to_rgba8` make
/// of the bytes of a PNG file: the picture's size and its RGBA bytes, or
/// nothing if the bytes are no such file.
pub uninterp spec fn decoded(bytes: Seq<u8>) -> Option<(u32, u32, Seq<u8>)>;

/// Decodes a PNG file with `image::load_from_memory_with_format` and turns it
/// into RGBA with `DynamicImage::to_rgba8`. With the format given, neither
/// looks at anything but the bytes: the decoders that a program may register
/// with the crate are asked only where the format is guessed or foreign. So
/// the same bytes give the same picture, or no picture, and a picture has four
/// bytes for each of its pixels.
#[verifier::external_body]
fn load_rgba(bytes: &[u8]) -> (shot: Option<Shot>)
    ensures
        match shot {
            Some(s) => decoded(bytes@) == Some((s.width, s.height, s.rgba@)) && s.rgba@.len() == 4 * (
            s.width * s.height),
            None => decoded(bytes@) == None::<(u32, u32, Seq<u8>)>,
        },
{
    match image::load_from_memory_with_format(bytes, image::ImageFormat::Png) {
        Ok(img) => {
            let rgba = img.to_rgba8();
            let (width, height) = rgba.dimensions();
            Some(Shot { width, height, rgba: rgba.into_raw() })
        },
        Err(_) => None,
    }
}

/// The icon cannot be shown.
#[derive(Clone, Copy, Debug, PartialEq, Eq, Structural)]
pub enum IconError {
    /// The bytes are no picture.
    Undecodable,
    /// The picture's bytes do not have four for each pixel.
    WrongSize,
}

/// A picture as an icon: it needs four bytes for each of its pixels.
pub fn icon_of(decoded: Option<Shot>) -> (icon: Result<Shot, IconError>)
    ensures
        match decoded {
            None => icon == Err::<Shot, IconError>(IconError::Undecodable),
            Some(s) => icon == (if s.rgba@.len() == 4 * (s.width * s.height) {
                Ok(s)
            } else {
                Err(IconError::WrongSize)
            }),
        },
{
    match decoded {
        None => Err(IconError::Undecodable),
        Some(s) => {
            assert(0 <= s.width * s.height <= 0xffff_ffff * 0xffff_ffff) by (nonlinear_arith)
                requires
                    0 <= s.width <= 0xffff_ffff,
                    0 <= s.height <= 0xffff_ffff,
            ;
            let pixels: u128 = s.width as u128 * s.height as u128;
            if s.rgba.len() as u128 == 4 * pixels {
                Ok(s)
            } else {
                Err(IconError::WrongSize)
            }
        },
    }
}

/// The tray's icon from the bytes of its PNG file.
pub fn load_tray_icon(bytes: &[u8]) -> (icon: Result<Shot, IconError>)
    ensures
        match decoded(bytes@) {
            None => icon == Err::<Shot, IconError>(IconError::Undecodable),
            Some((w, h, rgba)) => icon matches Ok(s) && s.width == w && s.height == h && s.rgba@
                == rgba && rgba.len() == 4 * (w * h),
        },
{
    icon_of(load_rgba(bytes))
}

} // verus!
