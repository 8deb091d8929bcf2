//! The window icon: the manifest's `.ico` file decoded to RGBA pixels for the
//! X11 window.

use vstd::prelude::*;

verus! {

/// The image an `.ico` file decodes to (the `image` crate picks the best
/// entry): its width, height and RGBA pixels, four bytes each, row by row;
/// `None` when the bytes do not decode.
pub uninterp spec fn ico_rgba8(bytes: Seq<u8>) -> Option<(u32, u32, Seq<u8>)>;

/// `image::load_from_memory_with_format(bytes, Ico)` converted to RGBA
/// (`into_rgba8`, then its width, height and raw pixels), as named by
/// [`ico_rgba8`]; on failure the decoder's message.
#[verifier::external_body]
fn decode_ico(bytes: &[u8]) -> (r: Result<(u32, u32, Vec<u8>), String>)
    ensures
        match r {
            Ok((w, h, px)) => ico_rgba8(bytes@) == Some((w, h, px@)),
            Err(_) => ico_rgba8(bytes@) is None,
        },
{
    match image::load_from_memory_with_format(bytes, image::ImageFormat::Ico) {
        Ok(img) => {
            let rgba = img.into_rgba8();
            Ok((rgba.width(), rgba.height(), rgba.into_raw()))
        },
        Err(e) => Err(e.to_string()),
    }
}

/// A decoded window icon.
#[derive(Debug)]
pub struct WindowIcon {
    pub width: u32,
    pub height: u32,
    /// RGBA pixels, four bytes each, row by row.
    pub rgba: Vec<u8>,
}

/// Decode the bytes of the manifest's `.ico` icon (see [`ico_rgba8`]); on
/// failure the decoder's message.
pub fn decode_window_icon(bytes: &[u8]) -> (r: Result<WindowIcon, String>)
    ensures
        match r {
            Ok(icon) => ico_rgba8(bytes@) == Some((icon.width, icon.height, icon.rgba@)),
            Err(_) => ico_rgba8(bytes@) is None,
        },
{
    match decode_ico(bytes) {
        Ok((width, height, rgba)) => Ok(WindowIcon { width, height, rgba }),
        Err(e) => Err(e),
    }
}

} // verus!
