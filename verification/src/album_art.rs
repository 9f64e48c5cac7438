//! Album art: decoding the image bytes that MPD sends into RGBA pixels.

use vstd::prelude::*;

verus! {

/// A decoded picture: its width and height in pixels and its pixels as
/// RGBA bytes, row by row.
#[derive(Debug, Clone)]
pub struct AlbumArt {
    pub width: u32,
    pub height: u32,
    pub rgba: Vec<u8>,
}

pub struct AlbumArtView {
    pub width: u32,
    pub height: u32,
    pub rgba: Seq<u8>,
}

impl View for AlbumArt {
    type V = AlbumArtView;

    open spec fn view(&self) -> AlbumArtView {
        AlbumArtView { width: self.width, height: self.height, rgba: self.rgba@ }
    }
}

impl AlbumArtView {
    /// The pixel buffer holds exactly the four bytes of every pixel.
    pub open spec fn covers_all_pixels(self) -> bool {
        self.rgba.len() == 4 * (self.width as int) * (self.height as int)
    }
}

pub open spec fn opt_art_view(a: Option<AlbumArt>) -> Option<AlbumArtView> {
    match a {
        Some(art) => Some(art@),
        None => None,
    }
}

/// The picture that the `image` crate decodes from `bytes` (guessing the
/// format from the bytes themselves) and converts to 8-bit RGBA; `None`
/// where it cannot decode them.
pub uninterp spec fn decoded_rgba(bytes: Seq<u8>) -> Option<AlbumArtView>;

/// Calls `image::load_from_memory` on `bytes` and converts the picture with
/// `DynamicImage::to_rgba8`, handing out its width, height and raw buffer
/// (`ImageBuffer::width`, `height`, `into_raw`). The contract claims that the
/// result is what those functions give for these bytes, named
/// `decoded_rgba`, and that the raw buffer holds exactly four bytes per
/// pixel: decoding fills a buffer of the decoder's `total_bytes`, which is
/// width times height times the bytes of a pixel, and the conversion to RGBA
/// makes one RGBA pixel of each pixel.
#[verifier::external_body]
fn decode_rgba(bytes: &[u8]) -> (r: Option<AlbumArt>)
    ensures
        opt_art_view(r) == decoded_rgba(bytes@),
        r matches Some(a) ==> a@.covers_all_pixels(),
{
    match image::load_from_memory(bytes) {
        Ok(img) => {
            let rgba = img.to_rgba8();
            Some(AlbumArt { width: rgba.width(), height: rgba.height(), rgba: rgba.into_raw() })
        },
        Err(_) => None,
    }
}

/// The album art in `bytes`: none for no bytes, otherwise what the image
/// decoder makes of them.
pub fn decode_album_art(bytes: Vec<u8>) -> (r: Option<AlbumArt>)
    ensures
        bytes@.len() == 0 ==> r is None,
        bytes@.len() > 0 ==> opt_art_view(r) == decoded_rgba(bytes@),
        r matches Some(a) ==> a@.covers_all_pixels(),
{
    if bytes.len() == 0 {
        return None;
    }
    decode_rgba(bytes.as_slice())
}

} // verus!
