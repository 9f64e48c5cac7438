use image::{DynamicImage, RgbaImage};
use music_player::album_art::decode_album_art;
use std::io::Cursor;

fn small_png_bytes() -> Vec<u8> {
    let img = RgbaImage::from_pixel(2, 2, image::Rgba([255, 100, 100, 255]));
    let mut buf = Cursor::new(Vec::new());
    DynamicImage::ImageRgba8(img)
        .write_to(&mut buf, image::ImageFormat::Png)
        .expect("failed to encode test PNG");
    buf.into_inner()
}

#[test]
fn test_decode_album_art_empty_bytes_returns_none() {
    assert!(decode_album_art(vec![]).is_none());
}

#[test]
fn test_decode_album_art_invalid_bytes_returns_none() {
    assert!(decode_album_art(b"not an image".to_vec()).is_none());
}

#[test]
fn test_decode_album_art_valid_png_returns_handle() {
    let bytes = small_png_bytes();
    assert!(decode_album_art(bytes).is_some());
}

#[test]
fn decoded_png_has_its_pixels() {
    let art = decode_album_art(small_png_bytes()).unwrap();
    assert_eq!(art.width, 2);
    assert_eq!(art.height, 2);
    assert_eq!(art.rgba.len(), 16);
    assert_eq!(&art.rgba[0..4], &[255, 100, 100, 255]);
    assert_eq!(art.rgba.len(), 4 * art.width as usize * art.height as usize);
}
