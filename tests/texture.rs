use std::io::Cursor;
use tree_scene::texture::{decode_texture, texture_upload, TextureError};

fn png_bytes(width: u32, height: u32) -> Vec<u8> {
    let mut img = image::RgbaImage::new(width, height);
    for (x, y, p) in img.enumerate_pixels_mut() {
        *p = image::Rgba([x as u8, y as u8, 7, 255]);
    }
    let mut out = Cursor::new(Vec::new());
    img.write_to(&mut out, image::ImageFormat::Png).unwrap();
    out.into_inner()
}

#[test]
fn png_decodes_to_rgba_rows() {
    let u = decode_texture(&png_bytes(3, 2)).unwrap();
    assert_eq!((u.width, u.height), (3, 2));
    assert_eq!(u.bytes_per_row, 12);
    assert_eq!(u.rows_per_image, 2);
    assert_eq!(u.pixels.len(), 24);
    assert_eq!(&u.pixels[0..4], &[0, 0, 7, 255]);
    assert_eq!(&u.pixels[20..24], &[2, 1, 7, 255]);
}

#[test]
fn garbage_bytes_fail_to_decode() {
    assert_eq!(decode_texture(&[1, 2, 3, 4]).unwrap_err(), TextureError::Decode);
    assert_eq!(decode_texture(&[]).unwrap_err(), TextureError::Decode);
}

#[test]
fn upload_rows_are_four_bytes_per_texel() {
    let u = texture_upload(256, 3, vec![0; 3072]).unwrap();
    assert_eq!(u.bytes_per_row, 1024);
    assert_eq!(u.rows_per_image, 3);
    assert_eq!(u.pixels.len(), 3072);
}

#[test]
fn upload_of_empty_image() {
    let u = texture_upload(0, 0, vec![]).unwrap();
    assert_eq!(u.bytes_per_row, 0);
}

#[test]
fn upload_too_wide_is_refused() {
    assert_eq!(texture_upload(u32::MAX / 4 + 1, 1, vec![]).unwrap_err(), TextureError::TooWide);
    assert!(texture_upload(u32::MAX / 4, 0, vec![]).is_ok());
}
