use wink_demo::texture::{load_texture, texture_from_rgba, TextureError};

fn png_of(width: u32, height: u32, rgba: Vec<u8>) -> Vec<u8> {
    let img = image::RgbaImage::from_raw(width, height, rgba).unwrap();
    let mut out = std::io::Cursor::new(Vec::new());
    img.write_to(&mut out, image::ImageOutputFormat::Png).unwrap();
    out.into_inner()
}

#[test]
fn rows_come_out_bottom_first() {
    let px: Vec<u8> = (0u8..24).collect();
    let t = texture_from_rgba(2, 3, px).unwrap();
    assert_eq!(t.width, 2);
    assert_eq!(t.height, 3);
    let mut expected: Vec<u8> = (16u8..24).collect();
    expected.extend(8u8..16);
    expected.extend(0u8..8);
    assert_eq!(t.rgba, expected);
}

#[test]
fn empty_image_is_refused() {
    assert_eq!(texture_from_rgba(0, 5, Vec::new()).unwrap_err(), TextureError::Empty);
    assert_eq!(texture_from_rgba(5, 0, Vec::new()).unwrap_err(), TextureError::Empty);
}

#[test]
fn png_is_decoded_and_flipped() {
    let px: Vec<u8> = vec![1, 2, 3, 255, 4, 5, 6, 255, 7, 8, 9, 128, 10, 11, 12, 0];
    let t = load_texture(&png_of(1, 4, px)).unwrap();
    assert_eq!((t.width, t.height), (1, 4));
    assert_eq!(t.rgba, vec![10, 11, 12, 0, 7, 8, 9, 128, 4, 5, 6, 255, 1, 2, 3, 255]);
}

#[test]
fn garbage_is_not_a_png() {
    assert_eq!(load_texture(&vec![1, 2, 3, 4]).unwrap_err(), TextureError::Decode);
    assert_eq!(load_texture(&Vec::new()).unwrap_err(), TextureError::Decode);
}
