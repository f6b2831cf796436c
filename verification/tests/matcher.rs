use std::io::Cursor;

use e7::matcher::{clip_span, decode_screencap, default_column, ScreencapError, SCREEN_H, SCREEN_W};

#[test]
fn column_and_screen() {
    assert_eq!(default_column(), 806..998);
    assert_eq!((SCREEN_W, SCREEN_H), (1920, 1080));
    assert_eq!(clip_span(280..540, 300), 280..300);
    assert_eq!(clip_span(280..540, 100), 100..100);
    assert_eq!(clip_span(0..1080, 1080), 0..1080);
}

#[test]
fn empty_screencap_is_refused() {
    assert!(matches!(decode_screencap(&[]), Err(ScreencapError::Empty)));
    assert!(matches!(
        decode_screencap(b"not an image"),
        Err(ScreencapError::Decode(_))
    ));
}

#[test]
fn png_screencap_is_decoded() {
    let mut img = image::RgbImage::new(2, 1);
    img.put_pixel(0, 0, image::Rgb([1, 2, 3]));
    img.put_pixel(1, 0, image::Rgb([250, 251, 252]));
    let mut png = Vec::new();
    image::DynamicImage::ImageRgb8(img)
        .write_to(&mut Cursor::new(&mut png), image::ImageFormat::Png)
        .unwrap();
    let f = decode_screencap(&png).unwrap();
    assert_eq!((f.width, f.height), (2, 1));
    assert_eq!(f.rgb, vec![1, 2, 3, 250, 251, 252]);
}
