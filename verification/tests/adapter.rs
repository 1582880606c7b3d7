#![allow(deprecated)]

use load_image::export::rgb::{GrayAlpha, Rgb, Rgba};
use load_image::ImageData;
use pngquant::adapt::{adapt_image, adapted_pixel, convert_row, DecodedImage, Pixel};

fn px(r: u8, g: u8, b: u8, a: u8) -> Pixel {
    Pixel { r, g, b, a }
}

#[test]
fn gray_alpha16_rows_adapt_high_bytes() {
    let pixels = vec![
        GrayAlpha(0x1234u16, 0xABCDu16),
        GrayAlpha(0x00FFu16, 0xFF00u16),
        GrayAlpha(0xFFFFu16, 0x0000u16),
        GrayAlpha(0x8001u16, 0x7FFEu16),
    ];
    let img = DecodedImage { width: 2, height: 2, bitmap: ImageData::GRAYA16(pixels) };
    let row0 = convert_row(&img, 0);
    let row1 = convert_row(&img, 1);
    assert_eq!(row0, vec![px(0x12, 0x12, 0x12, 0xAB), px(0x00, 0x00, 0x00, 0xFF)]);
    assert_eq!(row1, vec![px(0xFF, 0xFF, 0xFF, 0x00), px(0x80, 0x80, 0x80, 0x7F)]);
}

#[test]
fn rgb8_becomes_opaque() {
    let pixels = vec![Rgb { r: 1u8, g: 2, b: 3 }, Rgb { r: 250, g: 251, b: 252 }];
    let img = DecodedImage { width: 2, height: 1, bitmap: ImageData::RGB8(pixels) };
    assert_eq!(adapt_image(&img), vec![px(1, 2, 3, 255), px(250, 251, 252, 255)]);
}

#[test]
fn rgba16_keeps_high_bytes_of_every_channel() {
    let pixels = vec![Rgba { r: 0x1122u16, g: 0x3344, b: 0x5566, a: 0x7788 }];
    let img = DecodedImage { width: 1, height: 1, bitmap: ImageData::RGBA16(pixels) };
    assert_eq!(adapt_image(&img), vec![px(0x11, 0x33, 0x55, 0x77)]);
}

#[test]
fn gray8_replicates_and_is_opaque() {
    let pixels = vec![
        load_image::export::rgb::Gray(7u8),
        load_image::export::rgb::Gray(200u8),
    ];
    let bitmap = ImageData::GRAY8(pixels);
    assert_eq!(adapted_pixel(&bitmap, 0), px(7, 7, 7, 255));
    assert_eq!(adapted_pixel(&bitmap, 1), px(200, 200, 200, 255));
}

#[test]
fn rgba8_passes_through() {
    let pixels = vec![Rgba { r: 9u8, g: 8, b: 7, a: 6 }];
    let img = DecodedImage { width: 1, height: 1, bitmap: ImageData::RGBA8(pixels) };
    assert_eq!(adapt_image(&img), vec![px(9, 8, 7, 6)]);
}
