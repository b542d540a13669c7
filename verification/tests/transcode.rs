use image::{ColorType, ImageEncoder, ImageFormat};
use still_streamer::transcode::{buffer_fits, reencode, TranscodeError};

/// Four RGBA pixels, two by two.
const RGBA: [u8; 16] = [
    255, 0, 0, 255, 0, 255, 0, 128, //
    0, 0, 255, 0, 10, 20, 30, 40,
];

/// The same four pixels without their alpha.
const RGB: [u8; 12] = [255, 0, 0, 0, 255, 0, 0, 0, 255, 10, 20, 30];

fn png_rgba() -> Vec<u8> {
    let mut file = Vec::new();
    image::codecs::png::PngEncoder::new(&mut file)
        .write_image(&RGBA, 2, 2, ColorType::Rgba8)
        .unwrap();
    file
}

fn bmp_rgb() -> Vec<u8> {
    let mut file = std::io::Cursor::new(Vec::new());
    image::RgbImage::from_raw(2, 2, RGB.to_vec())
        .unwrap()
        .write_to(&mut file, ImageFormat::Bmp)
        .unwrap();
    file.into_inner()
}

fn pixels_of(png: &[u8]) -> (u32, u32, ColorType, Vec<u8>) {
    let picture = image::load_from_memory_with_format(png, ImageFormat::Png).unwrap();
    (picture.width(), picture.height(), picture.color(), picture.into_bytes())
}

#[test]
fn buffer_fits_three_bytes_a_pixel() {
    assert!(buffer_fits(12, 2, 2));
    assert!(buffer_fits(0, 0, 0));
    assert!(buffer_fits(0, 0, 7));
    assert!(buffer_fits(3840 * 2160 * 3, 3840, 2160));
    assert!(!buffer_fits(11, 2, 2));
    assert!(!buffer_fits(13, 2, 2));
    assert!(!buffer_fits(16, 2, 2));
    assert!(!buffer_fits(0, 1, 1));
    assert!(!buffer_fits(usize::MAX, u32::MAX, u32::MAX));
}

#[test]
fn pixels_are_written_out_as_png() {
    let png = reencode(&RGB.to_vec(), 2, 2).unwrap();
    assert_eq!(&png[..8], b"\x89PNG\r\n\x1a\n");
    assert_ne!(png, RGB.to_vec());
    assert_eq!(pixels_of(&png), (2, 2, ColorType::Rgb8, RGB.to_vec()));
}

#[test]
fn pixels_are_laid_out_by_the_configured_size() {
    let png = reencode(&RGB.to_vec(), 4, 1).unwrap();
    assert_eq!(pixels_of(&png), (4, 1, ColorType::Rgb8, RGB.to_vec()));
    let png = reencode(&RGB.to_vec(), 1, 4).unwrap();
    assert_eq!(pixels_of(&png), (1, 4, ColorType::Rgb8, RGB.to_vec()));
}

#[test]
fn pixels_that_do_not_fill_the_size_are_refused() {
    assert_eq!(reencode(&RGB.to_vec(), 2, 3), Err(TranscodeError::WrongSize));
    assert_eq!(reencode(&RGB.to_vec(), 3, 2), Err(TranscodeError::WrongSize));
    assert_eq!(reencode(&RGB.to_vec(), 0, 0), Err(TranscodeError::WrongSize));
    assert_eq!(reencode(&RGBA.to_vec(), 2, 2), Err(TranscodeError::WrongSize));
    assert_eq!(reencode(&vec![], 1, 1), Err(TranscodeError::WrongSize));
}

#[test]
fn image_without_area_is_refused_by_the_encoder() {
    assert_eq!(reencode(&vec![], 0, 0), Err(TranscodeError::Unencodable));
    assert_eq!(reencode(&vec![], 0, 5), Err(TranscodeError::Unencodable));
    assert_eq!(reencode(&vec![], 5, 0), Err(TranscodeError::Unencodable));
}

fn rgb8_of(file: &[u8], format: ImageFormat) -> Vec<u8> {
    image::load_from_memory_with_format(file, format)
        .unwrap()
        .into_rgb8()
        .into_raw()
}

#[test]
fn png_with_alpha_comes_out_as_rgb() {
    let source = png_rgba();
    let png = reencode(&rgb8_of(&source, ImageFormat::Png), 2, 2).unwrap();
    assert_ne!(png, source);
    assert_eq!(pixels_of(&png), (2, 2, ColorType::Rgb8, RGB.to_vec()));
}

#[test]
fn bitmap_comes_out_as_png() {
    let source = bmp_rgb();
    let png = reencode(&rgb8_of(&source, ImageFormat::Bmp), 2, 2).unwrap();
    assert_eq!(&png[..8], b"\x89PNG\r\n\x1a\n");
    assert_eq!(pixels_of(&png), (2, 2, ColorType::Rgb8, RGB.to_vec()));
    assert_eq!(png, reencode(&RGB.to_vec(), 2, 2).unwrap());
}

#[test]
fn decoded_image_of_another_size_is_refused() {
    let pixels = rgb8_of(&png_rgba(), ImageFormat::Png);
    assert_eq!(reencode(&pixels, 3840, 2160), Err(TranscodeError::WrongSize));
    assert_eq!(reencode(&pixels, 2, 1), Err(TranscodeError::WrongSize));
    assert!(reencode(&pixels, 1, 4).is_ok());
}

#[test]
fn every_png_written_begins_with_the_signature() {
    for (width, height) in [(1u32, 1u32), (1, 4), (4, 1), (2, 2), (3, 5), (64, 64)] {
        let pixels = vec![0x5a; (width * height * 3) as usize];
        let png = reencode(&pixels, width, height).unwrap();
        assert_eq!(&png[..8], &[137, 80, 78, 71, 13, 10, 26, 10]);
        assert_eq!(pixels_of(&png), (width, height, ColorType::Rgb8, pixels));
    }
}
