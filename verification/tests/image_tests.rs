use peregrine::png_image::{load_png, rgba_pixels, PixelLayout};

fn encode(width: u32, height: u32, color: png::ColorType, data: &[u8]) -> Vec<u8> {
    let mut out = Vec::new();
    {
        let mut enc = png::Encoder::new(&mut out, width, height);
        enc.set_color(color);
        enc.set_depth(png::BitDepth::Eight);
        let mut writer = enc.write_header().unwrap();
        writer.write_image_data(data).unwrap();
    }
    out
}

#[test]
fn rgb_png_loads_as_opaque_pixels() {
    let bytes = encode(2, 1, png::ColorType::Rgb, &[255, 0, 0, 0, 0, 255]);
    let img = load_png(&bytes).unwrap();
    assert_eq!((img.width, img.height), (2, 1));
    assert_eq!(img.pixels, vec![(255, 0, 0, 255), (0, 0, 255, 255)]);
}

#[test]
fn rgba_and_grey_png_keep_alpha() {
    let bytes = encode(1, 2, png::ColorType::Rgba, &[1, 2, 3, 4, 5, 6, 7, 8]);
    let img = load_png(&bytes).unwrap();
    assert_eq!(img.pixels, vec![(1, 2, 3, 4), (5, 6, 7, 8)]);
    let bytes = encode(2, 1, png::ColorType::GrayscaleAlpha, &[9, 100, 10, 200]);
    let img = load_png(&bytes).unwrap();
    assert_eq!(img.pixels, vec![(9, 9, 9, 100), (10, 10, 10, 200)]);
}

#[test]
fn garbage_does_not_decode() {
    assert!(load_png(b"not a png").is_none());
    assert!(load_png(&[]).is_none());
}

#[test]
fn layouts_spread_samples() {
    assert_eq!(rgba_pixels(PixelLayout::Grayscale, &[7, 8]), vec![(7, 7, 7, 255), (8, 8, 8, 255)]);
    assert_eq!(rgba_pixels(PixelLayout::Indexed, &[1, 2, 3, 4]), vec![(1, 2, 3, 255)]);
    assert_eq!(rgba_pixels(PixelLayout::Rgba, &[1, 2, 3]), vec![]);
}
