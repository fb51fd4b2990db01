use tpng::{ColorType, Image, TpngError};

fn encode_png(width: u32, height: u32, color: png::ColorType, depth: png::BitDepth, data: &[u8]) -> Vec<u8> {
    let mut out = Vec::new();
    {
        let mut encoder = png::Encoder::new(&mut out, width, height);
        encoder.set_color(color);
        encoder.set_depth(depth);
        let mut writer = encoder.write_header().unwrap();
        writer.write_image_data(data).unwrap();
    }
    out
}

#[test]
fn new_decodes_rgb_pixels() {
    let bytes = encode_png(
        2,
        1,
        png::ColorType::Rgb,
        png::BitDepth::Eight,
        &[255, 0, 0, 0, 0, 255],
    );
    let img = Image::new(&bytes).unwrap();
    assert_eq!(img.width(), 2);
    assert_eq!(img.height(), 1);
    assert_eq!(img.get_pixel(0, 0).unwrap(), (255, 0, 0, 255));
    assert_eq!(img.get_pixel(1, 0).unwrap(), (0, 0, 255, 255));
}

#[test]
fn new_decodes_rgba_and_renders_like_a_synthetic_raster() {
    let raster = vec![1, 2, 3, 4, 5, 6, 7, 8];
    let bytes = encode_png(1, 2, png::ColorType::Rgba, png::BitDepth::Eight, &raster);
    let decoded = Image::new(&bytes).unwrap();
    let synthetic = Image::from_raster(raster, 1, 2, ColorType::Rgba).unwrap();
    assert_eq!(
        decoded.as_string().unwrap(),
        synthetic.as_string().unwrap()
    );
}

#[test]
fn new_rejects_invalid_bytes() {
    assert!(matches!(Image::new(b"not a png"), Err(TpngError::Decode)));
    assert!(matches!(Image::new(&[]), Err(TpngError::Decode)));
}

#[test]
fn new_rejects_truncated_stream() {
    let bytes = encode_png(2, 2, png::ColorType::Rgb, png::BitDepth::Eight, &[0; 12]);
    assert!(matches!(Image::new(&bytes[..bytes.len() / 2]), Err(TpngError::Decode)));
}

#[test]
fn new_rejects_indexed_png() {
    let mut out = Vec::new();
    {
        let mut encoder = png::Encoder::new(&mut out, 1, 1);
        encoder.set_color(png::ColorType::Indexed);
        encoder.set_depth(png::BitDepth::Eight);
        encoder.set_palette(vec![255u8, 0, 0]);
        let mut writer = encoder.write_header().unwrap();
        writer.write_image_data(&[0]).unwrap();
    }
    assert!(matches!(Image::new(&out), Err(TpngError::UnsupportedLayout)));
}

#[test]
fn new_rejects_sixteen_bit_depth() {
    // A 16-bit raster decodes to two bytes per channel, which is not the
    // one-byte-per-channel raster this library addresses.
    let bytes = encode_png(1, 1, png::ColorType::Rgb, png::BitDepth::Sixteen, &[0; 6]);
    assert!(matches!(Image::new(&bytes), Err(TpngError::Decode)));
}

#[test]
fn new_decodes_grayscale_alpha() {
    let bytes = encode_png(
        1,
        1,
        png::ColorType::GrayscaleAlpha,
        png::BitDepth::Eight,
        &[40, 200],
    );
    let img = Image::new(&bytes).unwrap();
    assert_eq!(img.get_pixel(0, 0).unwrap(), (40, 40, 40, 200));
}
