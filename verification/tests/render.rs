use tpng::{ColorType, Image, TpngError};

fn glyph(fg: (u8, u8, u8), bg: (u8, u8, u8)) -> String {
    format!(
        "\u{1b}[48;2;{};{};{};38;2;{};{};{}m\u{2580}\u{1b}[0m",
        bg.0, bg.1, bg.2, fg.0, fg.1, fg.2
    )
}

fn image(data: Vec<u8>, width: u32, height: u32, color_type: ColorType) -> Image {
    Image::from_raster(data, width, height, color_type).unwrap()
}

#[test]
fn getters_report_dimensions() {
    let img = image(vec![0; 6 * 4 * 3], 6, 4, ColorType::Rgb);
    assert_eq!(img.width(), 6);
    assert_eq!(img.height(), 4);
}

#[test]
fn get_pixel_rgba_reads_all_channels() {
    let img = image(vec![1, 2, 3, 4, 5, 6, 7, 8], 2, 1, ColorType::Rgba);
    assert_eq!(img.get_pixel(0, 0).unwrap(), (1, 2, 3, 4));
    assert_eq!(img.get_pixel(1, 0).unwrap(), (5, 6, 7, 8));
}

#[test]
fn get_pixel_rgb_is_fully_opaque() {
    let img = image(vec![10, 20, 30, 40, 50, 60], 1, 2, ColorType::Rgb);
    assert_eq!(img.get_pixel(0, 0).unwrap(), (10, 20, 30, 255));
    assert_eq!(img.get_pixel(0, 1).unwrap(), (40, 50, 60, 255));
}

#[test]
fn get_pixel_grayscale_repeats_luminance_and_is_opaque() {
    let img = image(vec![9, 200], 2, 1, ColorType::Grayscale);
    assert_eq!(img.get_pixel(0, 0).unwrap(), (9, 9, 9, 255));
    assert_eq!(img.get_pixel(1, 0).unwrap(), (200, 200, 200, 255));
}

#[test]
fn get_pixel_grayscale_alpha_reads_alpha() {
    let img = image(vec![7, 128, 250, 0], 1, 2, ColorType::GrayscaleAlpha);
    assert_eq!(img.get_pixel(0, 0).unwrap(), (7, 7, 7, 128));
    assert_eq!(img.get_pixel(0, 1).unwrap(), (250, 250, 250, 0));
}

#[test]
fn get_pixel_at_width_is_out_of_range() {
    let img = image(vec![0; 3 * 2 * 3], 3, 2, ColorType::Rgb);
    assert_eq!(
        img.get_pixel(3, 0),
        Err(TpngError::CoordinateOutOfRange {
            x: 3,
            y: 0,
            width: 3,
            height: 2
        })
    );
}

#[test]
fn get_pixel_at_height_is_out_of_range() {
    let img = image(vec![0; 3 * 2 * 3], 3, 2, ColorType::Rgb);
    assert_eq!(
        img.get_pixel(1, 2),
        Err(TpngError::CoordinateOutOfRange {
            x: 1,
            y: 2,
            width: 3,
            height: 2
        })
    );
}

#[test]
fn get_pixel_far_out_of_range_fails() {
    let img = image(vec![0; 4], 1, 1, ColorType::Rgba);
    assert_eq!(
        img.get_pixel(1000, 1000),
        Err(TpngError::CoordinateOutOfRange {
            x: 1000,
            y: 1000,
            width: 1,
            height: 1
        })
    );
}

#[test]
fn get_pixel_on_indexed_raster_fails_unsupported() {
    let img = Image {
        data: vec![0, 1, 2],
        color_type: ColorType::Indexed,
        width: 3,
        height: 1,
    };
    assert_eq!(img.get_pixel(0, 0), Err(TpngError::UnsupportedLayout));
    assert_eq!(img.get_pixel(2, 0), Err(TpngError::UnsupportedLayout));
}

#[test]
fn get_pixel_bounds_precede_indexed_failure() {
    let img = Image {
        data: vec![0],
        color_type: ColorType::Indexed,
        width: 1,
        height: 1,
    };
    assert_eq!(
        img.get_pixel(1, 0),
        Err(TpngError::CoordinateOutOfRange {
            x: 1,
            y: 0,
            width: 1,
            height: 1
        })
    );
}

#[test]
fn from_raster_rejects_indexed_layout() {
    assert!(matches!(Image::from_raster(vec![0], 1, 1, ColorType::Indexed), Err(TpngError::UnsupportedLayout)));
    assert!(matches!(Image::from_raster(vec![], 0, 0, ColorType::Indexed), Err(TpngError::UnsupportedLayout)));
}

#[test]
fn from_raster_rejects_wrong_buffer_length() {
    assert!(matches!(
        Image::from_raster(vec![0; 5], 2, 1, ColorType::Rgb),
        Err(TpngError::Decode)
    ));
    assert!(matches!(
        Image::from_raster(vec![0; 7], 2, 1, ColorType::Rgb),
        Err(TpngError::Decode)
    ));
}

#[test]
fn one_red_pixel_renders_on_black_padding() {
    let img = image(vec![255, 0, 0], 1, 1, ColorType::Rgb);
    let text = img.as_string().unwrap();
    assert_eq!(text, glyph((255, 0, 0), (0, 0, 0)));
}

#[test]
fn two_by_two_rgba_renders_one_line_of_two_glyphs() {
    let img = image(
        vec![
            255, 0, 0, 255, // top left: red
            0, 255, 0, 255, // top right: green
            0, 0, 255, 255, // bottom left: blue
            255, 255, 0, 255, // bottom right: yellow
        ],
        2,
        2,
        ColorType::Rgba,
    );
    let text = img.as_string().unwrap();
    let expected = format!(
        "{}{}",
        glyph((255, 0, 0), (0, 0, 255)),
        glyph((0, 255, 0), (255, 255, 0))
    );
    assert_eq!(text, expected);
    assert_eq!(text.lines().count(), 1);
    assert_eq!(text.chars().filter(|c| *c == '\u{2580}').count(), 2);
}

#[test]
fn rendering_twice_yields_identical_text() {
    let img = image(vec![3, 1, 4, 1, 5, 9, 2, 6], 2, 4, ColorType::Grayscale);
    let first = img.as_string().unwrap();
    let second = img.as_string().unwrap();
    assert_eq!(first, second);
}

#[test]
fn line_and_cell_counts_match_dimensions() {
    // 3 wide, 5 high: ceil(5 / 2) = 3 lines of 3 cells each.
    let img = image((0u8..45).collect(), 3, 5, ColorType::Rgb);
    let text = img.as_string().unwrap();
    assert!(!text.ends_with('\n'));
    assert_eq!(text.lines().count(), 3);
    for line in text.lines() {
        assert_eq!(line.chars().filter(|c| *c == '\u{2580}').count(), 3);
    }
}

#[test]
fn zero_height_renders_empty() {
    let img = image(vec![], 7, 0, ColorType::Rgba);
    assert_eq!(img.as_string().unwrap(), "");
}

#[test]
fn zero_width_renders_empty() {
    let img = image(vec![], 0, 6, ColorType::Rgb);
    assert_eq!(img.as_string().unwrap(), "");
}

#[test]
fn odd_height_pads_last_line_with_black() {
    let img = image(vec![11, 22, 33], 1, 3, ColorType::Grayscale);
    let text = img.as_string().unwrap();
    let expected = format!(
        "{}\n{}",
        glyph((11, 11, 11), (22, 22, 22)),
        glyph((33, 33, 33), (0, 0, 0))
    );
    assert_eq!(text, expected);
}

#[test]
fn decimal_components_render_unpadded() {
    // 7 exercises one digit, 45 two, 255 three in one escape sequence.
    let img = image(vec![7, 45, 255], 1, 1, ColorType::Rgb);
    let text = img.as_string().unwrap();
    assert_eq!(text, "\u{1b}[48;2;0;0;0;38;2;7;45;255m\u{2580}\u{1b}[0m");
}

#[test]
fn check_well_formed_tracks_invariant() {
    let good = image(vec![0; 12], 2, 2, ColorType::Rgb);
    assert!(good.check_well_formed());
}
