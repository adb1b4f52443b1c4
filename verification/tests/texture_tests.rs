use computer_mark_up::color::Color;
use computer_mark_up::texture::{TextureData, TextureError, TextureType};

#[test]
fn color_bytes_are_the_four_channels() {
    let c = Color::new(10, 20, 30, 40);
    assert_eq!(c.as_bytes(), vec![10, 20, 30, 40]);
}

#[test]
fn match_buffer_appends_two_bytes_of_padding() {
    let c = Color::new(1, 2, 3, 4);
    assert_eq!(c.match_buffer(), vec![1, 2, 3, 4, 0, 0]);
}

#[test]
fn color_texture_is_a_single_texel() {
    let t = Color::new(9, 8, 7, 6).as_texture();
    assert_eq!(t.width, 1);
    assert_eq!(t.height, 1);
    assert_eq!(t.rgba, vec![9, 8, 7, 6]);
}

#[test]
fn from_rgba_keeps_dimensions_and_pixels() {
    let t = TextureData::from_rgba(2, 2, vec![0; 16]);
    assert_eq!(t.width, 2);
    assert_eq!(t.height, 2);
    assert_eq!(t.rgba.len(), 16);
}

#[test]
fn decoding_a_png_round_trips_dimensions_and_pixels() {
    let mut img = image::RgbaImage::new(2, 1);
    img.put_pixel(0, 0, image::Rgba([10, 20, 30, 255]));
    img.put_pixel(1, 0, image::Rgba([40, 50, 60, 255]));
    let mut bytes: Vec<u8> = Vec::new();
    img.write_to(&mut std::io::Cursor::new(&mut bytes), image::ImageOutputFormat::Png)
        .unwrap();

    let t = TextureData::new(&bytes).unwrap();
    assert_eq!(t.width, 2);
    assert_eq!(t.height, 1);
    assert_eq!(t.rgba, vec![10, 20, 30, 255, 40, 50, 60, 255]);
}

#[test]
fn texture_type_resolves_colors_and_pixel_data() {
    let from_color = TextureType::Color(Color::new(1, 2, 3, 4)).resolve();
    assert_eq!((from_color.width, from_color.height), (1, 1));
    assert_eq!(from_color.rgba, vec![1, 2, 3, 4]);
    let data = TextureData::from_rgba(1, 2, vec![7; 8]);
    let through = TextureType::Texture(data).resolve();
    assert_eq!((through.width, through.height), (1, 2));
    assert_eq!(through.rgba, vec![7; 8]);
}

#[test]
fn undecodable_bytes_give_a_decode_error() {
    let r = TextureData::new(&[1, 2, 3, 4, 5]);
    assert_eq!(r.unwrap_err(), TextureError::DecodeFailed);
}
