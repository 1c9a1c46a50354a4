use model_viewer::texture::{get_image_data, Texture};

fn png(width: u32, height: u32, pixels: Vec<u8>) -> Vec<u8> {
    let picture = image::RgbaImage::from_raw(width, height, pixels).unwrap();
    let mut out = std::io::Cursor::new(Vec::new());
    picture.write_to(&mut out, image::ImageFormat::Png).unwrap();
    out.into_inner()
}

#[test]
fn decoded_image_is_upside_down() {
    // two columns, three rows
    let pixels: Vec<u8> = (0u8..24).collect();
    let texture = get_image_data(&png(2, 3, pixels)).unwrap();
    assert_eq!(texture.width, 2);
    assert_eq!(texture.height, 3);
    assert_eq!(
        texture.pixels,
        vec![
            16, 17, 18, 19, 20, 21, 22, 23, //
            8, 9, 10, 11, 12, 13, 14, 15, //
            0, 1, 2, 3, 4, 5, 6, 7,
        ]
    );
}

#[test]
fn grey_image_becomes_rgba() {
    let picture = image::GrayImage::from_raw(1, 2, vec![10, 200]).unwrap();
    let mut out = std::io::Cursor::new(Vec::new());
    picture.write_to(&mut out, image::ImageFormat::Png).unwrap();
    let texture = get_image_data(&out.into_inner()).unwrap();
    assert_eq!((texture.width, texture.height), (1, 2));
    assert_eq!(texture.pixels, vec![200, 200, 200, 255, 10, 10, 10, 255]);
}

#[test]
fn undecodable_data_gives_nothing() {
    assert!(get_image_data(&[]).is_none());
    assert!(get_image_data(b"not a picture").is_none());
    let mut cut = png(2, 2, vec![7; 16]);
    cut.truncate(20);
    assert!(get_image_data(&cut).is_none());
}

#[test]
fn flip_of_a_single_row_changes_nothing() {
    let texture = Texture::from_rgba8(3, 1, (0u8..12).collect()).unwrap();
    assert_eq!(texture.flip_vertical().pixels, (0u8..12).collect::<Vec<u8>>());
}

#[test]
fn flip_twice_gives_the_picture_back() {
    let pixels: Vec<u8> = (0u8..96).collect();
    let texture = Texture::from_rgba8(4, 6, pixels.clone()).unwrap();
    let once = texture.flip_vertical();
    assert_ne!(once.pixels, pixels);
    assert_eq!(&once.pixels[0..16], &pixels[80..96]);
    let twice = once.flip_vertical();
    assert_eq!(twice.pixels, pixels);
    assert_eq!((twice.width, twice.height), (4, 6));
}

#[test]
fn empty_textures_flip_to_themselves() {
    let no_rows = Texture::from_rgba8(5, 0, vec![]).unwrap().flip_vertical();
    assert_eq!((no_rows.width, no_rows.height), (5, 0));
    assert!(no_rows.pixels.is_empty());
    let no_columns = Texture::from_rgba8(0, 5, vec![]).unwrap().flip_vertical();
    assert_eq!((no_columns.width, no_columns.height), (0, 5));
    assert!(no_columns.pixels.is_empty());
}

#[test]
fn buffer_must_hold_exactly_the_pixels() {
    assert!(Texture::from_rgba8(2, 2, vec![0; 16]).is_some());
    assert!(Texture::from_rgba8(2, 2, vec![0; 15]).is_none());
    assert!(Texture::from_rgba8(2, 2, vec![0; 17]).is_none());
    assert!(Texture::from_rgba8(2, 2, vec![0; 20]).is_none());
    assert!(Texture::from_rgba8(u32::MAX, u32::MAX, vec![0; 4]).is_none());
    assert!(Texture::from_rgba8(0, 0, vec![]).is_some());
}
