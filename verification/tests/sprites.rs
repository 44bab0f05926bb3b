use embedded_graphics::geometry::{OriginDimensions, Size};
use embedded_graphics::pixelcolor::{Rgb888, RgbColor};
use soup_game::display::Sprite;
use soup_game::sprites::{SpriteError, SpriteFiles, SpriteSheet};

/// A file with an image of `width` by one pixels of one colour.
fn qoi(width: u8, color: [u8; 3]) -> Vec<u8> {
    let mut file = Vec::new();
    file.extend_from_slice(b"qoif");
    file.extend_from_slice(&[0, 0, 0, width, 0, 0, 0, 1, 3, 0]);
    for _ in 0..width {
        file.push(0xfe);
        file.extend_from_slice(&color);
    }
    file.extend_from_slice(&[0, 0, 0, 0, 0, 0, 0, 1]);
    file
}

fn files<'a>(all: &'a [Vec<u8>]) -> SpriteFiles<'a> {
    SpriteFiles {
        sad: &all[0],
        angry: &all[1],
        neutral: &all[2],
        sign: &all[3],
        sky_seal: &all[4],
        sky: &all[5],
    }
}

fn good_files() -> Vec<Vec<u8>> {
    (1..=6).map(|width| qoi(width, [10 * width, 0, 255])).collect()
}

#[test]
fn every_sprite_is_its_own_file() {
    let all = good_files();
    let sheet = match SpriteSheet::load(files(&all)) {
        Ok(sheet) => sheet,
        Err((sprite, error)) => panic!("{sprite:?}: {error:?}"),
    };
    let order = [
        Sprite::SoupSad,
        Sprite::SoupAngry,
        Sprite::SoupNeutral,
        Sprite::SoupSign,
        Sprite::SkySeal,
        Sprite::Sky,
    ];
    for (i, sprite) in order.into_iter().enumerate() {
        let image = sheet.get(sprite);
        let width = i as u32 + 1;
        assert_eq!(image.size(), Size::new(width, 1));
        let pixels: Vec<Rgb888> = image.pixels().collect();
        assert_eq!(pixels.len(), width as usize);
        assert!(pixels.iter().all(|pixel| pixel.r() == 10 * width as u8 && pixel.b() == 255));
    }
}

#[test]
fn a_short_file_is_refused() {
    let mut all = good_files();
    all[2].truncate(21);
    let refused = SpriteSheet::load(files(&all)).err();
    assert_eq!(refused, Some((Sprite::SoupNeutral, SpriteError::TruncatedFile)));
}

#[test]
fn other_letters_are_refused() {
    let mut all = good_files();
    all[5][3] = b'g';
    let refused = SpriteSheet::load(files(&all)).err();
    assert_eq!(refused, Some((Sprite::Sky, SpriteError::InvalidMagic)));
}

#[test]
fn a_missing_end_is_refused() {
    let mut all = good_files();
    all[4].pop();
    let refused = SpriteSheet::load(files(&all)).err();
    assert_eq!(refused, Some((Sprite::SkySeal, SpriteError::TruncatedFile)));
}

#[test]
fn the_first_bad_file_is_named() {
    let mut all = good_files();
    all[1].clear();
    all[3][0] = 0;
    let refused = SpriteSheet::load(files(&all)).err();
    assert_eq!(refused, Some((Sprite::SoupAngry, SpriteError::TruncatedFile)));
}

#[test]
fn an_image_without_pixels_is_an_image() {
    let mut all = good_files();
    all[0] = qoi(0, [0, 0, 0]);
    assert!(SpriteSheet::load(files(&all)).is_ok());
}
