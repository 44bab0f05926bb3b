//! The images of the game, checked once when the display starts.
use tinyqoi::Qoi;
use vstd::prelude::*;
use crate::display::Sprite;

verus! {

/// An image in the QOI format, from the `tinyqoi` crate. Opaque here: it is
/// carried to whoever draws it.
#[verifier::external_type_specification]
#[verifier::external_body]
pub struct ExQoi<'a>(tinyqoi::Qoi<'a>);

/// The encoded pixels that an image holds.
pub uninterp spec fn qoi_pixels(image: tinyqoi::Qoi<'_>) -> Seq<u8>;

/// Width and height of an image.
pub uninterp spec fn qoi_size(image: tinyqoi::Qoi<'_>) -> (int, int);

/// Length of the header of a QOI file.
pub const QOI_HEADER_LEN: usize = 14;

/// Length of the mark at the end of a QOI file.
pub const QOI_END_LEN: usize = 8;

/// Why a file is not an image.
#[derive(Clone, Copy, Debug, PartialEq, Eq, Structural)]
pub enum SpriteError {
    /// It does not start with the letters of the format.
    InvalidMagic,
    /// It is too short, or its end is missing.
    TruncatedFile,
}

/// The file is long enough for a header and an end mark.
pub open spec fn is_long_enough(data: Seq<u8>) -> bool {
    data.len() >= QOI_HEADER_LEN + QOI_END_LEN
}

/// The file starts with the letters `qoif`.
pub open spec fn has_magic(data: Seq<u8>) -> bool {
    data.take(4) == seq![0x71u8, 0x6fu8, 0x69u8, 0x66u8]
}

/// The file ends with the mark that closes the pixels.
pub open spec fn has_end_mark(data: Seq<u8>) -> bool {
    data.skip(data.len() - QOI_END_LEN) == seq![0u8, 0u8, 0u8, 0u8, 0u8, 0u8, 0u8, 1u8]
}

/// What is wrong with a file, if anything is.
pub open spec fn sprite_error(data: Seq<u8>) -> Option<SpriteError> {
    if !is_long_enough(data) {
        Some(SpriteError::TruncatedFile)
    } else if !has_magic(data) {
        Some(SpriteError::InvalidMagic)
    } else if !has_end_mark(data) {
        Some(SpriteError::TruncatedFile)
    } else {
        None
    }
}

/// The big-endian number in four bytes of a file.
pub open spec fn number_at(data: Seq<u8>, at: int) -> int {
    0x100_0000 * data[at] + 0x1_0000 * data[at + 1] + 0x100 * data[at + 2] + data[at + 3]
}

/// The image holds the bytes between header and end mark of a file, and has the
/// width and height that its header gives.
pub open spec fn is_image_of(image: Qoi<'_>, data: Seq<u8>) -> bool {
    &&& qoi_pixels(image) == data.subrange(QOI_HEADER_LEN as int, data.len() - QOI_END_LEN)
    &&& qoi_size(image) == (number_at(data, 4), number_at(data, 8))
}

/// Calls `tinyqoi::Qoi::new`. It looks at the length of `data`, the letters at
/// its start and the mark at its end, and refuses what `sprite_error` describes.
/// Otherwise it keeps the bytes between header and end mark as the encoded
/// pixels, and takes width and height from the header, big-endian.
#[verifier::external_body]
fn parse_qoi<'a>(data: &'a [u8]) -> (image: Result<Qoi<'a>, SpriteError>)
    ensures
        match image {
            Ok(image) => {
                &&& sprite_error(data@) is None
                &&& qoi_pixels(image) == data@.subrange(
                    QOI_HEADER_LEN as int,
                    data@.len() - QOI_END_LEN,
                )
                &&& qoi_size(image) == (number_at(data@, 4), number_at(data@, 8))
            },
            Err(error) => sprite_error(data@) == Some(error),
        },
{
    match Qoi::new(data) {
        Ok(image) => Ok(image),
        Err(tinyqoi::Error::InvalidMagic) => Err(SpriteError::InvalidMagic),
        Err(tinyqoi::Error::TruncatedFile) => Err(SpriteError::TruncatedFile),
    }
}

/// The files of the six images.
#[derive(Clone, Copy)]
pub struct SpriteFiles<'a> {
    pub sad: &'a [u8],
    pub angry: &'a [u8],
    pub neutral: &'a [u8],
    pub sign: &'a [u8],
    pub sky_seal: &'a [u8],
    pub sky: &'a [u8],
}

impl<'a> SpriteFiles<'a> {
    /// The file of an image.
    pub open spec fn file(self, sprite: Sprite) -> Seq<u8> {
        match sprite {
            Sprite::SoupSad => self.sad@,
            Sprite::SoupAngry => self.angry@,
            Sprite::SoupNeutral => self.neutral@,
            Sprite::SoupSign => self.sign@,
            Sprite::SkySeal => self.sky_seal@,
            Sprite::Sky => self.sky@,
        }
    }

    /// Nothing is wrong with the file of an image.
    pub open spec fn is_good(self, sprite: Sprite) -> bool {
        sprite_error(self.file(sprite)) is None
    }
}

/// Where an image comes in the order in which the files are read.
pub open spec fn load_order(sprite: Sprite) -> int {
    match sprite {
        Sprite::SoupSad => 0,
        Sprite::SoupAngry => 1,
        Sprite::SoupNeutral => 2,
        Sprite::SoupSign => 3,
        Sprite::SkySeal => 4,
        Sprite::Sky => 5,
    }
}

/// The six images, ready to draw.
pub struct SpriteSheet<'a> {
    pub sad: Qoi<'a>,
    pub angry: Qoi<'a>,
    pub neutral: Qoi<'a>,
    pub sign: Qoi<'a>,
    pub sky_seal: Qoi<'a>,
    pub sky: Qoi<'a>,
}

impl<'a> SpriteSheet<'a> {
    /// The image of a name.
    pub open spec fn image(self, sprite: Sprite) -> Qoi<'a> {
        match sprite {
            Sprite::SoupSad => self.sad,
            Sprite::SoupAngry => self.angry,
            Sprite::SoupNeutral => self.neutral,
            Sprite::SoupSign => self.sign,
            Sprite::SkySeal => self.sky_seal,
            Sprite::Sky => self.sky,
        }
    }

    /// Reads the six files. Where one is no image, the first such one is named.
    pub fn load(files: SpriteFiles<'a>) -> (sheet: Result<SpriteSheet<'a>, (Sprite, SpriteError)>)
        ensures
            match sheet {
                Ok(sheet) => forall|sprite: Sprite|
                    {
                        &&& #[trigger] files.is_good(sprite)
                        &&& is_image_of(sheet.image(sprite), files.file(sprite))
                    },
                Err((sprite, error)) => {
                    &&& sprite_error(files.file(sprite)) == Some(error)
                    &&& forall|earlier: Sprite|
                        load_order(earlier) < load_order(sprite) ==> #[trigger] files.is_good(
                            earlier,
                        )
                },
            },
    {
        let sad = match parse_qoi(files.sad) {
            Ok(image) => image,
            Err(error) => {
                return Err((Sprite::SoupSad, error));
            },
        };
        let angry = match parse_qoi(files.angry) {
            Ok(image) => image,
            Err(error) => {
                return Err((Sprite::SoupAngry, error));
            },
        };
        let neutral = match parse_qoi(files.neutral) {
            Ok(image) => image,
            Err(error) => {
                return Err((Sprite::SoupNeutral, error));
            },
        };
        let sign = match parse_qoi(files.sign) {
            Ok(image) => image,
            Err(error) => {
                return Err((Sprite::SoupSign, error));
            },
        };
        let sky_seal = match parse_qoi(files.sky_seal) {
            Ok(image) => image,
            Err(error) => {
                return Err((Sprite::SkySeal, error));
            },
        };
        let sky = match parse_qoi(files.sky) {
            Ok(image) => image,
            Err(error) => {
                return Err((Sprite::Sky, error));
            },
        };
        Ok(SpriteSheet { sad, angry, neutral, sign, sky_seal, sky })
    }

    /// The image to draw for a name.
    pub fn get(&self, sprite: Sprite) -> (image: &Qoi<'a>)
        ensures
            *image == self.image(sprite),
    {
        match sprite {
            Sprite::SoupSad => &self.sad,
            Sprite::SoupAngry => &self.angry,
            Sprite::SoupNeutral => &self.neutral,
            Sprite::SoupSign => &self.sign,
            Sprite::SkySeal => &self.sky_seal,
            Sprite::Sky => &self.sky,
        }
    }
}

/// A file is refused exactly if it is shorter than a header and an end mark, does
/// not start with `qoif`, or does not end with seven zeros and a one. The letters
/// are looked at before the end, and after the length.
pub proof fn law_what_is_wrong_with_a_file(data: Seq<u8>)
    ensures
        ({
            let n = data.len();
            let letters = n >= 22 && data[0] == 0x71 && data[1] == 0x6f && data[2] == 0x69
                && data[3] == 0x66;
            let end = n >= 22 && data[n - 1] == 1 && forall|i: int|
                n - 8 <= i < n - 1 ==> #[trigger] data[i] == 0;
            &&& n < 22 ==> sprite_error(data) == Some(SpriteError::TruncatedFile)
            &&& n >= 22 && !letters ==> sprite_error(data) == Some(SpriteError::InvalidMagic)
            &&& letters && !end ==> sprite_error(data) == Some(SpriteError::TruncatedFile)
            &&& letters && end ==> sprite_error(data) is None
        }),
{
    let n = data.len();
    if n >= 22 {
        let start = data.take(4);
        let magic = seq![0x71u8, 0x6fu8, 0x69u8, 0x66u8];
        assert(start[0] == data[0] && start[1] == data[1] && start[2] == data[2] && start[3]
            == data[3]);
        if data[0] == 0x71 && data[1] == 0x6f && data[2] == 0x69 && data[3] == 0x66 {
            assert(start =~= magic);
        } else {
            assert(magic[0] == 0x71 && magic[1] == 0x6f && magic[2] == 0x69 && magic[3] == 0x66);
        }
        let tail = data.skip(n - 8);
        let mark = seq![0u8, 0u8, 0u8, 0u8, 0u8, 0u8, 0u8, 1u8];
        assert forall|i: int| 0 <= i < 8 implies #[trigger] tail[i] == data[n - 8 + i] by {}
        if data[n - 1] == 1 && forall|i: int| n - 8 <= i < n - 1 ==> #[trigger] data[i] == 0 {
            assert(tail =~= mark);
        } else if tail == mark {
            assert forall|i: int| n - 8 <= i < n - 1 implies #[trigger] data[i] == 0 by {
                assert(tail[i - (n - 8)] == mark[i - (n - 8)]);
            }
            assert(tail[7] == mark[7]);
        }
    }
}

/// The file is long enough, and the image holds the bytes from its fifteenth up to
/// its last eight and has the size that its bytes five to twelve spell.
pub open spec fn shows_file(image: Qoi<'_>, data: Seq<u8>) -> bool {
    &&& data.len() >= 22
    &&& qoi_pixels(image).len() == data.len() - 22
    &&& forall|i: int|
        0 <= i < data.len() - 22 ==> #[trigger] qoi_pixels(image)[i] == data[14 + i]
    &&& qoi_size(image).0 == ((data[4] * 256 + data[5]) * 256 + data[6]) * 256 + data[7]
    &&& qoi_size(image).1 == ((data[8] * 256 + data[9]) * 256 + data[10]) * 256 + data[11]
}

/// Every image of a loaded sheet comes from its own file: it holds the bytes
/// between header and end mark, and has the width and height in the header.
pub proof fn law_each_image_is_its_own_file(files: SpriteFiles<'_>, sheet: SpriteSheet<'_>)
    requires
        forall|sprite: Sprite|
            {
                &&& #[trigger] files.is_good(sprite)
                &&& is_image_of(sheet.image(sprite), files.file(sprite))
            },
    ensures
        shows_file(sheet.sad, files.sad@),
        shows_file(sheet.angry, files.angry@),
        shows_file(sheet.neutral, files.neutral@),
        shows_file(sheet.sign, files.sign@),
        shows_file(sheet.sky_seal, files.sky_seal@),
        shows_file(sheet.sky, files.sky@),
        sheet.image(Sprite::SoupSad) == sheet.sad,
        sheet.image(Sprite::SoupAngry) == sheet.angry,
        sheet.image(Sprite::SoupNeutral) == sheet.neutral,
        sheet.image(Sprite::SoupSign) == sheet.sign,
        sheet.image(Sprite::SkySeal) == sheet.sky_seal,
        sheet.image(Sprite::Sky) == sheet.sky,
{
    assert(files.is_good(Sprite::SoupSad));
    assert(files.is_good(Sprite::SoupAngry));
    assert(files.is_good(Sprite::SoupNeutral));
    assert(files.is_good(Sprite::SoupSign));
    assert(files.is_good(Sprite::SkySeal));
    assert(files.is_good(Sprite::Sky));
}

/// The file that is refused is the first bad one in the order sad, angry, neutral,
/// sign, sky with seal, sky.
pub proof fn law_the_first_bad_file_is_named(
    files: SpriteFiles<'_>,
    named: Sprite,
    error: SpriteError,
)
    requires
        sprite_error(files.file(named)) == Some(error),
        forall|earlier: Sprite|
            load_order(earlier) < load_order(named) ==> #[trigger] files.is_good(earlier),
    ensures
        if sprite_error(files.sad@) is Some {
            named == Sprite::SoupSad && sprite_error(files.sad@) == Some(error)
        } else if sprite_error(files.angry@) is Some {
            named == Sprite::SoupAngry && sprite_error(files.angry@) == Some(error)
        } else if sprite_error(files.neutral@) is Some {
            named == Sprite::SoupNeutral && sprite_error(files.neutral@) == Some(error)
        } else if sprite_error(files.sign@) is Some {
            named == Sprite::SoupSign && sprite_error(files.sign@) == Some(error)
        } else if sprite_error(files.sky_seal@) is Some {
            named == Sprite::SkySeal && sprite_error(files.sky_seal@) == Some(error)
        } else {
            named == Sprite::Sky && sprite_error(files.sky@) == Some(error)
        },
{
    assert(load_order(Sprite::SoupSad) < load_order(named) ==> files.is_good(Sprite::SoupSad));
    assert(load_order(Sprite::SoupAngry) < load_order(named) ==> files.is_good(Sprite::SoupAngry));
    assert(load_order(Sprite::SoupNeutral) < load_order(named) ==> files.is_good(
        Sprite::SoupNeutral,
    ));
    assert(load_order(Sprite::SoupSign) < load_order(named) ==> files.is_good(Sprite::SoupSign));
    assert(load_order(Sprite::SkySeal) < load_order(named) ==> files.is_good(Sprite::SkySeal));
}

} // verus!
