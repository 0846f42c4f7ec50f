//! The thumbnail of one picture: turn, crop, resize.

use crate::crop::{
    crop_plan,
    lemma_plan_matches_ratio,
    lemma_plan_within_source,
    plan,
    CropRectangle,
};
use crate::orientation::{orientation_code, resolve, rotation_for, rotation_of, Rotation, UPRIGHT};
use crate::orientation::exif_orientation_tag;
use crate::picture::{
    buffer_is_exact,
    decode,
    decoded_size,
    encode,
    encoded_file,
    error_text,
    image_height,
    image_width,
    pixel_at,
    resize_lanczos3,
};
use crate::scan::{image_kind, kind_of_name, ImageKind};
use crate::target::ThumbnailSpec;
use image::{DynamicImage, ImageError};
use vstd::prelude::*;

verus! {

/// Why no thumbnail was made of a file.
#[derive(Debug)]
pub enum ThumbError {
    /// The file name does not announce a picture format.
    UnsupportedFormat,
    /// The bytes could not be decoded in the format that the name announces.
    Decode(String),
    /// The picture is too wide to be resized on this machine.
    TooLarge,
    /// The thumbnail could not be encoded.
    Encode(String),
    /// The file could not be read, or the thumbnail could not be written.
    /// Nothing in this crate reports it: it is for the caller that reads and
    /// writes the files.
    Io(String),
}

impl ThumbError {
    /// The description of the error, for a report.
    pub open spec fn text(self) -> Seq<char> {
        match self {
            ThumbError::UnsupportedFormat => "unsupported picture format"@,
            ThumbError::Decode(detail) => "cannot decode: "@ + detail@,
            ThumbError::TooLarge => "picture too large to resize"@,
            ThumbError::Encode(detail) => "cannot encode: "@ + detail@,
            ThumbError::Io(detail) => "cannot read or write: "@ + detail@,
        }
    }

    /// The description of the error, for a report.
    pub fn message(&self) -> (text: String)
        ensures
            text@ == self.text(),
    {
        match self {
            ThumbError::UnsupportedFormat => String::from_str("unsupported picture format"),
            ThumbError::Decode(detail) => String::from_str("cannot decode: ").concat(
                detail.as_str(),
            ),
            ThumbError::TooLarge => String::from_str("picture too large to resize"),
            ThumbError::Encode(detail) => String::from_str("cannot encode: ").concat(
                detail.as_str(),
            ),
            ThumbError::Io(detail) => String::from_str("cannot read or write: ").concat(
                detail.as_str(),
            ),
        }
    }
}

/// What is done to a decoded picture to make its thumbnail.
#[derive(Clone, Copy, Debug, PartialEq, Eq, Structural)]
pub struct ThumbPlan {
    /// The turn applied first.
    pub rotation: Rotation,
    /// The part of the turned picture that is kept.
    pub crop: CropRectangle,
    /// The width to which the kept part is resized.
    pub width: u32,
    /// The height to which the kept part is resized.
    pub height: u32,
}

/// An encoded thumbnail.
#[derive(Debug)]
pub struct Thumbnail {
    /// The format of `bytes`.
    pub kind: ImageKind,
    /// The width in pixels of the picture that was encoded.
    pub width: u32,
    /// The height in pixels of the picture that was encoded.
    pub height: u32,
    /// The encoded file.
    pub bytes: Vec<u8>,
}

/// The size of a picture of `width` by `height` pixels after a turn.
pub open spec fn turned_size(rotation: Rotation, width: u32, height: u32) -> (u32, u32) {
    match rotation {
        Rotation::QuarterTurn => (height, width),
        _ => (width, height),
    }
}

/// The plan for a picture of `width` by `height` pixels with orientation
/// `code` and a target of `target_width` by `target_height`: the turn that
/// the code asks for, the centred crop of the turned picture, and the target
/// size.
pub open spec fn thumb_plan(
    code: u32,
    width: u32,
    height: u32,
    target_width: u32,
    target_height: u32,
) -> ThumbPlan {
    let rotation = rotation_of(code);
    let (turned_width, turned_height) = turned_size(rotation, width, height);
    ThumbPlan {
        rotation,
        crop: crop_plan(turned_width, turned_height, target_width, target_height),
        width: target_width,
        height: target_height,
    }
}

/// Plans the thumbnail of a picture of `width` by `height` pixels.
pub fn plan_thumbnail(code: u32, width: u32, height: u32, spec: &ThumbnailSpec) -> (planned:
    ThumbPlan)
    ensures
        planned == thumb_plan(code, width, height, spec.target_width(), spec.target_height()),
        planned.crop.within(
            turned_size(planned.rotation, width, height).0 as int,
            turned_size(planned.rotation, width, height).1 as int,
        ),
        planned.crop.matches_ratio(spec.target_width() as int, spec.target_height() as int),
{
    let rotation = rotation_for(code);
    let (turned_width, turned_height) = match rotation {
        Rotation::QuarterTurn => (height, width),
        _ => (width, height),
    };
    let target_width: u32 = spec.width();
    let target_height: u32 = spec.height();
    ThumbPlan {
        rotation,
        crop: plan(turned_width, turned_height, target_width, target_height),
        width: target_width,
        height: target_height,
    }
}

/// The point of a picture of `width` by `height` pixels that a turn carries
/// to column `x` and row `y` of the turned picture.
pub open spec fn source_point(rotation: Rotation, width: u32, height: u32, x: int, y: int) -> (
    int,
    int,
) {
    match rotation {
        Rotation::NoTurn => (x, y),
        Rotation::QuarterTurn => (y, height - 1 - x),
        Rotation::HalfTurn => (width - 1 - x, height - 1 - y),
    }
}

/// The pixel of the source that a plan puts in column `i` and row `j` of the
/// part it keeps.
pub open spec fn framed_pixel(img: DynamicImage, planned: ThumbPlan, i: int, j: int) -> Seq<u8> {
    let from = source_point(
        planned.rotation,
        image_width(img),
        image_height(img),
        planned.crop.x_offset + i,
        planned.crop.y_offset + j,
    );
    pixel_at(img, from.0, from.1)
}

/// Applies a turn to a picture.
///
/// The result has the size of the turned picture, and each of its pixels is
/// the pixel of the given picture that the turn carries there. A picture
/// that is not turned is returned as it is.
pub fn turn(img: DynamicImage, rotation: Rotation) -> (out: DynamicImage)
    ensures
        (image_width(out), image_height(out)) == turned_size(
            rotation,
            image_width(img),
            image_height(img),
        ),
        forall|x: int, y: int|
            0 <= x < image_width(out) && 0 <= y < image_height(out) ==> #[trigger] pixel_at(
                out,
                x,
                y,
            ) == pixel_at(
                img,
                source_point(rotation, image_width(img), image_height(img), x, y).0,
                source_point(rotation, image_width(img), image_height(img), x, y).1,
            ),
        rotation == Rotation::NoTurn ==> out == img,
{
    match rotation {
        Rotation::NoTurn => img,
        Rotation::QuarterTurn => {
            let out = img.rotate90();
            assert forall|x: int, y: int|
                0 <= x < image_width(out) && 0 <= y < image_height(out) implies #[trigger] pixel_at(
                out,
                x,
                y,
            ) == pixel_at(img, y, image_height(img) - 1 - x) by {
                let from = pixel_at(img, y, image_height(img) - 1 - x);
            }
            out
        },
        Rotation::HalfTurn => {
            let out = img.rotate180();
            assert forall|x: int, y: int|
                0 <= x < image_width(out) && 0 <= y < image_height(out) implies #[trigger] pixel_at(
                out,
                x,
                y,
            ) == pixel_at(img, image_width(img) - 1 - x, image_height(img) - 1 - y) by {
                let from = pixel_at(img, image_width(img) - 1 - x, image_height(img) - 1 - y);
            }
            out
        },
    }
}

/// Turns a decoded picture as its orientation `code` asks and cuts out the
/// part that the thumbnail shows.
///
/// The result is the part that `thumb_plan` keeps: it has the size of the
/// planned crop, and each of its pixels is the pixel of the given picture
/// that the plan puts there.
pub fn frame(img: DynamicImage, code: u32, spec: &ThumbnailSpec) -> (kept: DynamicImage)
    ensures
        ({
            let planned = thumb_plan(
                code,
                image_width(img),
                image_height(img),
                spec.target_width(),
                spec.target_height(),
            );
            &&& image_width(kept) == planned.crop.width
            &&& image_height(kept) == planned.crop.height
            &&& forall|i: int, j: int|
                0 <= i < planned.crop.width && 0 <= j < planned.crop.height
                    ==> #[trigger] pixel_at(kept, i, j) == framed_pixel(img, planned, i, j)
        }),
{
    let planned = plan_thumbnail(code, img.width(), img.height(), spec);
    let mut turned = turn(img, planned.rotation);
    let rect = planned.crop;
    turned.crop(rect.x_offset, rect.y_offset, rect.width, rect.height)
}

/// The kept part of a picture can be resized on this machine: the
/// intermediate picture, as wide as the kept part and as high as the
/// target, at sixteen bytes a pixel, is no larger than an allocation may be.
pub open spec fn plan_fits(planned: ThumbPlan) -> bool {
    16 * planned.crop.width * planned.height <= isize::MAX
}

/// Makes the thumbnail of a decoded picture with orientation `code`.
///
/// The part that `frame` keeps of the picture is resized to the target size
/// with a Lanczos filter of three lobes. The result has exactly the target
/// size, whatever the size of the kept part. It is refused only where the
/// kept part is too wide to be resized on this machine, which cannot happen
/// where pointers have 64 bits.
pub fn render(img: DynamicImage, code: u32, spec: &ThumbnailSpec) -> (r: Result<
    DynamicImage,
    ThumbError,
>)
    ensures
        r is Ok <==> plan_fits(
            thumb_plan(
                code,
                image_width(img),
                image_height(img),
                spec.target_width(),
                spec.target_height(),
            ),
        ),
        r matches Ok(out) ==> image_width(out) == spec.target_width() && image_height(out)
            == spec.target_height() && buffer_is_exact(out),
        r matches Err(error) ==> error == ThumbError::TooLarge,
        usize::BITS == 64 ==> r is Ok,
{
    let kept = frame(img, code, spec);
    let target_width: u32 = spec.width();
    let target_height: u32 = spec.height();
    let row: u64 = 16 * (kept.width() as u64);
    let rows: u64 = target_height as u64;
    assert(row * rows <= 0x10_0000_0000 * 200 && row * rows == 16 * image_width(kept)
        * target_height) by (nonlinear_arith)
        requires
            row == 16 * image_width(kept),
            rows == target_height,
            row <= 0x10_0000_0000,
            rows <= 200,
    ;
    assert(16 * target_width * target_height <= 16 * 200 * 200) by (nonlinear_arith)
        requires
            target_width <= 200,
            target_height <= 200,
    ;
    if row * rows > isize::MAX as u64 {
        return Err(ThumbError::TooLarge);
    }
    Ok(resize_lanczos3(&kept, target_width, target_height))
}

/// The picture is one that `render` may return for the given target: it has
/// exactly the target size, in a buffer of its own.
pub open spec fn is_rendering(small: DynamicImage, target_width: u32, target_height: u32) -> bool {
    &&& image_width(small) == target_width
    &&& image_height(small) == target_height
    &&& buffer_is_exact(small)
}

/// What is owed for a rendered picture and a format: the thumbnail that
/// holds the file the encoder writes, with the format and the size of the
/// picture, or an `Encode` error where the encoder writes none.
pub open spec fn thumb_of_rendered(
    small: DynamicImage,
    kind: ImageKind,
    r: Result<Thumbnail, ThumbError>,
) -> bool {
    match encoded_file(small, kind) {
        Some(bytes) => r matches Ok(thumb) && thumb.kind == kind && thumb.width == image_width(
            small,
        ) && thumb.height == image_height(small) && thumb.bytes@ == bytes,
        None => r matches Err(ThumbError::Encode(_)),
    }
}

/// What is owed for a file of the given bytes and name and a target of
/// `target_width` by `target_height`.
///
/// - A name that announces no picture format is refused as
///   `UnsupportedFormat`.
/// - Bytes that do not decode in the format of the name are a `Decode`
///   error.
/// - A picture whose plan does not fit this machine is refused as
///   `TooLarge`. The plan is made for the orientation read from the bytes
///   and the size of the decoded picture.
/// - Of any other file there is a rendered picture of exactly the target
///   size, and what the encoder makes of it is owed: the thumbnail that holds
///   the file it writes in the format of the name, or an `Encode` error where
///   it writes none.
pub open spec fn thumb_settled(
    data: Seq<u8>,
    file_name: Seq<char>,
    target_width: u32,
    target_height: u32,
    r: Result<Thumbnail, ThumbError>,
) -> bool {
    match kind_of_name(file_name) {
        None => r == Err::<Thumbnail, ThumbError>(ThumbError::UnsupportedFormat),
        Some(kind) => match decoded_size(data, kind) {
            None => r matches Err(ThumbError::Decode(_)),
            Some((width, height)) => if plan_fits(
                thumb_plan(
                    orientation_code(exif_orientation_tag(data)),
                    width,
                    height,
                    target_width,
                    target_height,
                ),
            ) {
                exists|small: DynamicImage|
                    is_rendering(small, target_width, target_height) && #[trigger] thumb_of_rendered(
                        small,
                        kind,
                        r,
                    )
            } else {
                r == Err::<Thumbnail, ThumbError>(ThumbError::TooLarge)
            },
        },
    }
}

/// Makes the thumbnail of a picture file.
///
/// `data` holds the bytes of the file and `file_name` its name, whose
/// extension decides the format in which the bytes are decoded and the
/// thumbnail is encoded. The orientation is read from the same bytes.
///
/// The outcome is the one that `thumb_settled` owes. Which of
/// `UnsupportedFormat`, `Decode` and `TooLarge` comes, if any, follows from
/// the name and the bytes alone. Of every other file a picture of exactly the
/// target size is rendered and handed to the encoder, and the thumbnail
/// holds the file that the encoder writes for it.
pub fn create_thumb(data: &[u8], file_name: &str, spec: &ThumbnailSpec) -> (r: Result<
    Thumbnail,
    ThumbError,
>)
    ensures
        thumb_settled(data@, file_name@, spec.target_width(), spec.target_height(), r),
        kind_of_name(file_name@) is None <==> r matches Err(ThumbError::UnsupportedFormat),
        r matches Ok(thumb) ==> kind_of_name(file_name@) == Some(thumb.kind) && thumb.width
            == spec.target_width() && thumb.height == spec.target_height(),
        !(r matches Err(ThumbError::Io(_))),
{
    let kind = match image_kind(file_name) {
        Some(kind) => kind,
        None => {
            return Err(ThumbError::UnsupportedFormat);
        },
    };
    let code: u32 = resolve(data);
    thumb_from_decoded(decode(data, kind), code, kind, spec)
}

/// Makes the thumbnail of a picture file from what the decoder made of it.
///
/// A file that was not decoded is a `Decode` error. A decoded picture is
/// rendered for orientation `code`; one that cannot be rendered on this
/// machine is refused as `TooLarge`. The rendered picture, which has exactly
/// the target size, is encoded in the format `kind`, and what
/// `thumb_of_rendered` owes for it is returned.
pub fn thumb_from_decoded(
    decoded: Result<DynamicImage, ImageError>,
    code: u32,
    kind: ImageKind,
    spec: &ThumbnailSpec,
) -> (r: Result<Thumbnail, ThumbError>)
    ensures
        match decoded {
            Ok(img) => if plan_fits(
                thumb_plan(
                    code,
                    image_width(img),
                    image_height(img),
                    spec.target_width(),
                    spec.target_height(),
                ),
            ) {
                exists|small: DynamicImage|
                    is_rendering(small, spec.target_width(), spec.target_height())
                        && #[trigger] thumb_of_rendered(small, kind, r)
            } else {
                r == Err::<Thumbnail, ThumbError>(ThumbError::TooLarge)
            },
            Err(_) => r matches Err(ThumbError::Decode(_)),
        },
{
    let img = match decoded {
        Ok(img) => img,
        Err(error) => {
            return Err(ThumbError::Decode(error_text(&error)));
        },
    };
    let small = match render(img, code, spec) {
        Ok(small) => small,
        Err(error) => {
            return Err(error);
        },
    };
    let r = thumb_from_rendered(&small, kind);
    assert(is_rendering(small, spec.target_width(), spec.target_height()) && thumb_of_rendered(
        small,
        kind,
        r,
    ));
    r
}

/// Encodes a rendered picture in the format `kind` and makes the thumbnail.
///
/// Where the encoder writes a file, the thumbnail holds it, with the format
/// and the size of the picture; where it writes none, the error is `Encode`.
/// The picture must stand in a buffer of its own, as every picture does that
/// `render` returned.
pub fn thumb_from_rendered(small: &DynamicImage, kind: ImageKind) -> (r: Result<
    Thumbnail,
    ThumbError,
>)
    requires
        buffer_is_exact(*small),
    ensures
        thumb_of_rendered(*small, kind, r),
{
    let encoded = encode(small, kind);
    thumb_from_encoded(kind, small.width(), small.height(), encoded)
}

/// Makes the thumbnail from what the encoder made of a rendered picture of
/// `width` by `height` pixels: the thumbnail that holds the encoded bytes, or
/// an `Encode` error.
pub fn thumb_from_encoded(
    kind: ImageKind,
    width: u32,
    height: u32,
    encoded: Result<Vec<u8>, ImageError>,
) -> (r: Result<Thumbnail, ThumbError>)
    ensures
        match encoded {
            Ok(bytes) => r == Ok::<Thumbnail, ThumbError>(Thumbnail { kind, width, height, bytes }),
            Err(_) => r matches Err(ThumbError::Encode(_)),
        },
{
    match encoded {
        Ok(bytes) => Ok(Thumbnail { kind, width, height, bytes }),
        Err(error) => Err(ThumbError::Encode(error_text(&error))),
    }
}

/// The outcome of a file depends on the file and the target alone: two
/// outcomes that are owed for the same bytes, name and target are the same
/// error, or each is the thumbnail or an `Encode` error; and two thumbnails
/// have the same format and the same size, which is the target size.
pub proof fn lemma_outcome_depends_on_the_file_alone(
    data: Seq<u8>,
    file_name: Seq<char>,
    target_width: u32,
    target_height: u32,
    first: Result<Thumbnail, ThumbError>,
    second: Result<Thumbnail, ThumbError>,
)
    requires
        thumb_settled(data, file_name, target_width, target_height, first),
        thumb_settled(data, file_name, target_width, target_height, second),
    ensures
        first matches Err(ThumbError::UnsupportedFormat) <==> second matches Err(
            ThumbError::UnsupportedFormat,
        ),
        first matches Err(ThumbError::Decode(_)) <==> second matches Err(ThumbError::Decode(_)),
        first matches Err(ThumbError::TooLarge) <==> second matches Err(ThumbError::TooLarge),
        (first is Ok || first matches Err(ThumbError::Encode(_))) <==> (second is Ok
            || second matches Err(ThumbError::Encode(_))),
        !(first matches Err(ThumbError::Io(_))) && !(second matches Err(ThumbError::Io(_))),
        first matches Ok(one) ==> (second matches Ok(other) ==> one.kind == other.kind
            && one.width == other.width && one.height == other.height && one.width
            == target_width && one.height == target_height),
{
}

/// What is owed for a rendered picture is decided by the picture and the
/// format: two outcomes owed for the same picture and format are both
/// thumbnails or both `Encode` errors, and two thumbnails agree in format,
/// size and bytes.
pub proof fn lemma_rendered_picture_decides(
    small: DynamicImage,
    kind: ImageKind,
    first: Result<Thumbnail, ThumbError>,
    second: Result<Thumbnail, ThumbError>,
)
    requires
        thumb_of_rendered(small, kind, first),
        thumb_of_rendered(small, kind, second),
    ensures
        first is Ok <==> second is Ok,
        first is Ok <==> encoded_file(small, kind) is Some,
        first matches Err(ThumbError::Encode(_)) <==> second matches Err(ThumbError::Encode(_)),
        first matches Ok(one) ==> (second matches Ok(other) ==> one.kind == other.kind
            && one.width == other.width && one.height == other.height && one.bytes@
            == other.bytes@),
{
}

/// A picture whose orientation cannot be recovered is planned as an upright
/// one: it is not turned, and it is cropped as a picture of code 1 is.
pub proof fn lemma_unreadable_orientation_plans_as_upright(
    tag: Option<u32>,
    width: u32,
    height: u32,
    target_width: u32,
    target_height: u32,
)
    requires
        tag matches Some(value) ==> !(1 <= value <= 8),
    ensures
        thumb_plan(orientation_code(tag), width, height, target_width, target_height)
            == thumb_plan(UPRIGHT, width, height, target_width, target_height),
        thumb_plan(orientation_code(tag), width, height, target_width, target_height).rotation
            == Rotation::NoTurn,
        thumb_plan(orientation_code(tag), width, height, target_width, target_height).crop
            == crop_plan(width, height, target_width, target_height),
{
}

/// Of a picture that is not turned, the kept part is a part of the picture
/// itself: the pixel in column `i` and row `j` of the kept part is the one
/// that stands `i` columns and `j` rows after the corner of the crop.
pub proof fn lemma_upright_picture_is_cut_only(
    img: DynamicImage,
    code: u32,
    target_width: u32,
    target_height: u32,
    i: int,
    j: int,
)
    requires
        rotation_of(code) == Rotation::NoTurn,
    ensures
        ({
            let planned = thumb_plan(
                code,
                image_width(img),
                image_height(img),
                target_width,
                target_height,
            );
            &&& planned.crop == crop_plan(
                image_width(img),
                image_height(img),
                target_width,
                target_height,
            )
            &&& framed_pixel(img, planned, i, j) == pixel_at(
                img,
                planned.crop.x_offset + i,
                planned.crop.y_offset + j,
            )
        }),
{
}

/// Every thumbnail plan keeps a part that lies inside the turned picture and
/// has the target ratio up to the rounding of its reduced side.
pub proof fn lemma_thumb_plan_is_sound(
    code: u32,
    width: u32,
    height: u32,
    target_width: u32,
    target_height: u32,
)
    requires
        target_width > 0,
        target_height > 0,
    ensures
        ({
            let planned = thumb_plan(code, width, height, target_width, target_height);
            let turned = turned_size(planned.rotation, width, height);
            &&& planned.crop.within(turned.0 as int, turned.1 as int)
            &&& planned.crop.matches_ratio(target_width as int, target_height as int)
            &&& planned.width == target_width
            &&& planned.height == target_height
        }),
{
    let turned = turned_size(rotation_of(code), width, height);
    lemma_plan_within_source(turned.0, turned.1, target_width, target_height);
    lemma_plan_matches_ratio(turned.0, turned.1, target_width, target_height);
}

} // verus!
