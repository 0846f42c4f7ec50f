//! Decoded pictures and the operations of the `image` crate on them.
//!
//! A decoded picture is a value of `image::DynamicImage`. Verified code does
//! not look inside it: it speaks of a picture by its width, its height and the
//! pixel at each of its points, and knows of each operation below what is
//! stated here. None of these statements is proved: each is taken from the
//! source of the `image` crate.

use crate::scan::ImageKind;
use image::{DynamicImage, ImageError};
use vstd::prelude::*;

verus! {

/// `image::DynamicImage`, a decoded picture.
#[verifier::external_type_specification]
#[verifier::external_body]
pub struct ExDynamicImage(image::DynamicImage);

/// `image::ImageError`, the error of every fallible operation of the crate.
#[verifier::external_type_specification]
#[verifier::external_body]
pub struct ExImageError(image::ImageError);

/// The width of a picture in pixels: what `DynamicImage::width` returns.
pub uninterp spec fn image_width(img: DynamicImage) -> u32;

/// The height of a picture in pixels: what `DynamicImage::height` returns.
pub uninterp spec fn image_height(img: DynamicImage) -> u32;

/// The pixel in column `x` and row `y` of a picture, as the bytes of its
/// channels: what `get_pixel(x, y)` returns on the buffer that the picture
/// holds. Columns are counted from the left and rows from the top.
pub uninterp spec fn pixel_at(img: DynamicImage, x: int, y: int) -> Seq<u8>;

/// The buffer of the picture holds its pixels and nothing after them:
/// `DynamicImage::as_bytes` returns exactly the bytes of `width` times
/// `height` pixels. It is so of every buffer that `ImageBuffer::new` made.
pub uninterp spec fn buffer_is_exact(img: DynamicImage) -> bool;

/// The width and the height of the picture that
/// `image::load_from_memory_with_format` decodes from the bytes of a file in
/// the given format, and `None` where it returns an error.
pub uninterp spec fn decoded_size(data: Seq<u8>, kind: ImageKind) -> Option<(u32, u32)>;

/// The file that `image::write_buffer_with_format` writes for the bytes, the
/// size and the colour type of the picture in the given format, and `None`
/// where it returns an error.
pub uninterp spec fn encoded_file(img: DynamicImage, kind: ImageKind) -> Option<Seq<u8>>;

/// `DynamicImage::width` returns the width of the picture.
pub assume_specification[ image::DynamicImage::width ](img: &image::DynamicImage) -> (w: u32)
    ensures
        w == image_width(*img),
;

/// `DynamicImage::height` returns the height of the picture.
pub assume_specification[ image::DynamicImage::height ](img: &image::DynamicImage) -> (h: u32)
    ensures
        h == image_height(*img),
;

/// `DynamicImage::rotate90` returns the picture turned by a quarter turn
/// clockwise: a new picture as wide as the given one is high and as high as
/// it is wide, in which the pixel of column `x` and row `y` of the given
/// picture stands in column `height - 1 - y` and row `x`.
pub assume_specification[ image::DynamicImage::rotate90 ](img: &image::DynamicImage) -> (out:
    image::DynamicImage)
    ensures
        image_width(out) == image_height(*img),
        image_height(out) == image_width(*img),
        forall|x: int, y: int|
            0 <= x < image_width(*img) && 0 <= y < image_height(*img) ==> pixel_at(
                out,
                image_height(*img) - 1 - y,
                x,
            ) == #[trigger] pixel_at(*img, x, y),
;

/// `DynamicImage::rotate180` returns the picture turned by a half turn: a new
/// picture of the same width and height, in which the pixel of column `x`
/// and row `y` of the given picture stands in column `width - 1 - x` and row
/// `height - 1 - y`.
pub assume_specification[ image::DynamicImage::rotate180 ](img: &image::DynamicImage) -> (out:
    image::DynamicImage)
    ensures
        image_width(out) == image_width(*img),
        image_height(out) == image_height(*img),
        forall|x: int, y: int|
            0 <= x < image_width(*img) && 0 <= y < image_height(*img) ==> pixel_at(
                out,
                image_width(*img) - 1 - x,
                image_height(*img) - 1 - y,
            ) == #[trigger] pixel_at(*img, x, y),
;

/// The corner at which `DynamicImage::crop` starts to cut: the corner that
/// was asked for, moved to the edge of the picture where it lies outside.
pub open spec fn crop_corner(img: DynamicImage, x: u32, y: u32) -> (int, int) {
    (
        vstd::math::min(x as int, image_width(img) as int),
        vstd::math::min(y as int, image_height(img) as int),
    )
}

/// `DynamicImage::crop` returns the part of the picture inside the given
/// rectangle as a new picture and leaves the picture itself as it was. The
/// cut starts at `crop_corner` and a rectangle that reaches over the edge of
/// the picture is cut off there, so the result is as large as the rectangle
/// wherever the rectangle lies inside the picture. The pixel of column `i` and
/// row `j` of the result is the one that stands `i` columns and `j` rows
/// after the corner.
pub assume_specification[ image::DynamicImage::crop ](
    img: &mut image::DynamicImage,
    x: u32,
    y: u32,
    width: u32,
    height: u32,
) -> (out: image::DynamicImage)
    ensures
        *final(img) == *old(img),
        image_width(out) == vstd::math::min(
            width as int,
            image_width(*old(img)) - crop_corner(*old(img), x, y).0,
        ),
        image_height(out) == vstd::math::min(
            height as int,
            image_height(*old(img)) - crop_corner(*old(img), x, y).1,
        ),
        forall|i: int, j: int|
            0 <= i < image_width(out) && 0 <= j < image_height(out) ==> #[trigger] pixel_at(
                out,
                i,
                j,
            ) == pixel_at(
                *old(img),
                crop_corner(*old(img), x, y).0 + i,
                crop_corner(*old(img), x, y).1 + j,
            ),
;

/// The picture that `resize_lanczos3` may be asked to resize to the given
/// size: neither the intermediate picture of `width(img)` by `nheight`
/// pixels nor the result, each of at most sixteen bytes a pixel, is larger
/// than an allocation may be.
pub open spec fn resize_fits(img: DynamicImage, nwidth: u32, nheight: u32) -> bool {
    &&& 16 * image_width(img) * nheight <= isize::MAX
    &&& 16 * nwidth * nheight <= isize::MAX
}

/// Calls `DynamicImage::resize_exact` with the filter
/// `imageops::FilterType::Lanczos3`. It returns a new picture of exactly
/// `nwidth` by `nheight` pixels, whatever the ratio of the given one, in a
/// buffer of its own that `ImageBuffer::new` made. Nothing is claimed of its
/// pixels.
#[verifier::external_body]
pub(crate) fn resize_lanczos3(img: &DynamicImage, nwidth: u32, nheight: u32) -> (out: DynamicImage)
    requires
        resize_fits(*img, nwidth, nheight),
    ensures
        image_width(out) == nwidth,
        image_height(out) == nheight,
        buffer_is_exact(out),
{
    img.resize_exact(nwidth, nheight, image::imageops::FilterType::Lanczos3)
}

/// Calls `image::load_from_memory_with_format`: decodes the bytes of a file
/// in the given format. Whether it returns a picture, and of which size,
/// depends on the bytes and the format alone. Nothing is claimed of the
/// pixels, nor of the error.
#[verifier::external_body]
pub(crate) fn decode(data: &[u8], kind: ImageKind) -> (r: Result<DynamicImage, ImageError>)
    ensures
        match r {
            Ok(img) => decoded_size(data@, kind) == Some((image_width(img), image_height(img))),
            Err(_) => decoded_size(data@, kind) is None,
        },
{
    let format = match kind {
        ImageKind::Jpeg => image::ImageFormat::Jpeg,
        ImageKind::Png => image::ImageFormat::Png,
        ImageKind::Gif => image::ImageFormat::Gif,
    };
    image::load_from_memory_with_format(data, format)
}

/// Calls `image::write_buffer_with_format` on the bytes, the size and the
/// colour type of the picture: encodes it in the given format into memory.
/// The encoders stop the program where the bytes are not exactly those of
/// the pixels, so the buffer must be exact. What is written, and whether
/// anything is, depends on the picture and the format alone.
#[verifier::external_body]
pub(crate) fn encode(img: &DynamicImage, kind: ImageKind) -> (r: Result<Vec<u8>, ImageError>)
    requires
        buffer_is_exact(*img),
    ensures
        match r {
            Ok(bytes) => encoded_file(*img, kind) == Some(bytes@),
            Err(_) => encoded_file(*img, kind) is None,
        },
{
    let format = match kind {
        ImageKind::Jpeg => image::ImageFormat::Jpeg,
        ImageKind::Png => image::ImageFormat::Png,
        ImageKind::Gif => image::ImageFormat::Gif,
    };
    let mut out = std::io::Cursor::new(Vec::new());
    image::write_buffer_with_format(
        &mut out,
        img.as_bytes(),
        img.width(),
        img.height(),
        img.color(),
        format,
    ).map(|_| out.into_inner())
}

/// Calls `to_string` on an `image::ImageError`: the text that describes the
/// error. Nothing is claimed of the text.
#[verifier::external_body]
pub(crate) fn error_text(error: &ImageError) -> (text: String) {
    error.to_string()
}

} // verus!
