use crabbythumb::orientation::Rotation;
use crabbythumb::scan::ImageKind;
use crabbythumb::target::ThumbnailSpec;
use crabbythumb::thumb::{
    create_thumb, frame, plan_thumbnail, render, thumb_from_decoded, thumb_from_encoded,
    thumb_from_rendered, turn, ThumbError,
};
use image::{DynamicImage, GenericImageView, ImageFormat, ImageOutputFormat, Rgb, RgbImage};
use std::io::Cursor;

const RED: Rgb<u8> = Rgb([220, 20, 20]);
const BLUE: Rgb<u8> = Rgb([20, 20, 220]);

fn target(width: u32, height: u32) -> ThumbnailSpec {
    ThumbnailSpec::new(width, height).unwrap()
}

/// A picture whose left half is red and whose right half is blue.
fn red_left_blue_right(width: u32, height: u32) -> DynamicImage {
    DynamicImage::ImageRgb8(RgbImage::from_fn(width, height, |x, _| {
        if x < width / 2 {
            RED
        } else {
            BLUE
        }
    }))
}

fn encoded(picture: &DynamicImage, format: ImageOutputFormat) -> Vec<u8> {
    let mut out = Cursor::new(Vec::new());
    picture.write_to(&mut out, format).unwrap();
    out.into_inner()
}

fn exif_segment_with_orientation(value: u16) -> Vec<u8> {
    let mut segment = vec![0xff, 0xe1, 0x00, 0x22];
    segment.extend_from_slice(b"Exif\0\0");
    segment.extend_from_slice(&[0x49, 0x49, 0x2a, 0x00, 0x08, 0x00, 0x00, 0x00]);
    segment.extend_from_slice(&[0x01, 0x00]);
    segment.extend_from_slice(&[0x12, 0x01, 0x03, 0x00, 0x01, 0x00, 0x00, 0x00]);
    segment.extend_from_slice(&value.to_le_bytes());
    segment.extend_from_slice(&[0x00, 0x00, 0x00, 0x00, 0x00, 0x00]);
    segment
}

fn jpeg_with_orientation(picture: &DynamicImage, value: u16) -> Vec<u8> {
    let jpeg = encoded(picture, ImageOutputFormat::Jpeg(95));
    let mut out = jpeg[..2].to_vec();
    out.extend_from_slice(&exif_segment_with_orientation(value));
    out.extend_from_slice(&jpeg[2..]);
    out
}

fn is_reddish(picture: &DynamicImage, x: u32, y: u32) -> bool {
    let pixel = picture.get_pixel(x, y);
    pixel[0] > 150 && pixel[2] < 100
}

fn is_bluish(picture: &DynamicImage, x: u32, y: u32) -> bool {
    let pixel = picture.get_pixel(x, y);
    pixel[2] > 150 && pixel[0] < 100
}

#[test]
fn landscape_source_gives_square_thumbnail() {
    let source = encoded(&red_left_blue_right(1600, 1200), ImageOutputFormat::Png);
    let thumb = create_thumb(&source, "holiday.png", &target(150, 150)).unwrap();
    assert_eq!((thumb.width, thumb.height, thumb.kind), (150, 150, ImageKind::Png));
    let small = image::load_from_memory_with_format(&thumb.bytes, ImageFormat::Png).unwrap();
    assert_eq!(small.dimensions(), (150, 150));
    assert!(is_reddish(&small, 10, 75) && is_bluish(&small, 140, 75));
}

#[test]
fn portrait_source_gives_wide_thumbnail() {
    let source = encoded(&red_left_blue_right(800, 1200), ImageOutputFormat::Jpeg(95));
    let thumb = create_thumb(&source, "portrait.jpg", &target(160, 100)).unwrap();
    assert_eq!((thumb.width, thumb.height, thumb.kind), (160, 100, ImageKind::Jpeg));
    let small = image::load_from_memory_with_format(&thumb.bytes, ImageFormat::Jpeg).unwrap();
    assert_eq!(small.dimensions(), (160, 100));
    assert!(is_reddish(&small, 10, 50) && is_bluish(&small, 150, 50));
}

#[test]
fn thumbnail_plan_of_landscape_source() {
    let planned = plan_thumbnail(1, 1600, 1200, &target(150, 150));
    assert_eq!(planned.rotation, Rotation::NoTurn);
    assert_eq!(
        (planned.crop.x_offset, planned.crop.y_offset, planned.crop.width, planned.crop.height),
        (200, 0, 1200, 1200)
    );
    assert_eq!((planned.width, planned.height), (150, 150));
}

#[test]
fn thumbnail_plan_of_portrait_source() {
    let planned = plan_thumbnail(1, 800, 1200, &target(160, 100));
    assert_eq!(planned.rotation, Rotation::NoTurn);
    assert_eq!(
        (planned.crop.x_offset, planned.crop.y_offset, planned.crop.width, planned.crop.height),
        (0, 350, 800, 500)
    );
    assert_eq!((planned.width, planned.height), (160, 100));
}

#[test]
fn thumbnail_plan_crops_the_turned_picture() {
    // 1200x800 turned by a quarter is 800x1200
    for code in [6u32, 8] {
        let planned = plan_thumbnail(code, 1200, 800, &target(160, 100));
        assert_eq!(planned.rotation, Rotation::QuarterTurn);
        assert_eq!(
            (planned.crop.x_offset, planned.crop.y_offset, planned.crop.width, planned.crop.height),
            (0, 350, 800, 500)
        );
    }
    let planned = plan_thumbnail(3, 1200, 800, &target(160, 100));
    assert_eq!(planned.rotation, Rotation::HalfTurn);
    assert_eq!(
        (planned.crop.x_offset, planned.crop.y_offset, planned.crop.width, planned.crop.height),
        (0, 25, 1200, 750)
    );
    for code in [0u32, 1, 2, 4, 5, 7, 9, 77] {
        let planned = plan_thumbnail(code, 1200, 800, &target(160, 100));
        assert_eq!(planned, plan_thumbnail(1, 1200, 800, &target(160, 100)));
        assert_eq!(planned.rotation, Rotation::NoTurn);
    }
}

#[test]
fn turns_change_the_size_as_they_should() {
    let picture = red_left_blue_right(40, 20);
    assert_eq!(turn(picture.clone(), Rotation::NoTurn).dimensions(), (40, 20));
    assert_eq!(turn(picture.clone(), Rotation::QuarterTurn).dimensions(), (20, 40));
    assert_eq!(turn(picture.clone(), Rotation::HalfTurn).dimensions(), (40, 20));
    let unturned = turn(picture.clone(), Rotation::NoTurn);
    assert_eq!(unturned.as_bytes(), picture.as_bytes());
    let quarter = turn(picture.clone(), Rotation::QuarterTurn);
    assert!(is_reddish(&quarter, 10, 2) && is_bluish(&quarter, 10, 37));
    let half = turn(picture, Rotation::HalfTurn);
    assert!(is_bluish(&half, 2, 10) && is_reddish(&half, 37, 10));
}

/// A picture no two of whose pixels are alike.
fn numbered_pixels(width: u32, height: u32) -> DynamicImage {
    DynamicImage::ImageRgb8(RgbImage::from_fn(width, height, |x, y| {
        Rgb([x as u8, y as u8, (x / 256 * 16 + y / 256) as u8])
    }))
}

/// The point of a picture of the given size that a turn carries to `(x, y)`.
fn point_before_turn(rotation: Rotation, width: u32, height: u32, x: u32, y: u32) -> (u32, u32) {
    match rotation {
        Rotation::NoTurn => (x, y),
        Rotation::QuarterTurn => (y, height - 1 - x),
        Rotation::HalfTurn => (width - 1 - x, height - 1 - y),
    }
}

#[test]
fn turned_picture_holds_the_pixels_where_the_turn_carries_them() {
    for (width, height) in [(7u32, 4u32), (4, 7), (1, 5), (5, 1), (3, 3), (300, 2)] {
        let picture = numbered_pixels(width, height);
        for rotation in [Rotation::NoTurn, Rotation::QuarterTurn, Rotation::HalfTurn] {
            let turned = turn(picture.clone(), rotation);
            let expected = if rotation == Rotation::QuarterTurn {
                (height, width)
            } else {
                (width, height)
            };
            assert_eq!(turned.dimensions(), expected);
            for y in 0..turned.height() {
                for x in 0..turned.width() {
                    let (sx, sy) = point_before_turn(rotation, width, height, x, y);
                    assert_eq!(turned.get_pixel(x, y), picture.get_pixel(sx, sy));
                }
            }
        }
    }
}

#[test]
fn quarter_turn_is_clockwise() {
    // The top left corner goes to the top right, and the bottom left corner
    // to the top left.
    let picture = numbered_pixels(9, 5);
    let turned = turn(picture.clone(), Rotation::QuarterTurn);
    assert_eq!(turned.get_pixel(4, 0), picture.get_pixel(0, 0));
    assert_eq!(turned.get_pixel(0, 0), picture.get_pixel(0, 4));
    assert_eq!(turned.get_pixel(4, 8), picture.get_pixel(8, 0));
}

#[test]
fn framed_part_holds_the_planned_pixels() {
    let spec = target(150, 125);
    for (width, height) in [(60u32, 40u32), (40, 60), (36, 30), (30, 36), (5, 200), (200, 5)] {
        let picture = numbered_pixels(width, height);
        for code in [1u32, 3, 6, 8, 2, 0] {
            let planned = plan_thumbnail(code, width, height, &spec);
            let kept = frame(picture.clone(), code, &spec);
            assert_eq!(kept.dimensions(), (planned.crop.width, planned.crop.height));
            for j in 0..kept.height() {
                for i in 0..kept.width() {
                    let (sx, sy) = point_before_turn(
                        planned.rotation,
                        width,
                        height,
                        planned.crop.x_offset + i,
                        planned.crop.y_offset + j,
                    );
                    assert_eq!(kept.get_pixel(i, j), picture.get_pixel(sx, sy));
                }
            }
        }
    }
}

#[test]
fn framed_part_of_an_upright_picture_is_its_centre() {
    let picture = numbered_pixels(120, 50);
    let kept = frame(picture.clone(), 1, &target(100, 100));
    assert_eq!(kept.dimensions(), (50, 50));
    assert_eq!(kept.get_pixel(0, 0), picture.get_pixel(35, 0));
    assert_eq!(kept.get_pixel(49, 49), picture.get_pixel(84, 49));
}

#[test]
fn rendered_picture_has_exactly_the_target_size() {
    for (width, height) in [(320u32, 240u32), (240, 320), (150, 150), (37, 500), (500, 37), (1, 1)] {
        for (tw, th) in [(150u32, 150u32), (160, 100), (200, 100), (100, 100)] {
            for code in [1u32, 3, 6, 8] {
                let out = render(red_left_blue_right(width, height), code, &target(tw, th)).unwrap();
                assert_eq!(out.dimensions(), (tw, th));
            }
        }
    }
}

#[test]
fn picture_that_keeps_nothing_is_still_rendered() {
    let out = render(red_left_blue_right(1, 300), 1, &target(200, 100)).unwrap();
    assert_eq!(out.dimensions(), (200, 100));
}

#[test]
fn upright_picture_is_not_turned() {
    for code in [1u32, 2, 4, 5, 7, 0, 9] {
        let out = render(red_left_blue_right(400, 200), code, &target(100, 100)).unwrap();
        assert!(is_reddish(&out, 10, 50) && is_bluish(&out, 90, 50), "code {code}");
    }
}

#[test]
fn code_three_turns_by_a_half() {
    let out = render(red_left_blue_right(400, 200), 3, &target(100, 100)).unwrap();
    assert!(is_bluish(&out, 10, 50) && is_reddish(&out, 90, 50));
}

#[test]
fn codes_six_and_eight_turn_by_a_quarter_clockwise() {
    for code in [6u32, 8] {
        let out = render(red_left_blue_right(400, 200), code, &target(100, 100)).unwrap();
        assert!(is_reddish(&out, 50, 10) && is_bluish(&out, 50, 90), "code {code}");
    }
}

#[test]
fn orientation_of_the_file_is_applied() {
    let picture = red_left_blue_right(400, 200);
    let thumb = create_thumb(&jpeg_with_orientation(&picture, 6), "a.jpg", &target(100, 100)).unwrap();
    let small = image::load_from_memory_with_format(&thumb.bytes, ImageFormat::Jpeg).unwrap();
    assert_eq!(small.dimensions(), (100, 100));
    assert!(is_reddish(&small, 50, 10) && is_bluish(&small, 50, 90));
    let thumb = create_thumb(&jpeg_with_orientation(&picture, 3), "a.jpg", &target(100, 100)).unwrap();
    let small = image::load_from_memory_with_format(&thumb.bytes, ImageFormat::Jpeg).unwrap();
    assert!(is_bluish(&small, 10, 50) && is_reddish(&small, 90, 50));
}

#[test]
fn file_without_metadata_is_not_turned() {
    let picture = red_left_blue_right(400, 200);
    for source in [encoded(&picture, ImageOutputFormat::Jpeg(95)), jpeg_with_orientation(&picture, 11)] {
        let thumb = create_thumb(&source, "a.jpeg", &target(100, 100)).unwrap();
        let small = image::load_from_memory_with_format(&thumb.bytes, ImageFormat::Jpeg).unwrap();
        assert!(is_reddish(&small, 10, 50) && is_bluish(&small, 90, 50));
    }
}

#[test]
fn same_source_gives_same_size_each_time() {
    let source = encoded(&red_left_blue_right(640, 480), ImageOutputFormat::Png);
    let spec = target(150, 125);
    let first = create_thumb(&source, "again.png", &spec).unwrap();
    let second = create_thumb(&source, "again.png", &spec).unwrap();
    for thumb in [&first, &second] {
        assert_eq!((thumb.width, thumb.height), (150, 125));
        let small = image::load_from_memory_with_format(&thumb.bytes, ImageFormat::Png).unwrap();
        assert_eq!(small.dimensions(), (150, 125));
    }
}

#[test]
fn thumbnail_of_a_thumbnail_keeps_the_size() {
    let source = encoded(&red_left_blue_right(640, 480), ImageOutputFormat::Png);
    let spec = target(150, 125);
    let first = create_thumb(&source, "once.png", &spec).unwrap();
    let second = create_thumb(&first.bytes, "once.png", &spec).unwrap();
    let small = image::load_from_memory_with_format(&second.bytes, ImageFormat::Png).unwrap();
    assert_eq!(small.dimensions(), (150, 125));
}

#[test]
fn gif_files_are_read_and_written() {
    let source = encoded(&red_left_blue_right(300, 200), ImageOutputFormat::Gif);
    let thumb = create_thumb(&source, "anim.GIF", &target(120, 100)).unwrap();
    assert_eq!(thumb.kind, ImageKind::Gif);
    let small = image::load_from_memory_with_format(&thumb.bytes, ImageFormat::Gif).unwrap();
    assert_eq!(small.dimensions(), (120, 100));
}

#[test]
fn pictures_with_transparency_keep_it() {
    let picture = DynamicImage::ImageRgba8(image::RgbaImage::from_pixel(
        300,
        300,
        image::Rgba([10, 200, 10, 0]),
    ));
    let source = encoded(&picture, ImageOutputFormat::Png);
    let thumb = create_thumb(&source, "clear.png", &target(100, 100)).unwrap();
    let small = image::load_from_memory_with_format(&thumb.bytes, ImageFormat::Png).unwrap();
    assert_eq!(small.color(), image::ColorType::Rgba8);
    assert_eq!(small.get_pixel(50, 50)[3], 0);
}

#[test]
fn name_without_picture_extension_is_refused() {
    let source = encoded(&red_left_blue_right(300, 200), ImageOutputFormat::Png);
    for name in ["notes.txt", "picture", ".png", "picture.bmp", "picture.png.bak", ""] {
        let outcome = create_thumb(&source, name, &target(100, 100));
        assert!(matches!(outcome, Err(ThumbError::UnsupportedFormat)), "{name:?}");
    }
}

#[test]
fn broken_file_is_a_decode_error() {
    let mut source = encoded(&red_left_blue_right(300, 200), ImageOutputFormat::Png);
    source.truncate(source.len() / 2);
    assert!(matches!(create_thumb(&source, "a.png", &target(100, 100)), Err(ThumbError::Decode(_))));
    assert!(matches!(create_thumb(&[], "a.jpg", &target(100, 100)), Err(ThumbError::Decode(_))));
    assert!(matches!(
        create_thumb(b"plain text", "a.gif", &target(100, 100)),
        Err(ThumbError::Decode(_))
    ));
}

#[test]
fn content_that_does_not_match_the_name_is_a_decode_error() {
    let source = encoded(&red_left_blue_right(300, 200), ImageOutputFormat::Png);
    let outcome = create_thumb(&source, "really_a_png.jpg", &target(100, 100));
    assert!(matches!(outcome, Err(ThumbError::Decode(_))));
}

/// A lossless JPEG file of one grey pixel with sixteen bits.
fn sixteen_bit_jpeg() -> Vec<u8> {
    let mut file = vec![0xff, 0xd8];
    // Huffman table 0: one code, of one bit, for the difference 0
    file.extend_from_slice(&[0xff, 0xc4, 0x00, 0x14, 0x00]);
    file.extend_from_slice(&[1, 0, 0, 0, 0, 0, 0, 0, 0, 0, 0, 0, 0, 0, 0, 0]);
    file.push(0x00);
    // lossless frame: 16 bits, 1 by 1 pixel, one component
    file.extend_from_slice(&[0xff, 0xc3, 0x00, 0x0b, 0x10, 0x00, 0x01, 0x00, 0x01, 0x01]);
    file.extend_from_slice(&[0x01, 0x11, 0x00]);
    // scan: component 1 with table 0, predictor 1
    file.extend_from_slice(&[0xff, 0xda, 0x00, 0x08, 0x01, 0x01, 0x00, 0x01, 0x00, 0x00]);
    file.push(0x7f);
    file.extend_from_slice(&[0xff, 0xd9]);
    file
}

#[test]
fn picture_that_the_format_cannot_hold_is_an_encode_error() {
    // The file decodes to sixteen bits of grey, which the JPEG encoder does
    // not write.
    let source = sixteen_bit_jpeg();
    let decoded = image::load_from_memory_with_format(&source, ImageFormat::Jpeg).unwrap();
    assert_eq!(decoded.color(), image::ColorType::L16);
    let outcome = create_thumb(&source, "deep.jpg", &target(100, 100));
    assert!(matches!(outcome, Err(ThumbError::Encode(_))));
}

#[test]
fn deep_pictures_keep_their_depth() {
    let deep = DynamicImage::ImageRgb16(image::ImageBuffer::from_pixel(
        200,
        200,
        Rgb([60_000u16, 100, 100]),
    ));
    let thumb = create_thumb(&encoded(&deep, ImageOutputFormat::Png), "deep.png", &target(100, 100))
        .unwrap();
    let small = image::load_from_memory_with_format(&thumb.bytes, ImageFormat::Png).unwrap();
    assert_eq!(small.color(), image::ColorType::Rgb16);
    assert_eq!(small.dimensions(), (100, 100));
}

fn codec_error() -> image::ImageError {
    image::load_from_memory_with_format(b"no picture", ImageFormat::Png).unwrap_err()
}

#[test]
fn undecoded_file_is_a_decode_error() {
    let outcome = thumb_from_decoded(Err(codec_error()), 6, ImageKind::Png, &target(100, 100));
    match outcome {
        Err(ThumbError::Decode(text)) => assert_eq!(text, codec_error().to_string()),
        other => panic!("unexpected outcome {other:?}"),
    }
}

#[test]
fn decoded_picture_becomes_a_thumbnail_of_the_target_size() {
    for (kind, format) in [
        (ImageKind::Png, ImageFormat::Png),
        (ImageKind::Jpeg, ImageFormat::Jpeg),
        (ImageKind::Gif, ImageFormat::Gif),
    ] {
        let thumb =
            thumb_from_decoded(Ok(red_left_blue_right(400, 200)), 6, kind, &target(120, 100))
                .unwrap();
        assert_eq!((thumb.kind, thumb.width, thumb.height), (kind, 120, 100));
        let small = image::load_from_memory_with_format(&thumb.bytes, format).unwrap();
        assert_eq!(small.dimensions(), (120, 100));
        assert!(is_reddish(&small, 60, 5) && is_bluish(&small, 60, 95));
    }
}

#[test]
fn picture_with_a_spare_buffer_is_encoded() {
    // The buffer is longer than the pixels; the thumbnail is encoded from a
    // buffer of its own.
    let mut pixels = vec![200u8; 300 * 200 * 3];
    pixels.extend_from_slice(&[0u8; 1000]);
    let spare = DynamicImage::ImageRgb8(RgbImage::from_raw(300, 200, pixels).unwrap());
    assert!(spare.as_bytes().len() > 300 * 200 * 3);
    for (kind, format) in [(ImageKind::Png, ImageFormat::Png), (ImageKind::Jpeg, ImageFormat::Jpeg)] {
        // also where the picture already has the target size
        for (tw, th) in [(150u32, 100u32), (120, 100)] {
            let thumb =
                thumb_from_decoded(Ok(spare.clone()), 1, kind, &target(tw, th)).unwrap();
            let small = image::load_from_memory_with_format(&thumb.bytes, format).unwrap();
            assert_eq!(small.dimensions(), (tw, th));
        }
    }
    let same_size = DynamicImage::ImageRgb8(
        RgbImage::from_raw(150, 100, vec![7u8; 150 * 100 * 3 + 5]).unwrap(),
    );
    let thumb = thumb_from_decoded(Ok(same_size), 1, ImageKind::Png, &target(150, 100)).unwrap();
    let small = image::load_from_memory_with_format(&thumb.bytes, ImageFormat::Png).unwrap();
    assert_eq!(small.dimensions(), (150, 100));
}

#[test]
fn outcome_follows_the_size_that_the_decoder_reads() {
    // The decoder reads 1600 by 1200 pixels; the kept part of that size is
    // the square in its middle, whose left half alone is red.
    let source = encoded(&red_left_blue_right(1600, 1200), ImageOutputFormat::Png);
    let decoded = image::load_from_memory_with_format(&source, ImageFormat::Png).unwrap();
    assert_eq!(decoded.dimensions(), (1600, 1200));
    let by_hand = thumb_from_decoded(Ok(decoded), 1, ImageKind::Png, &target(150, 150)).unwrap();
    let whole = create_thumb(&source, "p.png", &target(150, 150)).unwrap();
    assert_eq!((whole.kind, whole.width, whole.height), (by_hand.kind, by_hand.width, by_hand.height));
    assert_eq!(whole.bytes, by_hand.bytes);
}

#[test]
fn rendered_picture_is_encoded_in_the_given_format() {
    let small = render(red_left_blue_right(400, 200), 1, &target(120, 100)).unwrap();
    for (kind, format) in [
        (ImageKind::Png, ImageFormat::Png),
        (ImageKind::Jpeg, ImageFormat::Jpeg),
        (ImageKind::Gif, ImageFormat::Gif),
    ] {
        let thumb = thumb_from_rendered(&small, kind).unwrap();
        assert_eq!((thumb.kind, thumb.width, thumb.height), (kind, 120, 100));
        assert_eq!(image::guess_format(&thumb.bytes).unwrap(), format);
        let back = image::load_from_memory_with_format(&thumb.bytes, format).unwrap();
        assert_eq!(back.dimensions(), (120, 100));
        assert!(is_reddish(&back, 10, 50) && is_bluish(&back, 110, 50));
        let again = thumb_from_rendered(&small, kind).unwrap();
        assert_eq!(again.bytes, thumb.bytes);
    }
}

#[test]
fn png_file_holds_the_rendered_pixels() {
    let small = render(red_left_blue_right(400, 200), 3, &target(120, 100)).unwrap();
    let thumb = thumb_from_rendered(&small, ImageKind::Png).unwrap();
    let back = image::load_from_memory_with_format(&thumb.bytes, ImageFormat::Png).unwrap();
    assert_eq!(back.as_bytes(), small.as_bytes());
}

#[test]
fn rendered_picture_that_the_format_cannot_hold_is_an_encode_error() {
    let deep = DynamicImage::ImageRgb16(image::ImageBuffer::from_pixel(
        200,
        200,
        Rgb([60_000u16, 100, 100]),
    ));
    let small = render(deep, 1, &target(100, 100)).unwrap();
    assert!(thumb_from_rendered(&small, ImageKind::Png).is_ok());
    assert!(matches!(thumb_from_rendered(&small, ImageKind::Jpeg), Err(ThumbError::Encode(_))));
    assert!(matches!(thumb_from_rendered(&small, ImageKind::Gif), Err(ThumbError::Encode(_))));
}

#[test]
fn encoded_bytes_become_the_thumbnail() {
    let thumb = thumb_from_encoded(ImageKind::Gif, 160, 100, Ok(vec![1, 2, 3])).unwrap();
    assert_eq!((thumb.kind, thumb.width, thumb.height), (ImageKind::Gif, 160, 100));
    assert_eq!(thumb.bytes, vec![1, 2, 3]);
}

#[test]
fn unencoded_picture_is_an_encode_error() {
    match thumb_from_encoded(ImageKind::Jpeg, 160, 100, Err(codec_error())) {
        Err(ThumbError::Encode(text)) => assert_eq!(text, codec_error().to_string()),
        other => panic!("unexpected outcome {other:?}"),
    }
}

#[test]
fn errors_describe_themselves() {
    assert_eq!(ThumbError::UnsupportedFormat.message(), "unsupported picture format");
    assert_eq!(ThumbError::TooLarge.message(), "picture too large to resize");
    assert_eq!(ThumbError::Decode("bad".to_string()).message(), "cannot decode: bad");
    assert_eq!(ThumbError::Encode("worse".to_string()).message(), "cannot encode: worse");
    assert_eq!(ThumbError::Io("gone".to_string()).message(), "cannot read or write: gone");
    let outcome = create_thumb(&[], "a.png", &target(100, 100));
    let text = outcome.unwrap_err().message();
    assert!(text.starts_with("cannot decode: ") && text.len() > "cannot decode: ".len());
}
