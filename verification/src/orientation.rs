//! The orientation that a camera recorded, and the turn that corrects it.
//!
//! The orientation is a code from 1 to 8. It is read from the Exif data of a
//! file; a file without readable Exif data, without the tag, or with a value
//! outside that range counts as upright (code 1). Reading never fails.

use vstd::prelude::*;

verus! {

/// The code of an upright picture, and of every picture whose orientation
/// cannot be read.
pub const UPRIGHT: u32 = 1;

/// A turn applied to a picture before it is cropped.
#[derive(Clone, Copy, Debug, PartialEq, Eq, Structural)]
pub enum Rotation {
    /// The picture is left as it is.
    NoTurn,
    /// A quarter turn clockwise.
    QuarterTurn,
    /// A half turn.
    HalfTurn,
}

/// The orientation code that a raw tag value stands for: the value itself
/// from 1 to 8, and 1 for any other value and for a missing one.
pub open spec fn orientation_code(tag: Option<u32>) -> u32 {
    match tag {
        Some(value) => if 1 <= value <= 8 {
            value
        } else {
            UPRIGHT
        },
        None => UPRIGHT,
    }
}

/// The turn applied for an orientation code.
///
/// Code 3 is corrected by a half turn. Codes 6 and 8 are both answered with a
/// quarter turn clockwise, although a picture of code 8 would be upright
/// after a quarter turn the other way. The mirrored codes 2, 4, 5 and 7 are
/// not corrected, and neither is any value outside 1 to 8.
pub open spec fn rotation_of(code: u32) -> Rotation {
    if code == 3 {
        Rotation::HalfTurn
    } else if code == 6 || code == 8 {
        Rotation::QuarterTurn
    } else {
        Rotation::NoTurn
    }
}

/// The unsigned integer at position 0 of the `Orientation` field of the
/// primary image, as the `exif` crate reads it from the bytes of a picture
/// file; `None` where the crate finds no Exif data in the bytes, no such
/// field in the data, or no unsigned integer in the field.
pub uninterp spec fn exif_orientation_tag(data: Seq<u8>) -> Option<u32>;

/// Calls `exif::Reader::read_from_container` on the bytes, then
/// `Exif::get_field` for `Tag::Orientation` in `In::PRIMARY`, then
/// `Value::get_uint(0)` on the field's value. An error of the first call
/// and a missing field both give `None`. The result depends on the bytes
/// alone.
#[verifier::external_body]
fn read_orientation_tag(data: &[u8]) -> (tag: Option<u32>)
    ensures
        tag == exif_orientation_tag(data@),
{
    let mut reader = std::io::Cursor::new(data);
    match exif::Reader::new().read_from_container(&mut reader) {
        Ok(meta) => match meta.get_field(exif::Tag::Orientation, exif::In::PRIMARY) {
            Some(field) => field.value.get_uint(0),
            None => None,
        },
        Err(_) => None,
    }
}

/// Turns a raw tag value into an orientation code.
pub fn normalize(tag: Option<u32>) -> (code: u32)
    ensures
        code == orientation_code(tag),
        1 <= code <= 8,
{
    match tag {
        Some(value) => if 1 <= value && value <= 8 {
            value
        } else {
            UPRIGHT
        },
        None => UPRIGHT,
    }
}

/// The turn applied for an orientation code.
pub fn rotation_for(code: u32) -> (rotation: Rotation)
    ensures
        rotation == rotation_of(code),
{
    if code == 3 {
        Rotation::HalfTurn
    } else if code == 6 || code == 8 {
        Rotation::QuarterTurn
    } else {
        Rotation::NoTurn
    }
}

/// Reads the orientation code from the bytes of a picture file.
///
/// The result is the code that the file's orientation tag stands for, and 1
/// where the tag cannot be read.
pub fn resolve(data: &[u8]) -> (code: u32)
    ensures
        code == orientation_code(exif_orientation_tag(data@)),
        1 <= code <= 8,
        exif_orientation_tag(data@) is None ==> code == UPRIGHT,
{
    normalize(read_orientation_tag(data))
}

/// A picture whose orientation cannot be recovered is not turned: a missing
/// tag and a value outside 1 to 8 both stand for code 1, and code 1 asks for
/// no turn.
pub proof fn lemma_unreadable_orientation_means_no_turn(tag: Option<u32>)
    requires
        tag matches Some(value) ==> !(1 <= value <= 8),
    ensures
        orientation_code(tag) == UPRIGHT,
        rotation_of(orientation_code(tag)) == Rotation::NoTurn,
{
}

} // verus!
