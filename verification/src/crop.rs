//! The centred crop that brings a picture to a target aspect ratio.
//!
//! All arithmetic is exact: the two ratios are compared by cross
//! multiplication and the reduced side is the floor of the exact quotient, so
//! the plan never depends on floating-point rounding.

use vstd::prelude::*;

verus! {

/// A rectangle in the pixel space of a source picture.
#[derive(Clone, Copy, Debug, PartialEq, Eq, Structural)]
pub struct CropRectangle {
    /// The column of the source in which the rectangle starts.
    pub x_offset: u32,
    /// The row of the source in which the rectangle starts.
    pub y_offset: u32,
    /// The number of columns kept.
    pub width: u32,
    /// The number of rows kept.
    pub height: u32,
}

impl CropRectangle {
    /// The rectangle lies inside a picture of the given size.
    pub open spec fn within(self, source_width: int, source_height: int) -> bool {
        &&& self.x_offset + self.width <= source_width
        &&& self.y_offset + self.height <= source_height
    }

    /// The rectangle is a centred cut of a picture of the given size: it
    /// keeps one side whole and takes equal margins from both ends of the
    /// other, the margin after it being the larger by one pixel where their sum
    /// is odd.
    pub open spec fn centred(self, source_width: int, source_height: int) -> bool {
        let right = source_width - self.x_offset - self.width;
        let below = source_height - self.y_offset - self.height;
        &&& self.x_offset <= right <= self.x_offset + 1
        &&& self.y_offset <= below <= self.y_offset + 1
        &&& self.width == source_width || self.height == source_height
    }

    /// The rectangle has the target ratio up to the rounding of one side:
    /// one of its sides, scaled by the target ratio, misses the other side by
    /// less than one pixel.
    pub open spec fn matches_ratio(self, target_width: int, target_height: int) -> bool {
        ||| self.width * target_height <= self.height * target_width < (self.width + 1)
            * target_height
        ||| self.height * target_width <= self.width * target_height < (self.height + 1)
            * target_width
    }
}

/// The source is relatively wider than the target: `sw / sh > tw / th`,
/// compared without division.
pub open spec fn wider_than_target(
    source_width: int,
    source_height: int,
    target_width: int,
    target_height: int,
) -> bool {
    source_width * target_height > target_width * source_height
}

/// The crop planned for a source of `source_width` by `source_height` pixels
/// and a target of `target_width` by `target_height`.
///
/// A source that is relatively wider than the target keeps its full height
/// and loses equal margins left and right. Any other source keeps its full
/// width and loses equal margins above and below. The reduced side is
/// rounded down, and so is the margin.
pub open spec fn crop_plan(
    source_width: u32,
    source_height: u32,
    target_width: u32,
    target_height: u32,
) -> CropRectangle
    recommends
        target_width > 0,
        target_height > 0,
{
    if wider_than_target(
        source_width as int,
        source_height as int,
        target_width as int,
        target_height as int,
    ) {
        let crop_width = (source_height * target_width) / (target_height as int);
        CropRectangle {
            x_offset: ((source_width - crop_width) / 2) as u32,
            y_offset: 0,
            width: crop_width as u32,
            height: source_height,
        }
    } else {
        let crop_height = (source_width * target_height) / (target_width as int);
        CropRectangle {
            x_offset: 0,
            y_offset: ((source_height - crop_height) / 2) as u32,
            width: source_width,
            height: crop_height as u32,
        }
    }
}

/// Plans the centred crop of a source picture for a target size.
///
/// The result is `crop_plan` of the arguments. It lies inside the source, it
/// has the target ratio up to the rounding of its reduced side, and a source
/// that already has the target ratio is kept whole.
pub fn plan(source_width: u32, source_height: u32, target_width: u32, target_height: u32) -> (rect:
    CropRectangle)
    requires
        target_width > 0,
        target_height > 0,
    ensures
        rect == crop_plan(source_width, source_height, target_width, target_height),
        rect.within(source_width as int, source_height as int),
        rect.matches_ratio(target_width as int, target_height as int),
        rect.centred(source_width as int, source_height as int),
        source_width * target_height == target_width * source_height ==> rect == (CropRectangle {
            x_offset: 0,
            y_offset: 0,
            width: source_width,
            height: source_height,
        }),
{
    proof {
        lemma_plan_within_source(source_width, source_height, target_width, target_height);
        lemma_plan_matches_ratio(source_width, source_height, target_width, target_height);
        lemma_plan_is_centred(source_width, source_height, target_width, target_height);
        lemma_same_ratio_keeps_source(source_width, source_height, target_width, target_height);
    }
    let sw: u64 = source_width as u64;
    let sh: u64 = source_height as u64;
    let tw: u64 = target_width as u64;
    let th: u64 = target_height as u64;
    assert(sw * th <= 0xffff_ffff * 0xffff_ffff) by (nonlinear_arith)
        requires
            sw <= 0xffff_ffff,
            th <= 0xffff_ffff,
    ;
    assert(tw * sh <= 0xffff_ffff * 0xffff_ffff) by (nonlinear_arith)
        requires
            tw <= 0xffff_ffff,
            sh <= 0xffff_ffff,
    ;
    assert(sh * tw == tw * sh) by (nonlinear_arith);
    if sw * th > tw * sh {
        let crop_width: u64 = (sh * tw) / th;
        let x_offset: u64 = (sw - crop_width) / 2;
        CropRectangle {
            x_offset: x_offset as u32,
            y_offset: 0,
            width: crop_width as u32,
            height: source_height,
        }
    } else {
        let crop_height: u64 = (sw * th) / tw;
        let y_offset: u64 = (sh - crop_height) / 2;
        CropRectangle {
            x_offset: 0,
            y_offset: y_offset as u32,
            width: source_width,
            height: crop_height as u32,
        }
    }
}

/// The floor of `a / b` for a positive `b`: `q * b <= a < (q + 1) * b`.
proof fn lemma_floor_bounds(a: int, b: int)
    requires
        0 <= a,
        0 < b,
    ensures
        0 <= a / b,
        (a / b) * b <= a < (a / b + 1) * b,
{
    vstd::arithmetic::div_mod::lemma_fundamental_div_mod(a, b);
    vstd::arithmetic::div_mod::lemma_mod_bound(a, b);
    vstd::arithmetic::div_mod::lemma_div_pos_is_pos(a, b);
    assert((a / b + 1) * b == (a / b) * b + b) by (nonlinear_arith);
    assert(b * (a / b) == (a / b) * b) by (nonlinear_arith);
}

/// A quotient is at most what its dividend allows: if `a <= c * b` then
/// `a / b <= c`.
proof fn lemma_floor_below(a: int, b: int, c: int)
    requires
        0 <= a,
        0 < b,
        a <= c * b,
    ensures
        a / b <= c,
{
    lemma_floor_bounds(a, b);
    assert(a / b <= c) by (nonlinear_arith)
        requires
            (a / b) * b <= a,
            a <= c * b,
            0 < b,
    ;
}

/// Every planned crop lies inside its source.
pub proof fn lemma_plan_within_source(
    source_width: u32,
    source_height: u32,
    target_width: u32,
    target_height: u32,
)
    requires
        target_width > 0,
        target_height > 0,
    ensures
        crop_plan(source_width, source_height, target_width, target_height).within(
            source_width as int,
            source_height as int,
        ),
        wider_than_target(
            source_width as int,
            source_height as int,
            target_width as int,
            target_height as int,
        ) ==> 0 <= (source_height * target_width) / (target_height as int) <= source_width,
        !wider_than_target(
            source_width as int,
            source_height as int,
            target_width as int,
            target_height as int,
        ) ==> 0 <= (source_width * target_height) / (target_width as int) <= source_height,
{
    let sw = source_width as int;
    let sh = source_height as int;
    let tw = target_width as int;
    let th = target_height as int;
    assert(0 <= sh * tw && 0 <= sw * th && sh * tw == tw * sh) by (nonlinear_arith)
        requires
            0 <= sw,
            0 <= sh,
            0 <= tw,
            0 <= th,
    ;
    if wider_than_target(sw, sh, tw, th) {
        lemma_floor_bounds(sh * tw, th);
        lemma_floor_below(sh * tw, th, sw);
    } else {
        lemma_floor_bounds(sw * th, tw);
        lemma_floor_below(sw * th, tw, sh);
    }
}

/// Every planned crop has the target ratio, up to the rounding of the side
/// that was reduced.
pub proof fn lemma_plan_matches_ratio(
    source_width: u32,
    source_height: u32,
    target_width: u32,
    target_height: u32,
)
    requires
        target_width > 0,
        target_height > 0,
    ensures
        crop_plan(source_width, source_height, target_width, target_height).matches_ratio(
            target_width as int,
            target_height as int,
        ),
{
    let sw = source_width as int;
    let sh = source_height as int;
    let tw = target_width as int;
    let th = target_height as int;
    lemma_plan_within_source(source_width, source_height, target_width, target_height);
    assert(0 <= sh * tw && 0 <= sw * th) by (nonlinear_arith)
        requires
            0 <= sw,
            0 <= sh,
            0 <= tw,
            0 <= th,
    ;
    if wider_than_target(sw, sh, tw, th) {
        lemma_floor_bounds(sh * tw, th);
    } else {
        lemma_floor_bounds(sw * th, tw);
    }
}

/// Every planned crop is centred in its source.
pub proof fn lemma_plan_is_centred(
    source_width: u32,
    source_height: u32,
    target_width: u32,
    target_height: u32,
)
    requires
        target_width > 0,
        target_height > 0,
    ensures
        crop_plan(source_width, source_height, target_width, target_height).centred(
            source_width as int,
            source_height as int,
        ),
{
    lemma_plan_within_source(source_width, source_height, target_width, target_height);
}

/// A source that has exactly the target ratio is kept whole.
pub proof fn lemma_same_ratio_keeps_source(
    source_width: u32,
    source_height: u32,
    target_width: u32,
    target_height: u32,
)
    requires
        target_width > 0,
        target_height > 0,
    ensures
        source_width * target_height == target_width * source_height ==> crop_plan(
            source_width,
            source_height,
            target_width,
            target_height,
        ) == (CropRectangle {
            x_offset: 0,
            y_offset: 0,
            width: source_width,
            height: source_height,
        }),
{
    let sw = source_width as int;
    let sh = source_height as int;
    let tw = target_width as int;
    let th = target_height as int;
    if sw * th == tw * sh {
        assert(sw * th == sh * tw) by (nonlinear_arith)
            requires
                sw * th == tw * sh,
        ;
        vstd::arithmetic::div_mod::lemma_div_multiples_vanish(sh, tw);
    }
}

} // verus!
