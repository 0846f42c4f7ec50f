//! The size that every thumbnail of a batch is given.

use vstd::prelude::*;

verus! {

/// The smallest side a thumbnail may have, in pixels.
pub const MIN_DIMENSION: u32 = 100;

/// The largest side a thumbnail may have, in pixels.
pub const MAX_DIMENSION: u32 = 200;

/// `side` lies in the accepted range.
pub open spec fn dimension_in_range(side: u32) -> bool {
    MIN_DIMENSION <= side <= MAX_DIMENSION
}

/// A width and a height that a thumbnail may have: both in range, and the
/// width at least the height.
pub open spec fn valid_dimensions(width: u32, height: u32) -> bool {
    &&& dimension_in_range(width)
    &&& dimension_in_range(height)
    &&& height <= width
}

/// The target size of a batch. A value of this type is always valid: it is
/// checked once, when it is made, and cannot be changed afterwards.
#[derive(Clone, Copy, Debug)]
pub struct ThumbnailSpec {
    width: u32,
    height: u32,
}

impl ThumbnailSpec {
    /// The target width in pixels.
    pub closed spec fn target_width(self) -> u32 {
        self.width
    }

    /// The target height in pixels.
    pub closed spec fn target_height(self) -> u32 {
        self.height
    }

    /// The validity that every executable value has.
    pub open spec fn wf(self) -> bool {
        valid_dimensions(self.target_width(), self.target_height())
    }

    #[verifier::type_invariant]
    closed spec fn holds(self) -> bool {
        valid_dimensions(self.width, self.height)
    }

    /// Makes a target size, or returns `None` where the dimensions are not
    /// valid.
    pub fn new(width: u32, height: u32) -> (r: Option<ThumbnailSpec>)
        ensures
            r is Some <==> valid_dimensions(width, height),
            r matches Some(spec) ==> spec.target_width() == width && spec.target_height() == height
                && spec.wf(),
    {
        if width < MIN_DIMENSION || width > MAX_DIMENSION {
            None
        } else if height < MIN_DIMENSION || height > MAX_DIMENSION {
            None
        } else if height > width {
            None
        } else {
            Some(ThumbnailSpec { width, height })
        }
    }

    /// The target width in pixels.
    pub fn width(&self) -> (w: u32)
        ensures
            w == self.target_width(),
            self.wf(),
    {
        proof {
            use_type_invariant(self);
        }
        self.width
    }

    /// The target height in pixels.
    pub fn height(&self) -> (h: u32)
        ensures
            h == self.target_height(),
            self.wf(),
    {
        proof {
            use_type_invariant(self);
        }
        self.height
    }
}

} // verus!
