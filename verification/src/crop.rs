//! Crop-rectangle geometry for captured instrument windows.
//!
//! A crop is a sub-region of a captured frame, expressed as origin plus size;
//! the all-zero rectangle is the sentinel for "no crop, use the full frame".
//! Square-framed instrument kinds get a centered square; the primary
//! control-display-unit kind is fitted to a fixed bezel aspect ratio.

use vstd::prelude::*;

verus! {

use crate::strutil::str_eq;

/// The bezel height:width proportion of the control-display unit, in
/// thousandths: the cropped height is `width * 866 / 1000`.
pub const CDU_ASPECT_MILLI: u32 = 866;

/// One crop region: origin `(x, y)` and size `(width, height)` within a
/// captured frame. All zero means "no crop".
#[derive(Clone, Copy, PartialEq, Eq, Structural, Debug)]
pub struct CropRect {
    pub x: i32,
    pub y: i32,
    pub width: i32,
    pub height: i32,
}

impl CropRect {
    /// The sentinel value: no crop, use the full frame.
    pub open spec fn spec_zero() -> CropRect {
        CropRect { x: 0, y: 0, width: 0, height: 0 }
    }

    /// True when every component is zero, the "no crop" sentinel.
    pub open spec fn spec_is_zero(self) -> bool {
        self == CropRect::spec_zero()
    }

    /// The size invariant against a source frame of `w` by `h` pixels:
    /// the crop fits inside the source in both dimensions.
    pub open spec fn fits(self, w: int, h: int) -> bool {
        &&& 0 <= self.x
        &&& 0 <= self.y
        &&& 0 <= self.width
        &&& 0 <= self.height
        &&& self.x + self.width <= w
        &&& self.y + self.height <= h
    }

    /// Builds the sentinel value.
    pub fn zero() -> (r: CropRect)
        ensures
            r == CropRect::spec_zero(),
    {
        CropRect { x: 0, y: 0, width: 0, height: 0 }
    }

    /// Tells whether this is the "no crop" sentinel.
    pub fn is_zero(&self) -> (r: bool)
        ensures
            r == self.spec_is_zero(),
    {
        self.x == 0 && self.y == 0 && self.width == 0 && self.height == 0
    }
}

/// What the centered square crop of a `w` by `h` frame is: the longer
/// dimension trimmed symmetrically down to the shorter one; an already
/// square frame keeps its full size.
pub open spec fn square_crop_spec(w: int, h: int) -> CropRect {
    if w == h {
        CropRect { x: 0, y: 0, width: w as i32, height: h as i32 }
    } else if w > h {
        CropRect { x: (((w - h) / 2) as i32), y: 0, width: h as i32, height: h as i32 }
    } else {
        CropRect { x: 0, y: (((h - w) / 2) as i32), width: w as i32, height: w as i32 }
    }
}

/// Centered square crop for square-framed instrument kinds: exactly
/// `square_crop_spec`, which always fits the source and has equal sides.
pub fn find_crop_for_instruments(width: u32, height: u32) -> (r: CropRect)
    requires
        width <= i32::MAX,
        height <= i32::MAX,
    ensures
        r == square_crop_spec(width as int, height as int),
        r.fits(width as int, height as int),
        r.width == r.height,
{
    if width == height {
        CropRect { x: 0, y: 0, width: width as i32, height: height as i32 }
    } else if width > height {
        let gap: u32 = width - height;
        CropRect { x: (gap / 2) as i32, y: 0, width: height as i32, height: height as i32 }
    } else {
        let gap: u32 = height - width;
        CropRect { x: 0, y: (gap / 2) as i32, width: width as i32, height: width as i32 }
    }
}

/// The crop for one instrument kind: the control-display unit is fitted to
/// its fixed bezel ratio, every other kind gets a centered square. The
/// result always fits inside the source frame, and for the square kinds its
/// width equals its height.
pub fn find_crop_for_instrument(kind: &str, width: u32, height: u32) -> (r: CropRect)
    requires
        width <= i32::MAX,
        height <= i32::MAX,
    ensures
        r.fits(width as int, height as int),
        kind@ != "FMS"@ ==> r == square_crop_spec(width as int, height as int) && r.width
            == r.height,
        kind@ == "FMS"@ ==> r == cdu_crop_spec(width as int, height as int),
{
    if str_eq(kind, crate::locator::mcdu_title()) {
        aspect_crop(CDU_ASPECT_MILLI, width, height)
    } else {
        find_crop_for_instruments(width, height)
    }
}

/// What a crop fitted to an aspect ratio of `milli` thousandths is: height
/// trimmed to `width * milli / 1000` when the source is too tall, width
/// trimmed to `height * 1000 / milli` when it is too wide, centered either
/// way.
pub open spec fn aspect_crop_spec(milli: int, w: int, h: int) -> CropRect {
    if w * milli <= h * 1000 {
        CropRect {
            x: 0,
            y: ((h - (w * milli) / 1000) / 2) as i32,
            width: w as i32,
            height: ((w * milli) / 1000) as i32,
        }
    } else {
        CropRect {
            x: ((w - (h * 1000) / milli) / 2) as i32,
            y: 0,
            width: ((h * 1000) / milli) as i32,
            height: h as i32,
        }
    }
}

/// What the control-display-unit crop is: the aspect crop at the unit's
/// fixed bezel ratio.
pub open spec fn cdu_crop_spec(w: int, h: int) -> CropRect {
    aspect_crop_spec(866, w, h)
}

/// Crop fitted to a fixed aspect ratio given in thousandths of the width:
/// the target height is `width * aspect_milli / 1000`. Whichever source
/// dimension is oversized relative to that ratio is trimmed symmetrically.
pub fn aspect_crop(aspect_milli: u32, width: u32, height: u32) -> (r: CropRect)
    requires
        width <= i32::MAX,
        height <= i32::MAX,
        aspect_milli <= 1000,
    ensures
        r.fits(width as int, height as int),
        r == aspect_crop_spec(aspect_milli as int, width as int, height as int),
{
    let w: u64 = width as u64;
    let h: u64 = height as u64;
    let r_milli: u64 = aspect_milli as u64;
    proof {
        assert(w * r_milli <= 0x7fffffffu64 * 1000 && h * 1000 <= 0x7fffffffu64 * 1000)
            by (nonlinear_arith)
            requires
                w <= 0x7fffffffu64,
                h <= 0x7fffffffu64,
                r_milli <= 1000,
        ;
    }
    if w * r_milli <= h * 1000 {
        // The source is taller than the target ratio: keep the width, trim
        // the height to `width * ratio` and center vertically.
        let crop_h: u64 = (w * r_milli) / 1000;
        proof {
            vstd::arithmetic::div_mod::lemma_div_is_ordered(
                (w * r_milli) as int,
                (h * 1000) as int,
                1000,
            );
            vstd::arithmetic::div_mod::lemma_div_multiples_vanish(h as int, 1000);
        }
        let gap: u64 = h - crop_h;
        CropRect { x: 0, y: (gap / 2) as i32, width: w as i32, height: crop_h as i32 }
    } else {
        // The source is wider than the target ratio: keep the height, trim
        // the width to `height / ratio` and center horizontally.
        let crop_w: u64 = (h * 1000) / r_milli;
        proof {
            vstd::arithmetic::div_mod::lemma_div_is_ordered(
                (h * 1000) as int,
                (w * r_milli) as int,
                r_milli as int,
            );
            vstd::arithmetic::div_mod::lemma_div_multiples_vanish(w as int, r_milli as int);
        }
        let gap: u64 = w - crop_w;
        CropRect { x: (gap / 2) as i32, y: 0, width: crop_w as i32, height: h as i32 }
    }
}

} // verus!

