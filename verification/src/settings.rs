//! The fixed settings of detection and annotation.

use vstd::prelude::*;

verus! {

/// Distance in pixels between two positions of the detection window, in
/// both directions.
pub const WINDOW_STRIDE: i32 = 8;

/// Pixels added around the frame before detection, in both directions.
pub const WINDOW_PADDING: i32 = 0;

/// The step of the scale pyramid in hundredths: each level is smaller than
/// the one before by the factor 1.05.
pub const SCALE_STEP_HUNDREDTHS: u32 = 105;

/// The score above which a window counts as a detection.
pub const HIT_THRESHOLD: i32 = 0;

/// The number of overlapping windows that make one reported box.
pub const GROUP_THRESHOLD: i32 = 2;

/// Width in pixels of the outline drawn around a detection.
pub const OUTLINE_THICKNESS: i32 = 2;

/// The outline's color, as blue, green and red.
pub const OUTLINE_BLUE: u8 = 0;

pub const OUTLINE_GREEN: u8 = 255;

pub const OUTLINE_RED: u8 = 0;

} // verus!
