//! Fixed interaction thresholds, in whole canvas units.

use vstd::prelude::*;

verus! {

/// Largest magnitude a canvas coordinate may have.
pub const COORDINATE_LIMIT: i64 = 0x10_0000_0000_0000;

/// Distance within which the cursor grabs an edge of the bounds.
pub const BOUNDS_SELECT_THRESHOLD: i64 = 5;

/// Width of the band around the bounds in which the cursor rotates them.
pub const BOUNDS_ROTATE_THRESHOLD: i64 = 20;

/// Capture radius of a snap target, per axis.
pub const SNAP_TOLERANCE: i64 = 3;

/// Distance within which a click picks a manipulator point.
pub const SELECTION_THRESHOLD: i64 = 10;

/// A drag no longer than this is a click, and draws nothing.
pub const DRAG_THRESHOLD: i64 = 1;

/// Increment, in degrees, to which a drawn line's angle snaps.
pub const LINE_ROTATE_SNAP_ANGLE: i64 = 15;

/// Angles are whole numbers of this fraction of a degree.
pub const ANGLE_UNITS_PER_DEGREE: i64 = 1_000_000;

/// The snap increment of a drawn line's angle, in angle units.
pub const LINE_ROTATE_SNAP_STEP: i64 = 15_000_000;

/// Side length of a transform handle.
pub const VECTOR_MANIPULATOR_ANCHOR_MARKER_SIZE: i64 = 5;

/// Messages one call of the dispatcher may process before it gives up.
pub const DISPATCH_ITERATION_LIMIT: u64 = 0x10_0000;

} // verus!
