//! A playback engine for discrete-frame (sprite / keyframe) 2D animations.
//!
//! The crate is split into two halves:
//!
//! - [`asset`] holds the immutable clip data model: ordered keyframes, their
//!   timestamps, and the total duration of a clip, plus named clip sets.
//! - [`animation`] holds the playback state machine: a cursor that is advanced
//!   by per-tick deltas under looping, reversal and speed modifiers, and the
//!   player facade that exposes the control surface.
//!
//! All times are integer tick counts at a resolution the caller chooses (for
//! example microseconds), so long runs accumulate no rounding drift. Playback
//! speed is a fixed-point scalar with [`animation::SPEED_SCALE`] as the unit.

use vstd::prelude::*;

pub mod animation;
pub mod asset;
pub mod prelude;

verus! {

/// Marker for the full 2D animation feature set: clip loading together with
/// animation playing. An engine adapter outside this crate keys its setup on
/// this type; the crate itself attaches no behaviour to it.
pub struct Animation2DPlugin;

} // verus!
