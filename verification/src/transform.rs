//! Rotation and flip state for documents.
//!
//! A document's orientation is a quarter-turn rotation together with two
//! independent flip toggles. Rotation requests are absolute: the engine
//! derives the minimal physical turn from the difference between the
//! requested and the tracked rotation.

use vstd::prelude::*;

verus! {

/// Rotation state for documents: one of the four quarter turns.
#[derive(Debug, Clone, Copy, PartialEq, Eq, Structural)]
pub enum Rotation {
    /// No rotation (0 degrees).
    Cw0,
    /// 90 degrees clockwise.
    Cw90,
    /// 180 degrees.
    Cw180,
    /// 270 degrees clockwise (90 counter-clockwise).
    Cw270,
}

impl Rotation {
    /// Degrees of this rotation as a mathematical integer.
    pub open spec fn spec_degrees(self) -> int {
        match self {
            Rotation::Cw0 => 0,
            Rotation::Cw90 => 90,
            Rotation::Cw180 => 180,
            Rotation::Cw270 => 270,
        }
    }

    /// The rotation one quarter turn clockwise from `self`.
    pub open spec fn spec_rotate_cw(self) -> Rotation {
        match self {
            Rotation::Cw0 => Rotation::Cw90,
            Rotation::Cw90 => Rotation::Cw180,
            Rotation::Cw180 => Rotation::Cw270,
            Rotation::Cw270 => Rotation::Cw0,
        }
    }

    /// The rotation one quarter turn counter-clockwise from `self`.
    pub open spec fn spec_rotate_ccw(self) -> Rotation {
        match self {
            Rotation::Cw0 => Rotation::Cw270,
            Rotation::Cw270 => Rotation::Cw180,
            Rotation::Cw180 => Rotation::Cw90,
            Rotation::Cw90 => Rotation::Cw0,
        }
    }

    /// Rotate clockwise by 90 degrees.
    #[must_use]
    pub fn rotate_cw(self) -> (r: Rotation)
        ensures
            r == self.spec_rotate_cw(),
            r.spec_degrees() == (self.spec_degrees() + 90) % 360,
    {
        match self {
            Rotation::Cw0 => Rotation::Cw90,
            Rotation::Cw90 => Rotation::Cw180,
            Rotation::Cw180 => Rotation::Cw270,
            Rotation::Cw270 => Rotation::Cw0,
        }
    }

    /// Rotate counter-clockwise by 90 degrees.
    #[must_use]
    pub fn rotate_ccw(self) -> (r: Rotation)
        ensures
            r == self.spec_rotate_ccw(),
            r.spec_degrees() == (self.spec_degrees() + 270) % 360,
    {
        match self {
            Rotation::Cw0 => Rotation::Cw270,
            Rotation::Cw270 => Rotation::Cw180,
            Rotation::Cw180 => Rotation::Cw90,
            Rotation::Cw90 => Rotation::Cw0,
        }
    }

    /// Convert to degrees (0, 90, 180, 270).
    #[must_use]
    pub fn to_degrees(self) -> (d: i16)
        ensures
            d as int == self.spec_degrees(),
    {
        match self {
            Rotation::Cw0 => 0,
            Rotation::Cw90 => 90,
            Rotation::Cw180 => 180,
            Rotation::Cw270 => 270,
        }
    }
}

impl Default for Rotation {
    /// The default orientation is unrotated.
    fn default() -> (r: Rotation)
        ensures
            r == Rotation::Cw0,
    {
        Rotation::Cw0
    }
}

/// Four clockwise quarter turns return to the starting rotation.
pub proof fn lemma_rotate_cw_four_times_identity(r: Rotation)
    ensures
        r.spec_rotate_cw().spec_rotate_cw().spec_rotate_cw().spec_rotate_cw() == r,
{
}

/// A counter-clockwise turn undoes a clockwise turn and vice versa.
pub proof fn lemma_rotate_ccw_inverts_cw(r: Rotation)
    ensures
        r.spec_rotate_cw().spec_rotate_ccw() == r,
        r.spec_rotate_ccw().spec_rotate_cw() == r,
{
}

/// Flip direction for documents.
#[derive(Debug, Clone, Copy, PartialEq, Eq, Structural)]
pub enum FlipDirection {
    /// Flip along the vertical axis (mirror left-right).
    Horizontal,
    /// Flip along the horizontal axis (mirror top-bottom).
    Vertical,
}

/// Current transformation state of a document.
#[derive(Debug, Clone, Copy, PartialEq, Eq, Structural)]
pub struct TransformState {
    /// Current rotation.
    pub rotation: Rotation,
    /// Whether flipped horizontally.
    pub flip_h: bool,
    /// Whether flipped vertically.
    pub flip_v: bool,
}

impl TransformState {
    /// The state after toggling the given flip axis.
    pub open spec fn spec_flipped(self, direction: FlipDirection) -> TransformState {
        match direction {
            FlipDirection::Horizontal => TransformState { flip_h: !self.flip_h, ..self },
            FlipDirection::Vertical => TransformState { flip_v: !self.flip_v, ..self },
        }
    }

    /// Whether this rotation swaps width and height relative to the native
    /// orientation.
    pub open spec fn spec_swaps_axes(self) -> bool {
        self.rotation == Rotation::Cw90 || self.rotation == Rotation::Cw270
    }
}

impl Default for TransformState {
    /// The default state: no rotation, no flips.
    fn default() -> (t: TransformState)
        ensures
            t == (TransformState { rotation: Rotation::Cw0, flip_h: false, flip_v: false }),
    {
        TransformState { rotation: Rotation::Cw0, flip_h: false, flip_v: false }
    }
}

/// Toggling the same flip axis twice returns to the starting state.
pub proof fn lemma_flip_state_twice_identity(t: TransformState, d: FlipDirection)
    ensures
        t.spec_flipped(d).spec_flipped(d) == t,
{
}

/// The number of clockwise quarter turns that take the tracked rotation to
/// the requested one: the signed degree difference reduced modulo 360, then
/// divided by 90. Always one of 0, 1, 2, 3.
pub open spec fn spec_turns_between(current: Rotation, target: Rotation) -> int {
    ((target.spec_degrees() - current.spec_degrees() + 360) % 360) / 90
}

/// Compute the degree difference to physically apply when the tracked
/// rotation is `current` and the requested absolute rotation is `target`.
/// The result is one of 0, 90, 180 or 270: exactly the turn that maps the
/// current orientation onto the target.
pub fn rotation_diff_degrees(current: Rotation, target: Rotation) -> (d: u16)
    ensures
        d as int == 90 * spec_turns_between(current, target),
        d == 0 || d == 90 || d == 180 || d == 270,
        d == 0 <==> current == target,
{
    let cur: i32 = current.to_degrees() as i32;
    let tgt: i32 = target.to_degrees() as i32;
    let diff: i32 = (tgt - cur + 360) % 360;
    diff as u16
}

} // verus!
