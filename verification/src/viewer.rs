//! Zoom and pan viewport controller with external state control.
//!
//! The controller is a pointer/wheel-driven state machine over a scale and
//! a pan offset. Scales are integers in thousandths (1000 shows the image
//! at its fitted base size); positions, sizes and offsets are integer
//! pixels. A wheel step multiplies or divides the scale by
//! `1 + scale_step`, clamps it into `[min_scale, max_scale]`, and moves the
//! offset so that the point under the cursor stays visually stationary. A
//! drag gesture records the press position and pans relative to it. Every
//! offset the controller produces is clamped so the scaled image can never
//! be panned entirely out of the viewport: per axis its magnitude never
//! exceeds `max(0, (scaled_size - viewport_size) / 2)`, and an image no
//! larger than the viewport stays centred.

use vstd::prelude::*;

verus! {

/// Upper bound on scales, in thousandths.
pub const MAX_SCALE_LIMIT: u32 = 1000000;

/// Upper bound on image and viewport dimensions, in pixels.
pub const MAX_IMAGE_DIM: u32 = 0x20000000;

/// Upper bound on the magnitude of screen positions, in pixels.
pub const MAX_VIEW_POS: i64 = 0x10000000000;

/// Tolerance for scale comparisons when reconciling external state, in
/// thousandths.
pub const SCALE_EPSILON: u32 = 0;

/// Tolerance for offset comparisons when reconciling external state, in
/// pixels.
pub const OFFSET_EPSILON: i64 = 0;

/// Truncating division by a positive divisor (rounds toward zero), the
/// semantics of the machine division used here.
pub open spec fn spec_div_trunc(a: int, b: int) -> int {
    if a >= 0 {
        a / b
    } else {
        -((-a) / b)
    }
}

/// A side of the scaled image: the base size scaled by thousandths,
/// truncating.
pub open spec fn spec_scaled_len(base: int, scale_milli: int) -> int {
    base * scale_milli / 1000
}

/// Maximum allowed offset magnitude on one axis: half the amount by which
/// the scaled image exceeds the viewport, and zero when it does not exceed
/// it.
pub open spec fn spec_max_offset(scaled: int, viewport: int) -> int {
    if scaled > viewport {
        (scaled - viewport) / 2
    } else {
        0
    }
}

/// A value clamped into `[-m, m]`.
pub open spec fn spec_clamp_mag(v: int, m: int) -> int {
    if v < -m {
        -m
    } else if v > m {
        m
    } else {
        v
    }
}

/// The scale one wheel step away: multiplied by `1 + step` when zooming
/// in, divided by it when zooming out, then clamped into
/// `[min_scale, max_scale]`; everything in thousandths, truncating.
pub open spec fn spec_wheel_scale(scale: int, step: int, zoom_in: bool, min: int, max: int) -> int {
    let raw = if zoom_in {
        scale * (1000 + step) / 1000
    } else {
        scale * 1000 / (1000 + step)
    };
    if raw < min {
        min
    } else if raw > max {
        max
    } else {
        raw
    }
}

/// The offset that keeps the point under the cursor visually stationary
/// across a scale change: the old offset is scaled by the ratio of the new
/// to the old scale, and the cursor's distance to the viewport centre
/// contributes the ratio's excess over one. Divisions truncate toward
/// zero.
pub open spec fn spec_zoom_offset(off: int, cursor_to_center: int, os: int, ns: int) -> int {
    spec_div_trunc(off * ns, os) + spec_div_trunc(cursor_to_center * (ns - os), os)
}

/// The local state of a [`Viewer`].
#[derive(Debug, Clone, Copy, PartialEq, Eq)]
pub struct State {
    /// Current scale in thousandths.
    pub scale: u32,
    /// Offset snapshot taken when a drag began.
    pub starting_offset: (i64, i64),
    /// Current pan offset.
    pub current_offset: (i64, i64),
    /// Where the primary button grabbed the image, while a drag gesture is
    /// in progress.
    pub cursor_grabbed_at: Option<(i64, i64)>,
}

impl State {
    /// Creates a new [`State`]: native scale, centred, no gesture.
    pub fn new() -> (r: State)
        ensures
            r == (State {
                scale: 1000u32,
                starting_offset: (0i64, 0i64),
                current_offset: (0i64, 0i64),
                cursor_grabbed_at: None::<(i64, i64)>,
            }),
    {
        State {
            scale: 1000,
            starting_offset: (0, 0),
            current_offset: (0, 0),
            cursor_grabbed_at: None,
        }
    }

    /// Returns if the cursor is currently grabbed by the viewer.
    pub fn is_cursor_grabbed(&self) -> (r: bool)
        ensures
            r == self.cursor_grabbed_at.is_some(),
    {
        self.cursor_grabbed_at.is_some()
    }

    /// Machine-size bounds under which the controller's arithmetic cannot
    /// overflow.
    pub open spec fn in_limits(&self) -> bool {
        &&& self.scale <= MAX_SCALE_LIMIT
        &&& -MAX_VIEW_POS <= self.current_offset.0 <= MAX_VIEW_POS
        &&& -MAX_VIEW_POS <= self.current_offset.1 <= MAX_VIEW_POS
        &&& -MAX_VIEW_POS <= self.starting_offset.0 <= MAX_VIEW_POS
        &&& -MAX_VIEW_POS <= self.starting_offset.1 <= MAX_VIEW_POS
        &&& (self.cursor_grabbed_at matches Some(g) ==> -MAX_VIEW_POS <= g.0 <= MAX_VIEW_POS
            && -MAX_VIEW_POS <= g.1 <= MAX_VIEW_POS)
    }
}

impl Default for State {
    /// Same as [`State::new`].
    fn default() -> (r: State)
        ensures
            r == (State {
                scale: 1000u32,
                starting_offset: (0i64, 0i64),
                current_offset: (0i64, 0i64),
                cursor_grabbed_at: None::<(i64, i64)>,
            }),
    {
        State::new()
    }
}

/// The viewport rectangle a viewer occupies on screen.
#[derive(Debug, Clone, Copy, PartialEq, Eq, Structural)]
pub struct Bounds {
    /// Left edge.
    pub x: i64,
    /// Top edge.
    pub y: i64,
    /// Width.
    pub width: i64,
    /// Height.
    pub height: i64,
}

impl Bounds {
    /// Whether a position lies inside the rectangle.
    pub open spec fn spec_contains(&self, px: int, py: int) -> bool {
        self.x <= px < self.x + self.width && self.y <= py < self.y + self.height
    }

    /// Machine-size bounds for the rectangle.
    pub open spec fn in_limits(&self) -> bool {
        &&& 0 <= self.width <= MAX_IMAGE_DIM as int
        &&& 0 <= self.height <= MAX_IMAGE_DIM as int
        &&& -MAX_VIEW_POS <= self.x <= MAX_VIEW_POS
        &&& -MAX_VIEW_POS <= self.y <= MAX_VIEW_POS
    }

    /// Whether a position lies inside the rectangle.
    pub fn contains(&self, px: i64, py: i64) -> (r: bool)
        requires
            self.in_limits(),
            -MAX_VIEW_POS <= px <= MAX_VIEW_POS,
            -MAX_VIEW_POS <= py <= MAX_VIEW_POS,
        ensures
            r == self.spec_contains(px as int, py as int),
    {
        self.x <= px && px < self.x + self.width && self.y <= py && py < self.y + self.height
    }
}

/// Pointer and wheel events the viewer reacts to.
#[derive(Debug, Clone, Copy, PartialEq, Eq, Structural)]
pub enum ViewerEvent {
    /// The wheel turned while the cursor was at the given position;
    /// positive `y` zooms in, negative zooms out.
    WheelScrolled { y: i64, px: i64, py: i64 },
    /// The primary button was pressed at the given position.
    ButtonPressed { px: i64, py: i64 },
    /// The primary button was released.
    ButtonReleased,
    /// The pointer moved to the given position.
    CursorMoved { px: i64, py: i64 },
}

impl ViewerEvent {
    /// Machine-size bounds for the event's coordinates.
    pub open spec fn in_limits(&self) -> bool {
        match *self {
            ViewerEvent::WheelScrolled { y, px, py } => -MAX_VIEW_POS <= px <= MAX_VIEW_POS
                && -MAX_VIEW_POS <= py <= MAX_VIEW_POS,
            ViewerEvent::ButtonPressed { px, py } => -MAX_VIEW_POS <= px <= MAX_VIEW_POS
                && -MAX_VIEW_POS <= py <= MAX_VIEW_POS,
            ViewerEvent::ButtonReleased => true,
            ViewerEvent::CursorMoved { px, py } => -MAX_VIEW_POS <= px <= MAX_VIEW_POS
                && -MAX_VIEW_POS <= py <= MAX_VIEW_POS,
        }
    }
}

/// Whether the viewer consumed an event.
#[derive(Debug, Clone, Copy, PartialEq, Eq, Structural)]
pub enum EventStatus {
    /// The event changed or grabbed the viewer.
    Captured,
    /// The event was not for this viewer.
    Ignored,
}

/// A frame that displays an image with the ability to zoom in and out and
/// pan, with scale limits and a wheel step. The image dimensions are the
/// fitted base size the image occupies at scale 1000.
#[derive(Debug, Clone, Copy, PartialEq, Eq, Structural)]
pub struct Viewer {
    /// Smallest allowed scale, in thousandths.
    pub min_scale: u32,
    /// Largest allowed scale, in thousandths.
    pub max_scale: u32,
    /// Wheel step, in thousandths: one wheel tick multiplies or divides
    /// the scale by `1 + scale_step`.
    pub scale_step: u32,
    /// Base width of the displayed image at scale 1000.
    pub image_width: u32,
    /// Base height of the displayed image at scale 1000.
    pub image_height: u32,
}

impl Viewer {
    /// Well-formedness: positive ordered scale limits, a positive step,
    /// and machine-size bounds.
    pub open spec fn wf(&self) -> bool {
        &&& 0 < self.min_scale <= self.max_scale <= MAX_SCALE_LIMIT
        &&& 0 < self.scale_step <= MAX_SCALE_LIMIT
        &&& self.image_width <= MAX_IMAGE_DIM
        &&& self.image_height <= MAX_IMAGE_DIM
    }

    /// Creates a new [`Viewer`] for an image of the given base size, with
    /// the stock limits: scales from a quarter to tenfold, ten percent
    /// wheel steps.
    pub fn new(image_width: u32, image_height: u32) -> (r: Viewer)
        requires
            image_width <= MAX_IMAGE_DIM,
            image_height <= MAX_IMAGE_DIM,
        ensures
            r.wf(),
            r == (Viewer {
                min_scale: 250u32,
                max_scale: 10000u32,
                scale_step: 100u32,
                image_width,
                image_height,
            }),
    {
        Viewer { min_scale: 250, max_scale: 10000, scale_step: 100, image_width, image_height }
    }

    /// Sets the max scale applied to the image of the viewer.
    pub fn max_scale(self, max_scale: u32) -> (r: Viewer)
        ensures
            r == (Viewer { max_scale, ..self }),
    {
        Viewer { max_scale, ..self }
    }

    /// Sets the min scale applied to the image of the viewer.
    pub fn min_scale(self, min_scale: u32) -> (r: Viewer)
        ensures
            r == (Viewer { min_scale, ..self }),
    {
        Viewer { min_scale, ..self }
    }

    /// Sets the step the scale is changed by on each wheel tick.
    pub fn scale_step(self, scale_step: u32) -> (r: Viewer)
        ensures
            r == (Viewer { scale_step, ..self }),
    {
        Viewer { scale_step, ..self }
    }

    /// The widget state a freshly created viewer starts from: the stock
    /// state, with externally driven scale and offset applied when
    /// present.
    pub fn state(&self, external: Option<(u32, (i64, i64))>) -> (r: State)
        ensures
            ({
                match external {
                    None => r == (State {
                        scale: 1000u32,
                        starting_offset: (0i64, 0i64),
                        current_offset: (0i64, 0i64),
                        cursor_grabbed_at: None::<(i64, i64)>,
                    }),
                    Some((s, off)) => r == (State {
                        scale: s,
                        starting_offset: off,
                        current_offset: off,
                        cursor_grabbed_at: None::<(i64, i64)>,
                    }),
                }
            }),
    {
        match external {
            None => State::new(),
            Some((scale, offset)) => State {
                scale,
                starting_offset: offset,
                current_offset: offset,
                cursor_grabbed_at: None,
            },
        }
    }

    /// The size of the scaled image under a state's scale.
    pub open spec fn spec_scaled_size(&self, scale: int) -> (int, int) {
        (
            spec_scaled_len(self.image_width as int, scale),
            spec_scaled_len(self.image_height as int, scale),
        )
    }

    /// Whether an offset obeys the clamping law for this viewer under a
    /// scale and viewport: per axis its magnitude never exceeds
    /// `max(0, (scaled_size - viewport_size) / 2)`.
    pub open spec fn offset_in_range(&self, off: (i64, i64), scale: int, bounds: Bounds) -> bool {
        let scaled = self.spec_scaled_size(scale);
        let mx = spec_max_offset(scaled.0, bounds.width as int);
        let my = spec_max_offset(scaled.1, bounds.height as int);
        -mx <= off.0 <= mx && -my <= off.1 <= my
    }
}

/// Returns the scaled size of the image under the given state's scale.
pub fn scaled_image_size(viewer: &Viewer, state: &State) -> (r: (i64, i64))
    requires
        viewer.wf(),
        state.in_limits(),
    ensures
        r.0 as int == spec_scaled_len(viewer.image_width as int, state.scale as int),
        r.1 as int == spec_scaled_len(viewer.image_height as int, state.scale as int),
        0 <= r.0 <= MAX_IMAGE_DIM as int * MAX_SCALE_LIMIT as int / 1000,
        0 <= r.1 <= MAX_IMAGE_DIM as int * MAX_SCALE_LIMIT as int / 1000,
{
    let w = scale_len(viewer.image_width, state.scale);
    let h = scale_len(viewer.image_height, state.scale);
    (w, h)
}

/// One side of [`scaled_image_size`].
fn scale_len(base: u32, scale: u32) -> (r: i64)
    requires
        base <= MAX_IMAGE_DIM,
        scale <= MAX_SCALE_LIMIT,
    ensures
        r as int == spec_scaled_len(base as int, scale as int),
        0 <= r <= MAX_IMAGE_DIM as int * MAX_SCALE_LIMIT as int / 1000,
{
    proof {
        assert((base as int) * (scale as int) <= (MAX_IMAGE_DIM as int) * (MAX_SCALE_LIMIT as int))
            by (nonlinear_arith)
            requires
                0 <= base <= MAX_IMAGE_DIM,
                0 <= scale <= MAX_SCALE_LIMIT,
        ;
        assert((base as int) * (scale as int) / 1000 <= (MAX_IMAGE_DIM as int) * (MAX_SCALE_LIMIT
            as int) / 1000) by {
            vstd::arithmetic::div_mod::lemma_div_is_ordered(
                (base as int) * (scale as int),
                (MAX_IMAGE_DIM as int) * (MAX_SCALE_LIMIT as int),
                1000,
            );
        }
    }
    let prod: u64 = (base as u64) * (scale as u64);
    (prod / 1000) as i64
}

/// Clamps the offset to keep the image within reasonable bounds: per axis
/// to `[-m, m]` where `m` is `max(0, (image_size - viewport_size) / 2)`.
/// When the scaled image does not exceed the viewport on an axis, the
/// offset on that axis is forced to exactly zero.
pub fn clamp_offset(offset: (i64, i64), viewport: (i64, i64), image_size: (i64, i64)) -> (r: (
    i64,
    i64,
))
    requires
        0 <= viewport.0,
        0 <= viewport.1,
        0 <= image_size.0,
        0 <= image_size.1,
    ensures
        r.0 as int == spec_clamp_mag(
            offset.0 as int,
            spec_max_offset(image_size.0 as int, viewport.0 as int),
        ),
        r.1 as int == spec_clamp_mag(
            offset.1 as int,
            spec_max_offset(image_size.1 as int, viewport.1 as int),
        ),
{
    let mx = max_offset_len(image_size.0, viewport.0);
    let my = max_offset_len(image_size.1, viewport.1);
    (clamp_mag(offset.0, mx), clamp_mag(offset.1, my))
}

/// Maximum allowed offset magnitude on one axis.
fn max_offset_len(image: i64, viewport: i64) -> (r: i64)
    requires
        0 <= image,
        0 <= viewport,
    ensures
        r as int == spec_max_offset(image as int, viewport as int),
        r >= 0,
{
    if image > viewport {
        (image - viewport) / 2
    } else {
        0
    }
}

/// Clamp a value into `[-m, m]`.
fn clamp_mag(v: i64, m: i64) -> (r: i64)
    requires
        m >= 0,
    ensures
        r as int == spec_clamp_mag(v as int, m as int),
{
    if v < -m {
        -m
    } else if v > m {
        m
    } else {
        v
    }
}

/// Truncating division of a bounded value by a positive divisor.
fn div_trunc(a: i128, b: i128) -> (r: i128)
    requires
        b > 0,
        -0x7fffffffffffffffffffffffffff <= a <= 0x7fffffffffffffffffffffffffff,
    ensures
        r as int == spec_div_trunc(a as int, b as int),
{
    if a >= 0 {
        let q: u128 = (a as u128) / (b as u128);
        q as i128
    } else {
        let q: u128 = ((-a) as u128) / (b as u128);
        -(q as i128)
    }
}

/// One wheel step of the scale.
fn wheel_scale(scale: u32, step: u32, zoom_in: bool, min: u32, max: u32) -> (r: u32)
    requires
        0 < scale <= MAX_SCALE_LIMIT,
        0 < step <= MAX_SCALE_LIMIT,
        0 < min <= max <= MAX_SCALE_LIMIT,
    ensures
        r as int == spec_wheel_scale(scale as int, step as int, zoom_in, min as int, max as int),
        min <= r <= max,
{
    proof {
        assert((scale as int) * (1000 + step as int) <= 0x100000 * 0x100001 * 1000)
            by (nonlinear_arith)
            requires
                0 < scale <= MAX_SCALE_LIMIT,
                0 < step <= MAX_SCALE_LIMIT,
        ;
    }
    let raw: u64 = if zoom_in {
        (scale as u64) * (1000 + step as u64) / 1000
    } else {
        (scale as u64) * 1000 / (1000 + step as u64)
    };
    if raw < min as u64 {
        min
    } else if raw > max as u64 {
        max
    } else {
        raw as u32
    }
}

/// The unclamped offset on one axis after a zoom step, keeping the point
/// under the cursor stationary.
fn zoom_axis(off: i64, ctc: i64, os: u32, ns: u32) -> (r: i64)
    requires
        0 < os <= MAX_SCALE_LIMIT,
        0 < ns <= MAX_SCALE_LIMIT,
        -MAX_VIEW_POS <= off <= MAX_VIEW_POS,
        -4 * MAX_VIEW_POS <= ctc <= 4 * MAX_VIEW_POS,
    ensures
        r as int == spec_zoom_offset(off as int, ctc as int, os as int, ns as int),
{
    proof {
        assert({
            let a1 = (off as int) * (ns as int);
            -0x10000000000 * 0x100000 <= a1 <= 0x10000000000 * 0x100000
        })
            by (nonlinear_arith)
            requires
                -MAX_VIEW_POS <= off <= MAX_VIEW_POS,
                0 < ns <= MAX_SCALE_LIMIT,
        ;
        assert({
            let a2 = (ctc as int) * (ns as int - os as int);
            -0x40000000000 * 0x100000 <= a2 <= 0x40000000000 * 0x100000
        })
            by (nonlinear_arith)
            requires
                -4 * MAX_VIEW_POS <= ctc <= 4 * MAX_VIEW_POS,
                0 < ns <= MAX_SCALE_LIMIT,
                0 < os <= MAX_SCALE_LIMIT,
        ;
    }
    let t1 = div_trunc((off as i128) * (ns as i128), os as i128);
    let t2 = div_trunc((ctc as i128) * ((ns as i128) - (os as i128)), os as i128);
    (t1 + t2) as i64
}

impl Viewer {
    /// React to a pointer or wheel event, updating the state exactly as
    /// the event demands.
    ///
    /// A wheel turn over the viewport with room to zoom moves the scale
    /// one step and transforms the offset so the point under the cursor
    /// stays visually stationary, then clamps the offset against the new
    /// scaled image size; afterwards the scale lies in
    /// `[min_scale, max_scale]` and the offset obeys the clamping law. A
    /// press over the viewport begins a drag; a move during a drag pans
    /// relative to the press position, clamped the same way; a release
    /// ends the drag. Events outside the viewport, or moves and releases
    /// without a drag, are ignored and change nothing.
    pub fn on_event(&self, state: &mut State, bounds: Bounds, event: ViewerEvent) -> (r:
        EventStatus)
        requires
            self.wf(),
            bounds.in_limits(),
            old(state).in_limits(),
            old(state).scale > 0,
            event.in_limits(),
        ensures
            final(state).in_limits(),
            final(state).scale > 0,
            (self.min_scale <= old(state).scale <= self.max_scale ==> self.min_scale <= final(
            state).scale <= self.max_scale),
            ({
                let cx = bounds.x + bounds.width / 2;
                let cy = bounds.y + bounds.height / 2;
                match event {
                    ViewerEvent::WheelScrolled { y, px, py } => {
                        if !bounds.spec_contains(px as int, py as int) {
                            r == EventStatus::Ignored && *final(state) == *old(state)
                        } else {
                            let gate = (y < 0 && old(state).scale > self.min_scale) || (y > 0
                                && old(state).scale < self.max_scale);
                            r == EventStatus::Captured && if !gate {
                                *final(state) == *old(state)
                            } else {
                                let os = old(state).scale as int;
                                let ns = spec_wheel_scale(
                                    os,
                                    self.scale_step as int,
                                    y > 0,
                                    self.min_scale as int,
                                    self.max_scale as int,
                                );
                                let scaled = self.spec_scaled_size(ns);
                                &&& final(state).scale == ns
                                &&& self.min_scale <= final(state).scale <= self.max_scale
                                &&& final(state).current_offset.0 == spec_clamp_mag(
                                    spec_zoom_offset(
                                        old(state).current_offset.0 as int,
                                        px - cx,
                                        os,
                                        ns,
                                    ),
                                    spec_max_offset(scaled.0, bounds.width as int),
                                )
                                &&& final(state).current_offset.1 == spec_clamp_mag(
                                    spec_zoom_offset(
                                        old(state).current_offset.1 as int,
                                        py - cy,
                                        os,
                                        ns,
                                    ),
                                    spec_max_offset(scaled.1, bounds.height as int),
                                )
                                &&& self.offset_in_range(final(state).current_offset, ns, bounds)
                                &&& final(state).starting_offset == old(state).starting_offset
                                &&& final(state).cursor_grabbed_at == old(state).cursor_grabbed_at
                            }
                        }
                    },
                    ViewerEvent::ButtonPressed { px, py } => {
                        if !bounds.spec_contains(px as int, py as int) {
                            r == EventStatus::Ignored && *final(state) == *old(state)
                        } else {
                            &&& r == EventStatus::Captured
                            &&& final(state).cursor_grabbed_at == Some((px, py))
                            &&& final(state).starting_offset == old(state).current_offset
                            &&& final(state).current_offset == old(state).current_offset
                            &&& final(state).scale == old(state).scale
                        }
                    },
                    ViewerEvent::ButtonReleased => {
                        if old(state).cursor_grabbed_at is Some {
                            r == EventStatus::Captured && *final(state) == (State {
                                cursor_grabbed_at: None::<(i64, i64)>,
                                ..*old(state)
                            })
                        } else {
                            r == EventStatus::Ignored && *final(state) == *old(state)
                        }
                    },
                    ViewerEvent::CursorMoved { px, py } => {
                        match old(state).cursor_grabbed_at {
                            Some(origin) => {
                                let scaled = self.spec_scaled_size(old(state).scale as int);
                                &&& r == EventStatus::Captured
                                &&& final(state).current_offset.0 == spec_clamp_mag(
                                    old(state).starting_offset.0 - (px - origin.0),
                                    spec_max_offset(scaled.0, bounds.width as int),
                                )
                                &&& final(state).current_offset.1 == spec_clamp_mag(
                                    old(state).starting_offset.1 - (py - origin.1),
                                    spec_max_offset(scaled.1, bounds.height as int),
                                )
                                &&& self.offset_in_range(
                                    final(state).current_offset,
                                    old(state).scale as int,
                                    bounds,
                                )
                                &&& final(state).scale == old(state).scale
                                &&& final(state).starting_offset == old(state).starting_offset
                                &&& final(state).cursor_grabbed_at == old(state).cursor_grabbed_at
                            },
                            None => {
                                r == EventStatus::Ignored && *final(state) == *old(state)
                            },
                        }
                    },
                }
            }),
    {
        match event {
            ViewerEvent::WheelScrolled { y, px, py } => {
                if !bounds.contains(px, py) {
                    return EventStatus::Ignored;
                }
                let previous_scale = state.scale;
                if (y < 0 && previous_scale > self.min_scale) || (y > 0 && previous_scale
                    < self.max_scale) {
                    let ns = wheel_scale(
                        previous_scale,
                        self.scale_step,
                        y > 0,
                        self.min_scale,
                        self.max_scale,
                    );
                    let cx = bounds.x + bounds.width / 2;
                    let cy = bounds.y + bounds.height / 2;
                    let rawx = zoom_axis(state.current_offset.0, px - cx, previous_scale, ns);
                    let rawy = zoom_axis(state.current_offset.1, py - cy, previous_scale, ns);
                    state.scale = ns;
                    let scaled = scaled_image_size(self, state);
                    state.current_offset = clamp_offset(
                        (rawx, rawy),
                        (bounds.width, bounds.height),
                        scaled,
                    );
                }
                EventStatus::Captured
            },
            ViewerEvent::ButtonPressed { px, py } => {
                if !bounds.contains(px, py) {
                    return EventStatus::Ignored;
                }
                state.cursor_grabbed_at = Some((px, py));
                state.starting_offset = state.current_offset;
                EventStatus::Captured
            },
            ViewerEvent::ButtonReleased => {
                if state.cursor_grabbed_at.is_some() {
                    state.cursor_grabbed_at = None;
                    EventStatus::Captured
                } else {
                    EventStatus::Ignored
                }
            },
            ViewerEvent::CursorMoved { px, py } => {
                match state.cursor_grabbed_at {
                    Some(origin) => {
                        let scaled = scaled_image_size(self, state);
                        let nx = state.starting_offset.0 - (px - origin.0);
                        let ny = state.starting_offset.1 - (py - origin.1);
                        state.current_offset = clamp_offset(
                            (nx, ny),
                            (bounds.width, bounds.height),
                            scaled,
                        );
                        EventStatus::Captured
                    },
                    None => EventStatus::Ignored,
                }
            },
        }
    }

    /// Reconcile externally driven scale and offset into the state:
    /// applied only when no drag gesture is active, and only when the
    /// external values differ from the current ones beyond the fixed
    /// tolerances; a drag in progress always wins.
    pub fn sync_external(&self, state: &mut State, ext_scale: u32, ext_offset: (i64, i64)) -> (
        applied: bool)
        requires
            old(state).in_limits(),
        ensures
            ({
                let scale_changed = ext_scale as int - old(state).scale as int > SCALE_EPSILON
                    as int || old(state).scale as int - ext_scale as int > SCALE_EPSILON as int;
                let dx = ext_offset.0 as int - old(state).current_offset.0 as int;
                let dy = ext_offset.1 as int - old(state).current_offset.1 as int;
                let offset_changed = dx > OFFSET_EPSILON as int || -dx > OFFSET_EPSILON as int
                    || dy > OFFSET_EPSILON as int || -dy > OFFSET_EPSILON as int;
                &&& applied == (old(state).cursor_grabbed_at is None && (scale_changed
                    || offset_changed))
                &&& (applied ==> *final(state) == (State {
                    scale: ext_scale,
                    starting_offset: ext_offset,
                    current_offset: ext_offset,
                    cursor_grabbed_at: old(state).cursor_grabbed_at,
                }))
                &&& (!applied ==> *final(state) == *old(state))
            }),
    {
        if state.cursor_grabbed_at.is_some() {
            return false;
        }
        let scale_changed = diff_exceeds_u32(state.scale, ext_scale, SCALE_EPSILON);
        let offset_changed = diff_exceeds_i64(
            state.current_offset.0,
            ext_offset.0,
            OFFSET_EPSILON,
        ) || diff_exceeds_i64(state.current_offset.1, ext_offset.1, OFFSET_EPSILON);
        if scale_changed || offset_changed {
            state.scale = ext_scale;
            state.current_offset = ext_offset;
            state.starting_offset = ext_offset;
            true
        } else {
            false
        }
    }
}

/// Whether two scales differ by more than a tolerance.
fn diff_exceeds_u32(a: u32, b: u32, eps: u32) -> (r: bool)
    ensures
        r == (b as int - a as int > eps as int || a as int - b as int > eps as int),
{
    if b >= a {
        b - a > eps
    } else {
        a - b > eps
    }
}

/// Whether two offsets differ by more than a tolerance.
fn diff_exceeds_i64(a: i64, b: i64, eps: i64) -> (r: bool)
    requires
        eps >= 0,
    ensures
        r == (b as int - a as int > eps as int || a as int - b as int > eps as int),
{
    if b >= a {
        (b as i128) - (a as i128) > eps as i128
    } else {
        (a as i128) - (b as i128) > eps as i128
    }
}

} // verus!
