//! The smoothed orbit camera.
//!
//! Angles are held in micro-radians, lengths in micro-units, pointer motion in
//! thousandths of a pixel, scroll in thousandths of a wheel step, smoothing
//! rates in thousandths per second, and interpolation factors in parts per
//! million. The host turns its floating-point values into these units, and the
//! orientation and world position back out of them.

use vstd::prelude::*;

verus! {

/// One radian, or one world unit.
pub const MICRO: i64 = 1_000_000;

/// An interpolation factor of one: the current value jumps to its target.
pub const FACTOR_ONE: u32 = 1_000_000;

/// Yaw and pitch per thousandth of a pixel of pointer motion (0.005 rad per pixel).
pub const ORBIT_SENSITIVITY: i64 = 5;

/// Radius per thousandth of a wheel step (0.6 units per step).
pub const ZOOM_SENSITIVITY: i64 = 600;

pub const PITCH_MIN: i64 = -1_200_000;

pub const PITCH_MAX: i64 = 1_200_000;

pub const RADIUS_MIN: i64 = 3_000_000;

pub const RADIUS_MAX: i64 = 18_000_000;

/// A world-space offset, in micro-units.
#[derive(Debug, Clone, Copy, PartialEq, Eq, Structural)]
pub struct Offset {
    pub x: i64,
    pub y: i64,
    pub z: i64,
}

/// A camera orbiting a followed target.
#[derive(Debug, Clone, Copy, PartialEq, Eq, Structural)]
pub struct OrbitCamera {
    /// Current distance to the focus point.
    pub radius: i64,
    /// Current rotation about the vertical axis; unbounded.
    pub yaw: i64,
    /// Current elevation.
    pub pitch: i64,
    /// Distance that `radius` approaches.
    pub target_radius: i64,
    /// Rotation that `yaw` approaches.
    pub target_yaw: i64,
    /// Elevation that `pitch` approaches.
    pub target_pitch: i64,
    /// Decay rate of the yaw and pitch lag.
    pub rotation_smoothness: u32,
    /// Decay rate of the radius lag.
    pub zoom_smoothness: u32,
    /// Decay rate of the position lag.
    pub position_smoothness: u32,
    /// Offset from the target's position to the focus point.
    pub follow_offset: Offset,
}

/// The input gathered over one frame.
#[derive(Debug, Clone, Copy, PartialEq, Eq, Structural)]
pub struct OrbitInput {
    /// Horizontal pointer motion.
    pub motion_x: i64,
    /// Vertical pointer motion.
    pub motion_y: i64,
    /// Wheel motion; positive zooms in.
    pub scroll: i64,
    /// Whether the orbit button is held.
    pub orbit_held: bool,
}

/// Interpolation factors of one frame, `1 - exp(-smoothness * dt)` in parts per million.
#[derive(Debug, Clone, Copy, PartialEq, Eq, Structural)]
pub struct DampingFactors {
    /// Factor for yaw and pitch.
    pub rotation: u32,
    /// Factor for the radius.
    pub zoom: u32,
}

impl DampingFactors {
    pub open spec fn wf(self) -> bool {
        self.rotation <= FACTOR_ONE && self.zoom <= FACTOR_ONE
    }
}

pub open spec fn clamp(x: int, lo: int, hi: int) -> int {
    if x < lo {
        lo
    } else if x > hi {
        hi
    } else {
        x
    }
}

pub open spec fn sat_i64(x: int) -> i64 {
    if x > i64::MAX {
        i64::MAX
    } else if x < i64::MIN {
        i64::MIN
    } else {
        x as i64
    }
}

/// The step from `a` toward `b` for the fraction `t` (in parts per million)
/// of the distance, rounded up so that any fraction above zero makes progress.
pub open spec fn step(d: int, t: int) -> int {
    (d * t + (FACTOR_ONE as int) - 1) / (FACTOR_ONE as int)
}

/// `a` moved toward `b` by the fraction `t` of the distance.
pub open spec fn lerp(a: int, b: int, t: int) -> int {
    if b >= a {
        a + step(b - a, t)
    } else {
        a - step(a - b, t)
    }
}

pub open spec fn between(x: int, a: int, b: int) -> bool {
    (a <= x && x <= b) || (b <= x && x <= a)
}

proof fn lemma_step_bounds(d: int, t: int)
    requires
        d >= 0,
        0 <= t <= FACTOR_ONE,
    ensures
        0 <= step(d, t) <= d,
        t == FACTOR_ONE ==> step(d, t) == d,
        t > 0 && d > 0 ==> step(d, t) > 0,
{
    let one = FACTOR_ONE as int;
    assert(0 <= d * t <= d * one) by (nonlinear_arith)
        requires
            d >= 0,
            0 <= t <= one,
    ;
    assert((d * t + one - 1) / one <= d) by (nonlinear_arith)
        requires
            0 <= d * t <= d * one,
            one > 0,
    ;
    assert(t == one ==> (d * t + one - 1) / one == d) by (nonlinear_arith)
        requires
            one > 0,
            d >= 0,
    ;
    assert(t > 0 && d > 0 ==> (d * t + one - 1) / one > 0) by (nonlinear_arith)
        requires
            one > 0,
            d >= 0,
            t >= 0,
    ;
}

proof fn lemma_lerp_between(a: int, b: int, t: int)
    requires
        0 <= t <= FACTOR_ONE,
    ensures
        between(lerp(a, b, t), a, b),
        t == FACTOR_ONE ==> lerp(a, b, t) == b,
        t > 0 && a != b ==> lerp(a, b, t) != a,
{
    if b >= a {
        lemma_step_bounds(b - a, t);
    } else {
        lemma_step_bounds(a - b, t);
    }
}

fn lerp_exec(a: i64, b: i64, t: u32) -> (r: i64)
    requires
        t <= FACTOR_ONE,
    ensures
        r == lerp(a as int, b as int, t as int),
{
    proof {
        lemma_lerp_between(a as int, b as int, t as int);
    }
    let one: i128 = 1_000_000;
    if b >= a {
        let d: i128 = b as i128 - a as i128;
        assert(d * (t as i128) <= 0x1_0000_0000_0000_0000 * 1_000_000) by (nonlinear_arith)
            requires
                0 <= d <= 0x1_0000_0000_0000_0000,
                t <= 1_000_000,
        ;
        (a as i128 + (d * (t as i128) + (one - 1)) / one) as i64
    } else {
        let d: i128 = a as i128 - b as i128;
        assert(d * (t as i128) <= 0x1_0000_0000_0000_0000 * 1_000_000) by (nonlinear_arith)
            requires
                0 <= d <= 0x1_0000_0000_0000_0000,
                t <= 1_000_000,
        ;
        (a as i128 - (d * (t as i128) + (one - 1)) / one) as i64
    }
}

/// The camera after the frame's input has moved its targets: with the orbit
/// button held, pointer motion turns the target yaw and pitch (pitch clamped);
/// wheel motion changes the target radius (clamped).
pub open spec fn input_spec(c: OrbitCamera, i: OrbitInput) -> OrbitCamera {
    let c1 = if i.orbit_held {
        OrbitCamera {
            target_yaw: sat_i64(c.target_yaw - i.motion_x * ORBIT_SENSITIVITY),
            target_pitch: clamp(
                c.target_pitch - i.motion_y * ORBIT_SENSITIVITY,
                PITCH_MIN as int,
                PITCH_MAX as int,
            ) as i64,
            ..c
        }
    } else {
        c
    };
    if i.scroll != 0 {
        OrbitCamera {
            target_radius: clamp(
                c1.target_radius - i.scroll * ZOOM_SENSITIVITY,
                RADIUS_MIN as int,
                RADIUS_MAX as int,
            ) as i64,
            ..c1
        }
    } else {
        c1
    }
}

/// The camera after its current values have moved toward their targets.
pub open spec fn damp_spec(c: OrbitCamera, f: DampingFactors) -> OrbitCamera {
    OrbitCamera {
        yaw: lerp(c.yaw as int, c.target_yaw as int, f.rotation as int) as i64,
        pitch: lerp(c.pitch as int, c.target_pitch as int, f.rotation as int) as i64,
        radius: lerp(c.radius as int, c.target_radius as int, f.zoom as int) as i64,
        ..c
    }
}

/// One frame of the controller.
pub open spec fn tick_spec(c: OrbitCamera, i: OrbitInput, f: DampingFactors) -> OrbitCamera {
    damp_spec(input_spec(c, i), f)
}

impl OrbitCamera {
    /// Pitch and radius, current and target, lie within their bounds.
    pub open spec fn wf(self) -> bool {
        &&& PITCH_MIN <= self.pitch <= PITCH_MAX
        &&& PITCH_MIN <= self.target_pitch <= PITCH_MAX
        &&& RADIUS_MIN <= self.radius <= RADIUS_MAX
        &&& RADIUS_MIN <= self.target_radius <= RADIUS_MAX
    }

    /// A camera at rest: its targets are its current values.
    pub fn new(
        radius: i64,
        yaw: i64,
        pitch: i64,
        rotation_smoothness: u32,
        zoom_smoothness: u32,
        position_smoothness: u32,
        follow_offset: Offset,
    ) -> (r: OrbitCamera)
        requires
            RADIUS_MIN <= radius <= RADIUS_MAX,
            PITCH_MIN <= pitch <= PITCH_MAX,
        ensures
            r.wf(),
            r == (OrbitCamera {
                radius,
                yaw,
                pitch,
                target_radius: radius,
                target_yaw: yaw,
                target_pitch: pitch,
                rotation_smoothness,
                zoom_smoothness,
                position_smoothness,
                follow_offset,
            }),
    {
        OrbitCamera {
            radius,
            yaw,
            pitch,
            target_radius: radius,
            target_yaw: yaw,
            target_pitch: pitch,
            rotation_smoothness,
            zoom_smoothness,
            position_smoothness,
            follow_offset,
        }
    }

    /// Moves the targets by the frame's input.
    pub fn apply_input(&mut self, input: &OrbitInput)
        requires
            old(self).wf(),
        ensures
            *final(self) == input_spec(*old(self), *input),
            final(self).wf(),
    {
        if input.orbit_held {
            let yaw = self.target_yaw as i128 - input.motion_x as i128 * 5;
            self.target_yaw = if yaw > i64::MAX as i128 {
                i64::MAX
            } else if yaw < i64::MIN as i128 {
                i64::MIN
            } else {
                yaw as i64
            };
            let pitch = self.target_pitch as i128 - input.motion_y as i128 * 5;
            self.target_pitch = if pitch < PITCH_MIN as i128 {
                PITCH_MIN
            } else if pitch > PITCH_MAX as i128 {
                PITCH_MAX
            } else {
                pitch as i64
            };
        }
        if input.scroll != 0 {
            let radius = self.target_radius as i128 - input.scroll as i128 * 600;
            self.target_radius = if radius < RADIUS_MIN as i128 {
                RADIUS_MIN
            } else if radius > RADIUS_MAX as i128 {
                RADIUS_MAX
            } else {
                radius as i64
            };
        }
    }

    /// Moves the current values toward the targets.
    pub fn damp(&mut self, f: &DampingFactors)
        requires
            old(self).wf(),
            f.wf(),
        ensures
            *final(self) == damp_spec(*old(self), *f),
            final(self).wf(),
    {
        proof {
            lemma_lerp_between(self.yaw as int, self.target_yaw as int, f.rotation as int);
            lemma_lerp_between(self.pitch as int, self.target_pitch as int, f.rotation as int);
            lemma_lerp_between(self.radius as int, self.target_radius as int, f.zoom as int);
        }
        self.yaw = lerp_exec(self.yaw, self.target_yaw, f.rotation);
        self.pitch = lerp_exec(self.pitch, self.target_pitch, f.rotation);
        self.radius = lerp_exec(self.radius, self.target_radius, f.zoom);
    }

    /// One frame: input first, then smoothing.
    pub fn tick(&mut self, input: &OrbitInput, f: &DampingFactors)
        requires
            old(self).wf(),
            f.wf(),
        ensures
            *final(self) == tick_spec(*old(self), *input, *f),
            final(self).wf(),
    {
        self.apply_input(input);
        self.damp(f);
    }
}


/// The sum of the horizontal components, saturating at each step.
pub open spec fn motion_x_total(s: Seq<(i64, i64)>) -> i64
    decreases s.len(),
{
    if s.len() == 0 {
        0
    } else {
        sat_i64(motion_x_total(s.drop_last()) + s.last().0)
    }
}

/// The sum of the vertical components, saturating at each step.
pub open spec fn motion_y_total(s: Seq<(i64, i64)>) -> i64
    decreases s.len(),
{
    if s.len() == 0 {
        0
    } else {
        sat_i64(motion_y_total(s.drop_last()) + s.last().1)
    }
}

/// The sum of the wheel steps, saturating at each step.
pub open spec fn scroll_total(s: Seq<i64>) -> i64
    decreases s.len(),
{
    if s.len() == 0 {
        0
    } else {
        sat_i64(scroll_total(s.drop_last()) + s.last())
    }
}

fn sat_add(a: i64, b: i64) -> (r: i64)
    ensures
        r == sat_i64(a + b),
{
    let x = a as i128 + b as i128;
    if x > i64::MAX as i128 {
        i64::MAX
    } else if x < i64::MIN as i128 {
        i64::MIN
    } else {
        x as i64
    }
}

impl OrbitInput {
    /// The input of one frame, from all its pointer-motion and wheel events.
    pub fn from_events(motion: &Vec<(i64, i64)>, scroll: &Vec<i64>, orbit_held: bool) -> (r: OrbitInput)
        ensures
            r.motion_x == motion_x_total(motion@),
            r.motion_y == motion_y_total(motion@),
            r.scroll == scroll_total(scroll@),
            r.orbit_held == orbit_held,
    {
        let mut mx: i64 = 0;
        let mut my: i64 = 0;
        let mut i: usize = 0;
        while i < motion.len()
            invariant
                i <= motion@.len(),
                mx == motion_x_total(motion@.take(i as int)),
                my == motion_y_total(motion@.take(i as int)),
            decreases motion@.len() - i,
        {
            assert(motion@.take(i + 1).drop_last() =~= motion@.take(i as int));
            mx = sat_add(mx, motion[i].0);
            my = sat_add(my, motion[i].1);
            i += 1;
        }
        assert(motion@.take(motion@.len() as int) =~= motion@);
        let mut sc: i64 = 0;
        let mut j: usize = 0;
        while j < scroll.len()
            invariant
                j <= scroll@.len(),
                sc == scroll_total(scroll@.take(j as int)),
            decreases scroll@.len() - j,
        {
            assert(scroll@.take(j + 1).drop_last() =~= scroll@.take(j as int));
            sc = sat_add(sc, scroll[j]);
            j += 1;
        }
        assert(scroll@.take(scroll@.len() as int) =~= scroll@);
        OrbitInput { motion_x: mx, motion_y: my, scroll: sc, orbit_held }
    }
}

/// One frame of the controller over every orbit camera. It runs only when
/// exactly one follow target exists; otherwise nothing changes and it reports
/// `false`. Each camera gets its own interpolation factors.
pub fn orbit_camera_controls(
    cameras: &mut Vec<OrbitCamera>,
    factors: &Vec<DampingFactors>,
    target_count: usize,
    input: &OrbitInput,
) -> (r: bool)
    requires
        old(cameras)@.len() == factors@.len(),
        forall|k: int| 0 <= k < old(cameras)@.len() ==> (#[trigger] old(cameras)@[k]).wf(),
        forall|k: int| 0 <= k < factors@.len() ==> (#[trigger] factors@[k]).wf(),
    ensures
        r == (target_count == 1),
        final(cameras)@.len() == old(cameras)@.len(),
        target_count != 1 ==> final(cameras)@ == old(cameras)@,
        target_count == 1 ==> forall|k: int|
            0 <= k < old(cameras)@.len() ==> #[trigger] final(cameras)@[k] == tick_spec(
                old(cameras)@[k],
                *input,
                factors@[k],
            ),
        forall|k: int| 0 <= k < final(cameras)@.len() ==> (#[trigger] final(cameras)@[k]).wf(),
{
    if target_count != 1 {
        return false;
    }
    let n = cameras.len();
    let mut i: usize = 0;
    while i < n
        invariant
            n == cameras@.len() == old(cameras)@.len() == factors@.len(),
            i <= n,
            forall|k: int| 0 <= k < factors@.len() ==> (#[trigger] factors@[k]).wf(),
            forall|k: int| 0 <= k < n ==> (#[trigger] cameras@[k]).wf(),
            forall|k: int|
                0 <= k < i ==> #[trigger] cameras@[k] == tick_spec(
                    old(cameras)@[k],
                    *input,
                    factors@[k],
                ),
            forall|k: int| i <= k < n ==> #[trigger] cameras@[k] == old(cameras)@[k],
        decreases n - i,
    {
        let mut c = cameras[i];
        c.tick(input, &factors[i]);
        cameras.set(i, c);
        i += 1;
    }
    true
}

/// The camera after a run of frames, each with its input and factors.
pub open spec fn run(c: OrbitCamera, steps: Seq<(OrbitInput, DampingFactors)>) -> OrbitCamera
    decreases steps.len(),
{
    if steps.len() == 0 {
        c
    } else {
        tick_spec(run(c, steps.drop_last()), steps.last().0, steps.last().1)
    }
}

proof fn lemma_tick_wf(c: OrbitCamera, i: OrbitInput, f: DampingFactors)
    requires
        c.wf(),
        f.wf(),
    ensures
        tick_spec(c, i, f).wf(),
{
    let m = input_spec(c, i);
    assert(m.wf());
    lemma_lerp_between(m.yaw as int, m.target_yaw as int, f.rotation as int);
    lemma_lerp_between(m.pitch as int, m.target_pitch as int, f.rotation as int);
    lemma_lerp_between(m.radius as int, m.target_radius as int, f.zoom as int);
}

/// Whatever the input, over any number of frames, the target pitch and the
/// target radius (and the current ones) never leave their bounds.
pub proof fn lemma_run_keeps_bounds(c: OrbitCamera, steps: Seq<(OrbitInput, DampingFactors)>)
    requires
        c.wf(),
        forall|k: int| 0 <= k < steps.len() ==> (#[trigger] steps[k]).1.wf(),
    ensures
        run(c, steps).wf(),
        PITCH_MIN <= run(c, steps).target_pitch <= PITCH_MAX,
        RADIUS_MIN <= run(c, steps).target_radius <= RADIUS_MAX,
    decreases steps.len(),
{
    if steps.len() > 0 {
        let prefix = steps.drop_last();
        assert(forall|k: int| 0 <= k < prefix.len() ==> prefix[k] == steps[k]);
        lemma_run_keeps_bounds(c, prefix);
        assert(steps.last() == steps[steps.len() - 1]);
        lemma_tick_wf(run(c, prefix), steps.last().0, steps.last().1);
    }
}

/// Input that moves no target: no pointer motion (or the button released) and no wheel.
pub open spec fn is_idle(i: OrbitInput) -> bool {
    (!i.orbit_held || (i.motion_x == 0 && i.motion_y == 0)) && i.scroll == 0
}

/// A frame without input leaves the targets where they are and moves each
/// current value toward its target without passing it; with a factor above
/// zero a value short of its target moves, so the distance strictly shrinks.
pub proof fn lemma_idle_tick_approaches(c: OrbitCamera, i: OrbitInput, f: DampingFactors)
    requires
        c.wf(),
        f.wf(),
        is_idle(i),
    ensures
        tick_spec(c, i, f).target_yaw == c.target_yaw,
        tick_spec(c, i, f).target_pitch == c.target_pitch,
        tick_spec(c, i, f).target_radius == c.target_radius,
        between(tick_spec(c, i, f).yaw as int, c.yaw as int, c.target_yaw as int),
        between(tick_spec(c, i, f).pitch as int, c.pitch as int, c.target_pitch as int),
        between(tick_spec(c, i, f).radius as int, c.radius as int, c.target_radius as int),
        f.rotation == FACTOR_ONE ==> tick_spec(c, i, f).yaw == c.target_yaw
            && tick_spec(c, i, f).pitch == c.target_pitch,
        f.zoom == FACTOR_ONE ==> tick_spec(c, i, f).radius == c.target_radius,
        f.rotation > 0 && c.yaw != c.target_yaw ==> tick_spec(c, i, f).yaw != c.yaw,
        f.rotation > 0 && c.pitch != c.target_pitch ==> tick_spec(c, i, f).pitch != c.pitch,
        f.zoom > 0 && c.radius != c.target_radius ==> tick_spec(c, i, f).radius != c.radius,
{
    assert(input_spec(c, i) == c);
    lemma_lerp_between(c.yaw as int, c.target_yaw as int, f.rotation as int);
    lemma_lerp_between(c.pitch as int, c.target_pitch as int, f.rotation as int);
    lemma_lerp_between(c.radius as int, c.target_radius as int, f.zoom as int);
}

/// Over any run of frames without input, the targets stay fixed, and every
/// frame moves each current value toward its target without passing it; so
/// each value stays between where it started and its target.
pub proof fn lemma_idle_run_converges(c: OrbitCamera, steps: Seq<(OrbitInput, DampingFactors)>)
    requires
        c.wf(),
        forall|k: int| 0 <= k < steps.len() ==> (#[trigger] steps[k]).1.wf() && is_idle(steps[k].0),
    ensures
        run(c, steps).wf(),
        run(c, steps).target_yaw == c.target_yaw,
        run(c, steps).target_pitch == c.target_pitch,
        run(c, steps).target_radius == c.target_radius,
        between(run(c, steps).yaw as int, c.yaw as int, c.target_yaw as int),
        between(run(c, steps).pitch as int, c.pitch as int, c.target_pitch as int),
        between(run(c, steps).radius as int, c.radius as int, c.target_radius as int),
        steps.len() > 0 ==> between(
            run(c, steps).yaw as int,
            run(c, steps.drop_last()).yaw as int,
            c.target_yaw as int,
        ) && between(
            run(c, steps).pitch as int,
            run(c, steps.drop_last()).pitch as int,
            c.target_pitch as int,
        ) && between(
            run(c, steps).radius as int,
            run(c, steps.drop_last()).radius as int,
            c.target_radius as int,
        ),
    decreases steps.len(),
{
    if steps.len() > 0 {
        let prefix = steps.drop_last();
        assert(forall|k: int| 0 <= k < prefix.len() ==> prefix[k] == steps[k]);
        lemma_idle_run_converges(c, prefix);
        assert(steps.last() == steps[steps.len() - 1]);
        lemma_idle_tick_approaches(run(c, prefix), steps.last().0, steps.last().1);
    }
}

} // verus!
