use vstd::prelude::*;

use crate::vec::{lemma_rotate_drift, norm2, rotate_spec, IFixed, Vec2, FIXED_ONE};

verus! {

/// Real part of the rotation per frame, 3 degrees:
/// `round(4096 * exp(3i * pi / 180))`, computed offline so that no
/// trigonometry runs on the device.
pub const ROT_DELTA_X: IFixed = 0xffa;

/// Imaginary part of the rotation per frame.
pub const ROT_DELTA_Y: IFixed = 0xd6;

/// Real part of the location change per frame, 1 degree:
/// `round(4096 * exp(1i * pi / 180))`.
pub const LOC_DELTA_X: IFixed = 0xfff;

/// Imaginary part of the location change per frame.
pub const LOC_DELTA_Y: IFixed = 0x47;

/// Frames per revolution of the rotation state.
pub const ROTATION_PERIOD: u16 = 120;

/// Frames per revolution of the location state.
pub const LOCATION_PERIOD: u16 = 360;

/// The rotation per frame as a vector.
pub open spec fn rot_delta() -> Vec2 {
    Vec2 { x: ROT_DELTA_X, y: ROT_DELTA_Y }
}

/// The location change per frame as a vector.
pub open spec fn loc_delta() -> Vec2 {
    Vec2 { x: LOC_DELTA_X, y: LOC_DELTA_Y }
}

/// The canonical start of both states: 1.0 + 0i.
pub open spec fn unit() -> Vec2 {
    Vec2 { x: FIXED_ONE, y: 0 }
}

/// The unit vector after `n` fixed-point multiplications by `delta`.
pub open spec fn spin(delta: Vec2, n: nat) -> Vec2
    decreases n,
{
    if n == 0 {
        unit()
    } else {
        rotate_spec(spin(delta, (n - 1) as nat), delta)
    }
}

/// Rotation and location state of the main loop, with their revolution
/// counters.
#[derive(Copy, Clone, Debug, PartialEq, Eq, Structural)]
pub struct FrameState {
    pub rotation: Vec2,
    pub location: Vec2,
    pub rotation_counter: u16,
    pub location_counter: u16,
}

/// The state one frame later: each counter advances modulo its period and
/// each vector is the start value spun as many times as its counter says.
pub open spec fn advance_spec(s: FrameState) -> FrameState {
    let rc = ((s.rotation_counter + 1) % (ROTATION_PERIOD as int)) as u16;
    let lc = ((s.location_counter + 1) % (LOCATION_PERIOD as int)) as u16;
    FrameState {
        rotation: spin(rot_delta(), rc as nat),
        location: spin(loc_delta(), lc as nat),
        rotation_counter: rc,
        location_counter: lc,
    }
}

/// The state `n` frames later.
pub open spec fn advance_n(s: FrameState, n: nat) -> FrameState
    decreases n,
{
    if n == 0 {
        s
    } else {
        advance_spec(advance_n(s, (n - 1) as nat))
    }
}

/// Largest squared magnitude a rotation state reaches within a revolution:
/// 1.0 plus two units of the last place for each of 119 steps.
pub open spec fn rotation_norm_bound() -> int {
    4334int * 4334
}

/// Largest squared magnitude a location state reaches within a revolution:
/// 1.0 plus two units of the last place for each of 359 steps.
pub open spec fn location_norm_bound() -> int {
    4814int * 4814
}

impl FrameState {
    /// Both counters lie within their periods, and each vector is the
    /// canonical start spun once per counted frame.
    pub open spec fn wf(&self) -> bool {
        &&& self.rotation_counter < ROTATION_PERIOD
        &&& self.location_counter < LOCATION_PERIOD
        &&& self.rotation == spin(rot_delta(), self.rotation_counter as nat)
        &&& self.location == spin(loc_delta(), self.location_counter as nat)
    }

    /// The canonical start: both vectors 1.0, both counters zero.
    pub fn new() -> (r: Self)
        ensures
            r.wf(),
            r.rotation_counter == 0,
            r.location_counter == 0,
            r.rotation == unit(),
            r.location == unit(),
            r == FrameState::new_spec(),
    {
        FrameState {
            rotation: Vec2 { x: FIXED_ONE, y: 0 },
            location: Vec2 { x: FIXED_ONE, y: 0 },
            rotation_counter: 0,
            location_counter: 0,
        }
    }

    /// Advance both vectors by one frame's delta, and snap each back to the
    /// canonical start when its revolution completes.
    pub fn advance(&mut self)
        requires
            old(self).wf(),
        ensures
            *final(self) == advance_spec(*old(self)),
            final(self).wf(),
    {
        self.rotation = self.rotation.rotate(Vec2 { x: ROT_DELTA_X, y: ROT_DELTA_Y });
        self.location = self.location.rotate(Vec2 { x: LOC_DELTA_X, y: LOC_DELTA_Y });
        self.rotation_counter = self.rotation_counter + 1;
        self.location_counter = self.location_counter + 1;
        if self.rotation_counter >= ROTATION_PERIOD {
            self.rotation_counter = 0;
            self.rotation = Vec2 { x: FIXED_ONE, y: 0 };
        }
        if self.location_counter >= LOCATION_PERIOD {
            self.location_counter = 0;
            self.location = Vec2 { x: FIXED_ONE, y: 0 };
        }
    }
}

/// Spinning a vector of magnitude at most 1.0 grows the unit vector by at
/// most two units of the last place per step.
pub proof fn lemma_spin_drift(delta: Vec2, n: nat)
    requires
        norm2(delta) <= 0x100_0000,
        n <= 12000,
    ensures
        norm2(spin(delta, n)) <= (4096 + 2 * n) * (4096 + 2 * n),
    decreases n,
{
    if n > 0 {
        lemma_spin_drift(delta, (n - 1) as nat);
        let b = 4096 + 2 * (n - 1);
        lemma_rotate_drift(spin(delta, (n - 1) as nat), delta, b);
        assert(b + 2 == 4096 + 2 * n);
    } else {
        assert(norm2(unit()) == 4096 * 4096);
    }
}

/// The states of a well-formed frame state stay within their drift bounds.
pub proof fn lemma_state_bounds(s: FrameState)
    requires
        s.wf(),
    ensures
        norm2(s.rotation) <= rotation_norm_bound(),
        norm2(s.location) <= location_norm_bound(),
{
    lemma_spin_drift(rot_delta(), s.rotation_counter as nat);
    lemma_spin_drift(loc_delta(), s.location_counter as nat);
    let (a, b) = (4096 + 2 * s.rotation_counter, 4096 + 2 * 119);
    assert(a * a <= b * b) by (nonlinear_arith)
        requires
            0 <= a <= b,
    ;
    let (c, d) = (4096 + 2 * s.location_counter, 4096 + 2 * 359);
    assert(c * c <= d * d) by (nonlinear_arith)
        requires
            0 <= c <= d,
    ;
}

/// Advancing keeps a frame state well-formed.
pub proof fn lemma_advance_wf(s: FrameState)
    requires
        s.wf(),
    ensures
        advance_spec(s).wf(),
{
}

/// `n` frames later each counter has moved `n` steps around its period.
pub proof fn lemma_advance_n(s: FrameState, n: nat)
    requires
        s.wf(),
    ensures
        advance_n(s, n).wf(),
        advance_n(s, n).rotation_counter == (s.rotation_counter + n) % (ROTATION_PERIOD as int),
        advance_n(s, n).location_counter == (s.location_counter + n) % (LOCATION_PERIOD as int),
    decreases n,
{
    if n > 0 {
        lemma_advance_n(s, (n - 1) as nat);
        lemma_advance_wf(advance_n(s, (n - 1) as nat));
        let p = advance_n(s, (n - 1) as nat);
        vstd::arithmetic::div_mod::lemma_add_mod_noop(s.rotation_counter + n - 1, 1, 120);
        vstd::arithmetic::div_mod::lemma_add_mod_noop(s.location_counter + n - 1, 1, 360);
        vstd::arithmetic::div_mod::lemma_small_mod(1, 120);
        vstd::arithmetic::div_mod::lemma_small_mod(1, 360);
    }
}

/// One revolution brings each state back exactly to where it was: after
/// 120 frames the rotation, after 360 frames the location. Drift cannot
/// accumulate beyond one revolution, however many frames are drawn.
pub proof fn lemma_revolution_reset(s: FrameState)
    requires
        s.wf(),
    ensures
        advance_n(s, ROTATION_PERIOD as nat).rotation == s.rotation,
        advance_n(s, LOCATION_PERIOD as nat).location == s.location,
{
    lemma_advance_n(s, ROTATION_PERIOD as nat);
    lemma_advance_n(s, LOCATION_PERIOD as nat);
    vstd::arithmetic::div_mod::lemma_mod_add_multiples_vanish(s.rotation_counter as int, 120);
    vstd::arithmetic::div_mod::lemma_small_mod(s.rotation_counter as nat, 120);
    vstd::arithmetic::div_mod::lemma_mod_add_multiples_vanish(s.location_counter as int, 360);
    vstd::arithmetic::div_mod::lemma_small_mod(s.location_counter as nat, 360);
}

/// However many frames are drawn from the canonical start, the rotation
/// state returns to 1.0 at every full revolution and both states stay
/// within their drift bounds.
pub proof fn lemma_no_unbounded_drift(n: nat)
    ensures
        advance_n(FrameState::new_spec(), (n * ROTATION_PERIOD) as nat).rotation == unit(),
        norm2(advance_n(FrameState::new_spec(), n).rotation) <= rotation_norm_bound(),
        norm2(advance_n(FrameState::new_spec(), n).location) <= location_norm_bound(),
{
    let s = FrameState::new_spec();
    lemma_advance_n(s, (n * ROTATION_PERIOD) as nat);
    vstd::arithmetic::div_mod::lemma_mod_multiples_basic(n as int, 120);
    lemma_advance_n(s, n);
    lemma_state_bounds(advance_n(s, n));
}

impl FrameState {
    /// The canonical start state.
    pub open spec fn new_spec() -> FrameState {
        FrameState { rotation: unit(), location: unit(), rotation_counter: 0, location_counter: 0 }
    }
}

} // verus!
