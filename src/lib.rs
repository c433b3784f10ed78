use vstd::prelude::*;

verus! {

/// The sign bit of the `f32` whose bit pattern is `b`.
pub open spec fn f32_sign(b: u32) -> u32 {
    b >> 31u32
}

/// The biased exponent field of the `f32` whose bit pattern is `b`.
pub open spec fn f32_exponent(b: u32) -> u32 {
    (b >> 23u32) & 0xffu32
}

/// The fraction field of the `f32` whose bit pattern is `b`.
pub open spec fn f32_fraction(b: u32) -> u32 {
    b & 0x7f_ffffu32
}

/// `b` is the bit pattern of the `f32` in [1, 2) nearest to `num / den`: a
/// positive finite number with exponent zero, whose value
/// `(2^23 + fraction) / 2^23` lies within half a unit in the last place
/// (2^-24) of `num / den`.
pub open spec fn is_nearest_f32_in_unit_octave(b: u32, num: int, den: int) -> bool {
    let scaled = 0x80_0000int + f32_fraction(b) as int;
    let err = den * scaled - num * 0x80_0000int;
    &&& den > 0
    &&& f32_sign(b) == 0
    &&& f32_exponent(b) == 127
    &&& 2 * err <= den
    &&& -den <= 2 * err
}

/// The bit pattern of the `f32` that the exported entry point returns: the
/// first component of the vector (1.7, 1.7, 1.7), that is the `f32` nearest
/// to 1.7.
pub fn test() -> (r: u32)
    ensures
        r == 0x3FD9_999Au32,
        is_nearest_f32_in_unit_octave(r, 17, 10),
{
    let r: u32 = 0x3FD9_999A;
    assert(f32_sign(r) == 0) by (bit_vector)
        requires
            r == 0x3FD9_999Au32,
    ;
    assert(f32_exponent(r) == 127) by (bit_vector)
        requires
            r == 0x3FD9_999Au32,
    ;
    assert(f32_fraction(r) == 0x59_999A) by (bit_vector)
        requires
            r == 0x3FD9_999Au32,
    ;
    r
}

/// What becomes of one candidate step of the field-line tracer.
#[derive(Clone, Copy, Debug, PartialEq, Eq, Structural)]
pub enum StepVerdict {
    /// The displacement is within the allowed width: the point moves.
    Accept,
    /// The displacement is too wide: the step is tried again with half the step size.
    Halve,
    /// The step size has been halved as often as allowed: the step does not converge.
    GiveUp,
}

/// The verdict on a candidate step, given how often its step size has been
/// halved, how often that is allowed, and whether the displacement was too wide.
pub open spec fn verdict_of(halvings: nat, max_halvings: nat, too_wide: bool) -> StepVerdict {
    if !too_wide {
        StepVerdict::Accept
    } else if halvings < max_halvings {
        StepVerdict::Halve
    } else {
        StepVerdict::GiveUp
    }
}

/// Judges one candidate step.
pub fn judge_step(halvings: u32, max_halvings: u32, too_wide: bool) -> (v: StepVerdict)
    ensures
        v == verdict_of(halvings as nat, max_halvings as nat, too_wide),
{
    if !too_wide {
        StepVerdict::Accept
    } else if halvings < max_halvings {
        StepVerdict::Halve
    } else {
        StepVerdict::GiveUp
    }
}

/// The state of a step controller: how often the current step's size has been
/// halved, and how often it may be.
pub struct ControllerState {
    pub halvings: nat,
    pub max_halvings: nat,
}

/// The state of a fresh controller that allows `max_halvings` halvings.
pub open spec fn fresh_state(max_halvings: nat) -> ControllerState {
    ControllerState { halvings: 0, max_halvings }
}

/// The state after one candidate step was judged. An accepted step starts
/// the next one at the full step size; a halving counts; giving up changes nothing.
pub open spec fn next_state(s: ControllerState, too_wide: bool) -> ControllerState {
    match verdict_of(s.halvings, s.max_halvings, too_wide) {
        StepVerdict::Accept => ControllerState { halvings: 0, ..s },
        StepVerdict::Halve => ControllerState { halvings: s.halvings + 1, ..s },
        StepVerdict::GiveUp => s,
    }
}

/// The state after `k` candidate steps in a row were too wide.
pub open spec fn after_rejections(s: ControllerState, k: nat) -> ControllerState
    decreases k,
{
    if k == 0 {
        s
    } else {
        next_state(after_rejections(s, (k - 1) as nat), true)
    }
}

/// Step halving ends: from a fresh controller, each of the first
/// `max_halvings` rejected candidates halves the step size once more, and the
/// rejection after those gives up, so no step is halved more than
/// `max_halvings` times.
pub proof fn lemma_halving_is_bounded(max_halvings: nat, k: nat)
    ensures
        after_rejections(fresh_state(max_halvings), k).halvings == if k < max_halvings {
            k
        } else {
            max_halvings
        },
        after_rejections(fresh_state(max_halvings), k).max_halvings == max_halvings,
        verdict_of(
            after_rejections(fresh_state(max_halvings), k).halvings,
            max_halvings,
            true,
        ) == if k < max_halvings {
            StepVerdict::Halve
        } else {
            StepVerdict::GiveUp
        },
    decreases k,
{
    if k > 0 {
        lemma_halving_is_bounded(max_halvings, (k - 1) as nat);
    }
}

/// Decides, candidate step after candidate step, whether the tracer moves the
/// point, halves the step size and tries again, or gives up on the step.
pub struct StepController {
    halvings: u32,
    max_halvings: u32,
}

impl View for StepController {
    type V = ControllerState;

    closed spec fn view(&self) -> ControllerState {
        ControllerState { halvings: self.halvings as nat, max_halvings: self.max_halvings as nat }
    }
}

impl StepController {
    /// The step size is never halved more often than allowed.
    pub open spec fn wf(&self) -> bool {
        self@.halvings <= self@.max_halvings
    }

    /// A controller for a step at the full step size, which gives up after
    /// `max_halvings` halvings.
    pub fn new(max_halvings: u32) -> (c: StepController)
        ensures
            c@ == fresh_state(max_halvings as nat),
            c.wf(),
    {
        StepController { halvings: 0, max_halvings }
    }

    /// How often the current step's size has been halved: the step size to try
    /// is the full one divided by two to this power.
    pub fn halvings(&self) -> (r: u32)
        ensures
            r == self@.halvings,
    {
        self.halvings
    }

    /// How often a step's size may be halved.
    pub fn max_halvings(&self) -> (r: u32)
        ensures
            r == self@.max_halvings,
    {
        self.max_halvings
    }

    /// Judges a candidate step whose displacement was, or was not, wider than
    /// allowed, and moves to the state that the verdict leads to.
    pub fn judge(&mut self, too_wide: bool) -> (v: StepVerdict)
        requires
            old(self).wf(),
        ensures
            v == verdict_of(old(self)@.halvings, old(self)@.max_halvings, too_wide),
            final(self)@ == next_state(old(self)@, too_wide),
            final(self).wf(),
    {
        let v = judge_step(self.halvings, self.max_halvings, too_wide);
        match v {
            StepVerdict::Accept => {
                self.halvings = 0;
            },
            StepVerdict::Halve => {
                self.halvings = self.halvings + 1;
            },
            StepVerdict::GiveUp => {},
        }
        v
    }
}

} // verus!
