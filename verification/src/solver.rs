//! The explicit fourth-order Runge-Kutta integrator.
//!
//! The solver owns the primary field state, four derivative buffers and
//! three intermediate-stage buffers, all allocated once at construction and
//! reused on every step — `step` never allocates.  The contract of `step`
//! records the exact classic RK4 composition: which buffer was derived from
//! which state, and with which weight each derivative estimate entered each
//! stage and the final combination.  The scalar weights themselves (one
//! half, one, one sixth, two sixths) live inside the closures the caller
//! supplies, one per weight, exactly as prescribed.

use vstd::prelude::*;

use crate::state::FieldState;
use crate::state::accumulation_of;
use crate::state::scaled_derivative_of;

verus! {

/// `a` carries the same fixed identity as `b`: the size, the wave
/// coefficient and every damping cell (guards included) agree.
pub open spec fn matches_identity<T: Copy>(a: FieldState<T>, b: FieldState<T>) -> bool {
    &&& a.size == b.size
    &&& a.wave_coeff == b.wave_coeff
    &&& forall|i: int| -1 <= i <= b.size ==> #[trigger] a.damp.cell(i) == b.damp.cell(i)
}

/// An RK4 integrator: the primary state, the four derivative estimates
/// `delta1..delta4`, and the three intermediate stages `approx1..approx3`.
pub struct WaveRk4Solver<T> {
    /// The primary field state the solver advances.
    pub state: FieldState<T>,
    /// First derivative estimate, taken at the current state.
    pub delta1: FieldState<T>,
    /// Second derivative estimate, taken at the first stage.
    pub delta2: FieldState<T>,
    /// Third derivative estimate, taken at the second stage.
    pub delta3: FieldState<T>,
    /// Fourth derivative estimate, taken at the third stage.
    pub delta4: FieldState<T>,
    /// First intermediate stage: state plus half of `delta1`.
    pub approx1: FieldState<T>,
    /// Second intermediate stage: state plus half of `delta2`.
    pub approx2: FieldState<T>,
    /// Third intermediate stage: state plus the whole of `delta3`.
    pub approx3: FieldState<T>,
}

/// `post` is the outcome of one classic RK4 step from `pre`: `delta1` was
/// derived at the old state; stage `approx1` is the old state plus half of
/// `delta1` and yielded `delta2`; `approx2` is the old state plus half of
/// `delta2` and yielded `delta3`; `approx3` is the old state plus the whole
/// of `delta3` and yielded `delta4`; the new state accumulated `delta1`,
/// `delta2`, `delta3`, `delta4` in turn with weights one sixth, two sixths,
/// two sixths, one sixth.  The state's guard cells, damping row and wave
/// coefficient are untouched.
pub open spec fn rk4_step_relates<
    T: Copy,
    FP: Fn(T) -> T,
    FV: Fn(T, T, T, T, T) -> T,
    CH: Fn(T, T) -> T,
    CW: Fn(T, T) -> T,
    CS: Fn(T, T) -> T,
    CT: Fn(T, T) -> T,
>(
    pre: WaveRk4Solver<T>,
    post: WaveRk4Solver<T>,
    pos_rate: FP,
    vel_rate: FV,
    half_weight: CH,
    full_weight: CW,
    sixth_weight: CS,
    third_weight: CT,
) -> bool {
    &&& post.state.size == pre.state.size
    &&& post.state.damp == pre.state.damp
    &&& post.state.wave_coeff == pre.state.wave_coeff
    &&& post.state.pos.cell(-1) == pre.state.pos.cell(-1)
    &&& post.state.pos.cell(pre.state.size as int) == pre.state.pos.cell(pre.state.size as int)
    &&& post.state.vel.cell(-1) == pre.state.vel.cell(-1)
    &&& post.state.vel.cell(pre.state.size as int) == pre.state.vel.cell(pre.state.size as int)
    &&& scaled_derivative_of(pre.state, post.delta1, pos_rate, vel_rate)
    &&& accumulation_of(pre.state, post.delta1, post.approx1, half_weight)
    &&& scaled_derivative_of(post.approx1, post.delta2, pos_rate, vel_rate)
    &&& accumulation_of(pre.state, post.delta2, post.approx2, half_weight)
    &&& scaled_derivative_of(post.approx2, post.delta3, pos_rate, vel_rate)
    &&& accumulation_of(pre.state, post.delta3, post.approx3, full_weight)
    &&& scaled_derivative_of(post.approx3, post.delta4, pos_rate, vel_rate)
    &&& exists|s1: FieldState<T>, s2: FieldState<T>, s3: FieldState<T>|
        accumulation_of(pre.state, post.delta1, s1, sixth_weight)
            && accumulation_of(s1, post.delta2, s2, third_weight)
            && accumulation_of(s2, post.delta3, s3, third_weight)
            && accumulation_of(s3, post.delta4, post.state, sixth_weight)
}

/// `end` is reachable from `start` by exactly `n` RK4 steps with the given
/// scalar operations — zero steps leave the solver as it is.
pub open spec fn rk4_steps_relate<
    T: Copy,
    FP: Fn(T) -> T,
    FV: Fn(T, T, T, T, T) -> T,
    CH: Fn(T, T) -> T,
    CW: Fn(T, T) -> T,
    CS: Fn(T, T) -> T,
    CT: Fn(T, T) -> T,
>(
    start: WaveRk4Solver<T>,
    end: WaveRk4Solver<T>,
    n: nat,
    pos_rate: FP,
    vel_rate: FV,
    half_weight: CH,
    full_weight: CW,
    sixth_weight: CS,
    third_weight: CT,
) -> bool
    decreases n,
{
    if n == 0 {
        end == start
    } else {
        exists|mid: WaveRk4Solver<T>|
            rk4_steps_relate(
                start,
                mid,
                (n - 1) as nat,
                pos_rate,
                vel_rate,
                half_weight,
                full_weight,
                sixth_weight,
                third_weight,
            ) && #[trigger] rk4_step_relates(
                mid,
                end,
                pos_rate,
                vel_rate,
                half_weight,
                full_weight,
                sixth_weight,
                third_weight,
            )
    }
}

impl<T: Copy> WaveRk4Solver<T> {
    /// Well-formed: every buffer is a well-formed field of the primary
    /// state's size carrying the primary state's fixed identity.
    pub open spec fn wf(&self) -> bool {
        &&& self.state.wf()
        &&& self.delta1.wf() && self.delta2.wf() && self.delta3.wf() && self.delta4.wf()
        &&& self.approx1.wf() && self.approx2.wf() && self.approx3.wf()
        &&& matches_identity(self.delta1, self.state)
        &&& matches_identity(self.delta2, self.state)
        &&& matches_identity(self.delta3, self.state)
        &&& matches_identity(self.delta4, self.state)
        &&& matches_identity(self.approx1, self.state)
        &&& matches_identity(self.approx2, self.state)
        &&& matches_identity(self.approx3, self.state)
    }

    /// Build a solver around `initial_state`, cloning it into every buffer
    /// so that all buffers share its size, damping row and wave coefficient.
    /// This is the only allocation the solver ever performs.
    pub fn new(initial_state: FieldState<T>) -> (r: Self)
        requires
            initial_state.wf(),
        ensures
            r.wf(),
            r.state == initial_state,
            r.delta1.mirrors(initial_state),
            r.delta2.mirrors(initial_state),
            r.delta3.mirrors(initial_state),
            r.delta4.mirrors(initial_state),
            r.approx1.mirrors(initial_state),
            r.approx2.mirrors(initial_state),
            r.approx3.mirrors(initial_state),
    {
        let delta1 = initial_state.duplicate();
        let delta2 = initial_state.duplicate();
        let delta3 = initial_state.duplicate();
        let delta4 = initial_state.duplicate();
        let approx1 = initial_state.duplicate();
        let approx2 = initial_state.duplicate();
        let approx3 = initial_state.duplicate();
        WaveRk4Solver {
            state: initial_state,
            delta1,
            delta2,
            delta3,
            delta4,
            approx1,
            approx2,
            approx3,
        }
    }

    /// Advance the primary state by one classic explicit RK4 step.
    ///
    /// `pos_rate` and `vel_rate` are the scaled derivative of the damped
    /// wave equation (each already carrying the factor `dt`);
    /// `half_weight`, `full_weight`, `sixth_weight` and `third_weight` add a
    /// delta cell scaled by one half, one, one sixth and two sixths — the
    /// canonical RK4 coefficients.  The contract pins the exact stage
    /// composition through `rk4_step_relates`; no buffer is allocated.
    pub fn step<FP, FV, CH, CW, CS, CT>(
        &mut self,
        pos_rate: FP,
        vel_rate: FV,
        half_weight: CH,
        full_weight: CW,
        sixth_weight: CS,
        third_weight: CT,
    ) where
        FP: Fn(T) -> T + Copy,
        FV: Fn(T, T, T, T, T) -> T + Copy,
        CH: Fn(T, T) -> T + Copy,
        CW: Fn(T, T) -> T,
        CS: Fn(T, T) -> T + Copy,
        CT: Fn(T, T) -> T + Copy,

        requires
            old(self).wf(),
            forall|t: T| #[trigger] call_requires(pos_rate, (t,)),
            forall|a: T, b: T, c: T, d: T, v: T| #[trigger] call_requires(
                vel_rate,
                (a, b, c, d, v),
            ),
            forall|a: T, b: T| #[trigger] call_requires(half_weight, (a, b)),
            forall|a: T, b: T| #[trigger] call_requires(full_weight, (a, b)),
            forall|a: T, b: T| #[trigger] call_requires(sixth_weight, (a, b)),
            forall|a: T, b: T| #[trigger] call_requires(third_weight, (a, b)),
        ensures
            final(self).wf(),
            rk4_step_relates(
                *old(self),
                *final(self),
                pos_rate,
                vel_rate,
                half_weight,
                full_weight,
                sixth_weight,
                third_weight,
            ),
    {
        self.state.compute_scaled_derivative(&mut self.delta1, pos_rate, vel_rate);

        self.approx1.copy_state_from(&self.state);
        self.approx1.accumulate_scaled(&self.delta1, half_weight);
        self.approx1.compute_scaled_derivative(&mut self.delta2, pos_rate, vel_rate);

        self.approx2.copy_state_from(&self.state);
        self.approx2.accumulate_scaled(&self.delta2, half_weight);
        self.approx2.compute_scaled_derivative(&mut self.delta3, pos_rate, vel_rate);

        self.approx3.copy_state_from(&self.state);
        self.approx3.accumulate_scaled(&self.delta3, full_weight);
        self.approx3.compute_scaled_derivative(&mut self.delta4, pos_rate, vel_rate);

        self.state.accumulate_scaled(&self.delta1, sixth_weight);
        let ghost s1 = self.state;
        self.state.accumulate_scaled(&self.delta2, third_weight);
        let ghost s2 = self.state;
        self.state.accumulate_scaled(&self.delta3, third_weight);
        let ghost s3 = self.state;
        self.state.accumulate_scaled(&self.delta4, sixth_weight);
        proof {
            assert(accumulation_of(old(self).state, self.delta1, s1, sixth_weight));
            assert(accumulation_of(s1, self.delta2, s2, third_weight));
            assert(accumulation_of(s2, self.delta3, s3, third_weight));
            assert(accumulation_of(s3, self.delta4, self.state, sixth_weight));
        }
    }

    /// Advance the primary state by exactly `num_substeps` equal RK4 steps
    /// with the given scalar operations — the caller divides the total
    /// duration into the steps' width when it builds the closures, trading
    /// compute cost against accuracy.
    pub fn advance<FP, FV, CH, CW, CS, CT>(
        &mut self,
        num_substeps: u32,
        pos_rate: FP,
        vel_rate: FV,
        half_weight: CH,
        full_weight: CW,
        sixth_weight: CS,
        third_weight: CT,
    ) where
        FP: Fn(T) -> T + Copy,
        FV: Fn(T, T, T, T, T) -> T + Copy,
        CH: Fn(T, T) -> T + Copy,
        CW: Fn(T, T) -> T + Copy,
        CS: Fn(T, T) -> T + Copy,
        CT: Fn(T, T) -> T + Copy,

        requires
            old(self).wf(),
            forall|t: T| #[trigger] call_requires(pos_rate, (t,)),
            forall|a: T, b: T, c: T, d: T, v: T| #[trigger] call_requires(
                vel_rate,
                (a, b, c, d, v),
            ),
            forall|a: T, b: T| #[trigger] call_requires(half_weight, (a, b)),
            forall|a: T, b: T| #[trigger] call_requires(full_weight, (a, b)),
            forall|a: T, b: T| #[trigger] call_requires(sixth_weight, (a, b)),
            forall|a: T, b: T| #[trigger] call_requires(third_weight, (a, b)),
        ensures
            final(self).wf(),
            rk4_steps_relate(
                *old(self),
                *final(self),
                num_substeps as nat,
                pos_rate,
                vel_rate,
                half_weight,
                full_weight,
                sixth_weight,
                third_weight,
            ),
    {
        let mut k: u32 = 0;
        while k < num_substeps
            invariant
                k <= num_substeps,
                self.wf(),
                forall|t: T| #[trigger] call_requires(pos_rate, (t,)),
                forall|a: T, b: T, c: T, d: T, v: T| #[trigger] call_requires(
                    vel_rate,
                    (a, b, c, d, v),
                ),
                forall|a: T, b: T| #[trigger] call_requires(half_weight, (a, b)),
                forall|a: T, b: T| #[trigger] call_requires(full_weight, (a, b)),
                forall|a: T, b: T| #[trigger] call_requires(sixth_weight, (a, b)),
                forall|a: T, b: T| #[trigger] call_requires(third_weight, (a, b)),
                rk4_steps_relate(
                    *old(self),
                    *self,
                    k as nat,
                    pos_rate,
                    vel_rate,
                    half_weight,
                    full_weight,
                    sixth_weight,
                    third_weight,
                ),
            decreases num_substeps - k,
        {
            let ghost prev = *self;
            self.step(pos_rate, vel_rate, half_weight, full_weight, sixth_weight, third_weight);
            k = k + 1;
            proof {
                assert(rk4_steps_relate(
                    *old(self),
                    prev,
                    (k - 1) as nat,
                    pos_rate,
                    vel_rate,
                    half_weight,
                    full_weight,
                    sixth_weight,
                    third_weight,
                ));
                assert(rk4_step_relates(
                    prev,
                    *self,
                    pos_rate,
                    vel_rate,
                    half_weight,
                    full_weight,
                    sixth_weight,
                    third_weight,
                ));
            }
        }
    }
}

} // verus!
