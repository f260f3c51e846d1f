//! One unison-copy oscillator lane: a wrapping fixed-point phase
//! accumulator, a log-domain smoothed phase increment, and a smoothed
//! frame position.
//!
//! `OscillatorParams` derives a lane's targets from its voice's
//! parameter snapshot: the lane's place in the unison stack gives it a
//! normalized detune from a symmetric, alternating-sign table, the
//! detune is scaled into semitones and folded into the log-domain phase
//! increment, and the frame target follows the voice's frame position.
//! Each sample the lane advances its smoothers, accumulates phase, and
//! reads the band-limited tables.
use crate::fixed::{exp2_q16, exp2_q16_spec, LOG_PD_MAX};
use crate::smoother::LinearSmoother;
use crate::voice::{VoiceParams, SEMITONE_BOUND};
use crate::wavetable::{BandLimitedWaveTables, MAX_FRAMES};
use crate::{MAX_UNISON, NUM_OCTAVES, ONE_Q16};
use vstd::arithmetic::div_mod::{
    lemma_add_mod_noop, lemma_fundamental_div_mod, lemma_fundamental_div_mod_converse,
    lemma_mod_bound, lemma_mod_multiples_vanish, lemma_small_mod,
};
use vstd::prelude::*;

verus! {

/// The phase accumulator's modulus: phase wraps at `2^32`.
pub const PHASE_MODULUS: u64 = 0x1_0000_0000;

/// A stereo output sample in Q24 fixed point, left and right summed
/// over a voice's lanes.
#[derive(Clone, Copy, PartialEq, Eq, Structural, Debug)]
pub struct StereoOut {
    pub left: i64,
    pub right: i64,
}

/// Advancing the accumulator once: add the increment, wrap at `2^32`.
pub open spec fn advance_phase_spec(p: u32, d: u32) -> u32 {
    ((p as int + d as int) % (PHASE_MODULUS as int)) as u32
}

/// The accumulator after `n` steps of the same increment.
pub open spec fn advanced_n_spec(p: u32, d: u32, n: nat) -> u32
    decreases n,
{
    if n == 0 {
        p
    } else {
        advance_phase_spec(advanced_n_spec(p, d, (n - 1) as nat), d)
    }
}

/// Closed form of repeated advancement: `n` steps of `d` land on
/// `(p + n * d) mod 2^32`.
pub proof fn lemma_advanced_n_closed(p: u32, d: u32, n: nat)
    ensures
        advanced_n_spec(p, d, n) == ((p + n * d) % (PHASE_MODULUS as int)) as u32,
    decreases n,
{
    let m = PHASE_MODULUS as int;
    if n == 0 {
        assert((n * d) as int == 0) by (nonlinear_arith)
            requires
                n == 0,
        ;
        lemma_small_mod(p as nat, PHASE_MODULUS as nat);
    } else {
        lemma_advanced_n_closed(p, d, (n - 1) as nat);
        let prev = (p + (n - 1) * d) % m;
        lemma_mod_bound(p + (n - 1) * d, m);
        lemma_small_mod(prev as nat, PHASE_MODULUS as nat);
        lemma_small_mod(d as nat, PHASE_MODULUS as nat);
        lemma_add_mod_noop(p + (n - 1) * d, d as int, m);
        assert(p + (n - 1) * d + d == p + n * d) by (nonlinear_arith)
            requires
                n >= 1,
        ;
    }
}

/// Exact phase wraparound: for an increment that divides the phase
/// range, advancing `2^32 / d` times returns the accumulator exactly to
/// its starting value, with no drift.
pub proof fn lemma_phase_wraparound(p: u32, d: u32, n: nat)
    requires
        d >= 1,
        (PHASE_MODULUS as int) % (d as int) == 0,
        n == (PHASE_MODULUS as int) / (d as int),
    ensures
        advanced_n_spec(p, d, n) == p,
{
    let m = PHASE_MODULUS as int;
    lemma_advanced_n_closed(p, d, n);
    lemma_fundamental_div_mod(m, d as int);
    assert(n * d == m) by (nonlinear_arith)
        requires
            m == (d as int) * ((m / (d as int))) + m % (d as int),
            m % (d as int) == 0,
            n == m / (d as int),
    ;
    lemma_mod_multiples_vanish(1, p as int, m);
    lemma_small_mod(p as nat, PHASE_MODULUS as nat);
}

/// Number of oscillator lanes a unison count engages: rounded up to a
/// whole stereo pair so left and right stay balanced.
pub open spec fn active_copies_spec(n: int) -> int {
    n + n % 2
}

/// Detune-stack pairs engaged by a unison count.
pub open spec fn num_pairs_spec(n: int) -> int {
    active_copies_spec(n) / 2
}

/// Magnitude of a pair's normalized detune, in Q16: pairs spread evenly
/// from `1 / num_pairs` (innermost) to `1` (outermost); a single
/// un-detuned voice sits at zero.
pub open spec fn detune_magnitude_spec(n: int, pair: int) -> int {
    if n <= 1 {
        0
    } else {
        (pair + 1) * 65536 / num_pairs_spec(n)
    }
}

/// The detune sign alternates so stacked copies spread left and right
/// evenly: within a pair the two lanes take opposite signs.
pub open spec fn detune_sign_negative_spec(k: int) -> bool {
    (k % 2) != ((k / 2) % 2)
}

/// The normalized detune of lane `k` in the stack for unison count `n`.
pub open spec fn norm_detune_spec(n: int, k: int) -> int {
    if detune_sign_negative_spec(k) {
        -detune_magnitude_spec(n, k / 2)
    } else {
        detune_magnitude_spec(n, k / 2)
    }
}

/// Sum of the first `m` normalized detunes of the row for count `n`.
pub open spec fn detune_row_sum(n: int, m: int) -> int
    decreases m,
{
    if m <= 0 {
        0
    } else {
        detune_row_sum(n, m - 1) + norm_detune_spec(n, m - 1)
    }
}

proof fn lemma_detune_pairs_cancel(n: int, m: int)
    requires
        0 <= m,
        m % 2 == 0,
    ensures
        detune_row_sum(n, m) == 0,
    decreases m,
{
    if m > 0 {
        lemma_detune_pairs_cancel(n, m - 2);
        assert(detune_row_sum(n, m) == detune_row_sum(n, m - 1) + norm_detune_spec(n, m - 1));
        assert(detune_row_sum(n, m - 1) == detune_row_sum(n, m - 2) + norm_detune_spec(n, m - 2));
        assert((m - 2) / 2 == (m - 1) / 2);
        assert(norm_detune_spec(n, m - 2) + norm_detune_spec(n, m - 1) == 0);
    }
}

/// Unison symmetry: for any unison count the normalized detunes of the
/// engaged lanes sum to zero, so the stack spreads symmetrically around
/// the note's center pitch.
pub proof fn lemma_unison_detune_symmetry(n: int)
    requires
        1 <= n <= MAX_UNISON,
    ensures
        detune_row_sum(n, active_copies_spec(n)) == 0,
{
    lemma_detune_pairs_cancel(n, active_copies_spec(n));
}

/// The normalized detune of one lane, computed from its place in the
/// stack.
pub fn norm_detune(n: u32, k: usize) -> (r: i64)
    requires
        1 <= n <= MAX_UNISON,
        k < MAX_UNISON,
    ensures
        r == norm_detune_spec(n as int, k as int),
        -0x80000 <= r <= 0x80000,
        k < active_copies_spec(n as int) ==> -65536 <= r <= 65536,
    {
    let pair: u64 = (k as u64) / 2;
    let magnitude: i64 = if n <= 1 {
        0
    } else {
        let pairs: u64 = ((n as u64) + (n as u64) % 2) / 2;
        (((pair + 1) * 65536) / pairs) as i64
    };
    proof {
        if n > 1 && k < active_copies_spec(n as int) {
            let pairs = num_pairs_spec(n as int);
            assert((pair + 1) * 65536 <= pairs * 65536) by (nonlinear_arith)
                requires
                    pair + 1 <= pairs,
            ;
            vstd::arithmetic::div_mod::lemma_div_is_ordered(
                ((pair + 1) * 65536) as int,
                pairs * 65536,
                pairs,
            );
            vstd::arithmetic::div_mod::lemma_div_multiples_vanish(65536, pairs);
            vstd::arithmetic::mul::lemma_mul_is_commutative(pairs, 65536);
        }
        if n > 1 {
            let pairs = num_pairs_spec(n as int);
            assert((pair + 1) * 65536 <= 524288 * pairs) by (nonlinear_arith)
                requires
                    pair + 1 <= 8,
                    pairs >= 1,
            ;
            vstd::arithmetic::div_mod::lemma_div_is_ordered(
                ((pair + 1) * 65536) as int,
                524288 * pairs,
                pairs,
            );
            vstd::arithmetic::div_mod::lemma_div_multiples_vanish(524288int, pairs);
            vstd::arithmetic::mul::lemma_mul_is_commutative(pairs, 524288int);
        }
    }
    if (k as u64) % 2 != pair % 2 {
        -magnitude
    } else {
        magnitude
    }
}

/// The starting phase one lane adopts on activation: its configured
/// phase scaled by the randomization amount.
pub open spec fn start_phase_spec(p: OscillatorParams) -> u32 {
    (p.params.starting_phases@[p.index as int] as int * p.params.random / 65536) as u32
}

/// The targets one lane derives from its voice's snapshot.
pub struct OscillatorParams {
    /// The lane's index within the unison stack.
    pub index: usize,
    /// The owning voice's parameter snapshot.
    pub params: VoiceParams,
}

impl OscillatorParams {
    /// Package a lane index with its voice's snapshot.
    pub fn new(index: usize, params: &VoiceParams) -> (r: OscillatorParams)
        requires
            index < MAX_UNISON,
        ensures
            r.index == index,
            r.params == *params,
    {
        OscillatorParams { index, params: *params }
    }

    /// Per-lane multiplier of the base phase increment; the stack keeps
    /// every copy at the note's own octave.
    pub fn unison_stack_mult(&self) -> (r: i64)
        ensures
            r == ONE_Q16,
    {
        ONE_Q16
    }

    /// Per-lane frame spread; the frame target currently follows the
    /// voice's frame position with no per-copy offset.
    pub fn frame_spread(&self) -> (r: i64)
        ensures
            r == 0,
    {
        0
    }

    /// The lane's starting phase: the voice's configured phase for this
    /// lane, scaled by the randomization amount.
    pub fn starting_phases(&self) -> (r: u32)
        requires
            self.params.wf(),
            self.index < MAX_UNISON,
        ensures
            r == start_phase_spec(*self),
    {
        let base: u64 = self.params.starting_phases[self.index] as u64;
        proof {
            assert(base * (self.params.random as u64) <= base * 65536) by (nonlinear_arith)
                requires
                    0 <= self.params.random <= 65536,
                    base >= 0,
            ;
        }
        let scaled: u64 = base * (self.params.random as u64) / 65536;
        proof {
            vstd::arithmetic::div_mod::lemma_div_is_ordered(
                (base * (self.params.random as u64)) as int,
                (base * 65536) as int,
                65536,
            );
            vstd::arithmetic::div_mod::lemma_div_multiples_vanish(base as int, 65536);
            vstd::arithmetic::mul::lemma_mul_is_commutative(base as int, 65536);
        }
        scaled as u32
    }

    /// The lane's detune in Q16 semitones: its normalized detune scaled
    /// by the voice's spread, plus the transpose.
    pub open spec fn detune_semitones_spec(&self) -> int {
        self.params.detune * norm_detune_spec(
            self.params.num_voices as int,
            self.index as int,
        ) / 65536 + self.params.transpose
    }

    /// The lane's log-domain phase-increment target: the note's base
    /// increment shifted by the detune (twelve semitones to the octave),
    /// clamped to the representable pitch range.
    pub open spec fn log_phase_delta_target_spec(&self) -> int {
        let unclamped = self.params.phase_delta + self.detune_semitones_spec() / 12;
        if unclamped < 0 {
            0
        } else if unclamped > LOG_PD_MAX {
            LOG_PD_MAX as int
        } else {
            unclamped
        }
    }

    /// The lane's frame target in Q16 table positions: the normalized
    /// frame, kept strictly inside `(0, 1)`, scaled by the frame count.
    pub open spec fn frame_target_spec(&self) -> int {
        let clamped = if self.params.frame < 1 {
            1
        } else if self.params.frame > 65535 {
            65535
        } else {
            self.params.frame as int
        };
        clamped * self.params.num_frames
    }

    /// Whether this lane sounds at the voice's unison count.
    pub open spec fn active_spec(&self) -> bool {
        (self.index as int) < active_copies_spec(self.params.num_voices as int)
    }

    /// Derive the lane's targets: log-domain phase increment, frame
    /// position, and whether the lane is engaged.
    pub fn get_params(&self) -> (r: (i64, i64, bool))
        requires
            self.params.wf(),
            self.index < MAX_UNISON,
        ensures
            r.0 == self.log_phase_delta_target_spec(),
            0 <= r.0 <= LOG_PD_MAX,
            r.1 == self.frame_target_spec(),
            0 < r.1 < self.params.num_frames * 65536,
            r.2 == self.active_spec(),
    {
        let nd: i64 = norm_detune(self.params.num_voices, self.index);
        proof {
            assert(-SEMITONE_BOUND * 0x80000 <= self.params.detune * nd <= SEMITONE_BOUND
                * 0x80000) by (nonlinear_arith)
                requires
                    -SEMITONE_BOUND <= self.params.detune <= SEMITONE_BOUND,
                    -0x80000 <= nd <= 0x80000,
            ;
        }
        let scaled: i64 = div_floor_q16(self.params.detune * nd);
        let semis: i64 = scaled + self.params.transpose;
        let offset: i64 = div_floor_12(semis);
        let unclamped: i64 = self.params.phase_delta + offset;
        let log_pd: i64 = if unclamped < 0 {
            0
        } else if unclamped > LOG_PD_MAX {
            LOG_PD_MAX
        } else {
            unclamped
        };
        let clamped_frame: i64 = if self.params.frame < 1 {
            1
        } else if self.params.frame > 65535 {
            65535
        } else {
            self.params.frame
        };
        proof {
            assert(0 < clamped_frame * self.params.num_frames < self.params.num_frames * 65536)
                by (nonlinear_arith)
                requires
                    1 <= clamped_frame <= 65535,
                    1 <= self.params.num_frames <= MAX_FRAMES,
            ;
        }
        let frame_target: i64 = clamped_frame * (self.params.num_frames as i64);
        let active: bool = self.index
            < (self.params.num_voices as usize) + (self.params.num_voices as usize) % 2;
        (log_pd, frame_target, active)
    }
}

/// Divide by `2^16`, rounding toward negative infinity.
fn div_floor_q16(x: i64) -> (r: i64)
    requires
        -0x4000_0000_0000_0000 < x < 0x4000_0000_0000_0000,
    ensures
        r == x as int / 65536,
{
    div_floor(x, 65536)
}

/// Divide by twelve, rounding toward negative infinity.
fn div_floor_12(x: i64) -> (r: i64)
    requires
        -0x4000_0000_0000_0000 < x < 0x4000_0000_0000_0000,
    ensures
        r == x as int / 12,
{
    div_floor(x, 12)
}

/// Floor division of a bounded signed value by a small positive divisor.
pub(crate) fn div_floor(x: i64, d: u32) -> (r: i64)
    requires
        -0x4000_0000_0000_0000 < x < 0x4000_0000_0000_0000,
        1 <= d,
    ensures
        r == x as int / d as int,
{
    if x >= 0 {
        ((x as u64) / (d as u64)) as i64
    } else {
        let n: u64 = (-x) as u64;
        let m: u64 = (n + (d as u64) - 1) / (d as u64);
        proof {
            let ni = n as int;
            let di = d as int;
            let mi = (ni + di - 1) / di;
            lemma_fundamental_div_mod(ni + di - 1, di);
            lemma_mod_bound(ni + di - 1, di);
            let r0 = (ni + di - 1) % di;
            assert(-ni == (-mi) * di + (di - 1 - r0)) by (nonlinear_arith)
                requires
                    ni + di - 1 == di * mi + r0,
            ;
            lemma_fundamental_div_mod_converse(-ni, di, -mi, di - 1 - r0);
            assert(mi <= ni) by {
                assert(ni + di - 1 <= ni * di + di - 1) by (nonlinear_arith)
                    requires
                        ni >= 1,
                        di >= 1,
                ;
                vstd::arithmetic::div_mod::lemma_div_is_ordered(
                    ni + di - 1,
                    ni * di + di - 1,
                    di,
                );
                lemma_fundamental_div_mod_converse(ni * di + di - 1, di, ni, di - 1);
            }
        }
        -(m as i64)
    }
}

/// One oscillator lane: wrapping phase, log-domain smoothed phase
/// increment, smoothed frame position, and the lane's active flag.
#[derive(Clone, Copy, PartialEq, Eq, Structural, Debug)]
pub struct Oscillator {
    /// Fixed-point phase accumulator; wraps at the table period.
    pub phase: u32,
    /// Smoothed log-domain phase increment, Q16 octaves.
    pub phase_delta: LinearSmoother,
    /// Smoothed frame position, Q16 table positions.
    pub frame: LinearSmoother,
    /// Whether this lane currently sounds.
    pub active_voices_mask: bool,
}

impl Oscillator {
    /// Ranges every lane keeps: the log-domain increment never goes
    /// negative and the frame position stays inside the bank.
    pub open spec fn wf(self, num_frames: int) -> bool {
        &&& self.phase_delta.wf()
        &&& self.frame.wf()
        &&& 0 <= self.phase_delta.current <= LOG_PD_MAX
        &&& 0 <= self.phase_delta.target <= LOG_PD_MAX
        &&& 0 < self.frame.current < num_frames * 65536
        &&& 0 < self.frame.target < num_frames * 65536
    }

    /// An inert lane: phase zero, smoothers at rest, not sounding.
    pub open spec fn inert_spec() -> Oscillator {
        Oscillator {
            phase: 0,
            phase_delta: LinearSmoother { current: 0, target: 0, step: 0 },
            frame: LinearSmoother { current: 1, target: 1, step: 0 },
            active_voices_mask: false,
        }
    }

    /// Create an inert lane.
    pub fn new() -> (r: Oscillator)
        ensures
            r == Self::inert_spec(),
    {
        Oscillator {
            phase: 0,
            phase_delta: LinearSmoother { current: 0, target: 0, step: 0 },
            frame: LinearSmoother { current: 1, target: 1, step: 0 },
            active_voices_mask: false,
        }
    }

    /// Set the accumulator to a given phase.
    pub(crate) fn set_phase(&mut self, phase: u32)
        ensures
            *final(self) == (Oscillator { phase, ..*old(self) }),
    {
        self.phase = phase;
    }

    /// Return the accumulator to phase zero.
    pub fn reset(&mut self)
        ensures
            *final(self) == (Oscillator { phase: 0, ..*old(self) }),
    {
        self.set_phase(0);
    }

    /// Adopt a new active flag; a lane whose flag flips restarts from
    /// the given starting phase instead of inheriting stale phase.
    pub fn update_mask_and_phases(&mut self, starting_phase: u32, active: bool)
        ensures
            final(self).active_voices_mask == active,
            final(self).phase == if old(self).active_voices_mask != active {
                starting_phase
            } else {
                old(self).phase
            },
            final(self).phase_delta == old(self).phase_delta,
            final(self).frame == old(self).frame,
    {
        if self.active_voices_mask != active {
            self.phase = starting_phase;
        }
        self.active_voices_mask = active;
    }

    /// The lane after snapping its smoothers to the targets derived
    /// from `p`: both ramps rest on their targets, the active flag is
    /// adopted, and a lane whose flag flips restarts at its starting
    /// phase.
    pub open spec fn set_instantly_spec(self, p: OscillatorParams) -> Oscillator {
        Oscillator {
            phase: if self.active_voices_mask != p.active_spec() {
                start_phase_spec(p)
            } else {
                self.phase
            },
            phase_delta: LinearSmoother {
                current: p.log_phase_delta_target_spec() as i64,
                target: p.log_phase_delta_target_spec() as i64,
                step: 0,
            },
            frame: LinearSmoother {
                current: p.frame_target_spec() as i64,
                target: p.frame_target_spec() as i64,
                step: 0,
            },
            active_voices_mask: p.active_spec(),
        }
    }

    /// The lane after retargeting its smoothers toward the targets
    /// derived from `p` over `samples` ticks.
    pub open spec fn set_smoothed_spec(self, p: OscillatorParams, samples: u32) -> Oscillator {
        Oscillator {
            phase: if self.active_voices_mask != p.active_spec() {
                start_phase_spec(p)
            } else {
                self.phase
            },
            phase_delta: self.phase_delta.retargeted_spec(
                p.log_phase_delta_target_spec() as i64,
                samples,
            ),
            frame: self.frame.retargeted_spec(p.frame_target_spec() as i64, samples),
            active_voices_mask: p.active_spec(),
        }
    }

    /// Snap the lane's smoothers to the targets derived from `params`,
    /// used on activation to avoid a glide from stale values.
    pub fn set_params_instantly(&mut self, params: &OscillatorParams)
        requires
            params.params.wf(),
            params.index < MAX_UNISON,
        ensures
            final(self).wf(params.params.num_frames as int),
            *final(self) == old(self).set_instantly_spec(*params),
    {
        let (log_pd, frame_target, active) = params.get_params();
        let start = params.starting_phases();
        self.update_mask_and_phases(start, active);
        self.phase_delta.set_val_instantly(log_pd);
        self.frame.set_val_instantly(frame_target);
    }

    /// Ramp the lane's smoothers toward the targets derived from
    /// `params` over `samples` ticks.
    pub fn set_params_smoothed(&mut self, params: &OscillatorParams, samples: u32)
        requires
            old(self).wf(params.params.num_frames as int),
            params.params.wf(),
            params.index < MAX_UNISON,
            1 <= samples,
        ensures
            final(self).wf(params.params.num_frames as int),
            *final(self) == old(self).set_smoothed_spec(*params, samples),
    {
        let (log_pd, frame_target, active) = params.get_params();
        let start = params.starting_phases();
        self.update_mask_and_phases(start, active);
        self.phase_delta.set_target(log_pd, samples);
        self.frame.set_target(frame_target, samples);
    }

    /// A frame position rescaled from a bank of `old_nf` frames onto a
    /// bank of `new_nf` frames, kept strictly inside the new bank.
    pub open spec fn scaled_frame_spec(v: i64, new_nf: int, old_nf: int) -> int {
        let scaled = v * new_nf / old_nf;
        if scaled < 1 {
            1
        } else if scaled > new_nf * 65536 - 1 {
            new_nf * 65536 - 1
        } else {
            scaled
        }
    }

    /// Rescale the lane's frame smoother onto a bank with a different
    /// frame count, keeping the relative wavetable position.
    pub fn scale_frame(&mut self, new_nf: usize, old_nf: usize)
        requires
            old(self).wf(old_nf as int),
            1 <= new_nf <= MAX_FRAMES,
            1 <= old_nf <= MAX_FRAMES,
        ensures
            *final(self) == (Oscillator {
                frame: LinearSmoother {
                    current: Self::scaled_frame_spec(
                        old(self).frame.current,
                        new_nf as int,
                        old_nf as int,
                    ) as i64,
                    target: Self::scaled_frame_spec(
                        old(self).frame.target,
                        new_nf as int,
                        old_nf as int,
                    ) as i64,
                    step: old(self).frame.step,
                },
                ..*old(self)
            }),
            final(self).wf(new_nf as int),
    {
        let cur = scale_frame_value(self.frame.current, new_nf, old_nf);
        let tgt = scale_frame_value(self.frame.target, new_nf, old_nf);
        self.frame = LinearSmoother { current: cur, target: tgt, step: self.frame.step };
    }

    /// The linear phase increment of a log-domain value, in phase units.
    pub open spec fn linear_delta_spec(log_pd: i64) -> u32 {
        (exp2_q16_spec(log_pd as int) / 65536) as u32
    }

    /// The whole-table frame index of a Q16 frame position.
    pub open spec fn frame_index_spec(frame_q16: i64) -> u32 {
        (frame_q16 / 65536) as u32
    }

    /// The lane after one sample: both smoothers tick once and the
    /// phase advances by the smoothed increment, wrapping at `2^32`.
    pub open spec fn advanced_spec(self) -> Oscillator {
        let pd1 = self.phase_delta.tick1_spec();
        let fr1 = self.frame.tick1_spec();
        Oscillator {
            phase: advance_phase_spec(self.phase, Self::linear_delta_spec(pd1.current)),
            phase_delta: pd1,
            frame: fr1,
            active_voices_mask: self.active_voices_mask,
        }
    }

    /// Advance the lane one sample and read the bank: tick the
    /// smoothers, accumulate phase, select the band-limited variant for
    /// the current increment, and interpolate. An inactive lane
    /// contributes silence and performs no table read.
    pub fn advance_and_resample(&mut self, table: &BandLimitedWaveTables) -> (r: i32)
        requires
            old(self).wf(table.num_frames as int),
            table.wf(),
            table.num_frames >= 1,
        ensures
            final(self).wf(table.num_frames as int),
            *final(self) == old(self).advanced_spec(),
            old(self).active_voices_mask ==> r as int == table.resample_spec(
                Self::linear_delta_spec(old(self).phase_delta.tick1_spec().current),
                Self::frame_index_spec(old(self).frame.tick1_spec().current) as int,
                final(self).phase,
            ),
            !old(self).active_voices_mask ==> r == 0,
    {
        self.phase_delta.tick1();
        self.frame.tick1();
        let pd_q16: u64 = exp2_q16(self.phase_delta.current);
        let pd: u32 = (pd_q16 / 65536) as u32;
        let ghost s = old(self).phase as int + pd as int;
        self.phase = self.phase.wrapping_add(pd);
        proof {
            if s <= u32::MAX as int {
                lemma_small_mod(s as nat, PHASE_MODULUS as nat);
            } else {
                vstd::arithmetic::div_mod::lemma_fundamental_div_mod_converse_mod(
                    s,
                    PHASE_MODULUS as int,
                    1,
                    s - PHASE_MODULUS,
                );
            }
        }
        let frame_idx: u32 = (self.frame.current / 65536) as u32;
        proof {
            assert((self.frame.current as int) / 65536 < table.num_frames as int) by {
                vstd::arithmetic::div_mod::lemma_div_is_ordered(
                    self.frame.current as int,
                    table.num_frames * 65536 - 1,
                    65536,
                );
                lemma_fundamental_div_mod_converse(
                    table.num_frames * 65536 - 1,
                    65536,
                    table.num_frames as int - 1,
                    65535,
                );
            }
        }
        table.resample_select(pd, frame_idx, self.phase, self.active_voices_mask)
    }
}

/// Rescale one frame-position value onto a new frame count, clamped
/// strictly inside the new bank.
fn scale_frame_value(v: i64, new_nf: usize, old_nf: usize) -> (r: i64)
    requires
        0 <= v,
        v < 0x1_0000_0000_0000,
        1 <= new_nf <= MAX_FRAMES,
        1 <= old_nf <= MAX_FRAMES,
    ensures
        r == Oscillator::scaled_frame_spec(v, new_nf as int, old_nf as int),
        0 < r < new_nf * 65536,
{
    proof {
        assert((v as int) * (new_nf as int) <= (0x1_0000_0000_0000 - 1) * 65536) by (nonlinear_arith)
            requires
                0 <= v < 0x1_0000_0000_0000,
                1 <= new_nf <= 65536,
        ;
    }
    let scaled_u: u64 = (v as u64) * (new_nf as u64) / (old_nf as u64);
    let hi: u64 = (new_nf as u64) * 65536 - 1;
    if scaled_u < 1 {
        1
    } else if scaled_u > hi {
        hi as i64
    } else {
        scaled_u as i64
    }
}

} // verus!
