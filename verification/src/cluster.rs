//! A cluster of independent stereo voice lanes with shared parameter
//! smoothing and stereo mix weighting.
//!
//! Each of the cluster's `STEREO_VOICES_PER_VECTOR` lanes holds one
//! note slot: its own smoothed parameter record, its own mix-weight
//! smoothers, and an optional sounding voice. Parameter writes route a
//! parameter id to the matching smoother of the lanes a voice mask
//! selects; unknown ids are benign no-ops. The mix weights derive from
//! level, stereo width and pan — a triangular pan law divided by the
//! unison count, so stacking more unison copies does not raise the
//! cluster's gain — and the per-sample blend of a lane's output with
//! its channel-swapped copy realizes pan and stereo width together.
//! Because every lane is a plain, copyable record, an in-progress voice
//! can be migrated between lanes (voice stealing) without touching its
//! siblings and without an audible discontinuity.
use crate::fixed::{isqrt, sqrt_floor_spec, LOG_PD_MAX};
use crate::oscillator::{div_floor, StereoOut};
use crate::smoother::LinearSmoother;
use crate::voice::{VoiceParams, WTOscVoice, SEMITONE_BOUND};
use crate::wavetable::{BandLimitedWaveTables, MAX_FRAMES};
use crate::{MAX_UNISON, ONE_Q16, STEREO_VOICES_PER_VECTOR};
use vstd::prelude::*;

verus! {

/// Upper bound on every stereo mix weight, in Q16.
pub const WEIGHT_BOUND: i64 = 131072;

/// Detune range parameter span in semitones: the normalized value maps
/// onto plus or minus half this many semitones.
pub const DETUNE_RANGE: i64 = 96;

/// One lane's smoothed parameters, its unison count, and its note's
/// log-domain base phase increment.
#[derive(Clone, Copy, Debug)]
pub struct LaneParams {
    /// Normalized detune amount.
    pub detune: LinearSmoother,
    /// Detune spread range, Q16 semitones.
    pub detune_range: LinearSmoother,
    /// Transpose, Q16 semitones.
    pub transpose: LinearSmoother,
    /// Normalized wavetable frame position.
    pub norm_frame: LinearSmoother,
    /// Phase randomization amount.
    pub random: LinearSmoother,
    /// Output level.
    pub level: LinearSmoother,
    /// Stereo width.
    pub stereo: LinearSmoother,
    /// Normalized pan position.
    pub norm_pan: LinearSmoother,
    /// Unison copies for this lane's note.
    pub num_voices: u32,
    /// Log-domain base phase increment of the lane's note.
    pub phase_delta: i64,
}

/// A normalized parameter smoother holds values in `[0, 1]` Q16.
pub open spec fn norm_smoother_ok(s: LinearSmoother) -> bool {
    &&& s.wf()
    &&& 0 <= s.current <= ONE_Q16
    &&& 0 <= s.target <= ONE_Q16
}

/// A semitone-range smoother stays within half the detune range either
/// side of zero: 48 semitones, i.e. 3145728 in Q16.
pub open spec fn range_smoother_ok(s: LinearSmoother) -> bool {
    &&& s.wf()
    &&& -3145728 <= s.current <= 3145728
    &&& -3145728 <= s.target <= 3145728
}

impl LaneParams {
    /// Ranges every lane parameter record keeps.
    pub open spec fn wf(self) -> bool {
        &&& norm_smoother_ok(self.detune)
        &&& range_smoother_ok(self.detune_range)
        &&& norm_smoother_ok(self.transpose)
        &&& norm_smoother_ok(self.norm_frame)
        &&& norm_smoother_ok(self.random)
        &&& norm_smoother_ok(self.level)
        &&& norm_smoother_ok(self.stereo)
        &&& norm_smoother_ok(self.norm_pan)
        &&& 1 <= self.num_voices <= MAX_UNISON
        &&& 0 <= self.phase_delta <= LOG_PD_MAX
    }

    /// A lane at rest: all parameters zero, one unison voice.
    pub open spec fn default_spec() -> LaneParams {
        LaneParams {
            detune: LinearSmoother { current: 0, target: 0, step: 0 },
            detune_range: LinearSmoother { current: 0, target: 0, step: 0 },
            transpose: LinearSmoother { current: 0, target: 0, step: 0 },
            norm_frame: LinearSmoother { current: 0, target: 0, step: 0 },
            random: LinearSmoother { current: 0, target: 0, step: 0 },
            level: LinearSmoother { current: 0, target: 0, step: 0 },
            stereo: LinearSmoother { current: 0, target: 0, step: 0 },
            norm_pan: LinearSmoother { current: 0, target: 0, step: 0 },
            num_voices: 1,
            phase_delta: 0,
        }
    }

    /// The lane after every parameter smoother advances `n` samples.
    pub open spec fn ticked_spec(self, n: nat) -> LaneParams {
        LaneParams {
            detune: self.detune.ticked(n),
            detune_range: self.detune_range.ticked(n),
            transpose: self.transpose.ticked(n),
            norm_frame: self.norm_frame.ticked(n),
            random: self.random.ticked(n),
            level: self.level.ticked(n),
            stereo: self.stereo.ticked(n),
            norm_pan: self.norm_pan.ticked(n),
            ..self
        }
    }
}

/// The value stored for the detune-range id: the normalized value
/// mapped onto plus or minus half the range, in Q16 semitones.
pub open spec fn detune_range_value_spec(v: i64) -> int {
    (v - 32768) * DETUNE_RANGE
}

/// The unison count stored for the unison id: one to `MAX_UNISON`,
/// rising linearly with the normalized value.
pub open spec fn num_voices_value_spec(v: i64) -> int {
    1 + v * 15 / 65536
}

/// The lane after an instant write of normalized value `v` to parameter
/// `id`: the matching smoother snaps to the mapped value; an unknown id
/// changes nothing.
pub open spec fn param_set_spec(p: LaneParams, id: u64, v: i64) -> LaneParams {
    let snap = LinearSmoother { current: v, target: v, step: 0 };
    if id == 1 {
        LaneParams { detune: snap, ..p }
    } else if id == 2 {
        LaneParams {
            detune_range: LinearSmoother {
                current: detune_range_value_spec(v) as i64,
                target: detune_range_value_spec(v) as i64,
                step: 0,
            },
            ..p
        }
    } else if id == 3 {
        LaneParams { transpose: snap, ..p }
    } else if id == 4 {
        LaneParams { norm_frame: snap, ..p }
    } else if id == 5 {
        LaneParams { random: snap, ..p }
    } else if id == 6 {
        LaneParams { level: snap, ..p }
    } else if id == 7 {
        LaneParams { stereo: snap, ..p }
    } else if id == 8 {
        LaneParams { norm_pan: snap, ..p }
    } else if id == 9 {
        LaneParams { num_voices: num_voices_value_spec(v) as u32, ..p }
    } else {
        p
    }
}

/// The lane after a smoothed write: the matching smoother ramps toward
/// the mapped value over `samples` ticks; the unison id and unknown ids
/// behave as in an instant write.
pub open spec fn param_smoothed_spec(p: LaneParams, id: u64, v: i64, samples: u32) -> LaneParams {
    if id == 1 {
        LaneParams { detune: p.detune.retargeted_spec(v, samples), ..p }
    } else if id == 2 {
        LaneParams {
            detune_range: p.detune_range.retargeted_spec(
                detune_range_value_spec(v) as i64,
                samples,
            ),
            ..p
        }
    } else if id == 3 {
        LaneParams { transpose: p.transpose.retargeted_spec(v, samples), ..p }
    } else if id == 4 {
        LaneParams { norm_frame: p.norm_frame.retargeted_spec(v, samples), ..p }
    } else if id == 5 {
        LaneParams { random: p.random.retargeted_spec(v, samples), ..p }
    } else if id == 6 {
        LaneParams { level: p.level.retargeted_spec(v, samples), ..p }
    } else if id == 7 {
        LaneParams { stereo: p.stereo.retargeted_spec(v, samples), ..p }
    } else if id == 8 {
        LaneParams { norm_pan: p.norm_pan.retargeted_spec(v, samples), ..p }
    } else if id == 9 {
        LaneParams { num_voices: num_voices_value_spec(v) as u32, ..p }
    } else {
        p
    }
}

/// Triangular pan weights divided by the unison count: the left weight
/// falls linearly as pan moves right, and stacking `n` unison copies
/// scales both channels down by `n`.
pub open spec fn pan_weights_spec(p: LaneParams) -> (int, int) {
    (
        (65536 - p.norm_pan.current as int) / (p.num_voices as int),
        (p.norm_pan.current as int) / (p.num_voices as int),
    )
}

/// One stereo mix weight: the square root of a pan weight widened or
/// narrowed by the stereo amount, scaled by the level.
pub open spec fn mix_weight_spec(pw: int, widen: int, level: int) -> int {
    sqrt_floor_spec(pw * widen) * level / 65536
}

/// The four mix weights of a lane, in Q16: the normal pair feeds each
/// channel its own signal, the flipped pair feeds it the opposite
/// channel, and their balance realizes stereo width and pan.
pub open spec fn sample_weights_spec(p: LaneParams) -> (int, int, int, int) {
    let pans = pan_weights_spec(p);
    (
        mix_weight_spec(pans.0, 65536 + p.stereo.current as int, p.level.current as int),
        mix_weight_spec(pans.1, 65536 + p.stereo.current as int, p.level.current as int),
        mix_weight_spec(pans.0, 65536 - p.stereo.current as int, p.level.current as int),
        mix_weight_spec(pans.1, 65536 - p.stereo.current as int, p.level.current as int),
    )
}

/// The parameter records of a cluster's voice lanes.
#[derive(Clone, Copy, Debug)]
pub struct WTOscClusterParams {
    /// One parameter record per voice lane.
    pub lanes: [LaneParams; STEREO_VOICES_PER_VECTOR],
}

impl WTOscClusterParams {
    /// Every lane's record within range.
    pub open spec fn wf(self) -> bool {
        forall|l: int| 0 <= l < STEREO_VOICES_PER_VECTOR ==> self.lanes@[l].wf()
    }

    /// A cluster's parameters at rest.
    pub fn new() -> (r: WTOscClusterParams)
        ensures
            forall|l: int|
                0 <= l < STEREO_VOICES_PER_VECTOR ==> r.lanes@[l] == LaneParams::default_spec(),
            r.wf(),
    {
        let zero = LinearSmoother { current: 0, target: 0, step: 0 };
        let lane = LaneParams {
            detune: zero,
            detune_range: zero,
            transpose: zero,
            norm_frame: zero,
            random: zero,
            level: zero,
            stereo: zero,
            norm_pan: zero,
            num_voices: 1,
            phase_delta: 0,
        };
        WTOscClusterParams { lanes: [lane; STEREO_VOICES_PER_VECTOR] }
    }

    /// Normalized detune of one lane.
    pub fn detune(&self, lane: usize) -> (r: i64)
        requires
            lane < STEREO_VOICES_PER_VECTOR,
        ensures
            r == self.lanes@[lane as int].detune.current,
    {
        self.lanes[lane].detune.current
    }

    /// Transpose of one lane, Q16 semitones.
    pub fn transpose(&self, lane: usize) -> (r: i64)
        requires
            lane < STEREO_VOICES_PER_VECTOR,
        ensures
            r == self.lanes@[lane as int].transpose.current,
    {
        self.lanes[lane].transpose.current
    }

    /// Normalized frame position of one lane.
    pub fn norm_frame(&self, lane: usize) -> (r: i64)
        requires
            lane < STEREO_VOICES_PER_VECTOR,
        ensures
            r == self.lanes@[lane as int].norm_frame.current,
    {
        self.lanes[lane].norm_frame.current
    }

    /// Phase randomization amount of one lane.
    pub fn random(&self, lane: usize) -> (r: i64)
        requires
            lane < STEREO_VOICES_PER_VECTOR,
        ensures
            r == self.lanes@[lane as int].random.current,
    {
        self.lanes[lane].random.current
    }

    /// Advance every lane's parameter smoothers by `n` samples.
    pub fn tick_n(&mut self, n: u32)
        requires
            old(self).wf(),
        ensures
            final(self).wf(),
            forall|l: int|
                0 <= l < STEREO_VOICES_PER_VECTOR ==> final(self).lanes@[l] == old(
                    self,
                ).lanes@[l].ticked_spec(n as nat),
    {
        let mut l: usize = 0;
        while l < STEREO_VOICES_PER_VECTOR
            invariant
                l <= STEREO_VOICES_PER_VECTOR,
                old(self).wf(),
                forall|j: int|
                    0 <= j < l ==> self.lanes@[j] == old(self).lanes@[j].ticked_spec(n as nat),
                forall|j: int| 0 <= j < l ==> self.lanes@[j].wf(),
                forall|j: int|
                    l <= j < STEREO_VOICES_PER_VECTOR ==> self.lanes@[j] == old(self).lanes@[j],
            decreases STEREO_VOICES_PER_VECTOR - l,
        {
            let mut lane = self.lanes[l];
            proof {
                lemma_lane_ticked_wf(lane, n as nat);
            }
            lane.detune.tick_n(n);
            lane.detune_range.tick_n(n);
            lane.transpose.tick_n(n);
            lane.norm_frame.tick_n(n);
            lane.random.tick_n(n);
            lane.level.tick_n(n);
            lane.stereo.tick_n(n);
            lane.norm_pan.tick_n(n);
            self.lanes[l] = lane;
            l = l + 1;
        }
    }

    /// Snap a parameter to `norm_val` on every lane the mask selects;
    /// ids without a parameter are ignored.
    pub fn set_param(&mut self, param_id: u64, norm_val: i64, mask: &[bool; STEREO_VOICES_PER_VECTOR])
        requires
            old(self).wf(),
            0 <= norm_val <= ONE_Q16,
        ensures
            final(self).wf(),
            forall|l: int|
                0 <= l < STEREO_VOICES_PER_VECTOR ==> final(self).lanes@[l] == if mask@[l] {
                    param_set_spec(old(self).lanes@[l], param_id, norm_val)
                } else {
                    old(self).lanes@[l]
                },
    {
        let mut l: usize = 0;
        while l < STEREO_VOICES_PER_VECTOR
            invariant
                l <= STEREO_VOICES_PER_VECTOR,
                old(self).wf(),
                0 <= norm_val <= ONE_Q16,
                forall|j: int|
                    0 <= j < l ==> self.lanes@[j] == if mask@[j] {
                        param_set_spec(old(self).lanes@[j], param_id, norm_val)
                    } else {
                        old(self).lanes@[j]
                    },
                forall|j: int| 0 <= j < l ==> self.lanes@[j].wf(),
                forall|j: int|
                    l <= j < STEREO_VOICES_PER_VECTOR ==> self.lanes@[j] == old(self).lanes@[j],
            decreases STEREO_VOICES_PER_VECTOR - l,
        {
            if mask[l] {
                let mut lane = self.lanes[l];
                if param_id == 1 {
                    lane.detune.set_val_instantly(norm_val);
                } else if param_id == 2 {
                    lane.detune_range.set_val_instantly((norm_val - 32768) * DETUNE_RANGE);
                } else if param_id == 3 {
                    lane.transpose.set_val_instantly(norm_val);
                } else if param_id == 4 {
                    lane.norm_frame.set_val_instantly(norm_val);
                } else if param_id == 5 {
                    lane.random.set_val_instantly(norm_val);
                } else if param_id == 6 {
                    lane.level.set_val_instantly(norm_val);
                } else if param_id == 7 {
                    lane.stereo.set_val_instantly(norm_val);
                } else if param_id == 8 {
                    lane.norm_pan.set_val_instantly(norm_val);
                } else if param_id == 9 {
                    lane.num_voices = (1 + norm_val * 15 / 65536) as u32;
                }
                self.lanes[l] = lane;
            }
            l = l + 1;
        }
    }

    /// Ramp a parameter toward `norm_val` over `smooth_samples` ticks on
    /// every lane the mask selects; the unison count changes at once.
    pub fn set_param_smoothed(
        &mut self,
        param_id: u64,
        norm_val: i64,
        smooth_samples: u32,
        mask: &[bool; STEREO_VOICES_PER_VECTOR],
    )
        requires
            old(self).wf(),
            0 <= norm_val <= ONE_Q16,
            1 <= smooth_samples,
        ensures
            final(self).wf(),
            forall|l: int|
                0 <= l < STEREO_VOICES_PER_VECTOR ==> final(self).lanes@[l] == if mask@[l] {
                    param_smoothed_spec(old(self).lanes@[l], param_id, norm_val, smooth_samples)
                } else {
                    old(self).lanes@[l]
                },
    {
        let mut l: usize = 0;
        while l < STEREO_VOICES_PER_VECTOR
            invariant
                l <= STEREO_VOICES_PER_VECTOR,
                old(self).wf(),
                0 <= norm_val <= ONE_Q16,
                1 <= smooth_samples,
                forall|j: int|
                    0 <= j < l ==> self.lanes@[j] == if mask@[j] {
                        param_smoothed_spec(
                            old(self).lanes@[j],
                            param_id,
                            norm_val,
                            smooth_samples,
                        )
                    } else {
                        old(self).lanes@[j]
                    },
                forall|j: int| 0 <= j < l ==> self.lanes@[j].wf(),
                forall|j: int|
                    l <= j < STEREO_VOICES_PER_VECTOR ==> self.lanes@[j] == old(self).lanes@[j],
            decreases STEREO_VOICES_PER_VECTOR - l,
        {
            if mask[l] {
                let mut lane = self.lanes[l];
                if param_id == 1 {
                    lane.detune.set_target(norm_val, smooth_samples);
                } else if param_id == 2 {
                    lane.detune_range.set_target((norm_val - 32768) * DETUNE_RANGE, smooth_samples);
                } else if param_id == 3 {
                    lane.transpose.set_target(norm_val, smooth_samples);
                } else if param_id == 4 {
                    lane.norm_frame.set_target(norm_val, smooth_samples);
                } else if param_id == 5 {
                    lane.random.set_target(norm_val, smooth_samples);
                } else if param_id == 6 {
                    lane.level.set_target(norm_val, smooth_samples);
                } else if param_id == 7 {
                    lane.stereo.set_target(norm_val, smooth_samples);
                } else if param_id == 8 {
                    lane.norm_pan.set_target(norm_val, smooth_samples);
                } else if param_id == 9 {
                    lane.num_voices = (1 + norm_val * 15 / 65536) as u32;
                }
                self.lanes[l] = lane;
            }
            l = l + 1;
        }
    }

    /// Compute one lane's four mix weights from its level, stereo width,
    /// pan and unison count.
    pub fn get_sample_weights(&self, lane: usize) -> (r: (i64, i64, i64, i64))
        requires
            lane < STEREO_VOICES_PER_VECTOR,
            self.lanes@[lane as int].wf(),
        ensures
            (r.0 as int, r.1 as int, r.2 as int, r.3 as int) == sample_weights_spec(
                self.lanes@[lane as int],
            ),
            0 <= r.0 <= WEIGHT_BOUND,
            0 <= r.1 <= WEIGHT_BOUND,
            0 <= r.2 <= WEIGHT_BOUND,
            0 <= r.3 <= WEIGHT_BOUND,
    {
        let p = self.lanes[lane];
        let nv: u64 = p.num_voices as u64;
        let pan: u64 = p.norm_pan.current as u64;
        let pw_l: u64 = (65536 - pan) / nv;
        let pw_r: u64 = pan / nv;
        let wide: u64 = (65536 + p.stereo.current) as u64;
        let narrow: u64 = (65536 - p.stereo.current) as u64;
        let level: u64 = p.level.current as u64;
        let nl = mix_weight(pw_l, wide, level);
        let nr = mix_weight(pw_r, wide, level);
        let fl = mix_weight(pw_l, narrow, level);
        let fr = mix_weight(pw_r, narrow, level);
        (nl, nr, fl, fr)
    }
}

/// One stereo mix weight: `sqrt(pw * widen) * level / 65536` in Q16.
fn mix_weight(pw: u64, widen: u64, level: u64) -> (r: i64)
    requires
        pw <= 65536,
        widen <= 131072,
        level <= 65536,
    ensures
        r == mix_weight_spec(pw as int, widen as int, level as int),
        0 <= r <= WEIGHT_BOUND,
{
    proof {
        assert(pw * widen <= 65536 * 131072) by (nonlinear_arith)
            requires
                pw <= 65536,
                widen <= 131072,
        ;
    }
    let x: u64 = pw * widen;
    let s: u64 = isqrt(x);
    proof {
        assert(s < 131072) by {
            if s >= 131072 {
                assert(s * s >= 131072 * 131072) by (nonlinear_arith)
                    requires
                        s >= 131072,
                ;
            }
        }
        assert(s * level <= s * 65536) by {
            if s > 0 {
                vstd::arithmetic::mul::lemma_mul_left_inequality(s as int, level as int, 65536);
            }
            if s == 0 {
                assert(s * level == 0) by (nonlinear_arith)
                    requires
                        s == 0,
                ;
                assert(s * 65536 == 0) by (nonlinear_arith)
                    requires
                        s == 0,
                ;
            }
        }
        vstd::arithmetic::div_mod::lemma_div_is_ordered(
            (s * level) as int,
            (s * 65536) as int,
            65536,
        );
        vstd::arithmetic::div_mod::lemma_div_multiples_vanish(s as int, 65536);
        vstd::arithmetic::mul::lemma_mul_is_commutative(s as int, 65536);
    }
    ((s * level) / 65536) as i64
}

proof fn lemma_lane_ticked_wf(p: LaneParams, n: nat)
    requires
        p.wf(),
    ensures
        p.ticked_spec(n).wf(),
{
    crate::smoother::lemma_ticked_stays_in_range(p.detune, n);
    crate::smoother::lemma_ticked_stays_in_range(p.detune_range, n);
    crate::smoother::lemma_ticked_stays_in_range(p.transpose, n);
    crate::smoother::lemma_ticked_stays_in_range(p.norm_frame, n);
    crate::smoother::lemma_ticked_stays_in_range(p.random, n);
    crate::smoother::lemma_ticked_stays_in_range(p.level, n);
    crate::smoother::lemma_ticked_stays_in_range(p.stereo, n);
    crate::smoother::lemma_ticked_stays_in_range(p.norm_pan, n);
}

/// The four mix-weight smoothers of one lane: one pair per channel for
/// the lane's own signal, one pair for the channel-swapped copy.
#[derive(Clone, Copy, Debug)]
pub struct LaneWeights {
    /// Weight of the left channel's own signal.
    pub normal_l: LinearSmoother,
    /// Weight of the right channel's own signal.
    pub normal_r: LinearSmoother,
    /// Weight of the right channel's signal fed into the left.
    pub flipped_l: LinearSmoother,
    /// Weight of the left channel's signal fed into the right.
    pub flipped_r: LinearSmoother,
}

/// Weight smoothers stay within the weight range.
pub open spec fn weights_ok(w: LaneWeights) -> bool {
    &&& w.normal_l.wf() && 0 <= w.normal_l.current <= WEIGHT_BOUND && 0 <= w.normal_l.target
        <= WEIGHT_BOUND
    &&& w.normal_r.wf() && 0 <= w.normal_r.current <= WEIGHT_BOUND && 0 <= w.normal_r.target
        <= WEIGHT_BOUND
    &&& w.flipped_l.wf() && 0 <= w.flipped_l.current <= WEIGHT_BOUND && 0 <= w.flipped_l.target
        <= WEIGHT_BOUND
    &&& w.flipped_r.wf() && 0 <= w.flipped_r.current <= WEIGHT_BOUND && 0 <= w.flipped_r.target
        <= WEIGHT_BOUND
}

/// Weights snapped instantly onto the four target values.
pub open spec fn weights_snapped_spec(t: (int, int, int, int)) -> LaneWeights {
    LaneWeights {
        normal_l: LinearSmoother { current: t.0 as i64, target: t.0 as i64, step: 0 },
        normal_r: LinearSmoother { current: t.1 as i64, target: t.1 as i64, step: 0 },
        flipped_l: LinearSmoother { current: t.2 as i64, target: t.2 as i64, step: 0 },
        flipped_r: LinearSmoother { current: t.3 as i64, target: t.3 as i64, step: 0 },
    }
}

/// Weights retargeted to ramp onto the four target values.
pub open spec fn weights_retargeted_spec(w: LaneWeights, t: (int, int, int, int), samples: u32)
    -> LaneWeights {
    LaneWeights {
        normal_l: w.normal_l.retargeted_spec(t.0 as i64, samples),
        normal_r: w.normal_r.retargeted_spec(t.1 as i64, samples),
        flipped_l: w.flipped_l.retargeted_spec(t.2 as i64, samples),
        flipped_r: w.flipped_r.retargeted_spec(t.3 as i64, samples),
    }
}

/// All four weight smoothers advanced one sample.
pub open spec fn weights_ticked1_spec(w: LaneWeights) -> LaneWeights {
    LaneWeights {
        normal_l: w.normal_l.tick1_spec(),
        normal_r: w.normal_r.tick1_spec(),
        flipped_l: w.flipped_l.tick1_spec(),
        flipped_r: w.flipped_r.tick1_spec(),
    }
}

/// The parameter snapshot one lane hands to its voice: the smoothed
/// currents, the detune spread scaled into semitones, and the note's
/// base phase increment.
pub open spec fn voice_params_spec(
    lane: LaneParams,
    sp: [u32; MAX_UNISON],
    num_frames: usize,
) -> VoiceParams {
    VoiceParams {
        frame: lane.norm_frame.current,
        transpose: lane.transpose.current,
        random: lane.random.current,
        detune: (lane.detune.current * lane.detune_range.current / 65536) as i64,
        num_voices: lane.num_voices,
        phase_delta: lane.phase_delta,
        starting_phases: sp,
        num_frames,
    }
}

/// A well-formed lane always yields a well-formed snapshot.
pub proof fn lemma_voice_params_wf(lane: LaneParams, sp: [u32; MAX_UNISON], num_frames: usize)
    requires
        lane.wf(),
        1 <= num_frames <= MAX_FRAMES,
    ensures
        voice_params_spec(lane, sp, num_frames).wf(),
{
    assert(-206158430208 <= lane.detune.current * lane.detune_range.current
        <= 206158430208) by (nonlinear_arith)
        requires
            0 <= lane.detune.current <= 65536,
            -3145728 <= lane.detune_range.current <= 3145728,
    ;
    let prod = lane.detune.current * lane.detune_range.current;
    assert(prod / 65536 <= SEMITONE_BOUND) by {
        vstd::arithmetic::div_mod::lemma_div_is_ordered(prod, 206158430208, 65536);
        assert(206158430208int / 65536 == 3145728);
    }
    assert(-SEMITONE_BOUND <= prod / 65536) by {
        vstd::arithmetic::div_mod::lemma_div_is_ordered(-206158430208, prod, 65536);
        assert((-206158430208int) / 65536 == -3145728);
    }
}

/// The note's log-domain phase increment: the engine's base increment
/// for concert A, shifted by the note's distance from it (twelve
/// semitones to the octave) and clamped to the representable range.
pub open spec fn note_log_pd_spec(log_pd_base: i64, note: u8) -> int {
    let unclamped = log_pd_base + ((note - 69) * 65536) / 12;
    if unclamped < 0 {
        0
    } else if unclamped > LOG_PD_MAX {
        LOG_PD_MAX as int
    } else {
        unclamped
    }
}

/// A fresh voice activated from a snapshot: every lane snapped from
/// the inert state to the snapshot's targets.
pub open spec fn voice_activated_rel(after: Option<WTOscVoice>, vp: VoiceParams) -> bool {
    match after {
        Some(v) => {
            &&& v.num_oscs == crate::oscillator::active_copies_spec(vp.num_voices as int)
            &&& forall|k: int|
                0 <= k < MAX_UNISON ==> v.oscs@[k] == crate::oscillator::Oscillator::inert_spec().set_instantly_spec(
                    crate::oscillator::OscillatorParams { index: k as usize, params: vp },
                )
        },
        None => false,
    }
}

/// How a lane's voice slot changes under a smoothed parameter write:
/// untouched when the lane is unselected or empty, otherwise every
/// oscillator lane retargeted from the snapshot.
pub open spec fn voice_smoothed_rel(
    before: Option<WTOscVoice>,
    after: Option<WTOscVoice>,
    vp: VoiceParams,
    samples: u32,
    applied: bool,
) -> bool {
    if !applied {
        after == before
    } else {
        match before {
            None => after == before,
            Some(v) => match after {
                Some(v2) => {
                    &&& v2.num_oscs == crate::oscillator::active_copies_spec(vp.num_voices as int)
                    &&& forall|k: int|
                        0 <= k < MAX_UNISON ==> v2.oscs@[k] == v.oscs@[k].set_smoothed_spec(
                            crate::oscillator::OscillatorParams { index: k as usize, params: vp },
                            samples,
                        )
                },
                None => false,
            },
        }
    }
}

/// How a lane's voice slot changes under an instant parameter write:
/// untouched when the lane is unselected or empty, otherwise every
/// oscillator lane snapped to the snapshot's targets.
pub open spec fn voice_instant_rel(
    before: Option<WTOscVoice>,
    after: Option<WTOscVoice>,
    vp: VoiceParams,
    applied: bool,
) -> bool {
    if !applied {
        after == before
    } else {
        match before {
            None => after == before,
            Some(v) => match after {
                Some(v2) => {
                    &&& v2.num_oscs == crate::oscillator::active_copies_spec(vp.num_voices as int)
                    &&& forall|k: int|
                        0 <= k < MAX_UNISON ==> v2.oscs@[k] == v.oscs@[k].set_instantly_spec(
                            crate::oscillator::OscillatorParams { index: k as usize, params: vp },
                        )
                },
                None => false,
            },
        }
    }
}

/// How a lane's voice slot changes under one processed sample:
/// untouched when unselected or empty, otherwise every oscillator lane
/// advanced once.
pub open spec fn voice_processed_rel(
    before: Option<WTOscVoice>,
    after: Option<WTOscVoice>,
    active: bool,
) -> bool {
    if !active {
        after == before
    } else {
        match before {
            None => after == before,
            Some(v) => match after {
                Some(v2) => {
                    &&& v2.num_oscs == v.num_oscs
                    &&& forall|k: int|
                        0 <= k < MAX_UNISON ==> v2.oscs@[k] == v.oscs@[k].advanced_spec()
                },
                None => false,
            },
        }
    }
}

/// How a lane's voice slot changes under a reset: every accumulator
/// returns to phase zero.
pub open spec fn voice_reset_rel(before: Option<WTOscVoice>, after: Option<WTOscVoice>) -> bool {
    match before {
        None => after == before,
        Some(v) => match after {
            Some(v2) => {
                &&& v2.num_oscs == v.num_oscs
                &&& forall|k: int|
                    0 <= k < MAX_UNISON ==> v2.oscs@[k] == (crate::oscillator::Oscillator {
                        phase: 0,
                        ..v.oscs@[k]
                    })
            },
            None => false,
        },
    }
}

/// The raw stereo pair a lane contributes this sample, before
/// weighting: silence when the lane is unselected or empty.
pub open spec fn lane_raw_spec(
    voice: Option<WTOscVoice>,
    table: BandLimitedWaveTables,
    active: bool,
) -> (int, int) {
    match voice {
        Some(v) => if active {
            crate::voice::stereo_sum_spec(v.oscs@, table, MAX_UNISON as int)
        } else {
            (0, 0)
        },
        None => (0, 0),
    }
}

/// One lane's weighted output: the weight smoothers tick once, then
/// each channel blends its own signal with the channel-swapped copy.
pub open spec fn weighted_out_spec(w: LaneWeights, raw: (int, int)) -> StereoOut {
    StereoOut {
        left: ((w.normal_l.tick1_spec().current * raw.0 + w.flipped_l.tick1_spec().current * raw.1)
            / 65536) as i64,
        right: ((w.normal_r.tick1_spec().current * raw.1 + w.flipped_r.tick1_spec().current
            * raw.0) / 65536) as i64,
    }
}

/// Everything one call of `process` does to a cluster, as one relation:
/// parameters kept, weights ticked once, selected voices advanced once,
/// and one weighted stereo pair per lane.
pub open spec fn process_step_rel(
    before: WTOscVoiceCluster,
    after: WTOscVoiceCluster,
    outs: Seq<StereoOut>,
    table: BandLimitedWaveTables,
    mask: [bool; STEREO_VOICES_PER_VECTOR],
) -> bool {
    &&& outs.len() == STEREO_VOICES_PER_VECTOR
    &&& after.params == before.params
    &&& forall|l: int|
        0 <= l < STEREO_VOICES_PER_VECTOR ==> after.weights@[l] == weights_ticked1_spec(
            #[trigger] before.weights@[l],
        )
    &&& forall|l: int|
        0 <= l < STEREO_VOICES_PER_VECTOR ==> voice_processed_rel(
            #[trigger] before.voices@[l],
            after.voices@[l],
            mask@[l],
        )
    &&& forall|l: int|
        0 <= l < STEREO_VOICES_PER_VECTOR ==> #[trigger] outs[l] == weighted_out_spec(
            before.weights@[l],
            lane_raw_spec(before.voices@[l], table, mask@[l]),
        )
}

/// Everything one call of `set_params_smoothed` does to a cluster, as
/// one relation: parameters advanced a block, weights retargeted onto
/// the advanced parameters' values, and selected voices retargeted.
pub open spec fn params_smoothed_rel(
    before: WTOscVoiceCluster,
    after: WTOscVoiceCluster,
    sp: [u32; MAX_UNISON],
    num_frames: usize,
    num_samples: u32,
    mask: [bool; STEREO_VOICES_PER_VECTOR],
) -> bool {
    &&& after.params.wf()
    &&& forall|l: int|
        0 <= l < STEREO_VOICES_PER_VECTOR ==> after.params.lanes@[l] == (
        #[trigger] before.params.lanes@[l]).ticked_spec(num_samples as nat)
    &&& forall|l: int|
        0 <= l < STEREO_VOICES_PER_VECTOR ==> after.weights@[l] == weights_retargeted_spec(
            #[trigger] before.weights@[l],
            sample_weights_spec(before.params.lanes@[l].ticked_spec(num_samples as nat)),
            num_samples,
        )
    &&& forall|l: int|
        0 <= l < STEREO_VOICES_PER_VECTOR ==> voice_smoothed_rel(
            #[trigger] before.voices@[l],
            after.voices@[l],
            voice_params_spec(
                before.params.lanes@[l].ticked_spec(num_samples as nat),
                sp,
                num_frames,
            ),
            num_samples,
            mask@[l],
        )
}

/// How a lane's voice slot changes when the bank is replaced: every
/// oscillator's frame position is rescaled onto the new frame count.
pub open spec fn voice_scaled_rel(
    before: Option<WTOscVoice>,
    after: Option<WTOscVoice>,
    new_nf: int,
    old_nf: int,
) -> bool {
    match before {
        None => after == before,
        Some(v) => match after {
            Some(v2) => {
                &&& v2.num_oscs == v.num_oscs
                &&& forall|k: int|
                    0 <= k < MAX_UNISON ==> v2.oscs@[k] == (crate::oscillator::Oscillator {
                        frame: LinearSmoother {
                            current: crate::oscillator::Oscillator::scaled_frame_spec(
                                v.oscs@[k].frame.current,
                                new_nf,
                                old_nf,
                            ) as i64,
                            target: crate::oscillator::Oscillator::scaled_frame_spec(
                                v.oscs@[k].frame.target,
                                new_nf,
                                old_nf,
                            ) as i64,
                            step: v.oscs@[k].frame.step,
                        },
                        ..v.oscs@[k]
                    })
            },
            None => false,
        },
    }
}

/// Everything one voice lane owns, as one plain record: its parameter
/// record, its mix-weight smoothers, and its optional sounding voice.
/// Lane migration copies values of this type between lane slots.
#[derive(Clone, Copy, Debug)]
pub struct ClusterLaneState {
    /// The lane's parameter record.
    pub params: LaneParams,
    /// The lane's mix-weight smoothers.
    pub weights: LaneWeights,
    /// The lane's voice slot.
    pub voice: Option<WTOscVoice>,
}

/// A group of stereo voice lanes sharing parameter smoothing and mix
/// weighting.
#[derive(Clone, Copy, Debug)]
pub struct WTOscVoiceCluster {
    /// Per-lane smoothed parameters.
    pub params: WTOscClusterParams,
    /// Per-lane voice slots; a lane is silent or holds exactly one voice.
    pub voices: [Option<WTOscVoice>; STEREO_VOICES_PER_VECTOR],
    /// Per-lane stereo mix-weight smoothers.
    pub weights: [LaneWeights; STEREO_VOICES_PER_VECTOR],
}

impl WTOscVoiceCluster {
    /// Parameters, weights and voices all within range for a bank of
    /// `num_frames` frames.
    pub open spec fn wf(self, num_frames: int) -> bool {
        &&& self.params.wf()
        &&& forall|l: int| 0 <= l < STEREO_VOICES_PER_VECTOR ==> weights_ok(self.weights@[l])
        &&& forall|l: int|
            0 <= l < STEREO_VOICES_PER_VECTOR ==> match #[trigger] self.voices@[l] {
                Some(v) => v.wf(num_frames),
                None => true,
            }
    }

    /// Everything lane `i` owns, as one record.
    pub open spec fn lane_state_spec(self, i: int) -> ClusterLaneState {
        ClusterLaneState {
            params: self.params.lanes@[i],
            weights: self.weights@[i],
            voice: self.voices@[i],
        }
    }

    /// A cluster at rest: parameters at defaults, weights at zero, all
    /// lanes silent.
    pub fn new() -> (r: WTOscVoiceCluster)
        ensures
            forall|l: int|
                0 <= l < STEREO_VOICES_PER_VECTOR ==> r.params.lanes@[l]
                    == LaneParams::default_spec(),
            forall|l: int| 0 <= l < STEREO_VOICES_PER_VECTOR ==> r.voices@[l] is None,
            forall|l: int|
                0 <= l < STEREO_VOICES_PER_VECTOR ==> r.weights@[l] == weights_snapped_spec(
                    (0, 0, 0, 0),
                ),
            forall|num_frames: int| 1 <= num_frames ==> #[trigger] r.wf(num_frames),
    {
        let zero = LinearSmoother { current: 0, target: 0, step: 0 };
        let w = LaneWeights { normal_l: zero, normal_r: zero, flipped_l: zero, flipped_r: zero };
        WTOscVoiceCluster {
            params: WTOscClusterParams::new(),
            voices: [None; STEREO_VOICES_PER_VECTOR],
            weights: [w; STEREO_VOICES_PER_VECTOR],
        }
    }

    /// Snap every lane's mix weights to the values its parameters give,
    /// used when a silent cluster wakes so weights do not glide from
    /// stale values.
    pub fn set_gains_instantly(&mut self)
        requires
            old(self).params.wf(),
        ensures
            final(self).params == old(self).params,
            final(self).voices == old(self).voices,
            forall|l: int|
                0 <= l < STEREO_VOICES_PER_VECTOR ==> final(self).weights@[l]
                    == weights_snapped_spec(sample_weights_spec(old(self).params.lanes@[l])),
            forall|l: int| 0 <= l < STEREO_VOICES_PER_VECTOR ==> weights_ok(final(self).weights@[l]),
    {
        let mut l: usize = 0;
        while l < STEREO_VOICES_PER_VECTOR
            invariant
                l <= STEREO_VOICES_PER_VECTOR,
                old(self).params.wf(),
                self.params == old(self).params,
                self.voices == old(self).voices,
                forall|j: int|
                    0 <= j < l ==> self.weights@[j] == weights_snapped_spec(
                        sample_weights_spec(old(self).params.lanes@[j]),
                    ),
                forall|j: int| 0 <= j < l ==> weights_ok(self.weights@[j]),
                forall|j: int|
                    l <= j < STEREO_VOICES_PER_VECTOR ==> self.weights@[j] == old(self).weights@[j],
            decreases STEREO_VOICES_PER_VECTOR - l,
        {
            let t = self.params.get_sample_weights(l);
            let mut w = self.weights[l];
            w.normal_l.set_val_instantly(t.0);
            w.normal_r.set_val_instantly(t.1);
            w.flipped_l.set_val_instantly(t.2);
            w.flipped_r.set_val_instantly(t.3);
            self.weights[l] = w;
            l = l + 1;
        }
    }

    /// The cluster-wakes hook: snap the mix weights.
    pub fn activate(&mut self)
        requires
            old(self).params.wf(),
        ensures
            final(self).params == old(self).params,
            final(self).voices == old(self).voices,
            forall|l: int|
                0 <= l < STEREO_VOICES_PER_VECTOR ==> final(self).weights@[l]
                    == weights_snapped_spec(sample_weights_spec(old(self).params.lanes@[l])),
            forall|l: int| 0 <= l < STEREO_VOICES_PER_VECTOR ==> weights_ok(final(self).weights@[l]),
    {
        self.set_gains_instantly();
    }

    /// The cluster-sleeps hook: nothing to release.
    pub fn deactivate(&mut self)
        ensures
            *final(self) == *old(self),
    {
    }

    /// Whether no lane currently holds a voice.
    pub open spec fn all_lanes_silent(self) -> bool {
        forall|l: int| 0 <= l < STEREO_VOICES_PER_VECTOR ==> (#[trigger] self.voices@[l]) is None
    }

    /// The lane parameter record after a note lands on it: only the
    /// base phase increment changes.
    pub open spec fn activated_lane_spec(self, voice_idx: int, log_pd_base: i64, note: u8)
        -> LaneParams {
        LaneParams {
            phase_delta: note_log_pd_spec(log_pd_base, note) as i64,
            ..self.params.lanes@[voice_idx]
        }
    }

    /// Advance every lane's parameters by a block of `num_samples`
    /// ticks, ramp the mix weights toward the values the advanced
    /// parameters give, and retarget the voices of the selected lanes.
    pub fn set_params_smoothed(
        &mut self,
        starting_phases: &[u32; MAX_UNISON],
        num_frames: usize,
        num_samples: u32,
        mask: &[bool; STEREO_VOICES_PER_VECTOR],
    )
        requires
            old(self).wf(num_frames as int),
            1 <= num_frames <= MAX_FRAMES,
            1 <= num_samples,
        ensures
            final(self).wf(num_frames as int),
            params_smoothed_rel(
                *old(self),
                *final(self),
                *starting_phases,
                num_frames,
                num_samples,
                *mask,
            ),
            forall|l: int|
                0 <= l < STEREO_VOICES_PER_VECTOR ==> final(self).params.lanes@[l] == old(
                    self,
                ).params.lanes@[l].ticked_spec(num_samples as nat),
            forall|l: int|
                0 <= l < STEREO_VOICES_PER_VECTOR ==> final(self).weights@[l]
                    == weights_retargeted_spec(
                    old(self).weights@[l],
                    sample_weights_spec(old(self).params.lanes@[l].ticked_spec(num_samples as nat)),
                    num_samples,
                ),
            forall|l: int|
                0 <= l < STEREO_VOICES_PER_VECTOR ==> voice_smoothed_rel(
                    old(self).voices@[l],
                    final(self).voices@[l],
                    voice_params_spec(
                        old(self).params.lanes@[l].ticked_spec(num_samples as nat),
                        *starting_phases,
                        num_frames,
                    ),
                    num_samples,
                    mask@[l],
                ),
    {
        self.params.tick_n(num_samples);
        let mut l: usize = 0;
        while l < STEREO_VOICES_PER_VECTOR
            invariant
                l <= STEREO_VOICES_PER_VECTOR,
                1 <= num_frames <= MAX_FRAMES,
                1 <= num_samples,
                old(self).wf(num_frames as int),
                self.params.wf(),
                forall|j: int|
                    0 <= j < STEREO_VOICES_PER_VECTOR ==> self.params.lanes@[j] == old(
                        self,
                    ).params.lanes@[j].ticked_spec(num_samples as nat),
                forall|j: int|
                    0 <= j < l ==> self.weights@[j] == weights_retargeted_spec(
                        old(self).weights@[j],
                        sample_weights_spec(self.params.lanes@[j]),
                        num_samples,
                    ),
                forall|j: int| 0 <= j < l ==> weights_ok(self.weights@[j]),
                forall|j: int|
                    l <= j < STEREO_VOICES_PER_VECTOR ==> self.weights@[j] == old(self).weights@[j],
                forall|j: int|
                    0 <= j < l ==> voice_smoothed_rel(
                        old(self).voices@[j],
                        self.voices@[j],
                        voice_params_spec(self.params.lanes@[j], *starting_phases, num_frames),
                        num_samples,
                        mask@[j],
                    ),
                forall|j: int|
                    l <= j < STEREO_VOICES_PER_VECTOR ==> self.voices@[j] == old(self).voices@[j],
                forall|j: int|
                    0 <= j < STEREO_VOICES_PER_VECTOR ==> match #[trigger] self.voices@[j] {
                        Some(v) => v.wf(num_frames as int),
                        None => true,
                    },
            decreases STEREO_VOICES_PER_VECTOR - l,
        {
            let t = self.params.get_sample_weights(l);
            let mut w = self.weights[l];
            w.normal_l.set_target(t.0, num_samples);
            w.normal_r.set_target(t.1, num_samples);
            w.flipped_l.set_target(t.2, num_samples);
            w.flipped_r.set_target(t.3, num_samples);
            self.weights[l] = w;
            if mask[l] {
                match self.voices[l] {
                    Some(mut v) => {
                        let vp = match VoiceParams::new(&self.params, starting_phases, num_frames, l) {
                            Some(vp) => vp,
                            None => {
                                proof {
                                    assert(false);
                                }
                                return ;
                            },
                        };
                        v.set_params_smoothed(&vp, num_samples);
                        self.voices[l] = Some(v);
                    },
                    None => {},
                }
            }
            l = l + 1;
        }
    }

    /// Snap the selected voices onto the targets the current parameters
    /// give them, with no glide; used when the host pushes a complete
    /// parameter snapshot.
    pub fn set_params(
        &mut self,
        starting_phases: &[u32; MAX_UNISON],
        num_frames: usize,
        mask: &[bool; STEREO_VOICES_PER_VECTOR],
    )
        requires
            old(self).wf(num_frames as int),
            1 <= num_frames <= MAX_FRAMES,
        ensures
            final(self).wf(num_frames as int),
            final(self).params == old(self).params,
            final(self).weights == old(self).weights,
            forall|l: int|
                0 <= l < STEREO_VOICES_PER_VECTOR ==> voice_instant_rel(
                    old(self).voices@[l],
                    final(self).voices@[l],
                    voice_params_spec(old(self).params.lanes@[l], *starting_phases, num_frames),
                    mask@[l],
                ),
    {
        let mut l: usize = 0;
        while l < STEREO_VOICES_PER_VECTOR
            invariant
                l <= STEREO_VOICES_PER_VECTOR,
                1 <= num_frames <= MAX_FRAMES,
                self.params == old(self).params,
                self.params.wf(),
                self.weights == old(self).weights,
                forall|j: int| 0 <= j < STEREO_VOICES_PER_VECTOR ==> weights_ok(self.weights@[j]),
                forall|j: int|
                    0 <= j < l ==> voice_instant_rel(
                        old(self).voices@[j],
                        self.voices@[j],
                        voice_params_spec(self.params.lanes@[j], *starting_phases, num_frames),
                        mask@[j],
                    ),
                forall|j: int|
                    l <= j < STEREO_VOICES_PER_VECTOR ==> self.voices@[j] == old(self).voices@[j],
                forall|j: int|
                    0 <= j < STEREO_VOICES_PER_VECTOR ==> match #[trigger] self.voices@[j] {
                        Some(v) => v.wf(num_frames as int),
                        None => true,
                    },
            decreases STEREO_VOICES_PER_VECTOR - l,
        {
            if mask[l] {
                match self.voices[l] {
                    Some(mut v) => {
                        let vp = match VoiceParams::new(&self.params, starting_phases, num_frames, l) {
                            Some(vp) => vp,
                            None => {
                                proof {
                                    assert(false);
                                }
                                return ;
                            },
                        };
                        v.set_params_instantly(&vp);
                        self.voices[l] = Some(v);
                    },
                    None => {},
                }
            }
            l = l + 1;
        }
    }

    /// Produce one sample for every lane: each selected voice advances
    /// and folds to a stereo pair, the weight smoothers tick once, and
    /// each channel blends the lane's own signal with its
    /// channel-swapped copy, realizing pan and stereo width.
    pub fn process(
        &mut self,
        table: &BandLimitedWaveTables,
        mask: &[bool; STEREO_VOICES_PER_VECTOR],
    ) -> (r: [StereoOut; STEREO_VOICES_PER_VECTOR])
        requires
            old(self).wf(table.num_frames as int),
            table.wf(),
            table.num_frames >= 1,
        ensures
            final(self).wf(table.num_frames as int),
            process_step_rel(*old(self), *final(self), r@, *table, *mask),
            final(self).params == old(self).params,
            forall|l: int|
                0 <= l < STEREO_VOICES_PER_VECTOR ==> final(self).weights@[l]
                    == weights_ticked1_spec(old(self).weights@[l]),
            forall|l: int|
                0 <= l < STEREO_VOICES_PER_VECTOR ==> voice_processed_rel(
                    old(self).voices@[l],
                    final(self).voices@[l],
                    mask@[l],
                ),
            forall|l: int|
                0 <= l < STEREO_VOICES_PER_VECTOR ==> r@[l] == weighted_out_spec(
                    old(self).weights@[l],
                    lane_raw_spec(old(self).voices@[l], *table, mask@[l]),
                ),
    {
        let mut outs: [StereoOut; STEREO_VOICES_PER_VECTOR] = [StereoOut { left: 0, right: 0 };
            STEREO_VOICES_PER_VECTOR];
        let mut l: usize = 0;
        while l < STEREO_VOICES_PER_VECTOR
            invariant
                l <= STEREO_VOICES_PER_VECTOR,
                table.wf(),
                table.num_frames >= 1,
                self.params == old(self).params,
                old(self).wf(table.num_frames as int),
                forall|j: int|
                    0 <= j < l ==> self.weights@[j] == weights_ticked1_spec(old(self).weights@[j]),
                forall|j: int| 0 <= j < l ==> weights_ok(self.weights@[j]),
                forall|j: int|
                    l <= j < STEREO_VOICES_PER_VECTOR ==> self.weights@[j] == old(self).weights@[j],
                forall|j: int|
                    0 <= j < l ==> voice_processed_rel(
                        old(self).voices@[j],
                        self.voices@[j],
                        mask@[j],
                    ),
                forall|j: int|
                    l <= j < STEREO_VOICES_PER_VECTOR ==> self.voices@[j] == old(self).voices@[j],
                forall|j: int|
                    0 <= j < STEREO_VOICES_PER_VECTOR ==> match #[trigger] self.voices@[j] {
                        Some(v) => v.wf(table.num_frames as int),
                        None => true,
                    },
                forall|j: int|
                    0 <= j < l ==> outs@[j] == weighted_out_spec(
                        old(self).weights@[j],
                        lane_raw_spec(old(self).voices@[j], *table, mask@[j]),
                    ),
            decreases STEREO_VOICES_PER_VECTOR - l,
        {
            let raw: StereoOut = if mask[l] {
                match self.voices[l] {
                    Some(mut v) => {
                        let s = v.process(table);
                        self.voices[l] = Some(v);
                        s
                    },
                    None => StereoOut { left: 0, right: 0 },
                }
            } else {
                StereoOut { left: 0, right: 0 }
            };
            let mut w = self.weights[l];
            w.normal_l.tick1();
            w.normal_r.tick1();
            w.flipped_l.tick1();
            w.flipped_r.tick1();
            self.weights[l] = w;
            proof {
                assert(-0x10_0000_0000_0000 <= w.normal_l.current * raw.left
                    <= 0x10_0000_0000_0000 && -0x10_0000_0000_0000 <= w.flipped_l.current
                    * raw.right <= 0x10_0000_0000_0000 && -0x10_0000_0000_0000
                    <= w.normal_r.current * raw.right <= 0x10_0000_0000_0000
                    && -0x10_0000_0000_0000 <= w.flipped_r.current * raw.left
                    <= 0x10_0000_0000_0000) by (nonlinear_arith)
                    requires
                        0 <= w.normal_l.current <= WEIGHT_BOUND,
                        0 <= w.flipped_l.current <= WEIGHT_BOUND,
                        0 <= w.normal_r.current <= WEIGHT_BOUND,
                        0 <= w.flipped_r.current <= WEIGHT_BOUND,
                        -0x8_0000_0000 <= raw.left <= 0x8_0000_0000,
                        -0x8_0000_0000 <= raw.right <= 0x8_0000_0000,
                ;
            }
            let sum_l: i64 = w.normal_l.current * raw.left + w.flipped_l.current * raw.right;
            let sum_r: i64 = w.normal_r.current * raw.right + w.flipped_r.current * raw.left;
            let out = StereoOut { left: div_floor(sum_l, 65536), right: div_floor(sum_r, 65536) };
            outs[l] = out;
            l = l + 1;
        }
        outs
    }

    /// Return every sounding voice's accumulators to phase zero.
    pub fn reset(&mut self)
        ensures
            final(self).params == old(self).params,
            final(self).weights == old(self).weights,
            forall|l: int|
                0 <= l < STEREO_VOICES_PER_VECTOR ==> voice_reset_rel(
                    old(self).voices@[l],
                    final(self).voices@[l],
                ),
    {
        let mut l: usize = 0;
        while l < STEREO_VOICES_PER_VECTOR
            invariant
                l <= STEREO_VOICES_PER_VECTOR,
                self.params == old(self).params,
                self.weights == old(self).weights,
                forall|j: int|
                    0 <= j < l ==> voice_reset_rel(old(self).voices@[j], self.voices@[j]),
                forall|j: int|
                    l <= j < STEREO_VOICES_PER_VECTOR ==> self.voices@[j] == old(self).voices@[j],
            decreases STEREO_VOICES_PER_VECTOR - l,
        {
            match self.voices[l] {
                Some(mut v) => {
                    v.reset();
                    self.voices[l] = Some(v);
                },
                None => {},
            }
            l = l + 1;
        }
    }

    /// Land a note on a lane: set the lane's base phase increment from
    /// the note number, wake the cluster's weights if it was silent, and
    /// start a fresh voice in the slot. A lane index beyond the
    /// cluster's width does nothing and reports failure.
    pub fn activate_voice(
        &mut self,
        voice_idx: usize,
        starting_phases: &[u32; MAX_UNISON],
        num_frames: usize,
        note: u8,
        log_pd_base: i64,
    ) -> (r: bool)
        requires
            old(self).wf(num_frames as int),
            1 <= num_frames <= MAX_FRAMES,
            0 <= log_pd_base <= LOG_PD_MAX,
        ensures
            final(self).wf(num_frames as int),
            r == (voice_idx < STEREO_VOICES_PER_VECTOR),
            !r ==> *final(self) == *old(self),
            r ==> final(self).params.lanes@ == old(self).params.lanes@.update(
                voice_idx as int,
                old(self).activated_lane_spec(voice_idx as int, log_pd_base, note),
            ),
            r ==> voice_activated_rel(
                final(self).voices@[voice_idx as int],
                voice_params_spec(
                    old(self).activated_lane_spec(voice_idx as int, log_pd_base, note),
                    *starting_phases,
                    num_frames,
                ),
            ),
            r ==> forall|l: int|
                0 <= l < STEREO_VOICES_PER_VECTOR && l != voice_idx ==> final(self).voices@[l]
                    == old(self).voices@[l],
            r && old(self).all_lanes_silent() ==> forall|l: int|
                0 <= l < STEREO_VOICES_PER_VECTOR ==> final(self).weights@[l]
                    == weights_snapped_spec(sample_weights_spec(final(self).params.lanes@[l])),
            r && !old(self).all_lanes_silent() ==> final(self).weights == old(self).weights,
    {
        if voice_idx >= STEREO_VOICES_PER_VECTOR {
            return false;
        }
        let note_offset: i64 = div_floor(((note as i64) - 69) * 65536, 12);
        let unclamped: i64 = log_pd_base + note_offset;
        let log_pd: i64 = if unclamped < 0 {
            0
        } else if unclamped > LOG_PD_MAX {
            LOG_PD_MAX
        } else {
            unclamped
        };
        let mut lane = self.params.lanes[voice_idx];
        lane.phase_delta = log_pd;
        self.params.lanes[voice_idx] = lane;
        let mut any: bool = false;
        let mut l: usize = 0;
        while l < STEREO_VOICES_PER_VECTOR
            invariant
                l <= STEREO_VOICES_PER_VECTOR,
                any == exists|j: int| 0 <= j < l && (#[trigger] self.voices@[j]) is Some,
            decreases STEREO_VOICES_PER_VECTOR - l,
        {
            if self.voices[l].is_some() {
                any = true;
            }
            l = l + 1;
        }
        if !any {
            self.set_gains_instantly();
        }
        let vp = match VoiceParams::new(&self.params, starting_phases, num_frames, voice_idx) {
            Some(vp) => vp,
            None => {
                proof {
                    assert(false);
                }
                return false;
            },
        };
        let mut v = WTOscVoice::new();
        v.activate(&vp);
        self.voices[voice_idx] = Some(v);
        true
    }

    /// Silence a lane: clear its voice slot if it holds one. Clearing
    /// an empty or out-of-range lane is a benign no-op.
    pub fn deactivate_voice(&mut self, index: usize) -> (r: bool)
        ensures
            r == (index < STEREO_VOICES_PER_VECTOR && old(self).voices@[index as int] is Some),
            final(self).params == old(self).params,
            final(self).weights == old(self).weights,
            index < STEREO_VOICES_PER_VECTOR ==> final(self).voices@[index as int] is None,
            forall|l: int|
                0 <= l < STEREO_VOICES_PER_VECTOR && l != index ==> final(self).voices@[l] == old(
                    self,
                ).voices@[l],
            index >= STEREO_VOICES_PER_VECTOR ==> *final(self) == *old(self),
    {
        if index < STEREO_VOICES_PER_VECTOR {
            match self.voices[index] {
                Some(mut v) => {
                    v.deactivate();
                    self.voices[index] = None;
                    true
                },
                None => false,
            }
        } else {
            false
        }
    }

    /// Rescale every sounding voice's frame positions onto a bank with
    /// a different frame count, keeping relative wavetable positions.
    pub fn scale_frames(&mut self, new_nf: usize, old_nf: usize)
        requires
            old(self).wf(old_nf as int),
            1 <= new_nf <= MAX_FRAMES,
            1 <= old_nf <= MAX_FRAMES,
        ensures
            final(self).wf(new_nf as int),
            final(self).params == old(self).params,
            final(self).weights == old(self).weights,
            forall|l: int|
                0 <= l < STEREO_VOICES_PER_VECTOR ==> voice_scaled_rel(
                    old(self).voices@[l],
                    final(self).voices@[l],
                    new_nf as int,
                    old_nf as int,
                ),
    {
        let mut l: usize = 0;
        while l < STEREO_VOICES_PER_VECTOR
            invariant
                l <= STEREO_VOICES_PER_VECTOR,
                old(self).wf(old_nf as int),
                1 <= new_nf <= MAX_FRAMES,
                1 <= old_nf <= MAX_FRAMES,
                self.params == old(self).params,
                self.weights == old(self).weights,
                forall|j: int|
                    0 <= j < l ==> voice_scaled_rel(
                        old(self).voices@[j],
                        self.voices@[j],
                        new_nf as int,
                        old_nf as int,
                    ),
                forall|j: int|
                    0 <= j < l ==> match #[trigger] self.voices@[j] {
                        Some(v) => v.wf(new_nf as int),
                        None => true,
                    },
                forall|j: int|
                    l <= j < STEREO_VOICES_PER_VECTOR ==> self.voices@[j] == old(self).voices@[j],
            decreases STEREO_VOICES_PER_VECTOR - l,
        {
            match self.voices[l] {
                Some(mut v) => {
                    v.scale_frames(new_nf, old_nf);
                    self.voices[l] = Some(v);
                },
                None => {},
            }
            l = l + 1;
        }
    }

    /// Everything lane `i` owns, copied out as one record.
    pub fn read_lane(&self, i: usize) -> (r: ClusterLaneState)
        requires
            i < STEREO_VOICES_PER_VECTOR,
        ensures
            r == self.lane_state_spec(i as int),
    {
        ClusterLaneState {
            params: self.params.lanes[i],
            weights: self.weights[i],
            voice: self.voices[i],
        }
    }

    /// Overwrite lane `i` with a record, leaving every other lane
    /// untouched.
    pub fn write_lane(&mut self, i: usize, s: ClusterLaneState)
        requires
            i < STEREO_VOICES_PER_VECTOR,
        ensures
            final(self).params.lanes@ == old(self).params.lanes@.update(i as int, s.params),
            final(self).weights@ == old(self).weights@.update(i as int, s.weights),
            final(self).voices@ == old(self).voices@.update(i as int, s.voice),
    {
        self.params.lanes[i] = s.params;
        self.weights[i] = s.weights;
        self.voices[i] = s.voice;
    }

    /// Migrate the full state of one lane onto another lane of the same
    /// cluster: the target lane becomes a copy of the source lane and
    /// every other lane is untouched, so an in-progress voice moves
    /// without an audible discontinuity.
    pub fn move_state(&mut self, from: usize, to: usize)
        requires
            from < STEREO_VOICES_PER_VECTOR,
            to < STEREO_VOICES_PER_VECTOR,
        ensures
            final(self).lane_state_spec(to as int) == old(self).lane_state_spec(from as int),
            forall|l: int|
                0 <= l < STEREO_VOICES_PER_VECTOR && l != to ==> final(self).lane_state_spec(l)
                    == old(self).lane_state_spec(l),
    {
        let st = self.read_lane(from);
        self.write_lane(to, st);
    }
}

/// One mix weight never decreases when its pan weight grows.
proof fn lemma_mix_weight_monotone(pw1: int, pw2: int, widen: int, level: int)
    requires
        0 <= pw1 <= pw2,
        0 <= widen,
        0 <= level,
    ensures
        mix_weight_spec(pw1, widen, level) <= mix_weight_spec(pw2, widen, level),
{
    assert(pw1 * widen <= pw2 * widen) by {
        vstd::arithmetic::mul::lemma_mul_inequality(pw1, pw2, widen);
    }
    assert(0 <= pw1 * widen) by (nonlinear_arith)
        requires
            0 <= pw1,
            0 <= widen,
    ;
    crate::fixed::lemma_sqrt_floor_monotone(pw1 * widen, pw2 * widen);
    crate::fixed::lemma_sqrt_floor_bracket(pw1 * widen);
    let s1 = sqrt_floor_spec(pw1 * widen);
    let s2 = sqrt_floor_spec(pw2 * widen);
    assert(s1 * level <= s2 * level) by {
        vstd::arithmetic::mul::lemma_mul_inequality(s1, s2, level);
    }
    vstd::arithmetic::div_mod::lemma_div_is_ordered(s1 * level, s2 * level, 65536);
}

/// Gain normalization: raising a lane's unison count, with level,
/// stereo width and pan unchanged, never raises any of its four stereo
/// mix weights — dividing the pan weights by the voice count cancels
/// the gain the extra copies would add.
pub proof fn lemma_gain_normalization_antitone(p1: LaneParams, p2: LaneParams)
    requires
        p1.wf(),
        p2.wf(),
        p1.level == p2.level,
        p1.stereo == p2.stereo,
        p1.norm_pan == p2.norm_pan,
        p1.num_voices <= p2.num_voices,
    ensures
        sample_weights_spec(p2).0 <= sample_weights_spec(p1).0,
        sample_weights_spec(p2).1 <= sample_weights_spec(p1).1,
        sample_weights_spec(p2).2 <= sample_weights_spec(p1).2,
        sample_weights_spec(p2).3 <= sample_weights_spec(p1).3,
{
    let pan = p1.norm_pan.current as int;
    vstd::arithmetic::div_mod::lemma_div_is_ordered_by_denominator(
        65536 - pan,
        p1.num_voices as int,
        p2.num_voices as int,
    );
    vstd::arithmetic::div_mod::lemma_div_is_ordered_by_denominator(
        pan,
        p1.num_voices as int,
        p2.num_voices as int,
    );
    let pl1 = pan_weights_spec(p1).0;
    let pl2 = pan_weights_spec(p2).0;
    let pr1 = pan_weights_spec(p1).1;
    let pr2 = pan_weights_spec(p2).1;
    assert(0 <= pl2 && 0 <= pr2) by {
        vstd::arithmetic::div_mod::lemma_div_is_ordered(
            0,
            65536 - pan,
            p2.num_voices as int,
        );
        vstd::arithmetic::div_mod::lemma_div_is_ordered(0, pan, p2.num_voices as int);
    }
    lemma_mix_weight_monotone(pl2, pl1, 65536 + p1.stereo.current as int, p1.level.current as int);
    lemma_mix_weight_monotone(pr2, pr1, 65536 + p1.stereo.current as int, p1.level.current as int);
    lemma_mix_weight_monotone(pl2, pl1, 65536 - p1.stereo.current as int, p1.level.current as int);
    lemma_mix_weight_monotone(pr2, pr1, 65536 - p1.stereo.current as int, p1.level.current as int);
}

/// Pan crossfade monotonicity: while a lane's pan ramps upward and its
/// level and stereo width rest on their targets, each further sample
/// can only lower the two left-channel weights and raise the two
/// right-channel weights — the stereo image crosses over smoothly, not
/// in a step.
pub proof fn lemma_pan_crossfade_monotone(p: LaneParams, i: nat)
    requires
        p.wf(),
        p.level.current == p.level.target,
        p.stereo.current == p.stereo.target,
        p.norm_pan.current <= p.norm_pan.target,
    ensures
        sample_weights_spec(p.ticked_spec(i + 1)).0 <= sample_weights_spec(p.ticked_spec(i)).0,
        sample_weights_spec(p.ticked_spec(i)).1 <= sample_weights_spec(p.ticked_spec(i + 1)).1,
        sample_weights_spec(p.ticked_spec(i + 1)).2 <= sample_weights_spec(p.ticked_spec(i)).2,
        sample_weights_spec(p.ticked_spec(i)).3 <= sample_weights_spec(p.ticked_spec(i + 1)).3,
{
    crate::smoother::lemma_ticked_converged(p.level, i);
    crate::smoother::lemma_ticked_converged(p.level, i + 1);
    crate::smoother::lemma_ticked_converged(p.stereo, i);
    crate::smoother::lemma_ticked_converged(p.stereo, i + 1);
    crate::smoother::lemma_ticked_monotone_up(p.norm_pan, i);
    crate::smoother::lemma_ticked_stays_in_range(p.norm_pan, i);
    crate::smoother::lemma_ticked_stays_in_range(p.norm_pan, i + 1);
    let pan1 = p.ticked_spec(i).norm_pan.current as int;
    let pan2 = p.ticked_spec(i + 1).norm_pan.current as int;
    let nv = p.num_voices as int;
    vstd::arithmetic::div_mod::lemma_div_is_ordered(65536 - pan2, 65536 - pan1, nv);
    vstd::arithmetic::div_mod::lemma_div_is_ordered(pan1, pan2, nv);
    vstd::arithmetic::div_mod::lemma_div_is_ordered(0, 65536 - pan2, nv);
    vstd::arithmetic::div_mod::lemma_div_is_ordered(0, pan1, nv);
    lemma_mix_weight_monotone(
        pan_weights_spec(p.ticked_spec(i + 1)).0,
        pan_weights_spec(p.ticked_spec(i)).0,
        65536 + p.stereo.current as int,
        p.level.current as int,
    );
    lemma_mix_weight_monotone(
        pan_weights_spec(p.ticked_spec(i)).1,
        pan_weights_spec(p.ticked_spec(i + 1)).1,
        65536 + p.stereo.current as int,
        p.level.current as int,
    );
    lemma_mix_weight_monotone(
        pan_weights_spec(p.ticked_spec(i + 1)).0,
        pan_weights_spec(p.ticked_spec(i)).0,
        65536 - p.stereo.current as int,
        p.level.current as int,
    );
    lemma_mix_weight_monotone(
        pan_weights_spec(p.ticked_spec(i)).1,
        pan_weights_spec(p.ticked_spec(i + 1)).1,
        65536 - p.stereo.current as int,
        p.level.current as int,
    );
}

} // verus!
