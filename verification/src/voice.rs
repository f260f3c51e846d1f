//! One musical note realized as a stack of detuned unison oscillators.
//!
//! A `VoiceParams` value is the plain per-lane parameter snapshot a
//! cluster hands to one of its voice slots: everything an oscillator
//! needs to derive its own targets. A `WTOscVoice` owns the fixed
//! array of unison oscillator lanes for one note; its unison count
//! decides how many of them sound, and the unused tail lanes are kept
//! inactive so they never contribute audio.
use crate::fixed::LOG_PD_MAX;
use crate::oscillator::{
    active_copies_spec, Oscillator, OscillatorParams, StereoOut,
};
use crate::wavetable::{BandLimitedWaveTables, MAX_FRAMES};
use crate::{MAX_UNISON, ONE_Q16};
use vstd::prelude::*;

verus! {

/// Largest magnitude, in Q16 semitones, the transpose and detune-spread
/// parameters may take.
pub const SEMITONE_BOUND: i64 = 8388608;

/// The per-lane parameter snapshot consumed by one voice: normalized
/// values in Q16, the unison count, and the note's log-domain base
/// phase increment.
#[derive(Clone, Copy, Debug)]
pub struct VoiceParams {
    /// Normalized wavetable frame position, in `[0, 1]` Q16.
    pub frame: i64,
    /// Transpose offset in Q16 semitones.
    pub transpose: i64,
    /// Phase-randomization amount, in `[0, 1]` Q16.
    pub random: i64,
    /// Detune spread in Q16 semitones.
    pub detune: i64,
    /// Requested unison copies, clamped to `[1, MAX_UNISON]`.
    pub num_voices: u32,
    /// Log-domain base phase increment of the note, Q16 octaves.
    pub phase_delta: i64,
    /// Per-copy starting phases, in phase-accumulator units.
    pub starting_phases: [u32; MAX_UNISON],
    /// Number of frames in the bank the voice reads from.
    pub num_frames: usize,
}

impl VoiceParams {
    /// Bounds under which every derived target fits its range.
    pub open spec fn wf(self) -> bool {
        &&& 0 <= self.frame <= ONE_Q16
        &&& -SEMITONE_BOUND <= self.transpose <= SEMITONE_BOUND
        &&& 0 <= self.random <= ONE_Q16
        &&& -SEMITONE_BOUND <= self.detune <= SEMITONE_BOUND
        &&& 1 <= self.num_voices <= MAX_UNISON
        &&& 0 <= self.phase_delta <= LOG_PD_MAX
        &&& 1 <= self.num_frames <= MAX_FRAMES
    }

    /// Build the snapshot for voice lane `i` of a cluster: its lane's
    /// smoothed currents, with the detune spread scaled into semitones.
    /// A lane index beyond the cluster's width yields nothing.
    pub fn new(
        params: &crate::cluster::WTOscClusterParams,
        starting_phases: &[u32; MAX_UNISON],
        num_frames: usize,
        i: usize,
    ) -> (r: Option<VoiceParams>)
        requires
            params.wf(),
            1 <= num_frames <= crate::wavetable::MAX_FRAMES,
        ensures
            r is Some <==> i < crate::STEREO_VOICES_PER_VECTOR,
            i < crate::STEREO_VOICES_PER_VECTOR ==> r == Some(
                crate::cluster::voice_params_spec(
                    params.lanes@[i as int],
                    *starting_phases,
                    num_frames,
                ),
            ),
            i < crate::STEREO_VOICES_PER_VECTOR ==> crate::cluster::voice_params_spec(
                params.lanes@[i as int],
                *starting_phases,
                num_frames,
            ).wf(),
    {
        if i >= crate::STEREO_VOICES_PER_VECTOR {
            return None;
        }
        let lane = params.lanes[i];
        proof {
            assert(-206158430208 <= lane.detune.current * lane.detune_range.current
                <= 206158430208) by (nonlinear_arith)
                requires
                    0 <= lane.detune.current <= 65536,
                    -3145728 <= lane.detune_range.current <= 3145728,
            ;
            crate::cluster::lemma_voice_params_wf(lane, *starting_phases, num_frames);
        }
        let detune: i64 = crate::oscillator::div_floor(
            lane.detune.current * lane.detune_range.current,
            65536,
        );
        Some(
            VoiceParams {
                frame: lane.norm_frame.current,
                transpose: lane.transpose.current,
                random: lane.random.current,
                detune,
                num_voices: lane.num_voices,
                phase_delta: lane.phase_delta,
                starting_phases: *starting_phases,
                num_frames,
            },
        )
    }

    /// Raw unison-voice count of the snapshot.
    pub fn num_unison_voices_raw(&self) -> (r: u32)
        ensures
            r == self.num_voices,
    {
        self.num_voices
    }

    /// Detune spread in Q16 semitones.
    pub fn detune(&self) -> (r: i64)
        ensures
            r == self.detune,
    {
        self.detune
    }

    /// Transpose offset in Q16 semitones.
    pub fn transpose(&self) -> (r: i64)
        ensures
            r == self.transpose,
    {
        self.transpose
    }

    /// Normalized frame position.
    pub fn frame(&self) -> (r: i64)
        ensures
            r == self.frame,
    {
        self.frame
    }

    /// Phase-randomization amount.
    pub fn random(&self) -> (r: i64)
        ensures
            r == self.random,
    {
        self.random
    }

    /// The per-copy starting phases.
    pub fn starting_phases(&self) -> (r: &[u32; MAX_UNISON])
        ensures
            r@ == self.starting_phases@,
    {
        &self.starting_phases
    }

    /// Log-domain base phase increment.
    pub fn base_phase_delta(&self) -> (r: i64)
        ensures
            r == self.phase_delta,
    {
        self.phase_delta
    }

    /// How many oscillator lanes the snapshot's unison count engages:
    /// the count rounded up to a whole stereo pair.
    pub fn num_oscillators(&self) -> (r: usize)
        requires
            self.wf(),
        ensures
            r == active_copies_spec(self.num_voices as int),
            2 <= r <= MAX_UNISON,
            r % 2 == 0,
    {
        (self.num_voices as usize) + (self.num_voices as usize) % 2
    }
}

/// The per-sample audio one lane contributes: silence when inactive,
/// otherwise the bank read back at its advanced phase.
pub open spec fn lane_output_spec(o: Oscillator, table: BandLimitedWaveTables) -> int {
    if o.active_voices_mask {
        table.resample_spec(
            Oscillator::linear_delta_spec(o.phase_delta.tick1_spec().current),
            Oscillator::frame_index_spec(o.frame.tick1_spec().current) as int,
            o.advanced_spec().phase,
        )
    } else {
        0
    }
}

/// Stereo fold of the first `m` lanes' outputs: even lanes sum into the
/// left channel, odd lanes into the right.
pub open spec fn stereo_sum_spec(oscs: Seq<Oscillator>, table: BandLimitedWaveTables, m: int) -> (
    int,
    int,
)
    decreases m,
{
    if m <= 0 {
        (0, 0)
    } else {
        let rest = stereo_sum_spec(oscs, table, m - 1);
        if (m - 1) % 2 == 0 {
            (rest.0 + lane_output_spec(oscs[m - 1], table), rest.1)
        } else {
            (rest.0, rest.1 + lane_output_spec(oscs[m - 1], table))
        }
    }
}

/// One note: a fixed array of unison oscillator lanes, of which the
/// first `num_oscs` sound.
#[derive(Clone, Copy, Debug)]
pub struct WTOscVoice {
    /// Engaged oscillator lanes, always at least one.
    pub num_oscs: usize,
    /// The unison oscillator lanes.
    pub oscs: [Oscillator; MAX_UNISON],
}

impl WTOscVoice {
    /// Every lane within range and reading inside the bank.
    pub open spec fn wf(self, num_frames: int) -> bool {
        &&& 1 <= self.num_oscs <= MAX_UNISON
        &&& forall|k: int| 0 <= k < MAX_UNISON ==> self.oscs@[k].wf(num_frames)
    }

    /// A silent voice with every lane inert.
    pub fn new() -> (r: WTOscVoice)
        ensures
            r.num_oscs == 1,
            forall|k: int| 0 <= k < MAX_UNISON ==> r.oscs@[k] == Oscillator::inert_spec(),
    {
        WTOscVoice { num_oscs: 1, oscs: [Oscillator::new(); MAX_UNISON] }
    }

    /// Adopt an engaged-lane count if it is representable; reject
    /// counts outside `[1, MAX_UNISON]`.
    pub fn set_num_oscs(&mut self, num_oscs: usize) -> (r: bool)
        ensures
            r == (1 <= num_oscs <= MAX_UNISON),
            r ==> *final(self) == (WTOscVoice { num_oscs, ..*old(self) }),
            !r ==> *final(self) == *old(self),
    {
        let valid = 1 <= num_oscs && num_oscs <= MAX_UNISON;
        if valid {
            self.num_oscs = num_oscs;
        }
        valid
    }

    /// Releasing a voice carries no state of its own; the cluster clears
    /// the slot.
    pub fn deactivate(&mut self)
        ensures
            *final(self) == *old(self),
    {
    }

    /// Start sounding with the given snapshot: parameters snap to their
    /// targets so the new note does not glide from stale values.
    pub fn activate(&mut self, params: &VoiceParams)
        requires
            params.wf(),
        ensures
            final(self).num_oscs == active_copies_spec(params.num_voices as int),
            forall|k: int|
                0 <= k < MAX_UNISON ==> final(self).oscs@[k] == old(self).oscs@[k].set_instantly_spec(
                    OscillatorParams { index: k as usize, params: *params },
                ),
            final(self).wf(params.num_frames as int),
    {
        self.set_params_instantly(params);
    }

    /// Snap every lane's parameters to the targets the snapshot gives
    /// it; lanes beyond the unison count are deactivated.
    pub fn set_params_instantly(&mut self, params: &VoiceParams)
        requires
            params.wf(),
        ensures
            final(self).num_oscs == active_copies_spec(params.num_voices as int),
            forall|k: int|
                0 <= k < MAX_UNISON ==> final(self).oscs@[k] == old(self).oscs@[k].set_instantly_spec(
                    OscillatorParams { index: k as usize, params: *params },
                ),
            final(self).wf(params.num_frames as int),
    {
        let n = params.num_oscillators();
        self.set_num_oscs(n);
        let mut k: usize = 0;
        while k < MAX_UNISON
            invariant
                k <= MAX_UNISON,
                params.wf(),
                self.num_oscs == active_copies_spec(params.num_voices as int),
                forall|j: int|
                    0 <= j < k ==> self.oscs@[j] == old(self).oscs@[j].set_instantly_spec(
                        OscillatorParams { index: j as usize, params: *params },
                    ),
                forall|j: int| 0 <= j < k ==> self.oscs@[j].wf(params.num_frames as int),
                forall|j: int| k <= j < MAX_UNISON ==> self.oscs@[j] == old(self).oscs@[j],
            decreases MAX_UNISON - k,
        {
            let op = OscillatorParams::new(k, params);
            let mut o = self.oscs[k];
            o.set_params_instantly(&op);
            self.oscs[k] = o;
            k = k + 1;
        }
    }

    /// Ramp every lane's parameters toward the targets the snapshot
    /// gives it over `samples` ticks.
    pub fn set_params_smoothed(&mut self, params: &VoiceParams, samples: u32)
        requires
            old(self).wf(params.num_frames as int),
            params.wf(),
            1 <= samples,
        ensures
            final(self).num_oscs == active_copies_spec(params.num_voices as int),
            forall|k: int|
                0 <= k < MAX_UNISON ==> final(self).oscs@[k] == old(self).oscs@[k].set_smoothed_spec(
                    OscillatorParams { index: k as usize, params: *params },
                    samples,
                ),
            final(self).wf(params.num_frames as int),
    {
        let n = params.num_oscillators();
        self.set_num_oscs(n);
        let mut k: usize = 0;
        while k < MAX_UNISON
            invariant
                k <= MAX_UNISON,
                params.wf(),
                1 <= samples,
                self.num_oscs == active_copies_spec(params.num_voices as int),
                forall|j: int|
                    0 <= j < k ==> self.oscs@[j] == old(self).oscs@[j].set_smoothed_spec(
                        OscillatorParams { index: j as usize, params: *params },
                        samples,
                    ),
                forall|j: int| 0 <= j < k ==> self.oscs@[j].wf(params.num_frames as int),
                forall|j: int| k <= j < MAX_UNISON ==> self.oscs@[j] == old(self).oscs@[j],
                forall|j: int| k <= j < MAX_UNISON ==> self.oscs@[j].wf(params.num_frames as int),
            decreases MAX_UNISON - k,
        {
            let op = OscillatorParams::new(k, params);
            let mut o = self.oscs[k];
            o.set_params_smoothed(&op, samples);
            self.oscs[k] = o;
            k = k + 1;
        }
    }

    /// Advance every lane one sample and fold the lane outputs down to
    /// one stereo pair: even lanes left, odd lanes right.
    pub fn process(&mut self, table: &BandLimitedWaveTables) -> (r: StereoOut)
        requires
            old(self).wf(table.num_frames as int),
            table.wf(),
            table.num_frames >= 1,
        ensures
            final(self).wf(table.num_frames as int),
            final(self).num_oscs == old(self).num_oscs,
            forall|k: int|
                0 <= k < MAX_UNISON ==> final(self).oscs@[k] == old(self).oscs@[k].advanced_spec(),
            r.left == stereo_sum_spec(old(self).oscs@, *table, MAX_UNISON as int).0,
            r.right == stereo_sum_spec(old(self).oscs@, *table, MAX_UNISON as int).1,
            -0x8_0000_0000 <= r.left <= 0x8_0000_0000,
            -0x8_0000_0000 <= r.right <= 0x8_0000_0000,
    {
        let mut left: i64 = 0;
        let mut right: i64 = 0;
        let mut k: usize = 0;
        while k < MAX_UNISON
            invariant
                k <= MAX_UNISON,
                table.wf(),
                table.num_frames >= 1,
                self.num_oscs == old(self).num_oscs,
                left == stereo_sum_spec(old(self).oscs@, *table, k as int).0,
                right == stereo_sum_spec(old(self).oscs@, *table, k as int).1,
                -0x8000_0000 * (k as int) <= left <= 0x8000_0000 * (k as int),
                -0x8000_0000 * (k as int) <= right <= 0x8000_0000 * (k as int),
                forall|j: int|
                    0 <= j < k ==> self.oscs@[j] == old(self).oscs@[j].advanced_spec(),
                forall|j: int| k <= j < MAX_UNISON ==> self.oscs@[j] == old(self).oscs@[j],
                forall|j: int| k <= j < MAX_UNISON ==> self.oscs@[j].wf(table.num_frames as int),
                forall|j: int| 0 <= j < k ==> self.oscs@[j].wf(table.num_frames as int),
            decreases MAX_UNISON - k,
        {
            let mut o = self.oscs[k];
            let s = o.advance_and_resample(table);
            self.oscs[k] = o;
            if k % 2 == 0 {
                left = left + (s as i64);
            } else {
                right = right + (s as i64);
            }
            k = k + 1;
        }
        StereoOut { left, right }
    }

    /// Restart every lane at its configured starting phase scaled by a
    /// randomization amount, without touching the ramps.
    pub fn reset_phases(&mut self, starting_phases: &[u32; MAX_UNISON], random: i64)
        requires
            0 <= random <= crate::ONE_Q16,
        ensures
            final(self).num_oscs == old(self).num_oscs,
            forall|k: int|
                0 <= k < MAX_UNISON ==> final(self).oscs@[k] == (Oscillator {
                    phase: (starting_phases@[k] as int * random / 65536) as u32,
                    ..old(self).oscs@[k]
                }),
    {
        let mut k: usize = 0;
        while k < MAX_UNISON
            invariant
                k <= MAX_UNISON,
                0 <= random <= crate::ONE_Q16,
                self.num_oscs == old(self).num_oscs,
                forall|j: int|
                    0 <= j < k ==> self.oscs@[j] == (Oscillator {
                        phase: (starting_phases@[j] as int * random / 65536) as u32,
                        ..old(self).oscs@[j]
                    }),
                forall|j: int| k <= j < MAX_UNISON ==> self.oscs@[j] == old(self).oscs@[j],
            decreases MAX_UNISON - k,
        {
            let base: u64 = starting_phases[k] as u64;
            proof {
                assert(base * (random as u64) <= base * 65536) by (nonlinear_arith)
                    requires
                        0 <= random <= 65536,
                        base >= 0,
                ;
            }
            let phase: u64 = base * (random as u64) / 65536;
            let mut o = self.oscs[k];
            o.set_phase(phase as u32);
            self.oscs[k] = o;
            k = k + 1;
        }
    }

    /// Rescale every lane's frame position onto a bank with a different
    /// frame count.
    pub fn scale_frames(&mut self, new_nf: usize, old_nf: usize)
        requires
            old(self).wf(old_nf as int),
            1 <= new_nf <= crate::wavetable::MAX_FRAMES,
            1 <= old_nf <= crate::wavetable::MAX_FRAMES,
        ensures
            final(self).num_oscs == old(self).num_oscs,
            final(self).wf(new_nf as int),
            forall|k: int|
                0 <= k < MAX_UNISON ==> final(self).oscs@[k] == (Oscillator {
                    frame: crate::smoother::LinearSmoother {
                        current: Oscillator::scaled_frame_spec(
                            old(self).oscs@[k].frame.current,
                            new_nf as int,
                            old_nf as int,
                        ) as i64,
                        target: Oscillator::scaled_frame_spec(
                            old(self).oscs@[k].frame.target,
                            new_nf as int,
                            old_nf as int,
                        ) as i64,
                        step: old(self).oscs@[k].frame.step,
                    },
                    ..old(self).oscs@[k]
                }),
    {
        let mut k: usize = 0;
        while k < MAX_UNISON
            invariant
                k <= MAX_UNISON,
                old(self).wf(old_nf as int),
                1 <= new_nf <= crate::wavetable::MAX_FRAMES,
                1 <= old_nf <= crate::wavetable::MAX_FRAMES,
                self.num_oscs == old(self).num_oscs,
                forall|j: int|
                    0 <= j < k ==> self.oscs@[j] == (Oscillator {
                        frame: crate::smoother::LinearSmoother {
                            current: Oscillator::scaled_frame_spec(
                                old(self).oscs@[j].frame.current,
                                new_nf as int,
                                old_nf as int,
                            ) as i64,
                            target: Oscillator::scaled_frame_spec(
                                old(self).oscs@[j].frame.target,
                                new_nf as int,
                                old_nf as int,
                            ) as i64,
                            step: old(self).oscs@[j].frame.step,
                        },
                        ..old(self).oscs@[j]
                    }),
                forall|j: int| 0 <= j < k ==> self.oscs@[j].wf(new_nf as int),
                forall|j: int| k <= j < MAX_UNISON ==> self.oscs@[j] == old(self).oscs@[j],
            decreases MAX_UNISON - k,
        {
            let mut o = self.oscs[k];
            o.scale_frame(new_nf, old_nf);
            self.oscs[k] = o;
            k = k + 1;
        }
    }

    /// Return every lane's accumulator to phase zero.
    pub fn reset(&mut self)
        ensures
            final(self).num_oscs == old(self).num_oscs,
            forall|k: int|
                0 <= k < MAX_UNISON ==> final(self).oscs@[k] == (Oscillator {
                    phase: 0,
                    ..old(self).oscs@[k]
                }),
    {
        let mut k: usize = 0;
        while k < MAX_UNISON
            invariant
                k <= MAX_UNISON,
                self.num_oscs == old(self).num_oscs,
                forall|j: int|
                    0 <= j < k ==> self.oscs@[j] == (Oscillator { phase: 0, ..old(self).oscs@[j] }),
                forall|j: int| k <= j < MAX_UNISON ==> self.oscs@[j] == old(self).oscs@[j],
            decreases MAX_UNISON - k,
        {
            let mut o = self.oscs[k];
            o.reset();
            self.oscs[k] = o;
            k = k + 1;
        }
    }
}

impl Default for WTOscVoice {
    /// The default voice is silent, with one inert lane engaged.
    fn default() -> (r: Self)
        ensures
            r.num_oscs == 1,
            forall|k: int| 0 <= k < MAX_UNISON ==> r.oscs@[k] == Oscillator::inert_spec(),
    {
        WTOscVoice::new()
    }
}

} // verus!
