//! A polyphonic, band-limited wavetable oscillator engine.
//!
//! The engine resamples precomputed, mipmapped wavetable frames with a
//! fixed-point phase accumulator, stacks detuned unison copies of each note,
//! and mixes voices packed into fixed-width clusters with smoothed
//! level/pan/stereo-width weights. All real-time state is held in plain,
//! lane-addressable records so that voices can be migrated between cluster
//! lanes without disturbing their siblings.
//!
//! All signal values are fixed-point integers: parameters use 16 fractional
//! bits, samples use 24 fractional bits, and oscillator phase is an unsigned
//! 32-bit accumulator that wraps at the table period.
use vstd::prelude::*;

pub mod cluster;
pub mod fixed;
pub mod oscillator;
pub mod smoother;
pub mod voice;
pub mod wavetable;

verus! {

/// Base-2 logarithm of the table length; also the number of octaves of
/// frequency content a full-bandwidth frame can hold.
pub const NUM_OCTAVES: usize = 11;

/// Number of samples in each band-limited table.
pub const TABLE_SIZE: usize = 2048;

/// Number of band-limited variants kept per frame.
pub const NUM_MIPMAPS: usize = 12;

/// Number of low bits of the phase accumulator that form the
/// interpolation fraction; the top `NUM_OCTAVES` bits index the table.
pub const FRACT_BITS: u32 = 21;

/// Largest number of detuned unison copies of one note.
pub const MAX_UNISON: usize = 16;

/// Number of independent stereo voice lanes packed into one cluster.
pub const STEREO_VOICES_PER_VECTOR: usize = 4;

/// One in the 16-fractional-bit fixed-point parameter format.
pub const ONE_Q16: i64 = 65536;

/// One in the 24-fractional-bit fixed-point sample format.
pub const SAMPLE_ONE_Q24: i64 = 16777216;

} // verus!

use crate::cluster::{
    note_log_pd_spec, param_set_spec, param_smoothed_spec, params_smoothed_rel, process_step_rel,
    sample_weights_spec, voice_activated_rel, voice_instant_rel, voice_params_spec,
    voice_scaled_rel, weights_snapped_spec, LaneParams, WTOscVoiceCluster,
};
use crate::fixed::{floor_log2, lemma_floor_log2_upper, log2_q16, LOG_PD_MAX};
use crate::oscillator::{Oscillator, StereoOut};
use crate::voice::WTOscVoice;
use crate::wavetable::{BandLimitedWaveTables, MAX_FRAMES};

verus! {

/// A block of `n` processed samples as one relation: starting from
/// `before`, each sample is one cluster process step whose four lane
/// outputs fill the next four slots of `out`.
pub open spec fn block_steps_rel(
    before: WTOscVoiceCluster,
    after: WTOscVoiceCluster,
    out: Seq<StereoOut>,
    table: BandLimitedWaveTables,
    mask: [bool; STEREO_VOICES_PER_VECTOR],
    n: nat,
) -> bool
    decreases n,
{
    if n == 0 {
        after == before && out.len() == 0
    } else {
        exists|mid: WTOscVoiceCluster|
            #[trigger] process_step_rel(
                before,
                mid,
                out.subrange(0, STEREO_VOICES_PER_VECTOR as int),
                table,
                mask,
            ) && block_steps_rel(
                mid,
                after,
                out.subrange(STEREO_VOICES_PER_VECTOR as int, out.len() as int),
                table,
                mask,
                (n - 1) as nat,
            )
    }
}

/// A block relation extends by one more processed sample at its end.
pub proof fn lemma_block_steps_snoc(
    a: WTOscVoiceCluster,
    b: WTOscVoiceCluster,
    c: WTOscVoiceCluster,
    o1: Seq<StereoOut>,
    o2: Seq<StereoOut>,
    table: BandLimitedWaveTables,
    mask: [bool; STEREO_VOICES_PER_VECTOR],
    n: nat,
)
    requires
        block_steps_rel(a, b, o1, table, mask, n),
        process_step_rel(b, c, o2, table, mask),
        o1.len() == n * STEREO_VOICES_PER_VECTOR,
    ensures
        block_steps_rel(a, c, o1 + o2, table, mask, n + 1),
    decreases n,
{
    let svpv = STEREO_VOICES_PER_VECTOR as int;
    if n == 0 {
        assert((o1 + o2).subrange(0, svpv) =~= o2);
        assert((o1 + o2).subrange(svpv, (o1 + o2).len() as int) =~= Seq::<StereoOut>::empty());
        assert(process_step_rel(a, c, (o1 + o2).subrange(0, svpv), table, mask));
        assert(block_steps_rel(
            c,
            c,
            (o1 + o2).subrange(svpv, (o1 + o2).len() as int),
            table,
            mask,
            0,
        ));
    } else {
        let mid = choose|mid: WTOscVoiceCluster|
            #[trigger] process_step_rel(a, mid, o1.subrange(0, svpv), table, mask)
                && block_steps_rel(
                mid,
                b,
                o1.subrange(svpv, o1.len() as int),
                table,
                mask,
                (n - 1) as nat,
            );
        assert(o1.subrange(svpv, o1.len() as int).len() == (n - 1) * svpv) by (nonlinear_arith)
            requires
                o1.len() == n * svpv,
                n >= 1,
                svpv == 4,
        ;
        lemma_block_steps_snoc(
            mid,
            b,
            c,
            o1.subrange(svpv, o1.len() as int),
            o2,
            table,
            mask,
            (n - 1) as nat,
        );
        assert((o1 + o2).subrange(0, svpv) =~= o1.subrange(0, svpv));
        assert((o1 + o2).subrange(svpv, (o1 + o2).len() as int) =~= o1.subrange(
            svpv,
            o1.len() as int,
        ) + o2);
        assert(process_step_rel(a, mid, (o1 + o2).subrange(0, svpv), table, mask));
    }
}

/// The lane parameter record after a complete snapshot write: the nine
/// parameter ids applied in order, each snapping its smoother.
pub open spec fn all_params_set_spec(lane: LaneParams, values: [i64; 9], k: int) -> LaneParams
    decreases k,
{
    if k <= 0 {
        lane
    } else {
        param_set_spec(all_params_set_spec(lane, values, k - 1), k as u64, values@[k - 1])
    }
}

/// Errors the engine reports at its call boundary.
#[derive(Clone, Copy, PartialEq, Eq, Structural, Debug)]
pub enum WTOscError {
    /// A voice-stealing move named a lane beyond the cluster's width.
    LaneOutOfRange,
}

/// The band-limited wavetable oscillator engine: the shared read-only
/// bank, the per-copy starting phases, and a fixed pool of voice
/// clusters sized to the maximum polyphony.
pub struct WTOsc {
    /// The mipmapped wavetable bank all voices read.
    pub table: BandLimitedWaveTables,
    /// Starting phase of each unison copy, in phase-accumulator units.
    pub starting_phases: [u32; MAX_UNISON],
    /// Sample rate in hertz.
    pub sr: u32,
    /// Log-domain phase increment of concert A at the current sample
    /// rate; note activation offsets from it by whole semitones.
    pub log_pd_base: i64,
    /// The fixed cluster pool.
    pub clusters: Vec<WTOscVoiceCluster>,
}

impl WTOsc {
    /// The engine invariant: a non-empty bank and well-formed clusters.
    pub open spec fn wf(self) -> bool {
        &&& self.table.wf()
        &&& 1 <= self.table.num_frames <= MAX_FRAMES
        &&& 0 <= self.log_pd_base <= LOG_PD_MAX
        &&& 1 <= self.sr
        &&& forall|c: int|
            0 <= c < self.clusters@.len() ==> (#[trigger] self.clusters@[c]).wf(
                self.table.num_frames as int,
            )
    }

    /// An engine with one silent frame, no clusters, and a nominal
    /// sample rate; `initialize` sizes the pool.
    pub fn new() -> (r: WTOsc)
        ensures
            r.wf(),
            r.clusters@.len() == 0,
            r.table.num_frames == 1,
    {
        proof {
            vstd::arithmetic::power2::lemma2_to64();
        }
        WTOsc {
            table: BandLimitedWaveTables::with_frame_count(1),
            starting_phases: [0; MAX_UNISON],
            sr: 44100,
            log_pd_base: 1048576,
            clusters: Vec::new(),
        }
    }

    /// Allocate the fixed cluster pool and derive the log-domain phase
    /// increment of concert A for the given sample rate.
    pub fn initialize(&mut self, sr: u32, _max_buffer_size: usize, max_num_clusters: usize)
        requires
            old(self).wf(),
            1 <= sr,
        ensures
            final(self).wf(),
            final(self).sr == sr,
            final(self).table == old(self).table,
            final(self).starting_phases == old(self).starting_phases,
            final(self).clusters@.len() == max_num_clusters,
            forall|c: int|
                0 <= c < max_num_clusters ==> (#[trigger] final(self).clusters@[c]).all_lanes_silent(),
            1889785610240int / (sr as int) <= 0x8000_0000 ==> 65536 * floor_log2(
                1889785610240int / (sr as int),
            ) <= final(self).log_pd_base <= 65536 * (floor_log2(1889785610240int / (sr as int))
                + 1),
    {
        self.sr = sr;
        let pd_a4: u64 = 1889785610240u64 / (sr as u64);
        proof {
            vstd::arithmetic::div_mod::lemma_div_non_zero(1889785610240, sr as int);
            if pd_a4 <= 0x8000_0000 {
                vstd::arithmetic::power2::lemma2_to64();
                lemma_floor_log2_upper(pd_a4 as int, 31);
            }
        }
        let lg: i64 = log2_q16(pd_a4);
        self.log_pd_base = if lg > LOG_PD_MAX {
            LOG_PD_MAX
        } else {
            lg
        };
        let mut clusters: Vec<WTOscVoiceCluster> = Vec::new();
        while clusters.len() < max_num_clusters
            invariant
                clusters@.len() <= max_num_clusters,
                forall|c: int|
                    0 <= c < clusters@.len() ==> (#[trigger] clusters@[c]).all_lanes_silent(),
                forall|c: int, nf: int|
                    0 <= c < clusters@.len() && 1 <= nf ==> #[trigger] clusters@[c].wf(nf),
            decreases max_num_clusters - clusters@.len(),
        {
            clusters.push(WTOscVoiceCluster::new());
        }
        self.clusters = clusters;
    }

    /// Snap a parameter to a normalized value on the lanes of one
    /// cluster that the voice mask selects; unknown parameter ids are
    /// benign no-ops.
    pub fn set_param(
        &mut self,
        cluster_idx: usize,
        voice_mask: &[bool; STEREO_VOICES_PER_VECTOR],
        param_id: u64,
        norm_val: i64,
    )
        requires
            old(self).wf(),
            cluster_idx < old(self).clusters@.len(),
            0 <= norm_val <= ONE_Q16,
        ensures
            final(self).wf(),
            final(self).table == old(self).table,
            final(self).sr == old(self).sr,
            final(self).starting_phases == old(self).starting_phases,
            final(self).clusters@.len() == old(self).clusters@.len(),
            forall|c: int|
                0 <= c < old(self).clusters@.len() && c != cluster_idx ==> final(self).clusters@[c] == old(self).clusters@[c],
            forall|l: int|
                0 <= l < STEREO_VOICES_PER_VECTOR ==> final(self).clusters@[cluster_idx as int].params.lanes@[l] == if voice_mask@[l] {
                    param_set_spec(
                        old(self).clusters@[cluster_idx as int].params.lanes@[l],
                        param_id,
                        norm_val,
                    )
                } else {
                    old(self).clusters@[cluster_idx as int].params.lanes@[l]
                },
            final(self).clusters@[cluster_idx as int].voices == old(self).clusters@[cluster_idx as int].voices,
            final(self).clusters@[cluster_idx as int].weights == old(self).clusters@[cluster_idx as int].weights,
    {
        let mut c = self.clusters[cluster_idx];
        c.params.set_param(param_id, norm_val, voice_mask);
        self.clusters[cluster_idx] = c;
    }

    /// Ramp a parameter toward a normalized value over a smoothing
    /// window on the lanes of one cluster that the voice mask selects.
    pub fn set_param_smoothed(
        &mut self,
        cluster_idx: usize,
        voice_mask: &[bool; STEREO_VOICES_PER_VECTOR],
        param_id: u64,
        norm_val: i64,
        smooth_samples: u32,
    )
        requires
            old(self).wf(),
            cluster_idx < old(self).clusters@.len(),
            0 <= norm_val <= ONE_Q16,
            1 <= smooth_samples,
        ensures
            final(self).wf(),
            final(self).table == old(self).table,
            final(self).sr == old(self).sr,
            final(self).starting_phases == old(self).starting_phases,
            final(self).clusters@.len() == old(self).clusters@.len(),
            forall|c: int|
                0 <= c < old(self).clusters@.len() && c != cluster_idx ==> final(self).clusters@[c] == old(self).clusters@[c],
            forall|l: int|
                0 <= l < STEREO_VOICES_PER_VECTOR ==> final(self).clusters@[cluster_idx as int].params.lanes@[l] == if voice_mask@[l] {
                    param_smoothed_spec(
                        old(self).clusters@[cluster_idx as int].params.lanes@[l],
                        param_id,
                        norm_val,
                        smooth_samples,
                    )
                } else {
                    old(self).clusters@[cluster_idx as int].params.lanes@[l]
                },
            final(self).clusters@[cluster_idx as int].voices == old(self).clusters@[cluster_idx as int].voices,
            final(self).clusters@[cluster_idx as int].weights == old(self).clusters@[cluster_idx as int].weights,
    {
        let mut c = self.clusters[cluster_idx];
        c.params.set_param_smoothed(param_id, norm_val, smooth_samples, voice_mask);
        self.clusters[cluster_idx] = c;
    }

    /// Start a note: land it on a lane of one cluster, waking the
    /// cluster's mix weights if it was silent. Reports whether the lane
    /// index was valid.
    pub fn activate_voice(&mut self, cluster_idx: usize, voice_idx: usize, note: u8) -> (r: bool)
        requires
            old(self).wf(),
            cluster_idx < old(self).clusters@.len(),
        ensures
            final(self).wf(),
            final(self).table == old(self).table,
            final(self).sr == old(self).sr,
            final(self).starting_phases == old(self).starting_phases,
            final(self).clusters@.len() == old(self).clusters@.len(),
            forall|c: int|
                0 <= c < old(self).clusters@.len() && c != cluster_idx ==> final(self).clusters@[c] == old(self).clusters@[c],
            r == (voice_idx < STEREO_VOICES_PER_VECTOR),
            !r ==> final(self).clusters@[cluster_idx as int] == old(self).clusters@[cluster_idx as int],
            r ==> final(self).clusters@[cluster_idx as int].params.lanes@ == old(self).clusters@[cluster_idx as int].params.lanes@.update(
                voice_idx as int,
                old(self).clusters@[cluster_idx as int].activated_lane_spec(
                    voice_idx as int,
                    old(self).log_pd_base,
                    note,
                ),
            ),
            r ==> voice_activated_rel(
                final(self).clusters@[cluster_idx as int].voices@[voice_idx as int],
                voice_params_spec(
                    old(self).clusters@[cluster_idx as int].activated_lane_spec(
                        voice_idx as int,
                        old(self).log_pd_base,
                        note,
                    ),
                    old(self).starting_phases,
                    old(self).table.num_frames,
                ),
            ),
            r ==> forall|l: int|
                0 <= l < STEREO_VOICES_PER_VECTOR && l != voice_idx ==> final(self).clusters@[cluster_idx as int].voices@[l] == old(self).clusters@[cluster_idx as int].voices@[l],
            r && old(self).clusters@[cluster_idx as int].all_lanes_silent() ==> forall|l: int|
                0 <= l < STEREO_VOICES_PER_VECTOR ==> final(self).clusters@[cluster_idx as int].weights@[l]
                    == weights_snapped_spec(
                    sample_weights_spec(final(self).clusters@[cluster_idx as int].params.lanes@[l]),
                ),
            r && !old(self).clusters@[cluster_idx as int].all_lanes_silent() ==> final(self).clusters@[cluster_idx as int].weights == old(self).clusters@[cluster_idx as int].weights,
    {
        let nf = self.table.num_frames();
        let base = self.log_pd_base;
        let mut c = self.clusters[cluster_idx];
        let r = c.activate_voice(voice_idx, &self.starting_phases, nf, note, base);
        self.clusters[cluster_idx] = c;
        r
    }

    /// Stop a note: clear a lane of one cluster. Clearing an empty or
    /// out-of-range lane is a benign no-op. Reports whether a voice was
    /// actually cleared.
    pub fn deactivate_voice(&mut self, cluster_idx: usize, voice_idx: usize) -> (r: bool)
        requires
            old(self).wf(),
            cluster_idx < old(self).clusters@.len(),
        ensures
            final(self).wf(),
            final(self).table == old(self).table,
            final(self).sr == old(self).sr,
            final(self).starting_phases == old(self).starting_phases,
            final(self).clusters@.len() == old(self).clusters@.len(),
            forall|c: int|
                0 <= c < old(self).clusters@.len() && c != cluster_idx ==> final(self).clusters@[c] == old(self).clusters@[c],
            r == (voice_idx < STEREO_VOICES_PER_VECTOR && old(self).clusters@[cluster_idx as int].voices@[voice_idx as int] is Some),
            voice_idx < STEREO_VOICES_PER_VECTOR ==> final(self).clusters@[cluster_idx as int].voices@[voice_idx as int] is None,
            forall|l: int|
                0 <= l < STEREO_VOICES_PER_VECTOR && l != voice_idx ==> final(self).clusters@[cluster_idx as int].voices@[l] == old(self).clusters@[cluster_idx as int].voices@[l],
            final(self).clusters@[cluster_idx as int].params == old(self).clusters@[cluster_idx as int].params,
            final(self).clusters@[cluster_idx as int].weights == old(self).clusters@[cluster_idx as int].weights,
    {
        let mut c = self.clusters[cluster_idx];
        let r = c.deactivate_voice(voice_idx);
        self.clusters[cluster_idx] = c;
        r
    }

    /// Reinitialize the phases of the selected lanes of one cluster,
    /// using each lane's own randomization amount on the configured
    /// starting phases.
    pub fn reset(&mut self, cluster_idx: usize, voice_mask: &[bool; STEREO_VOICES_PER_VECTOR])
        requires
            old(self).wf(),
            cluster_idx < old(self).clusters@.len(),
        ensures
            final(self).wf(),
            final(self).table == old(self).table,
            final(self).sr == old(self).sr,
            final(self).starting_phases == old(self).starting_phases,
            final(self).clusters@.len() == old(self).clusters@.len(),
            forall|c: int|
                0 <= c < old(self).clusters@.len() && c != cluster_idx ==> final(self).clusters@[c] == old(self).clusters@[c],
            final(self).clusters@[cluster_idx as int].params == old(self).clusters@[cluster_idx as int].params,
            final(self).clusters@[cluster_idx as int].weights == old(self).clusters@[cluster_idx as int].weights,
            forall|l: int|
                0 <= l < STEREO_VOICES_PER_VECTOR && !voice_mask@[l] ==> final(self).clusters@[cluster_idx as int].voices@[l] == old(self).clusters@[cluster_idx as int].voices@[l],
            forall|l: int|
                0 <= l < STEREO_VOICES_PER_VECTOR && voice_mask@[l] ==> lane_phases_reset_rel(
                    old(self).clusters@[cluster_idx as int].voices@[l],
                    final(self).clusters@[cluster_idx as int].voices@[l],
                    old(self).starting_phases,
                    old(self).clusters@[cluster_idx as int].params.lanes@[l].random.current,
                ),
    {
        let mut c = self.clusters[cluster_idx];
        let mut l: usize = 0;
        while l < STEREO_VOICES_PER_VECTOR
            invariant
                l <= STEREO_VOICES_PER_VECTOR,
                old(self).wf(),
                cluster_idx < old(self).clusters@.len(),
                c.params == old(self).clusters@[cluster_idx as int].params,
                c.weights == old(self).clusters@[cluster_idx as int].weights,
                forall|j: int|
                    0 <= j < l && !voice_mask@[j] ==> c.voices@[j] == old(self).clusters@[cluster_idx as int].voices@[j],
                forall|j: int|
                    0 <= j < l && voice_mask@[j] ==> lane_phases_reset_rel(
                        old(self).clusters@[cluster_idx as int].voices@[j],
                        c.voices@[j],
                        old(self).starting_phases,
                        old(self).clusters@[cluster_idx as int].params.lanes@[j].random.current,
                    ),
                forall|j: int|
                    l <= j < STEREO_VOICES_PER_VECTOR ==> c.voices@[j] == old(self).clusters@[cluster_idx as int].voices@[j],
                forall|j: int|
                    0 <= j < STEREO_VOICES_PER_VECTOR ==> match #[trigger] c.voices@[j] {
                        Some(v) => v.wf(old(self).table.num_frames as int),
                        None => true,
                    },
            decreases STEREO_VOICES_PER_VECTOR - l,
        {
            if voice_mask[l] {
                match c.voices[l] {
                    Some(mut v) => {
                        v.reset_phases(&self.starting_phases, c.params.lanes[l].random.current);
                        c.voices[l] = Some(v);
                    },
                    None => {},
                }
            }
            l = l + 1;
        }
        self.clusters[cluster_idx] = c;
    }

    /// Voice stealing: relocate the full state of one lane — parameter
    /// ramps, mix-weight ramps, base phase increment, unison count and
    /// the voice's whole oscillator bank — onto a lane of another (or
    /// the same) cluster, so the note continues without a phase
    /// discontinuity. Every other lane of every cluster is untouched.
    /// A lane index beyond the cluster width is reported as an error
    /// and nothing changes.
    pub fn move_state(&mut self, from: (usize, usize), to: (usize, usize)) -> (r: Result<
        (),
        WTOscError,
    >)
        requires
            old(self).wf(),
            from.0 < old(self).clusters@.len(),
            to.0 < old(self).clusters@.len(),
        ensures
            final(self).wf(),
            final(self).table == old(self).table,
            final(self).sr == old(self).sr,
            final(self).starting_phases == old(self).starting_phases,
            final(self).clusters@.len() == old(self).clusters@.len(),
            r is Ok <==> (from.1 < STEREO_VOICES_PER_VECTOR && to.1 < STEREO_VOICES_PER_VECTOR),
            r is Err ==> r == Result::<(), WTOscError>::Err(WTOscError::LaneOutOfRange)
                && *final(self) == *old(self),
            r is Ok ==> final(self).clusters@[to.0 as int].lane_state_spec(to.1 as int) == old(self).clusters@[from.0 as int].lane_state_spec(from.1 as int),
            r is Ok ==> forall|c: int, l: int|
                0 <= c < old(self).clusters@.len() && 0 <= l < STEREO_VOICES_PER_VECTOR && !(c
                    == to.0 && l == to.1) ==> #[trigger] final(self).clusters@[c].lane_state_spec(l)
                    == old(self).clusters@[c].lane_state_spec(l),
    {
        if from.1 >= STEREO_VOICES_PER_VECTOR || to.1 >= STEREO_VOICES_PER_VECTOR {
            return Err(WTOscError::LaneOutOfRange);
        }
        let source = self.clusters[from.0];
        let st = source.read_lane(from.1);
        let mut target = self.clusters[to.0];
        target.write_lane(to.1, st);
        self.clusters[to.0] = target;
        Ok(())
    }

    /// Render one block for one cluster: advance the cluster's
    /// parameter ramps over the block, then produce the block's samples
    /// one by one, writing each sample's four weighted lane pairs into
    /// the buffer in lane-interleaved order. Lanes outside the voice
    /// mask neither advance nor sound.
    pub fn process(
        &mut self,
        output: &mut Vec<StereoOut>,
        cluster_idx: usize,
        voice_mask: &[bool; STEREO_VOICES_PER_VECTOR],
    )
        requires
            old(self).wf(),
            cluster_idx < old(self).clusters@.len(),
            (old(output)@.len() as int) % (STEREO_VOICES_PER_VECTOR as int) == 0,
            STEREO_VOICES_PER_VECTOR <= old(output)@.len() <= 0x4000_0000,
        ensures
            final(self).wf(),
            final(self).table == old(self).table,
            final(self).sr == old(self).sr,
            final(self).starting_phases == old(self).starting_phases,
            final(self).clusters@.len() == old(self).clusters@.len(),
            forall|c: int|
                0 <= c < old(self).clusters@.len() && c != cluster_idx ==> final(self).clusters@[c]
                    == old(self).clusters@[c],
            final(output)@.len() == old(output)@.len(),
            exists|mid: WTOscVoiceCluster|
                #[trigger] params_smoothed_rel(
                    old(self).clusters@[cluster_idx as int],
                    mid,
                    old(self).starting_phases,
                    old(self).table.num_frames,
                    ((old(output)@.len() as int) / (STEREO_VOICES_PER_VECTOR as int)) as u32,
                    *voice_mask,
                ) && block_steps_rel(
                    mid,
                    final(self).clusters@[cluster_idx as int],
                    final(output)@,
                    old(self).table,
                    *voice_mask,
                    ((old(output)@.len() as int) / (STEREO_VOICES_PER_VECTOR as int)) as nat,
                ),
    {
        let block_len: usize = output.len() / STEREO_VOICES_PER_VECTOR;
        let nf = self.table.num_frames();
        let mut c = self.clusters[cluster_idx];
        c.set_params_smoothed(&self.starting_phases, nf, block_len as u32, voice_mask);
        let ghost mid = c;
        let mut s: usize = 0;
        while s < block_len
            invariant
                s <= block_len,
                block_len == (old(output)@.len() as int) / (STEREO_VOICES_PER_VECTOR as int),
                (old(output)@.len() as int) % (STEREO_VOICES_PER_VECTOR as int) == 0,
                STEREO_VOICES_PER_VECTOR <= old(output)@.len() <= 0x4000_0000,
                output@.len() == old(output)@.len(),
                self.table == old(self).table,
                self.table.wf(),
                1 <= self.table.num_frames,
                nf == self.table.num_frames,
                c.wf(self.table.num_frames as int),
                block_steps_rel(
                    mid,
                    c,
                    output@.subrange(0, s * STEREO_VOICES_PER_VECTOR),
                    old(self).table,
                    *voice_mask,
                    s as nat,
                ),
            decreases block_len - s,
        {
            let ghost c_before = c;
            let ghost out_before = output@;
            let ghost total = old(output)@.len() as int;
            let outs = c.process(&self.table, voice_mask);
            proof {
                assert((s + 1) * (STEREO_VOICES_PER_VECTOR as int) == s * (
                STEREO_VOICES_PER_VECTOR as int) + STEREO_VOICES_PER_VECTOR) by (nonlinear_arith);
                assert(s * (STEREO_VOICES_PER_VECTOR as int) + STEREO_VOICES_PER_VECTOR
                    <= total) by (nonlinear_arith)
                    requires
                        s < block_len,
                        block_len == total / (STEREO_VOICES_PER_VECTOR as int),
                        total % (STEREO_VOICES_PER_VECTOR as int) == 0,
                ;
            }
            let base: usize = s * STEREO_VOICES_PER_VECTOR;
            output[base] = outs[0];
            output[base + 1] = outs[1];
            output[base + 2] = outs[2];
            output[base + 3] = outs[3];
            proof {
                let svpv = STEREO_VOICES_PER_VECTOR as int;
                assert(output@.subrange(0, base as int) =~= out_before.subrange(0, base as int));
                assert(output@.subrange(base as int, base + svpv) =~= outs@);
                assert(output@.subrange(0, base + svpv) =~= output@.subrange(0, base as int)
                    + output@.subrange(base as int, base + svpv));
                assert(s * svpv == base);
                lemma_block_steps_snoc(
                    mid,
                    c_before,
                    c,
                    output@.subrange(0, base as int),
                    outs@,
                    old(self).table,
                    *voice_mask,
                    s as nat,
                );
            }
            s = s + 1;
        }
        proof {
            let total = old(output)@.len() as int;
            assert(block_len * (STEREO_VOICES_PER_VECTOR as int) == total) by (nonlinear_arith)
                requires
                    block_len == total / (STEREO_VOICES_PER_VECTOR as int),
                    total % (STEREO_VOICES_PER_VECTOR as int) == 0,
            ;
            assert(output@.subrange(0, block_len * STEREO_VOICES_PER_VECTOR) =~= output@);
        }
        self.clusters[cluster_idx] = c;
    }

    /// Re-pitch the selected lanes to a new note without restarting
    /// their voices: only the lanes' base phase increments change, and
    /// the sounding oscillators glide there at the next parameter
    /// update.
    pub fn set_voice_note(
        &mut self,
        cluster_idx: usize,
        voice_mask: &[bool; STEREO_VOICES_PER_VECTOR],
        note: u8,
    )
        requires
            old(self).wf(),
            cluster_idx < old(self).clusters@.len(),
        ensures
            final(self).wf(),
            final(self).table == old(self).table,
            final(self).sr == old(self).sr,
            final(self).starting_phases == old(self).starting_phases,
            final(self).clusters@.len() == old(self).clusters@.len(),
            forall|c: int|
                0 <= c < old(self).clusters@.len() && c != cluster_idx ==> final(self).clusters@[c]
                    == old(self).clusters@[c],
            final(self).clusters@[cluster_idx as int].voices == old(self).clusters@[cluster_idx as int].voices,
            final(self).clusters@[cluster_idx as int].weights == old(self).clusters@[cluster_idx as int].weights,
            forall|l: int|
                0 <= l < STEREO_VOICES_PER_VECTOR ==> final(self).clusters@[cluster_idx as int].params.lanes@[l] == if voice_mask@[l] {
                    LaneParams {
                        phase_delta: note_log_pd_spec(old(self).log_pd_base, note) as i64,
                        ..old(self).clusters@[cluster_idx as int].params.lanes@[l]
                    }
                } else {
                    old(self).clusters@[cluster_idx as int].params.lanes@[l]
                },
    {
        let note_offset: i64 = crate::oscillator::div_floor(((note as i64) - 69) * 65536, 12);
        let unclamped: i64 = self.log_pd_base + note_offset;
        let log_pd: i64 = if unclamped < 0 {
            0
        } else if unclamped > LOG_PD_MAX {
            LOG_PD_MAX
        } else {
            unclamped
        };
        let mut c = self.clusters[cluster_idx];
        let mut l: usize = 0;
        while l < STEREO_VOICES_PER_VECTOR
            invariant
                l <= STEREO_VOICES_PER_VECTOR,
                old(self).wf(),
                cluster_idx < old(self).clusters@.len(),
                log_pd == note_log_pd_spec(old(self).log_pd_base, note),
                0 <= log_pd <= LOG_PD_MAX,
                c.voices == old(self).clusters@[cluster_idx as int].voices,
                c.weights == old(self).clusters@[cluster_idx as int].weights,
                forall|j: int|
                    0 <= j < l ==> c.params.lanes@[j] == if voice_mask@[j] {
                        LaneParams {
                            phase_delta: log_pd,
                            ..old(self).clusters@[cluster_idx as int].params.lanes@[j]
                        }
                    } else {
                        old(self).clusters@[cluster_idx as int].params.lanes@[j]
                    },
                forall|j: int|
                    l <= j < STEREO_VOICES_PER_VECTOR ==> c.params.lanes@[j] == old(self).clusters@[cluster_idx as int].params.lanes@[j],
            decreases STEREO_VOICES_PER_VECTOR - l,
        {
            if voice_mask[l] {
                let mut lane = c.params.lanes[l];
                lane.phase_delta = log_pd;
                c.params.lanes[l] = lane;
            }
            l = l + 1;
        }
        self.clusters[cluster_idx] = c;
    }

    /// Push a complete parameter snapshot onto the selected lanes of
    /// one cluster: all nine parameters snap to the given normalized
    /// values in id order, and the lanes' voices snap onto the
    /// resulting targets with no glide.
    pub fn set_all_params(
        &mut self,
        cluster_idx: usize,
        voice_mask: &[bool; STEREO_VOICES_PER_VECTOR],
        values: &[i64; 9],
    )
        requires
            old(self).wf(),
            cluster_idx < old(self).clusters@.len(),
            forall|k: int| 0 <= k < 9 ==> 0 <= #[trigger] values@[k] <= ONE_Q16,
        ensures
            final(self).wf(),
            final(self).table == old(self).table,
            final(self).sr == old(self).sr,
            final(self).starting_phases == old(self).starting_phases,
            final(self).clusters@.len() == old(self).clusters@.len(),
            forall|c: int|
                0 <= c < old(self).clusters@.len() && c != cluster_idx ==> final(self).clusters@[c]
                    == old(self).clusters@[c],
            forall|l: int|
                0 <= l < STEREO_VOICES_PER_VECTOR ==> final(self).clusters@[cluster_idx as int].params.lanes@[l] == if voice_mask@[l] {
                    all_params_set_spec(
                        old(self).clusters@[cluster_idx as int].params.lanes@[l],
                        *values,
                        9,
                    )
                } else {
                    old(self).clusters@[cluster_idx as int].params.lanes@[l]
                },
            final(self).clusters@[cluster_idx as int].weights == old(self).clusters@[cluster_idx as int].weights,
            forall|l: int|
                0 <= l < STEREO_VOICES_PER_VECTOR ==> voice_instant_rel(
                    old(self).clusters@[cluster_idx as int].voices@[l],
                    final(self).clusters@[cluster_idx as int].voices@[l],
                    voice_params_spec(
                        final(self).clusters@[cluster_idx as int].params.lanes@[l],
                        old(self).starting_phases,
                        old(self).table.num_frames,
                    ),
                    voice_mask@[l],
                ),
    {
        let nf = self.table.num_frames();
        let mut c = self.clusters[cluster_idx];
        let mut id: u64 = 1;
        while id <= 9
            invariant
                1 <= id <= 10,
                old(self).wf(),
                cluster_idx < old(self).clusters@.len(),
                forall|k: int| 0 <= k < 9 ==> 0 <= #[trigger] values@[k] <= ONE_Q16,
                c.params.wf(),
                c.voices == old(self).clusters@[cluster_idx as int].voices,
                c.weights == old(self).clusters@[cluster_idx as int].weights,
                forall|j: int|
                    0 <= j < STEREO_VOICES_PER_VECTOR ==> c.params.lanes@[j] == if voice_mask@[j] {
                        all_params_set_spec(
                            old(self).clusters@[cluster_idx as int].params.lanes@[j],
                            *values,
                            id - 1,
                        )
                    } else {
                        old(self).clusters@[cluster_idx as int].params.lanes@[j]
                    },
            decreases 10 - id,
        {
            c.params.set_param(id, values[(id - 1) as usize], voice_mask);
            id = id + 1;
        }
        c.set_params(&self.starting_phases, nf, voice_mask);
        self.clusters[cluster_idx] = c;
    }

    /// Adopt a new set of per-copy starting phases.
    pub fn set_starting_phases(&mut self, phases: &[u32; MAX_UNISON])
        ensures
            *final(self) == (WTOsc { starting_phases: *phases, ..*old(self) }),
    {
        self.starting_phases = *phases;
    }

    /// Swap in a newly built bank, handing the previous one back to the
    /// caller for out-of-band disposal; every sounding voice's frame
    /// position is rescaled onto the new bank's frame count.
    pub fn replace_wave_table(&mut self, new_table: BandLimitedWaveTables) -> (r:
        BandLimitedWaveTables)
        requires
            old(self).wf(),
            new_table.wf(),
            1 <= new_table.num_frames <= MAX_FRAMES,
        ensures
            final(self).wf(),
            r == old(self).table,
            final(self).table == new_table,
            final(self).sr == old(self).sr,
            final(self).starting_phases == old(self).starting_phases,
            final(self).clusters@.len() == old(self).clusters@.len(),
            forall|c: int|
                0 <= c < old(self).clusters@.len() ==> (#[trigger] final(self).clusters@[c]).params
                    == old(self).clusters@[c].params,
            forall|c: int, l: int|
                0 <= c < old(self).clusters@.len() && 0 <= l < STEREO_VOICES_PER_VECTOR
                    ==> #[trigger] voice_scaled_rel(
                    old(self).clusters@[c].voices@[l],
                    final(self).clusters@[c].voices@[l],
                    new_table.num_frames as int,
                    old(self).table.num_frames as int,
                ),
    {
        let new_nf = new_table.num_frames();
        let old_nf = self.table.num_frames();
        let mut i: usize = 0;
        while i < self.clusters.len()
            invariant
                old(self).wf(),
                i <= self.clusters@.len(),
                self.table == old(self).table,
                self.sr == old(self).sr,
                self.starting_phases == old(self).starting_phases,
                self.log_pd_base == old(self).log_pd_base,
                self.clusters@.len() == old(self).clusters@.len(),
                new_nf == new_table.num_frames,
                old_nf == old(self).table.num_frames,
                1 <= new_nf <= MAX_FRAMES,
                1 <= old_nf <= MAX_FRAMES,
                forall|c: int|
                    0 <= c < i ==> (#[trigger] self.clusters@[c]).wf(new_nf as int),
                forall|c: int|
                    0 <= c < i ==> (#[trigger] self.clusters@[c]).params == old(self).clusters@[c].params,
                forall|c: int, l: int|
                    0 <= c < i && 0 <= l < STEREO_VOICES_PER_VECTOR ==> #[trigger] voice_scaled_rel(
                        old(self).clusters@[c].voices@[l],
                        self.clusters@[c].voices@[l],
                        new_nf as int,
                        old_nf as int,
                    ),
                forall|c: int|
                    i <= c < self.clusters@.len() ==> self.clusters@[c] == old(self).clusters@[c],
            decreases self.clusters@.len() - i,
        {
            let mut c = self.clusters[i];
            c.scale_frames(new_nf, old_nf);
            self.clusters[i] = c;
            i = i + 1;
        }
        let mut incoming = new_table;
        core::mem::swap(&mut self.table, &mut incoming);
        incoming
    }
}

/// How a lane's voice slot changes under a phase reset: every
/// accumulator restarts at its configured starting phase scaled by the
/// lane's randomization amount.
pub open spec fn lane_phases_reset_rel(
    before: Option<WTOscVoice>,
    after: Option<WTOscVoice>,
    sp: [u32; MAX_UNISON],
    random: i64,
) -> bool {
    match before {
        None => after == before,
        Some(v) => match after {
            Some(v2) => {
                &&& v2.num_oscs == v.num_oscs
                &&& forall|k: int|
                    0 <= k < MAX_UNISON ==> v2.oscs@[k] == (Oscillator {
                        phase: (sp@[k] as int * random / 65536) as u32,
                        ..v.oscs@[k]
                    })
            },
            None => false,
        },
    }
}

} // verus!
