//! Mipmapped, band-limited wavetable storage and phase-accurate lookup.
//!
//! A bank holds a sequence of frames; each frame holds `NUM_MIPMAPS`
//! band-limited variants of one waveform, each `TABLE_SIZE` samples long,
//! laid out flat and coarsest-first. Lookup selects the variant whose
//! remaining partials cannot alias at the caller's phase increment, then
//! linearly interpolates between two neighbouring samples. Phase is an
//! unsigned 32-bit fixed-point value: the top `NUM_OCTAVES` bits index
//! the table (wrapping at its period), the remaining `FRACT_BITS` bits
//! are the interpolation fraction.
//!
//! Band-limited content itself is produced off the real-time path (the
//! variants of a frame are filled in by a non-real-time builder); this
//! module owns the layout, the length rules, and the lookup arithmetic.
use crate::fixed::{floor_log2, lemma_floor_log2_bounds, lemma_floor_log2_monotone,
    lemma_floor_log2_upper};
use crate::{FRACT_BITS, NUM_MIPMAPS, NUM_OCTAVES, TABLE_SIZE};
use vstd::arithmetic::div_mod::{
    lemma_fundamental_div_mod, lemma_fundamental_div_mod_converse, lemma_mod_bound,
};
use vstd::arithmetic::mul::{lemma_mul_inequality, lemma_mul_left_inequality};
use vstd::arithmetic::power2::{
    lemma2_to64, lemma2_to64_rest, lemma_pow2_adds, lemma_pow2_pos, pow2,
};
use vstd::prelude::*;

verus! {

/// Most frames a bank may hold; keeps every flat index inside `usize`.
pub const MAX_FRAMES: usize = 65536;

/// One in the interpolation-fraction format: `2^FRACT_BITS`.
pub const FRACT_ONE: u32 = 0x20_0000;

/// The mipmap variant used for a phase increment: the count of leading
/// zero bits of the increment, capped at `NUM_OCTAVES`. Higher increments
/// (higher pitches) select lower levels, which keep fewer partials.
pub open spec fn mipmap_level_spec(pd: u32) -> int {
    if pd < FRACT_ONE {
        NUM_OCTAVES as int
    } else {
        31 - floor_log2(pd as int)
    }
}

/// Number of partials a variant at `level` may contain. Level
/// `NUM_OCTAVES` is the full-bandwidth waveform.
pub open spec fn max_partials_spec(level: int) -> int
    recommends
        0 <= level,
{
    pow2(level as nat) as int
}

/// Flat offset of the table for `frame` at mipmap `level`.
pub open spec fn table_base_spec(frame: int, level: int) -> int {
    (level + frame * NUM_MIPMAPS) * TABLE_SIZE
}

/// Linear interpolation between `a` and `b` by a fraction in
/// `[0, FRACT_ONE)`, rounding toward negative infinity.
pub open spec fn lerp_spec(a: int, b: int, fract: int) -> int {
    a + (b - a) * fract / (FRACT_ONE as int)
}

/// The mipmapped sample data of every frame, immutable on the audio
/// thread and shared read-only by all voices.
pub struct BandLimitedWaveTables {
    /// Flat sample storage: frame-major, then level, then sample index.
    pub data: Vec<i32>,
    /// Number of wavetable frames in the bank.
    pub num_frames: usize,
}

impl BandLimitedWaveTables {
    /// The layout invariant: flat storage of exactly
    /// `num_frames * NUM_MIPMAPS * TABLE_SIZE` samples.
    pub open spec fn wf(&self) -> bool {
        &&& self.num_frames <= MAX_FRAMES
        &&& self.data@.len() == self.num_frames * NUM_MIPMAPS * TABLE_SIZE
    }

    /// The sample stored for `frame`, at mipmap `level`, position `i`.
    pub open spec fn sample_at(&self, frame: int, level: int, i: int) -> int {
        self.data@[table_base_spec(frame, level) + i] as int
    }

    /// What a lookup returns: the phase's integer bits pick two
    /// neighbouring samples (wrapping at the table period), its
    /// fractional bits interpolate between them.
    pub open spec fn resample_spec(&self, pd: u32, frame: int, phase: u32) -> int {
        let level = mipmap_level_spec(pd);
        let ia = phase as int / (FRACT_ONE as int);
        let ib = (ia + 1) % (TABLE_SIZE as int);
        let fract = phase as int % (FRACT_ONE as int);
        lerp_spec(
            self.sample_at(frame, level, ia),
            self.sample_at(frame, level, ib),
            fract,
        )
    }

    /// A bank of `num_frames` silent frames, to be filled by a builder.
    pub fn with_frame_count(num_frames: usize) -> (r: Self)
        requires
            num_frames <= MAX_FRAMES,
        ensures
            r.wf(),
            r.num_frames == num_frames,
            forall|j: int| 0 <= j < r.data@.len() ==> r.data@[j] == 0,
    {
        proof {
            lemma_mul_inequality(num_frames as int, MAX_FRAMES as int, (NUM_MIPMAPS * TABLE_SIZE) as int);
        }
        let total: usize = num_frames * (NUM_MIPMAPS * TABLE_SIZE);
        let mut data: Vec<i32> = Vec::new();
        while data.len() < total
            invariant
                data@.len() <= total,
                forall|j: int| 0 <= j < data@.len() ==> data@[j] == 0,
            decreases total - data@.len(),
        {
            data.push(0);
        }
        proof {
            vstd::arithmetic::mul::lemma_mul_is_associative(
                num_frames as int,
                NUM_MIPMAPS as int,
                TABLE_SIZE as int,
            );
        }
        BandLimitedWaveTables { data, num_frames }
    }

    /// Number of frames in the bank.
    pub fn num_frames(&self) -> (r: usize)
        ensures
            r == self.num_frames,
    {
        self.num_frames
    }

    /// Read-only view of the flat sample storage.
    pub fn as_slice(&self) -> (r: &Vec<i32>)
        ensures
            r@ == self.data@,
    {
        &self.data
    }

    /// Replace the table of `frame` at mipmap `level` with `samples`,
    /// leaving every other table untouched.
    pub fn set_table(&mut self, frame: usize, level: usize, samples: &Vec<i32>)
        requires
            old(self).wf(),
            frame < old(self).num_frames,
            level < NUM_MIPMAPS,
            samples@.len() == TABLE_SIZE,
        ensures
            final(self).wf(),
            final(self).num_frames == old(self).num_frames,
            forall|i: int|
                0 <= i < TABLE_SIZE ==> final(self).sample_at(frame as int, level as int, i)
                    == samples@[i],
            forall|j: int|
                0 <= j < old(self).data@.len() && !(table_base_spec(frame as int, level as int)
                    <= j < table_base_spec(frame as int, level as int) + TABLE_SIZE)
                    ==> final(self).data@[j] == old(self).data@[j],
    {
        proof {
            lemma_table_base_bounds(frame as int, level as int, self.num_frames as int);
        }
        let base: usize = (level + frame * NUM_MIPMAPS) * TABLE_SIZE;
        let mut i: usize = 0;
        while i < TABLE_SIZE
            invariant
                i <= TABLE_SIZE,
                self.num_frames == old(self).num_frames,
                self.data@.len() == old(self).data@.len(),
                old(self).wf(),
                samples@.len() == TABLE_SIZE,
                base == table_base_spec(frame as int, level as int),
                base + TABLE_SIZE <= self.data@.len(),
                forall|k: int| 0 <= k < i ==> self.data@[base + k] == samples@[k],
                forall|j: int|
                    0 <= j < self.data@.len() && !(base <= j < base + i) ==> self.data@[j]
                        == old(self).data@[j],
            decreases TABLE_SIZE - i,
        {
            self.data[base + i] = samples[i];
            i = i + 1;
        }
    }

    /// Look a sample up for one lane: select the band-limited variant for
    /// `phase_delta`, gather the two neighbouring samples at `phase`, and
    /// interpolate.
    pub fn resample(&self, phase_delta: u32, frame: u32, phase: u32) -> (r: i32)
        requires
            self.wf(),
            (frame as int) < self.num_frames,
        ensures
            r as int == self.resample_spec(phase_delta, frame as int, phase),
    {
        let level: usize = mipmap_level(phase_delta);
        proof {
            lemma_table_base_bounds(frame as int, level as int, self.num_frames as int);
        }
        let base: usize = (level + (frame as usize) * NUM_MIPMAPS) * TABLE_SIZE;
        let ia: usize = (phase / FRACT_ONE) as usize;
        let ib: usize = (ia + 1) % TABLE_SIZE;
        let fract: u32 = phase % FRACT_ONE;
        let a: i32 = self.data[base + ia];
        let b: i32 = self.data[base + ib];
        let adj: i64 = mul_fract_floor((b as i64) - (a as i64), fract);
        ((a as i64) + adj) as i32
    }

    /// The masked variant of `resample`: lanes whose active flag is off
    /// contribute silence instead of reading the tables.
    pub fn resample_select(&self, phase_delta: u32, frame: u32, phase: u32, active: bool) -> (r:
        i32)
        requires
            self.wf(),
            (frame as int) < self.num_frames,
        ensures
            active ==> r as int == self.resample_spec(phase_delta, frame as int, phase),
            !active ==> r == 0,
    {
        if active {
            self.resample(phase_delta, frame, phase)
        } else {
            0
        }
    }
}

/// The table of `frame` at `level` lies inside a well-formed bank.
proof fn lemma_table_base_bounds(frame: int, level: int, num_frames: int)
    requires
        0 <= frame < num_frames,
        0 <= level < NUM_MIPMAPS,
    ensures
        0 <= table_base_spec(frame, level),
        table_base_spec(frame, level) + TABLE_SIZE <= num_frames * NUM_MIPMAPS * TABLE_SIZE,
{
    assert(0 <= (level + frame * 12) * 2048 && (level + frame * 12) * 2048 + 2048 <= num_frames
        * 12 * 2048) by (nonlinear_arith)
        requires
            0 <= frame < num_frames,
            0 <= level < 12,
    ;
}

/// Compute the mipmap level for a phase increment by scanning for its
/// highest set bit from the top, capped at `NUM_OCTAVES`.
pub fn mipmap_level(phase_delta: u32) -> (r: usize)
    ensures
        r == mipmap_level_spec(phase_delta),
        r <= NUM_OCTAVES,
{
    let mut level: usize = 0;
    let mut bound: u32 = 0x8000_0000;
    proof {
        lemma2_to64();
        lemma2_to64_rest();
    }
    while level < NUM_OCTAVES && phase_delta < bound
        invariant
            level <= NUM_OCTAVES,
            bound == pow2((31 - level) as nat),
            level > 0 ==> (phase_delta as int) < pow2((32 - level) as nat),
        decreases NUM_OCTAVES - level,
    {
        proof {
            lemma_pow2_adds((30 - level) as nat, 1);
            lemma2_to64();
            lemma_pow2_pos((30 - level) as nat);
        }
        bound = bound / 2;
        level = level + 1;
    }
    proof {
        if level < NUM_OCTAVES {
            // Exited because phase_delta >= bound == pow2(31 - level).
            lemma_pow2_pos((31 - level) as nat);
            lemma_floor_log2_bounds(phase_delta as int, (31 - level) as nat);
            assert(phase_delta >= FRACT_ONE) by {
                lemma2_to64_rest();
                if 31 - level > 21 {
                    vstd::arithmetic::power2::lemma_pow2_strictly_increases(
                        21,
                        (31 - level) as nat,
                    );
                }
            }
        } else {
            // level == NUM_OCTAVES: the increment fits below pow2(21).
            assert((phase_delta as int) < pow2(21)) by {
                lemma2_to64_rest();
            }
            assert(pow2(21) == FRACT_ONE as int) by {
                lemma2_to64_rest();
            }
        }
    }
    level
}

/// Multiply a bounded difference by an interpolation fraction and scale
/// back down, rounding toward negative infinity; the result never
/// exceeds the difference in magnitude.
fn mul_fract_floor(diff: i64, fract: u32) -> (r: i64)
    requires
        -0x1_0000_0000 <= diff <= 0x1_0000_0000,
        fract < FRACT_ONE,
    ensures
        r == diff * (fract as int) / (FRACT_ONE as int),
        diff >= 0 ==> 0 <= r <= diff,
        diff < 0 ==> diff <= r <= 0,
{
    let q: u64 = FRACT_ONE as u64;
    if diff >= 0 {
        proof {
            assert((diff as int) * (fract as int) <= (diff as int) * (FRACT_ONE as int)
                && (diff as int) * (fract as int) >= 0 && (diff as int) * (FRACT_ONE as int)
                <= 0x1_0000_0000 * 0x20_0000) by (nonlinear_arith)
                requires
                    0 <= diff <= 0x1_0000_0000,
                    0 <= fract < FRACT_ONE,
            ;
        }
        let p: u64 = (diff as u64) * (fract as u64);
        proof {
            assert((diff as int) * (FRACT_ONE as int) / (FRACT_ONE as int) == diff as int) by {
                vstd::arithmetic::div_mod::lemma_div_multiples_vanish(
                    diff as int,
                    FRACT_ONE as int,
                );
                vstd::arithmetic::mul::lemma_mul_is_commutative(diff as int, FRACT_ONE as int);
            }
            vstd::arithmetic::div_mod::lemma_div_is_ordered(
                (diff as int) * (fract as int),
                (diff as int) * (FRACT_ONE as int),
                FRACT_ONE as int,
            );
        }
        (p / q) as i64
    } else {
        let nd: u64 = (-diff) as u64;
        proof {
            assert((nd as int) * (fract as int) <= 0x1_0000_0000 * 0x20_0000 && (nd as int) * (
            fract as int) >= 0) by (nonlinear_arith)
                requires
                    0 <= nd <= 0x1_0000_0000,
                    0 <= fract < FRACT_ONE,
            ;
        }
        let p: u64 = nd * (fract as u64);
        let m: u64 = (p + q - 1) / q;
        proof {
            let pi = p as int;
            let qi = q as int;
            let mi = (pi + qi - 1) / qi;
            lemma_fundamental_div_mod(pi + qi - 1, qi);
            lemma_mod_bound(pi + qi - 1, qi);
            let r0 = (pi + qi - 1) % qi;
            // -p == q * (-m) + (q - 1 - r0) with the remainder in range,
            // so floor(-p / q) == -m.
            lemma_fundamental_div_mod_converse(-pi, qi, -mi, qi - 1 - r0);
            assert(diff * (fract as int) == -pi) by (nonlinear_arith)
                requires
                    diff < 0,
                    nd == -diff,
                    pi == (nd as int) * (fract as int),
            ;
            // Magnitude bound: p <= nd * FRACT_ONE, so m <= nd.
            assert(pi <= (nd as int) * qi - (nd as int)) by (nonlinear_arith)
                requires
                    pi == (nd as int) * (fract as int),
                    0 <= fract,
                    (fract as int) <= qi - 1,
                    nd >= 1,
            ;
            assert(mi <= nd as int) by {
                vstd::arithmetic::div_mod::lemma_div_is_ordered(
                    pi + qi - 1,
                    (nd as int) * qi + qi - 1,
                    qi,
                );
                lemma_fundamental_div_mod_converse(
                    (nd as int) * qi + qi - 1,
                    qi,
                    nd as int,
                    qi - 1,
                );
            }
        }
        -(m as i64)
    }
}

/// Resampling with a larger phase increment never selects a variant with
/// more high-frequency content: the chosen level, and with it the number
/// of partials the variant may keep, can only shrink as the increment
/// grows.
pub proof fn lemma_mipmap_selection_monotone(pd1: u32, pd2: u32)
    requires
        pd1 <= pd2,
    ensures
        mipmap_level_spec(pd2) <= mipmap_level_spec(pd1),
        max_partials_spec(mipmap_level_spec(pd2)) <= max_partials_spec(mipmap_level_spec(pd1)),
        0 <= mipmap_level_spec(pd2) <= NUM_OCTAVES,
        0 <= mipmap_level_spec(pd1) <= NUM_OCTAVES,
{
    lemma_level_range(pd1);
    lemma_level_range(pd2);
    if pd1 >= FRACT_ONE {
        lemma_floor_log2_monotone(pd1 as int, pd2 as int);
    }
    let l1 = mipmap_level_spec(pd1);
    let l2 = mipmap_level_spec(pd2);
    assert(l2 <= l1);
    if l2 < l1 {
        vstd::arithmetic::power2::lemma_pow2_strictly_increases(l2 as nat, l1 as nat);
    }
}

/// The selected level always lies between zero and `NUM_OCTAVES`.
proof fn lemma_level_range(pd: u32)
    ensures
        0 <= mipmap_level_spec(pd) <= NUM_OCTAVES,
{
    if pd >= FRACT_ONE {
        lemma2_to64();
        assert(pow2(21) == FRACT_ONE as int);
        lemma_floor_log2_monotone(FRACT_ONE as int, pd as int);
        lemma_floor_log2_bounds(FRACT_ONE as int, 21);
        assert((pd as int) < pow2(32)) by {
            lemma2_to64();
        }
        lemma_floor_log2_upper(pd as int, 31);
    }
}

/// Why a wavetable import is rejected.
#[derive(Clone, Copy, PartialEq, Eq, Structural, Debug)]
pub enum WaveTableError {
    /// The sample count is not an exact multiple of the table size.
    BadLength,
    /// The import holds more frames than a bank can carry.
    TooManyFrames,
}

/// The frame count of an imported waveform: its sample count must be
/// an exact multiple of `TABLE_SIZE`, and the frames must fit a bank;
/// anything else is a fatal load error, never silently truncated.
pub fn frame_count_for_samples(num_samples: usize) -> (r: Result<usize, WaveTableError>)
    ensures
        r == if (num_samples as int) % (TABLE_SIZE as int) != 0 {
            Result::<usize, WaveTableError>::Err(WaveTableError::BadLength)
        } else if (num_samples as int) / (TABLE_SIZE as int) > MAX_FRAMES {
            Result::<usize, WaveTableError>::Err(WaveTableError::TooManyFrames)
        } else {
            Result::<usize, WaveTableError>::Ok((num_samples / TABLE_SIZE) as usize)
        },
{
    if num_samples % TABLE_SIZE != 0 {
        Err(WaveTableError::BadLength)
    } else if num_samples / TABLE_SIZE > MAX_FRAMES {
        Err(WaveTableError::TooManyFrames)
    } else {
        Ok(num_samples / TABLE_SIZE)
    }
}

} // verus!
