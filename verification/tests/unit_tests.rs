use wtosc::cluster::WTOscClusterParams;
use wtosc::fixed::{exp2_q16, isqrt, log2_q16};
use wtosc::oscillator::{norm_detune, Oscillator};
use wtosc::smoother::LinearSmoother;
use wtosc::wavetable::{frame_count_for_samples, mipmap_level, BandLimitedWaveTables, WaveTableError};
use wtosc::{MAX_UNISON, NUM_MIPMAPS, STEREO_VOICES_PER_VECTOR, TABLE_SIZE};

#[test]
fn isqrt_exact_values() {
    assert_eq!(isqrt(0), 0);
    assert_eq!(isqrt(1), 1);
    assert_eq!(isqrt(3), 1);
    assert_eq!(isqrt(4), 2);
    assert_eq!(isqrt(2147483648), 46340);
    assert_eq!(isqrt(u64::MAX), 4294967295);
}

#[test]
fn exp2_exact_at_whole_octaves() {
    assert_eq!(exp2_q16(0), 65536);
    assert_eq!(exp2_q16(65536), 131072);
    assert_eq!(exp2_q16(21 * 65536), 65536u64 << 21);
    assert_eq!(exp2_q16(31 * 65536), 65536u64 << 31);
}

#[test]
fn exp2_is_close_between_octaves() {
    // Half an octave up should be near sqrt(2): 92682 in Q16.
    let r = exp2_q16(32768) as f64 / 65536.0;
    assert!((r - 1.41421356).abs() < 0.01, "got {r}");
}

#[test]
fn log2_exact_at_powers_of_two() {
    assert_eq!(log2_q16(1), 0);
    assert_eq!(log2_q16(2), 65536);
    assert_eq!(log2_q16(1024), 10 * 65536);
    assert_eq!(log2_q16(1 << 40), 40 * 65536);
}

#[test]
fn log2_fraction_is_close() {
    // log2(3) = 1.58496...
    let r = log2_q16(3) as f64 / 65536.0;
    assert!((r - 1.58496).abs() < 0.001, "got {r}");
}

#[test]
fn smoother_reaches_target_within_window() {
    let mut s = LinearSmoother::new();
    s.set_val_instantly(1000);
    s.set_target(4000, 100);
    for _ in 0..100 {
        s.tick1();
    }
    assert_eq!(s.current, 4000);
}

#[test]
fn smoother_ramps_monotonically() {
    let mut s = LinearSmoother::new();
    s.set_val_instantly(0);
    s.set_target(65536, 100);
    let mut prev = s.current;
    for _ in 0..150 {
        s.tick1();
        assert!(s.current >= prev);
        assert!(s.current <= 65536);
        prev = s.current;
    }
    assert_eq!(s.current, 65536);
}

#[test]
fn smoother_bulk_tick_matches_single_ticks() {
    let mut a = LinearSmoother::new();
    a.set_val_instantly(-500);
    a.set_target(7777, 33);
    let mut b = a;
    a.tick_n(20);
    for _ in 0..20 {
        b.tick1();
    }
    assert_eq!(a, b);
}

#[test]
fn mipmap_level_caps_and_tracks_pitch() {
    // Below one table step per sample the full-bandwidth variant is used.
    assert_eq!(mipmap_level(0), 11);
    assert_eq!(mipmap_level(1), 11);
    assert_eq!(mipmap_level((1 << 21) - 1), 11);
    // From there each doubling of the increment drops one level.
    assert_eq!(mipmap_level(1 << 21), 10);
    assert_eq!(mipmap_level(1 << 22), 9);
    assert_eq!(mipmap_level(1 << 30), 1);
    assert_eq!(mipmap_level(1 << 31), 0);
    assert_eq!(mipmap_level(u32::MAX), 0);
}

#[test]
fn mipmap_selection_is_monotone_in_increment() {
    let mut prev = mipmap_level(0);
    let mut pd: u64 = 1;
    while pd <= u32::MAX as u64 {
        let lvl = mipmap_level(pd as u32);
        assert!(lvl <= prev, "level rose from {prev} to {lvl} at {pd}");
        prev = lvl;
        pd *= 2;
    }
}

#[test]
fn frame_count_rules_reject_bad_lengths() {
    assert_eq!(frame_count_for_samples(0), Ok(0));
    assert_eq!(frame_count_for_samples(TABLE_SIZE), Ok(1));
    assert_eq!(frame_count_for_samples(3 * TABLE_SIZE), Ok(3));
    assert_eq!(frame_count_for_samples(100), Err(WaveTableError::BadLength));
    assert_eq!(
        frame_count_for_samples(3 * TABLE_SIZE + 1),
        Err(WaveTableError::BadLength)
    );
    assert_eq!(
        frame_count_for_samples(65537 * TABLE_SIZE),
        Err(WaveTableError::TooManyFrames)
    );
}

#[test]
fn fresh_bank_is_silent() {
    let bank = BandLimitedWaveTables::with_frame_count(2);
    assert_eq!(bank.num_frames(), 2);
    assert_eq!(bank.as_slice().len(), 2 * NUM_MIPMAPS * TABLE_SIZE);
    assert!(bank.as_slice().iter().all(|&s| s == 0));
    assert_eq!(bank.resample(1 << 21, 1, 12345), 0);
}

#[test]
fn resample_returns_stored_sample_at_whole_phase() {
    let mut bank = BandLimitedWaveTables::with_frame_count(1);
    let mut table = vec![0i32; TABLE_SIZE];
    table[5] = 4242;
    // A small increment selects the full-bandwidth level.
    bank.set_table(0, 11, &table);
    // Phase with integer index 5 and zero fraction.
    let phase: u32 = 5 << 21;
    assert_eq!(bank.resample(1, 0, phase), 4242);
}

#[test]
fn resample_interpolates_halfway_between_neighbours() {
    let mut bank = BandLimitedWaveTables::with_frame_count(1);
    let mut table = vec![0i32; TABLE_SIZE];
    table[7] = 1000;
    table[8] = 3000;
    bank.set_table(0, 11, &table);
    let phase: u32 = (7 << 21) | (1 << 20);
    assert_eq!(bank.resample(1, 0, phase), 2000);
}

#[test]
fn resample_wraps_at_the_table_period() {
    let mut bank = BandLimitedWaveTables::with_frame_count(1);
    let mut table = vec![0i32; TABLE_SIZE];
    table[TABLE_SIZE - 1] = 1000;
    table[0] = 2000;
    bank.set_table(0, 11, &table);
    // Halfway between the last sample and the wrapped-around first.
    let phase: u32 = (((TABLE_SIZE - 1) as u32) << 21) | (1 << 20);
    assert_eq!(bank.resample(1, 0, phase), 1500);
}

#[test]
fn masked_lookup_is_silent() {
    let mut bank = BandLimitedWaveTables::with_frame_count(1);
    let table = vec![12345i32; TABLE_SIZE];
    bank.set_table(0, 11, &table);
    assert_eq!(bank.resample_select(1, 0, 0, true), 12345);
    assert_eq!(bank.resample_select(1, 0, 0, false), 0);
}

#[test]
fn detune_rows_sum_to_zero_for_every_unison_count() {
    for n in 1..=MAX_UNISON as u32 {
        let engaged = (n + n % 2) as usize;
        let mut sum: i64 = 0;
        for k in 0..engaged {
            let d = norm_detune(n, k);
            assert!(d >= -65536 && d <= 65536, "detune out of range: {d}");
            sum += d;
        }
        assert_eq!(sum, 0, "asymmetric row for unison count {n}");
    }
}

#[test]
fn detune_row_spreads_from_innermost_to_outermost() {
    // Sixteen copies: eight pairs, magnitudes 1/8 .. 8/8 in Q16.
    assert_eq!(norm_detune(16, 0), 8192);
    assert_eq!(norm_detune(16, 1), -8192);
    assert_eq!(norm_detune(16, 2), -16384);
    assert_eq!(norm_detune(16, 3), 16384);
    assert_eq!(norm_detune(16, 14), -65536);
    assert_eq!(norm_detune(16, 15), 65536);
    // A single voice carries no detune at all.
    assert_eq!(norm_detune(1, 0), 0);
    assert_eq!(norm_detune(1, 1), 0);
}

#[test]
fn phase_accumulator_wraps_exactly() {
    let bank = BandLimitedWaveTables::with_frame_count(1);
    let mut osc = Oscillator::new();
    // A log-domain value of 21 octaves gives exactly 2^21 phase units
    // per sample, so 2^11 steps cover the full phase range.
    osc.phase_delta = LinearSmoother {
        current: 21 * 65536,
        target: 21 * 65536,
        step: 0,
    };
    osc.frame = LinearSmoother {
        current: 1,
        target: 1,
        step: 0,
    };
    osc.active_voices_mask = true;
    osc.phase = 0xDEAD_BEEF;
    let start = osc.phase;
    for _ in 0..2048 {
        osc.advance_and_resample(&bank);
    }
    assert_eq!(osc.phase, start);
}

#[test]
fn inactive_lane_contributes_silence() {
    let mut bank = BandLimitedWaveTables::with_frame_count(1);
    let table = vec![99999i32; TABLE_SIZE];
    for level in 0..NUM_MIPMAPS {
        bank.set_table(0, level, &table);
    }
    let mut osc = Oscillator::new();
    assert!(!osc.active_voices_mask);
    assert_eq!(osc.advance_and_resample(&bank), 0);
}

#[test]
fn unknown_parameter_ids_are_ignored() {
    let mut params = WTOscClusterParams::new();
    let mask = [true; STEREO_VOICES_PER_VECTOR];
    params.set_param(1, 30000, &mask);
    let before = params.detune(0);
    params.set_param(0, 65536, &mask);
    params.set_param(10, 65536, &mask);
    params.set_param(9999, 65536, &mask);
    assert_eq!(params.detune(0), before);
    assert_eq!(params.transpose(0), 0);
    assert_eq!(params.norm_frame(0), 0);
    assert_eq!(params.random(0), 0);
}

#[test]
fn parameter_writes_respect_the_voice_mask() {
    let mut params = WTOscClusterParams::new();
    let mask = [true, false, true, false];
    params.set_param(4, 40000, &mask);
    assert_eq!(params.norm_frame(0), 40000);
    assert_eq!(params.norm_frame(1), 0);
    assert_eq!(params.norm_frame(2), 40000);
    assert_eq!(params.norm_frame(3), 0);
}

#[test]
fn sample_weights_follow_the_pan_law() {
    let mut params = WTOscClusterParams::new();
    let mask = [true; STEREO_VOICES_PER_VECTOR];
    params.set_param(6, 65536, &mask); // level 1.0
    params.set_param(8, 32768, &mask); // pan centered
    // stereo 0, one unison voice: every weight is sqrt(0.5) in Q16.
    let (nl, nr, fl, fr) = params.get_sample_weights(0);
    assert_eq!(nl, 46340);
    assert_eq!(nr, 46340);
    assert_eq!(fl, 46340);
    assert_eq!(fr, 46340);
    // Hard left: the left weight is full, the right silent.
    params.set_param(8, 0, &mask);
    let (nl, nr, _, _) = params.get_sample_weights(0);
    assert_eq!(nl, 65536);
    assert_eq!(nr, 0);
}

#[test]
fn weights_do_not_grow_with_unison_count() {
    let mut params = WTOscClusterParams::new();
    let mask = [true; STEREO_VOICES_PER_VECTOR];
    params.set_param(6, 65536, &mask);
    params.set_param(8, 32768, &mask);
    params.set_param(7, 20000, &mask);
    let mut prev = params.get_sample_weights(0);
    for unison in 1..=15u32 {
        // Raise the unison count one notch at a time.
        let norm = (unison as i64) * 65536 / 15;
        params.set_param(9, norm, &mask);
        let w = params.get_sample_weights(0);
        assert!(w.0 <= prev.0 && w.1 <= prev.1 && w.2 <= prev.2 && w.3 <= prev.3);
        prev = w;
    }
}

#[test]
fn unison_count_is_clamped_to_at_least_one() {
    let mut params = WTOscClusterParams::new();
    let mask = [true; STEREO_VOICES_PER_VECTOR];
    params.set_param(9, 0, &mask);
    assert_eq!(params.lanes[0].num_voices, 1);
    params.set_param(9, 65536, &mask);
    assert_eq!(params.lanes[0].num_voices, 16);
}
