use wtosc::oscillator::StereoOut;
use wtosc::wavetable::BandLimitedWaveTables;
use wtosc::{WTOsc, WTOscError, NUM_MIPMAPS, STEREO_VOICES_PER_VECTOR, TABLE_SIZE};

/// A bank of one sine frame. A sine holds a single partial, so the same
/// table is valid band-limited content at every mipmap level.
fn sine_bank() -> BandLimitedWaveTables {
    let mut bank = BandLimitedWaveTables::with_frame_count(1);
    let mut table = vec![0i32; TABLE_SIZE];
    for i in 0..TABLE_SIZE {
        let x = (i as f64) / (TABLE_SIZE as f64) * std::f64::consts::TAU;
        table[i] = (x.sin() * 16777215.0) as i32;
    }
    for level in 0..NUM_MIPMAPS {
        bank.set_table(0, level, &table);
    }
    bank
}

/// A bank of one constant (DC) frame at half scale.
fn dc_bank() -> BandLimitedWaveTables {
    let mut bank = BandLimitedWaveTables::with_frame_count(1);
    let table = vec![8388608i32; TABLE_SIZE];
    for level in 0..NUM_MIPMAPS {
        bank.set_table(0, level, &table);
    }
    bank
}

const ALL: [bool; STEREO_VOICES_PER_VECTOR] = [true; STEREO_VOICES_PER_VECTOR];

fn lane_mask(lane: usize) -> [bool; STEREO_VOICES_PER_VECTOR] {
    let mut m = [false; STEREO_VOICES_PER_VECTOR];
    m[lane] = true;
    m
}

/// An engine with the given bank, one cluster pool, level at full,
/// pan centered, and everything else at rest.
fn engine_with(bank: BandLimitedWaveTables, clusters: usize) -> WTOsc {
    let mut e = WTOsc::new();
    e.initialize(44100, 512, clusters);
    e.replace_wave_table(bank);
    for c in 0..clusters {
        e.set_param(c, &ALL, 6, 65536); // level 1.0
        e.set_param(c, &ALL, 8, 32768); // pan centered
        e.set_param(c, &ALL, 7, 0); // no stereo widening
        e.set_param(c, &ALL, 5, 0); // no phase randomization
        e.set_param(c, &ALL, 1, 0); // no detune
    }
    e
}

fn process_block(e: &mut WTOsc, cluster: usize, mask: &[bool; STEREO_VOICES_PER_VECTOR], samples: usize) -> Vec<StereoOut> {
    let mut out = vec![StereoOut { left: 0, right: 0 }; samples * STEREO_VOICES_PER_VECTOR];
    e.process(&mut out, cluster, mask);
    out
}

#[test]
fn concert_a_has_the_expected_period_and_balance() {
    let mut e = engine_with(sine_bank(), 1);
    assert!(e.activate_voice(0, 0, 69));
    let out = process_block(&mut e, 0, &lane_mask(0), 2048);
    // Center pan with no stereo width: both channels carry equal energy,
    // sample for sample.
    for s in 0..2048 {
        let o = out[s * STEREO_VOICES_PER_VECTOR];
        assert_eq!(o.left, o.right, "unbalanced at sample {s}");
    }
    // The fundamental period is sampleRate / 440 samples: about 100.2.
    let mut crossings: Vec<usize> = Vec::new();
    for s in 1..2048 {
        let prev = out[(s - 1) * STEREO_VOICES_PER_VECTOR].left;
        let cur = out[s * STEREO_VOICES_PER_VECTOR].left;
        if prev < 0 && cur >= 0 {
            crossings.push(s);
        }
    }
    assert!(crossings.len() >= 10, "no steady tone produced");
    for w in crossings.windows(2) {
        let period = w[1] - w[0];
        assert!(
            (98..=103).contains(&period),
            "period {period} outside the expected range"
        );
    }
}

#[test]
fn silent_lanes_stay_silent() {
    let mut e = engine_with(sine_bank(), 1);
    assert!(e.activate_voice(0, 0, 69));
    let out = process_block(&mut e, 0, &ALL, 64);
    for s in 0..64 {
        for lane in 1..STEREO_VOICES_PER_VECTOR {
            let o = out[s * STEREO_VOICES_PER_VECTOR + lane];
            assert_eq!(o.left, 0);
            assert_eq!(o.right, 0);
        }
    }
}

fn rms_left(e: &mut WTOsc, unison_norm: i64, samples: usize) -> f64 {
    // A detuned stack: the copies sit at distinct pitches, as a real
    // unison sound does, so their powers add incoherently.
    e.set_param(0, &ALL, 1, 65536);
    e.set_param(0, &ALL, 2, 39322);
    e.set_param(0, &ALL, 9, unison_norm);
    assert!(e.activate_voice(0, 0, 69));
    // One settling block, then measure.
    process_block(e, 0, &lane_mask(0), 64);
    let out = process_block(e, 0, &lane_mask(0), samples);
    let mut acc = 0.0f64;
    for s in 0..samples {
        let v = out[s * STEREO_VOICES_PER_VECTOR].left as f64 / 16777216.0;
        acc += v * v;
    }
    (acc / samples as f64).sqrt()
}

#[test]
fn raising_unison_does_not_raise_rms() {
    // A steady sustained tone, identical except for the unison count.
    let mut reference = engine_with(sine_bank(), 1);
    let base = rms_left(&mut reference, 0, 8192); // one voice
    for notch in [17476i64, 34952, 65536] {
        let mut e = engine_with(sine_bank(), 1);
        let rms = rms_left(&mut e, notch, 8192);
        assert!(
            rms <= base * 1.1,
            "unison notch {notch} raised RMS: {rms} > {base}"
        );
    }
}

#[test]
fn migrated_voice_continues_seamlessly() {
    let mut moved = engine_with(sine_bank(), 2);
    let mut kept = engine_with(sine_bank(), 2);
    for e in [&mut moved, &mut kept] {
        assert!(e.activate_voice(0, 2, 60));
        assert!(e.activate_voice(0, 1, 64));
        assert!(e.activate_voice(1, 0, 67));
        process_block(e, 0, &ALL, 100);
        process_block(e, 1, &ALL, 100);
    }
    // Steal the voice on cluster 0 lane 2 over to cluster 1 lane 3.
    moved.move_state((0, 2), (1, 3)).unwrap();
    // The relocated lane picks up exactly where the source lane left off.
    let got = process_block(&mut moved, 1, &lane_mask(3), 200);
    let want = process_block(&mut kept, 0, &lane_mask(2), 200);
    for s in 0..200 {
        let g = got[s * STEREO_VOICES_PER_VECTOR + 3];
        let w = want[s * STEREO_VOICES_PER_VECTOR + 2];
        assert_eq!(g.left, w.left, "left diverged at sample {s}");
        assert_eq!(g.right, w.right, "right diverged at sample {s}");
    }
    // Sibling lanes on both clusters are unaffected by the migration.
    let got_b = process_block(&mut moved, 0, &lane_mask(1), 100);
    let want_b = process_block(&mut kept, 0, &lane_mask(1), 100);
    for s in 0..100 {
        let i = s * STEREO_VOICES_PER_VECTOR + 1;
        assert_eq!(got_b[i].left, want_b[i].left);
        assert_eq!(got_b[i].right, want_b[i].right);
    }
    let got_c = process_block(&mut moved, 1, &lane_mask(0), 100);
    let want_c = process_block(&mut kept, 1, &lane_mask(0), 100);
    for s in 0..100 {
        let i = s * STEREO_VOICES_PER_VECTOR;
        assert_eq!(got_c[i].left, want_c[i].left);
        assert_eq!(got_c[i].right, want_c[i].right);
    }
}

#[test]
fn migration_to_a_bad_lane_is_an_error() {
    let mut e = engine_with(sine_bank(), 2);
    assert!(e.activate_voice(0, 2, 60));
    assert_eq!(e.move_state((0, 2), (1, 5)), Err(WTOscError::LaneOutOfRange));
    assert_eq!(e.move_state((0, 9), (1, 0)), Err(WTOscError::LaneOutOfRange));
    assert_eq!(e.move_state((0, 2), (1, 3)), Ok(()));
}

#[test]
fn pan_sweep_crosses_over_monotonically() {
    let mut e = engine_with(dc_bank(), 1);
    e.set_param(0, &ALL, 8, 0); // hard left before the note starts
    assert!(e.activate_voice(0, 0, 69));
    process_block(&mut e, 0, &lane_mask(0), 16);
    // Sweep the pan to hard right over a 100-sample window.
    e.set_param_smoothed(0, &ALL, 8, 65536, 100);
    let out = process_block(&mut e, 0, &lane_mask(0), 100);
    let first = out[0];
    let last = out[99 * STEREO_VOICES_PER_VECTOR];
    assert!(first.left > first.right, "sweep did not start on the left");
    assert!(last.left < last.right, "sweep did not end on the right");
    for s in 1..100 {
        let prev = out[(s - 1) * STEREO_VOICES_PER_VECTOR];
        let cur = out[s * STEREO_VOICES_PER_VECTOR];
        assert!(cur.left <= prev.left, "left channel rose at sample {s}");
        assert!(cur.right >= prev.right, "right channel fell at sample {s}");
    }
}

#[test]
fn deactivation_silences_only_its_lane() {
    let mut e = engine_with(sine_bank(), 1);
    assert!(e.activate_voice(0, 0, 60));
    assert!(e.activate_voice(0, 1, 72));
    process_block(&mut e, 0, &ALL, 32);
    assert!(e.deactivate_voice(0, 0));
    // Clearing the same lane twice is a benign no-op.
    assert!(!e.deactivate_voice(0, 0));
    // An out-of-range lane is also a no-op.
    assert!(!e.deactivate_voice(0, 17));
    let out = process_block(&mut e, 0, &ALL, 32);
    for s in 0..32 {
        let cleared = out[s * STEREO_VOICES_PER_VECTOR];
        assert_eq!(cleared.left, 0);
        assert_eq!(cleared.right, 0);
    }
    let alive = out
        .iter()
        .skip(1)
        .step_by(STEREO_VOICES_PER_VECTOR)
        .any(|o| o.left != 0 || o.right != 0);
    assert!(alive, "the sibling lane fell silent too");
}

#[test]
fn reset_restarts_the_selected_lane_phases() {
    let mut e = engine_with(sine_bank(), 1);
    assert!(e.activate_voice(0, 0, 69));
    let first = process_block(&mut e, 0, &lane_mask(0), 64);
    process_block(&mut e, 0, &lane_mask(0), 37);
    // After a reset the lane replays its initial phase trajectory.
    e.reset(0, &lane_mask(0));
    let again = process_block(&mut e, 0, &lane_mask(0), 64);
    for s in 0..64 {
        let i = s * STEREO_VOICES_PER_VECTOR;
        assert_eq!(first[i].left, again[i].left, "trajectory diverged at {s}");
    }
}

#[test]
fn replacing_the_bank_returns_the_previous_one() {
    let mut e = engine_with(sine_bank(), 1);
    let previous = e.replace_wave_table(dc_bank());
    assert_eq!(previous.num_frames(), 1);
    // The engine now reads the new bank.
    assert!(e.activate_voice(0, 0, 69));
    let out = process_block(&mut e, 0, &lane_mask(0), 16);
    // A DC table yields a constant, nonzero output.
    assert!(out[8 * STEREO_VOICES_PER_VECTOR].left > 0);
}

#[test]
fn set_voice_note_repitches_without_restarting() {
    let mut a = engine_with(sine_bank(), 1);
    let mut b = engine_with(sine_bank(), 1);
    assert!(a.activate_voice(0, 0, 81));
    assert!(b.activate_voice(0, 0, 69));
    b.set_voice_note(0, &lane_mask(0), 81);
    // Both lanes now carry the base increment of note 81.
    assert_eq!(
        a.clusters[0].params.lanes[0].phase_delta,
        b.clusters[0].params.lanes[0].phase_delta
    );
    // The sounding lane glides there over the next block; once the
    // glide completes, the period halves to about 50 samples.
    process_block(&mut b, 0, &lane_mask(0), 1024);
    let out = process_block(&mut b, 0, &lane_mask(0), 1024);
    let mut crossings: Vec<usize> = Vec::new();
    for s in 1..1024 {
        let prev = out[(s - 1) * STEREO_VOICES_PER_VECTOR].left;
        let cur = out[s * STEREO_VOICES_PER_VECTOR].left;
        if prev < 0 && cur >= 0 {
            crossings.push(s);
        }
    }
    assert!(crossings.len() >= 10);
    for w in crossings.windows(2) {
        let period = w[1] - w[0];
        assert!((48..=53).contains(&period), "period {period}");
    }
}

#[test]
fn a_complete_snapshot_lands_on_every_parameter() {
    let mut e = engine_with(sine_bank(), 1);
    let values: [i64; 9] = [100, 40000, 300, 400, 500, 600, 700, 800, 65536];
    e.set_all_params(0, &ALL, &values);
    let params = &e.clusters[0].params;
    assert_eq!(params.detune(0), 100);
    assert_eq!(params.lanes[0].detune_range.current, (40000 - 32768) * 96);
    assert_eq!(params.transpose(0), 300);
    assert_eq!(params.norm_frame(0), 400);
    assert_eq!(params.random(0), 500);
    assert_eq!(params.lanes[0].level.current, 600);
    assert_eq!(params.lanes[0].stereo.current, 700);
    assert_eq!(params.lanes[0].norm_pan.current, 800);
    assert_eq!(params.lanes[0].num_voices, 16);
}

#[test]
fn activating_an_out_of_range_lane_fails() {
    let mut e = engine_with(sine_bank(), 1);
    assert!(!e.activate_voice(0, STEREO_VOICES_PER_VECTOR, 60));
    assert!(e.activate_voice(0, STEREO_VOICES_PER_VECTOR - 1, 60));
}
