use superdough::curve::Breakpoint;
use superdough::curve::CurveKind;
use superdough::message::ADSR;
use superdough::voice::Sampler;
use superdough::voice::Synth;
use superdough::voice::WebAudioInstrument;

fn no_adsr() -> ADSR {
    ADSR { attack: None, decay: None, sustain: None, release: None }
}

fn times(curve: &[Breakpoint]) -> Vec<u64> {
    curve.iter().map(|b| b.time).collect()
}

fn values(curve: &[Breakpoint]) -> Vec<u64> {
    curve.iter().map(|b| b.value).collect()
}

#[test]
fn tone_default_envelope_breakpoints() {
    let mut synth = Synth::new();
    let t: u64 = 2_000_000;
    let velocity: u64 = 800_000; // 0.8
    let duration: u64 = 500_000; // 0.5 s
    synth.set_adsr(t, &no_adsr(), velocity, duration);
    assert_eq!(times(&synth.gain_curve), vec![2_000_000, 2_001_000, 2_051_000, 2_510_000]);
    assert_eq!(values(&synth.gain_curve), vec![0, 800_000, 480_080, 1]);
    assert_eq!(synth.gain_curve[0].curve, CurveKind::SetValue);
    assert_eq!(synth.gain_curve[1].curve, CurveKind::Linear);
    assert_eq!(synth.gain_curve[2].curve, CurveKind::Exponential);
    assert_eq!(synth.gain_curve[3].curve, CurveKind::Exponential);
}

#[test]
fn tone_full_velocity_sustain() {
    let mut synth = Synth::new();
    synth.set_adsr(0, &no_adsr(), 1_000_000, 1_000_000);
    // sustain 0.6 with the 0.0001 exponential floor: 0.6001 of full velocity
    assert_eq!(synth.gain_curve[2].value, 600_100);
}

#[test]
fn sample_default_envelope_breakpoints() {
    let mut sampler = Sampler::new();
    let t: u64 = 1_000_000;
    let velocity: u64 = 800_000;
    let duration: u64 = 250_000;
    sampler.set_adsr(t, &no_adsr(), velocity, duration);
    assert_eq!(
        times(&sampler.gain_curve),
        vec![1_000_000, 1_001_000, 1_002_000, 1_250_000, 1_260_000]
    );
    assert_eq!(values(&sampler.gain_curve), vec![0, 800_000, 800_008, 800_008, 0]);
    assert_eq!(sampler.gain_curve[0].curve, CurveKind::SetValue);
    assert_eq!(sampler.gain_curve[1].curve, CurveKind::Linear);
    assert_eq!(sampler.gain_curve[2].curve, CurveKind::Linear);
    assert_eq!(sampler.gain_curve[3].curve, CurveKind::SetValue);
    assert_eq!(sampler.gain_curve[4].curve, CurveKind::Linear);
}

#[test]
fn tone_explicit_adsr() {
    let mut synth = Synth::new();
    let adsr = ADSR {
        attack: Some(20_000),
        decay: Some(30_000),
        sustain: Some(500_000),
        release: Some(40_000),
    };
    synth.set_adsr(100_000, &adsr, 1_000_000, 900_000);
    assert_eq!(times(&synth.gain_curve), vec![100_000, 120_000, 150_000, 1_040_000]);
    assert_eq!(values(&synth.gain_curve), vec![0, 1_000_000, 500_100, 1]);
}

#[test]
fn short_note_keeps_breakpoint_order_permissive() {
    // duration < attack + decay: the later-named breakpoint's time precedes
    // the decay target's time, and no reordering or clamping is applied
    let mut synth = Synth::new();
    let adsr = ADSR {
        attack: Some(5_000),
        decay: Some(50_000),
        sustain: None,
        release: Some(10_000),
    };
    synth.set_adsr(0, &adsr, 1_000_000, 1_000);
    assert_eq!(times(&synth.gain_curve), vec![0, 5_000, 55_000, 11_000]);
    assert!(synth.gain_curve[3].time < synth.gain_curve[2].time);
}

#[test]
fn zero_velocity_gives_silent_envelope() {
    let mut sampler = Sampler::new();
    sampler.set_adsr(0, &no_adsr(), 0, 1_000_000);
    assert_eq!(values(&sampler.gain_curve), vec![0, 0, 0, 0, 0]);
}

#[test]
fn tiny_velocity_floors_exponential_decay_target() {
    // 0.6001 of one millionth quantizes to nothing; the decay target is an
    // exponential ramp, so it is held at the one-millionth floor instead
    let mut synth = Synth::new();
    synth.set_adsr(0, &no_adsr(), 1, 1_000_000);
    assert_eq!(values(&synth.gain_curve), vec![0, 1, 1, 1]);
}

#[test]
fn zero_sustain_keeps_decay_target_positive() {
    // sustain 0 with a soft velocity: (0 + 0.0001) * 0.005 quantizes to
    // nothing and is floored, never handing a zero to an exponential ramp
    let mut synth = Synth::new();
    let adsr = ADSR { attack: None, decay: None, sustain: Some(0), release: None };
    synth.set_adsr(0, &adsr, 5_000, 1_000_000);
    assert_eq!(synth.gain_curve[2].value, 1);
    assert!(synth.gain_curve[2].value > 0);
    assert!(synth.gain_curve[3].value > 0);
}

#[test]
fn zero_velocity_tone_exponential_targets_stay_positive() {
    // even a silent note never schedules a zero-valued exponential ramp
    let mut synth = Synth::new();
    synth.set_adsr(0, &no_adsr(), 0, 1_000_000);
    assert_eq!(values(&synth.gain_curve), vec![0, 0, 1, 1]);
}
