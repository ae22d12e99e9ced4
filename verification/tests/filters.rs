use superdough::curve::CurveKind;
use superdough::filters::FilterStage;
use superdough::filters::FilterType;
use superdough::filters::apply_filter_adsr;
use superdough::filters::build_filter_chain;
use superdough::message::ADSR;
use superdough::message::BPF;
use superdough::message::Delay;
use superdough::message::FilterADSR;
use superdough::message::HPF;
use superdough::message::LPF;
use superdough::message::Loop;
use superdough::message::NoteMessage;
use superdough::voice::Synth;
use superdough::voice::WebAudioInstrument;
use superdough::voice::Wiring;

fn no_env() -> FilterADSR {
    FilterADSR { attack: None, decay: None, sustain: None, release: None, env: None }
}

fn base_message() -> NoteMessage {
    NoteMessage {
        duration: 1_000_000,
        begin: 0,
        speed: 1_000_000,
        looper: Loop { is_loop: 0, loop_start: 0, loop_end: 0 },
        adsr: ADSR { attack: None, decay: None, sustain: None, release: None },
        lpf: LPF { frequency: 0, resonance: 0 },
        hpf: HPF { frequency: 0, resonance: 0 },
        bpf: BPF { frequency: 0, resonance: 0 },
        lpenv: no_env(),
        hpenv: no_env(),
        bpenv: no_env(),
        delay: Delay { wet: 0, delay_time: 0, feedback: 0 },
    }
}

fn bare_stage(kind: FilterType, frequency: u64) -> FilterStage {
    FilterStage { kind, frequency, resonance: 0, freq_curve: Vec::new() }
}

#[test]
fn bandpass_wins_over_lowpass() {
    // bandpass at 200 Hz and lowpass at 1000 Hz requested: bandpass is
    // selected and the lowpass never built
    let mut m = base_message();
    m.bpf = BPF { frequency: 200_000_000, resonance: 2_000_000 };
    m.lpf = LPF { frequency: 1_000_000_000, resonance: 1_000_000 };
    let filters = build_filter_chain(&m);
    assert_eq!(filters.len(), 1);
    assert_eq!(filters[0].kind, FilterType::Bandpass);
    assert_eq!(filters[0].frequency, 200_000_000);
    assert_eq!(filters[0].resonance, 2_000_000);
}

#[test]
fn lowpass_wins_over_highpass() {
    let mut m = base_message();
    m.lpf = LPF { frequency: 500_000_000, resonance: 0 };
    m.hpf = HPF { frequency: 900_000_000, resonance: 0 };
    let filters = build_filter_chain(&m);
    assert_eq!(filters.len(), 1);
    assert_eq!(filters[0].kind, FilterType::Lowpass);
    assert_eq!(filters[0].frequency, 500_000_000);
}

#[test]
fn no_filter_wires_source_directly() {
    // every frequency zero: no filter is built and the source goes straight
    // to the gain stage
    let m = base_message();
    let filters = build_filter_chain(&m);
    assert_eq!(filters.len(), 0);
    let mut synth = Synth::new();
    let wired = synth.set_filters(&m);
    assert_eq!(wired.len(), 0);
    assert_eq!(synth.wiring, Wiring::Direct);
}

#[test]
fn filter_wiring_goes_through_stage() {
    let mut m = base_message();
    m.hpf = HPF { frequency: 300_000_000, resonance: 500_000 };
    let mut synth = Synth::new();
    let wired = synth.set_filters(&m);
    assert_eq!(wired.len(), 1);
    assert_eq!(synth.wiring, Wiring::Filtered(FilterType::Highpass));
}

#[test]
fn default_sweep_is_symmetric_around_base() {
    // base 1000 Hz, depth 1.0 octave: the sweep runs from about 707.1 Hz up
    // to about 1414.2 Hz, both far below the clamp
    let mut m = base_message();
    m.bpf = BPF { frequency: 1_000_000_000, resonance: 0 };
    let mut stage = bare_stage(FilterType::Bandpass, 1_000_000_000);
    apply_filter_adsr(&mut stage, &m, &FilterType::Bandpass, 0);
    let sweep = &stage.freq_curve;
    assert_eq!(sweep.len(), 4);
    assert_eq!(sweep[0].value, 707_106_781); // 707.106781 Hz
    assert_eq!(sweep[1].value, 1_414_213_562); // 1414.213562 Hz
    assert!(sweep[1].value < 20_000_000_000);
    // the default sustain ratio of 1.0 holds the sweep at its peak
    assert_eq!(sweep[2].value, sweep[1].value);
    assert_eq!(sweep[3].value, sweep[0].value);
}

#[test]
fn deep_sweep_clamps_to_ceiling() {
    // base 15000 Hz, depth 2.0 octaves: the computed top would be 30000 Hz
    // and clamps exactly to 20000 Hz
    let mut m = base_message();
    m.lpf = LPF { frequency: 15_000_000_000, resonance: 0 };
    m.lpenv = FilterADSR { attack: None, decay: None, sustain: None, release: None, env: Some(2_000_000) };
    let mut stage = bare_stage(FilterType::Lowpass, 15_000_000_000);
    apply_filter_adsr(&mut stage, &m, &FilterType::Lowpass, 0);
    assert_eq!(stage.freq_curve[1].value, 20_000_000_000);
    assert_eq!(stage.freq_curve[0].value, 7_500_000_000);
}

#[test]
fn sweep_breakpoint_times_and_kinds() {
    let mut m = base_message();
    m.duration = 800_000;
    m.bpf = BPF { frequency: 1_000_000_000, resonance: 0 };
    m.bpenv = FilterADSR {
        attack: Some(50_000),
        decay: Some(70_000),
        sustain: Some(500_000),
        release: Some(90_000),
        env: None,
    };
    let mut stage = bare_stage(FilterType::Bandpass, 1_000_000_000);
    apply_filter_adsr(&mut stage, &m, &FilterType::Bandpass, 400_000);
    let sweep = &stage.freq_curve;
    assert_eq!(sweep[0].time, 400_000);
    assert_eq!(sweep[1].time, 450_000);
    assert_eq!(sweep[2].time, 520_000);
    assert_eq!(sweep[3].time, 1_290_000);
    assert_eq!(sweep[0].curve, CurveKind::SetValue);
    assert_eq!(sweep[1].curve, CurveKind::Linear);
    assert_eq!(sweep[2].curve, CurveKind::Linear);
    assert_eq!(sweep[3].curve, CurveKind::Linear);
    // sustain 0.5 sits midway between the sweep's ends
    let expect = sweep[0].value + (sweep[1].value - sweep[0].value) / 2;
    assert_eq!(sweep[2].value, expect);
}

#[test]
fn unknown_shape_falls_back_to_lowpass_envelope() {
    // an unrecognized filter shape reads the lowpass envelope and an 8000 Hz
    // base frequency
    let mut m = base_message();
    m.lpenv = no_env();
    let mut stage = bare_stage(FilterType::Notch, 123);
    apply_filter_adsr(&mut stage, &m, &FilterType::Notch, 0);
    assert_eq!(stage.freq_curve[0].value, 5_656_854_249); // about 5656.9 Hz
    assert_eq!(stage.freq_curve[1].value, 11_313_708_499); // about 11313.7 Hz
    // the stage's own configuration is untouched
    assert_eq!(stage.kind, FilterType::Notch);
    assert_eq!(stage.frequency, 123);
}

#[test]
fn zero_base_sweeps_nowhere() {
    let m = base_message();
    let mut stage = bare_stage(FilterType::Bandpass, 0);
    apply_filter_adsr(&mut stage, &m, &FilterType::Bandpass, 0);
    assert_eq!(stage.freq_curve[0].value, 0);
    assert_eq!(stage.freq_curve[1].value, 0);
    assert_eq!(stage.freq_curve[2].value, 0);
}
