use superdough::engine::schedule_sample_voice;
use superdough::loggerbridge::LoggerPayload;
use superdough::engine::schedule_tone_voice;
use superdough::message::ADSR;
use superdough::message::BPF;
use superdough::message::Delay;
use superdough::message::FilterADSR;
use superdough::message::HPF;
use superdough::message::LPF;
use superdough::message::Loop;
use superdough::message::MessageError;
use superdough::message::NoteMessage;
use superdough::message::validate_message;
use superdough::voice::Sampler;
use superdough::voice::StartAt;
use superdough::voice::Synth;
use superdough::voice::Waveform;
use superdough::voice::WebAudioInstrument;
use superdough::voice::Wiring;

fn no_env() -> FilterADSR {
    FilterADSR { attack: None, decay: None, sustain: None, release: None, env: None }
}

fn base_message() -> NoteMessage {
    NoteMessage {
        duration: 1_000_000,
        begin: 0,
        speed: 1_000_000,
        looper: Loop { is_loop: 0, loop_start: 0, loop_end: 0 },
        adsr: ADSR { attack: None, decay: None, sustain: None, release: None },
        lpf: LPF { frequency: 0, resonance: 0 },
        hpf: HPF { frequency: 0, resonance: 0 },
        bpf: BPF { frequency: 0, resonance: 0 },
        lpenv: no_env(),
        hpenv: no_env(),
        bpenv: no_env(),
        delay: Delay { wet: 0, delay_time: 0, feedback: 0 },
    }
}

#[test]
fn loop_mode_wins_over_reverse() {
    // looping on and a negative speed: the loop branch executes — playback
    // starts at the loop start and stops one release past the duration,
    // never at the reverse offset with its fixed tail
    let mut m = base_message();
    m.looper = Loop { is_loop: 1, loop_start: 300_000, loop_end: 700_000 };
    m.speed = -1_000_000;
    let mut sampler = Sampler::new();
    sampler.play(100_000, &m, 2_000_000);
    assert!(sampler.loop_on);
    assert_eq!(sampler.loop_start, 300_000);
    assert_eq!(sampler.loop_end, 700_000);
    assert_eq!(sampler.start, Some(StartAt { time: 100_000, offset: 300_000 }));
    assert_eq!(sampler.stop_time, Some(1_110_000));
}

#[test]
fn reverse_playback_starts_from_buffer_end() {
    // loop off, negative speed: the start offset is the whole buffer
    // duration and the stop carries the fixed 0.2 s tail, independent of the
    // release parameter
    let mut m = base_message();
    m.speed = -500_000;
    m.adsr.release = Some(999_000);
    let mut sampler = Sampler::new();
    sampler.play(100_000, &m, 2_000_000);
    assert!(!sampler.loop_on);
    assert_eq!(sampler.start, Some(StartAt { time: 100_000, offset: 2_000_000 }));
    assert_eq!(sampler.stop_time, Some(100_000 + 1_000_000 + 200_000));
}

#[test]
fn forward_playback_starts_at_begin_fraction() {
    let mut m = base_message();
    m.begin = 250_000; // a quarter of the buffer
    m.adsr.release = Some(30_000);
    let mut sampler = Sampler::new();
    sampler.play(0, &m, 2_000_000);
    assert_eq!(sampler.start, Some(StartAt { time: 0, offset: 500_000 }));
    assert_eq!(sampler.stop_time, Some(1_030_000));
}

#[test]
fn tone_play_schedules_stop() {
    let mut synth = Synth::new();
    let m = base_message();
    synth.play(500_000, &m, 10_000);
    assert!(synth.started);
    assert_eq!(synth.stop_time, Some(1_510_000));
}

#[test]
fn waveform_names_select_waveforms() {
    let mut synth = Synth::new();
    assert_eq!(synth.waveform, Waveform::Sine);
    synth.set_waveform("square");
    assert_eq!(synth.waveform, Waveform::Square);
    synth.set_waveform("triangle");
    assert_eq!(synth.waveform, Waveform::Triangle);
    synth.set_waveform("saw");
    assert_eq!(synth.waveform, Waveform::Sawtooth);
    synth.set_waveform("sine");
    assert_eq!(synth.waveform, Waveform::Sine);
    synth.set_waveform("sawtooth");
    assert_eq!(synth.waveform, Waveform::Sawtooth);
}

#[test]
fn unknown_waveform_is_not_an_error() {
    let mut synth = Synth::new();
    synth.set_waveform("triangle");
    synth.set_waveform("noise");
    assert_eq!(synth.waveform, Waveform::Triangle);
}

#[test]
fn zero_duration_message_is_rejected() {
    let mut m = base_message();
    m.duration = 0;
    assert_eq!(validate_message(&m), Err(MessageError::InvalidDuration));
}

#[test]
fn oversized_begin_is_rejected() {
    let mut m = base_message();
    m.begin = 1_000_001;
    assert_eq!(validate_message(&m), Err(MessageError::InvalidBegin));
}

#[test]
fn valid_message_is_accepted() {
    let m = base_message();
    assert_eq!(validate_message(&m), Ok(()));
}

#[test]
fn tone_voice_is_fully_scheduled() {
    let mut m = base_message();
    m.bpf = BPF { frequency: 1_000_000_000, resonance: 700_000 };
    let (synth, filters) = schedule_tone_voice(2_000_000, &m, 900_000).unwrap();
    assert!(synth.started);
    assert_eq!(synth.stop_time, Some(3_010_000));
    assert_eq!(synth.gain_curve.len(), 4);
    assert!(matches!(synth.wiring, Wiring::Filtered(_)));
    assert_eq!(filters.len(), 1);
    assert_eq!(filters[0].freq_curve.len(), 4);
    assert_eq!(filters[0].freq_curve[0].time, 2_000_000);
    assert_eq!(filters[0].freq_curve[0].value, 707_106_781);
}

#[test]
fn invalid_note_builds_no_voice() {
    // fail fast: a rejected message never reaches the wiring stage
    let mut m = base_message();
    m.duration = 0;
    let r = schedule_tone_voice(0, &m, 1_000_000);
    assert_eq!(r, Err(MessageError::InvalidDuration));
}

#[test]
fn sample_voice_is_fully_scheduled() {
    let mut m = base_message();
    m.begin = 500_000;
    let (sampler, filters) = schedule_sample_voice(0, &m, 1_000_000, 4_000_000).unwrap();
    assert_eq!(filters.len(), 0);
    assert_eq!(sampler.wiring, Wiring::Direct);
    assert_eq!(sampler.gain_curve.len(), 5);
    assert_eq!(sampler.start, Some(StartAt { time: 0, offset: 2_000_000 }));
    assert_eq!(sampler.stop_time, Some(1_010_000));
}

#[test]
fn set_frequency_retunes_oscillator() {
    let mut synth = Synth::new();
    assert_eq!(synth.frequency, 440_000_000);
    synth.set_frequency(261_630_000); // about middle C
    assert_eq!(synth.frequency, 261_630_000);
    assert_eq!(synth.waveform, Waveform::Sine);
}

#[test]
fn looped_sample_voice_through_engine() {
    let mut m = base_message();
    m.looper = Loop { is_loop: 1, loop_start: 50_000, loop_end: 150_000 };
    m.speed = -1_000_000;
    m.hpf = HPF { frequency: 600_000_000, resonance: 100_000 };
    let (sampler, filters) = schedule_sample_voice(1_000_000, &m, 1_000_000, 3_000_000).unwrap();
    assert!(sampler.loop_on);
    assert_eq!(sampler.start, Some(StartAt { time: 1_000_000, offset: 50_000 }));
    assert_eq!(sampler.stop_time, Some(2_010_000));
    assert_eq!(filters.len(), 1);
    assert_eq!(filters[0].frequency, 600_000_000);
}

#[test]
fn logger_payload_carries_message_and_tag() {
    let p = LoggerPayload::new("voice scheduled".to_string(), "info".to_string());
    assert_eq!(p.message, "voice scheduled");
    assert_eq!(p.message_type, "info");
}
