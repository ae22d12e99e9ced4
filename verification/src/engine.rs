use vstd::prelude::*;
use crate::curve::MICRO;
use crate::filters::FilterStage;
use crate::filters::apply_filter_adsr;
use crate::filters::chosen_kind;
use crate::filters::filter_adsr_pre;
use crate::filters::filter_chain_scheduled;
use crate::filters::has_filter;
use crate::message::MessageError;
use crate::message::NoteMessage;
use crate::message::opt_u64;
use crate::message::valid_message;
use crate::message::validate_message;
use crate::voice::Sampler;
use crate::voice::Synth;
use crate::voice::Waveform;
use crate::voice::WebAudioInstrument;
use crate::voice::sample_adsr_pre;
use crate::voice::sample_gain_curve;
use crate::voice::sampler_play_post;
use crate::voice::tone_adsr_pre;
use crate::voice::tone_gain_curve;
use crate::voice::wired_for;

verus! {

/// A tone voice that has been fully scheduled for a note at `t`: oscillator
/// defaults in place, the amplitude curve issued, playback started, the stop
/// scheduled one release past the duration, and the signal path wired.
pub open spec fn tone_voice_scheduled(v: Synth, t: int, m: NoteMessage, velocity: int) -> bool {
    &&& v.frequency == 440_000_000
    &&& v.waveform == Waveform::Sine
    &&& v.gain_curve@ == tone_gain_curve(t, m.adsr, velocity, m.duration as int)
    &&& v.started
    &&& v.stop_time == Some(((t + m.duration + opt_u64(m.adsr.release, 10_000)) as u64))
    &&& v.wiring == wired_for(m)
}

/// A sample voice that has been fully scheduled for a note at `t`: the
/// amplitude curve issued, the signal path wired, and start/stop/loop state
/// exactly as the playback-mode rules dictate for a fresh voice.
pub open spec fn sample_voice_scheduled(
    v: Sampler,
    t: int,
    m: NoteMessage,
    velocity: int,
    buffer_duration: int,
) -> bool {
    &&& v.gain_curve@ == sample_gain_curve(t, m.adsr, velocity, m.duration as int)
    &&& v.wiring == wired_for(m)
    &&& sampler_play_post(
        (Sampler {
            loop_on: false,
            loop_start: 0,
            loop_end: 0,
            start: None,
            stop_time: None,
            gain_curve: v.gain_curve,
            wiring: v.wiring,
        }),
        v,
        t,
        m,
        buffer_duration,
    )
}

/// The machine limits a tone note must respect so every scheduled time fits
/// the 64-bit clock.
pub open spec fn tone_schedule_pre(t: int, m: NoteMessage, velocity: int) -> bool {
    &&& velocity <= MICRO
    &&& tone_adsr_pre(t, m.adsr, velocity, m.duration as int)
    &&& has_filter(m) ==> filter_adsr_pre(m, chosen_kind(m), t)
}

/// The machine limits a sample note must respect.
pub open spec fn sample_schedule_pre(t: int, m: NoteMessage, velocity: int) -> bool {
    &&& velocity <= MICRO
    &&& sample_adsr_pre(t, m.adsr, velocity, m.duration as int)
    &&& t + m.duration + 200_000 <= u64::MAX
    &&& has_filter(m) ==> filter_adsr_pre(m, chosen_kind(m), t)
}

/// Turn one note event into a fully scheduled tone voice. Validation fails
/// fast, before any node exists; then the filter chain is wired, the chosen
/// filter's frequency sweep and the amplitude envelope are issued, and the
/// generator is started with its stop scheduled one release past the
/// duration.
pub fn schedule_tone_voice(t: u64, message: &NoteMessage, velocity: u64) -> (r: Result<
    (Synth, Vec<FilterStage>),
    MessageError,
>)
    requires
        tone_schedule_pre(t as int, *message, velocity as int),
    ensures
        r is Ok <==> valid_message(*message),
        message.duration == 0 ==> r == Err::<(Synth, Vec<FilterStage>), MessageError>(
            MessageError::InvalidDuration,
        ),
        message.duration > 0 && message.begin > MICRO ==> r == Err::<
            (Synth, Vec<FilterStage>),
            MessageError,
        >(MessageError::InvalidBegin),
        r matches Ok(p) ==> tone_voice_scheduled(p.0, t as int, *message, velocity as int)
            && filter_chain_scheduled(*message, p.1@, t as int),
{
    match validate_message(message) {
        Err(e) => Err(e),
        Ok(()) => {
            let mut synth = Synth::new();
            let mut filters = synth.set_filters(message);
            if filters.len() > 0 {
                if let Some(mut stage) = filters.pop() {
                    let kind = stage.kind;
                    apply_filter_adsr(&mut stage, message, &kind, t);
                    filters.push(stage);
                }
            }
            synth.set_adsr(t, &message.adsr, velocity, message.duration);
            let release = message.adsr.release.unwrap_or(10_000);
            synth.play(t, message, release);
            Ok((synth, filters))
        },
    }
}

/// Turn one note event into a fully scheduled sample voice. Validation fails
/// fast; then the filter chain is wired, the sweeps and the amplitude
/// envelope are issued, and playback is scheduled by the loop / reverse /
/// forward precedence, reading `buffer_duration` (microseconds) as the
/// sample buffer's length.
pub fn schedule_sample_voice(
    t: u64,
    message: &NoteMessage,
    velocity: u64,
    buffer_duration: u64,
) -> (r: Result<(Sampler, Vec<FilterStage>), MessageError>)
    requires
        sample_schedule_pre(t as int, *message, velocity as int),
    ensures
        r is Ok <==> valid_message(*message),
        message.duration == 0 ==> r == Err::<(Sampler, Vec<FilterStage>), MessageError>(
            MessageError::InvalidDuration,
        ),
        message.duration > 0 && message.begin > MICRO ==> r == Err::<
            (Sampler, Vec<FilterStage>),
            MessageError,
        >(MessageError::InvalidBegin),
        r matches Ok(p) ==> sample_voice_scheduled(
            p.0,
            t as int,
            *message,
            velocity as int,
            buffer_duration as int,
        ) && filter_chain_scheduled(*message, p.1@, t as int),
{
    match validate_message(message) {
        Err(e) => Err(e),
        Ok(()) => {
            let mut voice = Sampler::new();
            let mut filters = voice.set_filters(message);
            if filters.len() > 0 {
                if let Some(mut stage) = filters.pop() {
                    let kind = stage.kind;
                    apply_filter_adsr(&mut stage, message, &kind, t);
                    filters.push(stage);
                }
            }
            voice.set_adsr(t, &message.adsr, velocity, message.duration);
            voice.play(t, message, buffer_duration);
            Ok((voice, filters))
        },
    }
}

} // verus!
