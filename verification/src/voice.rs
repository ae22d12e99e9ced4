use vstd::prelude::*;
use vstd::arithmetic::div_mod::lemma_div_is_ordered;
use vstd::arithmetic::div_mod::lemma_div_pos_is_pos;
use vstd::arithmetic::div_mod::lemma_multiply_divide_le;
use vstd::arithmetic::mul::lemma_mul_inequality;
use vstd::string::StrSliceExecFns;
use crate::curve::Breakpoint;
use crate::curve::CurveKind;
use crate::curve::MICRO;
use crate::curve::SUSTAIN_CAP;
use crate::filters::FilterStage;
use crate::filters::FilterType;
use crate::filters::build_filter_chain;
use crate::filters::chosen_kind;
use crate::filters::filter_chain_matches;
use crate::filters::has_filter;
use crate::message::ADSR;
use crate::message::NoteMessage;
use crate::message::opt_u64;

verus! {

/// The tone generator's waveform. `saw` and `sawtooth` both name the last.
#[derive(Clone, Copy, Debug, PartialEq, Eq, Structural)]
pub enum Waveform {
    Sine,
    Square,
    Triangle,
    Sawtooth,
}

/// Where the voice's sound source is wired: nowhere yet, straight into the
/// gain stage, or through the single filter stage of the given shape.
#[derive(Clone, Copy, Debug, PartialEq, Eq, Structural)]
pub enum Wiring {
    Unwired,
    Direct,
    Filtered(FilterType),
}

/// A scheduled playback start: at clock time `time` (microseconds), from
/// `offset` microseconds into the sample buffer.
#[derive(Clone, Copy, Debug, PartialEq, Eq, Structural)]
pub struct StartAt {
    pub time: u64,
    pub offset: u64,
}

/// Character-for-character string equality, decided against the views.
fn str_eq(a: &str, b: &str) -> (r: bool)
    ensures
        r == (a@ == b@),
{
    let alen = a.unicode_len();
    let blen = b.unicode_len();
    if alen != blen {
        return false;
    }
    let mut i: usize = 0;
    while i < alen
        invariant
            alen == a@.len(),
            blen == b@.len(),
            alen == blen,
            i <= alen,
            forall|j: int| 0 <= j < i ==> a@[j] == b@[j],
        decreases alen - i,
    {
        if a.get_char(i) != b.get_char(i) {
            return false;
        }
        i = i + 1;
    }
    proof {
        assert(a@ =~= b@);
    }
    true
}

/// Which waveform a name selects: the four known names pick their waveform,
/// and any other name leaves the current waveform in place.
pub open spec fn parse_waveform(name: Seq<char>, current: Waveform) -> Waveform {
    if name == "sine"@ {
        Waveform::Sine
    } else if name == "square"@ {
        Waveform::Square
    } else if name == "triangle"@ {
        Waveform::Triangle
    } else if name == "saw"@ || name == "sawtooth"@ {
        Waveform::Sawtooth
    } else {
        current
    }
}

/// A sustain level scaled by the velocity: `(sustain + bump) * velocity`
/// in millionths, where `bump` is the tiny positive bias that keeps the
/// level above the sustain ratio alone.
pub open spec fn scaled_level(sustain: int, bump: int, velocity: int) -> int {
    (sustain + bump) * velocity / (MICRO as int)
}

/// The target of an exponential ramp to the scaled sustain level: an
/// exponential ramp cannot reach exactly zero, so where fixed-point
/// quantization would floor the level to nothing it is held at one
/// millionth — the same 0.000001 floor the release target carries.
pub open spec fn exp_ramp_level(sustain: int, bump: int, velocity: int) -> int {
    let raw = scaled_level(sustain, bump, velocity);
    if raw < 1 {
        1
    } else {
        raw
    }
}

/// The scaled sustain level stays inside 64 bits for a capped sustain ratio
/// and a velocity of at most one whole.
proof fn lemma_level_bounded(sustain: int, bump: int, velocity: int)
    requires
        0 <= sustain <= SUSTAIN_CAP,
        0 <= bump <= 100,
        0 <= velocity <= MICRO,
    ensures
        0 <= (sustain + bump) * velocity <= 1_000_000_000_100 * 1_000_000,
        0 <= scaled_level(sustain, bump, velocity) <= 1_000_000_000_100,
{
    assert(0 <= (sustain + bump) * velocity <= 1_000_000_000_100 * 1_000_000) by (nonlinear_arith)
        requires
            0 <= sustain + bump <= 1_000_000_000_100,
            0 <= velocity <= 1_000_000,
    ;
    lemma_div_is_ordered(
        (sustain + bump) * velocity,
        (1_000_000_000_100 * 1_000_000) as int,
        MICRO as int,
    );
    lemma_div_pos_is_pos((sustain + bump) * velocity, MICRO as int);
}

/// The tone generator's amplitude curve: silence at `t`, the velocity after
/// the attack, a scaled sustain after the decay, and the near-zero floor one
/// release after the duration. Both of those targets are reached by
/// exponential ramps, which cannot reach exactly zero, so both are strictly
/// positive: the decay target carries the 0.0001 sustain bias and is floored
/// at one millionth, the release target is the fixed 0.000001 floor.
/// Defaults: attack 0.001 s, decay 0.05 s, sustain 0.6, release 0.01 s.
pub open spec fn tone_gain_curve(t: int, adsr: ADSR, velocity: int, duration: int) -> Seq<
    Breakpoint,
> {
    let attack = opt_u64(adsr.attack, 1_000);
    let decay = opt_u64(adsr.decay, 50_000);
    let sustain = opt_u64(adsr.sustain, 600_000);
    let release = opt_u64(adsr.release, 10_000);
    seq![
        (Breakpoint { time: t as u64, value: 0, curve: CurveKind::SetValue }),
        (Breakpoint { time: (t + attack) as u64, value: velocity as u64, curve: CurveKind::Linear }),
        (Breakpoint {
            time: (t + attack + decay) as u64,
            value: exp_ramp_level(sustain, 100, velocity) as u64,
            curve: CurveKind::Exponential,
        }),
        (Breakpoint {
            time: (t + duration + release) as u64,
            value: 1,
            curve: CurveKind::Exponential,
        }),
    ]
}

/// The sample player's amplitude curve: silence at `t`, the velocity after
/// the attack, a scaled sustain after the decay (linear, with a 0.00001
/// floor), the same level held at the duration, then silence one release
/// later. Defaults: attack 0.001 s, decay 0.001 s, sustain 1.0,
/// release 0.01 s.
pub open spec fn sample_gain_curve(t: int, adsr: ADSR, velocity: int, duration: int) -> Seq<
    Breakpoint,
> {
    let attack = opt_u64(adsr.attack, 1_000);
    let decay = opt_u64(adsr.decay, 1_000);
    let sustain = opt_u64(adsr.sustain, 1_000_000);
    let release = opt_u64(adsr.release, 10_000);
    seq![
        (Breakpoint { time: t as u64, value: 0, curve: CurveKind::SetValue }),
        (Breakpoint { time: (t + attack) as u64, value: velocity as u64, curve: CurveKind::Linear }),
        (Breakpoint {
            time: (t + attack + decay) as u64,
            value: scaled_level(sustain, 10, velocity) as u64,
            curve: CurveKind::Linear,
        }),
        (Breakpoint {
            time: (t + duration) as u64,
            value: scaled_level(sustain, 10, velocity) as u64,
            curve: CurveKind::SetValue,
        }),
        (Breakpoint { time: (t + duration + release) as u64, value: 0, curve: CurveKind::Linear }),
    ]
}

/// What a tone voice demands before its envelope is scheduled: a velocity of
/// at most one whole, sustain inside its headroom, and breakpoint times that
/// fit the clock.
pub open spec fn tone_adsr_pre(t: int, adsr: ADSR, velocity: int, duration: int) -> bool {
    &&& 0 <= t
    &&& 0 <= duration
    &&& 0 <= velocity <= MICRO
    &&& opt_u64(adsr.sustain, 600_000) <= SUSTAIN_CAP
    &&& t + opt_u64(adsr.attack, 1_000) + opt_u64(adsr.decay, 50_000) <= u64::MAX
    &&& t + duration + opt_u64(adsr.release, 10_000) <= u64::MAX
}

/// The sample player's counterpart of `tone_adsr_pre`, with its defaults.
pub open spec fn sample_adsr_pre(t: int, adsr: ADSR, velocity: int, duration: int) -> bool {
    &&& 0 <= t
    &&& 0 <= duration
    &&& 0 <= velocity <= MICRO
    &&& opt_u64(adsr.sustain, 1_000_000) <= SUSTAIN_CAP
    &&& t + opt_u64(adsr.attack, 1_000) + opt_u64(adsr.decay, 1_000) <= u64::MAX
    &&& t + duration + opt_u64(adsr.release, 10_000) <= u64::MAX
}

/// One sounding voice: it owns a sound source and a gain stage, schedules
/// all of its automation at construction, and then runs itself out.
pub trait WebAudioInstrument: Sized {
    /// What this voice kind demands before its amplitude envelope is
    /// scheduled.
    spec fn adsr_pre(self, t: int, adsr: ADSR, velocity: int, duration: int) -> bool;

    /// How scheduling the amplitude envelope changes this voice kind.
    spec fn adsr_post(self, post: Self, t: int, adsr: ADSR, velocity: int, duration: int) -> bool;

    /// What this voice kind demands before playback is scheduled.
    spec fn play_pre(self, t: int, message: NoteMessage, extent: int) -> bool;

    /// How scheduling playback changes this voice kind. `extent` is the
    /// third `play` argument: the tone generator reads it as its release
    /// tail, the sample player as the buffer duration.
    spec fn play_post(self, post: Self, t: int, message: NoteMessage, extent: int) -> bool;

    /// How wiring the filter chain changes this voice kind.
    spec fn filters_post(self, post: Self, message: NoteMessage, filters: Seq<FilterStage>) -> bool;

    /// Schedule the amplitude envelope on the voice's gain stage.
    fn set_adsr(&mut self, t: u64, adsr: &ADSR, velocity: u64, duration: u64)
        requires
            old(self).adsr_pre(t as int, *adsr, velocity as int, duration as int),
        ensures
            old(self).adsr_post(*final(self), t as int, *adsr, velocity as int, duration as int),
    ;

    /// Start playback and schedule its stop.
    fn play(&mut self, t: u64, message: &NoteMessage, extent: u64)
        requires
            old(self).play_pre(t as int, *message, extent as int),
        ensures
            old(self).play_post(*final(self), t as int, *message, extent as int),
    ;

    /// Build at most one filter stage for this voice and wire the signal
    /// path through it (or straight to the gain stage).
    fn set_filters(&mut self, message: &NoteMessage) -> (filters: Vec<FilterStage>)
        ensures
            old(self).filters_post(*final(self), *message, filters@),
    ;
}

/// A tone-generator voice: one oscillator feeding one gain stage, as data.
/// The fields mirror what the real-time nodes are configured with.
#[derive(Clone, Debug, PartialEq, Eq)]
pub struct Synth {
    pub frequency: u64,
    pub waveform: Waveform,
    pub gain_curve: Vec<Breakpoint>,
    pub started: bool,
    pub stop_time: Option<u64>,
    pub wiring: Wiring,
}

/// A sample-player voice: one buffer source feeding one gain stage, as data.
#[derive(Clone, Debug, PartialEq, Eq)]
pub struct Sampler {
    pub loop_on: bool,
    pub loop_start: u64,
    pub loop_end: u64,
    pub start: Option<StartAt>,
    pub stop_time: Option<u64>,
    pub gain_curve: Vec<Breakpoint>,
    pub wiring: Wiring,
}

/// How the wiring field must end up after the filter chain is built.
pub open spec fn wired_for(m: NoteMessage) -> Wiring {
    if has_filter(m) {
        Wiring::Filtered(chosen_kind(m))
    } else {
        Wiring::Direct
    }
}

impl Synth {
    /// A fresh tone voice with the oscillator defaults: 440 Hz sine, nothing
    /// scheduled, nothing wired.
    pub fn new() -> (s: Synth)
        ensures
            s.frequency == 440_000_000,
            s.waveform == Waveform::Sine,
            s.gain_curve@ == Seq::<Breakpoint>::empty(),
            !s.started,
            s.stop_time is None,
            s.wiring == Wiring::Unwired,
    {
        Synth {
            frequency: 440_000_000,
            waveform: Waveform::Sine,
            gain_curve: Vec::new(),
            started: false,
            stop_time: None,
            wiring: Wiring::Unwired,
        }
    }

    /// Retune the oscillator (microhertz).
    pub fn set_frequency(&mut self, frequency: u64)
        ensures
            *final(self) == (Synth { frequency, ..*old(self) }),
    {
        self.frequency = frequency;
    }

    /// Select the waveform by name. The four known names pick their
    /// waveform; an unsupported name is not an error and leaves the current
    /// waveform unchanged.
    pub fn set_waveform(&mut self, waveform: &str)
        ensures
            *final(self) == (Synth {
                waveform: parse_waveform(waveform@, old(self).waveform),
                ..*old(self)
            }),
    {
        if str_eq(waveform, "sine") {
            self.waveform = Waveform::Sine;
        } else if str_eq(waveform, "square") {
            self.waveform = Waveform::Square;
        } else if str_eq(waveform, "triangle") {
            self.waveform = Waveform::Triangle;
        } else if str_eq(waveform, "saw") || str_eq(waveform, "sawtooth") {
            self.waveform = Waveform::Sawtooth;
        }
    }
}

impl WebAudioInstrument for Synth {
    open spec fn adsr_pre(self, t: int, adsr: ADSR, velocity: int, duration: int) -> bool {
        tone_adsr_pre(t, adsr, velocity, duration)
    }

    open spec fn adsr_post(self, post: Synth, t: int, adsr: ADSR, velocity: int, duration: int) -> bool {
        &&& post.gain_curve@ == tone_gain_curve(t, adsr, velocity, duration)
        &&& post == (Synth { gain_curve: post.gain_curve, ..self })
    }

    open spec fn play_pre(self, t: int, message: NoteMessage, extent: int) -> bool {
        t + message.duration + extent <= u64::MAX
    }

    open spec fn play_post(self, post: Synth, t: int, message: NoteMessage, extent: int) -> bool {
        post == (Synth {
            started: true,
            stop_time: Some((t + message.duration + extent) as u64),
            ..self
        })
    }

    open spec fn filters_post(self, post: Synth, message: NoteMessage, filters: Seq<FilterStage>) -> bool {
        &&& filter_chain_matches(message, filters)
        &&& post == (Synth { wiring: wired_for(message), ..self })
    }

    fn set_adsr(&mut self, t: u64, adsr: &ADSR, velocity: u64, duration: u64) {
        let attack = adsr.attack.unwrap_or(1_000);
        let decay = adsr.decay.unwrap_or(50_000);
        let sustain = adsr.sustain.unwrap_or(600_000);
        let release = adsr.release.unwrap_or(10_000);
        proof {
            lemma_level_bounded(sustain as int, 100, velocity as int);
        }
        let raw: u64 = (sustain + 100) * velocity / 1_000_000;
        // an exponential ramp cannot reach exactly zero
        let level: u64 = if raw < 1 {
            1
        } else {
            raw
        };
        let mut curve: Vec<Breakpoint> = Vec::new();
        curve.push(Breakpoint { time: t, value: 0, curve: CurveKind::SetValue });
        curve.push(Breakpoint { time: t + attack, value: velocity, curve: CurveKind::Linear });
        curve.push(
            Breakpoint { time: t + attack + decay, value: level, curve: CurveKind::Exponential },
        );
        curve.push(
            Breakpoint { time: t + duration + release, value: 1, curve: CurveKind::Exponential },
        );
        proof {
            assert(curve@ =~= tone_gain_curve(t as int, *adsr, velocity as int, duration as int));
        }
        self.gain_curve = curve;
    }

    fn play(&mut self, t: u64, message: &NoteMessage, extent: u64) {
        self.started = true;
        self.stop_time = Some(t + message.duration + extent);
    }

    fn set_filters(&mut self, message: &NoteMessage) -> (filters: Vec<FilterStage>) {
        let filters = build_filter_chain(message);
        if filters.len() > 0 {
            self.wiring = Wiring::Filtered(filters[0].kind);
        } else {
            self.wiring = Wiring::Direct;
        }
        filters
    }
}

/// How the sample player reacts to `play`: the loop branch wins whenever
/// looping is requested; otherwise a negative speed plays in reverse from
/// the buffer's end with a fixed 0.2 s tail, and forward playback starts at
/// the `begin` fraction of the buffer and stops one release after the
/// duration.
pub open spec fn sampler_play_post(
    pre: Sampler,
    post: Sampler,
    t: int,
    m: NoteMessage,
    buffer_duration: int,
) -> bool {
    let release = opt_u64(m.adsr.release, 10_000);
    if m.looper.is_loop > 0 {
        post == (Sampler {
            loop_on: true,
            loop_start: m.looper.loop_start,
            loop_end: m.looper.loop_end,
            start: Some(StartAt { time: t as u64, offset: m.looper.loop_start }),
            stop_time: Some((t + m.duration + release) as u64),
            ..pre
        })
    } else if m.speed < 0 {
        post == (Sampler {
            start: Some(StartAt { time: t as u64, offset: buffer_duration as u64 }),
            stop_time: Some((t + m.duration + 200_000) as u64),
            ..pre
        })
    } else {
        post == (Sampler {
            start: Some(
                StartAt {
                    time: t as u64,
                    offset: (m.begin * buffer_duration / (MICRO as int)) as u64,
                },
            ),
            stop_time: Some((t + m.duration + release) as u64),
            ..pre
        })
    }
}

/// What the sample player demands before playback is scheduled.
pub open spec fn sampler_play_pre(t: int, m: NoteMessage, buffer_duration: int) -> bool {
    &&& m.begin <= MICRO
    &&& t + m.duration + opt_u64(m.adsr.release, 10_000) <= u64::MAX
    &&& t + m.duration + 200_000 <= u64::MAX
}

impl Sampler {
    /// A fresh sample voice: no loop, nothing scheduled, nothing wired.
    pub fn new() -> (s: Sampler)
        ensures
            !s.loop_on,
            s.loop_start == 0,
            s.loop_end == 0,
            s.start is None,
            s.stop_time is None,
            s.gain_curve@ == Seq::<Breakpoint>::empty(),
            s.wiring == Wiring::Unwired,
    {
        Sampler {
            loop_on: false,
            loop_start: 0,
            loop_end: 0,
            start: None,
            stop_time: None,
            gain_curve: Vec::new(),
            wiring: Wiring::Unwired,
        }
    }
}

impl WebAudioInstrument for Sampler {
    open spec fn adsr_pre(self, t: int, adsr: ADSR, velocity: int, duration: int) -> bool {
        sample_adsr_pre(t, adsr, velocity, duration)
    }

    open spec fn adsr_post(self, post: Sampler, t: int, adsr: ADSR, velocity: int, duration: int) -> bool {
        &&& post.gain_curve@ == sample_gain_curve(t, adsr, velocity, duration)
        &&& post == (Sampler { gain_curve: post.gain_curve, ..self })
    }

    open spec fn play_pre(self, t: int, message: NoteMessage, extent: int) -> bool {
        sampler_play_pre(t, message, extent)
    }

    open spec fn play_post(self, post: Sampler, t: int, message: NoteMessage, extent: int) -> bool {
        sampler_play_post(self, post, t, message, extent)
    }

    open spec fn filters_post(self, post: Sampler, message: NoteMessage, filters: Seq<FilterStage>) -> bool {
        &&& filter_chain_matches(message, filters)
        &&& post == (Sampler { wiring: wired_for(message), ..self })
    }

    fn set_adsr(&mut self, t: u64, adsr: &ADSR, velocity: u64, duration: u64) {
        let attack = adsr.attack.unwrap_or(1_000);
        let decay = adsr.decay.unwrap_or(1_000);
        let sustain = adsr.sustain.unwrap_or(1_000_000);
        let release = adsr.release.unwrap_or(10_000);
        proof {
            lemma_level_bounded(sustain as int, 10, velocity as int);
        }
        let level: u64 = (sustain + 10) * velocity / 1_000_000;
        let mut curve: Vec<Breakpoint> = Vec::new();
        curve.push(Breakpoint { time: t, value: 0, curve: CurveKind::SetValue });
        curve.push(Breakpoint { time: t + attack, value: velocity, curve: CurveKind::Linear });
        curve.push(
            Breakpoint { time: t + attack + decay, value: level, curve: CurveKind::Linear },
        );
        curve.push(Breakpoint { time: t + duration, value: level, curve: CurveKind::SetValue });
        curve.push(
            Breakpoint { time: t + duration + release, value: 0, curve: CurveKind::Linear },
        );
        proof {
            assert(curve@ =~= sample_gain_curve(t as int, *adsr, velocity as int, duration as int));
        }
        self.gain_curve = curve;
    }

    fn play(&mut self, t: u64, message: &NoteMessage, extent: u64) {
        if message.looper.is_loop > 0 {
            self.loop_on = true;
            self.loop_start = message.looper.loop_start;
            self.loop_end = message.looper.loop_end;
            self.start = Some(StartAt { time: t, offset: message.looper.loop_start });
            self.stop_time = Some(t + message.duration + message.adsr.release.unwrap_or(10_000));
        } else if message.speed < 0 {
            self.start = Some(StartAt { time: t, offset: extent });
            self.stop_time = Some(t + message.duration + 200_000);
        } else {
            proof {
                assert((message.begin as int) * (extent as int) <= (MICRO as int) * (
                extent as int)) by {
                    lemma_mul_inequality(message.begin as int, MICRO as int, extent as int);
                };
                lemma_multiply_divide_le(
                    (message.begin as int) * (extent as int),
                    MICRO as int,
                    extent as int,
                );
            }
            let off: u64 = (((message.begin as u128) * (extent as u128)) / 1_000_000) as u64;
            self.start = Some(StartAt { time: t, offset: off });
            self.stop_time = Some(t + message.duration + message.adsr.release.unwrap_or(10_000));
        }
    }

    fn set_filters(&mut self, message: &NoteMessage) -> (filters: Vec<FilterStage>) {
        let filters = build_filter_chain(message);
        if filters.len() > 0 {
            self.wiring = Wiring::Filtered(filters[0].kind);
        } else {
            self.wiring = Wiring::Direct;
        }
        filters
    }
}

/// All-default tone-generator envelope for velocity `v` and duration `d`:
/// breakpoints at `t`, `t + 0.001`, `t + 0.051` and `t + d + 0.01` with
/// values `0`, `v`, `0.6001 * v` and the exponential floor. Velocities below
/// two millionths are left out: for them `0.6001 * v` quantizes to nothing
/// and the decay target is held at the one-millionth exponential floor
/// instead.
pub proof fn lemma_tone_default_breakpoints(t: int, velocity: int, duration: int)
    requires
        tone_adsr_pre(
            t,
            (ADSR { attack: None, decay: None, sustain: None, release: None }),
            velocity,
            duration,
        ),
        2 <= velocity,
    ensures
        tone_gain_curve(
            t,
            (ADSR { attack: None, decay: None, sustain: None, release: None }),
            velocity,
            duration,
        ) =~= seq![
            (Breakpoint { time: t as u64, value: 0, curve: CurveKind::SetValue }),
            (Breakpoint { time: (t + 1_000) as u64, value: velocity as u64, curve: CurveKind::Linear }),
            (Breakpoint {
                time: (t + 51_000) as u64,
                value: (600_100 * velocity / 1_000_000) as u64,
                curve: CurveKind::Exponential,
            }),
            (Breakpoint { time: (t + duration + 10_000) as u64, value: 1, curve: CurveKind::Exponential }),
        ],
{
}

/// All-default sample-player envelope for velocity `v` and duration `d`:
/// breakpoints at `t`, `t + 0.001`, `t + 0.002`, `t + d` and `t + d + 0.01`
/// with values `0`, `v`, `1.00001 * v` twice, and `0`.
pub proof fn lemma_sample_default_breakpoints(t: int, velocity: int, duration: int)
    requires
        sample_adsr_pre(
            t,
            (ADSR { attack: None, decay: None, sustain: None, release: None }),
            velocity,
            duration,
        ),
    ensures
        sample_gain_curve(
            t,
            (ADSR { attack: None, decay: None, sustain: None, release: None }),
            velocity,
            duration,
        ) =~= seq![
            (Breakpoint { time: t as u64, value: 0, curve: CurveKind::SetValue }),
            (Breakpoint { time: (t + 1_000) as u64, value: velocity as u64, curve: CurveKind::Linear }),
            (Breakpoint {
                time: (t + 2_000) as u64,
                value: (1_000_010 * velocity / 1_000_000) as u64,
                curve: CurveKind::Linear,
            }),
            (Breakpoint {
                time: (t + duration) as u64,
                value: (1_000_010 * velocity / 1_000_000) as u64,
                curve: CurveKind::SetValue,
            }),
            (Breakpoint { time: (t + duration + 10_000) as u64, value: 0, curve: CurveKind::Linear }),
        ],
{
}

/// Loop precedence: when looping is requested the loop branch wins, even for
/// a negative speed. Playback starts at the loop's start offset and stops
/// one release after the duration — never with the reverse-playback offset
/// or its fixed tail.
/// An exponential ramp is never asked to reach exactly zero: every
/// exponential breakpoint of the tone envelope targets a strictly positive
/// value, whatever the velocity. The release target is the fixed 0.000001
/// floor, and the decay target is floored at the same one millionth.
/// (The sample player's envelope schedules no exponential ramps at all.)
pub proof fn lemma_exponential_targets_positive(t: int, adsr: ADSR, velocity: int, duration: int)
    requires
        tone_adsr_pre(t, adsr, velocity, duration),
    ensures
        forall|i: int|
            0 <= i < tone_gain_curve(t, adsr, velocity, duration).len() && tone_gain_curve(
                t,
                adsr,
                velocity,
                duration,
            )[i].curve == CurveKind::Exponential ==> tone_gain_curve(
                t,
                adsr,
                velocity,
                duration,
            )[i].value > 0,
{
    let c = tone_gain_curve(t, adsr, velocity, duration);
    lemma_level_bounded(opt_u64(adsr.sustain, 600_000), 100, velocity);
    assert(c[2].value > 0);
    assert(c[3].value > 0);
    assert forall|i: int|
        0 <= i < c.len() && c[i].curve == CurveKind::Exponential implies c[i].value > 0 by {
        assert(i == 0 || i == 1 || i == 2 || i == 3);
    };
}

pub proof fn lemma_loop_precedence(
    pre: Sampler,
    post: Sampler,
    t: int,
    m: NoteMessage,
    buffer_duration: int,
)
    requires
        sampler_play_post(pre, post, t, m, buffer_duration),
        m.looper.is_loop > 0,
    ensures
        post.loop_on,
        post.start == Some((StartAt { time: t as u64, offset: m.looper.loop_start })),
        post.stop_time == Some(((t + m.duration + opt_u64(m.adsr.release, 10_000)) as u64)),
{
}

} // verus!
