use vstd::prelude::*;
use crate::curve::MICRO;

verus! {

/// Wet/feedback parameters of a delay send. Values count in millionths;
/// `delay_time` counts in microseconds. The delay effect itself lives outside
/// this core, which only carries the numbers.
#[derive(Clone, Copy, Debug, PartialEq, Eq, Structural)]
pub struct Delay {
    pub wet: u64,
    pub delay_time: u64,
    pub feedback: u64,
}

/// Loop-mode playback parameters: looping is on when `is_loop > 0`, and the
/// loop runs from `loop_start` to `loop_end` (microseconds into the buffer).
#[derive(Clone, Copy, Debug, PartialEq, Eq, Structural)]
pub struct Loop {
    pub is_loop: u8,
    pub loop_start: u64,
    pub loop_end: u64,
}

/// Lowpass filter request: cutoff in microhertz (0 means "no lowpass"),
/// resonance (Q) in millionths.
#[derive(Clone, Copy, Debug, PartialEq, Eq, Structural)]
pub struct LPF {
    pub frequency: u64,
    pub resonance: u64,
}

/// Highpass filter request: cutoff in microhertz (0 means "no highpass"),
/// resonance (Q) in millionths.
#[derive(Clone, Copy, Debug, PartialEq, Eq, Structural)]
pub struct HPF {
    pub frequency: u64,
    pub resonance: u64,
}

/// Bandpass filter request: center in microhertz (0 means "no bandpass"),
/// resonance (Q) in millionths.
#[derive(Clone, Copy, Debug, PartialEq, Eq, Structural)]
pub struct BPF {
    pub frequency: u64,
    pub resonance: u64,
}

/// Amplitude envelope parameters. Attack, decay and release count in
/// microseconds, sustain in millionths of the peak level. An absent field
/// falls back to a default that depends on the voice kind.
#[derive(Clone, Copy, Debug)]
pub struct ADSR {
    pub attack: Option<u64>,
    pub decay: Option<u64>,
    pub sustain: Option<u64>,
    pub release: Option<u64>,
}

/// Filter-frequency envelope parameters. Attack, decay and release count in
/// microseconds, sustain in millionths, and `env` is the sweep depth in
/// micro-octaves (signed: a negative depth sweeps downward).
#[derive(Clone, Copy, Debug)]
pub struct FilterADSR {
    pub attack: Option<u64>,
    pub decay: Option<u64>,
    pub sustain: Option<u64>,
    pub release: Option<u64>,
    pub env: Option<i64>,
}

/// One validated note event: everything this core needs to schedule a voice.
/// `duration` counts in microseconds and must be positive; `begin` is the
/// starting fraction of the sample buffer in millionths (at most one whole);
/// the sign of `speed` selects forward or reverse sample playback.
#[derive(Clone, Copy, Debug)]
pub struct NoteMessage {
    pub duration: u64,
    pub begin: u64,
    pub speed: i64,
    pub looper: Loop,
    pub adsr: ADSR,
    pub lpf: LPF,
    pub hpf: HPF,
    pub bpf: BPF,
    pub lpenv: FilterADSR,
    pub hpenv: FilterADSR,
    pub bpenv: FilterADSR,
    pub delay: Delay,
}

/// Why a note message was rejected before any node was wired.
#[derive(Clone, Copy, Debug, PartialEq, Eq, Structural)]
pub enum MessageError {
    InvalidDuration,
    InvalidBegin,
}

/// An optional envelope time or ratio, with its kind-specific default.
pub open spec fn opt_u64(o: Option<u64>, default: int) -> int {
    match o {
        Some(v) => v as int,
        None => default,
    }
}

/// An optional signed sweep depth, with its default.
pub open spec fn opt_i64(o: Option<i64>, default: int) -> int {
    match o {
        Some(v) => v as int,
        None => default,
    }
}

/// The numeric constraints a message must meet before a voice may be built:
/// a positive duration and a begin fraction of at most one whole.
pub open spec fn valid_message(m: NoteMessage) -> bool {
    &&& m.duration > 0
    &&& m.begin <= MICRO
}

/// Reject an out-of-range message before any node is created. Returns `Ok`
/// exactly on valid messages; the duration is checked first.
pub fn validate_message(message: &NoteMessage) -> (r: Result<(), MessageError>)
    ensures
        r is Ok <==> valid_message(*message),
        message.duration == 0 ==> r == Err::<(), MessageError>(MessageError::InvalidDuration),
        message.duration > 0 && message.begin > MICRO ==> r == Err::<(), MessageError>(
            MessageError::InvalidBegin,
        ),
{
    if message.duration == 0 {
        Err(MessageError::InvalidDuration)
    } else if message.begin > MICRO {
        Err(MessageError::InvalidBegin)
    } else {
        Ok(())
    }
}

} // verus!
