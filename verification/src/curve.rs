use vstd::prelude::*;

verus! {

/// One whole unit in the fixed-point scale: ratios, gains and playback
/// fractions count in millionths, times in microseconds, frequencies in
/// microhertz, filter-sweep depths in micro-octaves.
pub const MICRO: u64 = 1_000_000;

/// Upper clamp for every scheduled filter frequency: 20000 Hz in microhertz.
pub const FREQ_CLAMP_UHZ: u64 = 20_000_000_000;

/// Machine headroom for sustain ratios. Sustain is semantically a relative
/// level in [0, 1] but is deliberately not clamped; this cap (a millionfold
/// ratio) only keeps the fixed-point products inside 64 bits.
pub const SUSTAIN_CAP: u64 = 1_000_000_000_000;

/// How a scheduled automation target is approached from the previous
/// breakpoint: jump there, ramp linearly, or ramp exponentially.
#[derive(Clone, Copy, Debug, PartialEq, Eq, Structural)]
pub enum CurveKind {
    SetValue,
    Linear,
    Exponential,
}

/// One scheduled automation target: at `time` (microseconds on the shared
/// clock) the automated parameter reaches `value`, approached per `curve`.
#[derive(Clone, Copy, Debug, PartialEq, Eq, Structural)]
pub struct Breakpoint {
    pub time: u64,
    pub value: u64,
    pub curve: CurveKind,
}

} // verus!
