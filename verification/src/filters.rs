use vstd::prelude::*;
use vstd::arithmetic::div_mod::lemma_div_by_multiple;
use vstd::arithmetic::div_mod::lemma_div_is_ordered;
use vstd::arithmetic::div_mod::lemma_div_pos_is_pos;
use vstd::arithmetic::div_mod::lemma_fundamental_div_mod;
use crate::curve::Breakpoint;
use crate::curve::CurveKind;
use crate::curve::FREQ_CLAMP_UHZ;
use crate::curve::SUSTAIN_CAP;
use crate::freqmath::spec_scale_pow2;
use crate::freqmath::scale_pow2;
use crate::message::FilterADSR;
use crate::message::NoteMessage;
use crate::message::opt_i64;
use crate::message::opt_u64;

verus! {

/// The shape of a biquad filter stage. A voice only ever builds the first
/// three, but the frequency-envelope scheduler accepts any shape and falls
/// back to the lowpass envelope with a fixed base for the others.
#[derive(Clone, Copy, Debug, PartialEq, Eq, Structural)]
pub enum FilterType {
    Lowpass,
    Highpass,
    Bandpass,
    Notch,
    Allpass,
    Peaking,
    Lowshelf,
    Highshelf,
}

/// One built filter stage: its shape, resting frequency (microhertz),
/// resonance (millionths), and the frequency-automation curve scheduled on
/// it. At most one stage exists per voice, wired between the sound source
/// and the gain stage.
#[derive(Clone, Debug, PartialEq, Eq)]
pub struct FilterStage {
    pub kind: FilterType,
    pub frequency: u64,
    pub resonance: u64,
    pub freq_curve: Vec<Breakpoint>,
}

/// Whether any filter kind qualifies: a kind qualifies when its requested
/// frequency is positive.
pub open spec fn has_filter(m: NoteMessage) -> bool {
    m.bpf.frequency > 0 || m.lpf.frequency > 0 || m.hpf.frequency > 0
}

/// Which single filter kind wins, by the fixed priority
/// bandpass > lowpass > highpass among qualifying kinds.
pub open spec fn chosen_kind(m: NoteMessage) -> FilterType {
    if m.bpf.frequency > 0 {
        FilterType::Bandpass
    } else if m.lpf.frequency > 0 {
        FilterType::Lowpass
    } else {
        FilterType::Highpass
    }
}

/// The resting frequency the chosen filter is configured with.
pub open spec fn chosen_frequency(m: NoteMessage) -> u64 {
    if m.bpf.frequency > 0 {
        m.bpf.frequency
    } else if m.lpf.frequency > 0 {
        m.lpf.frequency
    } else {
        m.hpf.frequency
    }
}

/// The resonance (Q) the chosen filter is configured with.
pub open spec fn chosen_resonance(m: NoteMessage) -> u64 {
    if m.bpf.frequency > 0 {
        m.bpf.resonance
    } else if m.lpf.frequency > 0 {
        m.lpf.resonance
    } else {
        m.hpf.resonance
    }
}

/// What a built filter list must look like for a message: exactly one stage,
/// configured for the winning kind and with no automation scheduled yet, when
/// some kind qualifies; no stage at all otherwise.
pub open spec fn filter_chain_matches(m: NoteMessage, filters: Seq<FilterStage>) -> bool {
    if has_filter(m) {
        &&& filters.len() == 1
        &&& filters[0].kind == chosen_kind(m)
        &&& filters[0].frequency == chosen_frequency(m)
        &&& filters[0].resonance == chosen_resonance(m)
        &&& filters[0].freq_curve@ == Seq::<Breakpoint>::empty()
    } else {
        filters.len() == 0
    }
}

/// Pick at most one filter by priority and instantiate it. Tests, in order,
/// bandpass, lowpass, highpass; the first kind with a positive frequency wins
/// and only that one stage is ever created.
pub fn build_filter_chain(message: &NoteMessage) -> (filters: Vec<FilterStage>)
    ensures
        filter_chain_matches(*message, filters@),
{
    let mut filters: Vec<FilterStage> = Vec::new();
    if message.bpf.frequency > 0 {
        filters.push(
            FilterStage {
                kind: FilterType::Bandpass,
                frequency: message.bpf.frequency,
                resonance: message.bpf.resonance,
                freq_curve: Vec::new(),
            },
        );
    } else if message.lpf.frequency > 0 {
        filters.push(
            FilterStage {
                kind: FilterType::Lowpass,
                frequency: message.lpf.frequency,
                resonance: message.lpf.resonance,
                freq_curve: Vec::new(),
            },
        );
    } else if message.hpf.frequency > 0 {
        filters.push(
            FilterStage {
                kind: FilterType::Highpass,
                frequency: message.hpf.frequency,
                resonance: message.hpf.resonance,
                freq_curve: Vec::new(),
            },
        );
    }
    filters
}

/// Bandpass wins over every other qualifying kind: whenever a bandpass
/// frequency is requested, the bandpass stage is selected and no lowpass or
/// highpass stage is ever built.
pub proof fn lemma_filter_priority(m: NoteMessage, filters: Seq<FilterStage>)
    requires
        filter_chain_matches(m, filters),
        m.bpf.frequency > 0,
    ensures
        filters.len() == 1,
        filters[0].kind == FilterType::Bandpass,
        forall|i: int|
            0 <= i < filters.len() ==> filters[i].kind != FilterType::Lowpass && filters[i].kind
                != FilterType::Highpass,
{
}

/// When no kind qualifies, no filter exists at all and the source is wired
/// straight to the gain stage.
pub proof fn lemma_no_filter_when_silent(m: NoteMessage, filters: Seq<FilterStage>)
    requires
        filter_chain_matches(m, filters),
        m.bpf.frequency == 0,
        m.lpf.frequency == 0,
        m.hpf.frequency == 0,
    ensures
        filters.len() == 0,
{
}

/// What a fully scheduled filter list must look like: as in
/// `filter_chain_matches`, but with the frequency sweep already scheduled on
/// the single stage.
pub open spec fn filter_chain_scheduled(m: NoteMessage, filters: Seq<FilterStage>, now: int) -> bool {
    if has_filter(m) {
        &&& filters.len() == 1
        &&& filters[0].kind == chosen_kind(m)
        &&& filters[0].frequency == chosen_frequency(m)
        &&& filters[0].resonance == chosen_resonance(m)
        &&& filters[0].freq_curve@ == spec_filter_curve(m, chosen_kind(m), now)
    } else {
        filters.len() == 0
    }
}

/// The envelope parameters the scheduler reads for a filter shape: each of
/// the three buildable kinds has its own envelope; any other shape falls back
/// to the lowpass envelope.
pub open spec fn filter_envelope_of(m: NoteMessage, f: FilterType) -> FilterADSR {
    match f {
        FilterType::Lowpass => m.lpenv,
        FilterType::Highpass => m.hpenv,
        FilterType::Bandpass => m.bpenv,
        _ => m.lpenv,
    }
}

/// The base (resting) frequency the sweep is computed around: the requested
/// frequency of the matching kind, or a fixed 8000 Hz for any other shape.
pub open spec fn filter_base_of(m: NoteMessage, f: FilterType) -> u64 {
    match f {
        FilterType::Lowpass => m.lpf.frequency,
        FilterType::Highpass => m.hpf.frequency,
        FilterType::Bandpass => m.bpf.frequency,
        _ => 8_000_000_000,
    }
}

/// Half of the sweep depth, rounded toward zero, exactly as the fixed-point
/// scheduler computes it.
pub open spec fn half_toward_zero(x: int) -> int {
    if x >= 0 {
        x / 2
    } else {
        -((-x) / 2)
    }
}

/// The sustain level of the sweep: `min + sustain * (max - min)`, in
/// millionths, floored at zero when an oversized sustain ratio would push a
/// downward sweep below zero.
pub open spec fn spec_sustain_level(fmin: int, fmax: int, sustain: int) -> int {
    if fmax >= fmin {
        fmin + sustain * (fmax - fmin) / 1_000_000
    } else {
        let down = sustain * (fmin - fmax) / 1_000_000;
        if fmin >= down {
            fmin - down
        } else {
            0
        }
    }
}

/// The lower end of the sweep: the base scaled down by half the depth.
pub open spec fn spec_filter_min(m: NoteMessage, f: FilterType) -> int {
    let depth = opt_i64(filter_envelope_of(m, f).env, 1_000_000);
    spec_scale_pow2(filter_base_of(m, f) as int, -half_toward_zero(depth))
}

/// The upper end of the sweep: the base scaled up by the rest of the depth.
pub open spec fn spec_filter_max(m: NoteMessage, f: FilterType) -> int {
    let depth = opt_i64(filter_envelope_of(m, f).env, 1_000_000);
    spec_scale_pow2(filter_base_of(m, f) as int, depth - half_toward_zero(depth))
}

/// The whole frequency-automation curve the scheduler issues: sweep bottom at
/// `now`, peak after the attack, sustain level after the decay, and back to
/// the bottom one release after the note's duration.
pub open spec fn spec_filter_curve(m: NoteMessage, f: FilterType, now: int) -> Seq<Breakpoint> {
    let env = filter_envelope_of(m, f);
    let fmin = spec_filter_min(m, f);
    let fmax = spec_filter_max(m, f);
    let level = spec_sustain_level(fmin, fmax, opt_u64(env.sustain, 1_000_000));
    let attack = opt_u64(env.attack, 10_000);
    let decay = opt_u64(env.decay, 10_000);
    let release = opt_u64(env.release, 10_000);
    seq![
        Breakpoint { time: now as u64, value: fmin as u64, curve: CurveKind::SetValue },
        Breakpoint {
            time: (now + attack) as u64,
            value: fmax as u64,
            curve: CurveKind::Linear,
        },
        Breakpoint {
            time: (now + attack + decay) as u64,
            value: level as u64,
            curve: CurveKind::Linear,
        },
        Breakpoint {
            time: (now + m.duration + release) as u64,
            value: fmin as u64,
            curve: CurveKind::Linear,
        },
    ]
}

/// The sustain swing stays inside 64 bits: a capped sustain ratio times a
/// clamped frequency difference, scaled back to millionths, is at most
/// 2 * 10^16.
proof fn lemma_swing_bounded(sustain: int, diff: int)
    requires
        0 <= sustain <= SUSTAIN_CAP,
        0 <= diff <= FREQ_CLAMP_UHZ,
    ensures
        0 <= sustain * diff <= 1_000_000_000_000 * 20_000_000_000,
        0 <= sustain * diff / 1_000_000 <= 20_000_000_000_000_000,
{
    assert(0 <= sustain * diff <= 1_000_000_000_000 * 20_000_000_000) by (nonlinear_arith)
        requires
            0 <= sustain <= 1_000_000_000_000,
            0 <= diff <= 20_000_000_000,
    ;
    lemma_div_is_ordered(sustain * diff, (1_000_000_000_000 * 20_000_000_000) as int, 1_000_000);
    lemma_div_pos_is_pos(sustain * diff, 1_000_000);
}

/// What the envelope scheduler demands of its caller: breakpoint times must
/// fit the clock and the sustain ratio must stay inside its headroom.
pub open spec fn filter_adsr_pre(m: NoteMessage, f: FilterType, now: int) -> bool {
    let env = filter_envelope_of(m, f);
    &&& now + opt_u64(env.attack, 10_000) + opt_u64(env.decay, 10_000) <= u64::MAX
    &&& now + m.duration + opt_u64(env.release, 10_000) <= u64::MAX
    &&& opt_u64(env.sustain, 1_000_000) <= SUSTAIN_CAP
}

/// Schedule the frequency-sweep curve on a built filter stage. Selects the
/// envelope and base frequency by the filter's shape, computes the clamped
/// sweep bounds symmetrically in octaves around the base, and replaces the
/// stage's automation curve with the four-breakpoint sweep.
pub fn apply_filter_adsr(
    filter_node: &mut FilterStage,
    message: &NoteMessage,
    filter: &FilterType,
    now: u64,
)
    requires
        filter_adsr_pre(*message, *filter, now as int),
    ensures
        final(filter_node).kind == old(filter_node).kind,
        final(filter_node).frequency == old(filter_node).frequency,
        final(filter_node).resonance == old(filter_node).resonance,
        final(filter_node).freq_curve@ == spec_filter_curve(*message, *filter, now as int),
{
    let env: FilterADSR = match *filter {
        FilterType::Lowpass => message.lpenv,
        FilterType::Highpass => message.hpenv,
        FilterType::Bandpass => message.bpenv,
        _ => message.lpenv,
    };
    let freq: u64 = match *filter {
        FilterType::Lowpass => message.lpf.frequency,
        FilterType::Highpass => message.hpf.frequency,
        FilterType::Bandpass => message.bpf.frequency,
        _ => 8_000_000_000,
    };
    let depth: i64 = env.env.unwrap_or(1_000_000);
    let depth_mag: u64 = if depth >= 0 {
        depth as u64
    } else {
        ((-(depth + 1)) as u64) + 1
    };
    let offset: i64 = if depth >= 0 {
        (depth_mag / 2) as i64
    } else {
        -((depth_mag / 2) as i64)
    };
    proof {
        assert(offset as int == half_toward_zero(depth as int));
    }
    let fmin: u64 = scale_pow2(freq, -offset);
    let fmax: u64 = scale_pow2(freq, depth - offset);
    let sustain: u64 = env.sustain.unwrap_or(1_000_000);
    let level: u64 = if fmax >= fmin {
        let diff: u64 = fmax - fmin;
        proof {
            lemma_swing_bounded(sustain as int, diff as int);
        }
        let up: u64 = (((sustain as u128) * (diff as u128)) / 1_000_000) as u64;
        fmin + up
    } else {
        let diff: u64 = fmin - fmax;
        proof {
            lemma_swing_bounded(sustain as int, diff as int);
        }
        let down: u64 = (((sustain as u128) * (diff as u128)) / 1_000_000) as u64;
        if fmin >= down {
            fmin - down
        } else {
            0
        }
    };
    let attack: u64 = env.attack.unwrap_or(10_000);
    let decay: u64 = env.decay.unwrap_or(10_000);
    let release: u64 = env.release.unwrap_or(10_000);
    let mut sweep: Vec<Breakpoint> = Vec::new();
    sweep.push(Breakpoint { time: now, value: fmin, curve: CurveKind::SetValue });
    sweep.push(Breakpoint { time: now + attack, value: fmax, curve: CurveKind::Linear });
    sweep.push(
        Breakpoint { time: now + attack + decay, value: level, curve: CurveKind::Linear },
    );
    sweep.push(
        Breakpoint {
            time: now + message.duration + release,
            value: fmin,
            curve: CurveKind::Linear,
        },
    );
    proof {
        assert(sweep@ =~= spec_filter_curve(*message, *filter, now as int));
    }
    filter_node.freq_curve = sweep;
}

/// An even sweep depth splits exactly in half, so the sweep's two exponents
/// are mirror images: the base frequency sits midway in log-frequency between
/// the sweep's bottom and top.
pub proof fn lemma_sweep_symmetric(depth: int)
    requires
        depth % 2 == 0,
    ensures
        depth - half_toward_zero(depth) == -(-half_toward_zero(depth)),
        half_toward_zero(depth) == depth / 2,
{
    lemma_fundamental_div_mod(depth, 2);
    assert(depth == 2 * (depth / 2));
    if depth < 0 {
        lemma_div_by_multiple(-(depth / 2), 2);
        assert(-depth == (-(depth / 2)) * 2);
    }
}

/// Every computed sweep frequency respects the audible ceiling: whatever the
/// base and exponent, the scaled result never exceeds 20000 Hz.
pub proof fn lemma_sweep_clamped(freq: int, exp: int)
    ensures
        spec_scale_pow2(freq, exp) <= FREQ_CLAMP_UHZ as int,
        freq <= 0 ==> spec_scale_pow2(freq, exp) == 0,
{
}

} // verus!
