//! A verified scheduling core for a one-voice-per-note audio engine.
//!
//! A note event turns into a fully scheduled voice: an amplitude envelope on
//! the gain stage, at most one filter stage with its own frequency envelope,
//! and start/stop timing for either a tone generator or a sample player.
//! All quantities are fixed-point integers: times in microseconds, ratios and
//! gains in millionths, frequencies in microhertz, filter-sweep depths in
//! micro-octaves. The surrounding (unverified) audio front end converts these
//! plans into real-time automation calls.

pub mod curve;
pub mod engine;
pub mod filters;
pub mod freqmath;
pub mod loggerbridge;
pub mod message;
pub mod voice;

pub use curve::Breakpoint;
pub use curve::CurveKind;
pub use engine::schedule_sample_voice;
pub use engine::schedule_tone_voice;
pub use filters::FilterStage;
pub use filters::FilterType;
pub use message::MessageError;
pub use message::NoteMessage;
pub use voice::Sampler;
pub use voice::Synth;
pub use voice::Waveform;
pub use voice::WebAudioInstrument;
