//! The sensitivity tracker: a monotonic decay model of "speaking" intensity.
//!
//! Sensitivity lives on a 0..1 scale carried in thousandths, so that the
//! decay arithmetic is exact integer arithmetic.  A block whose magnitude
//! exceeds the configured threshold snaps the signal to full scale (instant
//! attack); every other block lets it fall linearly at three full units per
//! second of elapsed time (linear release), never below zero.

use vstd::prelude::*;
use crate::audio::analyzer::BAND_HIGH_HZ;
use crate::audio::analyzer::BAND_LOW_HZ;
use crate::audio::analyzer::bin_range;
use crate::audio::analyzer::block_magnitude;
use crate::audio::analyzer::spec_block_magnitude;
use crate::config::AudioConfig;
use crate::config::DEFAULT_MAGNITUDE_THRESHOLD;
use crate::config::DEFAULT_MAX_MAGNITUDE;
use crate::message::Message;

verus! {

/// Full scale of the speaking signal, in thousandths.
pub const SENSITIVITY_SCALE: u32 = 1000;

/// Linear release rate: three full units per second is three thousandths per
/// millisecond.
pub const DECAY_PER_MS: u64 = 3;

/// The rolling state of the tracker.  It is owned by the audio callback and
/// mutated only there; consumers observe it exclusively through the emitted
/// messages.
#[derive(Clone, Copy, Debug, PartialEq, Eq, Structural)]
pub struct SensitivityState {
    /// When the previous block was processed, in milliseconds of the
    /// session's monotonic clock.
    pub last_time_ms: u64,
    /// The current speaking signal, in thousandths of full scale.
    pub current_sensitivity: u32,
    /// The value most recently announced in a `SensitivityChanged` message;
    /// repeated identical values are not re-announced.
    pub last_reported_sensitivity: u32,
}

impl SensitivityState {
    /// Both signals stay on the 0..1 scale.
    pub open spec fn wf(&self) -> bool {
        &&& self.current_sensitivity <= SENSITIVITY_SCALE
        &&& self.last_reported_sensitivity <= SENSITIVITY_SCALE
    }

    pub fn new(now_ms: u64) -> (r: Self)
        ensures
            r == (SensitivityState {
                last_time_ms: now_ms,
                current_sensitivity: 0,
                last_reported_sensitivity: 0,
            }),
            r.wf(),
    {
        Self { last_time_ms: now_ms, current_sensitivity: 0, last_reported_sensitivity: 0 }
    }
}

/// The signal after one magnitude sample: full scale on a block above the
/// threshold, otherwise the old value lowered by the elapsed decay and
/// floored at zero.
pub open spec fn spec_next_sensitivity(
    current: u32,
    magnitude: i32,
    delta_ms: u64,
    config: AudioConfig,
) -> int {
    if magnitude > config.magnitude_threshold {
        SENSITIVITY_SCALE as int
    } else if DECAY_PER_MS * delta_ms >= current {
        0
    } else {
        current - DECAY_PER_MS * delta_ms
    }
}

/// The whole tracker state after one sample: the signal moves as
/// `spec_next_sensitivity` says, the clock advances, and the reported value
/// catches up with the signal (either it already equalled it, or a message
/// announces it now).
pub open spec fn spec_step(
    s: SensitivityState,
    magnitude: i32,
    now_ms: u64,
    config: AudioConfig,
) -> SensitivityState {
    let next = spec_next_sensitivity(
        s.current_sensitivity,
        magnitude,
        (now_ms - s.last_time_ms) as u64,
        config,
    );
    SensitivityState {
        last_time_ms: now_ms,
        current_sensitivity: next as u32,
        last_reported_sensitivity: next as u32,
    }
}

/// Whether one sample makes the tracker announce a `SensitivityChanged`
/// message: exactly when the new signal differs from the last reported one.
pub open spec fn spec_reports(
    s: SensitivityState,
    magnitude: i32,
    now_ms: u64,
    config: AudioConfig,
) -> bool {
    spec_next_sensitivity(
        s.current_sensitivity,
        magnitude,
        (now_ms - s.last_time_ms) as u64,
        config,
    ) != s.last_reported_sensitivity
}

impl SensitivityState {
    /// Feeds one magnitude sample taken at `now_ms`.  Returns the messages to
    /// put on the bus, in order: a `MagnitudeChanged` for every block, then a
    /// `SensitivityChanged` exactly when the new signal differs from the last
    /// reported one.
    pub fn process(&mut self, magnitude: i32, now_ms: u64, config: &AudioConfig) -> (msgs: Vec<
        Message,
    >)
        requires
            old(self).wf(),
            old(self).last_time_ms <= now_ms,
        ensures
            final(self).wf(),
            *final(self) == spec_step(*old(self), magnitude, now_ms, *config),
            magnitude > config.magnitude_threshold ==> final(self).current_sensitivity
                == SENSITIVITY_SCALE,
            magnitude <= config.magnitude_threshold ==> final(self).current_sensitivity
                == spec_next_sensitivity(
                old(self).current_sensitivity,
                magnitude,
                (now_ms - old(self).last_time_ms) as u64,
                *config,
            ),
            msgs@.len() == if spec_reports(*old(self), magnitude, now_ms, *config) {
                2int
            } else {
                1int
            },
            msgs@[0] == Message::MagnitudeChanged(magnitude),
            spec_reports(*old(self), magnitude, now_ms, *config) ==> msgs@[1]
                == Message::SensitivityChanged(final(self).current_sensitivity),
    {
        let delta_ms = now_ms - self.last_time_ms;
        self.last_time_ms = now_ms;
        let next: u32 = if magnitude > config.magnitude_threshold {
            SENSITIVITY_SCALE
        } else {
            let decay: u64 = if delta_ms > 1000 {
                3000
            } else {
                DECAY_PER_MS * delta_ms
            };
            if decay >= self.current_sensitivity as u64 {
                0
            } else {
                self.current_sensitivity - (decay as u32)
            }
        };
        self.current_sensitivity = next;
        let mut msgs: Vec<Message> = Vec::new();
        msgs.push(Message::MagnitudeChanged(magnitude));
        if next != self.last_reported_sensitivity {
            msgs.push(Message::SensitivityChanged(next));
            self.last_reported_sensitivity = next;
        }
        msgs
    }
}

/// The whole per-block pipeline downstream of the Fourier transform: restrict
/// the bins to the audible band, reduce them to one clamped magnitude, and
/// feed that magnitude to the tracker.  `bins` holds, for every frequency bin
/// of the transformed block, the integer floor of the bin's amplitude.
pub fn process_block(
    state: &mut SensitivityState,
    bins: &Vec<i32>,
    sample_rate: u32,
    now_ms: u64,
    config: &AudioConfig,
) -> (msgs: Vec<Message>)
    requires
        old(state).wf(),
        old(state).last_time_ms <= now_ms,
        sample_rate > 0,
        bins@.len() * BAND_HIGH_HZ <= usize::MAX,
        forall|i: int| 0 <= i < bins@.len() ==> 0 <= #[trigger] bins@[i] < i32::MAX,
        0 <= config.max_magnitude,
    ensures
        final(state).wf(),
        ({
            let m = spec_block_magnitude(
                bins@,
                bins@.len() * BAND_LOW_HZ / sample_rate as int,
                bins@.len() * BAND_HIGH_HZ / sample_rate as int,
                config.max_magnitude as int,
            );
            &&& *final(state) == spec_step(*old(state), m as i32, now_ms, *config)
            &&& msgs@.len() == if spec_reports(*old(state), m as i32, now_ms, *config) {
                2int
            } else {
                1int
            }
            &&& msgs@[0] == Message::MagnitudeChanged(m as i32)
            &&& spec_reports(*old(state), m as i32, now_ms, *config) ==> msgs@[1]
                == Message::SensitivityChanged(final(state).current_sensitivity)
        }),
{
    let (start, end) = bin_range(bins.len(), sample_rate);
    let magnitude = block_magnitude(bins, start, end, config.max_magnitude);
    state.process(magnitude, now_ms, config)
}

/// Feeding the same magnitude again with no elapsed time never announces a
/// second `SensitivityChanged`: after one sample the reported value equals
/// the signal, and a zero delta leaves the signal where it is.  (The
/// unconditional `MagnitudeChanged` is still emitted for both samples, as
/// `process` ensures.)
pub proof fn lemma_repeat_sample_not_reported(
    s: SensitivityState,
    magnitude: i32,
    now_ms: u64,
    config: AudioConfig,
)
    requires
        s.wf(),
        s.last_time_ms <= now_ms,
    ensures
        !spec_reports(spec_step(s, magnitude, now_ms, config), magnitude, now_ms, config),
{
}

/// The default configuration and an explicitly written configuration with the
/// same two values drive the tracker and the analyzer identically.
pub proof fn lemma_default_config_same_behaviour(
    explicit: AudioConfig,
    s: SensitivityState,
    magnitude: i32,
    now_ms: u64,
    bins: Seq<i32>,
    start: int,
    end: int,
)
    requires
        explicit.magnitude_threshold == DEFAULT_MAGNITUDE_THRESHOLD,
        explicit.max_magnitude == DEFAULT_MAX_MAGNITUDE,
    ensures
        ({
            let implicit = AudioConfig {
                magnitude_threshold: DEFAULT_MAGNITUDE_THRESHOLD,
                max_magnitude: DEFAULT_MAX_MAGNITUDE,
            };
            &&& spec_step(s, magnitude, now_ms, explicit) == spec_step(
                s,
                magnitude,
                now_ms,
                implicit,
            )
            &&& spec_reports(s, magnitude, now_ms, explicit) == spec_reports(
                s,
                magnitude,
                now_ms,
                implicit,
            )
            &&& spec_block_magnitude(bins, start, end, explicit.max_magnitude as int)
                == spec_block_magnitude(bins, start, end, implicit.max_magnitude as int)
        }),
{
}

} // verus!
