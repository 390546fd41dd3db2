use vstd::prelude::*;

use crate::engine_state::{state_code, EngineState};
use crate::reliability::ReliabilityProfile;
use crate::stream_config::ActiveStreamFormat;

verus! {

/// The minimum-fill value that means "nothing observed yet".
pub const UNOBSERVED_MINIMUM: u64 = 0xffff_ffff_ffff_ffffu64;

/// The bit pattern of the `f32` value `0.0`.
pub const ZERO_F32_BITS: u32 = 0u32;

/// The bit pattern of the `f32` value `1.0`.
pub const ONE_F32_BITS: u32 = 0x3f80_0000u32;

/// Which route a session is serving.
#[derive(Clone, Copy, Debug, PartialEq, Eq, Structural)]
pub enum AudioRoutePurpose {
    Use,
    Test,
}

/// The live counters, levels and details of the audio engine. Level, ratio and
/// latency values are kept as the bit patterns of `f32` values.
pub struct SharedMetrics {
    pub state: EngineState,
    pub input_level_bits: u32,
    pub output_level_bits: u32,
    pub monitor_level_bits: u32,
    pub reliability_profile: ReliabilityProfile,
    pub route_purpose: Option<AudioRoutePurpose>,
    pub input_callback_gaps: u64,
    pub input_ring_overflows: u64,
    pub expander_attenuated_frames: u64,
    pub dsp_input_underruns: u64,
    pub dsp_processing_deadline_misses: u64,
    pub destination_ring_overflows: u64,
    pub monitor_ring_overflows: u64,
    pub output_ring_underruns: u64,
    pub monitor_output_underruns: u64,
    pub output_callback_gaps: u64,
    pub monitor_callback_gaps: u64,
    pub concealed_frames: u64,
    pub monitor_concealed_frames: u64,
    pub stream_restart_count: u64,
    pub current_input_ring_fill_frames: u64,
    pub minimum_input_ring_fill_frames: u64,
    pub maximum_input_ring_fill_frames: u64,
    pub current_output_ring_fill_frames: u64,
    pub maximum_output_ring_fill_frames: u64,
    pub current_monitor_ring_fill_frames: u64,
    pub maximum_monitor_ring_fill_frames: u64,
    pub maximum_dsp_processing_microseconds: u64,
    pub startup_prefill_target_frames: u64,
    pub startup_prefill_achieved_frames: u64,
    pub startup_prefill_timed_out: bool,
    pub clock_drift_correction_ratio_bits: u32,
    pub minimum_clock_drift_correction_ratio_bits: u32,
    pub maximum_clock_drift_correction_ratio_bits: u32,
    pub estimated_latency_ms_bits: u32,
    pub dsp_processing_latency_ms_bits: u32,
    pub total_estimated_latency_ms_bits: u32,
    pub active_stream_format: Option<ActiveStreamFormat>,
    pub last_runtime_error: Option<String>,
}

/// The counters that a new session starts from zero.
pub open spec fn session_counters_cleared(m: SharedMetrics) -> bool {
    &&& m.input_callback_gaps == 0
    &&& m.input_ring_overflows == 0
    &&& m.expander_attenuated_frames == 0
    &&& m.dsp_input_underruns == 0
    &&& m.dsp_processing_deadline_misses == 0
    &&& m.destination_ring_overflows == 0
    &&& m.monitor_ring_overflows == 0
    &&& m.output_ring_underruns == 0
    &&& m.monitor_output_underruns == 0
    &&& m.output_callback_gaps == 0
    &&& m.monitor_callback_gaps == 0
    &&& m.concealed_frames == 0
    &&& m.monitor_concealed_frames == 0
    &&& m.stream_restart_count == 0
    &&& m.current_input_ring_fill_frames == 0
    &&& m.minimum_input_ring_fill_frames == UNOBSERVED_MINIMUM
    &&& m.maximum_input_ring_fill_frames == 0
    &&& m.current_output_ring_fill_frames == 0
    &&& m.maximum_output_ring_fill_frames == 0
    &&& m.current_monitor_ring_fill_frames == 0
    &&& m.maximum_monitor_ring_fill_frames == 0
    &&& m.maximum_dsp_processing_microseconds == 0
    &&& m.startup_prefill_target_frames == 0
    &&& m.startup_prefill_achieved_frames == 0
    &&& !m.startup_prefill_timed_out
    &&& m.clock_drift_correction_ratio_bits == ONE_F32_BITS
    &&& m.minimum_clock_drift_correction_ratio_bits == ONE_F32_BITS
    &&& m.maximum_clock_drift_correction_ratio_bits == ONE_F32_BITS
}

/// Levels are only shown while audio flows.
pub open spec fn levels_shown(state: EngineState) -> bool {
    state == EngineState::Running || state == EngineState::Degraded
}

/// The state's level readings are zero unless audio flows.
pub open spec fn levels_consistent(m: SharedMetrics) -> bool {
    !levels_shown(m.state) ==> (m.input_level_bits == 0 && m.output_level_bits == 0
        && m.monitor_level_bits == 0)
}

/// The larger of two values.
pub open spec fn max_u64(a: u64, b: u64) -> u64 {
    if a >= b {
        a
    } else {
        b
    }
}

/// The smaller of two values.
pub open spec fn min_u64(a: u64, b: u64) -> u64 {
    if a <= b {
        a
    } else {
        b
    }
}

/// The code under which a profile is published.
pub open spec fn profile_code(profile: ReliabilityProfile) -> u8 {
    match profile {
        ReliabilityProfile::LowLatency => 0,
        ReliabilityProfile::Balanced => 1,
        ReliabilityProfile::Reliable => 2,
    }
}

pub fn profile_to_u8(profile: ReliabilityProfile) -> (code: u8)
    ensures
        code == profile_code(profile),
{
    match profile {
        ReliabilityProfile::LowLatency => 0,
        ReliabilityProfile::Balanced => 1,
        ReliabilityProfile::Reliable => 2,
    }
}

/// Decodes a published profile code; unknown codes read as `Balanced`.
pub fn profile_from_u8(value: u8) -> (profile: ReliabilityProfile)
    ensures
        value <= 2 ==> profile_code(profile) == value,
        value > 2 ==> profile == ReliabilityProfile::Balanced,
{
    match value {
        0 => ReliabilityProfile::LowLatency,
        2 => ReliabilityProfile::Reliable,
        _ => ReliabilityProfile::Balanced,
    }
}

/// Raises a running maximum.
pub fn update_maximum(target: &mut u64, value: u64)
    ensures
        *final(target) == max_u64(*old(target), value),
{
    if value > *target {
        *target = value;
    }
}

/// Lowers a running minimum.
pub fn update_minimum(target: &mut u64, value: u64)
    ensures
        *final(target) == min_u64(*old(target), value),
{
    if value < *target {
        *target = value;
    }
}

/// The status line shown for an engine state.
pub open spec fn status_message_spec(state: EngineState) -> Seq<char> {
    match state {
        EngineState::Stopped => "Ready to start"@,
        EngineState::Starting => "Starting and prefilling audio streams"@,
        EngineState::Running => "Audio processing is active"@,
        EngineState::Degraded => "Destination is active; local monitoring is degraded"@,
        EngineState::Recovering => "Recovering audio streams"@,
        EngineState::Stopping => "Stopping audio streams"@,
        EngineState::Error => "Audio engine needs attention"@,
    }
}

pub fn status_message(state: EngineState) -> (message: &'static str)
    ensures
        message@ == status_message_spec(state),
{
    match state {
        EngineState::Stopped => "Ready to start",
        EngineState::Starting => "Starting and prefilling audio streams",
        EngineState::Running => "Audio processing is active",
        EngineState::Degraded => "Destination is active; local monitoring is degraded",
        EngineState::Recovering => "Recovering audio streams",
        EngineState::Stopping => "Stopping audio streams",
        EngineState::Error => "Audio engine needs attention",
    }
}

impl Default for SharedMetrics {
    fn default() -> (m: Self)
        ensures
            m.state == EngineState::Stopped,
            m.reliability_profile == ReliabilityProfile::Balanced,
            m.route_purpose is None,
            session_counters_cleared(m),
            levels_consistent(m),
            m.estimated_latency_ms_bits == 0,
            m.dsp_processing_latency_ms_bits == 0,
            m.total_estimated_latency_ms_bits == 0,
            m.active_stream_format is None,
            m.last_runtime_error is None,
    {
        SharedMetrics {
            state: EngineState::Stopped,
            input_level_bits: ZERO_F32_BITS,
            output_level_bits: ZERO_F32_BITS,
            monitor_level_bits: ZERO_F32_BITS,
            reliability_profile: ReliabilityProfile::Balanced,
            route_purpose: None,
            input_callback_gaps: 0,
            input_ring_overflows: 0,
            expander_attenuated_frames: 0,
            dsp_input_underruns: 0,
            dsp_processing_deadline_misses: 0,
            destination_ring_overflows: 0,
            monitor_ring_overflows: 0,
            output_ring_underruns: 0,
            monitor_output_underruns: 0,
            output_callback_gaps: 0,
            monitor_callback_gaps: 0,
            concealed_frames: 0,
            monitor_concealed_frames: 0,
            stream_restart_count: 0,
            current_input_ring_fill_frames: 0,
            minimum_input_ring_fill_frames: UNOBSERVED_MINIMUM,
            maximum_input_ring_fill_frames: 0,
            current_output_ring_fill_frames: 0,
            maximum_output_ring_fill_frames: 0,
            current_monitor_ring_fill_frames: 0,
            maximum_monitor_ring_fill_frames: 0,
            maximum_dsp_processing_microseconds: 0,
            startup_prefill_target_frames: 0,
            startup_prefill_achieved_frames: 0,
            startup_prefill_timed_out: false,
            clock_drift_correction_ratio_bits: ONE_F32_BITS,
            minimum_clock_drift_correction_ratio_bits: ONE_F32_BITS,
            maximum_clock_drift_correction_ratio_bits: ONE_F32_BITS,
            estimated_latency_ms_bits: ZERO_F32_BITS,
            dsp_processing_latency_ms_bits: ZERO_F32_BITS,
            total_estimated_latency_ms_bits: ZERO_F32_BITS,
            active_stream_format: None,
            last_runtime_error: None,
        }
    }
}

impl SharedMetrics {
    /// Publishes a state; leaving the flowing states clears the level readings.
    pub fn set_state(&mut self, state: EngineState)
        ensures
            final(self).state == state,
            levels_shown(state) ==> (final(self).input_level_bits == old(self).input_level_bits
                && final(self).output_level_bits == old(self).output_level_bits
                && final(self).monitor_level_bits == old(self).monitor_level_bits),
            !levels_shown(state) ==> (final(self).input_level_bits == 0
                && final(self).output_level_bits == 0 && final(self).monitor_level_bits == 0),
            *final(self) == (SharedMetrics {
                state,
                input_level_bits: final(self).input_level_bits,
                output_level_bits: final(self).output_level_bits,
                monitor_level_bits: final(self).monitor_level_bits,
                ..*old(self)
            }),
    {
        self.state = state;
        if !(state == EngineState::Running || state == EngineState::Degraded) {
            self.input_level_bits = ZERO_F32_BITS;
            self.output_level_bits = ZERO_F32_BITS;
            self.monitor_level_bits = ZERO_F32_BITS;
        }
    }

    /// The published code of the current state.
    pub fn state_code(&self) -> (code: u8)
        ensures
            code == state_code(self.state),
    {
        self.state.to_u8()
    }

    /// Stores the bit pattern of the latest input level.
    pub fn set_input_level_bits(&mut self, bits: u32)
        ensures
            *final(self) == (SharedMetrics { input_level_bits: bits, ..*old(self) }),
    {
        self.input_level_bits = bits;
    }

    /// Stores the bit pattern of the latest destination or monitor level.
    pub fn set_output_level_bits(&mut self, bits: u32, monitor: bool)
        ensures
            monitor ==> *final(self) == (SharedMetrics { monitor_level_bits: bits, ..*old(self) }),
            !monitor ==> *final(self) == (SharedMetrics { output_level_bits: bits, ..*old(self) }),
    {
        if monitor {
            self.monitor_level_bits = bits;
        } else {
            self.output_level_bits = bits;
        }
    }

    pub fn set_route_purpose(&mut self, purpose: Option<AudioRoutePurpose>)
        ensures
            *final(self) == (SharedMetrics { route_purpose: purpose, ..*old(self) }),
    {
        self.route_purpose = purpose;
    }

    pub fn record_input_callback_gap(&mut self)
        ensures
            *final(self) == (SharedMetrics {
                input_callback_gaps: old(self).input_callback_gaps.wrapping_add(1),
                ..*old(self)
            }),
    {
        self.input_callback_gaps = self.input_callback_gaps.wrapping_add(1);
    }

    pub fn record_input_overrun(&mut self)
        ensures
            *final(self) == (SharedMetrics {
                input_ring_overflows: old(self).input_ring_overflows.wrapping_add(1),
                ..*old(self)
            }),
    {
        self.input_ring_overflows = self.input_ring_overflows.wrapping_add(1);
    }

    pub fn record_expander_attenuated_frames(&mut self, frames: usize)
        ensures
            *final(self) == (SharedMetrics {
                expander_attenuated_frames: old(self).expander_attenuated_frames.wrapping_add(
                    frames as u64,
                ),
                ..*old(self)
            }),
    {
        self.expander_attenuated_frames = self.expander_attenuated_frames.wrapping_add(
            frames as u64,
        );
    }

    pub fn record_dsp_input_underrun(&mut self)
        ensures
            *final(self) == (SharedMetrics {
                dsp_input_underruns: old(self).dsp_input_underruns.wrapping_add(1),
                ..*old(self)
            }),
    {
        self.dsp_input_underruns = self.dsp_input_underruns.wrapping_add(1);
    }

    /// Raises the longest processing time and counts a missed deadline.
    pub fn record_dsp_deadline(&mut self, elapsed_microseconds: u64, missed: bool)
        ensures
            *final(self) == (SharedMetrics {
                maximum_dsp_processing_microseconds: max_u64(
                    old(self).maximum_dsp_processing_microseconds,
                    elapsed_microseconds,
                ),
                dsp_processing_deadline_misses: if missed {
                    old(self).dsp_processing_deadline_misses.wrapping_add(1)
                } else {
                    old(self).dsp_processing_deadline_misses
                },
                ..*old(self)
            }),
    {
        update_maximum(&mut self.maximum_dsp_processing_microseconds, elapsed_microseconds);
        if missed {
            self.dsp_processing_deadline_misses = self.dsp_processing_deadline_misses.wrapping_add(
                1,
            );
        }
    }

    pub fn record_output_ring_overflow(&mut self, monitor: bool)
        ensures
            monitor ==> *final(self) == (SharedMetrics {
                monitor_ring_overflows: old(self).monitor_ring_overflows.wrapping_add(1),
                ..*old(self)
            }),
            !monitor ==> *final(self) == (SharedMetrics {
                destination_ring_overflows: old(self).destination_ring_overflows.wrapping_add(1),
                ..*old(self)
            }),
    {
        if monitor {
            self.monitor_ring_overflows = self.monitor_ring_overflows.wrapping_add(1);
        } else {
            self.destination_ring_overflows = self.destination_ring_overflows.wrapping_add(1);
        }
    }

    pub fn record_output_underrun(&mut self, monitor: bool)
        ensures
            monitor ==> *final(self) == (SharedMetrics {
                monitor_output_underruns: old(self).monitor_output_underruns.wrapping_add(1),
                ..*old(self)
            }),
            !monitor ==> *final(self) == (SharedMetrics {
                output_ring_underruns: old(self).output_ring_underruns.wrapping_add(1),
                ..*old(self)
            }),
    {
        if monitor {
            self.monitor_output_underruns = self.monitor_output_underruns.wrapping_add(1);
        } else {
            self.output_ring_underruns = self.output_ring_underruns.wrapping_add(1);
        }
    }

    pub fn record_output_callback_gap(&mut self, monitor: bool)
        ensures
            monitor ==> *final(self) == (SharedMetrics {
                monitor_callback_gaps: old(self).monitor_callback_gaps.wrapping_add(1),
                ..*old(self)
            }),
            !monitor ==> *final(self) == (SharedMetrics {
                output_callback_gaps: old(self).output_callback_gaps.wrapping_add(1),
                ..*old(self)
            }),
    {
        if monitor {
            self.monitor_callback_gaps = self.monitor_callback_gaps.wrapping_add(1);
        } else {
            self.output_callback_gaps = self.output_callback_gaps.wrapping_add(1);
        }
    }

    pub fn record_concealed_frames(&mut self, frames: usize, monitor: bool)
        ensures
            monitor ==> *final(self) == (SharedMetrics {
                monitor_concealed_frames: old(self).monitor_concealed_frames.wrapping_add(
                    frames as u64,
                ),
                ..*old(self)
            }),
            !monitor ==> *final(self) == (SharedMetrics {
                concealed_frames: old(self).concealed_frames.wrapping_add(frames as u64),
                ..*old(self)
            }),
    {
        if monitor {
            self.monitor_concealed_frames = self.monitor_concealed_frames.wrapping_add(
                frames as u64,
            );
        } else {
            self.concealed_frames = self.concealed_frames.wrapping_add(frames as u64);
        }
    }

    pub fn record_stream_restart(&mut self)
        ensures
            *final(self) == (SharedMetrics {
                stream_restart_count: old(self).stream_restart_count.wrapping_add(1),
                ..*old(self)
            }),
    {
        self.stream_restart_count = self.stream_restart_count.wrapping_add(1);
    }

    /// Records the input ring fill and widens its observed range.
    pub fn update_input_ring_fill(&mut self, frames: usize)
        ensures
            *final(self) == (SharedMetrics {
                current_input_ring_fill_frames: frames as u64,
                minimum_input_ring_fill_frames: min_u64(
                    old(self).minimum_input_ring_fill_frames,
                    frames as u64,
                ),
                maximum_input_ring_fill_frames: max_u64(
                    old(self).maximum_input_ring_fill_frames,
                    frames as u64,
                ),
                ..*old(self)
            }),
    {
        let value = frames as u64;
        self.current_input_ring_fill_frames = value;
        update_minimum(&mut self.minimum_input_ring_fill_frames, value);
        update_maximum(&mut self.maximum_input_ring_fill_frames, value);
    }

    /// Records the destination or monitor ring fill and raises its maximum.
    pub fn update_output_ring_fill(&mut self, frames: usize, monitor: bool)
        ensures
            monitor ==> *final(self) == (SharedMetrics {
                current_monitor_ring_fill_frames: frames as u64,
                maximum_monitor_ring_fill_frames: max_u64(
                    old(self).maximum_monitor_ring_fill_frames,
                    frames as u64,
                ),
                ..*old(self)
            }),
            !monitor ==> *final(self) == (SharedMetrics {
                current_output_ring_fill_frames: frames as u64,
                maximum_output_ring_fill_frames: max_u64(
                    old(self).maximum_output_ring_fill_frames,
                    frames as u64,
                ),
                ..*old(self)
            }),
    {
        let value = frames as u64;
        if monitor {
            self.current_monitor_ring_fill_frames = value;
            update_maximum(&mut self.maximum_monitor_ring_fill_frames, value);
        } else {
            self.current_output_ring_fill_frames = value;
            update_maximum(&mut self.maximum_output_ring_fill_frames, value);
        }
    }

    pub fn set_startup_prefill(&mut self, target: usize, achieved: usize, timed_out: bool)
        ensures
            *final(self) == (SharedMetrics {
                startup_prefill_target_frames: target as u64,
                startup_prefill_achieved_frames: achieved as u64,
                startup_prefill_timed_out: timed_out,
                ..*old(self)
            }),
    {
        self.startup_prefill_target_frames = target as u64;
        self.startup_prefill_achieved_frames = achieved as u64;
        self.startup_prefill_timed_out = timed_out;
    }

    /// Starts a new session: records the profile and clears every session counter.
    pub fn reset_session(&mut self, profile: ReliabilityProfile)
        ensures
            final(self).reliability_profile == profile,
            session_counters_cleared(*final(self)),
            final(self).state == old(self).state,
            final(self).input_level_bits == old(self).input_level_bits,
            final(self).output_level_bits == old(self).output_level_bits,
            final(self).monitor_level_bits == old(self).monitor_level_bits,
            final(self).route_purpose == old(self).route_purpose,
            final(self).estimated_latency_ms_bits == old(self).estimated_latency_ms_bits,
            final(self).dsp_processing_latency_ms_bits == old(self).dsp_processing_latency_ms_bits,
            final(self).total_estimated_latency_ms_bits == old(
                self,
            ).total_estimated_latency_ms_bits,
            final(self).active_stream_format == old(self).active_stream_format,
            final(self).last_runtime_error == old(self).last_runtime_error,
    {
        self.reliability_profile = profile;
        self.input_callback_gaps = 0;
        self.input_ring_overflows = 0;
        self.expander_attenuated_frames = 0;
        self.dsp_input_underruns = 0;
        self.dsp_processing_deadline_misses = 0;
        self.destination_ring_overflows = 0;
        self.monitor_ring_overflows = 0;
        self.output_ring_underruns = 0;
        self.monitor_output_underruns = 0;
        self.output_callback_gaps = 0;
        self.monitor_callback_gaps = 0;
        self.concealed_frames = 0;
        self.monitor_concealed_frames = 0;
        self.stream_restart_count = 0;
        self.current_input_ring_fill_frames = 0;
        self.maximum_input_ring_fill_frames = 0;
        self.current_output_ring_fill_frames = 0;
        self.maximum_output_ring_fill_frames = 0;
        self.current_monitor_ring_fill_frames = 0;
        self.maximum_monitor_ring_fill_frames = 0;
        self.maximum_dsp_processing_microseconds = 0;
        self.startup_prefill_target_frames = 0;
        self.startup_prefill_achieved_frames = 0;
        self.minimum_input_ring_fill_frames = UNOBSERVED_MINIMUM;
        self.startup_prefill_timed_out = false;
        self.clock_drift_correction_ratio_bits = ONE_F32_BITS;
        self.minimum_clock_drift_correction_ratio_bits = ONE_F32_BITS;
        self.maximum_clock_drift_correction_ratio_bits = ONE_F32_BITS;
    }

    /// Records the running stream format and the bit patterns of the latency values.
    pub fn set_stream_details(
        &mut self,
        format: ActiveStreamFormat,
        total_latency_ms_bits: u32,
        dsp_latency_ms_bits: u32,
    )
        ensures
            *final(self) == (SharedMetrics {
                active_stream_format: Some(format),
                estimated_latency_ms_bits: total_latency_ms_bits,
                dsp_processing_latency_ms_bits: dsp_latency_ms_bits,
                total_estimated_latency_ms_bits: total_latency_ms_bits,
                ..*old(self)
            }),
    {
        self.active_stream_format = Some(format);
        self.estimated_latency_ms_bits = total_latency_ms_bits;
        self.dsp_processing_latency_ms_bits = dsp_latency_ms_bits;
        self.total_estimated_latency_ms_bits = total_latency_ms_bits;
    }

    /// Forgets the stream format and zeroes the latency values.
    pub fn clear_stream_details(&mut self)
        ensures
            *final(self) == (SharedMetrics {
                active_stream_format: None,
                estimated_latency_ms_bits: ZERO_F32_BITS,
                dsp_processing_latency_ms_bits: ZERO_F32_BITS,
                total_estimated_latency_ms_bits: ZERO_F32_BITS,
                ..*old(self)
            }),
    {
        self.active_stream_format = None;
        self.estimated_latency_ms_bits = ZERO_F32_BITS;
        self.dsp_processing_latency_ms_bits = ZERO_F32_BITS;
        self.total_estimated_latency_ms_bits = ZERO_F32_BITS;
    }

    pub fn set_last_error(&mut self, error: Option<String>)
        ensures
            *final(self) == (SharedMetrics { last_runtime_error: error, ..*old(self) }),
    {
        self.last_runtime_error = error;
    }

    /// The minimum input fill to report: zero until something was observed.
    pub fn reported_minimum_input_fill(&self) -> (frames: u64)
        ensures
            frames == if self.minimum_input_ring_fill_frames == UNOBSERVED_MINIMUM {
                0
            } else {
                self.minimum_input_ring_fill_frames
            },
    {
        if self.minimum_input_ring_fill_frames == UNOBSERVED_MINIMUM {
            0
        } else {
            self.minimum_input_ring_fill_frames
        }
    }
}

/// The observed input fill range: either nothing was observed since the session
/// began, or the current fill lies between the observed minimum and maximum.
pub open spec fn input_fill_range_ok(m: SharedMetrics) -> bool {
    ||| (m.minimum_input_ring_fill_frames == UNOBSERVED_MINIMUM
        && m.maximum_input_ring_fill_frames == 0 && m.current_input_ring_fill_frames == 0)
    ||| m.minimum_input_ring_fill_frames <= m.current_input_ring_fill_frames
        <= m.maximum_input_ring_fill_frames
}

/// Recording an input fill keeps the observed range around the current fill.
pub proof fn lemma_input_fill_range_preserved(before: SharedMetrics, frames: usize)
    requires
        input_fill_range_ok(before),
    ensures
        input_fill_range_ok(
            (SharedMetrics {
                current_input_ring_fill_frames: frames as u64,
                minimum_input_ring_fill_frames: min_u64(
                    before.minimum_input_ring_fill_frames,
                    frames as u64,
                ),
                maximum_input_ring_fill_frames: max_u64(
                    before.maximum_input_ring_fill_frames,
                    frames as u64,
                ),
                ..before
            }),
        ),
{
}

/// A cleared session satisfies the fill-range invariant.
pub proof fn lemma_reset_session_fill_range(m: SharedMetrics)
    requires
        session_counters_cleared(m),
    ensures
        input_fill_range_ok(m),
{
}

/// Publishing a state that does not show levels leaves all level readings at zero.
pub proof fn lemma_set_state_keeps_levels_consistent(before: SharedMetrics, after: SharedMetrics, state: EngineState)
    requires
        levels_consistent(before),
        after.state == state,
        levels_shown(state) ==> (after.input_level_bits == before.input_level_bits
            && after.output_level_bits == before.output_level_bits && after.monitor_level_bits
            == before.monitor_level_bits),
        !levels_shown(state) ==> (after.input_level_bits == 0 && after.output_level_bits == 0
            && after.monitor_level_bits == 0),
    ensures
        levels_consistent(after),
{
}

} // verus!
