use vstd::prelude::*;

verus! {

/// Buffering profile that trades latency for robustness.
#[derive(Clone, Copy, Debug, PartialEq, Eq, Structural)]
pub enum ReliabilityProfile {
    LowLatency,
    Balanced,
    Reliable,
}

impl Default for ReliabilityProfile {
    fn default() -> (profile: Self)
        ensures
            profile == ReliabilityProfile::Balanced,
    {
        ReliabilityProfile::Balanced
    }
}

/// The concrete buffering values of one profile.
#[derive(Clone, Copy, Debug, PartialEq, Eq, Structural)]
pub struct ReliabilityConfig {
    pub requested_buffer_frames: u32,
    pub input_ring_milliseconds: u32,
    pub output_ring_milliseconds: u32,
    pub startup_prefill_frames: u32,
    pub startup_timeout_milliseconds: u64,
    pub worker_wake_timeout_milliseconds: u64,
    pub underrun_tolerance_blocks: u32,
    pub concealment_milliseconds: u32,
}

/// The values each profile stands for.
pub open spec fn profile_config(profile: ReliabilityProfile) -> ReliabilityConfig {
    match profile {
        ReliabilityProfile::LowLatency => ReliabilityConfig {
            requested_buffer_frames: 128,
            input_ring_milliseconds: 80,
            output_ring_milliseconds: 80,
            startup_prefill_frames: 256,
            startup_timeout_milliseconds: 500,
            worker_wake_timeout_milliseconds: 5,
            underrun_tolerance_blocks: 0,
            concealment_milliseconds: 3,
        },
        ReliabilityProfile::Balanced => ReliabilityConfig {
            requested_buffer_frames: 256,
            input_ring_milliseconds: 250,
            output_ring_milliseconds: 250,
            startup_prefill_frames: 1024,
            startup_timeout_milliseconds: 1000,
            worker_wake_timeout_milliseconds: 10,
            underrun_tolerance_blocks: 1,
            concealment_milliseconds: 6,
        },
        ReliabilityProfile::Reliable => ReliabilityConfig {
            requested_buffer_frames: 512,
            input_ring_milliseconds: 500,
            output_ring_milliseconds: 500,
            startup_prefill_frames: 2048,
            startup_timeout_milliseconds: 1500,
            worker_wake_timeout_milliseconds: 20,
            underrun_tolerance_blocks: 2,
            concealment_milliseconds: 10,
        },
    }
}

/// The rank of a profile on the latency/robustness scale.
pub open spec fn profile_rank(profile: ReliabilityProfile) -> int {
    match profile {
        ReliabilityProfile::LowLatency => 0,
        ReliabilityProfile::Balanced => 1,
        ReliabilityProfile::Reliable => 2,
    }
}

/// The `Duration` of the given number of milliseconds.
pub uninterp spec fn duration_from_millis(milliseconds: u64) -> core::time::Duration;

/// Calls `std::time::Duration::from_millis`, which builds the duration of the given
/// number of milliseconds; the result is that duration, whose whole length in
/// nanoseconds is the milliseconds times one million.
#[verifier::external_body]
fn millis(milliseconds: u64) -> (duration: core::time::Duration)
    ensures
        duration == duration_from_millis(milliseconds),
        crate::controller::duration_nanos(duration) == milliseconds * 1_000_000,
{
    core::time::Duration::from_millis(milliseconds)
}

impl ReliabilityProfile {
    pub fn config(self) -> (config: ReliabilityConfig)
        ensures
            config == profile_config(self),
    {
        match self {
            ReliabilityProfile::LowLatency => ReliabilityConfig {
                requested_buffer_frames: 128,
                input_ring_milliseconds: 80,
                output_ring_milliseconds: 80,
                startup_prefill_frames: 256,
                startup_timeout_milliseconds: 500,
                worker_wake_timeout_milliseconds: 5,
                underrun_tolerance_blocks: 0,
                concealment_milliseconds: 3,
            },
            ReliabilityProfile::Balanced => ReliabilityConfig {
                requested_buffer_frames: 256,
                input_ring_milliseconds: 250,
                output_ring_milliseconds: 250,
                startup_prefill_frames: 1024,
                startup_timeout_milliseconds: 1000,
                worker_wake_timeout_milliseconds: 10,
                underrun_tolerance_blocks: 1,
                concealment_milliseconds: 6,
            },
            ReliabilityProfile::Reliable => ReliabilityConfig {
                requested_buffer_frames: 512,
                input_ring_milliseconds: 500,
                output_ring_milliseconds: 500,
                startup_prefill_frames: 2048,
                startup_timeout_milliseconds: 1500,
                worker_wake_timeout_milliseconds: 20,
                underrun_tolerance_blocks: 2,
                concealment_milliseconds: 10,
            },
        }
    }

    pub fn worker_wake_timeout(self) -> (timeout: core::time::Duration)
        ensures
            timeout == duration_from_millis(
                profile_config(self).worker_wake_timeout_milliseconds,
            ),
            crate::controller::duration_nanos(timeout)
                == profile_config(self).worker_wake_timeout_milliseconds * 1_000_000,
    {
        millis(self.config().worker_wake_timeout_milliseconds)
    }

    pub fn startup_timeout(self) -> (timeout: core::time::Duration)
        ensures
            timeout == duration_from_millis(profile_config(self).startup_timeout_milliseconds),
            crate::controller::duration_nanos(timeout)
                == profile_config(self).startup_timeout_milliseconds * 1_000_000,
    {
        millis(self.config().startup_timeout_milliseconds)
    }
}

/// Moving to a more reliable profile never shrinks a buffer, a prefill, a timeout,
/// a tolerance or the concealment window, and strictly grows the requested buffer,
/// the prefill and both rings.
pub proof fn lemma_profiles_trade_latency_for_reliability(
    lower: ReliabilityProfile,
    higher: ReliabilityProfile,
)
    requires
        profile_rank(lower) < profile_rank(higher),
    ensures
        profile_config(lower).requested_buffer_frames < profile_config(
            higher,
        ).requested_buffer_frames,
        profile_config(lower).startup_prefill_frames < profile_config(higher).startup_prefill_frames,
        profile_config(lower).input_ring_milliseconds < profile_config(
            higher,
        ).input_ring_milliseconds,
        profile_config(lower).output_ring_milliseconds < profile_config(
            higher,
        ).output_ring_milliseconds,
        profile_config(lower).startup_timeout_milliseconds < profile_config(
            higher,
        ).startup_timeout_milliseconds,
        profile_config(lower).worker_wake_timeout_milliseconds < profile_config(
            higher,
        ).worker_wake_timeout_milliseconds,
        profile_config(lower).underrun_tolerance_blocks < profile_config(
            higher,
        ).underrun_tolerance_blocks,
        profile_config(lower).concealment_milliseconds < profile_config(
            higher,
        ).concealment_milliseconds,
{
}

/// Every profile prefills at least one requested buffer and keeps its prefill within
/// the output ring (48 kHz frames per millisecond is 48).
pub proof fn lemma_profile_values_are_bounded(profile: ReliabilityProfile)
    ensures
        profile_config(profile).requested_buffer_frames <= profile_config(
            profile,
        ).startup_prefill_frames,
        profile_config(profile).startup_prefill_frames <= 48 * profile_config(
            profile,
        ).output_ring_milliseconds,
        profile_config(profile).worker_wake_timeout_milliseconds < profile_config(
            profile,
        ).startup_timeout_milliseconds,
{
}

} // verus!
