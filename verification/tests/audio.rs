use mam_voice::controller::RuntimeEvent;
use mam_voice::text::is_control;
use mam_voice::channel_mapper::{channel_source, ChannelSource};
use mam_voice::device_capabilities::{capability_summary, describe_device};
use std::time::Duration;

use mam_voice::controller::{
    startup_prefill_decision, RecoveryPlan, StartAudioRequest, StartupPrefillDecision,
    RECOVERY_BACKOFF_MS,
};
use mam_voice::device::{
    is_likely_virtual_endpoint_name, normalized_virtual_family, restoration_index,
    stable_device_id, DeviceDirection,
};
use mam_voice::engine_state::{live_engine_allows_lab, EngineState};
use mam_voice::error::{AudioError, OfflineResampleError};
use mam_voice::metrics::SharedMetrics;
use mam_voice::output_stream::OutputRole;
use mam_voice::random::DeterministicRandom;
use mam_voice::reliability::ReliabilityProfile;
use mam_voice::stream_config::preferred_rate;
use mam_voice::worker::{DspSchedule, WakeDecision};

fn use_request() -> StartAudioRequest {
    StartAudioRequest::Use {
        input_id: "input".to_owned(),
        input_name: "Input".to_owned(),
        processed_destination_id: "destination".to_owned(),
        processed_destination_name: "Destination".to_owned(),
        reliability_profile: ReliabilityProfile::Balanced,
    }
}

#[test]
fn recovery_attempts_and_backoff_are_strictly_bounded() {
    let mut plan = RecoveryPlan::new(use_request());
    assert_eq!(plan.attempts, 0);
    assert!(plan.schedule_next());
    assert!(plan.schedule_next());
    assert!(!plan.schedule_next());
    assert_eq!(plan.attempts, RECOVERY_BACKOFF_MS.len());
}

#[test]
fn prefill_waits_for_target_and_timeout_is_bounded() {
    let timeout = Duration::from_millis(1_000);
    assert_eq!(
        startup_prefill_decision(1_023, 1_024, Duration::from_millis(999), timeout),
        StartupPrefillDecision::Waiting
    );
    assert_eq!(
        startup_prefill_decision(1_024, 1_024, Duration::from_millis(10), timeout),
        StartupPrefillDecision::Ready
    );
    assert_eq!(
        startup_prefill_decision(1_023, 1_024, timeout, timeout),
        StartupPrefillDecision::TimedOut
    );
}

#[test]
fn start_requests_need_both_identifier_and_name_for_each_purpose() {
    assert!(use_request().validate().is_ok());
    let missing_name = StartAudioRequest::Test {
        input_id: "input".to_owned(),
        input_name: "Input".to_owned(),
        monitor_id: "monitor".to_owned(),
        monitor_name: "  ".to_owned(),
        reliability_profile: ReliabilityProfile::LowLatency,
    };
    let error = missing_name.validate().unwrap_err();
    assert_eq!(error, "A valid Test monitor must be selected.");
    assert!(missing_name.is_test());
    assert!(!use_request().is_test());
}

#[test]
fn device_ids_do_not_depend_on_enumeration_order() {
    let first = stable_device_id(DeviceDirection::Input, "USB Microphone");
    let second = stable_device_id(DeviceDirection::Input, "USB Microphone");
    assert_eq!(first, second);
    assert_ne!(
        first,
        stable_device_id(DeviceDirection::Output, "USB Microphone")
    );
}

#[test]
fn device_ids_are_prefixed_by_direction() {
    let id = stable_device_id(DeviceDirection::Output, "Speakers");
    assert!(id.starts_with("wasapi-output-"));
    assert_eq!(id.len(), "wasapi-output-".len() + 16);
}

#[test]
fn virtual_endpoint_classification_is_directional_and_advisory() {
    assert!(is_likely_virtual_endpoint_name(
        DeviceDirection::Output,
        "VB-Audio CABLE Input"
    ));
    assert!(is_likely_virtual_endpoint_name(
        DeviceDirection::Input,
        "VB-Audio CABLE Output"
    ));
    assert!(is_likely_virtual_endpoint_name(
        DeviceDirection::Output,
        "My Virtual Audio Router"
    ));
    assert!(!is_likely_virtual_endpoint_name(
        DeviceDirection::Output,
        "Realtek HDMI Output"
    ));
    assert!(!is_likely_virtual_endpoint_name(
        DeviceDirection::Input,
        "Physical input microphone"
    ));
}

#[test]
fn complementary_endpoint_names_share_a_normalized_family() {
    assert_eq!(
        normalized_virtual_family("CABLE Input (VB-Audio Virtual Cable)"),
        normalized_virtual_family("CABLE Output (VB-Audio Virtual Cable)")
    );
}

#[test]
fn restoration_prefers_id_then_only_uses_a_unique_friendly_name() {
    let direction = DeviceDirection::Output;
    let names = vec!["Speakers".to_owned(), "Virtual Route".to_owned()];
    let virtual_id = stable_device_id(direction, "Virtual Route");
    assert_eq!(
        restoration_index(direction, &virtual_id, "wrong name", &names),
        Some(1)
    );
    assert_eq!(
        restoration_index(direction, "missing", "Speakers", &names),
        Some(0)
    );

    let duplicates = vec!["USB Audio".to_owned(), "USB Audio".to_owned()];
    assert_eq!(
        restoration_index(direction, "missing", "USB Audio", &duplicates),
        None
    );
}

#[test]
fn profiles_trade_latency_for_bounded_reliability_values() {
    let low = ReliabilityProfile::LowLatency.config();
    let balanced = ReliabilityProfile::Balanced.config();
    let reliable = ReliabilityProfile::Reliable.config();

    assert_eq!(
        (
            low.requested_buffer_frames,
            low.input_ring_milliseconds,
            low.output_ring_milliseconds,
            low.startup_prefill_frames,
            low.startup_timeout_milliseconds,
            low.worker_wake_timeout_milliseconds,
            low.underrun_tolerance_blocks,
            low.concealment_milliseconds,
        ),
        (128, 80, 80, 256, 500, 5, 0, 3)
    );
    assert_eq!(
        (
            balanced.requested_buffer_frames,
            balanced.input_ring_milliseconds,
            balanced.output_ring_milliseconds,
            balanced.startup_prefill_frames,
            balanced.startup_timeout_milliseconds,
            balanced.worker_wake_timeout_milliseconds,
            balanced.underrun_tolerance_blocks,
            balanced.concealment_milliseconds,
        ),
        (256, 250, 250, 1_024, 1_000, 10, 1, 6)
    );
    assert_eq!(
        (
            reliable.requested_buffer_frames,
            reliable.input_ring_milliseconds,
            reliable.output_ring_milliseconds,
            reliable.startup_prefill_frames,
            reliable.startup_timeout_milliseconds,
            reliable.worker_wake_timeout_milliseconds,
            reliable.underrun_tolerance_blocks,
            reliable.concealment_milliseconds,
        ),
        (512, 500, 500, 2_048, 1_500, 20, 2, 10)
    );

    assert!(low.requested_buffer_frames < balanced.requested_buffer_frames);
    assert!(balanced.requested_buffer_frames < reliable.requested_buffer_frames);
    assert!(low.startup_prefill_frames < balanced.startup_prefill_frames);
    assert!(balanced.startup_prefill_frames < reliable.startup_prefill_frames);
    assert!(low.output_ring_milliseconds < balanced.output_ring_milliseconds);
    assert!(balanced.output_ring_milliseconds < reliable.output_ring_milliseconds);
    assert_eq!(ReliabilityProfile::default(), ReliabilityProfile::Balanced);
}

#[test]
fn profile_timeouts_come_from_the_configuration() {
    assert_eq!(
        ReliabilityProfile::Balanced.worker_wake_timeout(),
        Duration::from_millis(10)
    );
    assert_eq!(
        ReliabilityProfile::Reliable.startup_timeout(),
        Duration::from_millis(1_500)
    );
}

#[test]
fn prefers_48khz_when_both_ranges_allow_it() {
    assert_eq!(preferred_rate(44_100, 96_000), Some(48_000));
}

#[test]
fn falls_back_to_44_1khz() {
    assert_eq!(preferred_rate(44_100, 44_100), Some(44_100));
}

#[test]
fn rejects_non_overlapping_ranges() {
    assert_eq!(preferred_rate(48_000, 44_100), None);
}

#[test]
fn accepts_normal_engine_lifecycle() {
    assert!(EngineState::Stopped.can_transition_to(EngineState::Starting));
    assert!(EngineState::Starting.can_transition_to(EngineState::Running));
    assert!(EngineState::Running.can_transition_to(EngineState::Stopping));
    assert!(EngineState::Stopping.can_transition_to(EngineState::Stopped));
}

#[test]
fn error_state_can_recover_by_starting_again() {
    assert!(EngineState::Running.can_transition_to(EngineState::Error));
    assert!(EngineState::Error.can_transition_to(EngineState::Starting));
    assert!(!EngineState::Stopped.can_transition_to(EngineState::Running));
}

#[test]
fn recovery_and_degraded_states_have_explicit_safe_transitions() {
    assert!(EngineState::Running.can_transition_to(EngineState::Recovering));
    assert!(EngineState::Recovering.can_transition_to(EngineState::Running));
    assert!(EngineState::Recovering.can_transition_to(EngineState::Stopping));
    assert!(EngineState::Running.can_transition_to(EngineState::Degraded));
    assert!(EngineState::Degraded.can_transition_to(EngineState::Stopping));
    assert!(!EngineState::Stopped.can_transition_to(EngineState::Recovering));
}

#[test]
fn engine_state_codes_round_trip() {
    for state in [
        EngineState::Stopped,
        EngineState::Starting,
        EngineState::Running,
        EngineState::Degraded,
        EngineState::Recovering,
        EngineState::Stopping,
        EngineState::Error,
    ] {
        assert_eq!(EngineState::from_u8(state.to_u8()), state);
    }
    assert_eq!(EngineState::from_u8(200), EngineState::Stopped);
}

#[test]
fn only_a_fully_stopped_live_engine_allows_lab_audio_work() {
    assert!(live_engine_allows_lab(EngineState::Stopped));
    for state in [
        EngineState::Starting,
        EngineState::Running,
        EngineState::Degraded,
        EngineState::Recovering,
        EngineState::Stopping,
        EngineState::Error,
    ] {
        assert!(!live_engine_allows_lab(state));
    }
}

#[test]
fn counters_are_specific_and_reset_per_session() {
    let mut metrics = SharedMetrics::default();
    metrics.record_input_callback_gap();
    metrics.record_output_underrun(false);
    metrics.record_concealed_frames(12, false);
    assert_eq!(metrics.input_callback_gaps, 1);
    assert_eq!(metrics.output_ring_underruns, 1);
    assert_eq!(metrics.monitor_output_underruns, 0);
    assert_eq!(metrics.concealed_frames, 12);

    metrics.reset_session(ReliabilityProfile::Reliable);
    assert_eq!(metrics.input_callback_gaps, 0);
    assert_eq!(metrics.output_ring_underruns, 0);
    assert_eq!(metrics.reliability_profile, ReliabilityProfile::Reliable);
}

#[test]
fn ring_fill_tracks_current_minimum_and_maximum() {
    let mut metrics = SharedMetrics::default();
    for fill in [10, 4, 18, 7] {
        metrics.update_input_ring_fill(fill);
    }
    assert_eq!(metrics.current_input_ring_fill_frames, 7);
    assert_eq!(metrics.reported_minimum_input_fill(), 4);
    assert_eq!(metrics.maximum_input_ring_fill_frames, 18);
}

#[test]
fn deadline_tracking_does_not_increment_unrelated_counters() {
    let mut metrics = SharedMetrics::default();
    metrics.record_dsp_deadline(2_500, true);
    assert_eq!(metrics.dsp_processing_deadline_misses, 1);
    assert_eq!(metrics.maximum_dsp_processing_microseconds, 2_500);
    assert_eq!(metrics.input_callback_gaps, 0);
    assert_eq!(metrics.output_ring_underruns, 0);
}

#[test]
fn unobserved_minimum_fill_is_reported_as_zero() {
    let metrics = SharedMetrics::default();
    assert_eq!(metrics.reported_minimum_input_fill(), 0);
}

#[test]
fn short_wakes_count_an_underrun_only_past_the_tolerance() {
    let mut schedule = DspSchedule::new(48_000, 2, 256, ReliabilityProfile::Reliable);
    assert_eq!(schedule.block_samples(), 512);
    assert_eq!(schedule.deadline_microseconds(), 5_333);
    assert_eq!(
        schedule.on_wake(100),
        WakeDecision::Wait {
            record_underrun: false
        }
    );
    assert_eq!(
        schedule.on_wake(100),
        WakeDecision::Wait {
            record_underrun: false
        }
    );
    assert_eq!(
        schedule.on_wake(100),
        WakeDecision::Wait {
            record_underrun: true
        }
    );
    assert_eq!(schedule.on_wake(512), WakeDecision::Process);
    assert_eq!(schedule.frames_in(101), 50);
    assert!(schedule.missed_deadline(6_000));
    assert!(!schedule.missed_deadline(5_333));
}

#[test]
fn low_latency_profile_counts_every_short_wake() {
    let mut schedule = DspSchedule::new(0, 0, 0, ReliabilityProfile::LowLatency);
    assert_eq!(schedule.block_samples(), 1);
    assert_eq!(schedule.deadline_microseconds(), 1_000_000);
    assert_eq!(
        schedule.on_wake(0),
        WakeDecision::Wait {
            record_underrun: true
        }
    );
}

#[test]
fn xorshift_sequence_is_reproducible_and_resettable() {
    let mut random = DeterministicRandom::new(1);
    let first = random.next_state();
    assert_eq!(first, 270_369);
    let second = random.next_state();
    random.reset(1);
    assert_eq!(random.next_state(), first);
    assert_eq!(random.next_state(), second);
    assert_ne!(second, 0);
}

#[test]
fn output_roles_are_labelled() {
    assert!(OutputRole::Monitor.is_monitor());
    assert!(!OutputRole::Destination.is_monitor());
    assert_eq!(OutputRole::Destination.label(), "processed destination");
    assert_eq!(OutputRole::Monitor.label(), "local monitor");
}

#[test]
fn audio_error_messages_name_the_failure() {
    assert_eq!(
        AudioError::WorkerTimeout(5).message(),
        "The audio engine did not respond within 5 seconds."
    );
    assert_eq!(
        AudioError::StartupPrefillTimeout {
            timeout_ms: 1_000,
            achieved_frames: 12,
            target_frames: 1_024,
        }
        .message(),
        "Startup prefill timed out after 1000 ms: achieved 12 of 1024 frames."
    );
    assert_eq!(
        AudioError::DeviceNotFound {
            direction: "input",
            id: "mic".to_owned(),
        }
        .message(),
        "The selected input device is no longer available (ID: mic). Refresh devices and select another device."
    );
    assert_eq!(
        OfflineResampleError::OutputTooLarge {
            requested_frames: 10,
            maximum_frames: 5,
        }
        .message(),
        "resampled audio would contain 10 frames; the limit is 5"
    );
}

#[test]
fn product_information_is_path_free_and_versioned() {
    let information = mam_voice::product::product_information("0.1.0", "windows", "x86_64");
    assert_eq!(information.product_name, "Mam Voice Changer");
    assert!(!information.application_version.is_empty());
    assert!(!information.operating_system.contains(['\\', '/']));
    assert_eq!(information.application_version, "0.1.0");
    assert!(information.prototype);
    assert_eq!(information.operating_system, "windows");
    assert_eq!(information.architecture, "x86_64");
    assert_eq!(information.backend_version, "mam-voice-changer-rust 0.1.0");
    assert!(!information.backend_version.contains(['\\', '/']));
}

fn config_range(channels: u16, min: u32, max: u32) -> mam_voice::stream_config::ConfigRange {
    mam_voice::stream_config::ConfigRange {
        channels,
        min_sample_rate: min,
        max_sample_rate: max,
        buffer_size: mam_voice::stream_config::SupportedBufferSize::Unknown,
        sample_format: mam_voice::stream_config::SampleFormat::F32,
    }
}

#[test]
fn capabilities_summarize_rates_and_distinct_sorted_channels() {
    let (minimum, maximum, common, channels) = capability_summary(&[
        config_range(2, 44_100, 44_100),
        config_range(1, 8_000, 32_000),
        config_range(2, 96_000, 192_000),
        config_range(8, 48_000, 48_000),
    ]);
    assert_eq!(minimum, Some(8_000));
    assert_eq!(maximum, Some(192_000));
    assert_eq!(common, vec![44_100, 48_000]);
    assert_eq!(channels, vec![1, 2, 8]);
}

#[test]
fn a_device_without_configurations_has_no_capabilities() {
    let (minimum, maximum, common, channels) = capability_summary(&[]);
    assert_eq!(minimum, None);
    assert_eq!(maximum, None);
    assert!(common.is_empty());
    assert!(channels.is_empty());
}

#[test]
fn described_endpoints_are_identified_by_name_and_default() {
    let device = describe_device(
        DeviceDirection::Output,
        "CABLE Input (VB-Audio Virtual Cable)",
        Some("Speakers"),
        &[config_range(2, 48_000, 48_000)],
    );
    assert!(!device.is_default);
    assert!(device.is_likely_virtual);
    assert!(device.virtual_family.is_some());
    assert_eq!(device.common_sample_rates, vec![48_000]);
    let speakers = describe_device(DeviceDirection::Output, "Speakers", Some("Speakers"), &[]);
    assert!(speakers.is_default);
    assert!(!speakers.is_likely_virtual);
    assert_eq!(speakers.virtual_family, None);
}

#[test]
fn stream_plans_size_rings_from_the_profile_and_the_largest_buffer() {
    let config = mam_voice::reliability::ReliabilityProfile::Balanced.config();
    let plan = mam_voice::stream_plan::plan_streams(0, 256, Some(512), None, 48_000, &config);
    assert_eq!(plan.dsp_channels, 1);
    assert_eq!(plan.dsp_block_frames, 512);
    assert_eq!(
        plan.input_capacity_frames,
        (48_000u64 * u64::from(config.input_ring_milliseconds) / 1_000).max(1_024)
    );
    assert!(plan.prefill_target_frames >= 512);
    assert!(plan.prefill_target_frames <= plan.output_capacity_frames / 2);
    assert_eq!(mam_voice::stream_plan::prefill_achieved(Some(10), Some(4)), 4);
    assert_eq!(mam_voice::stream_plan::prefill_achieved(None, None), 0);
}

#[test]
fn voice_lab_needs_the_live_route_fully_stopped() {
    assert!(mam_voice::engine_state::ensure_live_engine_stopped(
        mam_voice::engine_state::EngineState::Stopped
    )
    .is_ok());
    assert_eq!(
        mam_voice::engine_state::ensure_live_engine_stopped(mam_voice::engine_state::EngineState::Error)
            .unwrap_err(),
        "Stop the live Use/Test route before recording, rendering, or previewing in Voice Lab."
    );
}

#[test]
fn a_mono_input_feeds_every_stereo_output() {
    use_channels(1, 2, &[ChannelSource::Channel(0), ChannelSource::Channel(0)]);
}

#[test]
fn a_mono_output_mixes_the_stereo_input() {
    use_channels(2, 1, &[ChannelSource::Average]);
}

#[test]
fn matching_layouts_keep_their_channels() {
    use_channels(2, 2, &[ChannelSource::Channel(0), ChannelSource::Channel(1)]);
}

#[test]
fn extra_output_channels_take_the_average_and_empty_frames_are_silent() {
    use_channels(2, 3, &[ChannelSource::Channel(0), ChannelSource::Channel(1), ChannelSource::Average]);
    use_channels(0, 2, &[ChannelSource::Silence, ChannelSource::Silence]);
}

fn use_channels(input_channels: usize, output_channels: usize, expected: &[ChannelSource]) {
    for (output_channel, source) in expected.iter().enumerate() {
        assert_eq!(channel_source(input_channels, output_channel, output_channels), *source);
    }
}

fn started_streams() -> mam_voice::controller::StartedStreams {
    mam_voice::controller::StartedStreams {
        format: mam_voice::stream_config::ActiveStreamFormat {
            input_sample_rate: 48_000,
            processed_destination_sample_rate: None,
            local_monitor_sample_rate: Some(48_000),
            input_channels: 1,
            processed_destination_channels: None,
            local_monitor_channels: Some(2),
            input_sample_format: "f32".to_owned(),
            processed_destination_sample_format: None,
            local_monitor_sample_format: Some("f32".to_owned()),
            input_buffer_frames: 256,
            processed_destination_buffer_frames: None,
            local_monitor_buffer_frames: Some(256),
            dsp_block_frames: 256,
        },
        total_latency_ms_bits: 12.5f32.to_bits(),
        dsp_latency_ms_bits: 2.5f32.to_bits(),
    }
}

fn test_request() -> StartAudioRequest {
    StartAudioRequest::Test {
        input_id: "input".to_owned(),
        input_name: "Input".to_owned(),
        monitor_id: "headphones".to_owned(),
        monitor_name: "Headphones".to_owned(),
        reliability_profile: ReliabilityProfile::Balanced,
    }
}

#[test]
fn stopping_clears_the_format_and_both_latency_figures() {
    let mut supervisor = mam_voice::controller::EngineSupervisor::new();
    let mut metrics = SharedMetrics::default();
    supervisor.begin_start(&use_request(), &mut metrics);
    assert!(supervisor.finish_start(Ok(started_streams()), &mut metrics).is_ok());
    assert_eq!(metrics.total_estimated_latency_ms_bits, 12.5f32.to_bits());
    assert!(supervisor.stop(&mut metrics));
    assert_eq!(supervisor.state, EngineState::Stopped);
    assert!(metrics.active_stream_format.is_none());
    assert_eq!(f32::from_bits(metrics.total_estimated_latency_ms_bits), 0.0);
    assert_eq!(f32::from_bits(metrics.dsp_processing_latency_ms_bits), 0.0);
    assert_eq!(f32::from_bits(metrics.estimated_latency_ms_bits), 0.0);
}

#[test]
fn stop_test_ends_only_a_test_session() {
    let mut supervisor = mam_voice::controller::EngineSupervisor::new();
    let mut metrics = SharedMetrics::default();
    supervisor.begin_start(&use_request(), &mut metrics);
    assert!(supervisor.finish_start(Ok(started_streams()), &mut metrics).is_ok());
    assert!(!supervisor.stop_test(&mut metrics));
    assert_eq!(supervisor.state, EngineState::Running);
    assert!(metrics.active_stream_format.is_some());

    supervisor.begin_start(&test_request(), &mut metrics);
    assert!(supervisor.finish_start(Ok(started_streams()), &mut metrics).is_ok());
    assert!(supervisor.stop_test(&mut metrics));
    assert_eq!(supervisor.state, EngineState::Stopped);
    assert!(metrics.active_stream_format.is_none());
    assert!(metrics.route_purpose.is_none());
}

#[test]
fn lost_streams_retry_after_growing_delays_then_stop() {
    let mut supervisor = mam_voice::controller::EngineSupervisor::new();
    let mut metrics = SharedMetrics::default();
    supervisor.begin_start(&use_request(), &mut metrics);
    assert!(supervisor.finish_start(Ok(started_streams()), &mut metrics).is_ok());
    supervisor.on_runtime_event(RuntimeEvent::InputDeviceStopped("gone".to_owned()), &mut metrics);
    assert_eq!(supervisor.state, EngineState::Recovering);
    let mut delays = Vec::new();
    for _ in 0..3 {
        delays.push(supervisor.recovery.as_ref().unwrap().next_delay_ms);
        assert!(supervisor.begin_recovery_attempt(&mut metrics).is_some());
        supervisor.finish_recovery_attempt(Err("busy".to_owned()), &mut metrics);
    }
    assert_eq!(delays, vec![100, 300, 900]);
    assert_eq!(metrics.stream_restart_count, 3);
    assert_eq!(supervisor.state, EngineState::Error);
    assert!(supervisor.recovery.is_none());
    assert_eq!(
        metrics.last_runtime_error.as_deref(),
        Some("Audio recovery stopped after 3 attempts: busy")
    );
    assert!(metrics.active_stream_format.is_none());
}

#[test]
fn a_spent_recovery_plan_schedules_nothing_more() {
    let mut plan = RecoveryPlan::new(use_request());
    plan.attempts = 5;
    assert!(!plan.schedule_next());
    assert_eq!(plan.attempts, 6);
}

#[test]
fn control_characters_are_the_cc_category() {
    assert!(is_control('\u{0}'));
    assert!(is_control('\u{1f}'));
    assert!(is_control('\u{7f}'));
    assert!(is_control('\u{85}'));
    assert!(!is_control(' '));
    assert!(!is_control('\u{a0}'));
    assert!(!is_control('a'));
}
