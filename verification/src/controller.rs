use vstd::prelude::*;

use crate::engine_state::{after_moves, lemma_moves_listed, step_to, transition_allowed, EngineState};
use crate::metrics::{AudioRoutePurpose, SharedMetrics};
use crate::reliability::ReliabilityProfile;
use crate::stream_config::ActiveStreamFormat;
use crate::text::{from_chars, is_blank, to_chars, trim_spec};
use crate::words::append_chars;

verus! {

/// The waits before each recovery attempt, in milliseconds.
pub const RECOVERY_BACKOFF_MS: [u64; 3] = [100, 300, 900];

/// The length of a duration in nanoseconds.
pub uninterp spec fn duration_nanos(duration: core::time::Duration) -> u128;

/// Calls `Duration::as_nanos`, which returns the whole length of the duration in
/// nanoseconds.
#[verifier::external_body]
fn nanos_of(duration: core::time::Duration) -> (nanos: u128)
    ensures
        nanos == duration_nanos(duration),
{
    duration.as_nanos()
}

/// Where startup prefilling stands.
#[derive(Clone, Copy, Debug, PartialEq, Eq, Structural)]
pub enum StartupPrefillDecision {
    Waiting,
    Ready,
    TimedOut,
}

/// Prefill is ready once the target is reached; otherwise it times out once the
/// timeout has elapsed, and waits before that.
pub open spec fn prefill_decision_spec(
    achieved_frames: usize,
    target_frames: usize,
    elapsed_nanos: u128,
    timeout_nanos: u128,
) -> StartupPrefillDecision {
    if achieved_frames >= target_frames {
        StartupPrefillDecision::Ready
    } else if elapsed_nanos >= timeout_nanos {
        StartupPrefillDecision::TimedOut
    } else {
        StartupPrefillDecision::Waiting
    }
}

pub fn startup_prefill_decision(
    achieved_frames: usize,
    target_frames: usize,
    elapsed: core::time::Duration,
    timeout: core::time::Duration,
) -> (decision: StartupPrefillDecision)
    ensures
        decision == prefill_decision_spec(
            achieved_frames,
            target_frames,
            duration_nanos(elapsed),
            duration_nanos(timeout),
        ),
{
    if achieved_frames >= target_frames {
        StartupPrefillDecision::Ready
    } else if nanos_of(elapsed) >= nanos_of(timeout) {
        StartupPrefillDecision::TimedOut
    } else {
        StartupPrefillDecision::Waiting
    }
}

/// What a live session is asked to do: process into a destination (Use) or monitor
/// locally (Test).
#[derive(Debug)]
pub enum StartAudioRequest {
    Use {
        input_id: String,
        input_name: String,
        processed_destination_id: String,
        processed_destination_name: String,
        reliability_profile: ReliabilityProfile,
    },
    Test {
        input_id: String,
        input_name: String,
        monitor_id: String,
        monitor_name: String,
        reliability_profile: ReliabilityProfile,
    },
}

impl Clone for StartAudioRequest {
    fn clone(&self) -> (copy: Self)
        ensures
            copy == *self,
    {
        match self {
            StartAudioRequest::Use {
                input_id,
                input_name,
                processed_destination_id,
                processed_destination_name,
                reliability_profile,
            } => StartAudioRequest::Use {
                input_id: input_id.clone(),
                input_name: input_name.clone(),
                processed_destination_id: processed_destination_id.clone(),
                processed_destination_name: processed_destination_name.clone(),
                reliability_profile: *reliability_profile,
            },
            StartAudioRequest::Test {
                input_id,
                input_name,
                monitor_id,
                monitor_name,
                reliability_profile,
            } => StartAudioRequest::Test {
                input_id: input_id.clone(),
                input_name: input_name.clone(),
                monitor_id: monitor_id.clone(),
                monitor_name: monitor_name.clone(),
                reliability_profile: *reliability_profile,
            },
        }
    }
}

/// The message for a missing device of the given purpose.
pub open spec fn missing_device_message(purpose: Seq<char>) -> Seq<char> {
    "A valid "@ + purpose + " must be selected."@
}

/// A device selection is valid when neither its identifier nor its name is blank.
pub open spec fn device_selected(id: Seq<char>, name: Seq<char>) -> bool {
    trim_spec(id).len() > 0 && trim_spec(name).len() > 0
}

pub fn validate_device(purpose: &str, id: &str, name: &str) -> (result: Result<(), String>)
    ensures
        device_selected(id@, name@) ==> result is Ok,
        !device_selected(id@, name@) ==> (result matches Err(m) && m@ == missing_device_message(
            purpose@,
        )),
{
    if is_blank(id) || is_blank(name) {
        let mut message = to_chars("A valid ");
        append_chars(&mut message, to_chars(purpose).as_slice());
        append_chars(&mut message, to_chars(" must be selected.").as_slice());
        Err(from_chars(message.as_slice()))
    } else {
        Ok(())
    }
}

/// The outcome of validating a start request.
pub open spec fn request_validation(request: StartAudioRequest) -> Result<(), Seq<char>> {
    match request {
        StartAudioRequest::Use {
            input_id,
            input_name,
            processed_destination_id,
            processed_destination_name,
            ..
        } => if !device_selected(input_id@, input_name@) {
            Err(missing_device_message("input microphone"@))
        } else if !device_selected(processed_destination_id@, processed_destination_name@) {
            Err(missing_device_message("processed destination"@))
        } else {
            Ok(())
        },
        StartAudioRequest::Test { input_id, input_name, monitor_id, monitor_name, .. } => if !device_selected(
            input_id@,
            input_name@,
        ) {
            Err(missing_device_message("input microphone"@))
        } else if !device_selected(monitor_id@, monitor_name@) {
            Err(missing_device_message("Test monitor"@))
        } else {
            Ok(())
        },
    }
}

/// The input device of a request.
pub open spec fn request_input(request: StartAudioRequest) -> (String, String) {
    match request {
        StartAudioRequest::Use { input_id, input_name, .. } => (input_id, input_name),
        StartAudioRequest::Test { input_id, input_name, .. } => (input_id, input_name),
    }
}

/// The buffering profile of a request.
pub open spec fn request_profile(request: StartAudioRequest) -> ReliabilityProfile {
    match request {
        StartAudioRequest::Use { reliability_profile, .. } => reliability_profile,
        StartAudioRequest::Test { reliability_profile, .. } => reliability_profile,
    }
}

/// The route purpose of a request.
pub open spec fn request_purpose(request: StartAudioRequest) -> AudioRoutePurpose {
    match request {
        StartAudioRequest::Use { .. } => AudioRoutePurpose::Use,
        StartAudioRequest::Test { .. } => AudioRoutePurpose::Test,
    }
}

impl StartAudioRequest {
    pub fn validate(&self) -> (result: Result<(), String>)
        ensures
            match result {
                Ok(()) => request_validation(*self) is Ok,
                Err(m) => request_validation(*self) == Err::<(), Seq<char>>(m@),
            },
    {
        match self {
            StartAudioRequest::Use {
                input_id,
                input_name,
                processed_destination_id,
                processed_destination_name,
                ..
            } => {
                validate_device("input microphone", input_id.as_str(), input_name.as_str())?;
                validate_device(
                    "processed destination",
                    processed_destination_id.as_str(),
                    processed_destination_name.as_str(),
                )?;
            },
            StartAudioRequest::Test { input_id, input_name, monitor_id, monitor_name, .. } => {
                validate_device("input microphone", input_id.as_str(), input_name.as_str())?;
                validate_device("Test monitor", monitor_id.as_str(), monitor_name.as_str())?;
            },
        }
        Ok(())
    }

    pub fn input(&self) -> (input: (&str, &str))
        ensures
            input.0@ == request_input(*self).0@,
            input.1@ == request_input(*self).1@,
    {
        match self {
            StartAudioRequest::Use { input_id, input_name, .. } => (
                input_id.as_str(),
                input_name.as_str(),
            ),
            StartAudioRequest::Test { input_id, input_name, .. } => (
                input_id.as_str(),
                input_name.as_str(),
            ),
        }
    }

    pub fn reliability_profile(&self) -> (profile: ReliabilityProfile)
        ensures
            profile == request_profile(*self),
    {
        match self {
            StartAudioRequest::Use { reliability_profile, .. } => *reliability_profile,
            StartAudioRequest::Test { reliability_profile, .. } => *reliability_profile,
        }
    }

    pub fn route_purpose(&self) -> (purpose: AudioRoutePurpose)
        ensures
            purpose == request_purpose(*self),
    {
        match self {
            StartAudioRequest::Use { .. } => AudioRoutePurpose::Use,
            StartAudioRequest::Test { .. } => AudioRoutePurpose::Test,
        }
    }

    /// Whether this is a Test (local monitoring) request.
    pub fn is_test(&self) -> (test: bool)
        ensures
            test == (*self is Test),
    {
        match self {
            StartAudioRequest::Use { .. } => false,
            StartAudioRequest::Test { .. } => true,
        }
    }
}

// ---------------------------------------------------------------------------
// Bounded recovery.
// ---------------------------------------------------------------------------
/// A bounded sequence of restart attempts for one request.
#[derive(Debug)]
pub struct RecoveryPlan {
    pub request: StartAudioRequest,
    pub attempts: usize,
    /// How long to wait, from when the plan was made or last rescheduled, before the
    /// next attempt.
    pub next_delay_ms: u64,
}

/// The wait before attempt number `attempt` (counting from zero).
pub open spec fn backoff_spec(attempt: int) -> u64 {
    if attempt == 0 {
        100
    } else if attempt == 1 {
        300
    } else {
        900
    }
}

impl RecoveryPlan {
    pub fn new(request: StartAudioRequest) -> (plan: Self)
        ensures
            plan.request == request,
            plan.attempts == 0,
            plan.next_delay_ms == backoff_spec(0),
    {
        RecoveryPlan { request, attempts: 0, next_delay_ms: RECOVERY_BACKOFF_MS[0] }
    }

    /// Counts a failed attempt; schedules another one while attempts remain.
    pub fn schedule_next(&mut self) -> (again: bool)
        requires
            old(self).attempts < usize::MAX,
        ensures
            final(self).attempts == old(self).attempts + 1,
            final(self).request == old(self).request,
            again == (final(self).attempts < 3),
            again ==> final(self).next_delay_ms == backoff_spec(final(self).attempts as int),
            !again ==> final(self).next_delay_ms == old(self).next_delay_ms,
    {
        self.attempts = self.attempts + 1;
        if self.attempts >= RECOVERY_BACKOFF_MS.len() {
            return false;
        }
        self.next_delay_ms = RECOVERY_BACKOFF_MS[self.attempts];
        true
    }
}

// ---------------------------------------------------------------------------
// The engine supervisor: the decisions of the audio worker.
// ---------------------------------------------------------------------------
/// A failure reported by a running stream.
#[derive(Debug)]
pub enum RuntimeEvent {
    InputDeviceStopped(String),
    DestinationDeviceStopped(String),
    MonitorDeviceStopped(String),
    DspProducedInvalidAudio,
}

/// What the worker does with its streams after an event.
#[derive(Clone, Copy, Debug, PartialEq, Eq, Structural)]
pub enum StreamAction {
    Keep,
    DropAll,
    DropMonitor,
}

/// Details of streams that started successfully.
pub struct StartedStreams {
    pub format: ActiveStreamFormat,
    pub total_latency_ms_bits: u32,
    pub dsp_latency_ms_bits: u32,
}

/// The worker's bookkeeping between commands and stream events.
pub struct EngineSupervisor {
    pub state: EngineState,
    pub streams_running: bool,
    pub monitor_running: bool,
    pub active_request: Option<StartAudioRequest>,
    pub recovery: Option<RecoveryPlan>,
}

/// The supervisor and the metrics agree on the state, recovery never runs beside live
/// streams, a recovery plan belongs to an active request and is within its bounds.
pub open spec fn supervisor_wf(s: EngineSupervisor, m: SharedMetrics) -> bool {
    &&& s.state == m.state
    &&& !(s.streams_running && s.recovery is Some)
    &&& s.recovery is Some ==> s.active_request is Some && s.recovery.unwrap().attempts < 3
    &&& !s.streams_running ==> !s.monitor_running
    &&& (s.state == EngineState::Running || s.state == EngineState::Degraded) ==> s.streams_running
    &&& s.state == EngineState::Recovering ==> s.recovery is Some
}

/// The active request is a Test session.
pub open spec fn test_session(request: Option<StartAudioRequest>) -> bool {
    request matches Some(r) && r is Test
}

/// Moves to `next` when the lifecycle allows it, and publishes the state.
pub fn transition(state: &mut EngineState, next: EngineState, metrics: &mut SharedMetrics)
    requires
        old(metrics).state == *old(state),
    ensures
        transition_allowed(*old(state), next) ==> *final(state) == next,
        !transition_allowed(*old(state), next) ==> *final(state) == *old(state),
        final(metrics).state == *final(state),
        final(metrics).input_callback_gaps == old(metrics).input_callback_gaps,
        final(metrics).route_purpose == old(metrics).route_purpose,
        final(metrics).last_runtime_error == old(metrics).last_runtime_error,
        final(metrics).active_stream_format == old(metrics).active_stream_format,
        final(metrics).stream_restart_count == old(metrics).stream_restart_count,
        final(metrics).total_estimated_latency_ms_bits == old(metrics).total_estimated_latency_ms_bits,
        final(metrics).dsp_processing_latency_ms_bits == old(metrics).dsp_processing_latency_ms_bits,
{
    if state.can_transition_to(next) {
        *state = next;
        metrics.set_state(next);
    }
}

/// `text` followed by `details` and `tail`.
fn message3(head: &str, details: &str, tail: &str) -> (message: String)
    ensures
        message@ == head@ + details@ + tail@,
{
    let mut text = to_chars(head);
    append_chars(&mut text, to_chars(details).as_slice());
    append_chars(&mut text, to_chars(tail).as_slice());
    from_chars(text.as_slice())
}

/// `head` followed by `details`.
fn message2(head: &str, details: &str) -> (message: String)
    ensures
        message@ == head@ + details@,
{
    let mut text = to_chars(head);
    append_chars(&mut text, to_chars(details).as_slice());
    from_chars(text.as_slice())
}

/// The state after the streams are lost: recovering a session that was asked for,
/// otherwise an error (each only where the lifecycle allows the step).
pub open spec fn after_lost_streams(state: EngineState, request: Option<StartAudioRequest>) -> EngineState {
    if request is Some {
        if transition_allowed(state, EngineState::Recovering) {
            EngineState::Recovering
        } else {
            state
        }
    } else if transition_allowed(state, EngineState::Error) {
        EngineState::Error
    } else {
        state
    }
}

/// The moves asked for when the streams are lost: recovery of a session that was asked
/// for, otherwise an error.
pub open spec fn lost_moves(request: Option<StartAudioRequest>) -> Seq<EngineState> {
    if request is Some {
        seq![EngineState::Recovering]
    } else {
        seq![EngineState::Error]
    }
}

/// The moves asked for on a stream event.
pub open spec fn event_moves(event: RuntimeEvent, request: Option<StartAudioRequest>) -> Seq<EngineState> {
    match event {
        RuntimeEvent::MonitorDeviceStopped(_) => if test_session(request) {
            lost_moves(request)
        } else {
            seq![EngineState::Degraded]
        },
        RuntimeEvent::InputDeviceStopped(_) => lost_moves(request),
        RuntimeEvent::DestinationDeviceStopped(_) => lost_moves(request),
        RuntimeEvent::DspProducedInvalidAudio => seq![EngineState::Error],
    }
}

/// The moves asked for by a stop: through `Stopping` when streams run or recovery is
/// planned, then `Stopped`.
pub open spec fn stop_moves(busy: bool) -> Seq<EngineState> {
    if busy {
        seq![EngineState::Stopping, EngineState::Stopped]
    } else {
        seq![EngineState::Stopped]
    }
}

/// The moves asked for when a start begins: a stop first when something runs, then
/// `Starting`.
pub open spec fn start_moves(busy: bool) -> Seq<EngineState> {
    if busy {
        seq![EngineState::Stopping, EngineState::Stopped, EngineState::Starting]
    } else {
        seq![EngineState::Starting]
    }
}

/// What a failed recovery attempt leaves of a plan that had made `attempts` attempts:
/// the attempts made and the wait before the next, or nothing once three were made.
pub open spec fn after_failed_attempt(attempts: nat) -> Option<(nat, u64)> {
    if attempts + 1 < 3 {
        Some(((attempts + 1) as nat, backoff_spec((attempts + 1) as int)))
    } else {
        None
    }
}

/// Bounded recovery: a lost session waits 100 ms before its first restart; each failed
/// restart schedules the next after 300 and then 900 ms; the third failure ends
/// recovery.
pub proof fn lemma_recovery_makes_three_attempts()
    ensures
        backoff_spec(0) == 100,
        after_failed_attempt(0) == Some((1nat, 300u64)),
        after_failed_attempt(1) == Some((2nat, 900u64)),
        after_failed_attempt(2) is None,
{
}

impl EngineSupervisor {
    pub fn new() -> (s: Self)
        ensures
            s.state == EngineState::Stopped,
            !s.streams_running,
            !s.monitor_running,
            s.active_request is None,
            s.recovery is None,
    {
        EngineSupervisor {
            state: EngineState::Stopped,
            streams_running: false,
            monitor_running: false,
            active_request: None,
            recovery: None,
        }
    }

    /// Loses the streams because a device stopped; plans recovery of the active request.
    fn lose_streams_and_recover(&mut self, metrics: &mut SharedMetrics)
        requires
            supervisor_wf(*old(self), *old(metrics)),
        ensures
            supervisor_wf(*final(self), *final(metrics)),
            !final(self).streams_running,
            final(self).active_request == old(self).active_request,
            old(self).active_request matches Some(r) ==> final(self).recovery matches Some(p)
                && p.request == r && p.attempts == 0 && p.next_delay_ms == backoff_spec(0),
            old(self).active_request is Some ==> final(self).state == if transition_allowed(
                old(self).state,
                EngineState::Recovering,
            ) {
                EngineState::Recovering
            } else {
                old(self).state
            },
            old(self).active_request is None ==> final(self).state == if transition_allowed(
                old(self).state,
                EngineState::Error,
            ) {
                EngineState::Error
            } else {
                old(self).state
            },
            old(self).active_request is None ==> final(self).recovery == old(self).recovery,
            final(metrics).last_runtime_error == old(metrics).last_runtime_error,
            final(metrics).route_purpose == old(metrics).route_purpose,
    {
        self.streams_running = false;
        self.monitor_running = false;
        match &self.active_request {
            Some(request) => {
                self.recovery = Some(RecoveryPlan::new(request.clone()));
                transition(&mut self.state, EngineState::Recovering, metrics);
            },
            None => {
                transition(&mut self.state, EngineState::Error, metrics);
            },
        }
    }

    /// Reacts to a failure that a stream reported.
    pub fn on_runtime_event(&mut self, event: RuntimeEvent, metrics: &mut SharedMetrics) -> (action:
        StreamAction)
        requires
            supervisor_wf(*old(self), *old(metrics)),
        ensures
            supervisor_wf(*final(self), *final(metrics)),
            match event {
                RuntimeEvent::MonitorDeviceStopped(details) => if test_session(
                    old(self).active_request,
                ) {
                    &&& action == StreamAction::DropAll
                    &&& final(metrics).last_runtime_error matches Some(e) && e@ == "Test monitor stopped: "@
                        + details@ + ". Bounded recovery is in progress."@
                    &&& final(self).recovery matches Some(p) && p.request == old(
                        self,
                    ).active_request.unwrap() && p.attempts == 0 && p.next_delay_ms == backoff_spec(0)
                    &&& final(self).state == after_lost_streams(old(self).state, old(self).active_request)
                } else {
                    &&& action == StreamAction::DropMonitor
                    &&& final(self).streams_running == old(self).streams_running
                    &&& !final(self).monitor_running
                    &&& final(metrics).last_runtime_error matches Some(e) && e@ == "Local monitor stopped: "@
                        + details@ + ". The processed destination remains active."@
                    &&& final(self).state == if transition_allowed(
                        old(self).state,
                        EngineState::Degraded,
                    ) {
                        EngineState::Degraded
                    } else {
                        old(self).state
                    }
                },
                RuntimeEvent::InputDeviceStopped(details) => {
                    &&& action == StreamAction::DropAll
                    &&& final(metrics).last_runtime_error matches Some(e) && e@ == "Audio stream stopped: "@
                        + details@ + ". Bounded recovery is in progress."@
                    &&& old(self).active_request matches Some(r) ==> final(self).recovery matches Some(p)
                        && p.request == r && p.attempts == 0 && p.next_delay_ms == backoff_spec(0)
                    &&& old(self).active_request is None ==> final(self).recovery == old(self).recovery
                    &&& final(self).state == after_lost_streams(old(self).state, old(self).active_request)
                },
                RuntimeEvent::DestinationDeviceStopped(details) => {
                    &&& action == StreamAction::DropAll
                    &&& final(metrics).last_runtime_error matches Some(e) && e@ == "Audio stream stopped: "@
                        + details@ + ". Bounded recovery is in progress."@
                    &&& old(self).active_request matches Some(r) ==> final(self).recovery matches Some(p)
                        && p.request == r && p.attempts == 0 && p.next_delay_ms == backoff_spec(0)
                    &&& old(self).active_request is None ==> final(self).recovery == old(self).recovery
                    &&& final(self).state == after_lost_streams(old(self).state, old(self).active_request)
                },
                RuntimeEvent::DspProducedInvalidAudio => {
                    &&& action == StreamAction::DropAll
                    &&& final(self).recovery is None
                    &&& final(metrics).last_runtime_error matches Some(e) && e@
                        == "DSP processing produced invalid audio. Reset processing controls before restarting."@
                    &&& final(self).state == if transition_allowed(
                        old(self).state,
                        EngineState::Error,
                    ) {
                        EngineState::Error
                    } else {
                        old(self).state
                    }
                },
            },
            action == StreamAction::DropAll ==> !final(self).streams_running,
            final(self).active_request == old(self).active_request,
            final(self).state == after_moves(old(self).state, event_moves(event, old(self).active_request)),
    {
        proof {
            lemma_moves_listed(self.state, EngineState::Recovering, EngineState::Error, EngineState::Degraded);
            lemma_moves_listed(self.state, EngineState::Error, EngineState::Error, EngineState::Error);
            lemma_moves_listed(self.state, EngineState::Degraded, EngineState::Error, EngineState::Error);
        }
        match event {
            RuntimeEvent::MonitorDeviceStopped(details) => {
                let monitor_is_only_output = match &self.active_request {
                    Some(request) => request.is_test(),
                    None => false,
                };
                if monitor_is_only_output {
                    metrics.set_last_error(
                        Some(
                            message3(
                                "Test monitor stopped: ",
                                details.as_str(),
                                ". Bounded recovery is in progress.",
                            ),
                        ),
                    );
                    self.lose_streams_and_recover(metrics);
                    StreamAction::DropAll
                } else {
                    self.monitor_running = false;
                    metrics.set_last_error(
                        Some(
                            message3(
                                "Local monitor stopped: ",
                                details.as_str(),
                                ". The processed destination remains active.",
                            ),
                        ),
                    );
                    transition(&mut self.state, EngineState::Degraded, metrics);
                    StreamAction::DropMonitor
                }
            },
            RuntimeEvent::InputDeviceStopped(details) => {
                metrics.set_last_error(
                    Some(
                        message3(
                            "Audio stream stopped: ",
                            details.as_str(),
                            ". Bounded recovery is in progress.",
                        ),
                    ),
                );
                self.lose_streams_and_recover(metrics);
                StreamAction::DropAll
            },
            RuntimeEvent::DestinationDeviceStopped(details) => {
                metrics.set_last_error(
                    Some(
                        message3(
                            "Audio stream stopped: ",
                            details.as_str(),
                            ". Bounded recovery is in progress.",
                        ),
                    ),
                );
                self.lose_streams_and_recover(metrics);
                StreamAction::DropAll
            },
            RuntimeEvent::DspProducedInvalidAudio => {
                self.streams_running = false;
                self.monitor_running = false;
                self.recovery = None;
                metrics.set_last_error(
                    Some(
                        from_chars(
                            to_chars(
                                "DSP processing produced invalid audio. Reset processing controls before restarting.",
                            ).as_slice(),
                        ),
                    ),
                );
                transition(&mut self.state, EngineState::Error, metrics);
                StreamAction::DropAll
            },
        }
    }

    /// Starts a due recovery attempt: counts the restart and hands out the request to
    /// start again.
    pub fn begin_recovery_attempt(&mut self, metrics: &mut SharedMetrics) -> (request: Option<
        StartAudioRequest,
    >)
        requires
            supervisor_wf(*old(self), *old(metrics)),
        ensures
            supervisor_wf(*final(self), *final(metrics)),
            match old(self).recovery {
                Some(p) => request == Some(p.request) && final(metrics).stream_restart_count == old(
                    metrics,
                ).stream_restart_count.wrapping_add(1),
                None => request is None && final(metrics).stream_restart_count == old(
                    metrics,
                ).stream_restart_count,
            },
            final(self).recovery == old(self).recovery,
            final(self).state == old(self).state,
    {
        match &self.recovery {
            Some(plan) => {
                metrics.record_stream_restart();
                Some(plan.request.clone())
            },
            None => None,
        }
    }

    /// Finishes a recovery attempt: resumes running, schedules another bounded retry,
    /// or gives up with an error.
    pub fn finish_recovery_attempt(
        &mut self,
        result: Result<StartedStreams, String>,
        metrics: &mut SharedMetrics,
    )
        requires
            supervisor_wf(*old(self), *old(metrics)),
            old(self).recovery is Some,
            !old(self).streams_running,
        ensures
            supervisor_wf(*final(self), *final(metrics)),
            match result {
                Ok(started) => {
                    &&& final(self).streams_running
                    &&& final(self).recovery is None
                    &&& final(metrics).last_runtime_error is None
                    &&& final(metrics).active_stream_format == Some(started.format)
                    &&& final(metrics).total_estimated_latency_ms_bits == started.total_latency_ms_bits
                    &&& final(metrics).dsp_processing_latency_ms_bits == started.dsp_latency_ms_bits
                    &&& final(self).monitor_running == test_session(old(self).active_request)
                    &&& final(self).state == if transition_allowed(
                        old(self).state,
                        EngineState::Running,
                    ) {
                        EngineState::Running
                    } else {
                        old(self).state
                    }
                },
                Err(message) => if old(self).recovery.unwrap().attempts + 1 < 3 {
                    &&& final(self).recovery matches Some(p) && p.attempts == old(
                        self,
                    ).recovery.unwrap().attempts + 1 && p.request == old(self).recovery.unwrap().request
                        && p.next_delay_ms == backoff_spec(p.attempts as int)
                    &&& final(metrics).last_runtime_error matches Some(e) && e@ == "Recovery attempt failed: "@
                        + message@ + ". Another bounded retry is scheduled."@
                    &&& final(self).state == old(self).state
                } else {
                    &&& final(self).recovery is None
                    &&& final(metrics).last_runtime_error matches Some(e) && e@
                        == "Audio recovery stopped after 3 attempts: "@ + message@
                    &&& final(metrics).active_stream_format is None
                    &&& final(self).state == if transition_allowed(
                        old(self).state,
                        EngineState::Error,
                    ) {
                        EngineState::Error
                    } else {
                        old(self).state
                    }
                },
            },
            final(self).active_request == old(self).active_request,
            result is Err ==> match after_failed_attempt(old(self).recovery.unwrap().attempts as nat) {
                Some((attempts, delay)) => final(self).recovery matches Some(p) && p.attempts == attempts
                    && p.next_delay_ms == delay,
                None => final(self).recovery is None,
            },
            final(self).state == after_moves(
                old(self).state,
                match result {
                    Ok(_) => seq![EngineState::Running],
                    Err(_) => if old(self).recovery.unwrap().attempts + 1 < 3 {
                        Seq::<EngineState>::empty()
                    } else {
                        seq![EngineState::Error]
                    },
                },
            ),
    {
        proof {
            lemma_moves_listed(self.state, EngineState::Running, EngineState::Error, EngineState::Error);
            lemma_moves_listed(self.state, EngineState::Error, EngineState::Error, EngineState::Error);
        }
        let mut plan = self.recovery.take().unwrap();
        match result {
            Ok(started) => {
                metrics.set_stream_details(
                    started.format,
                    started.total_latency_ms_bits,
                    started.dsp_latency_ms_bits,
                );
                metrics.set_last_error(None);
                self.streams_running = true;
                self.monitor_running = match &self.active_request {
                    Some(request) => request.is_test(),
                    None => false,
                };
                transition(&mut self.state, EngineState::Running, metrics);
            },
            Err(message) => {
                if plan.schedule_next() {
                    metrics.set_last_error(
                        Some(
                            message3(
                                "Recovery attempt failed: ",
                                message.as_str(),
                                ". Another bounded retry is scheduled.",
                            ),
                        ),
                    );
                    self.recovery = Some(plan);
                } else {
                    metrics.set_last_error(
                        Some(
                            message2("Audio recovery stopped after 3 attempts: ", message.as_str()),
                        ),
                    );
                    metrics.clear_stream_details();
                    transition(&mut self.state, EngineState::Error, metrics);
                }
            },
        }
    }

    /// Prepares a start: stops what runs, then enters `Starting` with a fresh session.
    /// Returns whether running streams must be dropped first.
    pub fn begin_start(&mut self, request: &StartAudioRequest, metrics: &mut SharedMetrics) -> (drop_streams:
        bool)
        requires
            supervisor_wf(*old(self), *old(metrics)),
        ensures
            supervisor_wf(*final(self), *final(metrics)),
            drop_streams == old(self).streams_running,
            !final(self).streams_running,
            final(self).recovery is None,
            final(self).active_request == Some(*request),
            final(metrics).reliability_profile == request_profile(*request),
            final(metrics).route_purpose == Some(request_purpose(*request)),
            crate::metrics::session_counters_cleared(*final(metrics)),
            final(metrics).last_runtime_error is None,
            final(self).state == after_moves(
                old(self).state,
                start_moves(old(self).streams_running || old(self).recovery is Some),
            ),
    {
        proof {
            lemma_moves_listed(self.state, EngineState::Stopping, EngineState::Stopped, EngineState::Starting);
            lemma_moves_listed(self.state, EngineState::Starting, EngineState::Starting, EngineState::Starting);
        }
        let drop_streams = self.streams_running;
        if self.streams_running || self.recovery.is_some() {
            self.streams_running = false;
            self.monitor_running = false;
            self.recovery = None;
            transition(&mut self.state, EngineState::Stopping, metrics);
            transition(&mut self.state, EngineState::Stopped, metrics);
        }
        self.active_request = Some(request.clone());
        transition(&mut self.state, EngineState::Starting, metrics);
        metrics.reset_session(request.reliability_profile());
        metrics.set_route_purpose(Some(request.route_purpose()));
        metrics.set_last_error(None);
        drop_streams
    }

    /// Finishes a start with the outcome of opening the streams, and answers the caller.
    pub fn finish_start(&mut self, result: Result<StartedStreams, String>, metrics: &mut SharedMetrics) -> (reply:
        Result<(), String>)
        requires
            supervisor_wf(*old(self), *old(metrics)),
            !old(self).streams_running,
            old(self).recovery is None,
        ensures
            supervisor_wf(*final(self), *final(metrics)),
            match result {
                Ok(started) => {
                    &&& reply is Ok
                    &&& final(self).streams_running
                    &&& final(metrics).active_stream_format == Some(started.format)
                    &&& final(metrics).total_estimated_latency_ms_bits == started.total_latency_ms_bits
                    &&& final(metrics).dsp_processing_latency_ms_bits == started.dsp_latency_ms_bits
                    &&& final(self).monitor_running == test_session(old(self).active_request)
                    &&& final(self).active_request == old(self).active_request
                    &&& final(self).state == if transition_allowed(
                        old(self).state,
                        EngineState::Running,
                    ) {
                        EngineState::Running
                    } else {
                        old(self).state
                    }
                },
                Err(message) => {
                    &&& reply matches Err(r) && r@ == message@
                    &&& !final(self).streams_running
                    &&& final(self).active_request is None
                    &&& final(metrics).route_purpose is None
                    &&& final(metrics).last_runtime_error matches Some(e) && e@ == message@
                    &&& final(metrics).active_stream_format is None
                    &&& final(self).state == if transition_allowed(
                        old(self).state,
                        EngineState::Error,
                    ) {
                        EngineState::Error
                    } else {
                        old(self).state
                    }
                },
            },
            final(self).recovery is None,
            final(self).state == after_moves(
                old(self).state,
                match result {
                    Ok(_) => seq![EngineState::Running],
                    Err(_) => seq![EngineState::Error],
                },
            ),
    {
        proof {
            lemma_moves_listed(self.state, EngineState::Running, EngineState::Error, EngineState::Error);
            lemma_moves_listed(self.state, EngineState::Error, EngineState::Error, EngineState::Error);
        }
        match result {
            Ok(started) => {
                metrics.set_stream_details(
                    started.format,
                    started.total_latency_ms_bits,
                    started.dsp_latency_ms_bits,
                );
                self.streams_running = true;
                self.monitor_running = match &self.active_request {
                    Some(request) => request.is_test(),
                    None => false,
                };
                transition(&mut self.state, EngineState::Running, metrics);
                Ok(())
            },
            Err(message) => {
                self.active_request = None;
                metrics.set_route_purpose(None);
                metrics.set_last_error(Some(message.clone()));
                metrics.clear_stream_details();
                transition(&mut self.state, EngineState::Error, metrics);
                Err(message)
            },
        }
    }

    /// Stops everything. Returns whether running streams must be dropped.
    pub fn stop(&mut self, metrics: &mut SharedMetrics) -> (drop_streams: bool)
        requires
            supervisor_wf(*old(self), *old(metrics)),
        ensures
            supervisor_wf(*final(self), *final(metrics)),
            drop_streams == old(self).streams_running,
            !final(self).streams_running,
            final(self).recovery is None,
            final(self).active_request is None,
            final(metrics).route_purpose is None,
            final(metrics).active_stream_format is None,
            final(metrics).estimated_latency_ms_bits == crate::metrics::ZERO_F32_BITS,
            final(metrics).total_estimated_latency_ms_bits == crate::metrics::ZERO_F32_BITS,
            final(metrics).dsp_processing_latency_ms_bits == crate::metrics::ZERO_F32_BITS,
            final(self).state == EngineState::Stopped,
            final(self).state == after_moves(
                old(self).state,
                stop_moves(old(self).streams_running || old(self).recovery is Some),
            ),
    {
        proof {
            lemma_moves_listed(self.state, EngineState::Stopping, EngineState::Stopped, EngineState::Stopped);
            lemma_moves_listed(self.state, EngineState::Stopped, EngineState::Stopped, EngineState::Stopped);
        }
        let drop_streams = self.streams_running;
        if self.streams_running || self.recovery.is_some() {
            transition(&mut self.state, EngineState::Stopping, metrics);
        }
        self.streams_running = false;
        self.monitor_running = false;
        self.recovery = None;
        self.active_request = None;
        transition(&mut self.state, EngineState::Stopped, metrics);
        metrics.set_route_purpose(None);
        metrics.clear_stream_details();
        drop_streams
    }

    /// Stops only a Test session; a Use session keeps running. Returns whether running
    /// streams must be dropped.
    pub fn stop_test(&mut self, metrics: &mut SharedMetrics) -> (drop_streams: bool)
        requires
            supervisor_wf(*old(self), *old(metrics)),
        ensures
            supervisor_wf(*final(self), *final(metrics)),
            test_session(old(self).active_request) ==> (drop_streams == old(self).streams_running
                && !final(self).streams_running && final(self).active_request is None
                && final(self).recovery is None && final(self).state == EngineState::Stopped
                && final(metrics).route_purpose is None && final(metrics).active_stream_format is None
                && final(metrics).estimated_latency_ms_bits == crate::metrics::ZERO_F32_BITS
                && final(metrics).total_estimated_latency_ms_bits == crate::metrics::ZERO_F32_BITS
                && final(metrics).dsp_processing_latency_ms_bits == crate::metrics::ZERO_F32_BITS),
            !test_session(old(self).active_request) ==> (!drop_streams && *final(self) == *old(self)
                && *final(metrics) == *old(metrics)),
            final(self).state == after_moves(
                old(self).state,
                if test_session(old(self).active_request) {
                    stop_moves(old(self).streams_running || old(self).recovery is Some)
                } else {
                    Seq::<EngineState>::empty()
                },
            ),
    {
        proof {
            lemma_moves_listed(self.state, EngineState::Stopped, EngineState::Stopped, EngineState::Stopped);
        }
        let is_test = match &self.active_request {
            Some(request) => request.is_test(),
            None => false,
        };
        if is_test {
            self.stop(metrics)
        } else {
            false
        }
    }
}

/// A recovery plan never allows more than three attempts.
pub proof fn lemma_recovery_is_bounded(attempts: usize)
    requires
        attempts < 3,
    ensures
        attempts + 1 >= 3 ==> attempts + 1 == 3,
        backoff_spec(attempts as int) <= 900,
{
}

} // verus!
