use vstd::prelude::*;

use crate::text::{from_chars, to_chars};

verus! {

/// The overall verdict on a take.
#[derive(Clone, Copy, Debug, PartialEq, Eq, Structural)]
pub enum QualityClassification {
    Pass,
    Warning,
    Fail,
}

/// Why a take was flagged.
#[derive(Clone, Copy, Debug, PartialEq, Eq, Structural)]
pub enum QualityReasonCode {
    TooShort,
    TooLong,
    Clipping,
    LevelTooLow,
    LevelTooHigh,
    ExcessiveLeadingSilence,
    ExcessiveTrailingSilence,
    ExcessiveSilence,
    LowEstimatedSnr,
    PossibleDropout,
    CaptureOverflow,
    NonFiniteInput,
    UnsupportedFormat,
    ManualReviewRequired,
}

/// A flagged problem and what the speaker can do about it.
#[derive(Clone, Debug)]
pub struct QualityReason {
    pub code: QualityReasonCode,
    pub guidance: String,
}

/// How serious a classification is: a pass below a warning below a failure.
pub open spec fn severity(c: QualityClassification) -> int {
    match c {
        QualityClassification::Pass => 0,
        QualityClassification::Warning => 1,
        QualityClassification::Fail => 2,
    }
}

/// The more serious of two classifications.
pub open spec fn worse_spec(left: QualityClassification, right: QualityClassification) -> QualityClassification {
    if severity(left) >= severity(right) {
        left
    } else {
        right
    }
}

/// The more serious of two classifications.
pub fn worse(left: QualityClassification, right: QualityClassification) -> (result: QualityClassification)
    ensures
        result == worse_spec(left, right),
        severity(result) == if severity(left) >= severity(right) {
            severity(left)
        } else {
            severity(right)
        },
{
    match (left, right) {
        (QualityClassification::Fail, _) | (_, QualityClassification::Fail) => QualityClassification::Fail,
        (QualityClassification::Warning, _) | (_, QualityClassification::Warning) => {
            QualityClassification::Warning
        },
        _ => QualityClassification::Pass,
    }
}

/// Combining verdicts does not depend on their order or grouping, a pass changes
/// nothing, and a failure stays a failure.
pub proof fn lemma_worse_combines_in_any_order(
    a: QualityClassification,
    b: QualityClassification,
    c: QualityClassification,
)
    ensures
        worse_spec(a, b) == worse_spec(b, a),
        worse_spec(worse_spec(a, b), c) == worse_spec(a, worse_spec(b, c)),
        worse_spec(a, a) == a,
        worse_spec(a, QualityClassification::Pass) == a,
        worse_spec(a, QualityClassification::Fail) == QualityClassification::Fail,
        severity(worse_spec(a, b)) >= severity(a),
{
}

// ---------------------------------------------------------------------------
// Classifying a take.
// ---------------------------------------------------------------------------
/// The shortest take that passes, in milliseconds.
pub const MIN_TAKE_MS: u64 = 1_000;

/// The longest take that passes, in milliseconds.
pub const MAX_TAKE_MS: u64 = 20_000;

/// Leading or trailing silence longer than this is flagged, in milliseconds.
pub const MAX_EDGE_SILENCE_MS: u64 = 1_500;

/// Leading or trailing silence longer than this fails the take, in milliseconds.
pub const FAIL_EDGE_SILENCE_MS: u64 = 4_000;

/// What the recorder counted while a take was captured.
#[derive(Clone, Copy, Debug, PartialEq, Eq, Structural)]
pub struct CaptureMetrics {
    pub callback_gaps: u64,
    pub queue_overflow_count: u64,
    pub dropped_frames: u64,
    pub non_finite_input_count: u64,
}

/// What was measured on a take's samples. The level measurements arrive as the
/// outcomes of their threshold comparisons.
#[derive(Clone, Copy, Debug, PartialEq, Eq, Structural)]
pub struct TakeMeasurements {
    /// The take's length in milliseconds.
    pub duration_ms: u64,
    /// Samples at or above the clipping threshold.
    pub clipped_samples: u64,
    /// More than half a percent of the samples clip.
    pub clipping_ratio_fails: bool,
    /// The RMS level is below the low-level threshold.
    pub level_too_low: bool,
    /// The RMS level is above the high-level threshold.
    pub level_too_high: bool,
    /// Silence before the first audible sample, in milliseconds.
    pub leading_silence_ms: u64,
    /// Silence after the last audible sample, in milliseconds.
    pub trailing_silence_ms: u64,
    /// More than three quarters of the samples are quiet.
    pub mostly_quiet: bool,
    /// The estimated signal-to-noise ratio is below 12 dB.
    pub low_snr: bool,
    /// Separate runs of exact silence.
    pub zero_regions: u64,
    /// Less than 98 percent of the samples are quiet.
    pub not_nearly_all_quiet: bool,
}

/// A flagged problem as plain values: its code, its guidance and how serious it is.
pub open spec fn flag(
    code: QualityReasonCode,
    guidance: Seq<char>,
    severity: QualityClassification,
) -> (QualityReasonCode, Seq<char>, QualityClassification) {
    (code, guidance, severity)
}

/// `flags` with one more problem when `condition` holds.
pub open spec fn flag_if(
    flags: Seq<(QualityReasonCode, Seq<char>, QualityClassification)>,
    condition: bool,
    code: QualityReasonCode,
    guidance: Seq<char>,
    severity: QualityClassification,
) -> Seq<(QualityReasonCode, Seq<char>, QualityClassification)> {
    if condition {
        flags.push(flag(code, guidance, severity))
    } else {
        flags
    }
}

/// How serious a silent edge of the given length is.
pub open spec fn edge_severity(silence_ms: u64) -> QualityClassification {
    if silence_ms > FAIL_EDGE_SILENCE_MS {
        QualityClassification::Fail
    } else {
        QualityClassification::Warning
    }
}

/// The check made at position `i`: whether it finds a problem, the problem's code and
/// guidance, and how serious it is. The checks come in this order: length, clipping,
/// level, edge silence, overall silence, noise, dropouts, then the recorder's counters.
pub open spec fn check_at(m: TakeMeasurements, capture: CaptureMetrics, i: int) -> (
    bool,
    QualityReasonCode,
    Seq<char>,
    QualityClassification,
) {
    if i == 0 {
        (m.duration_ms < MIN_TAKE_MS, QualityReasonCode::TooShort,
            "Record the complete phrase for at least one second."@, QualityClassification::Fail)
    } else if i == 1 {
        (m.duration_ms > MAX_TAKE_MS, QualityReasonCode::TooLong,
            "Use a shorter phrase and keep prompted takes under twenty seconds."@,
            QualityClassification::Fail)
    } else if i == 2 {
        (m.clipped_samples > 0, QualityReasonCode::Clipping,
            "Lower the Windows microphone level or move slightly farther away."@,
            if m.clipping_ratio_fails { QualityClassification::Fail } else { QualityClassification::Warning })
    } else if i == 3 {
        (m.level_too_low, QualityReasonCode::LevelTooLow,
            "Move closer to the microphone and speak naturally."@, QualityClassification::Warning)
    } else if i == 4 {
        (m.level_too_high, QualityReasonCode::LevelTooHigh,
            "Lower the microphone level and redo the take."@, QualityClassification::Warning)
    } else if i == 5 {
        (m.leading_silence_ms > MAX_EDGE_SILENCE_MS, QualityReasonCode::ExcessiveLeadingSilence,
            "Wait only briefly after pressing Record before speaking."@,
            edge_severity(m.leading_silence_ms))
    } else if i == 6 {
        (m.trailing_silence_ms > MAX_EDGE_SILENCE_MS, QualityReasonCode::ExcessiveTrailingSilence,
            "Avoid leaving a long pause after the phrase."@, edge_severity(m.trailing_silence_ms))
    } else if i == 7 {
        (m.mostly_quiet, QualityReasonCode::ExcessiveSilence,
            "Redo the take with the full phrase clearly audible."@, QualityClassification::Fail)
    } else if i == 8 {
        (m.low_snr && !m.level_too_low, QualityReasonCode::LowEstimatedSnr,
            "Reduce background noise and avoid touching the microphone."@,
            QualityClassification::Warning)
    } else if i == 9 {
        (m.zero_regions > 4 && m.not_nearly_all_quiet, QualityReasonCode::PossibleDropout,
            "Redo this take and check the microphone connection."@, QualityClassification::Warning)
    } else if i == 10 {
        (capture.queue_overflow_count > 0 || capture.dropped_frames > 0,
            QualityReasonCode::CaptureOverflow,
            "The recording queue overflowed; redo this take before accepting it."@,
            QualityClassification::Fail)
    } else {
        (capture.non_finite_input_count > 0, QualityReasonCode::NonFiniteInput,
            "Invalid input samples were sanitized; redo the take."@, QualityClassification::Fail)
    }
}

/// The number of checks made on a take.
pub open spec fn check_count() -> nat {
    12
}

/// The problems found by the first `n` checks, in order.
#[verifier::opaque]
pub open spec fn flags_upto(m: TakeMeasurements, capture: CaptureMetrics, n: nat) -> Seq<
    (QualityReasonCode, Seq<char>, QualityClassification),
>
    decreases n,
{
    if n == 0 {
        Seq::empty()
    } else {
        let c = check_at(m, capture, n - 1);
        flag_if(flags_upto(m, capture, (n - 1) as nat), c.0, c.1, c.2, c.3)
    }
}

/// The problems found on a take, in the order they are checked.
pub open spec fn quality_flags(m: TakeMeasurements, capture: CaptureMetrics) -> Seq<
    (QualityReasonCode, Seq<char>, QualityClassification),
> {
    flags_upto(m, capture, check_count())
}

/// The most serious of the flagged problems; a pass when there are none.
pub open spec fn combined_severity(flags: Seq<(QualityReasonCode, Seq<char>, QualityClassification)>) -> QualityClassification
    decreases flags.len(),
{
    if flags.len() == 0 {
        QualityClassification::Pass
    } else {
        worse_spec(combined_severity(flags.drop_last()), flags.last().2)
    }
}

/// The verdict on a take.
pub open spec fn classification_spec(m: TakeMeasurements, capture: CaptureMetrics) -> QualityClassification {
    combined_severity(quality_flags(m, capture))
}

/// The guidance when nothing was flagged.
pub open spec fn manual_review_guidance() -> Seq<char> {
    "Listen through headphones and confirm the phrase is complete before accepting."@
}

/// A reason as plain values.
pub open spec fn reason_view(r: QualityReason) -> (QualityReasonCode, Seq<char>) {
    (r.code, r.guidance@)
}

/// Reasons as plain values.
pub open spec fn reason_views(reasons: Seq<QualityReason>) -> Seq<(QualityReasonCode, Seq<char>)> {
    reasons.map_values(|r: QualityReason| reason_view(r))
}

/// The code and guidance of each flag.
pub open spec fn flag_reasons(flags: Seq<(QualityReasonCode, Seq<char>, QualityClassification)>) -> Seq<
    (QualityReasonCode, Seq<char>),
> {
    flags.map_values(|f: (QualityReasonCode, Seq<char>, QualityClassification)| (f.0, f.1))
}

/// The reasons reported for a take: the flagged problems in order, or the request for
/// a manual review when nothing was flagged.
pub open spec fn reasons_spec(m: TakeMeasurements, capture: CaptureMetrics) -> Seq<(QualityReasonCode, Seq<char>)> {
    if quality_flags(m, capture).len() == 0 {
        seq![(QualityReasonCode::ManualReviewRequired, manual_review_guidance())]
    } else {
        flag_reasons(quality_flags(m, capture))
    }
}

/// The length in milliseconds of `frames` frames at `sample_rate` (a rate of zero
/// counts as one); a product beyond 64 bits saturates.
pub open spec fn duration_ms_spec(frames: u64, sample_rate: u32) -> u64 {
    let product = if frames * 1000 > u64::MAX { u64::MAX as int } else { frames * 1000 };
    (product / if sample_rate > 0 { sample_rate as int } else { 1 }) as u64
}

/// The length of a take, or of its silent edges, in milliseconds.
pub fn take_duration_ms(frames: u64, sample_rate: u32) -> (ms: u64)
    ensures
        ms == duration_ms_spec(frames, sample_rate),
{
    let rate: u64 = if sample_rate > 0 { sample_rate as u64 } else { 1 };
    let product: u64 = if frames > u64::MAX / 1_000 { u64::MAX } else { frames * 1_000 };
    product / rate
}

/// Makes one check: records the problem when the check finds it.
fn check(
    reasons: &mut Vec<QualityReason>,
    classification: &mut QualityClassification,
    Ghost(flags): Ghost<Seq<(QualityReasonCode, Seq<char>, QualityClassification)>>,
    found: bool,
    code: QualityReasonCode,
    guidance: &str,
    severity: QualityClassification,
)
    requires
        reason_views(old(reasons)@) == flag_reasons(flags),
        *old(classification) == combined_severity(flags),
    ensures
        reason_views(final(reasons)@) == flag_reasons(flag_if(flags, found, code, guidance@, severity)),
        *final(classification) == combined_severity(flag_if(flags, found, code, guidance@, severity)),
{
    if found {
        let ghost before = reasons@;
        reasons.push(QualityReason { code, guidance: from_chars(to_chars(guidance).as_slice()) });
        *classification = worse(*classification, severity);
        let ghost next = flags.push(flag(code, guidance@, severity));
        assert(next.drop_last() =~= flags);
        assert(reason_views(reasons@) =~= reason_views(before).push((code, guidance@)));
        assert(flag_reasons(next) =~= flag_reasons(flags).push((code, guidance@)));
    }
}

/// One more check made.
proof fn lemma_flags_step(m: TakeMeasurements, capture: CaptureMetrics, n: nat)
    ensures
        flags_upto(m, capture, n + 1) == flag_if(
            flags_upto(m, capture, n),
            check_at(m, capture, n as int).0,
            check_at(m, capture, n as int).1,
            check_at(m, capture, n as int).2,
            check_at(m, capture, n as int).3,
        ),
{
    reveal(flags_upto);
}

/// The check at position `i`, as `check_at` describes it.
fn check_at_exec(m: &TakeMeasurements, capture: &CaptureMetrics, i: usize) -> (c: (
    bool,
    QualityReasonCode,
    &'static str,
    QualityClassification,
))
    requires
        i < check_count(),
    ensures
        c.0 == check_at(*m, *capture, i as int).0,
        c.1 == check_at(*m, *capture, i as int).1,
        c.2@ == check_at(*m, *capture, i as int).2,
        c.3 == check_at(*m, *capture, i as int).3,
{
    if i == 0 {
        (m.duration_ms < MIN_TAKE_MS, QualityReasonCode::TooShort,
            "Record the complete phrase for at least one second.", QualityClassification::Fail)
    } else if i == 1 {
        (m.duration_ms > MAX_TAKE_MS, QualityReasonCode::TooLong,
            "Use a shorter phrase and keep prompted takes under twenty seconds.",
            QualityClassification::Fail)
    } else if i == 2 {
        (m.clipped_samples > 0, QualityReasonCode::Clipping,
            "Lower the Windows microphone level or move slightly farther away.",
            if m.clipping_ratio_fails { QualityClassification::Fail } else { QualityClassification::Warning })
    } else if i == 3 {
        (m.level_too_low, QualityReasonCode::LevelTooLow,
            "Move closer to the microphone and speak naturally.", QualityClassification::Warning)
    } else if i == 4 {
        (m.level_too_high, QualityReasonCode::LevelTooHigh,
            "Lower the microphone level and redo the take.", QualityClassification::Warning)
    } else if i == 5 {
        (m.leading_silence_ms > MAX_EDGE_SILENCE_MS, QualityReasonCode::ExcessiveLeadingSilence,
            "Wait only briefly after pressing Record before speaking.",
            if m.leading_silence_ms > FAIL_EDGE_SILENCE_MS { QualityClassification::Fail } else { QualityClassification::Warning })
    } else if i == 6 {
        (m.trailing_silence_ms > MAX_EDGE_SILENCE_MS, QualityReasonCode::ExcessiveTrailingSilence,
            "Avoid leaving a long pause after the phrase.",
            if m.trailing_silence_ms > FAIL_EDGE_SILENCE_MS { QualityClassification::Fail } else { QualityClassification::Warning })
    } else if i == 7 {
        (m.mostly_quiet, QualityReasonCode::ExcessiveSilence,
            "Redo the take with the full phrase clearly audible.", QualityClassification::Fail)
    } else if i == 8 {
        (m.low_snr && !m.level_too_low, QualityReasonCode::LowEstimatedSnr,
            "Reduce background noise and avoid touching the microphone.",
            QualityClassification::Warning)
    } else if i == 9 {
        (m.zero_regions > 4 && m.not_nearly_all_quiet, QualityReasonCode::PossibleDropout,
            "Redo this take and check the microphone connection.", QualityClassification::Warning)
    } else if i == 10 {
        (capture.queue_overflow_count > 0 || capture.dropped_frames > 0,
            QualityReasonCode::CaptureOverflow,
            "The recording queue overflowed; redo this take before accepting it.",
            QualityClassification::Fail)
    } else {
        (capture.non_finite_input_count > 0, QualityReasonCode::NonFiniteInput,
            "Invalid input samples were sanitized; redo the take.", QualityClassification::Fail)
    }
}

/// Classifies a take from its measurements and the recorder's counters: each problem
/// found gives a reason with guidance and raises the verdict to its severity; a take
/// with no problem passes and asks for a manual review.
pub fn classify_take(m: &TakeMeasurements, capture: &CaptureMetrics) -> (report: (
    QualityClassification,
    Vec<QualityReason>,
))
    ensures
        report.0 == classification_spec(*m, *capture),
        reason_views(report.1@) == reasons_spec(*m, *capture),
{
    let mut reasons: Vec<QualityReason> = Vec::new();
    let mut classification = QualityClassification::Pass;
    assert(reason_views(reasons@) =~= flag_reasons(flags_upto(*m, *capture, 0))) by {
        reveal(flags_upto);
    }
    assert(combined_severity(flags_upto(*m, *capture, 0)) == QualityClassification::Pass) by {
        reveal(flags_upto);
    }
    let mut i: usize = 0;
    while i < 12
        invariant
            i <= 12,
            reason_views(reasons@) == flag_reasons(flags_upto(*m, *capture, i as nat)),
            classification == combined_severity(flags_upto(*m, *capture, i as nat)),
        decreases 12 - i,
    {
        let c = check_at_exec(m, capture, i);
        proof {
            lemma_flags_step(*m, *capture, i as nat);
        }
        check(&mut reasons, &mut classification, Ghost(flags_upto(*m, *capture, i as nat)), c.0,
            c.1, c.2, c.3);
        i = i + 1;
    }
    let ghost flags = quality_flags(*m, *capture);
    assert(reason_views(reasons@) == flag_reasons(flags));
    assert(flag_reasons(flags).len() == flags.len());
    assert(reason_views(reasons@).len() == reasons@.len());
    if reasons.len() == 0 {
        reasons.push(
            QualityReason {
                code: QualityReasonCode::ManualReviewRequired,
                guidance: from_chars(
                    to_chars(
                        "Listen through headphones and confirm the phrase is complete before accepting.",
                    ).as_slice(),
                ),
            },
        );
        assert(reason_views(reasons@) =~= seq![
            (QualityReasonCode::ManualReviewRequired, manual_review_guidance()),
        ]);
    }
    (classification, reasons)
}


/// A problem found raises the combined verdict to its severity; a check that finds
/// nothing leaves it as it was.
proof fn lemma_flag_if_severity(
    flags: Seq<(QualityReasonCode, Seq<char>, QualityClassification)>,
    condition: bool,
    code: QualityReasonCode,
    guidance: Seq<char>,
    sev: QualityClassification,
)
    ensures
        combined_severity(flag_if(flags, condition, code, guidance, sev)) == if condition {
            worse_spec(combined_severity(flags), sev)
        } else {
            combined_severity(flags)
        },
{
    if condition {
        assert(flags.push(flag(code, guidance, sev)).drop_last() =~= flags);
    }
}

/// The verdict on a take: it fails exactly when the take is too short or too long,
/// clips on more than half a percent of its samples, has a silent edge longer than four
/// seconds, is mostly quiet, or lost or corrupted samples while it was recorded; it
/// passes exactly when nothing at all is flagged; otherwise it is a warning.
pub proof fn lemma_take_verdict(m: TakeMeasurements, capture: CaptureMetrics)
    ensures
        (classification_spec(m, capture) == QualityClassification::Fail) <== (m.duration_ms < 1_000
            || m.duration_ms > 20_000 || (m.clipped_samples > 0 && m.clipping_ratio_fails)
            || m.leading_silence_ms > 4_000 || m.trailing_silence_ms > 4_000 || m.mostly_quiet
            || capture.queue_overflow_count > 0 || capture.dropped_frames > 0
            || capture.non_finite_input_count > 0),
        (classification_spec(m, capture) == QualityClassification::Fail) ==> (m.duration_ms < 1_000
            || m.duration_ms > 20_000 || (m.clipped_samples > 0 && m.clipping_ratio_fails)
            || m.leading_silence_ms > 4_000 || m.trailing_silence_ms > 4_000 || m.mostly_quiet
            || capture.queue_overflow_count > 0 || capture.dropped_frames > 0
            || capture.non_finite_input_count > 0),
        (classification_spec(m, capture) == QualityClassification::Pass) <==> !(m.duration_ms < 1_000
            || m.duration_ms > 20_000 || m.clipped_samples > 0 || m.level_too_low || m.level_too_high
            || m.leading_silence_ms > 1_500 || m.trailing_silence_ms > 1_500 || m.mostly_quiet
            || m.low_snr || (m.zero_regions > 4 && m.not_nearly_all_quiet)
            || capture.queue_overflow_count > 0 || capture.dropped_frames > 0
            || capture.non_finite_input_count > 0),
{
    let c0 = check_at(m, capture, 0);
    lemma_flags_step(m, capture, 0);
    lemma_flag_if_severity(flags_upto(m, capture, 0), c0.0, c0.1, c0.2, c0.3);
    let c1 = check_at(m, capture, 1);
    lemma_flags_step(m, capture, 1);
    lemma_flag_if_severity(flags_upto(m, capture, 1), c1.0, c1.1, c1.2, c1.3);
    let c2 = check_at(m, capture, 2);
    lemma_flags_step(m, capture, 2);
    lemma_flag_if_severity(flags_upto(m, capture, 2), c2.0, c2.1, c2.2, c2.3);
    let c3 = check_at(m, capture, 3);
    lemma_flags_step(m, capture, 3);
    lemma_flag_if_severity(flags_upto(m, capture, 3), c3.0, c3.1, c3.2, c3.3);
    let c4 = check_at(m, capture, 4);
    lemma_flags_step(m, capture, 4);
    lemma_flag_if_severity(flags_upto(m, capture, 4), c4.0, c4.1, c4.2, c4.3);
    let c5 = check_at(m, capture, 5);
    lemma_flags_step(m, capture, 5);
    lemma_flag_if_severity(flags_upto(m, capture, 5), c5.0, c5.1, c5.2, c5.3);
    let c6 = check_at(m, capture, 6);
    lemma_flags_step(m, capture, 6);
    lemma_flag_if_severity(flags_upto(m, capture, 6), c6.0, c6.1, c6.2, c6.3);
    let c7 = check_at(m, capture, 7);
    lemma_flags_step(m, capture, 7);
    lemma_flag_if_severity(flags_upto(m, capture, 7), c7.0, c7.1, c7.2, c7.3);
    let c8 = check_at(m, capture, 8);
    lemma_flags_step(m, capture, 8);
    lemma_flag_if_severity(flags_upto(m, capture, 8), c8.0, c8.1, c8.2, c8.3);
    let c9 = check_at(m, capture, 9);
    lemma_flags_step(m, capture, 9);
    lemma_flag_if_severity(flags_upto(m, capture, 9), c9.0, c9.1, c9.2, c9.3);
    let c10 = check_at(m, capture, 10);
    lemma_flags_step(m, capture, 10);
    lemma_flag_if_severity(flags_upto(m, capture, 10), c10.0, c10.1, c10.2, c10.3);
    let c11 = check_at(m, capture, 11);
    lemma_flags_step(m, capture, 11);
    lemma_flag_if_severity(flags_upto(m, capture, 11), c11.0, c11.1, c11.2, c11.3);
    assert(combined_severity(flags_upto(m, capture, 0)) == QualityClassification::Pass) by {
        reveal(flags_upto);
    }
}
} // verus!
