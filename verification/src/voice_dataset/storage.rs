use vstd::prelude::*;

use crate::digits::{
    decimal, decimal_spec, decimal_wide, fnv1a, fnv_continue, hex, hex_at_least,
    hex_at_least_spec, hex_spec, lemma_fnv_fold_concat,
};
use crate::text::{concat, from_chars, is_control, str_equal, to_chars, trim, trim_spec, unicode_control};
use crate::voice_dataset::consent::CONSENT_VERSION;
use crate::voice_dataset::error::{opt_view, plain_error, DatasetError, DatasetErrorCode, DatasetErrorView};
use crate::voice_dataset::profile::{CreateVoiceProfileRequest, UpdateVoiceProfileRequest};
use crate::voice_dataset::profile::{ProfileHealth, VoiceProfileMetadata, VoiceProfileSummary};
use crate::voice_dataset::manifest::VoiceDatasetManifestV1;
use crate::voice_dataset::source::{durations_computable, ManifestDatasetSource};
use crate::voice_dataset::quality::QualityClassification;
use crate::voice_dataset::take::{
    managed_relative_path, unit_result_view, validate_relative_path, SelectedTakeVersion,
    TakeRecord, TakeReviewStatus, TakeReviewUpdate, TakeSource, TrimFrames,
};

verus! {

/// The profile index schema this crate reads and writes.
pub const PROFILE_INDEX_SCHEMA_VERSION: u32 = 1;

// ---------------------------------------------------------------------------
// Identifiers and timestamps.
// ---------------------------------------------------------------------------
/// A character allowed in a managed identifier.
pub open spec fn id_char(c: char) -> bool {
    ('a' <= c && c <= 'z') || ('0' <= c && c <= '9') || c == '-'
}

/// A managed identifier of the given kind: `kind-` followed by lowercase ASCII
/// letters, digits and hyphens, at most 80 characters in all.
pub open spec fn managed_id(id: Seq<char>, kind: Seq<char>) -> bool {
    &&& (kind + "-"@).is_prefix_of(id)
    &&& id.len() <= 80
    &&& forall|i: int| 0 <= i < id.len() ==> id_char(#[trigger] id[i])
}

/// The error for an identifier that is not a managed identifier of its kind.
pub open spec fn id_error(kind: Seq<char>) -> DatasetErrorView {
    plain_error(
        DatasetErrorCode::PathValidationFailed,
        "Invalid managed "@ + kind + " identifier."@,
    )
}

fn is_id_char(c: char) -> (b: bool)
    ensures
        b == id_char(c),
{
    ('a' <= c && c <= 'z') || ('0' <= c && c <= '9') || c == '-'
}

/// Accepts only a managed identifier of the given kind, which is safe to use as a
/// file or folder name.
pub fn validate_id(id: &str, kind: &str) -> (result: Result<(), DatasetError>)
    ensures
        result is Ok <==> managed_id(id@, kind@),
        result matches Err(e) ==> e@ == id_error(kind@),
{
    let chars = to_chars(id);
    let prefix = to_chars(concat(kind, "-").as_str());
    let mut valid = prefix.len() <= chars.len() && chars.len() <= 80;
    let mut i: usize = 0;
    while valid && i < prefix.len()
        invariant
            chars@ == id@,
            prefix@ == kind@ + "-"@,
            i <= prefix@.len(),
            valid ==> prefix@.len() <= chars@.len() && chars@.len() <= 80,
            valid ==> forall|k: int| 0 <= k < i ==> chars@[k] == prefix@[k],
            !valid ==> !managed_id(id@, kind@),
        decreases prefix@.len() - i,
    {
        if chars[i] != prefix[i] {
            valid = false;
        }
        i = i + 1;
    }
    if valid {
        assert(prefix@ =~= chars@.subrange(0, prefix@.len() as int));
    }
    let mut j: usize = 0;
    while valid && j < chars.len()
        invariant
            chars@ == id@,
            prefix@ == kind@ + "-"@,
            j <= chars@.len(),
            valid ==> prefix@.is_prefix_of(id@) && chars@.len() <= 80,
            valid ==> forall|k: int| 0 <= k < j ==> id_char(#[trigger] chars@[k]),
            !valid ==> !managed_id(id@, kind@),
        decreases chars@.len() - j,
    {
        if !is_id_char(chars[j]) {
            valid = false;
        }
        j = j + 1;
    }
    if valid {
        Ok(())
    } else {
        let head = concat("Invalid managed ", kind);
        let message = concat(head.as_str(), " identifier.");
        Err(DatasetError::new(DatasetErrorCode::PathValidationFailed, message.as_str()))
    }
}

/// The timestamp text for a clock reading in milliseconds since the Unix epoch
/// (absent when the clock is before the epoch).
pub open spec fn timestamp_check(since_epoch_millis: Option<u128>) -> Result<
    Seq<char>,
    DatasetErrorView,
> {
    match since_epoch_millis {
        Some(ms) => Ok(decimal_spec(ms as nat)),
        None => Err(
            plain_error(
                DatasetErrorCode::StorageUnavailable,
                "The system clock is before Unix epoch."@,
            ),
        ),
    }
}

/// The view of a result that carries a string.
pub open spec fn text_result_view(r: Result<String, DatasetError>) -> Result<
    Seq<char>,
    DatasetErrorView,
> {
    match r {
        Ok(s) => Ok(s@),
        Err(e) => Err(e@),
    }
}

/// The decimal timestamp for a clock reading in milliseconds since the Unix epoch;
/// a clock before the epoch is an error.
pub fn timestamp(since_epoch_millis: Option<u128>) -> (result: Result<String, DatasetError>)
    ensures
        text_result_view(result) == timestamp_check(since_epoch_millis),
{
    match since_epoch_millis {
        Some(ms) => Ok(from_chars(decimal_wide(ms).as_slice())),
        None => Err(
            DatasetError::new(
                DatasetErrorCode::StorageUnavailable,
                "The system clock is before Unix epoch.",
            ),
        ),
    }
}

/// The identifier made from a kind, a timestamp, the process and a per-process
/// sequence number: `kind-`, sixteen hexadecimal digits of the FNV-1a hash of the
/// timestamp's bytes followed by the little-endian bytes of the process and sequence
/// numbers, `-`, and the sequence number in at least eight hexadecimal digits.
pub open spec fn new_id_spec(kind: Seq<char>, timestamp: &str, process_id: u32, sequence: u64) -> Seq<
    char,
> {
    kind + "-"@ + hex_spec(
        fnv1a(
            vstd::string::StringSliceAdditionalSpecFns::spec_bytes(timestamp) + vstd::bytes::spec_u32_to_le_bytes(process_id)
                + vstd::bytes::spec_u64_to_le_bytes(sequence),
        ) as nat,
        16,
    ) + "-"@ + hex_at_least_spec(sequence as nat, 8)
}

/// A fresh opaque identifier; distinct sequence numbers within one process give
/// distinct identifiers.
pub fn new_id(kind: &str, timestamp: &str, process_id: u32, sequence: u64) -> (id: String)
    ensures
        id@ == new_id_spec(kind@, timestamp, process_id, sequence),
{
    let stamp = timestamp.as_bytes();
    let process = vstd::bytes::u32_to_le_bytes(process_id);
    let counter = vstd::bytes::u64_to_le_bytes(sequence);
    let h0 = fnv_continue(0xcbf2_9ce4_8422_2325u64, stamp);
    let h1 = fnv_continue(h0, process.as_slice());
    let h2 = fnv_continue(h1, counter.as_slice());
    proof {
        lemma_fnv_fold_concat(0xcbf2_9ce4_8422_2325u64, stamp@, process@);
        lemma_fnv_fold_concat(0xcbf2_9ce4_8422_2325u64, stamp@ + process@, counter@);
    }
    let hash_text = from_chars(hex(h2, 16).as_slice());
    let sequence_text = from_chars(hex_at_least(sequence, 8).as_slice());
    let a = concat(kind, "-");
    let b = concat(a.as_str(), hash_text.as_str());
    let c = concat(b.as_str(), "-");
    concat(c.as_str(), sequence_text.as_str())
}

/// Identifiers with distinct sequence numbers differ.
pub proof fn lemma_new_ids_differ(
    kind: Seq<char>,
    timestamp: &str,
    process_id: u32,
    first: u64,
    second: u64,
)
    requires
        first != second,
    ensures
        new_id_spec(kind, timestamp, process_id, first) != new_id_spec(
            kind,
            timestamp,
            process_id,
            second,
        ),
{
    let a = new_id_spec(kind, timestamp, process_id, first);
    let b = new_id_spec(kind, timestamp, process_id, second);
    let head_a = kind + "-"@ + hex_spec(
        fnv1a(
            vstd::string::StringSliceAdditionalSpecFns::spec_bytes(timestamp) + vstd::bytes::spec_u32_to_le_bytes(process_id)
                + vstd::bytes::spec_u64_to_le_bytes(first),
        ) as nat,
        16,
    ) + "-"@;
    let head_b = kind + "-"@ + hex_spec(
        fnv1a(
            vstd::string::StringSliceAdditionalSpecFns::spec_bytes(timestamp) + vstd::bytes::spec_u32_to_le_bytes(process_id)
                + vstd::bytes::spec_u64_to_le_bytes(second),
        ) as nat,
        16,
    ) + "-"@;
    lemma_hex_len(
        fnv1a(
            vstd::string::StringSliceAdditionalSpecFns::spec_bytes(timestamp) + vstd::bytes::spec_u32_to_le_bytes(process_id)
                + vstd::bytes::spec_u64_to_le_bytes(first),
        ) as nat,
        16,
    );
    lemma_hex_len(
        fnv1a(
            vstd::string::StringSliceAdditionalSpecFns::spec_bytes(timestamp) + vstd::bytes::spec_u32_to_le_bytes(process_id)
                + vstd::bytes::spec_u64_to_le_bytes(second),
        ) as nat,
        16,
    );
    assert(head_a.len() == head_b.len());
    assert(a == head_a + hex_at_least_spec(first as nat, 8));
    assert(b == head_b + hex_at_least_spec(second as nat, 8));
    if a == b {
        assert(a.subrange(head_a.len() as int, a.len() as int) =~= hex_at_least_spec(
            first as nat,
            8,
        ));
        assert(b.subrange(head_b.len() as int, b.len() as int) =~= hex_at_least_spec(
            second as nat,
            8,
        ));
        lemma_hex_at_least_injective(first as nat, second as nat, 8);
    }
}

/// A fixed number of hexadecimal digits has that length.
proof fn lemma_hex_len(x: nat, width: nat)
    ensures
        hex_spec(x, width).len() == width,
    decreases width,
{
    if width > 0 {
        lemma_hex_len(x / 16, (width - 1) as nat);
    }
}

/// The value of the last digit character.
proof fn lemma_digit_char_injective(a: int, b: int)
    requires
        0 <= a < 16,
        0 <= b < 16,
        crate::digits::digit_char(a) == crate::digits::digit_char(b),
    ensures
        a == b,
{
}

/// Padded hexadecimal notation tells numbers apart.
proof fn lemma_hex_at_least_injective(x: nat, y: nat, width: nat)
    requires
        hex_at_least_spec(x, width) == hex_at_least_spec(y, width),
    ensures
        x == y,
    decreases x + y, width,
{
    let sx = hex_at_least_spec(x, width);
    let sy = hex_at_least_spec(y, width);
    let rest = if width > 0 {
        (width - 1) as nat
    } else {
        0nat
    };
    if x < 16 && width <= 1 {
        if y < 16 {
            assert(sx.last() == sy.last());
            lemma_digit_char_injective(x as int, y as int);
        } else {
            lemma_hex_at_least_nonempty(y / 16, rest);
            assert(sy.len() >= 2);
        }
    } else if y < 16 && width <= 1 {
        lemma_hex_at_least_nonempty(x / 16, rest);
        assert(sx.len() >= 2);
    } else {
        assert(sx.last() == sy.last());
        lemma_digit_char_injective((x % 16) as int, (y % 16) as int);
        assert(sx.drop_last() =~= hex_at_least_spec(x / 16, rest));
        assert(sy.drop_last() =~= hex_at_least_spec(y / 16, rest));
        lemma_hex_at_least_injective(x / 16, y / 16, rest);
    }
}

/// Padded hexadecimal notation has at least one digit.
proof fn lemma_hex_at_least_nonempty(x: nat, width: nat)
    ensures
        hex_at_least_spec(x, width).len() >= 1,
    decreases x, width,
{
    if !(x < 16 && width <= 1) {
        lemma_hex_at_least_nonempty(
            x / 16,
            if width > 0 {
                (width - 1) as nat
            } else {
                0nat
            },
        );
    }
}

// ---------------------------------------------------------------------------
// Text fields.
// ---------------------------------------------------------------------------
/// Trimmed text of an allowed length without control characters.
pub open spec fn visible_text(t: Seq<char>, minimum: nat, maximum: nat) -> bool {
    &&& minimum <= t.len() <= maximum
    &&& forall|i: int| 0 <= i < t.len() ==> !unicode_control(#[trigger] t[i])
}

/// The message for text that is too short, too long or holds control characters.
pub open spec fn text_message(label: Seq<char>, minimum: nat, maximum: nat) -> Seq<char> {
    label + " must contain "@ + decimal_spec(minimum) + " to "@ + decimal_spec(maximum)
        + " visible characters."@
}

/// The outcome of validating a text field: its trimmed form, or an error.
pub open spec fn text_check(value: Seq<char>, label: Seq<char>, minimum: nat, maximum: nat) -> Result<
    Seq<char>,
    DatasetErrorView,
> {
    if visible_text(trim_spec(value), minimum, maximum) {
        Ok(trim_spec(value))
    } else {
        Err(
            plain_error(
                DatasetErrorCode::InvalidStateTransition,
                text_message(label, minimum, maximum),
            ),
        )
    }
}

/// Trims a text field and checks its length and characters.
pub fn validate_text(value: &str, label: &str, minimum: usize, maximum: usize) -> (result: Result<
    String,
    DatasetError,
>)
    ensures
        text_result_view(result) == text_check(value@, label@, minimum as nat, maximum as nat),
{
    let trimmed = to_chars(trim(value));
    let mut visible = minimum <= trimmed.len() && trimmed.len() <= maximum;
    let mut i: usize = 0;
    while visible && i < trimmed.len()
        invariant
            trimmed@ == trim_spec(value@),
            i <= trimmed@.len(),
            visible ==> minimum <= trimmed@.len() <= maximum,
            visible ==> forall|k: int| 0 <= k < i ==> !unicode_control(#[trigger] trimmed@[k]),
            !visible ==> !visible_text(trimmed@, minimum as nat, maximum as nat),
        decreases trimmed@.len() - i,
    {
        if is_control(trimmed[i]) {
            visible = false;
        }
        i = i + 1;
    }
    if visible {
        Ok(from_chars(trimmed.as_slice()))
    } else {
        let a = concat(label, " must contain ");
        let b = concat(a.as_str(), from_chars(decimal(minimum as u64).as_slice()).as_str());
        let c = concat(b.as_str(), " to ");
        let d = concat(c.as_str(), from_chars(decimal(maximum as u64).as_slice()).as_str());
        let message = concat(d.as_str(), " visible characters.");
        Err(DatasetError::new(DatasetErrorCode::InvalidStateTransition, message.as_str()))
    }
}

/// The outcome of validating an optional text field.
pub open spec fn optional_text_check(value: Option<Seq<char>>, label: Seq<char>, maximum: nat) -> Result<
    Option<Seq<char>>,
    DatasetErrorView,
> {
    match value {
        None => Ok(None),
        Some(v) => match text_check(v, label, 1, maximum) {
            Ok(t) => Ok(Some(t)),
            Err(e) => Err(e),
        },
    }
}

/// The view of a result that carries an optional string.
pub open spec fn optional_text_result_view(r: Result<Option<String>, DatasetError>) -> Result<
    Option<Seq<char>>,
    DatasetErrorView,
> {
    match r {
        Ok(s) => Ok(opt_view(s)),
        Err(e) => Err(e@),
    }
}

/// Validates an optional text field; an absent field stays absent.
pub fn validate_optional_text(value: Option<String>, label: &str, maximum: usize) -> (result: Result<
    Option<String>,
    DatasetError,
>)
    ensures
        optional_text_result_view(result) == optional_text_check(
            opt_view(value),
            label@,
            maximum as nat,
        ),
{
    match value {
        None => Ok(None),
        Some(v) => match validate_text(v.as_str(), label, 1, maximum) {
            Ok(t) => Ok(Some(t)),
            Err(e) => Err(e),
        },
    }
}

// ---------------------------------------------------------------------------
// Profile requests.
// ---------------------------------------------------------------------------
/// The validated details of a profile.
#[derive(Clone, Debug)]
pub struct ProfileFields {
    pub display_name: String,
    pub description: Option<String>,
    pub primary_language: String,
    pub locale_tag: Option<String>,
    pub collection_goal_minutes: Option<u32>,
}

/// The validated details of a profile as plain values.
pub struct ProfileFieldsView {
    pub display_name: Seq<char>,
    pub description: Option<Seq<char>>,
    pub primary_language: Seq<char>,
    pub locale_tag: Option<Seq<char>>,
    pub collection_goal_minutes: Option<u32>,
}

impl View for ProfileFields {
    type V = ProfileFieldsView;

    open spec fn view(&self) -> ProfileFieldsView {
        ProfileFieldsView {
            display_name: self.display_name@,
            description: opt_view(self.description),
            primary_language: self.primary_language@,
            locale_tag: opt_view(self.locale_tag),
            collection_goal_minutes: self.collection_goal_minutes,
        }
    }
}

/// A collection goal outside 1 to 600 minutes.
pub open spec fn goal_out_of_range(goal: Option<u32>) -> bool {
    goal matches Some(g) && (g == 0 || g > 600)
}

/// The error for a collection goal outside 1 to 600 minutes.
pub open spec fn goal_error() -> DatasetErrorView {
    plain_error(
        DatasetErrorCode::InvalidStateTransition,
        "Collection goal must be between 1 and 600 minutes."@,
    )
}

/// The outcome of validating a new profile: its details and consent notes, or the
/// first error (consent, then the name, language, description, locale, notes and
/// goal).
pub open spec fn create_request_check(r: CreateVoiceProfileRequest) -> Result<
    (ProfileFieldsView, Option<Seq<char>>),
    DatasetErrorView,
> {
    if !r.consent_confirmed || !r.confirmed_by_user {
        Err(
            plain_error(
                DatasetErrorCode::ConsentRequired,
                "Confirm that the target speaker consented before creating a local profile."@,
            ),
        )
    } else if trim_spec(r.consent_version@) != "voice-dataset-consent-v1"@ {
        Err(
            plain_error(
                DatasetErrorCode::ConsentRequired,
                "Read and confirm the current dataset consent notice."@,
            ),
        )
    } else {
        match text_check(r.display_name@, "Profile display name"@, 1, 80) {
            Err(e) => Err(e),
            Ok(name) => match text_check(r.primary_language@, "Primary language"@, 1, 64) {
                Err(e) => Err(e),
                Ok(language) => match optional_text_check(
                    opt_view(r.description),
                    "Description"@,
                    500,
                ) {
                    Err(e) => Err(e),
                    Ok(description) => match optional_text_check(
                        opt_view(r.locale_tag),
                        "Locale tag"@,
                        32,
                    ) {
                        Err(e) => Err(e),
                        Ok(locale) => match optional_text_check(
                            opt_view(r.consent_notes),
                            "Consent notes"@,
                            500,
                        ) {
                            Err(e) => Err(e),
                            Ok(notes) => if goal_out_of_range(r.collection_goal_minutes) {
                                Err(goal_error())
                            } else {
                                Ok(
                                    (
                                        ProfileFieldsView {
                                            display_name: name,
                                            description,
                                            primary_language: language,
                                            locale_tag: locale,
                                            collection_goal_minutes: r.collection_goal_minutes,
                                        },
                                        notes,
                                    ),
                                )
                            },
                        },
                    },
                },
            },
        }
    }
}

/// The view of a validated new profile.
pub open spec fn create_result_view(r: Result<(ProfileFields, Option<String>), DatasetError>) -> Result<
    (ProfileFieldsView, Option<Seq<char>>),
    DatasetErrorView,
> {
    match r {
        Ok((fields, notes)) => Ok((fields@, opt_view(notes))),
        Err(e) => Err(e@),
    }
}

/// Checks consent and the details of a new profile; returns the trimmed details and
/// consent notes.
pub fn validate_create_request(request: &CreateVoiceProfileRequest) -> (result: Result<
    (ProfileFields, Option<String>),
    DatasetError,
>)
    ensures
        create_result_view(result) == create_request_check(*request),
{
    if !request.consent_confirmed || !request.confirmed_by_user {
        return Err(
            DatasetError::new(
                DatasetErrorCode::ConsentRequired,
                "Confirm that the target speaker consented before creating a local profile.",
            ),
        );
    }
    proof {
        reveal_strlit("voice-dataset-consent-v1");
    }
    if !str_equal(trim(request.consent_version.as_str()), CONSENT_VERSION) {
        return Err(
            DatasetError::new(
                DatasetErrorCode::ConsentRequired,
                "Read and confirm the current dataset consent notice.",
            ),
        );
    }
    let display_name = match validate_text(request.display_name.as_str(), "Profile display name", 1, 80) {
        Ok(t) => t,
        Err(e) => {
            return Err(e);
        },
    };
    let primary_language = match validate_text(request.primary_language.as_str(), "Primary language", 1, 64) {
        Ok(t) => t,
        Err(e) => {
            return Err(e);
        },
    };
    let description = match validate_optional_text(request.description.clone(), "Description", 500) {
        Ok(t) => t,
        Err(e) => {
            return Err(e);
        },
    };
    let locale_tag = match validate_optional_text(request.locale_tag.clone(), "Locale tag", 32) {
        Ok(t) => t,
        Err(e) => {
            return Err(e);
        },
    };
    let consent_notes = match validate_optional_text(request.consent_notes.clone(), "Consent notes", 500) {
        Ok(t) => t,
        Err(e) => {
            return Err(e);
        },
    };
    if let Some(goal) = request.collection_goal_minutes {
        if goal == 0 || goal > 600 {
            return Err(
                DatasetError::new(
                    DatasetErrorCode::InvalidStateTransition,
                    "Collection goal must be between 1 and 600 minutes.",
                ),
            );
        }
    }
    Ok(
        (
            ProfileFields {
                display_name,
                description,
                primary_language,
                locale_tag,
                collection_goal_minutes: request.collection_goal_minutes,
            },
            consent_notes,
        ),
    )
}

/// The outcome of validating changed profile details: the name, description,
/// language, locale and goal, checked in that order.
pub open spec fn update_request_check(r: UpdateVoiceProfileRequest) -> Result<
    ProfileFieldsView,
    DatasetErrorView,
> {
    match text_check(r.display_name@, "Profile display name"@, 1, 80) {
        Err(e) => Err(e),
        Ok(name) => match optional_text_check(opt_view(r.description), "Description"@, 500) {
            Err(e) => Err(e),
            Ok(description) => match text_check(r.primary_language@, "Primary language"@, 1, 64) {
                Err(e) => Err(e),
                Ok(language) => match optional_text_check(opt_view(r.locale_tag), "Locale tag"@, 32) {
                    Err(e) => Err(e),
                    Ok(locale) => if goal_out_of_range(r.collection_goal_minutes) {
                        Err(goal_error())
                    } else {
                        Ok(
                            ProfileFieldsView {
                                display_name: name,
                                description,
                                primary_language: language,
                                locale_tag: locale,
                                collection_goal_minutes: r.collection_goal_minutes,
                            },
                        )
                    },
                },
            },
        },
    }
}

/// The view of validated profile details.
pub open spec fn fields_result_view(r: Result<ProfileFields, DatasetError>) -> Result<
    ProfileFieldsView,
    DatasetErrorView,
> {
    match r {
        Ok(fields) => Ok(fields@),
        Err(e) => Err(e@),
    }
}

/// Checks changed profile details; returns them trimmed.
pub fn validate_update_request(request: &UpdateVoiceProfileRequest) -> (result: Result<
    ProfileFields,
    DatasetError,
>)
    ensures
        fields_result_view(result) == update_request_check(*request),
{
    let display_name = match validate_text(request.display_name.as_str(), "Profile display name", 1, 80) {
        Ok(t) => t,
        Err(e) => {
            return Err(e);
        },
    };
    let description = match validate_optional_text(request.description.clone(), "Description", 500) {
        Ok(t) => t,
        Err(e) => {
            return Err(e);
        },
    };
    let primary_language = match validate_text(request.primary_language.as_str(), "Primary language", 1, 64) {
        Ok(t) => t,
        Err(e) => {
            return Err(e);
        },
    };
    let locale_tag = match validate_optional_text(request.locale_tag.clone(), "Locale tag", 32) {
        Ok(t) => t,
        Err(e) => {
            return Err(e);
        },
    };
    if let Some(goal) = request.collection_goal_minutes {
        if goal == 0 || goal > 600 {
            return Err(
                DatasetError::new(
                    DatasetErrorCode::InvalidStateTransition,
                    "Collection goal must be between 1 and 600 minutes.",
                ),
            );
        }
    }
    Ok(
        ProfileFields {
            display_name,
            description,
            primary_language,
            locale_tag,
            collection_goal_minutes: request.collection_goal_minutes,
        },
    )
}

// ---------------------------------------------------------------------------
// The takes of a manifest.
// ---------------------------------------------------------------------------
/// The position of the first take with the given identifier.
pub open spec fn take_index(takes: Seq<TakeRecord>, id: Seq<char>, k: int) -> bool {
    &&& 0 <= k < takes.len()
    &&& takes[k].id@ == id
    &&& forall|m: int| 0 <= m < k ==> (#[trigger] takes[m]).id@ != id
}

/// Some take has the given identifier.
pub open spec fn has_take(takes: Seq<TakeRecord>, id: Seq<char>) -> bool {
    exists|m: int| 0 <= m < takes.len() && (#[trigger] takes[m]).id@ == id
}

/// The position of the first take with the given identifier, if any.
pub fn find_take(takes: &[TakeRecord], id: &str) -> (found: Option<usize>)
    ensures
        found matches Some(k) ==> take_index(takes@, id@, k as int),
        found is None ==> !has_take(takes@, id@),
{
    let mut k: usize = 0;
    while k < takes.len()
        invariant
            k <= takes@.len(),
            forall|m: int| 0 <= m < k ==> (#[trigger] takes@[m]).id@ != id@,
        decreases takes@.len() - k,
    {
        if str_equal(takes[k].id.as_str(), id) {
            return Some(k);
        }
        k = k + 1;
    }
    None
}

/// The error for a take that is not in the manifest.
pub open spec fn take_not_found(take_id: Seq<char>) -> DatasetErrorView {
    DatasetErrorView {
        take_id: Some(take_id),
        ..plain_error(DatasetErrorCode::TakeNotFound, "The selected take was not found."@)
    }
}

/// Some take has the given content hash.
pub open spec fn has_content(takes: Seq<TakeRecord>, hash: Seq<char>) -> bool {
    exists|m: int| 0 <= m < takes.len() && (#[trigger] takes[m]).content_hash@ == hash
}

/// Adds a new take, pending review. A take whose identifier or recording is already
/// in the manifest is refused.
pub fn add_take_record(takes: &mut Vec<TakeRecord>, profile_id: &str, take: TakeRecord) -> (result:
    Result<(), DatasetError>)
    ensures
        has_take(old(takes)@, take.id@) ==> unit_result_view(result) == Err::<(), DatasetErrorView>(
            DatasetErrorView {
                profile_id: Some(profile_id@),
                take_id: Some(take.id@),
                ..plain_error(
                    DatasetErrorCode::InvalidStateTransition,
                    "A take with this identifier already exists."@,
                )
            },
        ),
        !has_take(old(takes)@, take.id@) && has_content(old(takes)@, take.content_hash@)
            ==> unit_result_view(result) == Err::<(), DatasetErrorView>(
            DatasetErrorView {
                profile_id: Some(profile_id@),
                ..plain_error(
                    DatasetErrorCode::DuplicateImport,
                    "This exact recording already exists in the selected profile."@,
                )
            },
        ),
        result is Err ==> final(takes)@ == old(takes)@,
        result is Ok <==> !has_take(old(takes)@, take.id@) && !has_content(
            old(takes)@,
            take.content_hash@,
        ),
        result is Ok ==> final(takes)@ == old(takes)@.push(
            TakeRecord { review_status: TakeReviewStatus::Pending, ..take },
        ),
{
    if find_take(takes.as_slice(), take.id.as_str()).is_some() {
        return Err(
            DatasetError::new(
                DatasetErrorCode::InvalidStateTransition,
                "A take with this identifier already exists.",
            ).profile(profile_id).take(take.id.as_str()),
        );
    }
    let mut k: usize = 0;
    while k < takes.len()
        invariant
            k <= takes@.len(),
            !has_take(takes@, take.id@),
            forall|m: int| 0 <= m < k ==> (#[trigger] takes@[m]).content_hash@ != take.content_hash@,
        decreases takes@.len() - k,
    {
        if str_equal(takes[k].content_hash.as_str(), take.content_hash.as_str()) {
            return Err(
                DatasetError::new(
                    DatasetErrorCode::DuplicateImport,
                    "This exact recording already exists in the selected profile.",
                ).profile(profile_id),
            );
        }
        k = k + 1;
    }
    takes.push(TakeRecord { review_status: TakeReviewStatus::Pending, ..take });
    Ok(())
}

/// A take after a review: the new status, exclusion (always for a consent
/// recording), notes, acknowledgement, version, and a manual override exactly when a
/// failed take is accepted.
pub open spec fn reviewed(
    before: TakeRecord,
    after: TakeRecord,
    update: TakeReviewUpdate,
    notes: Option<Seq<char>>,
) -> bool {
    &&& after.review_status == update.status
    &&& after.exclude_from_training == (update.exclude_from_training || before.source
        == TakeSource::RecordedConsent)
    &&& opt_view(after.notes) == notes
    &&& after.warning_acknowledged == update.warning_acknowledged
    &&& after.manual_override == (update.status == TakeReviewStatus::Accepted && before.quality
        == QualityClassification::Fail)
    &&& after.selected_version == update.selected_version
    &&& after == TakeRecord {
        review_status: after.review_status,
        exclude_from_training: after.exclude_from_training,
        notes: after.notes,
        warning_acknowledged: after.warning_acknowledged,
        manual_override: after.manual_override,
        selected_version: after.selected_version,
        ..before
    }
}

/// The outcome of reviewing the take at `k`: an error, or the validated notes.
pub open spec fn review_check(
    t: TakeRecord,
    profile_id: Seq<char>,
    take_id: Seq<char>,
    update: TakeReviewUpdate,
) -> Result<Option<Seq<char>>, DatasetErrorView> {
    if update.status == TakeReviewStatus::Accepted && t.quality == QualityClassification::Fail
        && !update.warning_acknowledged {
        Err(
            DatasetErrorView {
                profile_id: Some(profile_id),
                take_id: Some(take_id),
                ..plain_error(
                    DatasetErrorCode::InvalidStateTransition,
                    "A failed take requires explicit warning acknowledgement before manual acceptance."@,
                )
            },
        )
    } else if update.selected_version == SelectedTakeVersion::Trimmed && t.derived_file is None {
        Err(
            DatasetErrorView {
                take_id: Some(take_id),
                ..plain_error(
                    DatasetErrorCode::InvalidStateTransition,
                    "Apply a trimmed version before selecting it."@,
                )
            },
        )
    } else {
        optional_text_check(opt_view(update.notes), "Take notes"@, 500)
    }
}

/// Records a review decision on a take. A failed take is accepted only with an
/// explicit acknowledgement, and the trimmed version is selected only if it exists.
pub fn review_take_record(
    takes: &mut Vec<TakeRecord>,
    profile_id: &str,
    take_id: &str,
    update: TakeReviewUpdate,
) -> (result: Result<(), DatasetError>)
    ensures
        !has_take(old(takes)@, take_id@) ==> unit_result_view(result) == Err::<(), DatasetErrorView>(
            DatasetErrorView { profile_id: Some(profile_id@), ..take_not_found(take_id@) },
        ),
        forall|k: int|
            take_index(old(takes)@, take_id@, k) ==> match review_check(
                #[trigger] old(takes)@[k],
                profile_id@,
                take_id@,
                update,
            ) {
                Err(e) => unit_result_view(result) == Err::<(), DatasetErrorView>(e),
                Ok(notes) => result is Ok && final(takes)@.len() == old(takes)@.len() && (forall|m: int|
                    0 <= m < old(takes)@.len() && m != k ==> final(takes)@[m] == old(takes)@[m])
                    && reviewed(old(takes)@[k], final(takes)@[k], update, notes),
            },
        result is Err ==> final(takes)@ == old(takes)@,
{
    let k = match find_take(takes.as_slice(), take_id) {
        Some(k) => k,
        None => {
            return Err(
                DatasetError::new(
                    DatasetErrorCode::TakeNotFound,
                    "The selected take was not found.",
                ).profile(profile_id).take(take_id),
            );
        },
    };
    let quality = takes[k].quality;
    if update.status == TakeReviewStatus::Accepted && quality == QualityClassification::Fail
        && !update.warning_acknowledged {
        return Err(
            DatasetError::new(
                DatasetErrorCode::InvalidStateTransition,
                "A failed take requires explicit warning acknowledgement before manual acceptance.",
            ).profile(profile_id).take(take_id),
        );
    }
    if update.selected_version == SelectedTakeVersion::Trimmed && takes[k].derived_file.is_none() {
        return Err(
            DatasetError::new(
                DatasetErrorCode::InvalidStateTransition,
                "Apply a trimmed version before selecting it.",
            ).take(take_id),
        );
    }
    let notes = match validate_optional_text(update.notes.clone(), "Take notes", 500) {
        Ok(n) => n,
        Err(e) => {
            return Err(e);
        },
    };
    let old_take = takes[k].clone_record();
    let exclude = update.exclude_from_training || old_take.source == TakeSource::RecordedConsent;
    let manual = update.status == TakeReviewStatus::Accepted && quality == QualityClassification::Fail;
    let reviewed_take = TakeRecord {
        review_status: update.status,
        exclude_from_training: exclude,
        notes,
        warning_acknowledged: update.warning_acknowledged,
        manual_override: manual,
        selected_version: update.selected_version,
        ..old_take
    };
    takes.set(k, reviewed_take);
    Ok(())
}

/// The relative file of a take's trimmed copy.
pub open spec fn derived_file_name(take_id: Seq<char>) -> Seq<char> {
    "derived/"@ + take_id + "-trimmed.wav"@
}

/// The relative file of a take's raw recording.
pub open spec fn raw_file_name(take_id: Seq<char>) -> Seq<char> {
    "raw/"@ + take_id + ".wav"@
}

/// Marks a take as trimmed to the frames `start_frame..end_frame` of its raw
/// recording, which must be a non-empty range inside the recording, with the verdict
/// on the trimmed copy; the trimmed copy becomes the selected version.
pub fn apply_trim_record(
    takes: &mut Vec<TakeRecord>,
    take_id: &str,
    start_frame: u64,
    end_frame: u64,
    derived_quality: QualityClassification,
) -> (result: Result<(), DatasetError>)
    ensures
        !has_take(old(takes)@, take_id@) ==> unit_result_view(result) == Err::<(), DatasetErrorView>(
            take_not_found(take_id@),
        ),
        forall|k: int|
            take_index(old(takes)@, take_id@, k) ==> if start_frame >= end_frame || end_frame > (
            #[trigger] old(takes)@[k]).frame_count {
                unit_result_view(result) == Err::<(), DatasetErrorView>(
                    DatasetErrorView {
                        take_id: Some(take_id@),
                        ..plain_error(
                            DatasetErrorCode::InvalidTrimRange,
                            "Trim boundaries must select a non-empty range inside the raw take."@,
                        )
                    },
                )
            } else {
                &&& result is Ok
                &&& final(takes)@.len() == old(takes)@.len()
                &&& forall|m: int|
                    0 <= m < old(takes)@.len() && m != k ==> final(takes)@[m] == old(takes)@[m]
                &&& opt_view(final(takes)@[k].derived_file) == Some(derived_file_name(take_id@))
                &&& final(takes)@[k] == TakeRecord {
                    derived_file: final(takes)@[k].derived_file,
                    trim: Some(TrimFrames { start_frame, end_frame, derived_quality }),
                    selected_version: SelectedTakeVersion::Trimmed,
                    ..old(takes)@[k]
                }
            },
        result is Err ==> final(takes)@ == old(takes)@,
{
    let k = match find_take(takes.as_slice(), take_id) {
        Some(k) => k,
        None => {
            return Err(
                DatasetError::new(
                    DatasetErrorCode::TakeNotFound,
                    "The selected take was not found.",
                ).take(take_id),
            );
        },
    };
    if start_frame >= end_frame || end_frame > takes[k].frame_count {
        return Err(
            DatasetError::new(
                DatasetErrorCode::InvalidTrimRange,
                "Trim boundaries must select a non-empty range inside the raw take.",
            ).take(take_id),
        );
    }
    let head = concat("derived/", take_id);
    let derived = concat(head.as_str(), "-trimmed.wav");
    let old_take = takes[k].clone_record();
    let trimmed = TakeRecord {
        derived_file: Some(derived),
        trim: Some(TrimFrames { start_frame, end_frame, derived_quality }),
        selected_version: SelectedTakeVersion::Trimmed,
        ..old_take
    };
    takes.set(k, trimmed);
    Ok(())
}

/// Drops a take's trimmed copy from the manifest and selects the raw recording;
/// returns the relative file of the dropped copy, if there was one.
pub fn reset_trim_record(takes: &mut Vec<TakeRecord>, take_id: &str) -> (result: Result<
    Option<String>,
    DatasetError,
>)
    ensures
        !has_take(old(takes)@, take_id@) ==> (result matches Err(e) && e@ == take_not_found(take_id@)),
        forall|k: int|
            take_index(old(takes)@, take_id@, k) ==> {
                &&& result == Ok::<Option<String>, DatasetError>((#[trigger] old(takes)@[k]).derived_file)
                &&& final(takes)@ == old(takes)@.update(
                    k,
                    TakeRecord {
                        derived_file: None,
                        trim: None,
                        selected_version: SelectedTakeVersion::Raw,
                        ..old(takes)@[k]
                    },
                )
            },
        result is Err ==> final(takes)@ == old(takes)@,
{
    let k = match find_take(takes.as_slice(), take_id) {
        Some(k) => k,
        None => {
            return Err(
                DatasetError::new(
                    DatasetErrorCode::TakeNotFound,
                    "The selected take was not found.",
                ).take(take_id),
            );
        },
    };
    let old_take = takes[k].clone_record();
    let derived = old_take.derived_file.clone();
    let reset = TakeRecord {
        derived_file: None,
        trim: None,
        selected_version: SelectedTakeVersion::Raw,
        ..old_take
    };
    takes.set(k, reset);
    Ok(derived)
}

/// Removes a take from the manifest and returns it.
pub fn remove_take_record(takes: &mut Vec<TakeRecord>, take_id: &str) -> (result: Result<
    TakeRecord,
    DatasetError,
>)
    ensures
        !has_take(old(takes)@, take_id@) ==> (result matches Err(e) && e@ == take_not_found(take_id@)),
        forall|k: int|
            take_index(old(takes)@, take_id@, k) ==> {
                &&& result == Ok::<TakeRecord, DatasetError>(#[trigger] old(takes)@[k])
                &&& final(takes)@ == old(takes)@.remove(k)
            },
        result is Err ==> final(takes)@ == old(takes)@,
{
    let k = match find_take(takes.as_slice(), take_id) {
        Some(k) => k,
        None => {
            return Err(
                DatasetError::new(
                    DatasetErrorCode::TakeNotFound,
                    "The selected take was not found.",
                ).take(take_id),
            );
        },
    };
    Ok(takes.remove(k))
}

// ---------------------------------------------------------------------------
// The profile index.
// ---------------------------------------------------------------------------
/// Some earlier profile of the index has the identifier of the one at `j`.
pub open spec fn repeated_profile_at(profiles: Seq<VoiceProfileMetadata>, j: int) -> bool {
    exists|k: int| 0 <= k < j && (#[trigger] profiles[k]).id@ == profiles[j].id@
}

/// Every profile of the index has a managed identifier and no identifier repeats.
pub open spec fn index_entries_valid(profiles: Seq<VoiceProfileMetadata>) -> bool {
    forall|j: int|
        0 <= j < profiles.len() ==> managed_id((#[trigger] profiles[j]).id@, "profile"@)
            && !repeated_profile_at(profiles, j)
}

/// The outcome of checking a stored profile index.
pub open spec fn index_check(schema_version: u32, profiles: Seq<VoiceProfileMetadata>) -> Result<
    (),
    DatasetErrorView,
> {
    if schema_version != PROFILE_INDEX_SCHEMA_VERSION {
        Err(
            plain_error(
                DatasetErrorCode::FutureManifestSchema,
                "Unsupported profile index schema version "@ + decimal_spec(schema_version as nat)
                    + "."@,
            ),
        )
    } else if !index_entries_valid(profiles) {
        Err(
            plain_error(
                DatasetErrorCode::CorruptManifest,
                "The voice profile index contains invalid or duplicate identifiers."@,
            ),
        )
    } else {
        Ok(())
    }
}

/// Checks a stored profile index: its schema version, and that its identifiers are
/// managed identifiers without repeats.
#[verifier::loop_isolation(false)]
pub fn validate_index(schema_version: u32, profiles: &[VoiceProfileMetadata]) -> (result: Result<
    (),
    DatasetError,
>)
    ensures
        unit_result_view(result) == index_check(schema_version, profiles@),
{
    if schema_version != PROFILE_INDEX_SCHEMA_VERSION {
        let a = concat(
            "Unsupported profile index schema version ",
            from_chars(decimal(schema_version as u64).as_slice()).as_str(),
        );
        let message = concat(a.as_str(), ".");
        return Err(DatasetError::new(DatasetErrorCode::FutureManifestSchema, message.as_str()));
    }
    proof {
        reveal_strlit("profile");
    }
    let mut j: usize = 0;
    while j < profiles.len()
        invariant
            j <= profiles@.len(),
            forall|m: int|
                0 <= m < j ==> managed_id((#[trigger] profiles@[m]).id@, "profile"@)
                    && !repeated_profile_at(profiles@, m),
        decreases profiles@.len() - j,
    {
        let mut bad = validate_id(profiles[j].id.as_str(), "profile").is_err();
        let mut k: usize = 0;
        while !bad && k < j
            invariant
                k <= j < profiles@.len(),
                !bad ==> forall|m: int| 0 <= m < k ==> (#[trigger] profiles@[m]).id@ != profiles@[j as int].id@,
                !bad ==> managed_id(profiles@[j as int].id@, "profile"@),
                bad ==> repeated_profile_at(profiles@, j as int) || !managed_id(profiles@[j as int].id@, "profile"@),
            decreases j - k,
        {
            if str_equal(profiles[k].id.as_str(), profiles[j].id.as_str()) {
                assert(profiles@[k as int].id@ == profiles@[j as int].id@);
                bad = true;
            }
            k = k + 1;
        }
        if bad {
            assert(!index_entries_valid(profiles@)) by {
                assert(!(managed_id(profiles@[j as int].id@, "profile"@) && !repeated_profile_at(
                    profiles@,
                    j as int,
                )));
            }
            return Err(
                DatasetError::new(
                    DatasetErrorCode::CorruptManifest,
                    "The voice profile index contains invalid or duplicate identifiers.",
                ),
            );
        }
        j = j + 1;
    }
    Ok(())
}

/// The index entries without those of the given profile.
pub open spec fn without_profile(profiles: Seq<VoiceProfileMetadata>, id: Seq<char>) -> Seq<
    VoiceProfileMetadata,
>
    decreases profiles.len(),
{
    if profiles.len() == 0 {
        profiles
    } else if profiles.last().id@ == id {
        without_profile(profiles.drop_last(), id)
    } else {
        without_profile(profiles.drop_last(), id).push(profiles.last())
    }
}

/// Removing an identifier from the index shortens it exactly when the identifier was
/// there.
proof fn lemma_without_profile_len(profiles: Seq<VoiceProfileMetadata>, id: Seq<char>)
    ensures
        without_profile(profiles, id).len() <= profiles.len(),
        without_profile(profiles, id).len() == profiles.len() <==> forall|m: int|
            0 <= m < profiles.len() ==> (#[trigger] profiles[m]).id@ != id,
    decreases profiles.len(),
{
    if profiles.len() > 0 {
        let rest = profiles.drop_last();
        lemma_without_profile_len(rest, id);
        if without_profile(profiles, id).len() == profiles.len() {
            assert forall|m: int| 0 <= m < profiles.len() implies (#[trigger] profiles[m]).id@ != id by {
                if m < rest.len() {
                    assert(rest[m] == profiles[m]);
                }
            }
        } else {
            if forall|m: int| 0 <= m < profiles.len() ==> (#[trigger] profiles[m]).id@ != id {
                assert(profiles.last() == profiles[profiles.len() - 1]);
                assert forall|m: int| 0 <= m < rest.len() implies (#[trigger] rest[m]).id@ != id by {
                    assert(rest[m] == profiles[m]);
                }
            }
        }
    }
}

/// Removes every index entry of a profile; tells whether there was one.
pub fn remove_profile_entry(profiles: &mut Vec<VoiceProfileMetadata>, profile_id: &str) -> (removed:
    bool)
    ensures
        final(profiles)@ == without_profile(old(profiles)@, profile_id@),
        removed <==> exists|m: int|
            0 <= m < old(profiles)@.len() && (#[trigger] old(profiles)@[m]).id@ == profile_id@,
{
    let ghost initial = profiles@;
    let mut kept: Vec<VoiceProfileMetadata> = Vec::new();
    let mut i: usize = 0;
    while i < profiles.len()
        invariant
            profiles@ == initial,
            i <= initial.len(),
            kept@ == without_profile(initial.take(i as int), profile_id@),
        decreases initial.len() - i,
    {
        assert(initial.take(i + 1).drop_last() =~= initial.take(i as int));
        if !str_equal(profiles[i].id.as_str(), profile_id) {
            kept.push(clone_profile(&profiles[i]));
        }
        i = i + 1;
    }
    assert(initial.take(initial.len() as int) =~= initial);
    let before = profiles.len();
    proof {
        lemma_without_profile_len(initial, profile_id@);
    }
    *profiles = kept;
    profiles.len() != before
}

/// Puts a profile's new details in place of its index entry.
pub fn replace_profile_entry(profiles: &mut Vec<VoiceProfileMetadata>, profile: VoiceProfileMetadata) -> (result:
    Result<(), DatasetError>)
    ensures
        (forall|m: int| 0 <= m < old(profiles)@.len() ==> (#[trigger] old(profiles)@[m]).id@ != profile.id@)
            ==> unit_result_view(result) == Err::<(), DatasetErrorView>(
            DatasetErrorView {
                profile_id: Some(profile.id@),
                ..plain_error(
                    DatasetErrorCode::ProfileNotFound,
                    "The profile is missing from the dataset index."@,
                )
            },
        ),
        (exists|k: int| 0 <= k < old(profiles)@.len() && (#[trigger] old(profiles)@[k]).id@ == profile.id@)
            ==> result is Ok,
        result is Err ==> final(profiles)@ == old(profiles)@,
        result is Ok ==> exists|k: int|
            0 <= k < old(profiles)@.len() && (#[trigger] old(profiles)@[k]).id@ == profile.id@
                && (forall|m: int| 0 <= m < k ==> (#[trigger] old(profiles)@[m]).id@ != profile.id@)
                && final(profiles)@ == old(profiles)@.update(k, profile),
{
    let mut k: usize = 0;
    while k < profiles.len()
        invariant
            k <= profiles@.len(),
            profiles@ == old(profiles)@,
            forall|m: int| 0 <= m < k ==> (#[trigger] profiles@[m]).id@ != profile.id@,
        decreases profiles@.len() - k,
    {
        if str_equal(profiles[k].id.as_str(), profile.id.as_str()) {
            let ghost at = k as int;
            profiles.set(k, profile);
            assert(old(profiles)@[at].id@ == final_id(profiles@[at]));
            return Ok(());
        }
        k = k + 1;
    }
    let id = profile.id;
    Err(
        DatasetError::new(
            DatasetErrorCode::ProfileNotFound,
            "The profile is missing from the dataset index.",
        ).profile(id.as_str()),
    )
}

/// The identifier of an index entry.
pub open spec fn final_id(p: VoiceProfileMetadata) -> Seq<char> {
    p.id@
}

// ---------------------------------------------------------------------------
// Profile health.
// ---------------------------------------------------------------------------
/// The health of a profile whose manifest cannot be read, by the reason.
pub open spec fn unreadable_health(code: DatasetErrorCode) -> ProfileHealth {
    match code {
        DatasetErrorCode::FutureManifestSchema => ProfileHealth::UnsupportedSchema,
        DatasetErrorCode::CorruptManifest => ProfileHealth::CorruptManifest,
        _ => ProfileHealth::NeedsRepair,
    }
}

/// A file that some take of the manifest names.
pub open spec fn referenced(takes: Seq<TakeRecord>, file: Seq<char>) -> bool {
    exists|k: int|
        0 <= k < takes.len() && ((#[trigger] takes[k]).raw_file@ == file || opt_view(
            takes[k].derived_file,
        ) == Some(file))
}

/// A take whose raw recording, or its trimmed copy where it has one, is missing.
pub open spec fn missing_at(takes: Seq<TakeRecord>, raw_present: Seq<bool>, derived_present: Seq<bool>, k: int) -> bool {
    !raw_present[k] || (takes[k].derived_file is Some && !derived_present[k])
}

/// Some take's file is missing.
pub open spec fn has_missing_file(takes: Seq<TakeRecord>, raw_present: Seq<bool>, derived_present: Seq<bool>) -> bool {
    exists|k: int| 0 <= k < takes.len() && #[trigger] missing_at(takes, raw_present, derived_present, k)
}

/// Some stored file is named by no take.
pub open spec fn has_orphan(takes: Seq<TakeRecord>, stored_files: Seq<Seq<char>>) -> bool {
    exists|f: int| 0 <= f < stored_files.len() && !referenced(takes, #[trigger] stored_files[f])
}

/// The health of a profile: an unfinished deletion needs repair; an unreadable
/// manifest is reported by its reason; a take's missing file comes next, then a stored
/// file that no take names; otherwise the profile is healthy.
pub open spec fn health_spec(
    deletion_pending: bool,
    manifest: Result<Seq<TakeRecord>, DatasetErrorCode>,
    raw_present: Seq<bool>,
    derived_present: Seq<bool>,
    stored_files: Seq<Seq<char>>,
) -> ProfileHealth {
    if deletion_pending {
        ProfileHealth::NeedsRepair
    } else {
        match manifest {
            Err(code) => unreadable_health(code),
            Ok(takes) => if has_missing_file(takes, raw_present, derived_present) {
                ProfileHealth::MissingFiles
            } else if has_orphan(takes, stored_files) {
                ProfileHealth::OrphanedFiles
            } else {
                ProfileHealth::Healthy
            },
        }
    }
}

/// An equal copy of a profile's details.
pub fn clone_profile(p: &VoiceProfileMetadata) -> (copy: VoiceProfileMetadata)
    ensures
        copy == *p,
{
    VoiceProfileMetadata {
        id: p.id.clone(),
        display_name: p.display_name.clone(),
        description: match &p.description {
            Some(d) => Some(d.clone()),
            None => None,
        },
        primary_language: p.primary_language.clone(),
        locale_tag: match &p.locale_tag {
            Some(l) => Some(l.clone()),
            None => None,
        },
        collection_goal_minutes: p.collection_goal_minutes,
        created_at: p.created_at.clone(),
        updated_at: p.updated_at.clone(),
    }
}

/// The takes of a readable manifest, or why it could not be read.
pub open spec fn takes_view(manifest: Result<&[TakeRecord], DatasetErrorCode>) -> Result<
    Seq<TakeRecord>,
    DatasetErrorCode,
> {
    match manifest {
        Ok(takes) => Ok(takes@),
        Err(code) => Err(code),
    }
}

/// Classifies a profile's health from what is on disk: whether a deletion marker
/// remains, the manifest's takes (or why it could not be read), whether each take's
/// raw and trimmed files exist, and the files stored under `raw/` and `derived/`
/// (written as `raw/name` and `derived/name`).
#[verifier::loop_isolation(false)]
pub fn classify_profile_health(
    deletion_pending: bool,
    manifest: Result<&[TakeRecord], DatasetErrorCode>,
    raw_present: &[bool],
    derived_present: &[bool],
    stored_files: &[String],
) -> (health: ProfileHealth)
    requires
        manifest matches Ok(takes) ==> raw_present@.len() == takes@.len()
            && derived_present@.len() == takes@.len(),
    ensures
        health == health_spec(
            deletion_pending,
            takes_view(manifest),
            raw_present@,
            derived_present@,
            crate::voice_dataset::take::string_views(stored_files@),
        ),
{
    if deletion_pending {
        return ProfileHealth::NeedsRepair;
    }
    let takes = match manifest {
        Err(code) => {
            return match code {
                DatasetErrorCode::FutureManifestSchema => ProfileHealth::UnsupportedSchema,
                DatasetErrorCode::CorruptManifest => ProfileHealth::CorruptManifest,
                _ => ProfileHealth::NeedsRepair,
            };
        },
        Ok(takes) => takes,
    };
    let mut k: usize = 0;
    while k < takes.len()
        invariant
            k <= takes@.len(),
            raw_present@.len() == takes@.len(),
            derived_present@.len() == takes@.len(),
            forall|m: int| 0 <= m < k ==> !missing_at(takes@, raw_present@, derived_present@, m),
        decreases takes@.len() - k,
    {
        if !raw_present[k] || (takes[k].derived_file.is_some() && !derived_present[k]) {
            assert(missing_at(takes@, raw_present@, derived_present@, k as int));
            assert(takes_view(manifest) == Ok::<Seq<TakeRecord>, DatasetErrorCode>(takes@));
            assert(has_missing_file(takes@, raw_present@, derived_present@));
            return ProfileHealth::MissingFiles;
        }
        k = k + 1;
    }
    let ghost names = crate::voice_dataset::take::string_views(stored_files@);
    let mut f: usize = 0;
    while f < stored_files.len()
        invariant
            f <= stored_files@.len(),
            names == crate::voice_dataset::take::string_views(stored_files@),
            forall|m: int| 0 <= m < f ==> referenced(takes@, #[trigger] names[m]),
        decreases stored_files@.len() - f,
    {
        let file = stored_files[f].as_str();
        let mut found = false;
        let mut t: usize = 0;
        while !found && t < takes.len()
            invariant
                t <= takes@.len(),
                file@ == names[f as int],
                found ==> referenced(takes@, file@),
                !found ==> forall|m: int|
                    0 <= m < t ==> (#[trigger] takes@[m]).raw_file@ != file@ && opt_view(
                        takes@[m].derived_file,
                    ) != Some(file@),
            decreases takes@.len() - t,
        {
            let derived_match = match &takes[t].derived_file {
                Some(d) => str_equal(d.as_str(), file),
                None => false,
            };
            if str_equal(takes[t].raw_file.as_str(), file) || derived_match {
                found = true;
                assert((takes@[t as int]).raw_file@ == file@ || opt_view(takes@[t as int].derived_file) == Some(file@));
            }
            t = t + 1;
        }
        if !found {
            assert(!referenced(takes@, names[f as int]));
            return ProfileHealth::OrphanedFiles;
        }
        f = f + 1;
    }
    ProfileHealth::Healthy
}

/// The manifest of a newly created profile: its validated details and consent, dated
/// `now`, the canonical recording format, the built-in prompt pack, no takes yet, and
/// statistics counted over them.
pub fn new_profile_manifest(
    id: String,
    fields: ProfileFields,
    consent_notes: Option<String>,
    now: String,
) -> (manifest: VoiceDatasetManifestV1)
    ensures
        manifest.schema_version == crate::voice_dataset::manifest::DATASET_MANIFEST_SCHEMA_VERSION,
        manifest.profile == (VoiceProfileMetadata {
            id,
            display_name: fields.display_name,
            description: fields.description,
            primary_language: fields.primary_language,
            locale_tag: fields.locale_tag,
            collection_goal_minutes: fields.collection_goal_minutes,
            created_at: now,
            updated_at: now,
        }),
        manifest.consent.consent_confirmed,
        manifest.consent.consent_version@ == CONSENT_VERSION@,
        manifest.consent.confirmed_at == now,
        manifest.consent.confirmed_by_user,
        manifest.consent.recorded_consent_take_id is None,
        manifest.consent.revoked_at is None,
        manifest.consent.notes == consent_notes,
        crate::voice_dataset::manifest::canonical_recording_format(manifest.recording_format),
        manifest.prompt_pack.id@ == "mam-english-core"@,
        manifest.prompt_pack.version == 1,
        manifest.takes@.len() == 0,
        crate::voice_dataset::take::statistics_of(
            manifest.statistics,
            manifest.takes@,
            crate::voice_dataset::prompts::BUILT_IN_PROMPT_COUNT,
        ),
        manifest.created_at == now,
        manifest.updated_at == now,
{
    let pack = crate::voice_dataset::prompts::built_in_english_pack();
    let profile = VoiceProfileMetadata {
        id,
        display_name: fields.display_name,
        description: fields.description,
        primary_language: fields.primary_language,
        locale_tag: fields.locale_tag,
        collection_goal_minutes: fields.collection_goal_minutes,
        created_at: now.clone(),
        updated_at: now.clone(),
    };
    let consent = crate::voice_dataset::consent::ConsentMetadata {
        consent_confirmed: true,
        consent_version: from_chars(to_chars(CONSENT_VERSION).as_slice()),
        confirmed_at: now.clone(),
        confirmed_by_user: true,
        recorded_consent_take_id: None,
        revoked_at: None,
        notes: consent_notes,
    };
    let mut manifest = VoiceDatasetManifestV1 {
        schema_version: crate::voice_dataset::manifest::DATASET_MANIFEST_SCHEMA_VERSION,
        profile,
        consent,
        recording_format: crate::voice_dataset::manifest::DatasetRecordingFormat::default(),
        prompt_pack: crate::voice_dataset::prompts::PromptPackReference { id: pack.id, version: pack.version },
        takes: Vec::new(),
        statistics: crate::voice_dataset::take::DatasetStatistics::default(),
        created_at: now.clone(),
        updated_at: now,
    };
    manifest.rebuild_statistics(pack.prompts.len());
    manifest
}

// ---------------------------------------------------------------------------
// Managed storage layout.
// ---------------------------------------------------------------------------
/// The dataset folder: one folder per profile below the root, with the raw takes in
/// `raw/` and trimmed copies in `derived/`. Paths below the root are written with `/`
/// between their parts.
pub struct DatasetStorage {
    root: String,
}

/// The result of building a path, as plain values.
pub open spec fn path_result_view(r: Result<String, DatasetError>) -> Result<Seq<char>, DatasetErrorView> {
    text_result_view(r)
}

impl DatasetStorage {
    /// The root folder's path.
    pub closed spec fn root_path(&self) -> Seq<char> {
        self.root@
    }

    /// Storage rooted at the given folder.
    pub fn new(root: String) -> (storage: Self)
        ensures
            storage.root_path() == root@,
    {
        DatasetStorage { root }
    }

    /// The root folder.
    pub fn root(&self) -> (root: &str)
        ensures
            root@ == self.root_path(),
    {
        self.root.as_str()
    }

    /// The folder of a profile, for a managed profile identifier only.
    pub fn profile_dir(&self, profile_id: &str) -> (result: Result<String, DatasetError>)
        ensures
            managed_id(profile_id@, "profile"@) ==> path_result_view(result) == Ok::<
                Seq<char>,
                DatasetErrorView,
            >(self.root_path() + "/"@ + profile_id@),
            !managed_id(profile_id@, "profile"@) ==> path_result_view(result) == Err::<
                Seq<char>,
                DatasetErrorView,
            >(id_error("profile"@)),
    {
        match validate_id(profile_id, "profile") {
            Err(e) => Err(e),
            Ok(()) => {
                let head = concat(self.root.as_str(), "/");
                Ok(concat(head.as_str(), profile_id))
            },
        }
    }

    /// Where a take's raw recording is stored.
    pub fn raw_take_path(&self, profile_id: &str, take_id: &str) -> (result: Result<
        String,
        DatasetError,
    >)
        ensures
            !managed_id(take_id@, "take"@) ==> path_result_view(result) == Err::<
                Seq<char>,
                DatasetErrorView,
            >(id_error("take"@)),
            managed_id(take_id@, "take"@) && !managed_id(profile_id@, "profile"@)
                ==> path_result_view(result) == Err::<Seq<char>, DatasetErrorView>(
                id_error("profile"@),
            ),
            managed_id(take_id@, "take"@) && managed_id(profile_id@, "profile"@)
                ==> path_result_view(result) == Ok::<Seq<char>, DatasetErrorView>(
                self.root_path() + "/"@ + profile_id@ + "/"@ + raw_file_name(take_id@),
            ),
    {
        validate_id(take_id, "take")?;
        let dir = self.profile_dir(profile_id)?;
        let a = concat(dir.as_str(), "/raw/");
        let b = concat(a.as_str(), take_id);
        let path = concat(b.as_str(), ".wav");
        assert(path@ =~= self.root_path() + "/"@ + profile_id@ + "/"@ + raw_file_name(take_id@)) by {
            reveal_strlit("/raw/");
            reveal_strlit("/");
            reveal_strlit("raw/");
        }
        Ok(path)
    }

    /// Where a take's trimmed copy is stored.
    pub fn derived_take_path(&self, profile_id: &str, take_id: &str) -> (result: Result<
        String,
        DatasetError,
    >)
        ensures
            !managed_id(take_id@, "take"@) ==> path_result_view(result) == Err::<
                Seq<char>,
                DatasetErrorView,
            >(id_error("take"@)),
            managed_id(take_id@, "take"@) && !managed_id(profile_id@, "profile"@)
                ==> path_result_view(result) == Err::<Seq<char>, DatasetErrorView>(
                id_error("profile"@),
            ),
            managed_id(take_id@, "take"@) && managed_id(profile_id@, "profile"@)
                ==> path_result_view(result) == Ok::<Seq<char>, DatasetErrorView>(
                self.root_path() + "/"@ + profile_id@ + "/"@ + derived_file_name(take_id@),
            ),
    {
        validate_id(take_id, "take")?;
        let dir = self.profile_dir(profile_id)?;
        let a = concat(dir.as_str(), "/derived/");
        let b = concat(a.as_str(), take_id);
        let path = concat(b.as_str(), "-trimmed.wav");
        assert(path@ =~= self.root_path() + "/"@ + profile_id@ + "/"@ + derived_file_name(take_id@)) by {
            reveal_strlit("/derived/");
            reveal_strlit("/");
            reveal_strlit("derived/");
        }
        Ok(path)
    }

    /// The stored file of one version of a take. The file is always inside the
    /// profile's folder: the manifest's relative path must be a managed relative path.
    pub fn resolve_take_file(
        &self,
        profile_id: &str,
        take: &TakeRecord,
        version: SelectedTakeVersion,
    ) -> (result: Result<String, DatasetError>)
        ensures
            version == SelectedTakeVersion::Trimmed && take.derived_file is None ==> path_result_view(
                result,
            ) == Err::<Seq<char>, DatasetErrorView>(
                plain_error(DatasetErrorCode::TakeNotFound, "This take has no trimmed version."@),
            ),
            forall|relative: Seq<char>|
                relative == (match version {
                    SelectedTakeVersion::Raw => take.raw_file@,
                    SelectedTakeVersion::Trimmed => opt_view(take.derived_file)->0,
                }) && (version == SelectedTakeVersion::Raw || take.derived_file is Some) ==> {
                    &&& !managed_relative_path(relative) ==> path_result_view(result) == Err::<
                        Seq<char>,
                        DatasetErrorView,
                    >(crate::voice_dataset::take::path_error())
                    &&& managed_relative_path(relative) && !managed_id(profile_id@, "profile"@)
                        ==> path_result_view(result) == Err::<Seq<char>, DatasetErrorView>(
                        id_error("profile"@),
                    )
                    &&& managed_relative_path(relative) && managed_id(profile_id@, "profile"@)
                        ==> path_result_view(result) == Ok::<Seq<char>, DatasetErrorView>(
                        self.root_path() + "/"@ + profile_id@ + "/"@ + relative,
                    )
                },
    {
        let relative = match version {
            SelectedTakeVersion::Raw => take.raw_file.as_str(),
            SelectedTakeVersion::Trimmed => match &take.derived_file {
                Some(d) => d.as_str(),
                None => {
                    return Err(
                        DatasetError::new(
                            DatasetErrorCode::TakeNotFound,
                            "This take has no trimmed version.",
                        ),
                    );
                },
            },
        };
        validate_relative_path(relative)?;
        let dir = self.profile_dir(profile_id)?;
        let a = concat(dir.as_str(), "/");
        Ok(concat(a.as_str(), relative))
    }

    /// The profiles of the index, in index order, each with the health of its stored
    /// files (`NeedsRepair` where it could not be determined) and the bytes under its
    /// folder (0 where they could not be counted).
    pub fn list_profiles(
        &self,
        profiles: &Vec<VoiceProfileMetadata>,
        health: &Vec<Option<ProfileHealth>>,
        sizes: &Vec<Option<u64>>,
    ) -> (summaries: Vec<VoiceProfileSummary>)
        requires
            health@.len() == profiles@.len(),
            sizes@.len() == profiles@.len(),
        ensures
            summaries@.len() == profiles@.len(),
            forall|i: int|
                0 <= i < profiles@.len() ==> {
                    &&& (#[trigger] summaries@[i]).profile == profiles@[i]
                    &&& summaries@[i].health == match health@[i] {
                        Some(h) => h,
                        None => ProfileHealth::NeedsRepair,
                    }
                    &&& summaries@[i].managed_storage_bytes == match sizes@[i] {
                        Some(n) => n,
                        None => 0u64,
                    }
                },
    {
        let mut summaries: Vec<VoiceProfileSummary> = Vec::new();
        let mut i: usize = 0;
        while i < profiles.len()
            invariant
                i <= profiles@.len(),
                health@.len() == profiles@.len(),
                sizes@.len() == profiles@.len(),
                summaries@.len() == i,
                forall|k: int|
                    0 <= k < i ==> {
                        &&& (#[trigger] summaries@[k]).profile == profiles@[k]
                        &&& summaries@[k].health == match health@[k] {
                            Some(h) => h,
                            None => ProfileHealth::NeedsRepair,
                        }
                        &&& summaries@[k].managed_storage_bytes == match sizes@[k] {
                            Some(n) => n,
                            None => 0u64,
                        }
                    },
            decreases profiles@.len() - i,
        {
            let h = match health[i] {
                Some(h) => h,
                None => ProfileHealth::NeedsRepair,
            };
            let bytes = match sizes[i] {
                Some(n) => n,
                None => 0,
            };
            summaries.push(
                VoiceProfileSummary {
                    profile: clone_profile(&profiles[i]),
                    health: h,
                    managed_storage_bytes: bytes,
                },
            );
            i = i + 1;
        }
        summaries
    }

    /// A training source over a profile's manifest, placed in the profile's folder;
    /// the identifier error when the profile identifier is not a managed one.
    pub fn snapshot_source(&self, profile_id: &str, manifest: VoiceDatasetManifestV1) -> (result:
        Result<ManifestDatasetSource, DatasetError>)
        requires
            durations_computable(manifest.takes@),
        ensures
            managed_id(profile_id@, "profile"@) ==> (result matches Ok(source)
                && source.root_path() == self.root_path() + "/"@ + profile_id@
                && source.manifest_value() == manifest),
            !managed_id(profile_id@, "profile"@) ==> (result matches Err(e) && e@ == id_error(
                "profile"@,
            )),
    {
        let dir = self.profile_dir(profile_id)?;
        Ok(ManifestDatasetSource::new(dir.as_str(), manifest))
    }
}

} // verus!
