use vstd::prelude::*;

use crate::digits::{decimal, decimal_spec};
use crate::text::{concat, from_chars, is_control, str_equal, to_chars, trim, trim_spec, unicode_control};

verus! {

/// The preset file schema this crate reads and writes.
pub const PRESET_SCHEMA_VERSION: u32 = 1;

/// The built-in preset selected by default.
pub const NATURAL_PRESET_ID: &'static str = "builtin-natural";

/// The longest preset name, in characters.
pub const MAX_PRESET_NAME_CHARS: usize = 64;

/// The longest user preset identifier, in characters.
pub const MAX_PRESET_ID_CHARS: usize = 128;

/// Why a preset operation failed.
#[derive(Debug)]
pub enum PresetError {
    /// Reading or writing the preset file failed; the text describes the failure.
    Storage(String),
    /// The preset file is not valid JSON; the text describes the failure.
    Json(String),
    Validation(String),
    NotFound,
    BuiltInReadOnly,
}

/// The message shown for a preset error.
pub open spec fn preset_error_message(error: PresetError) -> Seq<char> {
    match error {
        PresetError::Storage(m) => "Preset storage failed: "@ + m@,
        PresetError::Json(m) => "Preset data is not valid JSON: "@ + m@,
        PresetError::Validation(m) => m@,
        PresetError::NotFound => "Preset was not found."@,
        PresetError::BuiltInReadOnly => "Built-in presets cannot be changed or deleted."@,
    }
}

impl PresetError {
    /// The message shown for the error.
    pub fn message(&self) -> (text: String)
        ensures
            text@ == preset_error_message(*self),
    {
        match self {
            PresetError::Storage(m) => concat("Preset storage failed: ", m.as_str()),
            PresetError::Json(m) => concat("Preset data is not valid JSON: ", m.as_str()),
            PresetError::Validation(m) => m.clone(),
            PresetError::NotFound => from_chars(to_chars("Preset was not found.").as_slice()),
            PresetError::BuiltInReadOnly => from_chars(
                to_chars("Built-in presets cannot be changed or deleted.").as_slice(),
            ),
        }
    }
}

/// The message of a validation error, if the result is one.
pub open spec fn validation_message<T>(r: Result<T, PresetError>) -> Option<Seq<char>> {
    match r {
        Err(PresetError::Validation(m)) => Some(m@),
        _ => None,
    }
}

/// A preset saved by the user; `P` holds its processing parameters, which the rules
/// here never look into.
#[derive(Debug)]
pub struct UserPreset<P> {
    pub id: String,
    pub name: String,
    pub parameters: P,
    pub created_at: String,
    pub updated_at: String,
}

/// The stored presets and the selection.
#[derive(Debug)]
pub struct PresetDocument<P> {
    pub schema_version: u32,
    pub presets: Vec<UserPreset<P>>,
    pub selected_preset_id: Option<String>,
}

impl<P> PresetDocument<P> {
    /// The document before any preset is saved: the natural preset selected.
    pub fn new_default() -> (document: Self)
        ensures
            document.schema_version == PRESET_SCHEMA_VERSION,
            document.presets@.len() == 0,
            document.selected_preset_id matches Some(s) && s@ == "builtin-natural"@,
    {
        PresetDocument {
            schema_version: PRESET_SCHEMA_VERSION,
            presets: Vec::new(),
            selected_preset_id: Some(from_chars(to_chars(NATURAL_PRESET_ID).as_slice())),
        }
    }
}

// ---------------------------------------------------------------------------
// Built-in presets.
// ---------------------------------------------------------------------------
/// The identifier of the built-in preset at position `i`.
pub open spec fn built_in_preset_id(i: int) -> Seq<char> {
    if i == 0 {
        "builtin-natural"@
    } else if i == 1 {
        "builtin-warm-tone"@
    } else {
        "builtin-bright-tone"@
    }
}

/// The number of built-in presets.
pub const BUILT_IN_PRESET_COUNT: usize = 3;

/// The identifier of a built-in preset.
pub open spec fn is_built_in_id(id: Seq<char>) -> bool {
    exists|i: int| 0 <= i < BUILT_IN_PRESET_COUNT && built_in_preset_id(i) == id
}

/// Whether an identifier names a built-in preset.
pub fn is_built_in(id: &str) -> (built_in: bool)
    ensures
        built_in == is_built_in_id(id@),
{
    let natural = str_equal(id, NATURAL_PRESET_ID);
    let warm = str_equal(id, "builtin-warm-tone");
    let bright = str_equal(id, "builtin-bright-tone");
    proof {
        if is_built_in_id(id@) {
            let i = choose|i: int| 0 <= i < BUILT_IN_PRESET_COUNT && built_in_preset_id(i) == id@;
            assert(i == 0 || i == 1 || i == 2);
        }
        if natural {
            assert(built_in_preset_id(0) == id@);
        }
        if warm {
            assert(built_in_preset_id(1) == id@);
        }
        if bright {
            assert(built_in_preset_id(2) == id@);
        }
    }
    natural || warm || bright
}

// ---------------------------------------------------------------------------
// Names, identifiers and timestamps.
// ---------------------------------------------------------------------------
/// The outcome of validating a preset name: trimmed, 1 to 64 characters, no control
/// characters.
pub open spec fn name_check(name: Seq<char>) -> Result<Seq<char>, Seq<char>> {
    let t = trim_spec(name);
    if t.len() == 0 || t.len() > 64 {
        Err("Preset name must contain 1 to 64 characters."@)
    } else if exists|i: int| 0 <= i < t.len() && unicode_control(#[trigger] t[i]) {
        Err("Preset name cannot contain control characters."@)
    } else {
        Ok(t)
    }
}

/// The view of a result that carries a string.
pub open spec fn name_result_view(r: Result<String, PresetError>) -> Result<Seq<char>, Seq<char>> {
    match r {
        Ok(s) => Ok(s@),
        Err(PresetError::Validation(m)) => Err(m@),
        Err(_) => Err(Seq::empty()),
    }
}

/// Trims a preset name and checks its length and characters.
pub fn validate_name(name: &str) -> (result: Result<String, PresetError>)
    ensures
        result is Ok || result matches Err(PresetError::Validation(_)),
        name_result_view(result) == name_check(name@),
{
    let trimmed = to_chars(trim(name));
    if trimmed.len() == 0 || trimmed.len() > MAX_PRESET_NAME_CHARS {
        return Err(
            PresetError::Validation(
                from_chars(to_chars("Preset name must contain 1 to 64 characters.").as_slice()),
            ),
        );
    }
    let mut i: usize = 0;
    while i < trimmed.len()
        invariant
            trimmed@ == trim_spec(name@),
            i <= trimmed@.len(),
            0 < trimmed@.len() <= 64,
            forall|k: int| 0 <= k < i ==> !unicode_control(#[trigger] trimmed@[k]),
        decreases trimmed@.len() - i,
    {
        if is_control(trimmed[i]) {
            assert(unicode_control(trimmed@[i as int]));
            return Err(
                PresetError::Validation(
                    from_chars(to_chars("Preset name cannot contain control characters.").as_slice()),
                ),
            );
        }
        i = i + 1;
    }
    Ok(from_chars(trimmed.as_slice()))
}

/// A character allowed in a user preset identifier.
pub open spec fn preset_id_char(c: char) -> bool {
    ('a' <= c && c <= 'z') || ('A' <= c && c <= 'Z') || ('0' <= c && c <= '9') || c == '-' || c
        == '_'
}

/// A user preset identifier: `user-` followed by ASCII letters, digits, `-` and `_`, at
/// most 128 characters in all.
pub open spec fn user_preset_id(id: Seq<char>) -> bool {
    &&& id.len() > 0
    &&& id.len() <= 128
    &&& forall|i: int| 0 <= i < id.len() ==> preset_id_char(#[trigger] id[i])
    &&& "user-"@.is_prefix_of(id)
}

/// The message for an invalid user preset identifier.
pub open spec fn invalid_id_message() -> Seq<char> {
    "A user preset has an invalid id."@
}

/// Accepts only a user preset identifier.
pub fn validate_user_id(id: &str) -> (result: Result<(), PresetError>)
    ensures
        result is Ok <==> user_preset_id(id@),
        result is Err ==> validation_message(result) == Some(invalid_id_message()),
{
    let chars = to_chars(id);
    let prefix = to_chars("user-");
    proof {
        reveal_strlit("user-");
    }
    let mut valid = chars.len() > 0 && chars.len() <= MAX_PRESET_ID_CHARS;
    let mut i: usize = 0;
    while valid && i < chars.len()
        invariant
            chars@ == id@,
            i <= chars@.len(),
            valid ==> chars@.len() > 0 && chars@.len() <= 128,
            valid ==> forall|k: int| 0 <= k < i ==> preset_id_char(#[trigger] chars@[k]),
            !valid ==> !user_preset_id(id@),
        decreases chars@.len() - i,
    {
        let c = chars[i];
        if !(('a' <= c && c <= 'z') || ('A' <= c && c <= 'Z') || ('0' <= c && c <= '9') || c == '-'
            || c == '_') {
            valid = false;
        }
        i = i + 1;
    }
    if valid {
        if chars.len() < prefix.len() {
            valid = false;
        } else {
            let mut k: usize = 0;
            while k < prefix.len()
                invariant
                    chars@ == id@,
                    prefix@ == "user-"@,
                    prefix@.len() <= chars@.len(),
                    k <= prefix@.len(),
                    forall|m: int| 0 <= m < k ==> chars@[m] == prefix@[m],
                decreases prefix@.len() - k,
            {
                if chars[k] != prefix[k] {
                    return Err(
                        PresetError::Validation(
                            from_chars(to_chars("A user preset has an invalid id.").as_slice()),
                        ),
                    );
                }
                k = k + 1;
            }
            assert(prefix@ =~= chars@.subrange(0, prefix@.len() as int));
        }
    }
    if valid {
        Ok(())
    } else {
        Err(PresetError::Validation(from_chars(to_chars("A user preset has an invalid id.").as_slice())))
    }
}

/// The value of a run of decimal digits.
pub open spec fn digits_value(s: Seq<char>) -> nat
    decreases s.len(),
{
    if s.len() == 0 {
        0
    } else {
        digits_value(s.drop_last()) * 10 + ((s.last() as int) - ('0' as int)) as nat
    }
}

/// A decimal digit.
pub open spec fn decimal_digit(c: char) -> bool {
    '0' <= c && c <= '9'
}

/// A number without its optional leading `+`.
pub open spec fn unsigned_part(s: Seq<char>) -> Seq<char> {
    if s.len() > 0 && s[0] == '+' {
        s.drop_first()
    } else {
        s
    }
}

/// Every character is a decimal digit.
pub open spec fn all_digits(d: Seq<char>) -> bool {
    forall|i: int| 0 <= i < d.len() ==> decimal_digit(#[trigger] d[i])
}

/// The digits of a number as `u128` parses it: an optional `+`, then one or more
/// decimal digits.
pub open spec fn number_digits(s: Seq<char>) -> Option<Seq<char>> {
    if unsigned_part(s).len() > 0 && all_digits(unsigned_part(s)) {
        Some(unsigned_part(s))
    } else {
        None
    }
}

/// A stored timestamp: a positive number of Unix milliseconds that fits in 128 bits.
pub open spec fn timestamp_spec(s: Seq<char>) -> Option<u128> {
    match number_digits(s) {
        Some(d) => if 0 < digits_value(d) <= u128::MAX {
            Some(digits_value(d) as u128)
        } else {
            None
        },
        None => None,
    }
}

/// The message for a timestamp that is not Unix milliseconds.
pub open spec fn timestamp_message() -> Seq<char> {
    "Preset timestamps must be Unix milliseconds."@
}

/// Reads a stored timestamp as Unix milliseconds.
pub fn validate_timestamp(timestamp: &str) -> (result: Result<u128, PresetError>)
    ensures
        match timestamp_spec(timestamp@) {
            Some(v) => result == Ok::<u128, PresetError>(v),
            None => validation_message(result) == Some(timestamp_message()),
        },
{
    let s = to_chars(timestamp);
    let start: usize = if s.len() > 0 && s[0] == '+' {
        1
    } else {
        0
    };
    let ghost d = s@.subrange(start as int, s@.len() as int);
    assert(d =~= unsigned_part(s@));
    let mut value: u128 = 0;
    let mut ok = start < s.len();
    let mut i: usize = start;
    while ok && i < s.len()
        invariant
            s@ == timestamp@,
            d == s@.subrange(start as int, s@.len() as int),
            d == unsigned_part(s@),
            start <= i <= s@.len(),
            ok ==> value == digits_value(s@.subrange(start as int, i as int)),
            ok ==> forall|k: int| start <= k < i ==> decimal_digit(#[trigger] s@[k]),
            ok ==> d.len() > 0,
            !ok ==> timestamp_spec(timestamp@) is None,
        decreases s@.len() - i,
    {
        let c = s[i];
        if !('0' <= c && c <= '9') {
            assert(!decimal_digit(d[i - start]));
            assert(number_digits(timestamp@) is None);
            ok = false;
        } else {
            let digit = (c as u32 - '0' as u32) as u128;
            let ghost next = s@.subrange(start as int, i + 1);
            assert(next.drop_last() =~= s@.subrange(start as int, i as int));
            if value > (u128::MAX - digit) / 10 {
                proof {
                    assert(value * 10 + digit > u128::MAX) by (nonlinear_arith)
                        requires
                            value > (u128::MAX - digit) / 10,
                            digit <= 9,
                    ;
                    assert(next =~= d.subrange(0, i + 1 - start));
                    assert(next.last() == c);
                    assert(digits_value(next) == value * 10 + digit);
                    if all_digits(d) {
                        lemma_digits_prefix_grows(d, i + 1 - start);
                        assert(digits_value(d) > u128::MAX);
                        assert(number_digits(timestamp@) == Some(d));
                    } else {
                        assert(number_digits(timestamp@) is None);
                    }
                }
                ok = false;
            } else {
                assert(value * 10 + digit <= u128::MAX) by (nonlinear_arith)
                    requires
                        value <= (u128::MAX - digit) / 10,
                        digit <= 9,
                ;
                value = value * 10 + digit;
            }
        }
        i = i + 1;
    }
    if ok {
        assert(s@.subrange(start as int, s@.len() as int) =~= d);
        assert forall|k: int| 0 <= k < d.len() implies decimal_digit(#[trigger] d[k]) by {
            assert(d[k] == s@[start + k]);
        }
        if value > 0 {
            return Ok(value);
        }
    }
    Err(PresetError::Validation(from_chars(to_chars("Preset timestamps must be Unix milliseconds.").as_slice())))
}

/// A longer run of digits is worth at least as much as its prefix.
proof fn lemma_digits_prefix_grows(d: Seq<char>, n: int)
    requires
        0 <= n <= d.len(),
        forall|i: int| 0 <= i < d.len() ==> decimal_digit(#[trigger] d[i]),
    ensures
        digits_value(d.subrange(0, n)) <= digits_value(d),
    decreases d.len(),
{
    if n < d.len() {
        assert(d.drop_last().subrange(0, n) =~= d.subrange(0, n));
        lemma_digits_prefix_grows(d.drop_last(), n);
    } else {
        assert(d.subrange(0, n) =~= d);
    }
}

/// The identifier for a new user preset: `user-`, the timestamp, the process number
/// and the per-process sequence number, joined by `-`.
pub fn new_user_preset_id(timestamp: &str, process_id: u32, sequence: u64) -> (id: String)
    ensures
        id@ == "user-"@ + timestamp@ + "-"@ + decimal_spec(process_id as nat) + "-"@
            + decimal_spec(sequence as nat),
{
    let a = concat("user-", timestamp);
    let b = concat(a.as_str(), "-");
    let c = concat(b.as_str(), from_chars(decimal(process_id as u64).as_slice()).as_str());
    let d = concat(c.as_str(), "-");
    concat(d.as_str(), from_chars(decimal(sequence).as_slice()).as_str())
}

// ---------------------------------------------------------------------------
// Document validation.
// ---------------------------------------------------------------------------
/// The identifier is a built-in one or belongs to one of the first `n` presets.
pub open spec fn id_taken<P>(presets: Seq<UserPreset<P>>, n: int, id: Seq<char>) -> bool {
    is_built_in_id(id) || exists|k: int| 0 <= k < n && (#[trigger] presets[k]).id@ == id
}

/// The outcome of checking the preset at `n`, given what checking its parameters gave.
pub open spec fn entry_check<P>(presets: Seq<UserPreset<P>>, n: int, parameters: Result<(), String>) -> Result<
    (),
    Seq<char>,
> {
    let p = presets[n];
    if !user_preset_id(p.id@) {
        Err(invalid_id_message())
    } else if id_taken(presets, n, p.id@) {
        Err("Preset id '"@ + p.id@ + "' is duplicated or reserved."@)
    } else if name_check(p.name@) is Err {
        Err(name_check(p.name@)->Err_0)
    } else if parameters is Err {
        Err(parameters->Err_0@)
    } else if timestamp_spec(p.created_at@) is None || timestamp_spec(p.updated_at@) is None {
        Err(timestamp_message())
    } else if timestamp_spec(p.updated_at@)->0 < timestamp_spec(p.created_at@)->0 {
        Err("Preset '"@ + p.id@ + "' was updated before it was created."@)
    } else {
        Ok(())
    }
}

/// The outcome of checking the first `n` presets in order.
pub open spec fn entries_check<P>(presets: Seq<UserPreset<P>>, parameters: Seq<Result<(), String>>, n: int) -> Result<
    (),
    Seq<char>,
>
    decreases n,
{
    if n <= 0 {
        Ok(())
    } else {
        match entries_check(presets, parameters, n - 1) {
            Err(m) => Err(m),
            Ok(()) => entry_check(presets, n - 1, parameters[n - 1]),
        }
    }
}

/// The outcome of checking a preset document: the schema version, then each preset
/// (with the outcome of checking its parameters), then the selection.
pub open spec fn document_check<P>(document: PresetDocument<P>, parameters: Seq<Result<(), String>>) -> Result<
    (),
    Seq<char>,
> {
    if document.schema_version != PRESET_SCHEMA_VERSION {
        Err(
            "Unsupported preset schema version "@ + decimal_spec(document.schema_version as nat)
                + ". Expected version 1."@,
        )
    } else {
        match entries_check(document.presets@, parameters, document.presets@.len() as int) {
            Err(m) => Err(m),
            Ok(()) => match document.selected_preset_id {
                Some(id) => if id_taken(document.presets@, document.presets@.len() as int, id@) {
                    Ok(())
                } else {
                    Err("The selected preset does not exist."@)
                },
                None => Ok(()),
            },
        }
    }
}

/// The view of a result that carries nothing but a validation message.
pub open spec fn check_view(r: Result<(), PresetError>) -> Result<(), Seq<char>> {
    match r {
        Ok(()) => Ok(()),
        Err(PresetError::Validation(m)) => Err(m@),
        Err(_) => Err(Seq::empty()),
    }
}

/// Once a check has failed, checking more presets keeps the same message.
proof fn lemma_entries_check_stops<P>(
    presets: Seq<UserPreset<P>>,
    parameters: Seq<Result<(), String>>,
    n: int,
    m: int,
)
    requires
        0 <= n <= m,
        entries_check(presets, parameters, n) is Err,
    ensures
        entries_check(presets, parameters, m) == entries_check(presets, parameters, n),
    decreases m - n,
{
    if m > n {
        lemma_entries_check_stops(presets, parameters, n, m - 1);
    }
}

fn quoted_message(head: &str, id: &str, tail: &str) -> (message: String)
    ensures
        message@ == head@ + id@ + tail@,
{
    let a = concat(head, id);
    concat(a.as_str(), tail)
}

/// Whether an identifier is built in or used by one of the first `n` presets.
fn taken_before<P>(presets: &Vec<UserPreset<P>>, n: usize, id: &str) -> (taken: bool)
    requires
        n <= presets@.len(),
    ensures
        taken == id_taken(presets@, n as int, id@),
{
    if is_built_in(id) {
        return true;
    }
    let mut k: usize = 0;
    while k < n
        invariant
            n <= presets@.len(),
            k <= n,
            forall|m: int| 0 <= m < k ==> (#[trigger] presets@[m]).id@ != id@,
        decreases n - k,
    {
        if str_equal(presets[k].id.as_str(), id) {
            assert(presets@[k as int].id@ == id@);
            return true;
        }
        k = k + 1;
    }
    false
}

/// Checks a preset document; `parameters` holds, in order, what checking each preset's
/// parameters gave.
pub fn validate_document<P>(document: &PresetDocument<P>, parameters: &[Result<(), String>]) -> (result:
    Result<(), PresetError>)
    requires
        parameters@.len() == document.presets@.len(),
    ensures
        result is Ok || result matches Err(PresetError::Validation(_)),
        check_view(result) == document_check(*document, parameters@),
{
    if document.schema_version != PRESET_SCHEMA_VERSION {
        let a = concat(
            "Unsupported preset schema version ",
            from_chars(decimal(document.schema_version as u64).as_slice()).as_str(),
        );
        return Err(PresetError::Validation(concat(a.as_str(), ". Expected version 1.")));
    }
    let presets = &document.presets;
    let mut n: usize = 0;
    while n < presets.len()
        invariant
            presets@ == document.presets@,
            document.schema_version == PRESET_SCHEMA_VERSION,
            parameters@.len() == presets@.len(),
            n <= presets@.len(),
            entries_check(presets@, parameters@, n as int) == Ok::<(), Seq<char>>(()),
        decreases presets@.len() - n,
    {
        let p = &presets[n];
        let failure: Option<String> = if validate_user_id(p.id.as_str()).is_err() {
            Some(from_chars(to_chars("A user preset has an invalid id.").as_slice()))
        } else if taken_before(presets, n, p.id.as_str()) {
            Some(quoted_message("Preset id '", p.id.as_str(), "' is duplicated or reserved."))
        } else {
            match validate_name(p.name.as_str()) {
                Err(PresetError::Validation(m)) => Some(m),
                Err(_) => Some(String::new()),
                Ok(_) => match &parameters[n] {
                    Err(m) => Some(m.clone()),
                    Ok(()) => {
                        let created = validate_timestamp(p.created_at.as_str());
                        let updated = validate_timestamp(p.updated_at.as_str());
                        match (created, updated) {
                            (Ok(c), Ok(u)) => if u < c {
                                Some(
                                    quoted_message(
                                        "Preset '",
                                        p.id.as_str(),
                                        "' was updated before it was created.",
                                    ),
                                )
                            } else {
                                None
                            },
                            _ => Some(
                                from_chars(
                                    to_chars("Preset timestamps must be Unix milliseconds.").as_slice(),
                                ),
                            ),
                        }
                    },
                },
            }
        };
        assert(entries_check(presets@, parameters@, n + 1) == entry_check(
            presets@,
            n as int,
            parameters@[n as int],
        ));
        match failure {
            Some(m) => {
                assert(entry_check(presets@, n as int, parameters@[n as int]) == Err::<(), Seq<char>>(m@));
                proof {
                    lemma_entries_check_stops(presets@, parameters@, n + 1, presets@.len() as int);
                }
                return Err(PresetError::Validation(m));
            },
            None => {},
        }
        n = n + 1;
    }
    match &document.selected_preset_id {
        Some(id) => if taken_before(presets, presets.len(), id.as_str()) {
            Ok(())
        } else {
            Err(
                PresetError::Validation(
                    from_chars(to_chars("The selected preset does not exist.").as_slice()),
                ),
            )
        },
        None => Ok(()),
    }
}

// ---------------------------------------------------------------------------
// Document changes.
// ---------------------------------------------------------------------------
/// The presets other than those with the given identifier, in order.
pub open spec fn presets_without<P>(presets: Seq<UserPreset<P>>, id: Seq<char>) -> Seq<UserPreset<P>>
    decreases presets.len(),
{
    if presets.len() == 0 {
        presets
    } else if presets.last().id@ == id {
        presets_without(presets.drop_last(), id)
    } else {
        presets_without(presets.drop_last(), id).push(presets.last())
    }
}

/// Some preset has the given identifier.
pub open spec fn has_preset<P>(presets: Seq<UserPreset<P>>, id: Seq<char>) -> bool {
    exists|k: int| 0 <= k < presets.len() && (#[trigger] presets[k]).id@ == id
}

/// Removing presets shortens the list exactly when one had the identifier.
proof fn lemma_presets_without_len<P>(presets: Seq<UserPreset<P>>, id: Seq<char>)
    ensures
        presets_without(presets, id).len() <= presets.len(),
        presets_without(presets, id).len() == presets.len() <==> !has_preset(presets, id),
        !has_preset(presets, id) ==> presets_without(presets, id) == presets,
    decreases presets.len(),
{
    if presets.len() > 0 {
        let rest = presets.drop_last();
        lemma_presets_without_len(rest, id);
        if has_preset(presets, id) {
            let k = choose|k: int| 0 <= k < presets.len() && (#[trigger] presets[k]).id@ == id;
            if k < rest.len() {
                assert(rest[k] == presets[k]);
            }
        }
        if has_preset(rest, id) {
            let k = choose|k: int| 0 <= k < rest.len() && (#[trigger] rest[k]).id@ == id;
            assert(presets[k] == rest[k]);
        }
        if !has_preset(presets, id) {
            assert(presets.last() == presets[presets.len() - 1]);
            assert(rest.push(presets.last()) =~= presets);
        }
    }
}

/// Deletes a user preset; built-in presets cannot be deleted. When the deleted preset
/// was selected, the natural preset becomes selected.
pub fn delete_preset<P>(document: &mut PresetDocument<P>, id: &str) -> (result: Result<(), PresetError>)
    ensures
        is_built_in_id(id@) ==> result matches Err(PresetError::BuiltInReadOnly),
        !is_built_in_id(id@) && !has_preset(old(document).presets@, id@) ==> result matches Err(
            PresetError::NotFound,
        ),
        !is_built_in_id(id@) && has_preset(old(document).presets@, id@) ==> result is Ok,
        result is Err ==> final(document).presets@ == old(document).presets@
            && final(document).selected_preset_id == old(document).selected_preset_id
            && final(document).schema_version == old(document).schema_version,
        result is Ok ==> {
            &&& !is_built_in_id(id@) && has_preset(old(document).presets@, id@)
            &&& final(document).presets@ == presets_without(old(document).presets@, id@)
            &&& final(document).schema_version == old(document).schema_version
            &&& match old(document).selected_preset_id {
                Some(s) => if s@ == id@ {
                    final(document).selected_preset_id matches Some(n) && n@ == "builtin-natural"@
                } else {
                    final(document).selected_preset_id == old(document).selected_preset_id
                },
                None => final(document).selected_preset_id is None,
            }
        },
{
    if is_built_in(id) {
        return Err(PresetError::BuiltInReadOnly);
    }
    let ghost initial = document.presets@;
    let before = document.presets.len();
    let mut rest: Vec<UserPreset<P>> = Vec::new();
    std::mem::swap(&mut rest, &mut document.presets);
    let mut kept: Vec<UserPreset<P>> = Vec::new();
    let ghost consumed: int = 0;
    while rest.len() > 0
        invariant
            rest@ == initial.skip(consumed),
            0 <= consumed <= initial.len(),
            kept@ == presets_without(initial.take(consumed), id@),
        decreases rest@.len(),
    {
        let p = rest.remove(0);
        proof {
            assert(initial.take(consumed + 1).drop_last() =~= initial.take(consumed));
            assert(initial.take(consumed + 1).last() == p);
            assert(rest@ =~= initial.skip(consumed + 1));
            consumed = consumed + 1;
        }
        if !str_equal(p.id.as_str(), id) {
            kept.push(p);
        }
    }
    proof {
        assert(initial.take(consumed) =~= initial);
        lemma_presets_without_len(initial, id@);
    }
    if kept.len() == before {
        document.presets = kept;
        return Err(PresetError::NotFound);
    }
    document.presets = kept;
    let reselect = match &document.selected_preset_id {
        Some(s) => str_equal(s.as_str(), id),
        None => false,
    };
    if reselect {
        document.selected_preset_id = Some(from_chars(to_chars(NATURAL_PRESET_ID).as_slice()));
    }
    Ok(())
}

/// The position of the first preset with the given identifier.
pub open spec fn preset_index<P>(presets: Seq<UserPreset<P>>, id: Seq<char>, k: int) -> bool {
    &&& 0 <= k < presets.len()
    &&& presets[k].id@ == id
    &&& forall|m: int| 0 <= m < k ==> (#[trigger] presets[m]).id@ != id
}

/// The position of the first preset with the given identifier, if any.
pub fn find_preset<P>(presets: &Vec<UserPreset<P>>, id: &str) -> (found: Option<usize>)
    ensures
        found matches Some(k) ==> preset_index(presets@, id@, k as int),
        found is None ==> !has_preset(presets@, id@),
{
    let mut k: usize = 0;
    while k < presets.len()
        invariant
            k <= presets@.len(),
            forall|m: int| 0 <= m < k ==> (#[trigger] presets@[m]).id@ != id@,
        decreases presets@.len() - k,
    {
        if str_equal(presets[k].id.as_str(), id) {
            return Some(k);
        }
        k = k + 1;
    }
    None
}

/// Renames a user preset and records when (`now`, or the error from reading the
/// clock). Built-in presets cannot be renamed; the name is validated first.
pub fn rename_preset<P>(
    document: &mut PresetDocument<P>,
    id: &str,
    name: &str,
    now: Result<String, PresetError>,
) -> (result: Result<(), PresetError>)
    ensures
        is_built_in_id(id@) ==> result matches Err(PresetError::BuiltInReadOnly),
        !is_built_in_id(id@) && name_check(name@) is Err ==> check_view(result) == Err::<
            (),
            Seq<char>,
        >(name_check(name@)->Err_0),
        !is_built_in_id(id@) && name_check(name@) is Ok && !has_preset(old(document).presets@, id@)
            ==> result matches Err(PresetError::NotFound),
        !is_built_in_id(id@) && name_check(name@) is Ok && has_preset(old(document).presets@, id@)
            ==> match now {
            Ok(_) => result is Ok,
            Err(e) => result == Err::<(), PresetError>(e),
        },
        result is Err ==> final(document).presets@ == old(document).presets@
            && final(document).selected_preset_id == old(document).selected_preset_id
            && final(document).schema_version == old(document).schema_version,
        result is Ok ==> exists|k: int|
            #![trigger old(document).presets@[k]]
            preset_index(old(document).presets@, id@, k) && (now matches Ok(t) && {
                &&& final(document).presets@.len() == old(document).presets@.len()
                &&& forall|m: int|
                    0 <= m < old(document).presets@.len() && m != k ==> final(document).presets@[m]
                        == old(document).presets@[m]
                &&& final(document).presets@[k].name@ == name_check(name@)->Ok_0
                &&& final(document).presets@[k].updated_at == t
                &&& final(document).presets@[k].id == old(document).presets@[k].id
                &&& final(document).presets@[k].created_at == old(document).presets@[k].created_at
                &&& final(document).presets@[k].parameters == old(document).presets@[k].parameters
            }) && final(document).selected_preset_id == old(document).selected_preset_id
                && final(document).schema_version == old(document).schema_version,
{
    if is_built_in(id) {
        return Err(PresetError::BuiltInReadOnly);
    }
    let name = validate_name(name)?;
    let k = match find_preset(&document.presets, id) {
        Some(k) => k,
        None => {
            return Err(PresetError::NotFound);
        },
    };
    let now = now?;
    let ghost before = document.presets@;
    let mut rest: Vec<UserPreset<P>> = Vec::new();
    std::mem::swap(&mut rest, &mut document.presets);
    let old_preset = rest.remove(k);
    let renamed = UserPreset {
        id: old_preset.id,
        name,
        parameters: old_preset.parameters,
        created_at: old_preset.created_at,
        updated_at: now,
    };
    rest.insert(k, renamed);
    document.presets = rest;
    proof {
        assert forall|m: int|
            0 <= m < before.len() && m != k implies document.presets@[m] == before[m] by {
            if m < k {
            } else {
            }
        }
    }
    Ok(())
}

/// Selects a preset, which must exist (built-in or saved).
pub fn select_preset<P>(document: &mut PresetDocument<P>, id: &str) -> (result: Result<(), PresetError>)
    ensures
        (is_built_in_id(id@) || has_preset(old(document).presets@, id@)) ==> (result is Ok
            && (final(document).selected_preset_id matches Some(s) && s@ == id@)),
        !(is_built_in_id(id@) || has_preset(old(document).presets@, id@)) ==> (result matches Err(
            PresetError::NotFound,
        ) && final(document).selected_preset_id == old(document).selected_preset_id),
        final(document).presets@ == old(document).presets@,
        final(document).schema_version == old(document).schema_version,
{
    if !is_built_in(id) && find_preset(&document.presets, id).is_none() {
        return Err(PresetError::NotFound);
    }
    document.selected_preset_id = Some(from_chars(to_chars(id).as_slice()));
    Ok(())
}

/// Saves a new user preset under a fresh identifier and selects it; the name is
/// validated first.
pub fn add_preset<P>(
    document: &mut PresetDocument<P>,
    id: String,
    name: &str,
    parameters: P,
    now: String,
) -> (result: Result<(), PresetError>)
    ensures
        name_check(name@) is Err ==> check_view(result) == Err::<(), Seq<char>>(
            name_check(name@)->Err_0,
        ) && final(document).presets@ == old(document).presets@
            && final(document).selected_preset_id == old(document).selected_preset_id,
        name_check(name@) is Ok ==> (result is Ok && final(document).presets@.len() == old(
            document,
        ).presets@.len() + 1 && final(document).presets@.drop_last() == old(document).presets@ && {
            let p = final(document).presets@.last();
            &&& p.id == id
            &&& p.name@ == name_check(name@)->Ok_0
            &&& p.parameters == parameters
            &&& p.created_at == now
            &&& p.updated_at == now
        } && (final(document).selected_preset_id matches Some(s) && s@ == id@)),
        final(document).schema_version == old(document).schema_version,
{
    let name = match validate_name(name) {
        Ok(n) => n,
        Err(e) => {
            return Err(e);
        },
    };
    let selected = id.clone();
    let created_at = now.clone();
    document.presets.push(UserPreset { id, name, parameters, created_at, updated_at: now });
    assert(document.presets@.drop_last() =~= old(document).presets@);
    document.selected_preset_id = Some(selected);
    Ok(())
}

} // verus!
