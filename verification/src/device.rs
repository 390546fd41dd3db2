use vstd::prelude::*;

use crate::digits::{fnv1a, fnv_continue, hex, hex_spec};
use crate::text::{
    contains_spec, contains_str, from_chars, normalize_name, normalized_name, str_equal, to_chars,
};
use crate::words::{
    alnum_words, join_spec, join_words, lemma_sorted_words_unique, replace_all, replace_spec,
    sorted_distinct_words, strictly_sorted, word_views,
};

verus! {

/// Whether an endpoint captures or renders audio.
#[derive(Clone, Copy, Debug, PartialEq, Eq, Structural)]
pub enum DeviceDirection {
    Input,
    Output,
}

/// The lowercase label of a direction.
pub open spec fn direction_label(direction: DeviceDirection) -> Seq<char> {
    match direction {
        DeviceDirection::Input => "input"@,
        DeviceDirection::Output => "output"@,
    }
}

impl DeviceDirection {
    pub fn label(self) -> (label: &'static str)
        ensures
            label@ == direction_label(self),
    {
        match self {
            DeviceDirection::Input => "input",
            DeviceDirection::Output => "output",
        }
    }
}

/// An audio endpoint as the operating system reports it.
#[derive(Debug)]
pub struct DeviceInfo {
    pub id: String,
    pub name: String,
    pub direction: DeviceDirection,
    pub is_default: bool,
    pub is_likely_virtual: bool,
    pub virtual_family: Option<String>,
    pub minimum_sample_rate: Option<u32>,
    pub maximum_sample_rate: Option<u32>,
    pub common_sample_rates: Vec<u32>,
    pub channel_counts: Vec<u16>,
}

/// The abstract value of a [`DeviceInfo`].
pub struct DeviceView {
    pub id: Seq<char>,
    pub name: Seq<char>,
    pub direction: DeviceDirection,
    pub is_default: bool,
    pub is_likely_virtual: bool,
    pub virtual_family: Option<Seq<char>>,
    pub minimum_sample_rate: Option<u32>,
    pub maximum_sample_rate: Option<u32>,
    pub common_sample_rates: Seq<u32>,
    pub channel_counts: Seq<u16>,
}

/// The character view of an optional string.
pub open spec fn opt_view(s: Option<String>) -> Option<Seq<char>> {
    match s {
        Some(s) => Some(s@),
        None => None,
    }
}

impl View for DeviceInfo {
    type V = DeviceView;

    open spec fn view(&self) -> DeviceView {
        DeviceView {
            id: self.id@,
            name: self.name@,
            direction: self.direction,
            is_default: self.is_default,
            is_likely_virtual: self.is_likely_virtual,
            virtual_family: opt_view(self.virtual_family),
            minimum_sample_rate: self.minimum_sample_rate,
            maximum_sample_rate: self.maximum_sample_rate,
            common_sample_rates: self.common_sample_rates@,
            channel_counts: self.channel_counts@,
        }
    }
}

/// A copy of a vector of plain values.
pub fn copy_values<T: Copy>(values: &Vec<T>) -> (copy: Vec<T>)
    ensures
        copy@ == values@,
{
    let mut copy: Vec<T> = Vec::new();
    let mut i: usize = 0;
    while i < values.len()
        invariant
            i <= values@.len(),
            copy@ == values@.take(i as int),
        decreases values@.len() - i,
    {
        copy.push(values[i]);
        assert(values@.take(i as int).push(values@[i as int]) =~= values@.take(i + 1));
        i = i + 1;
    }
    assert(values@.take(values@.len() as int) =~= values@);
    copy
}

/// A copy of an optional string.
pub fn copy_opt_string(s: &Option<String>) -> (copy: Option<String>)
    ensures
        opt_view(copy) == opt_view(*s),
{
    match s {
        Some(s) => Some(s.clone()),
        None => None,
    }
}

impl Clone for DeviceInfo {
    fn clone(&self) -> (copy: Self)
        ensures
            copy@ == self@,
    {
        DeviceInfo {
            id: self.id.clone(),
            name: self.name.clone(),
            direction: self.direction,
            is_default: self.is_default,
            is_likely_virtual: self.is_likely_virtual,
            virtual_family: copy_opt_string(&self.virtual_family),
            minimum_sample_rate: self.minimum_sample_rate,
            maximum_sample_rate: self.maximum_sample_rate,
            common_sample_rates: copy_values(&self.common_sample_rates),
            channel_counts: copy_values(&self.channel_counts),
        }
    }
}

/// The input and output endpoints of the host.
#[derive(Debug)]
pub struct DeviceList {
    pub inputs: Vec<DeviceInfo>,
    pub outputs: Vec<DeviceInfo>,
}

// ---------------------------------------------------------------------------
// Stable endpoint identifiers.
// ---------------------------------------------------------------------------
/// The identifier of an endpoint: the direction and an FNV-1a fingerprint of the
/// direction and the normalized friendly name, so that it does not depend on the
/// enumeration order.
pub open spec fn device_id_spec(direction: DeviceDirection, name: Seq<char>) -> Seq<char> {
    let key = direction_label(direction) + seq![':'] + normalized_name(name);
    "wasapi-"@ + direction_label(direction) + seq!['-'] + hex_spec(
        fnv1a(vstd::utf8::encode_utf8(key)) as nat,
        16,
    )
}

pub fn stable_device_id(direction: DeviceDirection, name: &str) -> (id: String)
    ensures
        id@ == device_id_spec(direction, name@),
{
    let label = direction.label();
    let mut key = to_chars(label);
    key.push(':');
    let normalized = normalize_name(name);
    crate::words::append_chars(&mut key, normalized.as_slice());
    let key_text = from_chars(key.as_slice());
    let hash = fnv_continue(0xcbf2_9ce4_8422_2325u64, key_text.as_str().as_bytes());
    let mut id = to_chars("wasapi-");
    crate::words::append_chars(&mut id, to_chars(label).as_slice());
    id.push('-');
    let digits = hex(hash, 16);
    crate::words::append_chars(&mut id, digits.as_slice());
    proof {
        assert(key@ =~= direction_label(direction) + seq![':'] + normalized_name(name@));
        assert(id@ =~= device_id_spec(direction, name@));
    }
    from_chars(id.as_slice())
}

// ---------------------------------------------------------------------------
// Restoring a stored endpoint.
// ---------------------------------------------------------------------------
/// `index` is the one index below `count` that satisfies `pred`.
pub open spec fn only_index(count: int, pred: spec_fn(int) -> bool, index: int) -> bool {
    &&& 0 <= index < count
    &&& pred(index)
    &&& forall|j: int| 0 <= j < count && #[trigger] pred(j) ==> j == index
}

/// Exactly one index below `count` satisfies `pred`.
pub open spec fn has_only_index(count: int, pred: spec_fn(int) -> bool) -> bool {
    exists|index: int| only_index(count, pred, index)
}

/// The stored identifier matches the current name at `i`.
pub open spec fn restore_by_id(direction: DeviceDirection, id: Seq<char>, names: Seq<String>) -> spec_fn(int) -> bool {
    |i: int| device_id_spec(direction, names[i]@) == id
}

/// The stored friendly name matches the current name at `i`.
pub open spec fn restore_by_name(friendly_name: Seq<char>, names: Seq<String>) -> spec_fn(int) -> bool {
    |i: int| normalized_name(names[i]@) == normalized_name(friendly_name)
}

/// Position `k` is the only hit.
pub open spec fn unique_hit(hits: Seq<bool>, k: int) -> bool {
    0 <= k < hits.len() && hits[k] && forall|j: int| 0 <= j < hits.len() && #[trigger] hits[j] ==> j == k
}

/// Exactly one position is a hit.
pub open spec fn has_unique_hit(hits: Seq<bool>) -> bool {
    exists|k: int| unique_hit(hits, k)
}

/// Finds the only hit, if there is exactly one.
pub fn only_hit(hits: &Vec<bool>) -> (found: Option<usize>)
    ensures
        match found {
            Some(k) => unique_hit(hits@, k as int),
            None => !has_unique_hit(hits@),
        },
{
    let mut count: usize = 0;
    let mut first: usize = 0;
    let mut i: usize = 0;
    while i < hits.len()
        invariant
            i <= hits@.len(),
            count <= 2,
            count == 0 ==> forall|j: int| 0 <= j < i ==> !hits@[j],
            count >= 1 ==> first < i && hits@[first as int],
            count == 1 ==> forall|j: int| 0 <= j < i && hits@[j] ==> j == first,
            count >= 2 ==> exists|a: int, b: int| 0 <= a < b < hits@.len() && hits@[a] && hits@[b],
        decreases hits@.len() - i,
    {
        if hits[i] {
            if count == 0 {
                first = i;
                count = 1;
            } else if count == 1 {
                assert(hits@[first as int] && hits@[i as int]);
                count = 2;
            }
        }
        i = i + 1;
    }
    if count == 1 {
        Some(first)
    } else {
        proof {
            if count == 2 {
                let (a, b) = choose|a: int, b: int| 0 <= a < b < hits@.len() && hits@[a] && hits@[b];
                assert forall|k: int| !unique_hit(hits@, k) by {
                    if unique_hit(hits@, k) {
                        assert(hits@[a] && hits@[b]);
                    }
                }
            } else {
                assert forall|k: int| !unique_hit(hits@, k) by {}
            }
        }
        None
    }
}

pub proof fn lemma_hits_describe(hits: Seq<bool>, count: int, pred: spec_fn(int) -> bool)
    requires
        hits.len() == count,
        forall|j: int| 0 <= j < count ==> hits[j] == pred(j),
    ensures
        forall|k: int| only_index(count, pred, k) == unique_hit(hits, k),
        has_only_index(count, pred) == has_unique_hit(hits),
{
    assert forall|k: int| only_index(count, pred, k) == unique_hit(hits, k) by {
        if only_index(count, pred, k) {
            assert forall|j: int| 0 <= j < hits.len() && #[trigger] hits[j] implies j == k by {
                assert(pred(j));
            }
        }
        if unique_hit(hits, k) {
            assert forall|j: int| 0 <= j < count && #[trigger] pred(j) implies j == k by {
                assert(hits[j]);
            }
        }
    }
    if has_only_index(count, pred) {
        let k = choose|k: int| only_index(count, pred, k);
        assert(unique_hit(hits, k));
    }
    if has_unique_hit(hits) {
        let k = choose|k: int| unique_hit(hits, k);
        assert(only_index(count, pred, k));
    }
}

/// Finds the endpoint to restore among the current names: the one whose identifier
/// is the stored identifier if exactly one matches, else the one whose normalized
/// name is the stored friendly name if exactly one matches.
pub fn restoration_index(
    direction: DeviceDirection,
    id: &str,
    friendly_name: &str,
    names: &[String],
) -> (index: Option<usize>)
    ensures
        match index {
            Some(i) => only_index(names@.len() as int, restore_by_id(direction, id@, names@), i as int)
                || (!has_only_index(names@.len() as int, restore_by_id(direction, id@, names@))
                && only_index(names@.len() as int, restore_by_name(friendly_name@, names@), i as int)),
            None => !has_only_index(names@.len() as int, restore_by_id(direction, id@, names@))
                && !has_only_index(names@.len() as int, restore_by_name(friendly_name@, names@)),
        },
{
    let wanted = normalize_name(friendly_name);
    let mut id_hits: Vec<bool> = Vec::new();
    let mut name_hits: Vec<bool> = Vec::new();
    let mut i: usize = 0;
    while i < names.len()
        invariant
            i <= names@.len(),
            wanted@ == normalized_name(friendly_name@),
            id_hits@.len() == i,
            name_hits@.len() == i,
            forall|j: int| 0 <= j < i ==> id_hits@[j] == restore_by_id(direction, id@, names@)(j),
            forall|j: int| 0 <= j < i ==> name_hits@[j] == restore_by_name(friendly_name@, names@)(j),
        decreases names@.len() - i,
    {
        let candidate = stable_device_id(direction, names[i].as_str());
        id_hits.push(str_equal(candidate.as_str(), id));
        let normalized = normalize_name(names[i].as_str());
        name_hits.push(crate::text::chars_equal(normalized.as_slice(), wanted.as_slice()));
        i = i + 1;
    }
    proof {
        lemma_hits_describe(id_hits@, names@.len() as int, restore_by_id(direction, id@, names@));
        lemma_hits_describe(name_hits@, names@.len() as int, restore_by_name(friendly_name@, names@));
    }
    let index = match only_hit(&id_hits) {
        Some(k) => Some(k),
        None => only_hit(&name_hits),
    };
    index
}

// ---------------------------------------------------------------------------
// Recognising virtual endpoints.
// ---------------------------------------------------------------------------
/// A name hint that marks an endpoint as virtual whatever its direction.
pub open spec fn strong_virtual_hint(normalized: Seq<char>) -> bool {
    ||| contains_spec(normalized, "virtual"@)
    ||| contains_spec(normalized, "vb-audio"@)
    ||| contains_spec(normalized, "voicemeeter"@)
    ||| contains_spec(normalized, "loopback"@)
    ||| contains_spec(normalized, "audio router"@)
    ||| contains_spec(normalized, "virtual audio cable"@)
    ||| contains_spec(normalized, "vac "@)
}

/// A name hint that marks an endpoint of the given direction as virtual.
pub open spec fn directional_virtual_hint(direction: DeviceDirection, normalized: Seq<char>) -> bool {
    match direction {
        DeviceDirection::Output => contains_spec(normalized, "cable input"@) || contains_spec(
            normalized,
            "virtual in"@,
        ),
        DeviceDirection::Input => contains_spec(normalized, "cable output"@) || contains_spec(
            normalized,
            "virtual out"@,
        ),
    }
}

/// Whether an already normalized name carries a virtual-endpoint hint.
pub open spec fn virtual_hint(direction: DeviceDirection, normalized: Seq<char>) -> bool {
    strong_virtual_hint(normalized) || directional_virtual_hint(direction, normalized)
}

/// Whether a normalized (trimmed, lowercased) endpoint name carries a hint that the
/// endpoint is virtual.
pub fn has_virtual_hint(direction: DeviceDirection, normalized: &[char]) -> (hint: bool)
    ensures
        hint == virtual_hint(direction, normalized@),
{
    let strong = contains_str(normalized, "virtual") || contains_str(normalized, "vb-audio")
        || contains_str(normalized, "voicemeeter") || contains_str(normalized, "loopback")
        || contains_str(normalized, "audio router") || contains_str(
        normalized,
        "virtual audio cable",
    ) || contains_str(normalized, "vac ");
    strong || match direction {
        DeviceDirection::Output => contains_str(normalized, "cable input") || contains_str(
            normalized,
            "virtual in",
        ),
        DeviceDirection::Input => contains_str(normalized, "cable output") || contains_str(
            normalized,
            "virtual out",
        ),
    }
}

/// An advisory guess, from the name alone, that an endpoint is virtual.
pub fn is_likely_virtual_endpoint_name(direction: DeviceDirection, name: &str) -> (likely: bool)
    ensures
        likely == virtual_hint(direction, normalized_name(name@)),
{
    let normalized = normalize_name(name);
    has_virtual_hint(direction, normalized.as_slice())
}

// ---------------------------------------------------------------------------
// Virtual route families.
// ---------------------------------------------------------------------------
/// Vendor spellings rewritten as separate words before splitting.
pub open spec fn family_source(normalized: Seq<char>) -> Seq<char> {
    replace_spec(
        replace_spec(
            replace_spec(normalized, "vb-audio"@, " vbaudio "@),
            "voicemeeter"@,
            " voicemeeter "@,
        ),
        "virtual audio cable"@,
        " vac "@,
    )
}

/// Words that say nothing about which route an endpoint belongs to.
pub open spec fn ignored_family_words() -> Seq<Seq<char>> {
    seq![
        "input"@,
        "output"@,
        "playback"@,
        "recording"@,
        "capture"@,
        "microphone"@,
        "speakers"@,
        "endpoint"@,
        "device"@,
        "virtual"@,
        "audio"@,
    ]
}

/// The distinct words that identify the route family of a normalized name.
pub open spec fn family_words(normalized: Seq<char>) -> Set<Seq<char>> {
    Set::new(
        |w: Seq<char>|
            alnum_words(family_source(normalized)).contains(w) && !ignored_family_words().contains(
                w,
            ),
    )
}

/// The family label spelled by sorted words.
pub open spec fn family_label(words: Seq<Seq<char>>) -> Seq<char> {
    if words.len() == 0 {
        "generic-virtual-route"@
    } else {
        join_spec(words, seq!['-'])
    }
}

/// `family` is the route family of the normalized name: its distinct identifying
/// words in increasing order, joined by hyphens, or a generic label when none remain.
pub open spec fn is_family_of(normalized: Seq<char>, family: Seq<char>) -> bool {
    exists|words: Seq<Seq<char>>|
        strictly_sorted(words) && words.to_set() == family_words(normalized) && family
            == family_label(words)
}

/// The route family of an already normalized endpoint name.
pub fn family_of_normalized(normalized: &[char]) -> (family: String)
    ensures
        is_family_of(normalized@, family@),
{
    proof {
        reveal_strlit("vb-audio");
        reveal_strlit("voicemeeter");
        reveal_strlit("virtual audio cable");
    }
    let step1 = replace_all(normalized, to_chars("vb-audio").as_slice(), to_chars(" vbaudio ").as_slice());
    let step2 = replace_all(step1.as_slice(), to_chars("voicemeeter").as_slice(), to_chars(" voicemeeter ").as_slice());
    let step3 = replace_all(
        step2.as_slice(),
        to_chars("virtual audio cable").as_slice(),
        to_chars(" vac ").as_slice(),
    );
    let mut ignored: Vec<Vec<char>> = Vec::new();
    ignored.push(to_chars("input"));
    ignored.push(to_chars("output"));
    ignored.push(to_chars("playback"));
    ignored.push(to_chars("recording"));
    ignored.push(to_chars("capture"));
    ignored.push(to_chars("microphone"));
    ignored.push(to_chars("speakers"));
    ignored.push(to_chars("endpoint"));
    ignored.push(to_chars("device"));
    ignored.push(to_chars("virtual"));
    ignored.push(to_chars("audio"));
    assert(word_views(ignored@) =~= ignored_family_words());
    let words = sorted_distinct_words(step3.as_slice(), &ignored);
    let label = if words.len() == 0 {
        to_chars("generic-virtual-route")
    } else {
        let mut sep: Vec<char> = Vec::new();
        sep.push('-');
        assert(sep@ =~= seq!['-']);
        join_words(&words, sep.as_slice())
    };
    assert(word_views(words@).to_set() =~= family_words(normalized@));
    from_chars(label.as_slice())
}

/// The route family of a normalized name.
pub open spec fn family_spec(normalized: Seq<char>) -> Seq<char> {
    choose|family: Seq<char>| is_family_of(normalized, family)
}

pub fn normalized_virtual_family(name: &str) -> (family: String)
    ensures
        is_family_of(normalized_name(name@), family@),
        family@ == family_spec(normalized_name(name@)),
{
    let normalized = normalize_name(name);
    let family = family_of_normalized(normalized.as_slice());
    proof {
        let n = normalized_name(name@);
        lemma_family_is_unique(n, family@, family_spec(n));
    }
    family
}

/// A normalized name has exactly one route family.
pub proof fn lemma_family_is_unique(normalized: Seq<char>, first: Seq<char>, second: Seq<char>)
    requires
        is_family_of(normalized, first),
        is_family_of(normalized, second),
    ensures
        first == second,
{
    let a = choose|words: Seq<Seq<char>>|
        strictly_sorted(words) && words.to_set() == family_words(normalized) && first
            == family_label(words);
    let b = choose|words: Seq<Seq<char>>|
        strictly_sorted(words) && words.to_set() == family_words(normalized) && second
            == family_label(words);
    lemma_sorted_words_unique(a, b);
}

impl DeviceInfo {
    /// An endpoint that advertises 44.1 and 48 kHz in stereo, for exercising routing logic.
    pub fn test(
        id: &str,
        name: &str,
        direction: DeviceDirection,
        is_default: bool,
        is_likely_virtual: bool,
    ) -> (device: DeviceInfo)
        ensures
            device@.id == id@,
            device@.name == name@,
            device.direction == direction,
            device.is_default == is_default,
            device.is_likely_virtual == is_likely_virtual,
            is_likely_virtual ==> device.virtual_family.is_some() && device.virtual_family.unwrap()@
                == family_spec(normalized_name(name@)),
            !is_likely_virtual ==> device.virtual_family.is_none(),
            device.minimum_sample_rate == Some(44100u32),
            device.maximum_sample_rate == Some(48000u32),
            device.common_sample_rates@ == seq![44100u32, 48000u32],
            device.channel_counts@ == seq![2u16],
    {
        let mut rates: Vec<u32> = Vec::new();
        rates.push(44100);
        rates.push(48000);
        let mut channels: Vec<u16> = Vec::new();
        channels.push(2);
        assert(rates@ =~= seq![44100u32, 48000u32]);
        assert(channels@ =~= seq![2u16]);
        DeviceInfo {
            id: from_chars(to_chars(id).as_slice()),
            name: from_chars(to_chars(name).as_slice()),
            direction,
            is_default,
            is_likely_virtual,
            virtual_family: if is_likely_virtual {
                Some(normalized_virtual_family(name))
            } else {
                None
            },
            minimum_sample_rate: Some(44100),
            maximum_sample_rate: Some(48000),
            common_sample_rates: rates,
            channel_counts: channels,
        }
    }
}

} // verus!
