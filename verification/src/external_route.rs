use vstd::prelude::*;

use crate::device::{family_spec, normalized_virtual_family, opt_view, DeviceInfo, DeviceView};
use crate::digits::{decimal, decimal_spec, fnv1a, fnv_continue, hex, hex_spec};
use crate::text::{
    contains_spec, contains_str, from_chars, lowercase_chars, lowercase_of, normalized_name,
    to_chars,
};
use crate::words::{append_chars, join_spec, join_words, word_views};

verus! {

/// How strongly a playback endpoint is tied to its capture endpoint.
#[derive(Clone, Copy, Debug, PartialEq, Eq, Structural)]
pub enum PairingConfidence {
    Exact,
    High,
    Manual,
    Ambiguous,
    Unpaired,
}

/// Why two endpoints were paired.
#[derive(Clone, Copy, Debug, PartialEq, Eq, Structural)]
pub enum PairingSource {
    KnownPattern,
    NormalizedName,
    VendorFamily,
    Manual,
    NoPairing,
}

/// Whether a route can be used as it stands.
#[derive(Clone, Copy, Debug, PartialEq, Eq, Structural)]
pub enum RouteValidationStatus {
    Ready,
    MissingCapture,
    AmbiguousPair,
    IncompatibleFormat,
    PhysicalConfirmationRequired,
}

/// The outcome of checking a saved route against the current device inventory.
#[derive(Clone, Copy, Debug, PartialEq, Eq, Structural)]
pub enum RouteReadiness {
    Ready,
    MissingInput,
    MissingPlayback,
    MissingCapture,
    AmbiguousPair,
    IncompatibleFormat,
    DeviceUnavailable,
    EngineActive,
}

#[derive(Debug)]
pub struct RouteCompatibilityDetails {
    pub common_virtual_sample_rates: Vec<u32>,
    pub details: String,
}

/// A virtual playback endpoint with the capture endpoint that receiving applications
/// record from.
#[derive(Debug)]
pub struct ExternalAudioRoute {
    pub route_id: String,
    pub display_name: String,
    pub playback_device: DeviceInfo,
    pub capture_device: Option<DeviceInfo>,
    pub candidate_capture_devices: Vec<DeviceInfo>,
    pub pairing_confidence: PairingConfidence,
    pub pairing_source: PairingSource,
    pub validation_status: RouteValidationStatus,
    pub compatibility: RouteCompatibilityDetails,
    pub manual: bool,
}

#[derive(Debug)]
pub struct ExternalAudioRouteCatalog {
    pub routes: Vec<ExternalAudioRoute>,
    pub virtual_playback_devices: Vec<DeviceInfo>,
    pub virtual_capture_devices: Vec<DeviceInfo>,
    pub unpaired_capture_devices: Vec<DeviceInfo>,
    pub selected_route_id: Option<String>,
    pub restoration_warning: Option<String>,
}

#[derive(Debug)]
pub struct RouteCompatibilityResult {
    pub route_id: Option<String>,
    pub readiness: RouteReadiness,
    pub message: String,
    pub negotiated_sample_rate: Option<u32>,
    pub capture_endpoint_available: bool,
}

/// The strength of an automatic pairing.
#[derive(Clone, Copy, Debug, PartialEq, Eq, Structural)]
pub struct PairScore {
    pub score: u16,
    pub confidence: PairingConfidence,
    pub source: PairingSource,
}

/// The abstract value of an [`ExternalAudioRoute`].
pub struct RouteView {
    pub route_id: Seq<char>,
    pub display_name: Seq<char>,
    pub playback_device: DeviceView,
    pub capture_device: Option<DeviceView>,
    pub candidate_capture_devices: Seq<DeviceView>,
    pub pairing_confidence: PairingConfidence,
    pub pairing_source: PairingSource,
    pub validation_status: RouteValidationStatus,
    pub common_virtual_sample_rates: Seq<u32>,
    pub details: Seq<char>,
    pub manual: bool,
}

pub open spec fn device_views(devices: Seq<DeviceInfo>) -> Seq<DeviceView> {
    devices.map_values(|d: DeviceInfo| d@)
}

pub open spec fn opt_device_view(device: Option<DeviceInfo>) -> Option<DeviceView> {
    match device {
        Some(d) => Some(d@),
        None => None,
    }
}

impl View for ExternalAudioRoute {
    type V = RouteView;

    open spec fn view(&self) -> RouteView {
        RouteView {
            route_id: self.route_id@,
            display_name: self.display_name@,
            playback_device: self.playback_device@,
            capture_device: opt_device_view(self.capture_device),
            candidate_capture_devices: device_views(self.candidate_capture_devices@),
            pairing_confidence: self.pairing_confidence,
            pairing_source: self.pairing_source,
            validation_status: self.validation_status,
            common_virtual_sample_rates: self.compatibility.common_virtual_sample_rates@,
            details: self.compatibility.details@,
            manual: self.manual,
        }
    }
}

pub open spec fn route_views(routes: Seq<ExternalAudioRoute>) -> Seq<RouteView> {
    routes.map_values(|r: ExternalAudioRoute| r@)
}

/// Copies a list of endpoints.
pub fn clone_devices(devices: &Vec<DeviceInfo>) -> (copy: Vec<DeviceInfo>)
    ensures
        device_views(copy@) == device_views(devices@),
{
    let mut copy: Vec<DeviceInfo> = Vec::new();
    let mut i: usize = 0;
    while i < devices.len()
        invariant
            i <= devices@.len(),
            copy@.len() == i,
            device_views(copy@) == device_views(devices@).take(i as int),
        decreases devices@.len() - i,
    {
        let ghost before = copy@;
        copy.push(devices[i].clone());
        assert(copy@ == before.push(copy@[i as int]));
        assert forall|k: int| 0 <= k < i + 1 implies #[trigger] device_views(copy@)[k] == device_views(
            devices@,
        ).take(i + 1)[k] by {
            if k < i {
                assert(copy@[k] == before[k]);
            }
        }
        assert(device_views(copy@) =~= device_views(devices@).take(i + 1));
        i = i + 1;
    }
    assert(device_views(devices@).take(devices@.len() as int) =~= device_views(devices@));
    copy
}

fn clone_opt_device(device: &Option<DeviceInfo>) -> (copy: Option<DeviceInfo>)
    ensures
        opt_device_view(copy) == opt_device_view(*device),
{
    match device {
        Some(d) => Some(d.clone()),
        None => None,
    }
}

impl Clone for ExternalAudioRoute {
    fn clone(&self) -> (copy: Self)
        ensures
            copy@ == self@,
    {
        ExternalAudioRoute {
            route_id: self.route_id.clone(),
            display_name: self.display_name.clone(),
            playback_device: self.playback_device.clone(),
            capture_device: clone_opt_device(&self.capture_device),
            candidate_capture_devices: clone_devices(&self.candidate_capture_devices),
            pairing_confidence: self.pairing_confidence,
            pairing_source: self.pairing_source,
            validation_status: self.validation_status,
            compatibility: RouteCompatibilityDetails {
                common_virtual_sample_rates: crate::device::copy_values(
                    &self.compatibility.common_virtual_sample_rates,
                ),
                details: self.compatibility.details.clone(),
            },
            manual: self.manual,
        }
    }
}

// ---------------------------------------------------------------------------
// Route identifiers and descriptions.
// ---------------------------------------------------------------------------
/// The deterministic identifier of a route.
pub open spec fn route_id_spec(playback_id: Seq<char>, capture_id: Option<Seq<char>>, manual: bool) -> Seq<
    char,
> {
    let capture = match capture_id {
        Some(c) => c,
        None => "unpaired"@,
    };
    let kind = if manual {
        "manual"@
    } else {
        "automatic"@
    };
    let source = "external-route:"@ + playback_id + seq![':'] + capture + seq![':'] + kind;
    "external-route-"@ + hex_spec(fnv1a(vstd::utf8::encode_utf8(source)) as nat, 16)
}

pub fn stable_route_id(playback_id: &str, capture_id: Option<&str>, manual: bool) -> (id: String)
    ensures
        id@ == route_id_spec(
            playback_id@,
            match capture_id {
                Some(c) => Some(c@),
                None => None,
            },
            manual,
        ),
{
    let mut source = to_chars("external-route:");
    append_chars(&mut source, to_chars(playback_id).as_slice());
    source.push(':');
    match capture_id {
        Some(c) => append_chars(&mut source, to_chars(c).as_slice()),
        None => append_chars(&mut source, to_chars("unpaired").as_slice()),
    }
    source.push(':');
    if manual {
        append_chars(&mut source, to_chars("manual").as_slice());
    } else {
        append_chars(&mut source, to_chars("automatic").as_slice());
    }
    let text = from_chars(source.as_slice());
    let hash = fnv_continue(0xcbf2_9ce4_8422_2325u64, text.as_str().as_bytes());
    let mut id = to_chars("external-route-");
    append_chars(&mut id, hex(hash, 16).as_slice());
    proof {
        let capture = match capture_id {
            Some(c) => c@,
            None => "unpaired"@,
        };
        let kind = if manual {
            "manual"@
        } else {
            "automatic"@
        };
        assert(source@ =~= "external-route:"@ + playback_id@ + seq![':'] + capture + seq![':']
            + kind);
    }
    from_chars(id.as_slice())
}

/// The rates of `first` that `second` also advertises, in the order of `first`.
pub open spec fn common_rates_spec(first: Seq<u32>, second: Seq<u32>) -> Seq<u32>
    decreases first.len(),
{
    if first.len() == 0 {
        seq![]
    } else {
        let rest = common_rates_spec(first.drop_last(), second);
        if second.contains(first.last()) {
            rest.push(first.last())
        } else {
            rest
        }
    }
}

/// The common rates of two endpoints, in the order the first advertises them.
pub fn common_sample_rates(first: &DeviceInfo, second: &DeviceInfo) -> (rates: Vec<u32>)
    ensures
        rates@ == common_rates_spec(first.common_sample_rates@, second.common_sample_rates@),
{
    let a = &first.common_sample_rates;
    let b = &second.common_sample_rates;
    let mut rates: Vec<u32> = Vec::new();
    let mut i: usize = 0;
    while i < a.len()
        invariant
            i <= a@.len(),
            a@ == first.common_sample_rates@,
            b@ == second.common_sample_rates@,
            rates@ == common_rates_spec(a@.take(i as int), b@),
        decreases a@.len() - i,
    {
        let mut found = false;
        let mut j: usize = 0;
        while j < b.len()
            invariant
                j <= b@.len(),
                i < a@.len(),
                found == b@.take(j as int).contains(a@[i as int]),
            decreases b@.len() - j,
        {
            proof {
                let t0 = b@.take(j as int);
                let t1 = b@.take(j + 1);
                assert(t1[j as int] == b@[j as int]);
                if t0.contains(a@[i as int]) {
                    let q = choose|q: int| 0 <= q < t0.len() && t0[q] == a@[i as int];
                    assert(t1[q] == a@[i as int]);
                }
                if t1.contains(a@[i as int]) && !t0.contains(a@[i as int]) {
                    let q = choose|q: int| 0 <= q < t1.len() && t1[q] == a@[i as int];
                    if q < j {
                        assert(t0[q] == a@[i as int]);
                    }
                }
            }
            if b[j] == a[i] {
                found = true;
            }
            j = j + 1;
        }
        assert(b@.take(b@.len() as int) =~= b@);
        assert(a@.take(i + 1).drop_last() =~= a@.take(i as int));
        if found {
            rates.push(a[i]);
        }
        i = i + 1;
    }
    assert(a@.take(a@.len() as int) =~= a@);
    rates
}

/// How a route describes its common rates, such as "44100 Hz and 48000 Hz".
pub open spec fn rates_phrase(rates: Seq<u32>) -> Seq<char> {
    join_spec(rates.map_values(|r: u32| decimal_spec(r as nat) + " Hz"@), " and "@)
}

/// The readiness of a route from its endpoints and common rates.
pub open spec fn route_status(
    playback: DeviceView,
    capture: Option<DeviceView>,
    confidence: PairingConfidence,
    rates: Seq<u32>,
    manual: bool,
) -> RouteValidationStatus {
    match capture {
        None => if confidence == PairingConfidence::Ambiguous {
            RouteValidationStatus::AmbiguousPair
        } else {
            RouteValidationStatus::MissingCapture
        },
        Some(c) => if rates.len() == 0 {
            RouteValidationStatus::IncompatibleFormat
        } else if !manual && (!playback.is_likely_virtual || !c.is_likely_virtual) {
            RouteValidationStatus::PhysicalConfirmationRequired
        } else {
            RouteValidationStatus::Ready
        },
    }
}

/// The compatibility explanation shown for a route.
pub open spec fn route_details(capture: Option<DeviceView>, rates: Seq<u32>) -> Seq<char> {
    if capture is None {
        "A capture endpoint must be selected before this route can be used."@
    } else if rates.len() == 0 {
        "The playback and capture endpoints do not advertise 44.1 or 48 kHz in common. Align them in Windows Sound settings."@
    } else {
        "Both virtual endpoints advertise "@ + rates_phrase(rates) + "."@
    }
}

/// The route built from a playback endpoint, its capture endpoint if any, the
/// candidates that remained, and how the pair was found.
pub open spec fn route_spec(
    playback: DeviceView,
    capture: Option<DeviceView>,
    candidates: Seq<DeviceView>,
    confidence: PairingConfidence,
    source: PairingSource,
    manual: bool,
) -> RouteView {
    let rates = match capture {
        Some(c) => common_rates_spec(playback.common_sample_rates, c.common_sample_rates),
        None => seq![],
    };
    RouteView {
        route_id: route_id_spec(
            playback.id,
            match capture {
                Some(c) => Some(c.id),
                None => None,
            },
            manual,
        ),
        display_name: match capture {
            Some(c) => playback.name + " -> "@ + c.name,
            None => playback.name,
        },
        playback_device: playback,
        capture_device: capture,
        candidate_capture_devices: candidates,
        pairing_confidence: confidence,
        pairing_source: source,
        validation_status: route_status(playback, capture, confidence, rates, manual),
        common_virtual_sample_rates: rates,
        details: route_details(capture, rates),
        manual,
    }
}

fn rates_text(rates: &Vec<u32>) -> (text: Vec<char>)
    ensures
        text@ == rates_phrase(rates@),
{
    let mut parts: Vec<Vec<char>> = Vec::new();
    let ghost phrases = rates@.map_values(|r: u32| decimal_spec(r as nat) + " Hz"@);
    let mut i: usize = 0;
    while i < rates.len()
        invariant
            i <= rates@.len(),
            phrases == rates@.map_values(|r: u32| decimal_spec(r as nat) + " Hz"@),
            parts@.len() == i,
            word_views(parts@) == phrases.take(i as int),
        decreases rates@.len() - i,
    {
        let mut part = decimal(rates[i] as u64);
        append_chars(&mut part, to_chars(" Hz").as_slice());
        let ghost before = parts@;
        parts.push(part);
        assert forall|k: int| 0 <= k < i + 1 implies #[trigger] word_views(parts@)[k] == phrases.take(
            i + 1,
        )[k] by {
            if k < i {
                assert(parts@[k] == before[k]);
            }
        }
        assert(word_views(parts@) =~= phrases.take(i + 1));
        i = i + 1;
    }
    assert(phrases.take(rates@.len() as int) =~= phrases);
    join_words(&parts, to_chars(" and ").as_slice())
}

fn build_route(
    playback: &DeviceInfo,
    capture: Option<&DeviceInfo>,
    candidates: Vec<DeviceInfo>,
    confidence: PairingConfidence,
    source: PairingSource,
    manual: bool,
) -> (route: ExternalAudioRoute)
    ensures
        route@ == route_spec(
            playback@,
            match capture {
                Some(c) => Some(c@),
                None => None,
            },
            device_views(candidates@),
            confidence,
            source,
            manual,
        ),
{
    let rates = match capture {
        Some(c) => common_sample_rates(playback, c),
        None => Vec::new(),
    };
    let validation_status = match capture {
        None => if confidence == PairingConfidence::Ambiguous {
            RouteValidationStatus::AmbiguousPair
        } else {
            RouteValidationStatus::MissingCapture
        },
        Some(c) => if rates.len() == 0 {
            RouteValidationStatus::IncompatibleFormat
        } else if !manual && (!playback.is_likely_virtual || !c.is_likely_virtual) {
            RouteValidationStatus::PhysicalConfirmationRequired
        } else {
            RouteValidationStatus::Ready
        },
    };
    let display_name = match capture {
        Some(c) => {
            let mut text = to_chars(playback.name.as_str());
            append_chars(&mut text, to_chars(" -> ").as_slice());
            append_chars(&mut text, to_chars(c.name.as_str()).as_slice());
            from_chars(text.as_slice())
        },
        None => playback.name.clone(),
    };
    let details = if capture.is_none() {
        from_chars(
            to_chars(
                "A capture endpoint must be selected before this route can be used.",
            ).as_slice(),
        )
    } else if rates.len() == 0 {
        from_chars(
            to_chars(
                "The playback and capture endpoints do not advertise 44.1 or 48 kHz in common. Align them in Windows Sound settings.",
            ).as_slice(),
        )
    } else {
        let mut text = to_chars("Both virtual endpoints advertise ");
        append_chars(&mut text, rates_text(&rates).as_slice());
        append_chars(&mut text, to_chars(".").as_slice());
        from_chars(text.as_slice())
    };
    let route_id = stable_route_id(
        playback.id.as_str(),
        match capture {
            Some(c) => Some(c.id.as_str()),
            None => None,
        },
        manual,
    );
    let capture_device = match capture {
        Some(c) => Some(c.clone()),
        None => None,
    };
    ExternalAudioRoute {
        route_id,
        display_name,
        playback_device: playback.clone(),
        capture_device,
        candidate_capture_devices: candidates,
        pairing_confidence: confidence,
        pairing_source: source,
        validation_status,
        compatibility: RouteCompatibilityDetails { common_virtual_sample_rates: rates, details },
        manual,
    }
}

/// An explicitly chosen pair; it never claims automatic confidence.
pub fn manual_route(playback: &DeviceInfo, capture: &DeviceInfo) -> (route: ExternalAudioRoute)
    ensures
        route@ == route_spec(
            playback@,
            Some(capture@),
            seq![],
            PairingConfidence::Manual,
            PairingSource::Manual,
            true,
        ),
{
    let route = build_route(
        playback,
        Some(capture),
        Vec::new(),
        PairingConfidence::Manual,
        PairingSource::Manual,
        true,
    );
    assert(device_views(Seq::<DeviceInfo>::empty()) =~= Seq::<DeviceView>::empty());
    route
}


// ---------------------------------------------------------------------------
// Automatic pairing.
// ---------------------------------------------------------------------------
/// The route family an endpoint belongs to: its stored family, else the family of
/// its name.
pub open spec fn device_family(device: DeviceView) -> Seq<char> {
    match device.virtual_family {
        Some(f) => f,
        None => family_spec(normalized_name(device.name)),
    }
}

/// Lowercased playback and capture names carry one of the known complementary
/// spellings.
pub open spec fn complement_hint(playback: Seq<char>, capture: Seq<char>) -> bool {
    ||| contains_spec(playback, "cable input"@) && contains_spec(capture, "cable output"@)
    ||| contains_spec(playback, "virtual in"@) && contains_spec(capture, "virtual out"@)
    ||| contains_spec(playback, "playback"@) && contains_spec(capture, "recording"@)
    ||| contains_spec(playback, "input"@) && contains_spec(capture, "output"@)
}

/// The names follow a known playback/capture naming pattern.
pub open spec fn known_complement_spec(playback: Seq<char>, capture: Seq<char>) -> bool {
    complement_hint(lowercase_of(playback), lowercase_of(capture))
}

/// Whether lowercased endpoint names follow a known playback/capture pattern.
pub fn complement_hint_in(playback: &[char], capture: &[char]) -> (hint: bool)
    ensures
        hint == complement_hint(playback@, capture@),
{
    (contains_str(playback, "cable input") && contains_str(capture, "cable output")) || (
    contains_str(playback, "virtual in") && contains_str(capture, "virtual out")) || (
    contains_str(playback, "playback") && contains_str(capture, "recording")) || (contains_str(
        playback,
        "input",
    ) && contains_str(capture, "output"))
}

fn known_complement(playback: &str, capture: &str) -> (known: bool)
    ensures
        known == known_complement_spec(playback@, capture@),
{
    let p = lowercase_chars(playback);
    let c = lowercase_chars(capture);
    complement_hint_in(p.as_slice(), c.as_slice())
}

/// The pairing score of a playback and a capture endpoint, if they can be paired
/// automatically at all.
pub open spec fn pair_score_spec(playback: DeviceView, capture: DeviceView) -> Option<PairScore> {
    if !playback.is_likely_virtual || !capture.is_likely_virtual {
        None
    } else if device_family(playback) == device_family(capture) && known_complement_spec(
        playback.name,
        capture.name,
    ) {
        Some(
            PairScore {
                score: 300,
                confidence: PairingConfidence::Exact,
                source: PairingSource::KnownPattern,
            },
        )
    } else if device_family(playback) == device_family(capture) && family_spec(
        normalized_name(playback.name),
    ) == family_spec(normalized_name(capture.name)) {
        Some(
            PairScore {
                score: 200,
                confidence: PairingConfidence::High,
                source: PairingSource::NormalizedName,
            },
        )
    } else {
        None
    }
}

fn family_of(device: &DeviceInfo) -> (family: String)
    ensures
        family@ == device_family(device@),
{
    match &device.virtual_family {
        Some(f) => f.clone(),
        None => normalized_virtual_family(device.name.as_str()),
    }
}

fn pairing_base(name: &str) -> (base: String)
    ensures
        base@ == family_spec(normalized_name(name@)),
{
    normalized_virtual_family(name)
}

fn pair_score(playback: &DeviceInfo, capture: &DeviceInfo) -> (score: Option<PairScore>)
    ensures
        score == pair_score_spec(playback@, capture@),
{
    if !playback.is_likely_virtual || !capture.is_likely_virtual {
        return None;
    }
    let playback_family = family_of(playback);
    let capture_family = family_of(capture);
    let same_family = playback_family == capture_family;
    if same_family && known_complement(playback.name.as_str(), capture.name.as_str()) {
        Some(
            PairScore {
                score: 300,
                confidence: PairingConfidence::Exact,
                source: PairingSource::KnownPattern,
            },
        )
    } else if same_family && pairing_base(playback.name.as_str()) == pairing_base(
        capture.name.as_str(),
    ) {
        Some(
            PairScore {
                score: 200,
                confidence: PairingConfidence::High,
                source: PairingSource::NormalizedName,
            },
        )
    } else {
        None
    }
}

/// The likely virtual endpoints, in order.
pub open spec fn virtual_only(devices: Seq<DeviceView>) -> Seq<DeviceView>
    decreases devices.len(),
{
    if devices.len() == 0 {
        seq![]
    } else {
        let rest = virtual_only(devices.drop_last());
        if devices.last().is_likely_virtual {
            rest.push(devices.last())
        } else {
            rest
        }
    }
}

/// The highest score of `playback` against any capture endpoint.
pub open spec fn top_capture_score(playback: DeviceView, captures: Seq<DeviceView>) -> Option<u16>
    decreases captures.len(),
{
    if captures.len() == 0 {
        None
    } else {
        let rest = top_capture_score(playback, captures.drop_last());
        match pair_score_spec(playback, captures.last()) {
            None => rest,
            Some(s) => match rest {
                None => Some(s.score),
                Some(r) => Some(if r >= s.score { r } else { s.score }),
            },
        }
    }
}

/// The capture endpoints that score exactly `value` against `playback`, in order.
pub open spec fn captures_scoring(playback: DeviceView, captures: Seq<DeviceView>, value: u16) -> Seq<
    DeviceView,
>
    decreases captures.len(),
{
    if captures.len() == 0 {
        seq![]
    } else {
        let rest = captures_scoring(playback, captures.drop_last(), value);
        if pair_score_spec(playback, captures.last()) matches Some(s) && s.score == value {
            rest.push(captures.last())
        } else {
            rest
        }
    }
}

/// The best-scoring capture endpoints for `playback`, in order.
pub open spec fn best_captures(playback: DeviceView, captures: Seq<DeviceView>) -> Seq<DeviceView> {
    match top_capture_score(playback, captures) {
        Some(v) => captures_scoring(playback, captures, v),
        None => seq![],
    }
}

/// The highest score of any playback endpoint against `capture`.
pub open spec fn top_playback_score(capture: DeviceView, playbacks: Seq<DeviceView>) -> Option<u16>
    decreases playbacks.len(),
{
    if playbacks.len() == 0 {
        None
    } else {
        let rest = top_playback_score(capture, playbacks.drop_last());
        match pair_score_spec(playbacks.last(), capture) {
            None => rest,
            Some(s) => match rest {
                None => Some(s.score),
                Some(r) => Some(if r >= s.score { r } else { s.score }),
            },
        }
    }
}

/// The playback endpoints that score exactly `value` against `capture`, in order.
pub open spec fn playbacks_scoring(capture: DeviceView, playbacks: Seq<DeviceView>, value: u16) -> Seq<
    DeviceView,
>
    decreases playbacks.len(),
{
    if playbacks.len() == 0 {
        seq![]
    } else {
        let rest = playbacks_scoring(capture, playbacks.drop_last(), value);
        if pair_score_spec(playbacks.last(), capture) matches Some(s) && s.score == value {
            rest.push(playbacks.last())
        } else {
            rest
        }
    }
}

/// The best-scoring playback endpoints for `capture`, in order.
pub open spec fn best_playbacks(capture: DeviceView, playbacks: Seq<DeviceView>) -> Seq<DeviceView> {
    match top_playback_score(capture, playbacks) {
        Some(v) => playbacks_scoring(capture, playbacks, v),
        None => seq![],
    }
}

/// How many endpoints carry the identifier.
pub open spec fn id_count(devices: Seq<DeviceView>, id: Seq<char>) -> nat
    decreases devices.len(),
{
    if devices.len() == 0 {
        0
    } else {
        id_count(devices.drop_last(), id) + if devices.last().id == id {
            1nat
        } else {
            0nat
        }
    }
}

/// The capture endpoint paired with `playback` when each is the other's unique best
/// match and neither identifier is duplicated.
pub open spec fn mutual_capture(
    playback: DeviceView,
    playbacks: Seq<DeviceView>,
    captures: Seq<DeviceView>,
) -> Option<DeviceView> {
    let best = best_captures(playback, captures);
    if best.len() == 1 && best_playbacks(best[0], playbacks).len() == 1 && best_playbacks(
        best[0],
        playbacks,
    )[0].id == playback.id && id_count(playbacks, playback.id) <= 1 && id_count(
        captures,
        best[0].id,
    ) == 1 {
        Some(best[0])
    } else {
        None
    }
}

/// The route discovered for one virtual playback endpoint.
pub open spec fn discovered_route(
    playback: DeviceView,
    playbacks: Seq<DeviceView>,
    captures: Seq<DeviceView>,
) -> RouteView {
    match mutual_capture(playback, playbacks, captures) {
        Some(c) => route_spec(
            playback,
            Some(c),
            seq![],
            pair_score_spec(playback, c).unwrap().confidence,
            pair_score_spec(playback, c).unwrap().source,
            false,
        ),
        None => if best_captures(playback, captures).len() > 0 {
            route_spec(
                playback,
                None,
                best_captures(playback, captures),
                PairingConfidence::Ambiguous,
                PairingSource::NoPairing,
                false,
            )
        } else {
            route_spec(
                playback,
                None,
                seq![],
                PairingConfidence::Unpaired,
                PairingSource::NoPairing,
                false,
            )
        },
    }
}

/// Every endpoint kept by `virtual_only` is likely virtual.
proof fn lemma_virtual_only_is_virtual(devices: Seq<DeviceView>)
    ensures
        forall|i: int| 0 <= i < virtual_only(devices).len() ==> (#[trigger] virtual_only(devices)[i]).is_likely_virtual,
    decreases devices.len(),
{
    if devices.len() > 0 {
        lemma_virtual_only_is_virtual(devices.drop_last());
        let rest = virtual_only(devices.drop_last());
        if devices.last().is_likely_virtual {
            assert forall|i: int| 0 <= i < rest.len() + 1 implies (#[trigger] rest.push(devices.last())[i]).is_likely_virtual by {
                if i < rest.len() {
                    assert(rest.push(devices.last())[i] == rest[i]);
                }
            }
        }
    }
}

/// The capture endpoints scoring a value are taken from the capture endpoints.
proof fn lemma_captures_scoring_virtual(playback: DeviceView, captures: Seq<DeviceView>, value: u16)
    requires
        forall|i: int| 0 <= i < captures.len() ==> (#[trigger] captures[i]).is_likely_virtual,
    ensures
        forall|i: int|
            0 <= i < captures_scoring(playback, captures, value).len() ==> (#[trigger] captures_scoring(
                playback,
                captures,
                value,
            )[i]).is_likely_virtual,
    decreases captures.len(),
{
    if captures.len() > 0 {
        let r = captures.drop_last();
        assert forall|i: int| 0 <= i < r.len() implies (#[trigger] r[i]).is_likely_virtual by {
            assert(r[i] == captures[i]);
        }
        lemma_captures_scoring_virtual(playback, r, value);
        let rest = captures_scoring(playback, r, value);
        assert(captures.last() == captures[captures.len() - 1]);
        assert forall|i: int| 0 <= i < rest.len() + 1 implies (#[trigger] rest.push(captures.last())[i]).is_likely_virtual by {
            if i < rest.len() {
                assert(rest.push(captures.last())[i] == rest[i]);
            }
        }
    }
}

/// Discovery pairs only likely virtual endpoints: the playback endpoint of every
/// discovered route, its capture endpoint and every candidate capture endpoint are
/// likely virtual.
pub proof fn lemma_discovered_routes_are_virtual(inputs: Seq<DeviceView>, outputs: Seq<DeviceView>, k: int)
    requires
        0 <= k < virtual_only(outputs).len(),
    ensures
        ({
            let r = discovered_route(virtual_only(outputs)[k], virtual_only(outputs), virtual_only(inputs));
            &&& r.playback_device.is_likely_virtual
            &&& r.capture_device matches Some(c) ==> c.is_likely_virtual
            &&& forall|i: int| 0 <= i < r.candidate_capture_devices.len() ==> (#[trigger] r.candidate_capture_devices[i]).is_likely_virtual
        }),
{
    let plays = virtual_only(outputs);
    let caps = virtual_only(inputs);
    lemma_virtual_only_is_virtual(outputs);
    lemma_virtual_only_is_virtual(inputs);
    let p = plays[k];
    match top_capture_score(p, caps) {
        Some(v) => lemma_captures_scoring_virtual(p, caps, v),
        None => {},
    }
    let best = best_captures(p, caps);
    if best.len() > 0 {
        assert(best[0].is_likely_virtual);
    }
}

/// The likely virtual endpoints of a list.
pub fn virtual_devices(devices: &[DeviceInfo]) -> (found: Vec<DeviceInfo>)
    ensures
        device_views(found@) == virtual_only(device_views(devices@)),
{
    let ghost all = device_views(devices@);
    let mut found: Vec<DeviceInfo> = Vec::new();
    let mut i: usize = 0;
    while i < devices.len()
        invariant
            i <= devices@.len(),
            all == device_views(devices@),
            device_views(found@) == virtual_only(all.take(i as int)),
        decreases devices@.len() - i,
    {
        assert(all.take(i + 1).drop_last() =~= all.take(i as int));
        assert(all.take(i + 1).last() == devices@[i as int]@);
        if devices[i].is_likely_virtual {
            let ghost before = found@;
            found.push(devices[i].clone());
            assert(device_views(found@) =~= device_views(before).push(devices@[i as int]@));
        }
        i = i + 1;
    }
    assert(all.take(devices@.len() as int) =~= all);
    found
}

fn count_id(devices: &Vec<DeviceInfo>, id: &String) -> (count: usize)
    ensures
        count == id_count(device_views(devices@), id@),
{
    let ghost all = device_views(devices@);
    let mut count: usize = 0;
    let mut i: usize = 0;
    while i < devices.len()
        invariant
            i <= devices@.len(),
            all == device_views(devices@),
            count == id_count(all.take(i as int), id@),
            count <= i,
        decreases devices@.len() - i,
    {
        assert(all.take(i + 1).drop_last() =~= all.take(i as int));
        if devices[i].id == *id {
            count = count + 1;
        }
        i = i + 1;
    }
    assert(all.take(devices@.len() as int) =~= all);
    count
}

fn best_capture_devices(playback: &DeviceInfo, captures: &Vec<DeviceInfo>) -> (best: Vec<DeviceInfo>)
    ensures
        device_views(best@) == best_captures(playback@, device_views(captures@)),
{
    let ghost all = device_views(captures@);
    let mut top: Option<u16> = None;
    let mut i: usize = 0;
    while i < captures.len()
        invariant
            i <= captures@.len(),
            all == device_views(captures@),
            top == top_capture_score(playback@, all.take(i as int)),
        decreases captures@.len() - i,
    {
        assert(all.take(i + 1).drop_last() =~= all.take(i as int));
        match pair_score(playback, &captures[i]) {
            Some(s) => {
                top = match top {
                    None => Some(s.score),
                    Some(r) => Some(if r >= s.score { r } else { s.score }),
                };
            },
            None => {},
        }
        i = i + 1;
    }
    assert(all.take(captures@.len() as int) =~= all);
    let mut best: Vec<DeviceInfo> = Vec::new();
    match top {
        None => {
            assert(device_views(best@) =~= Seq::<DeviceView>::empty());
        },
        Some(value) => {
            let mut j: usize = 0;
            while j < captures.len()
                invariant
                    j <= captures@.len(),
                    all == device_views(captures@),
                    device_views(best@) == captures_scoring(playback@, all.take(j as int), value),
                decreases captures@.len() - j,
            {
                assert(all.take(j + 1).drop_last() =~= all.take(j as int));
                let keep = match pair_score(playback, &captures[j]) {
                    Some(s) => s.score == value,
                    None => false,
                };
                if keep {
                    let ghost before = best@;
                    best.push(captures[j].clone());
                    assert(device_views(best@) =~= device_views(before).push(captures@[j as int]@));
                }
                j = j + 1;
            }
            assert(all.take(captures@.len() as int) =~= all);
        },
    }
    best
}

fn best_playback_devices(capture: &DeviceInfo, playbacks: &Vec<DeviceInfo>) -> (best: Vec<DeviceInfo>)
    ensures
        device_views(best@) == best_playbacks(capture@, device_views(playbacks@)),
{
    let ghost all = device_views(playbacks@);
    let mut top: Option<u16> = None;
    let mut i: usize = 0;
    while i < playbacks.len()
        invariant
            i <= playbacks@.len(),
            all == device_views(playbacks@),
            top == top_playback_score(capture@, all.take(i as int)),
        decreases playbacks@.len() - i,
    {
        assert(all.take(i + 1).drop_last() =~= all.take(i as int));
        match pair_score(&playbacks[i], capture) {
            Some(s) => {
                top = match top {
                    None => Some(s.score),
                    Some(r) => Some(if r >= s.score { r } else { s.score }),
                };
            },
            None => {},
        }
        i = i + 1;
    }
    assert(all.take(playbacks@.len() as int) =~= all);
    let mut best: Vec<DeviceInfo> = Vec::new();
    match top {
        None => {
            assert(device_views(best@) =~= Seq::<DeviceView>::empty());
        },
        Some(value) => {
            let mut j: usize = 0;
            while j < playbacks.len()
                invariant
                    j <= playbacks@.len(),
                    all == device_views(playbacks@),
                    device_views(best@) == playbacks_scoring(capture@, all.take(j as int), value),
                decreases playbacks@.len() - j,
            {
                assert(all.take(j + 1).drop_last() =~= all.take(j as int));
                let keep = match pair_score(&playbacks[j], capture) {
                    Some(s) => s.score == value,
                    None => false,
                };
                if keep {
                    let ghost before = best@;
                    best.push(playbacks[j].clone());
                    assert(device_views(best@) =~= device_views(before).push(playbacks@[j as int]@));
                }
                j = j + 1;
            }
            assert(all.take(playbacks@.len() as int) =~= all);
        },
    }
    best
}

fn discover_one(
    playback: &DeviceInfo,
    playbacks: &Vec<DeviceInfo>,
    captures: &Vec<DeviceInfo>,
) -> (route: ExternalAudioRoute)
    ensures
        route@ == discovered_route(playback@, device_views(playbacks@), device_views(captures@)),
{
    let ghost plays = device_views(playbacks@);
    let ghost caps = device_views(captures@);
    let best = best_capture_devices(playback, captures);
    if best.len() == 1 {
        let capture = &best[0];
        assert(capture@ == best_captures(playback@, caps)[0]);
        let winners = best_playback_devices(capture, playbacks);
        if winners.len() == 1 && winners[0].id == playback.id && count_id(playbacks, &playback.id)
            <= 1 && count_id(captures, &capture.id) == 1 {
            assert(winners@[0]@ == best_playbacks(capture@, plays)[0]);
            let score = pair_score(playback, capture);
            assert(mutual_capture(playback@, plays, caps) == Some(capture@));
            assert(score is Some) by {
                assert(best_captures(playback@, caps).len() > 0);
                lemma_best_captures_score(playback@, caps);
            }
            let score = score.unwrap();
            let route = build_route(
                playback,
                Some(capture),
                Vec::new(),
                score.confidence,
                score.source,
                false,
            );
            assert(device_views(Seq::<DeviceInfo>::empty()) =~= Seq::<DeviceView>::empty());
            return route;
        }
        assert(winners@.len() == 1 ==> winners@[0]@ == best_playbacks(capture@, plays)[0]);
    }
    assert(mutual_capture(playback@, plays, caps) is None);
    if best.len() > 0 {
        build_route(
            playback,
            None,
            best,
            PairingConfidence::Ambiguous,
            PairingSource::NoPairing,
            false,
        )
    } else {
        let route = build_route(
            playback,
            None,
            Vec::new(),
            PairingConfidence::Unpaired,
            PairingSource::NoPairing,
            false,
        );
        assert(device_views(Seq::<DeviceInfo>::empty()) =~= Seq::<DeviceView>::empty());
        route
    }
}

/// Every best capture endpoint does score against the playback endpoint.
proof fn lemma_best_captures_score(playback: DeviceView, captures: Seq<DeviceView>)
    ensures
        forall|k: int|
            0 <= k < best_captures(playback, captures).len() ==> pair_score_spec(
                playback,
                #[trigger] best_captures(playback, captures)[k],
            ) is Some,
{
    if let Some(v) = top_capture_score(playback, captures) {
        lemma_scoring_members(playback, captures, v);
    }
}

proof fn lemma_scoring_members(playback: DeviceView, captures: Seq<DeviceView>, value: u16)
    ensures
        forall|k: int|
            0 <= k < captures_scoring(playback, captures, value).len() ==> pair_score_spec(
                playback,
                #[trigger] captures_scoring(playback, captures, value)[k],
            ) is Some,
    decreases captures.len(),
{
    if captures.len() > 0 {
        lemma_scoring_members(playback, captures.drop_last(), value);
    }
}

/// Finds the virtual routes: one per likely virtual playback endpoint, paired with a
/// capture endpoint only when the two are each other's unique best match.
pub fn discover_external_routes(inputs: &[DeviceInfo], outputs: &[DeviceInfo]) -> (routes: Vec<
    ExternalAudioRoute,
>)
    ensures
        routes@.len() == virtual_only(device_views(outputs@)).len(),
        forall|k: int|
            0 <= k < routes@.len() ==> (#[trigger] routes@[k])@ == discovered_route(
                virtual_only(device_views(outputs@))[k],
                virtual_only(device_views(outputs@)),
                virtual_only(device_views(inputs@)),
            ),
{
    let playbacks = virtual_devices(outputs);
    let captures = virtual_devices(inputs);
    let ghost plays = device_views(playbacks@);
    let mut routes: Vec<ExternalAudioRoute> = Vec::new();
    let mut k: usize = 0;
    while k < playbacks.len()
        invariant
            k <= playbacks@.len(),
            plays == device_views(playbacks@),
            plays == virtual_only(device_views(outputs@)),
            device_views(captures@) == virtual_only(device_views(inputs@)),
            routes@.len() == k,
            forall|j: int|
                0 <= j < k ==> (#[trigger] routes@[j])@ == discovered_route(
                    plays[j],
                    plays,
                    device_views(captures@),
                ),
        decreases playbacks@.len() - k,
    {
        let route = discover_one(&playbacks[k], &playbacks, &captures);
        routes.push(route);
        k = k + 1;
    }
    routes
}

/// The route captures from the endpoint with this identifier.
pub open spec fn captures_from(route: RouteView, id: Seq<char>) -> bool {
    match route.capture_device {
        Some(c) => c.id == id,
        None => false,
    }
}

/// Some route captures from the endpoint with this identifier.
pub open spec fn paired_with(routes: Seq<RouteView>, id: Seq<char>) -> bool {
    exists|k: int| 0 <= k < routes.len() && captures_from(#[trigger] routes[k], id)
}

/// The likely virtual inputs that no route captures from, in order.
pub open spec fn unpaired_spec(inputs: Seq<DeviceView>, routes: Seq<RouteView>) -> Seq<DeviceView>
    decreases inputs.len(),
{
    if inputs.len() == 0 {
        seq![]
    } else {
        let rest = unpaired_spec(inputs.drop_last(), routes);
        if inputs.last().is_likely_virtual && !paired_with(routes, inputs.last().id) {
            rest.push(inputs.last())
        } else {
            rest
        }
    }
}

pub fn unpaired_capture_devices(inputs: &[DeviceInfo], routes: &[ExternalAudioRoute]) -> (unpaired:
    Vec<DeviceInfo>)
    ensures
        device_views(unpaired@) == unpaired_spec(device_views(inputs@), route_views(routes@)),
{
    let ghost all = device_views(inputs@);
    let ghost rs = route_views(routes@);
    let mut unpaired: Vec<DeviceInfo> = Vec::new();
    let mut i: usize = 0;
    while i < inputs.len()
        invariant
            i <= inputs@.len(),
            all == device_views(inputs@),
            rs == route_views(routes@),
            device_views(unpaired@) == unpaired_spec(all.take(i as int), rs),
        decreases inputs@.len() - i,
    {
        assert(all.take(i + 1).drop_last() =~= all.take(i as int));
        assert(all.take(i + 1).last() == inputs@[i as int]@);
        let mut paired = false;
        let mut k: usize = 0;
        while k < routes.len()
            invariant
                k <= routes@.len(),
                i < inputs@.len(),
                rs == route_views(routes@),
                paired == exists|q: int|
                    0 <= q < k && captures_from(#[trigger] rs[q], inputs@[i as int]@.id),
            decreases routes@.len() - k,
        {
            let hit = match &routes[k].capture_device {
                Some(c) => c.id == inputs[i].id,
                None => false,
            };
            assert(rs[k as int] == routes@[k as int]@);
            if hit {
                paired = true;
            }
            k = k + 1;
        }
        if inputs[i].is_likely_virtual && !paired {
            let ghost before = unpaired@;
            unpaired.push(inputs[i].clone());
            assert(device_views(unpaired@) =~= device_views(before).push(inputs@[i as int]@));
        }
        i = i + 1;
    }
    assert(all.take(inputs@.len() as int) =~= all);
    unpaired
}


/// The common rates of two rate lists are exactly the rates both advertise: every rate
/// listed is advertised by both, every rate of the first that the second advertises is
/// listed, and there are no more of them than the first has.
pub proof fn lemma_common_rates_are_shared(first: Seq<u32>, second: Seq<u32>)
    ensures
        forall|r: u32|
            #[trigger] common_rates_spec(first, second).contains(r) <==> (first.contains(r)
                && second.contains(r)),
        common_rates_spec(first, second).len() <= first.len(),
    decreases first.len(),
{
    if first.len() > 0 {
        let rest = first.drop_last();
        lemma_common_rates_are_shared(rest, second);
        let listed = common_rates_spec(first, second);
        let before = common_rates_spec(rest, second);
        assert forall|r: u32| #[trigger] listed.contains(r) <==> (first.contains(r) && second.contains(r)) by {
            if listed.contains(r) {
                let q = choose|q: int| 0 <= q < listed.len() && listed[q] == r;
                if second.contains(first.last()) {
                    assert(listed == before.push(first.last()));
                } else {
                    assert(listed == before);
                }
                if q < before.len() {
                    assert(before[q] == r);
                    assert(before.contains(r));
                    let p = choose|p: int| 0 <= p < rest.len() && rest[p] == r;
                    assert(first[p] == r);
                } else {
                    assert(first[first.len() - 1] == r);
                }
            }
            if first.contains(r) && second.contains(r) {
                let p = choose|p: int| 0 <= p < first.len() && first[p] == r;
                if p < first.len() - 1 {
                    assert(rest[p] == r);
                    assert(rest.contains(r));
                    assert(before.contains(r));
                    let q = choose|q: int| 0 <= q < before.len() && before[q] == r;
                    if second.contains(first.last()) {
                        assert(listed == before.push(first.last()));
                        assert(listed[q] == r);
                    } else {
                        assert(listed == before);
                    }
                } else {
                    assert(first.last() == r);
                    assert(listed[listed.len() - 1] == r);
                }
            }
        }
    }
}

/// Two endpoints that advertise no rate in common have no common rates.
pub proof fn lemma_disjoint_rates_share_nothing(first: Seq<u32>, second: Seq<u32>)
    requires
        forall|r: u32| first.contains(r) ==> !second.contains(r),
    ensures
        common_rates_spec(first, second).len() == 0,
{
    lemma_common_rates_are_shared(first, second);
    let listed = common_rates_spec(first, second);
    if listed.len() > 0 {
        assert(listed.contains(listed[0]));
    }
}


/// A paired route whose endpoints advertise no rate in common is not ready: its status is
/// the incompatible format.
pub proof fn lemma_disjoint_pair_is_incompatible(
    playback: DeviceView,
    capture: DeviceView,
    candidates: Seq<DeviceView>,
    confidence: PairingConfidence,
    source: PairingSource,
    manual: bool,
)
    requires
        forall|r: u32| playback.common_sample_rates.contains(r) ==> !capture.common_sample_rates.contains(r),
    ensures
        route_spec(playback, Some(capture), candidates, confidence, source, manual).validation_status
            == RouteValidationStatus::IncompatibleFormat,
{
    lemma_disjoint_rates_share_nothing(playback.common_sample_rates, capture.common_sample_rates);
}

/// A route is ready only when it has a capture endpoint, its endpoints share a rate, and
/// either it was paired by hand or both endpoints look virtual; a route without a capture
/// endpoint is never ready.
pub proof fn lemma_ready_routes_are_complete(
    playback: DeviceView,
    capture: Option<DeviceView>,
    confidence: PairingConfidence,
    rates: Seq<u32>,
    manual: bool,
)
    ensures
        route_status(playback, capture, confidence, rates, manual) == RouteValidationStatus::Ready
            <==> (capture matches Some(c) && rates.len() > 0 && (manual || (playback.is_likely_virtual
            && c.is_likely_virtual))),
        capture is None ==> route_status(playback, capture, confidence, rates, manual)
            != RouteValidationStatus::Ready,
{
}
} // verus!
