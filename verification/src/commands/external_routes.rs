use vstd::prelude::*;

use crate::application_settings::{
    the_index, opt_chars, id_pred, resolution_spec, resolve_device_selections, ApplicationSettingsDocument,
    ApplicationSettingsError, ApplicationSettingsStore, document_check, error_message_spec, APPLICATION_SETTINGS_SCHEMA_VERSION,
};
use crate::device::{has_only_index, only_index, DeviceInfo, DeviceView};
use crate::engine_state::EngineState;
use crate::external_route::{
    clone_devices, device_views, discover_external_routes, discovered_route, manual_route,
    route_id_spec, route_spec, route_views, unpaired_capture_devices, unpaired_spec, virtual_devices,
    virtual_only, ExternalAudioRoute, ExternalAudioRouteCatalog, PairingConfidence,
    PairingSource, RouteCompatibilityResult, RouteReadiness, RouteValidationStatus, RouteView,
};
use crate::text::{from_chars, str_equal, to_chars};
use crate::words::append_chars;

verus! {

/// A pair of endpoints the user asks to save as the external route.
#[derive(Debug)]
pub struct SaveExternalAudioRouteRequest {
    pub candidate_route_id: Option<String>,
    pub playback_device_id: String,
    pub capture_device_id: String,
    pub confirm_physical_endpoints: bool,
}

/// How many endpoints carry the identifier.
pub open spec fn count_with_id(devices: Seq<DeviceView>, id: Seq<char>) -> nat
    decreases devices.len(),
{
    if devices.len() == 0 {
        0
    } else {
        count_with_id(devices.drop_last(), id) + if devices.last().id == id {
            1nat
        } else {
            0nat
        }
    }
}

pub open spec fn device_gone_message(purpose: Seq<char>) -> Seq<char> {
    "The selected "@ + purpose + " is no longer available."@
}

pub open spec fn device_ambiguous_message(purpose: Seq<char>) -> Seq<char> {
    "The selected "@ + purpose
        + " identifier is ambiguous because multiple endpoints share its friendly-name fingerprint."@
}

/// The endpoint at `i` carries the identifier.
pub open spec fn has_id(devices: Seq<DeviceView>, id: Seq<char>) -> spec_fn(int) -> bool {
    |i: int| devices[i].id == id
}

/// The only endpoint with the identifier, or why there is none.
pub fn unique_device<'a>(purpose: &str, id: &str, devices: &'a [DeviceInfo]) -> (result: Result<
    &'a DeviceInfo,
    String,
>)
    ensures
        match result {
            Ok(d) => exists|k: int|
                only_index(devices@.len() as int, has_id(device_views(devices@), id@), k)
                    && devices@[k] == *d,
            Err(m) => !has_only_index(devices@.len() as int, has_id(device_views(devices@), id@))
                && (if count_with_id(device_views(devices@), id@) == 0 {
                m@ == device_gone_message(purpose@)
            } else {
                m@ == device_ambiguous_message(purpose@)
            }),
        },
{
    let ghost views = device_views(devices@);
    let mut count: usize = 0;
    let mut first: usize = 0;
    let mut i: usize = 0;
    while i < devices.len()
        invariant
            i <= devices@.len(),
            views == device_views(devices@),
            views.len() == devices@.len(),
            count == count_with_id(views.take(i as int), id@),
            count <= i,
            count >= 1 ==> first < i && views[first as int].id == id@,
            count == 1 ==> forall|j: int| 0 <= j < i && views[j].id == id@ ==> j == first,
            count == 0 ==> forall|j: int| 0 <= j < i ==> views[j].id != id@,
            count >= 2 ==> exists|a: int, b: int|
                0 <= a < b < i && views[a].id == id@ && views[b].id == id@,
        decreases devices@.len() - i,
    {
        assert(views.take(i + 1).drop_last() =~= views.take(i as int));
        assert(views[i as int] == devices@[i as int]@);
        if str_equal(devices[i].id.as_str(), id) {
            if count == 0 {
                first = i;
            } else if count == 1 {
                assert(views[first as int].id == id@ && views[i as int].id == id@);
            }
            count = count + 1;
        }
        i = i + 1;
    }
    assert(views.take(devices@.len() as int) =~= views);
    proof {
        crate::device::lemma_hits_describe(
            views.map_values(|d: DeviceView| d.id == id@),
            views.len() as int,
            has_id(views, id@),
        );
    }
    if count == 1 {
        assert(views[first as int] == devices@[first as int]@);
        assert(only_index(devices@.len() as int, has_id(views, id@), first as int));
        return Ok(&devices[first]);
    }
    let mut t = to_chars("The selected ");
    append_chars(&mut t, to_chars(purpose).as_slice());
    proof {
        if count == 0 {
            assert forall|k: int| !only_index(devices@.len() as int, has_id(views, id@), k) by {}
        } else {
            let (a, b) = choose|a: int, b: int|
                0 <= a < b < i && views[a].id == id@ && views[b].id == id@;
            assert forall|k: int| !only_index(devices@.len() as int, has_id(views, id@), k) by {
                if only_index(devices@.len() as int, has_id(views, id@), k) {
                    assert(has_id(views, id@)(a) && has_id(views, id@)(b));
                }
            }
        }
    }
    if count == 0 {
        append_chars(&mut t, to_chars(" is no longer available.").as_slice());
    } else {
        append_chars(
            &mut t,
            to_chars(
                " identifier is ambiguous because multiple endpoints share its friendly-name fingerprint.",
            ).as_slice(),
        );
    }
    Err(from_chars(t.as_slice()))
}

/// A route check answer.
pub fn result(
    route_id: Option<String>,
    readiness: RouteReadiness,
    message: &str,
    negotiated_sample_rate: Option<u32>,
    capture_endpoint_available: bool,
) -> (answer: RouteCompatibilityResult)
    ensures
        answer.route_id == route_id,
        answer.readiness == readiness,
        answer.message@ == message@,
        answer.negotiated_sample_rate == negotiated_sample_rate,
        answer.capture_endpoint_available == capture_endpoint_available,
{
    RouteCompatibilityResult {
        route_id,
        readiness,
        message: from_chars(to_chars(message).as_slice()),
        negotiated_sample_rate,
        capture_endpoint_available,
    }
}

/// The readiness verdict of a route from the device inventory, with its message and
/// whether the capture endpoint is available; none when the route may go on to format
/// negotiation.
pub open spec fn inventory_spec(
    route: RouteView,
    input_match_count: usize,
    playback_match_count: usize,
    capture_match_count: usize,
) -> Option<(RouteReadiness, Seq<char>, bool)> {
    if route.pairing_confidence == PairingConfidence::Ambiguous {
        Some(
            (
                RouteReadiness::AmbiguousPair,
                "Multiple capture endpoints are equally plausible. Save a manual pair."@,
                false,
            ),
        )
    } else if route.capture_device is None {
        Some(
            (
                RouteReadiness::MissingCapture,
                "The virtual playback endpoint has no paired capture endpoint. Save a manual pair."@,
                false,
            ),
        )
    } else if route.validation_status == RouteValidationStatus::IncompatibleFormat {
        Some((RouteReadiness::IncompatibleFormat, route.details, capture_match_count == 1))
    } else if input_match_count != 1 {
        Some(
            (
                RouteReadiness::MissingInput,
                "Select one available physical input microphone."@,
                capture_match_count == 1,
            ),
        )
    } else if playback_match_count != 1 {
        Some(
            (
                RouteReadiness::MissingPlayback,
                "The virtual playback endpoint is missing or ambiguous. Refresh devices."@,
                capture_match_count == 1,
            ),
        )
    } else if capture_match_count != 1 {
        Some(
            (
                RouteReadiness::MissingCapture,
                "The paired capture endpoint is missing or ambiguous. Refresh devices."@,
                false,
            ),
        )
    } else {
        None
    }
}

pub fn inventory_readiness(
    route: &ExternalAudioRoute,
    input_match_count: usize,
    playback_match_count: usize,
    capture_match_count: usize,
) -> (answer: Option<RouteCompatibilityResult>)
    ensures
        match inventory_spec(route@, input_match_count, playback_match_count, capture_match_count) {
            None => answer is None,
            Some((readiness, message, capture)) => answer matches Some(a) && a.route_id
                == Some(route.route_id) && a.readiness == readiness && a.message@ == message
                && a.negotiated_sample_rate is None && a.capture_endpoint_available == capture,
        },
{
    let route_id = Some(route.route_id.clone());
    if route.pairing_confidence == PairingConfidence::Ambiguous {
        return Some(
            result(
                route_id,
                RouteReadiness::AmbiguousPair,
                "Multiple capture endpoints are equally plausible. Save a manual pair.",
                None,
                false,
            ),
        );
    }
    if route.capture_device.is_none() {
        return Some(
            result(
                route_id,
                RouteReadiness::MissingCapture,
                "The virtual playback endpoint has no paired capture endpoint. Save a manual pair.",
                None,
                false,
            ),
        );
    }
    if route.validation_status == RouteValidationStatus::IncompatibleFormat {
        return Some(
            result(
                route_id,
                RouteReadiness::IncompatibleFormat,
                route.compatibility.details.as_str(),
                None,
                capture_match_count == 1,
            ),
        );
    }
    if input_match_count != 1 {
        return Some(
            result(
                route_id,
                RouteReadiness::MissingInput,
                "Select one available physical input microphone.",
                None,
                capture_match_count == 1,
            ),
        );
    }
    if playback_match_count != 1 {
        return Some(
            result(
                route_id,
                RouteReadiness::MissingPlayback,
                "The virtual playback endpoint is missing or ambiguous. Refresh devices.",
                None,
                capture_match_count == 1,
            ),
        );
    }
    if capture_match_count != 1 {
        return Some(
            result(
                route_id,
                RouteReadiness::MissingCapture,
                "The paired capture endpoint is missing or ambiguous. Refresh devices.",
                None,
                false,
            ),
        );
    }
    None
}

/// The settings with a route saved: its identifier, both endpoints (identifier and
/// friendly name), how it was paired and whether it was manual; everything else kept.
pub open spec fn route_document_spec(
    current: ApplicationSettingsDocument,
    route: RouteView,
    d: ApplicationSettingsDocument,
) -> bool {
    &&& d.schema_version == APPLICATION_SETTINGS_SCHEMA_VERSION
    &&& d.selected_input_device_id == current.selected_input_device_id
    &&& d.last_known_input_friendly_name == current.last_known_input_friendly_name
    &&& opt_chars(d.selected_external_route_id) == Some(route.route_id)
    &&& opt_chars(d.external_route_playback_device_id) == Some(route.playback_device.id)
    &&& opt_chars(d.last_known_external_route_playback_name) == Some(route.playback_device.name)
    &&& opt_chars(d.external_route_capture_device_id) == Some(route.capture_device.unwrap().id)
    &&& opt_chars(d.last_known_external_route_capture_name) == Some(
        route.capture_device.unwrap().name,
    )
    &&& d.external_route_pairing_source == Some(route.pairing_source)
    &&& d.external_route_manual == route.manual
    &&& d.local_monitor_device_id == current.local_monitor_device_id
    &&& d.last_known_local_monitor_friendly_name == current.last_known_local_monitor_friendly_name
    &&& d.reliability_profile == current.reliability_profile
    &&& d.last_page == current.last_page
}

pub fn route_document(current: &ApplicationSettingsDocument, route: &ExternalAudioRoute) -> (d:
    ApplicationSettingsDocument)
    requires
        route.capture_device is Some,
    ensures
        route_document_spec(*current, route@, d),
{
    let capture = route.capture_device.as_ref().unwrap();
    let current = current.clone();
    ApplicationSettingsDocument {
        schema_version: APPLICATION_SETTINGS_SCHEMA_VERSION,
        selected_input_device_id: current.selected_input_device_id,
        last_known_input_friendly_name: current.last_known_input_friendly_name,
        selected_external_route_id: Some(route.route_id.clone()),
        external_route_playback_device_id: Some(route.playback_device.id.clone()),
        last_known_external_route_playback_name: Some(route.playback_device.name.clone()),
        external_route_capture_device_id: Some(capture.id.clone()),
        last_known_external_route_capture_name: Some(capture.name.clone()),
        external_route_pairing_source: Some(route.pairing_source),
        external_route_manual: route.manual,
        local_monitor_device_id: current.local_monitor_device_id,
        last_known_local_monitor_friendly_name: current.last_known_local_monitor_friendly_name,
        reliability_profile: current.reliability_profile,
        last_page: current.last_page,
    }
}

/// Forgets the saved external route and nothing else.
pub fn clear_route(document: &mut ApplicationSettingsDocument)
    ensures
        *final(document) == (ApplicationSettingsDocument {
            selected_external_route_id: None,
            external_route_playback_device_id: None,
            last_known_external_route_playback_name: None,
            external_route_capture_device_id: None,
            last_known_external_route_capture_name: None,
            external_route_pairing_source: None,
            external_route_manual: false,
            ..*old(document)
        }),
{
    document.selected_external_route_id = None;
    document.external_route_playback_device_id = None;
    document.last_known_external_route_playback_name = None;
    document.external_route_capture_device_id = None;
    document.last_known_external_route_capture_name = None;
    document.external_route_pairing_source = None;
    document.external_route_manual = false;
}

/// The warning after appending a message: separated by a space from a non-empty
/// existing warning, or the message alone.
pub open spec fn appended_warning(existing: Option<Seq<char>>, message: Seq<char>) -> Seq<char> {
    match existing {
        Some(e) => if e.len() > 0 {
            e + " "@ + message
        } else {
            message
        },
        None => message,
    }
}

pub fn append_warning(warning: &mut Option<String>, message: &str)
    ensures
        opt_chars(*final(warning)) == Some(appended_warning(opt_chars(*old(warning)), message@)),
{
    let combined = match warning.take() {
        Some(existing) => if existing.as_str().is_empty() {
            from_chars(to_chars(message).as_slice())
        } else {
            let mut t = to_chars(existing.as_str());
            append_chars(&mut t, to_chars(" ").as_slice());
            append_chars(&mut t, to_chars(message).as_slice());
            from_chars(t.as_slice())
        },
        None => from_chars(to_chars(message).as_slice()),
    };
    *warning = Some(combined);
}

/// The route joins the saved endpoints and is ready.
pub open spec fn is_saved_ready(route: RouteView, playback_id: Seq<char>, capture_id: Seq<char>) -> bool {
    route.playback_device.id == playback_id && (route.capture_device matches Some(c) && c.id
        == capture_id) && route.validation_status == RouteValidationStatus::Ready
}

/// The index of the first route that joins the saved endpoints and is ready.
fn find_saved_route(routes: &Vec<ExternalAudioRoute>, playback_id: &str, capture_id: &str) -> (found:
    Option<usize>)
    ensures
        match found {
            Some(k) => k < routes@.len() && is_saved_ready(routes@[k as int]@, playback_id@, capture_id@)
                && forall|j: int|
                0 <= j < k ==> !is_saved_ready(#[trigger] routes@[j]@, playback_id@, capture_id@),
            None => forall|j: int|
                0 <= j < routes@.len() ==> !is_saved_ready(#[trigger] routes@[j]@, playback_id@, capture_id@),
        },
{
    let mut i: usize = 0;
    while i < routes.len()
        invariant
            i <= routes@.len(),
            forall|j: int|
                0 <= j < i ==> !is_saved_ready(#[trigger] routes@[j]@, playback_id@, capture_id@),
        decreases routes@.len() - i,
    {
        let route = &routes[i];
        let capture_matches = match &route.capture_device {
            Some(c) => str_equal(c.id.as_str(), capture_id),
            None => false,
        };
        if str_equal(route.playback_device.id.as_str(), playback_id) && capture_matches
            && route.validation_status == RouteValidationStatus::Ready {
            return Some(i);
        }
        i = i + 1;
    }
    None
}

/// Whether some route already has the identifier.
fn has_route_id(routes: &Vec<ExternalAudioRoute>, route_id: &str) -> (found: bool)
    ensures
        found == exists|j: int| 0 <= j < routes@.len() && (#[trigger] routes@[j])@.route_id == route_id@,
{
    let mut i: usize = 0;
    while i < routes.len()
        invariant
            i <= routes@.len(),
            forall|j: int| 0 <= j < i ==> (#[trigger] routes@[j])@.route_id != route_id@,
        decreases routes@.len() - i,
    {
        if str_equal(routes[i].route_id.as_str(), route_id) {
            return true;
        }
        i = i + 1;
    }
    false
}

/// The route at `j` uses the playback endpoint and is ready.
pub open spec fn ready_for_playback(route: RouteView, playback_id: Seq<char>) -> bool {
    route.playback_device.id == playback_id && route.validation_status == RouteValidationStatus::Ready
}

fn ready_routes_for_playback(routes: &Vec<ExternalAudioRoute>, playback_id: &str) -> (found: (
    usize,
    usize,
))
    ensures
        found.1 == 0 ==> forall|j: int|
            0 <= j < routes@.len() ==> !ready_for_playback(#[trigger] routes@[j]@, playback_id@),
        found.1 == 1 ==> found.0 < routes@.len() && ready_for_playback(
            routes@[found.0 as int]@,
            playback_id@,
        ) && forall|j: int|
            0 <= j < routes@.len() && ready_for_playback(#[trigger] routes@[j]@, playback_id@) ==> j
                == found.0,
        found.1 >= 2 ==> exists|a: int, b: int|
            0 <= a < b < routes@.len() && ready_for_playback(#[trigger] routes@[a]@, playback_id@)
                && ready_for_playback(#[trigger] routes@[b]@, playback_id@),
{
    let mut count: usize = 0;
    let mut first: usize = 0;
    let mut i: usize = 0;
    while i < routes.len()
        invariant
            i <= routes@.len(),
            count <= 2,
            count == 0 ==> forall|j: int|
                0 <= j < i ==> !ready_for_playback(#[trigger] routes@[j]@, playback_id@),
            count >= 1 ==> first < i && ready_for_playback(routes@[first as int]@, playback_id@),
            count == 1 ==> forall|j: int|
                0 <= j < i && ready_for_playback(#[trigger] routes@[j]@, playback_id@) ==> j == first,
            count >= 2 ==> exists|a: int, b: int|
                0 <= a < b < routes@.len() && ready_for_playback(#[trigger] routes@[a]@, playback_id@)
                    && ready_for_playback(#[trigger] routes@[b]@, playback_id@),
        decreases routes@.len() - i,
    {
        let route = &routes[i];
        if str_equal(route.playback_device.id.as_str(), playback_id) && route.validation_status
            == RouteValidationStatus::Ready {
            if count == 0 {
                first = i;
                count = 1;
            } else if count == 1 {
                assert(ready_for_playback(routes@[first as int]@, playback_id@));
                assert(ready_for_playback(routes@[i as int]@, playback_id@));
                count = 2;
            }
        }
        i = i + 1;
    }
    (first, count)
}

/// What every catalog of the current endpoints holds: the discovered routes first, in
/// discovery order, then at most the stored manual pair; the likely virtual endpoints of
/// each direction; the likely virtual capture endpoints no route pairs; and a selected
/// route, if any, among the routes.
pub open spec fn catalog_facts(
    catalog: ExternalAudioRouteCatalog,
    inputs: Seq<DeviceInfo>,
    outputs: Seq<DeviceInfo>,
) -> bool {
    let plays = virtual_only(device_views(outputs));
    let caps = virtual_only(device_views(inputs));
    &&& device_views(catalog.virtual_playback_devices@) == plays
    &&& device_views(catalog.virtual_capture_devices@) == caps
    &&& device_views(catalog.unpaired_capture_devices@) == unpaired_spec(
        device_views(inputs),
        route_views(catalog.routes@),
    )
    &&& plays.len() <= catalog.routes@.len() <= plays.len() + 1
    &&& forall|k: int|
        0 <= k < plays.len() ==> (#[trigger] catalog.routes@[k])@ == discovered_route(
            plays[k],
            plays,
            caps,
        )
    &&& catalog.selected_route_id matches Some(id) ==> exists|k: int|
        0 <= k < catalog.routes@.len() && (#[trigger] catalog.routes@[k])@.route_id == id@
}

/// The routes discovery gives for the current endpoints, in order.
pub open spec fn discovered_views(inputs: Seq<DeviceView>, outputs: Seq<DeviceView>) -> Seq<RouteView> {
    Seq::new(virtual_only(outputs).len(), |k: int| discovered_at(inputs, outputs, k))
}

/// The warning for a stored automatic pair that discovery no longer finds ready.
pub open spec fn stale_pair_message() -> Seq<char> {
    "The stored automatic external route is no longer a unique safe pair. Select and save the playback/capture pair manually."@
}

/// The warning when a route found for a stored playback endpoint could not be stored.
pub open spec fn unpersisted_warning(existing: Option<Seq<char>>, error: Seq<char>) -> Seq<char> {
    (match existing {
        Some(w) => w,
        None => Seq::<char>::empty(),
    }) + " Conservative route pairing was found but could not be persisted: "@ + error
}

/// The first ready route that joins the two endpoints is at `k`.
pub open spec fn first_saved_ready(routes: Seq<RouteView>, playback_id: Seq<char>, capture_id: Seq<char>, k: int) -> bool {
    &&& 0 <= k < routes.len()
    &&& is_saved_ready(routes[k], playback_id, capture_id)
    &&& forall|j: int| 0 <= j < k ==> !is_saved_ready(#[trigger] routes[j], playback_id, capture_id)
}

/// The route at `j` uses the playback endpoint and is ready.
pub open spec fn ready_pred(routes: Seq<RouteView>, playback_id: Seq<char>) -> spec_fn(int) -> bool {
    |j: int| ready_for_playback(routes[j], playback_id)
}

/// The routes, selected route and warning of a catalog when the stored settings name
/// both endpoints of a pair: a stored manual pair is shown (once) and selected; a stored
/// automatic pair is selected while discovery finds it ready, else a warning is added;
/// a pair whose endpoints are missing or shared selects nothing.
pub open spec fn paired_outcome(
    manual: bool,
    playback_id: Seq<char>,
    capture_id: Seq<char>,
    inputs: Seq<DeviceView>,
    outputs: Seq<DeviceView>,
    warning: Option<Seq<char>>,
) -> (Seq<RouteView>, Option<Seq<char>>, Option<Seq<char>>) {
    let disc = discovered_views(inputs, outputs);
    if has_only_index(outputs.len() as int, has_id(outputs, playback_id)) && has_only_index(
        inputs.len() as int,
        has_id(inputs, capture_id),
    ) {
        let p = outputs[the_index(outputs.len() as int, has_id(outputs, playback_id))];
        let c = inputs[the_index(inputs.len() as int, has_id(inputs, capture_id))];
        if manual {
            let saved = route_spec(p, Some(c), seq![], PairingConfidence::Manual, PairingSource::Manual, true);
            (
                if exists|j: int| 0 <= j < disc.len() && (#[trigger] disc[j]).route_id == saved.route_id {
                    disc
                } else {
                    disc.push(saved)
                },
                Some(saved.route_id),
                warning,
            )
        } else if exists|k: int| first_saved_ready(disc, playback_id, capture_id, k) {
            let k = choose|k: int| first_saved_ready(disc, playback_id, capture_id, k);
            (disc, Some(disc[k].route_id), warning)
        } else {
            (disc, None, Some(appended_warning(warning, stale_pair_message())))
        }
    } else {
        (disc, None, warning)
    }
}

/// The store holds the settings and startup warning it held before.
pub open spec fn kept(doc: ApplicationSettingsDocument, startup: Option<String>, after: ApplicationSettingsStore) -> bool {
    &&& after.spec_document() == doc
    &&& after.spec_startup_warning() == startup
}

/// What becomes of settings that name only a playback endpoint (see `catalog_outcome`).
pub open spec fn playback_only_outcome(
    doc: ApplicationSettingsDocument,
    startup: Option<String>,
    after: ApplicationSettingsStore,
    routes: Seq<RouteView>,
    playback_id: Seq<char>,
    warning_before: Option<Seq<char>>,
    selected: Option<Seq<char>>,
    warning: Option<Seq<char>>,
    written: spec_fn(ApplicationSettingsDocument, Result<(), ApplicationSettingsError>) -> bool,
) -> bool {
    if has_only_index(routes.len() as int, ready_pred(routes, playback_id)) {
        let r = routes[the_index(routes.len() as int, ready_pred(routes, playback_id))];
        exists|d: ApplicationSettingsDocument|
            #![trigger route_document_spec(doc, r, d)]
            route_document_spec(doc, r, d) && match document_check(d) {
                Err(m) => kept(doc, startup, after) && selected is None && warning == Some(
                    unpersisted_warning(warning_before, m),
                ),
                Ok(()) => exists|w: Result<(), ApplicationSettingsError>|
                    #![trigger written(d, w)]
                    written(d, w) && match w {
                        Err(e) => kept(doc, startup, after) && selected is None && warning == Some(
                            unpersisted_warning(warning_before, error_message_spec(e)),
                        ),
                        Ok(()) => after.spec_document() == d && after.spec_startup_warning() is None
                            && selected == Some(r.route_id) && warning == warning_before,
                    },
            }
    } else {
        kept(doc, startup, after) && selected is None && warning == warning_before
    }
}

/// What a catalog holds, and what becomes of the stored settings, for the settings
/// before, the current endpoints, and what `persist` gives back. Settings that name
/// only a playback endpoint are upgraded to the one ready route that uses it, if there is
/// exactly one; the route is selected once that is stored, and a failure to store it is
/// added to the warning.
pub open spec fn catalog_outcome(
    doc: ApplicationSettingsDocument,
    startup: Option<String>,
    after: ApplicationSettingsStore,
    catalog: ExternalAudioRouteCatalog,
    inputs: Seq<DeviceInfo>,
    outputs: Seq<DeviceInfo>,
    written: spec_fn(ApplicationSettingsDocument, Result<(), ApplicationSettingsError>) -> bool,
) -> bool {
    let ins = device_views(inputs);
    let outs = device_views(outputs);
    let res = resolution_spec(doc, ins, outs);
    let disc = discovered_views(ins, outs);
    let routes = route_views(catalog.routes@);
    let selected = opt_chars(catalog.selected_route_id);
    let warning = opt_chars(catalog.restoration_warning);
    match (res.1, res.2) {
        (Some(pid), Some(cid)) => kept(doc, startup, after) && (routes, selected, warning)
            == paired_outcome(doc.external_route_manual, pid, cid, ins, outs, res.4),
        (Some(pid), None) => routes == disc && playback_only_outcome(
            doc,
            startup,
            after,
            disc,
            pid,
            res.4,
            selected,
            warning,
            written,
        ),
        _ => kept(doc, startup, after) && routes == disc && selected is None && warning == res.4,
    }
}

/// Selects the stored pair among the routes (see `paired_outcome`).
fn select_paired(
    manual: bool,
    routes: &mut Vec<ExternalAudioRoute>,
    playback_id: &str,
    capture_id: &str,
    inputs: &[DeviceInfo],
    outputs: &[DeviceInfo],
    warning: Option<String>,
) -> (selection: (Option<String>, Option<String>))
    requires
        route_views(old(routes)@) == discovered_views(device_views(inputs@), device_views(outputs@)),
    ensures
        (route_views(final(routes)@), opt_chars(selection.0), opt_chars(selection.1)) == paired_outcome(
            manual,
            playback_id@,
            capture_id@,
            device_views(inputs@),
            device_views(outputs@),
            opt_chars(warning),
        ),
        discovered_views(device_views(inputs@), device_views(outputs@)).len() <= final(routes)@.len()
            <= discovered_views(device_views(inputs@), device_views(outputs@)).len() + 1,
        forall|k: int|
            0 <= k < discovered_views(device_views(inputs@), device_views(outputs@)).len() ==> (
            #[trigger] final(routes)@[k])@ == discovered_views(device_views(inputs@), device_views(outputs@))[k],
        selection.0 matches Some(id) ==> exists|j: int|
            0 <= j < final(routes)@.len() && (#[trigger] final(routes)@[j])@.route_id == id@,
{
    let ghost ins = device_views(inputs@);
    let ghost outs = device_views(outputs@);
    let ghost disc = discovered_views(ins, outs);
    let playback = unique_device("saved playback endpoint", playback_id, outputs);
    let capture = unique_device("saved capture endpoint", capture_id, inputs);
    let (playback, capture) = match (playback, capture) {
        (Ok(p), Ok(c)) => (p, c),
        _ => {
            return (None, warning);
        },
    };
    let ghost p = choose|p: int|
        only_index(outputs@.len() as int, has_id(outs, playback_id@), p) && outputs@[p] == *playback;
    let ghost c = choose|c: int|
        only_index(inputs@.len() as int, has_id(ins, capture_id@), c) && inputs@[c] == *capture;
    proof {
        assert(has_id(outs, playback_id@)(p));
        assert(outs[p] == outputs@[p]@);
        assert(has_id(ins, capture_id@)(c));
        assert(ins[c] == inputs@[c]@);
        assert forall|p2: int| only_index(outputs@.len() as int, has_id(outs, playback_id@), p2) implies p2
            == p by {}
        assert forall|c2: int| only_index(inputs@.len() as int, has_id(ins, capture_id@), c2) implies c2
            == c by {}
        assert(the_index(outputs@.len() as int, has_id(outs, playback_id@)) == p);
        assert(the_index(inputs@.len() as int, has_id(ins, capture_id@)) == c);
        assert forall|j: int| 0 <= j < routes@.len() implies (#[trigger] routes@[j])@ == disc[j] by {
            assert(route_views(routes@)[j] == routes@[j]@);
        }
    }
    if manual {
        let saved = manual_route(playback, capture);
        let selected = Some(saved.route_id.clone());
        if !has_route_id(routes, saved.route_id.as_str()) {
            let ghost before = routes@;
            routes.push(saved);
            proof {
                assert(route_views(routes@) =~= route_views(before).push(routes@[routes@.len() - 1]@));
                assert forall|j: int| 0 <= j < disc.len() implies (#[trigger] disc[j]).route_id != saved@.route_id by {
                    assert(before[j]@ == disc[j]);
                }
                assert(routes@[routes@.len() - 1]@.route_id == selected->0@);
                assert forall|k: int| 0 <= k < disc.len() implies (#[trigger] routes@[k])@ == disc[k] by {
                    assert(routes@[k] == before[k]);
                }
            }
        } else {
            proof {
                let j = choose|j: int| 0 <= j < routes@.len() && (#[trigger] routes@[j])@.route_id == saved@.route_id;
                assert(disc[j].route_id == saved@.route_id);
                assert(routes@[j]@.route_id == selected->0@);
            }
        }
        (selected, warning)
    } else {
        proof {
            assert(playback.id@ == playback_id@);
            assert(capture.id@ == capture_id@);
        }
        match find_saved_route(routes, playback.id.as_str(), capture.id.as_str()) {
            Some(k) => {
                proof {
                    assert(first_saved_ready(disc, playback_id@, capture_id@, k as int)) by {
                        assert forall|j: int| 0 <= j < k implies !is_saved_ready(#[trigger] disc[j], playback_id@, capture_id@) by {
                            assert(routes@[j]@ == disc[j]);
                        }
                    }
                    assert forall|k2: int| first_saved_ready(disc, playback_id@, capture_id@, k2) implies k2 == k by {
                        if k2 < k {
                            assert(!is_saved_ready(disc[k2], playback_id@, capture_id@));
                        } else if k2 > k {
                            assert(!is_saved_ready(disc[k as int], playback_id@, capture_id@));
                        }
                    }
                }
                (Some(routes[k].route_id.clone()), warning)
            },
            None => {
                proof {
                    assert forall|k2: int| !first_saved_ready(disc, playback_id@, capture_id@, k2) by {
                        if 0 <= k2 < disc.len() {
                            assert(routes@[k2]@ == disc[k2]);
                        }
                    }
                }
                let mut w = warning;
                append_warning(
                    &mut w,
                    "The stored automatic external route is no longer a unique safe pair. Select and save the playback/capture pair manually.",
                );
                (None, w)
            },
        }
    }
}

/// Upgrades settings that name only a playback endpoint to the one ready route that
/// uses it (see `playback_only_outcome`).
fn upgrade_playback_only(
    store: &mut ApplicationSettingsStore,
    routes: &Vec<ExternalAudioRoute>,
    playback_id: &str,
    warning: Option<String>,
    persist: impl Fn(&ApplicationSettingsDocument) -> Result<(), ApplicationSettingsError>,
) -> (selection: (Option<String>, Option<String>))
    requires
        forall|d: &ApplicationSettingsDocument| persist.requires((d,)),
        forall|j: int|
            0 <= j < routes@.len() && (#[trigger] routes@[j])@.validation_status == RouteValidationStatus::Ready
                ==> routes@[j].capture_device is Some,
    ensures
        selection.0 matches Some(id) ==> exists|j: int|
            0 <= j < routes@.len() && (#[trigger] routes@[j])@.route_id == id@,
        playback_only_outcome(
            old(store).spec_document(),
            old(store).spec_startup_warning(),
            *final(store),
            route_views(routes@),
            playback_id@,
            opt_chars(warning),
            opt_chars(selection.0),
            opt_chars(selection.1),
            |d: ApplicationSettingsDocument, w: Result<(), ApplicationSettingsError>| persist.ensures((&d,), w),
        ),
{
    let ghost views = route_views(routes@);
    let (k, count) = ready_routes_for_playback(routes, playback_id);
    proof {
        assert forall|j: int| 0 <= j < routes@.len() implies (#[trigger] routes@[j])@ == views[j] by {}
        let pred = ready_pred(views, playback_id@);
        if count == 1 {
            assert(only_index(views.len() as int, pred, k as int));
            assert forall|k2: int| only_index(views.len() as int, pred, k2) implies k2 == k by {
                assert(pred(k2));
                assert(ready_for_playback(routes@[k2]@, playback_id@));
            }
            assert(the_index(views.len() as int, pred) == k);
        } else if count == 0 {
            assert forall|k2: int| !only_index(views.len() as int, pred, k2) by {
                if 0 <= k2 < views.len() {
                    assert(!ready_for_playback(routes@[k2]@, playback_id@));
                }
            }
        } else {
            let (a, b) = choose|a: int, b: int|
                0 <= a < b < routes@.len() && ready_for_playback(#[trigger] routes@[a]@, playback_id@)
                    && ready_for_playback(#[trigger] routes@[b]@, playback_id@);
            assert forall|k2: int| !only_index(views.len() as int, pred, k2) by {
                if only_index(views.len() as int, pred, k2) {
                    assert(pred(a) && pred(b));
                }
            }
        }
    }
    if count != 1 {
        return (None, warning);
    }
    let route = &routes[k];
    assert(routes@[k as int]@.validation_status == RouteValidationStatus::Ready);
    let migrated = route_document(store.document(), route);
    let saved_id = route.route_id.clone();
    assert(route_document_spec(store.spec_document(), views[k as int], migrated));
    let ghost before = *store;
    let ghost d = migrated;
    let ghost written = |d: ApplicationSettingsDocument, w: Result<(), ApplicationSettingsError>|
        persist.ensures((&d,), w);
    let outcome = store.save(migrated, &persist);
    proof {
        if document_check(d) is Ok {
            let w = choose|w: Result<(), ApplicationSettingsError>| persist.ensures((&d,), w) && w == outcome;
            assert(written(d, w));
        }
    }
    match outcome {
        Err(error) => {
            let mut t = match warning {
                Some(w) => to_chars(w.as_str()),
                None => Vec::new(),
            };
            append_chars(
                &mut t,
                to_chars(" Conservative route pairing was found but could not be persisted: ").as_slice(),
            );
            append_chars(&mut t, to_chars(error.message().as_str()).as_slice());
            (None, Some(from_chars(t.as_slice())))
        },
        Ok(()) => (Some(saved_id), warning),
    }
}

/// The catalog of external routes for the current endpoints and the stored settings
/// (see `catalog_outcome`); settings are written only through `persist`.
pub fn build_catalog(
    store: &mut ApplicationSettingsStore,
    inputs: &[DeviceInfo],
    outputs: &[DeviceInfo],
    persist: impl Fn(&ApplicationSettingsDocument) -> Result<(), ApplicationSettingsError>,
) -> (catalog: ExternalAudioRouteCatalog)
    requires
        forall|d: &ApplicationSettingsDocument| persist.requires((d,)),
    ensures
        catalog_facts(catalog, inputs@, outputs@),
        catalog_outcome(
            old(store).spec_document(),
            old(store).spec_startup_warning(),
            *final(store),
            catalog,
            inputs@,
            outputs@,
            |d: ApplicationSettingsDocument, w: Result<(), ApplicationSettingsError>| persist.ensures((&d,), w),
        ),
{
    let document = store.document().clone();
    let resolved = resolve_device_selections(&document, inputs, outputs);
    let mut routes = discover_external_routes(inputs, outputs);
    let ghost ins = device_views(inputs@);
    let ghost outs = device_views(outputs@);
    let ghost plays = virtual_only(outs);
    let ghost caps = virtual_only(ins);
    let ghost disc = discovered_views(ins, outs);
    let ghost res = resolution_spec(document, ins, outs);
    proof {
        assert(route_views(routes@) =~= disc);
        assert forall|j: int| 0 <= j < routes@.len() implies (#[trigger] routes@[j])@ == disc[j] by {
            assert(route_views(routes@)[j] == routes@[j]@);
        }
    }
    let mut selected_route_id: Option<String> = None;
    let mut restoration_warning = resolved.restoration_warning;
    match (&resolved.external_route_playback_id, &resolved.external_route_capture_id) {
        (Some(playback_id), Some(capture_id)) => {
            let (s, w) = select_paired(
                document.external_route_manual,
                &mut routes,
                playback_id.as_str(),
                capture_id.as_str(),
                inputs,
                outputs,
                restoration_warning,
            );
            selected_route_id = s;
            restoration_warning = w;
        },
        (Some(playback_id), None) => {
            proof {
                assert forall|j: int| 0 <= j < routes@.len() implies (#[trigger] routes@[j])@ == disc[j] by {
                    assert(route_views(routes@)[j] == routes@[j]@);
                }
                assert forall|j: int|
                    0 <= j < routes@.len() && (#[trigger] routes@[j])@.validation_status
                        == RouteValidationStatus::Ready implies routes@[j].capture_device is Some by {
                    assert(routes@[j]@ == discovered_route(plays[j], plays, caps));
                }
            }
            let (s, w) = upgrade_playback_only(store, &routes, playback_id.as_str(), restoration_warning, persist);
            selected_route_id = s;
            restoration_warning = w;
        },
        _ => {},
    }
    let virtual_playback_devices = virtual_devices(outputs);
    let virtual_capture_devices = virtual_devices(inputs);
    let unpaired_capture_devices = unpaired_capture_devices(inputs, routes.as_slice());
    proof {
        assert forall|k: int| 0 <= k < plays.len() implies (#[trigger] routes@[k])@
            == discovered_route(plays[k], plays, caps) by {
            assert(routes@[k]@ == disc[k]);
        }
    }
    ExternalAudioRouteCatalog {
        routes,
        virtual_playback_devices,
        virtual_capture_devices,
        unpaired_capture_devices,
        selected_route_id,
        restoration_warning,
    }
}

/// What a route check still needs after the inventory check.
pub enum RouteCheck {
    /// The check is answered.
    Answered(RouteCompatibilityResult),
    /// The route passed the inventory check; formats must be negotiated between the
    /// input at this index and the route's playback endpoint.
    Negotiate { input_index: usize, route_index: usize },
}

/// The number of physical inputs with the identifier.
pub open spec fn physical_count(devices: Seq<DeviceView>, id: Seq<char>) -> nat
    decreases devices.len(),
{
    if devices.len() == 0 {
        0
    } else {
        physical_count(devices.drop_last(), id) + if devices.last().id == id
            && !devices.last().is_likely_virtual {
            1nat
        } else {
            0nat
        }
    }
}

/// Where no device is a physical input with the identifier, none is counted.
proof fn lemma_no_physical_none_counted(devices: Seq<DeviceView>, id: Seq<char>)
    requires
        forall|j: int| 0 <= j < devices.len() ==> !((#[trigger] devices[j]).id == id && !devices[j].is_likely_virtual),
    ensures
        physical_count(devices, id) == 0,
    decreases devices.len(),
{
    if devices.len() > 0 {
        let rest = devices.drop_last();
        assert forall|j: int| 0 <= j < rest.len() implies !((#[trigger] rest[j]).id == id && !rest[j].is_likely_virtual) by {
            assert(rest[j] == devices[j]);
        }
        lemma_no_physical_none_counted(rest, id);
        assert(devices.last() == devices[devices.len() - 1]);
    }
}

/// `k` is the first route of the catalog with the identifier.
pub open spec fn first_route_at(routes: Seq<ExternalAudioRoute>, route_id: Seq<char>, k: int) -> bool {
    &&& 0 <= k < routes.len()
    &&& routes[k]@.route_id == route_id
    &&& forall|j: int| 0 <= j < k ==> (#[trigger] routes[j])@.route_id != route_id
}

/// `i` is the first physical input with the identifier.
pub open spec fn first_physical_input_at(inputs: Seq<DeviceInfo>, input_id: Seq<char>, i: int) -> bool {
    &&& 0 <= i < inputs.len()
    &&& inputs[i]@.id == input_id
    &&& !inputs[i].is_likely_virtual
    &&& forall|j: int| 0 <= j < i ==> !((#[trigger] inputs[j])@.id == input_id && !inputs[j].is_likely_virtual)
}

/// The inventory verdict on a catalog route: the physical inputs with the chosen
/// identifier, the endpoints with the route's playback identifier and the inputs with
/// its capture identifier.
pub open spec fn route_inventory(route: RouteView, input_id: Seq<char>, inputs: Seq<DeviceInfo>, outputs: Seq<DeviceInfo>) -> Option<(RouteReadiness, Seq<char>, bool)> {
    inventory_spec(
        route,
        physical_count(device_views(inputs), input_id) as usize,
        count_with_id(device_views(outputs), route.playback_device.id) as usize,
        match route.capture_device {
            Some(c) => count_with_id(device_views(inputs), c.id) as usize,
            None => 0usize,
        },
    )
}

fn count_ids(devices: &[DeviceInfo], id: &str, physical_only: bool) -> (count: usize)
    ensures
        physical_only ==> count == physical_count(device_views(devices@), id@),
        !physical_only ==> count == count_with_id(device_views(devices@), id@),
{
    let ghost views = device_views(devices@);
    let mut count: usize = 0;
    let mut i: usize = 0;
    while i < devices.len()
        invariant
            i <= devices@.len(),
            views == device_views(devices@),
            count <= i,
            physical_only ==> count == physical_count(views.take(i as int), id@),
            !physical_only ==> count == count_with_id(views.take(i as int), id@),
        decreases devices@.len() - i,
    {
        assert(views.take(i + 1).drop_last() =~= views.take(i as int));
        assert(views[i as int] == devices@[i as int]@);
        if str_equal(devices[i].id.as_str(), id) && (!physical_only
            || !devices[i].is_likely_virtual) {
            count = count + 1;
        }
        i = i + 1;
    }
    assert(views.take(devices@.len() as int) =~= views);
    count
}

/// The index of the first route with the identifier.
fn find_route(routes: &Vec<ExternalAudioRoute>, route_id: &str) -> (found: Option<usize>)
    ensures
        match found {
            Some(k) => k < routes@.len() && routes@[k as int]@.route_id == route_id@ && forall|j: int|
                0 <= j < k ==> (#[trigger] routes@[j])@.route_id != route_id@,
            None => forall|j: int| 0 <= j < routes@.len() ==> (#[trigger] routes@[j])@.route_id != route_id@,
        },
{
    let mut i: usize = 0;
    while i < routes.len()
        invariant
            i <= routes@.len(),
            forall|j: int| 0 <= j < i ==> (#[trigger] routes@[j])@.route_id != route_id@,
        decreases routes@.len() - i,
    {
        if str_equal(routes[i].route_id.as_str(), route_id) {
            return Some(i);
        }
        i = i + 1;
    }
    None
}

/// The first physical input with the identifier.
fn find_physical_input(inputs: &[DeviceInfo], input_id: &str) -> (found: Option<usize>)
    ensures
        match found {
            Some(k) => k < inputs@.len() && inputs@[k as int]@.id == input_id@
                && !inputs@[k as int].is_likely_virtual && forall|j: int|
                0 <= j < k ==> !((#[trigger] inputs@[j])@.id == input_id@
                    && !inputs@[j].is_likely_virtual),
            None => forall|j: int|
                0 <= j < inputs@.len() ==> !((#[trigger] inputs@[j])@.id == input_id@
                    && !inputs@[j].is_likely_virtual),
        },
{
    let mut i: usize = 0;
    while i < inputs.len()
        invariant
            i <= inputs@.len(),
            forall|j: int|
                0 <= j < i ==> !((#[trigger] inputs@[j])@.id == input_id@
                    && !inputs@[j].is_likely_virtual),
        decreases inputs@.len() - i,
    {
        if str_equal(inputs[i].id.as_str(), input_id) && !inputs[i].is_likely_virtual {
            return Some(i);
        }
        i = i + 1;
    }
    None
}

/// Checks a route before format negotiation: a live engine blocks the check, the route
/// must still be in the catalog, and the inventory must hold exactly one physical
/// input, playback endpoint and capture endpoint.
pub fn check_route_inventory(
    engine_state: EngineState,
    route_id: String,
    input_id: &str,
    catalog: &ExternalAudioRouteCatalog,
    inputs: &[DeviceInfo],
    outputs: &[DeviceInfo],
) -> (check: RouteCheck)
    ensures
        !(engine_state == EngineState::Stopped || engine_state == EngineState::Error) ==> (
        check matches RouteCheck::Answered(a) && a.readiness == RouteReadiness::EngineActive
            && a.route_id == Some(route_id) && !a.capture_endpoint_available),
        (engine_state == EngineState::Stopped || engine_state == EngineState::Error) && (forall|j: int|
            0 <= j < catalog.routes@.len() ==> (#[trigger] catalog.routes@[j])@.route_id != route_id@)
            ==> (check matches RouteCheck::Answered(a) && a.readiness
            == RouteReadiness::DeviceUnavailable && a.route_id == Some(route_id)),
        forall|k: int|
            (engine_state == EngineState::Stopped || engine_state == EngineState::Error)
                && #[trigger] first_route_at(catalog.routes@, route_id@, k) ==> match route_inventory(
                catalog.routes@[k]@,
                input_id@,
                inputs@,
                outputs@,
            ) {
                Some((readiness, message, capture)) => check matches RouteCheck::Answered(a)
                    && a.route_id == Some(catalog.routes@[k].route_id) && a.readiness == readiness
                    && a.message@ == message && a.negotiated_sample_rate is None
                    && a.capture_endpoint_available == capture,
                None => check matches RouteCheck::Negotiate { input_index, route_index }
                    && route_index == k && first_physical_input_at(
                    inputs@,
                    input_id@,
                    input_index as int,
                ),
            },
{
    if !(engine_state == EngineState::Stopped || engine_state == EngineState::Error) {
        return RouteCheck::Answered(
            result(
                Some(route_id),
                RouteReadiness::EngineActive,
                "Stop the active Use or Test route before validating another route.",
                None,
                false,
            ),
        );
    }
    let k = match find_route(&catalog.routes, route_id.as_str()) {
        None => {
            return RouteCheck::Answered(
                result(
                    Some(route_id),
                    RouteReadiness::DeviceUnavailable,
                    "The selected external route is no longer available. Refresh devices and choose again.",
                    None,
                    false,
                ),
            );
        },
        Some(k) => k,
    };
    let route = &catalog.routes[k];
    let input_match_count = count_ids(inputs, input_id, true);
    let playback_match_count = count_ids(outputs, route.playback_device.id.as_str(), false);
    let capture_match_count = match &route.capture_device {
        Some(capture) => count_ids(inputs, capture.id.as_str(), false),
        None => 0,
    };
    if let Some(answer) = inventory_readiness(
        route,
        input_match_count,
        playback_match_count,
        capture_match_count,
    ) {
        return RouteCheck::Answered(answer);
    }
    let found = find_physical_input(inputs, input_id);
    proof {
        if found is None {
            lemma_no_physical_none_counted(device_views(inputs@), input_id@);
        }
    }
    match found {
        Some(i) => RouteCheck::Negotiate { input_index: i, route_index: k },
        None => RouteCheck::Answered(
            result(
                Some(route.route_id.clone()),
                RouteReadiness::MissingInput,
                "Select one available physical input microphone.",
                None,
                capture_match_count == 1,
            ),
        ),
    }
}

/// The answer after format negotiation for a route that passed the inventory check.
pub fn negotiation_answer(route: &ExternalAudioRoute, negotiated: Result<u32, String>) -> (answer:
    RouteCompatibilityResult)
    ensures
        answer.route_id == Some(route.route_id),
        answer.capture_endpoint_available,
        match negotiated {
            Ok(rate) => answer.readiness == RouteReadiness::Ready && answer.negotiated_sample_rate
                == Some(rate) && answer.message@
                == "Route configuration is ready. Playback availability does not prove that a receiving application is consuming the capture endpoint."@,
            Err(m) => answer.readiness == RouteReadiness::IncompatibleFormat
                && answer.negotiated_sample_rate is None && answer.message@ == m@,
        },
{
    match negotiated {
        Ok(rate) => result(
            Some(route.route_id.clone()),
            RouteReadiness::Ready,
            "Route configuration is ready. Playback availability does not prove that a receiving application is consuming the capture endpoint.",
            Some(rate),
            true,
        ),
        Err(message) => result(
            Some(route.route_id.clone()),
            RouteReadiness::IncompatibleFormat,
            message.as_str(),
            None,
            true,
        ),
    }
}

// ---------------------------------------------------------------------------
// Saving, deleting and using the saved route.
// ---------------------------------------------------------------------------
/// The message when routing changes while audio runs.
pub open spec fn engine_busy_message() -> Seq<char> {
    "Stop the active Use or Test route before changing external routing."@
}

/// Routing may change only while the engine is stopped (or stopped on an error).
pub fn require_stopped(engine_state: EngineState) -> (result: Result<(), String>)
    ensures
        (engine_state == EngineState::Stopped || engine_state == EngineState::Error) <==> result is Ok,
        result matches Err(m) ==> m@ == engine_busy_message(),
{
    match engine_state {
        EngineState::Stopped | EngineState::Error => Ok(()),
        _ => Err(
            from_chars(
                to_chars("Stop the active Use or Test route before changing external routing.").as_slice(),
            ),
        ),
    }
}

/// The route discovered for the `k`-th likely virtual playback endpoint.
pub open spec fn discovered_at(inputs: Seq<DeviceView>, outputs: Seq<DeviceView>, k: int) -> RouteView {
    discovered_route(virtual_only(outputs)[k], virtual_only(outputs), virtual_only(inputs))
}

/// A discovered route is the one a save request names: the candidate, ready, and
/// pairing exactly the two chosen endpoints.
pub open spec fn names_route(r: RouteView, candidate: Seq<char>, playback_id: Seq<char>, capture_id: Seq<char>) -> bool {
    &&& r.route_id == candidate
    &&& r.playback_device.id == playback_id
    &&& r.capture_device matches Some(c) && c.id == capture_id
    &&& r.validation_status == RouteValidationStatus::Ready
}

/// The first discovered route that a save request names is at `k`.
pub open spec fn first_named_route(
    inputs: Seq<DeviceView>,
    outputs: Seq<DeviceView>,
    candidate: Seq<char>,
    playback_id: Seq<char>,
    capture_id: Seq<char>,
    k: int,
) -> bool {
    &&& 0 <= k < virtual_only(outputs).len()
    &&& names_route(discovered_at(inputs, outputs, k), candidate, playback_id, capture_id)
    &&& forall|j: int|
        0 <= j < k ==> !names_route(
            #[trigger] discovered_at(inputs, outputs, j),
            candidate,
            playback_id,
            capture_id,
        )
}

/// The message for two chosen endpoints with one identifier.
pub open spec fn same_endpoint_message() -> Seq<char> {
    "Playback and capture endpoints must be different directional devices."@
}

/// The message for an unconfirmed manual pair with a likely physical endpoint.
pub open spec fn physical_pair_message() -> Seq<char> {
    "This manual pair contains a likely physical endpoint. Confirm the advanced physical-endpoint warning before saving."@
}

/// The first route that is the candidate, ready, and pairs exactly the two endpoints.
fn find_named_route(
    routes: &Vec<ExternalAudioRoute>,
    candidate: &str,
    playback_id: &str,
    capture_id: &str,
) -> (found: Option<usize>)
    ensures
        match found {
            Some(k) => k < routes@.len() && names_route(routes@[k as int]@, candidate@, playback_id@, capture_id@)
                && forall|j: int| 0 <= j < k ==> !names_route(#[trigger] routes@[j]@, candidate@, playback_id@, capture_id@),
            None => forall|j: int| 0 <= j < routes@.len() ==> !names_route(#[trigger] routes@[j]@, candidate@, playback_id@, capture_id@),
        },
{
    let mut k: usize = 0;
    while k < routes.len()
        invariant
            k <= routes@.len(),
            forall|j: int| 0 <= j < k ==> !names_route(#[trigger] routes@[j]@, candidate@, playback_id@, capture_id@),
        decreases routes@.len() - k,
    {
        let route = &routes[k];
        let capture_matches = match &route.capture_device {
            Some(d) => str_equal(d.id.as_str(), capture_id),
            None => false,
        };
        if str_equal(route.route_id.as_str(), candidate) && str_equal(route.playback_device.id.as_str(), playback_id)
            && capture_matches && route.validation_status == RouteValidationStatus::Ready {
            return Some(k);
        }
        k = k + 1;
    }
    None
}

/// The discovered route a save request names, if any: the first that is the candidate,
/// ready, and pairs exactly the two endpoints.
pub open spec fn first_named_index(
    inputs: Seq<DeviceView>,
    outputs: Seq<DeviceView>,
    candidate: Seq<char>,
    playback_id: Seq<char>,
    capture_id: Seq<char>,
) -> int {
    choose|k: int| first_named_route(inputs, outputs, candidate, playback_id, capture_id, k)
}

/// The message for an endpoint identifier that is missing or shared.
pub open spec fn lookup_message(devices: Seq<DeviceView>, id: Seq<char>, purpose: Seq<char>) -> Seq<char> {
    if count_with_id(devices, id) == 0 {
        device_gone_message(purpose)
    } else {
        device_ambiguous_message(purpose)
    }
}

/// The route a save request stands for, or why none may be saved: the endpoints must
/// differ and each be unique among the current ones; the ready discovered route the
/// request names is taken as it is; otherwise the two endpoints form a manual pair,
/// which may hold a likely physical endpoint only when the user confirmed it.
pub open spec fn route_to_save_spec(
    candidate: Option<Seq<char>>,
    playback_id: Seq<char>,
    capture_id: Seq<char>,
    confirm_physical: bool,
    inputs: Seq<DeviceView>,
    outputs: Seq<DeviceView>,
) -> Result<RouteView, Seq<char>> {
    if playback_id == capture_id {
        Err(same_endpoint_message())
    } else if !has_only_index(outputs.len() as int, has_id(outputs, playback_id)) {
        Err(lookup_message(outputs, playback_id, "playback endpoint"@))
    } else if !has_only_index(inputs.len() as int, has_id(inputs, capture_id)) {
        Err(lookup_message(inputs, capture_id, "capture endpoint"@))
    } else {
        let p = outputs[the_index(outputs.len() as int, has_id(outputs, playback_id))];
        let c = inputs[the_index(inputs.len() as int, has_id(inputs, capture_id))];
        if candidate is Some && exists|k: int|
            first_named_route(inputs, outputs, candidate->0, playback_id, capture_id, k) {
            Ok(
                discovered_at(
                    inputs,
                    outputs,
                    first_named_index(inputs, outputs, candidate->0, playback_id, capture_id),
                ),
            )
        } else if (!p.is_likely_virtual || !c.is_likely_virtual) && !confirm_physical {
            Err(physical_pair_message())
        } else {
            Ok(route_spec(p, Some(c), seq![], PairingConfidence::Manual, PairingSource::Manual, true))
        }
    }
}

/// The route a save request stands for, as `route_to_save_spec` says, over the current
/// endpoints.
pub open spec fn request_outcome(
    request: SaveExternalAudioRouteRequest,
    inputs: Seq<DeviceInfo>,
    outputs: Seq<DeviceInfo>,
) -> Result<RouteView, Seq<char>> {
    route_to_save_spec(
        opt_chars(request.candidate_route_id),
        request.playback_device_id@,
        request.capture_device_id@,
        request.confirm_physical_endpoints,
        device_views(inputs),
        device_views(outputs),
    )
}

/// Chooses the route a save request stands for (see `route_to_save_spec`).
#[verifier::rlimit(40)]
pub fn route_to_save(
    request: &SaveExternalAudioRouteRequest,
    inputs: &[DeviceInfo],
    outputs: &[DeviceInfo],
) -> (result: Result<ExternalAudioRoute, String>)
    ensures
        match result {
            Ok(route) => request_outcome(*request, inputs@, outputs@) == Ok::<RouteView, Seq<char>>(route@)
                && route.capture_device is Some,
            Err(m) => request_outcome(*request, inputs@, outputs@) == Err::<RouteView, Seq<char>>(m@),
        },
{
    if str_equal(request.playback_device_id.as_str(), request.capture_device_id.as_str()) {
        return Err(
            from_chars(
                to_chars("Playback and capture endpoints must be different directional devices.").as_slice(),
            ),
        );
    }
    let playback = unique_device("playback endpoint", request.playback_device_id.as_str(), outputs)?;
    let capture = unique_device("capture endpoint", request.capture_device_id.as_str(), inputs)?;
    let discovered = discover_external_routes(inputs, outputs);
    let ghost ins = device_views(inputs@);
    let ghost outs = device_views(outputs@);
    let ghost p = choose|p: int|
        only_index(outputs@.len() as int, has_id(outs, request.playback_device_id@), p)
            && outputs@[p] == *playback;
    let ghost c = choose|c: int|
        only_index(inputs@.len() as int, has_id(ins, request.capture_device_id@), c)
            && inputs@[c] == *capture;
    proof {
        assert(has_id(outs, request.playback_device_id@)(p));
        assert(outs[p] == outputs@[p]@);
        assert(has_id(ins, request.capture_device_id@)(c));
        assert(ins[c] == inputs@[c]@);
        assert forall|p2: int|
            only_index(
                outputs@.len() as int,
                has_id(outs, request.playback_device_id@),
                p2,
            ) implies p2 == p by {}
        assert forall|c2: int|
            only_index(
                inputs@.len() as int,
                has_id(ins, request.capture_device_id@),
                c2,
            ) implies c2 == c by {}
        assert forall|k: int| 0 <= k < discovered@.len() implies (#[trigger] discovered@[k])@ == discovered_at(ins, outs, k) by {}
        assert(the_index(outputs@.len() as int, has_id(outs, request.playback_device_id@)) == p);
        assert(the_index(inputs@.len() as int, has_id(ins, request.capture_device_id@)) == c);
    }
    let found: Option<usize> = match &request.candidate_route_id {
        Some(candidate) => find_named_route(
            &discovered,
            candidate.as_str(),
            playback.id.as_str(),
            capture.id.as_str(),
        ),
        None => None,
    };
    proof {
        assert(playback.id@ == request.playback_device_id@);
        assert(capture.id@ == request.capture_device_id@);
    }
    match found {
        Some(k) => {
            let route = discovered[k].clone();
            proof {
                let cand = request.candidate_route_id->0@;
                assert(discovered@[k as int]@ == discovered_at(ins, outs, k as int));
                assert forall|j: int| 0 <= j < k implies !names_route(
                    #[trigger] discovered_at(ins, outs, j),
                    cand,
                    request.playback_device_id@,
                    request.capture_device_id@,
                ) by {
                    assert(discovered@[j]@ == discovered_at(ins, outs, j));
                }
                let pid = request.playback_device_id@;
                let cid = request.capture_device_id@;
                assert(first_named_route(ins, outs, cand, pid, cid, k as int));
                assert forall|k2: int| first_named_route(ins, outs, cand, pid, cid, k2) implies k2 == k by {
                    if k2 < k {
                        assert(!names_route(discovered_at(ins, outs, k2), cand, pid, cid));
                    } else if k2 > k {
                        assert(!names_route(discovered_at(ins, outs, k as int), cand, pid, cid));
                    }
                }
                assert(first_named_index(ins, outs, cand, pid, cid) == k);
                assert(opt_chars(request.candidate_route_id) == Some(cand));
            }
            Ok(route)
        },
        None => {
            proof {
                if request.candidate_route_id is Some {
                    let cand = request.candidate_route_id->0;
                    assert forall|j: int| 0 <= j < virtual_only(outs).len() implies !names_route(
                        #[trigger] discovered_at(ins, outs, j),
                        cand@,
                        request.playback_device_id@,
                        request.capture_device_id@,
                    ) by {
                        assert(discovered@[j]@ == discovered_at(ins, outs, j));
                    }
                }
                if request.candidate_route_id is Some {
                    let cand = request.candidate_route_id->0@;
                    assert forall|k: int| !first_named_route(ins, outs, cand, request.playback_device_id@, request.capture_device_id@, k) by {
                        if 0 <= k < virtual_only(outs).len() {
                            assert(!names_route(discovered_at(ins, outs, k), cand, request.playback_device_id@, request.capture_device_id@));
                        }
                    }
                }
            }
            if (!playback.is_likely_virtual || !capture.is_likely_virtual)
                && !request.confirm_physical_endpoints {
                return Err(
                    from_chars(
                        to_chars(
                            "This manual pair contains a likely physical endpoint. Confirm the advanced physical-endpoint warning before saving.",
                        ).as_slice(),
                    ),
                );
            }
            Ok(manual_route(playback, capture))
        },
    }
}


/// The stored settings and startup warning are as they were.
pub open spec fn settings_kept(before: ApplicationSettingsStore, after: ApplicationSettingsStore) -> bool {
    &&& after.spec_document() == before.spec_document()
    &&& after.spec_startup_warning() == before.spec_startup_warning()
}

/// Whether the engine lets routing change.
pub open spec fn routing_may_change(engine_state: EngineState) -> bool {
    engine_state == EngineState::Stopped || engine_state == EngineState::Error
}

/// Saves the route a request stands for and answers the new catalog. Nothing is
/// written while audio runs or when the request names no route that may be saved;
/// a write that fails is answered with its message and leaves the settings as they were.
pub fn save_external_route(
    engine_state: EngineState,
    request: &SaveExternalAudioRouteRequest,
    store: &mut ApplicationSettingsStore,
    inputs: &[DeviceInfo],
    outputs: &[DeviceInfo],
    persist: impl Fn(&ApplicationSettingsDocument) -> Result<(), ApplicationSettingsError>,
) -> (result: Result<ExternalAudioRouteCatalog, String>)
    requires
        forall|d: &ApplicationSettingsDocument| persist.requires((d,)),
    ensures
        !routing_may_change(engine_state) ==> (result matches Err(m) && m@ == engine_busy_message()
            && settings_kept(*old(store), *final(store))),
        routing_may_change(engine_state) ==> match request_outcome(*request, inputs@, outputs@) {
            Err(m) => result matches Err(x) && x@ == m && settings_kept(*old(store), *final(store)),
            Ok(r) => exists|d: ApplicationSettingsDocument|
                #![trigger route_document_spec(old(store).spec_document(), r, d)]
                route_document_spec(old(store).spec_document(), r, d) && match document_check(d) {
                    Err(m) => result matches Err(x) && x@ == m && settings_kept(*old(store), *final(store)),
                    Ok(()) => exists|w: Result<(), ApplicationSettingsError>|
                        #![trigger persist.ensures((&d,), w)]
                        persist.ensures((&d,), w) && match w {
                            Err(e) => result matches Err(x) && x@ == error_message_spec(e)
                                && settings_kept(*old(store), *final(store)),
                            Ok(()) => result matches Ok(catalog) && catalog_facts(catalog, inputs@, outputs@)
                                && catalog_outcome(
                                d,
                                None,
                                *final(store),
                                catalog,
                                inputs@,
                                outputs@,
                                |d: ApplicationSettingsDocument, w: Result<(), ApplicationSettingsError>|
                                    persist.ensures((&d,), w),
                            ),
                        },
                },
        },
{
    require_stopped(engine_state)?;
    let route = route_to_save(request, inputs, outputs)?;
    let document = route_document(store.document(), &route);
    match store.save(document, &persist) {
        Err(error) => {
            Err(error.message())
        },
        Ok(()) => {
            let catalog = build_catalog(store, inputs, outputs, persist);
            Ok(catalog)
        },
    }
}

/// Forgets the saved route and answers the new catalog; nothing is written while audio
/// runs, and a write that fails is answered with its message.
pub fn delete_external_route(
    engine_state: EngineState,
    store: &mut ApplicationSettingsStore,
    inputs: &[DeviceInfo],
    outputs: &[DeviceInfo],
    persist: impl Fn(&ApplicationSettingsDocument) -> Result<(), ApplicationSettingsError>,
) -> (result: Result<ExternalAudioRouteCatalog, String>)
    requires
        forall|d: &ApplicationSettingsDocument| persist.requires((d,)),
    ensures
        !routing_may_change(engine_state) ==> (result matches Err(m) && m@ == engine_busy_message()
            && settings_kept(*old(store), *final(store))),
        routing_may_change(engine_state) ==> {
            let d = ApplicationSettingsDocument {
                selected_external_route_id: None,
                external_route_playback_device_id: None,
                last_known_external_route_playback_name: None,
                external_route_capture_device_id: None,
                last_known_external_route_capture_name: None,
                external_route_pairing_source: None,
                external_route_manual: false,
                ..old(store).spec_document()
            };
            match document_check(d) {
                Err(m) => result matches Err(x) && x@ == m && settings_kept(*old(store), *final(store)),
                Ok(()) => exists|w: Result<(), ApplicationSettingsError>|
                    #![trigger persist.ensures((&d,), w)]
                    persist.ensures((&d,), w) && match w {
                        Err(e) => result matches Err(x) && x@ == error_message_spec(e)
                            && settings_kept(*old(store), *final(store)),
                        Ok(()) => result matches Ok(catalog) && catalog_facts(catalog, inputs@, outputs@)
                            && catalog_outcome(
                            d,
                            None,
                            *final(store),
                            catalog,
                            inputs@,
                            outputs@,
                            |d: ApplicationSettingsDocument, w: Result<(), ApplicationSettingsError>|
                                persist.ensures((&d,), w),
                        ),
                    },
            }
        },
{
    require_stopped(engine_state)?;
    let mut document = store.document().clone();
    clear_route(&mut document);
    match store.save(document, &persist) {
        Err(error) => Err(error.message()),
        Ok(()) => Ok(build_catalog(store, inputs, outputs, persist)),
    }
}

/// The message for a route that the catalog no longer holds.
pub open spec fn route_unavailable_message() -> Seq<char> {
    "The selected external route is unavailable. Refresh devices and select it again."@
}

/// The message for a route that is shown but not the saved one.
pub open spec fn route_not_saved_message() -> Seq<char> {
    "Save the external route before starting Use."@
}

/// The first route of the catalog with the identifier is at `k`.
pub open spec fn first_with_id(routes: Seq<ExternalAudioRoute>, route_id: Seq<char>, k: int) -> bool {
    &&& 0 <= k < routes.len()
    &&& routes[k]@.route_id == route_id
    &&& forall|j: int| 0 <= j < k ==> (#[trigger] routes[j])@.route_id != route_id
}

/// The route Use may start with: the catalog's first route with the identifier, which
/// must be the saved (selected) route and ready; otherwise why not.
pub fn selected_saved_route(catalog: ExternalAudioRouteCatalog, route_id: &str) -> (result: Result<
    ExternalAudioRoute,
    String,
>)
    ensures
        (forall|j: int| 0 <= j < catalog.routes@.len() ==> (#[trigger] catalog.routes@[j])@.route_id != route_id@)
            ==> (result matches Err(m) && m@ == route_unavailable_message()),
        forall|k: int|
            #[trigger] first_with_id(catalog.routes@, route_id@, k) ==> if !(catalog.selected_route_id matches Some(
                s,
            ) && s@ == route_id@) {
                result matches Err(m) && m@ == route_not_saved_message()
            } else if catalog.routes@[k].validation_status != RouteValidationStatus::Ready {
                result matches Err(m) && m@ == catalog.routes@[k].compatibility.details@
            } else {
                result matches Ok(route) && route@ == catalog.routes@[k]@
            },
{
    let found = find_route(&catalog.routes, route_id);
    match found {
        None => Err(
            from_chars(
                to_chars(
                    "The selected external route is unavailable. Refresh devices and select it again.",
                ).as_slice(),
            ),
        ),
        Some(k) => {
            proof {
                assert(first_with_id(catalog.routes@, route_id@, k as int));
                assert forall|k2: int| first_with_id(catalog.routes@, route_id@, k2) implies k2 == k by {
                    if k2 < k {
                        assert(catalog.routes@[k2]@.route_id != route_id@);
                    } else if k2 > k {
                        assert(catalog.routes@[k as int]@.route_id != route_id@);
                    }
                }
            }
            let saved = match &catalog.selected_route_id {
                Some(s) => str_equal(s.as_str(), route_id),
                None => false,
            };
            if !saved {
                return Err(from_chars(to_chars("Save the external route before starting Use.").as_slice()));
            }
            let route = catalog.routes[k].clone();
            if route.validation_status != RouteValidationStatus::Ready {
                return Err(route.compatibility.details.clone());
            }
            Ok(route)
        },
    }
}


/// A first ready route joining the endpoints exists once any ready route joins them.
proof fn lemma_first_saved_ready_exists(routes: Seq<RouteView>, playback_id: Seq<char>, capture_id: Seq<char>, k: int)
    requires
        0 <= k < routes.len(),
        is_saved_ready(routes[k], playback_id, capture_id),
    ensures
        exists|f: int| first_saved_ready(routes, playback_id, capture_id, f),
    decreases k,
{
    if exists|j: int| 0 <= j < k && is_saved_ready(#[trigger] routes[j], playback_id, capture_id) {
        let j = choose|j: int| 0 <= j < k && is_saved_ready(#[trigger] routes[j], playback_id, capture_id);
        lemma_first_saved_ready_exists(routes, playback_id, capture_id, j);
    } else {
        assert(first_saved_ready(routes, playback_id, capture_id, k));
    }
}

/// A saved route is the one the catalog selects afterwards: once the settings a save
/// writes are in effect, the catalog for the same endpoints selects the route with the
/// identifier of the route that was saved.
pub proof fn lemma_saved_route_is_selected(
    request: SaveExternalAudioRouteRequest,
    inputs: Seq<DeviceInfo>,
    outputs: Seq<DeviceInfo>,
    before: ApplicationSettingsDocument,
    saved: ApplicationSettingsDocument,
    after: ApplicationSettingsStore,
    catalog: ExternalAudioRouteCatalog,
    written: spec_fn(ApplicationSettingsDocument, Result<(), ApplicationSettingsError>) -> bool,
)
    requires
        request_outcome(request, inputs, outputs) is Ok,
        route_document_spec(before, request_outcome(request, inputs, outputs)->Ok_0, saved),
        catalog_outcome(saved, None, after, catalog, inputs, outputs, written),
    ensures
        opt_chars(catalog.selected_route_id) == Some(request_outcome(request, inputs, outputs)->Ok_0.route_id),
{
    let ins = device_views(inputs);
    let outs = device_views(outputs);
    let r = request_outcome(request, inputs, outputs)->Ok_0;
    let pid = request.playback_device_id@;
    let cid = request.capture_device_id@;
    let disc = discovered_views(ins, outs);
    assert(has_only_index(outs.len() as int, has_id(outs, pid)));
    assert(has_only_index(ins.len() as int, has_id(ins, cid)));
    let pi = the_index(outs.len() as int, has_id(outs, pid));
    let ci = the_index(ins.len() as int, has_id(ins, cid));
    assert(has_id(outs, pid)(pi));
    assert(has_id(ins, cid)(ci));
    let cand = opt_chars(request.candidate_route_id);
    let named = cand is Some && exists|k: int| first_named_route(ins, outs, cand->0, pid, cid, k);
    if named {
        let k = first_named_index(ins, outs, cand->0, pid, cid);
        assert(first_named_route(ins, outs, cand->0, pid, cid, k));
        assert(r == discovered_at(ins, outs, k));
    }
    assert(r.playback_device.id == pid);
    assert(r.capture_device matches Some(c) && c.id == cid);
    assert(opt_chars(saved.external_route_playback_device_id) == Some(pid));
    assert(opt_chars(saved.external_route_capture_device_id) == Some(cid));
    assert(id_pred(outs, pid) =~= has_id(outs, pid));
    assert(id_pred(ins, cid) =~= has_id(ins, cid));
    let res = resolution_spec(saved, ins, outs);
    assert(res.1 == Some(pid));
    assert(res.2 == Some(cid));
    if !named {
        assert(saved.external_route_manual);
    } else {
        let k = first_named_index(ins, outs, cand->0, pid, cid);
        assert(!saved.external_route_manual);
        assert(disc[k] == discovered_at(ins, outs, k));
        assert(is_saved_ready(disc[k], pid, cid));
        lemma_first_saved_ready_exists(disc, pid, cid, k);
        let f = choose|f: int| first_saved_ready(disc, pid, cid, f);
        assert(disc[f] == discovered_at(ins, outs, f));
        assert(disc[f].route_id == route_id_spec(pid, Some(cid), false));
        assert(r.route_id == route_id_spec(pid, Some(cid), false));
    }
}

} // verus!
