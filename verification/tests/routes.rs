use mam_voice::commands::external_routes::{check_route_inventory, RouteCheck};
use mam_voice::engine_state::EngineState;
use mam_voice::application_settings::{
    resolve_device_selections, ApplicationPage, ApplicationSettingsDocument,
};
use mam_voice::commands::devices::selected_pair;
use mam_voice::commands::engine::resolve_physical_input_from;
use mam_voice::commands::external_routes::inventory_readiness;
use mam_voice::device::{DeviceDirection, DeviceInfo};
use mam_voice::external_route::{
    discover_external_routes, manual_route, stable_route_id, unpaired_capture_devices,
    ExternalAudioRoute, PairingConfidence, PairingSource, RouteReadiness, RouteValidationStatus,
};
use mam_voice::reliability::ReliabilityProfile;

fn playback(id: &str, name: &str) -> DeviceInfo {
    DeviceInfo::test(id, name, DeviceDirection::Output, false, true)
}

fn capture(id: &str, name: &str) -> DeviceInfo {
    DeviceInfo::test(id, name, DeviceDirection::Input, false, true)
}

fn input(id: &str, name: &str, default: bool, virtual_endpoint: bool) -> DeviceInfo {
    DeviceInfo::test(id, name, DeviceDirection::Input, default, virtual_endpoint)
}

fn output(id: &str, name: &str, default: bool, virtual_endpoint: bool) -> DeviceInfo {
    DeviceInfo::test(id, name, DeviceDirection::Output, default, virtual_endpoint)
}

#[test]
fn discovers_a_clear_known_pair() {
    let routes = discover_external_routes(
        &[capture("capture", "CABLE Output (VB-Audio Virtual Cable)")],
        &[playback("playback", "CABLE Input (VB-Audio Virtual Cable)")],
    );
    assert_eq!(routes[0].pairing_confidence, PairingConfidence::Exact);
    assert_eq!(routes[0].pairing_source, PairingSource::KnownPattern);
    assert_eq!(routes[0].capture_device.as_ref().unwrap().id, "capture");
}

#[test]
fn discovers_a_high_confidence_normalized_pair() {
    let routes = discover_external_routes(
        &[capture("capture", "Studio Virtual Capture")],
        &[playback("playback", "Studio Virtual Playback")],
    );
    assert_eq!(routes[0].pairing_confidence, PairingConfidence::High);
    assert_eq!(routes[0].pairing_source, PairingSource::NormalizedName);
    assert!(routes[0].capture_device.is_some());
}

#[test]
fn manual_pair_is_explicit_stable_and_never_claims_automatic_confidence() {
    let playback = DeviceInfo::test(
        "playback",
        "Advanced physical playback",
        DeviceDirection::Output,
        false,
        false,
    );
    let capture = DeviceInfo::test(
        "capture",
        "Advanced physical capture",
        DeviceDirection::Input,
        false,
        false,
    );
    let first = manual_route(&playback, &capture);
    let second = manual_route(&playback, &capture);

    assert_eq!(first.route_id, second.route_id);
    assert_eq!(first.pairing_confidence, PairingConfidence::Manual);
    assert_eq!(first.pairing_source, PairingSource::Manual);
    assert!(first.manual);
    assert_eq!(first.validation_status, RouteValidationStatus::Ready);
}

#[test]
fn route_ids_distinguish_manual_and_automatic_pairs() {
    let automatic = stable_route_id("playback", Some("capture"), false);
    let manual = stable_route_id("playback", Some("capture"), true);
    assert_ne!(automatic, manual);
    assert_eq!(automatic, stable_route_id("playback", Some("capture"), false));
}

#[test]
fn equal_capture_candidates_remain_ambiguous() {
    let routes = discover_external_routes(
        &[
            capture("capture-a", "CABLE Output (VB-Audio Virtual Cable)"),
            capture("capture-b", "CABLE Output (VB-Audio Virtual Cable)"),
        ],
        &[playback("playback", "CABLE Input (VB-Audio Virtual Cable)")],
    );
    assert_eq!(routes[0].pairing_confidence, PairingConfidence::Ambiguous);
    assert_eq!(routes[0].candidate_capture_devices.len(), 2);
}

#[test]
fn equal_playback_candidates_remain_ambiguous() {
    let routes = discover_external_routes(
        &[capture("capture", "CABLE Output (VB-Audio Virtual Cable)")],
        &[
            playback("playback-a", "CABLE Input (VB-Audio Virtual Cable)"),
            playback("playback-b", "CABLE Input (VB-Audio Virtual Cable)"),
        ],
    );
    assert!(routes
        .iter()
        .all(|route| route.pairing_confidence == PairingConfidence::Ambiguous));
}

#[test]
fn unrelated_families_and_physical_devices_are_never_automatically_paired() {
    let unrelated = discover_external_routes(
        &[capture("capture", "Vendor B Virtual Output")],
        &[playback("playback", "Vendor A Virtual Input")],
    );
    assert_eq!(unrelated[0].pairing_confidence, PairingConfidence::Unpaired);

    let physical = DeviceInfo::test(
        "physical",
        "Physical input microphone",
        DeviceDirection::Input,
        true,
        false,
    );
    let routes =
        discover_external_routes(&[physical], &[playback("playback", "Studio Virtual Input")]);
    assert!(routes[0].capture_device.is_none());
}

#[test]
fn duplicate_ids_and_unpaired_capture_are_reported_conservatively() {
    let captures = [
        capture("same", "CABLE Output (VB-Audio Virtual Cable)"),
        capture("same", "CABLE Output (VB-Audio Virtual Cable)"),
        capture("orphan", "Other Virtual Output"),
    ];
    let routes = discover_external_routes(
        &captures,
        &[playback("playback", "CABLE Input (VB-Audio Virtual Cable)")],
    );
    assert_eq!(routes[0].pairing_confidence, PairingConfidence::Ambiguous);
    assert!(unpaired_capture_devices(&captures, &routes)
        .iter()
        .any(|device| device.id == "orphan"));
}

#[test]
fn no_virtual_playback_means_no_routes() {
    let routes = discover_external_routes(
        &[capture("capture", "Studio Virtual Capture")],
        &[output("speakers", "Speakers", true, false)],
    );
    assert!(routes.is_empty());
}

#[test]
fn optional_purposes_allow_none_but_reject_missing_or_duplicate_ids() {
    let device = |id: &str, name: &str| DeviceInfo::test(id, name, DeviceDirection::Output, false, false);
    let devices = [device("one", "One"), device("two", "Two")];
    assert!(selected_pair("monitor", None, &devices).unwrap().is_none());
    assert_eq!(
        selected_pair("monitor", Some("two"), &devices)
            .unwrap()
            .unwrap()
            .name,
        "Two"
    );
    assert!(selected_pair("monitor", Some("missing"), &devices).is_err());

    let duplicate = [device("same", "One"), device("same", "Two")];
    assert!(selected_pair("monitor", Some("same"), &duplicate).is_err());
}

#[test]
fn route_start_accepts_only_one_resolvable_physical_input() {
    let physical = DeviceInfo::test(
        "physical",
        "Physical microphone",
        DeviceDirection::Input,
        true,
        false,
    );
    let virtual_capture = DeviceInfo::test(
        "virtual",
        "Studio Virtual Capture",
        DeviceDirection::Input,
        false,
        true,
    );
    assert_eq!(
        resolve_physical_input_from(
            "physical",
            "Physical microphone",
            std::slice::from_ref(&physical),
        )
        .unwrap()
        .id,
        "physical"
    );
    assert!(resolve_physical_input_from(
        "virtual",
        "Studio Virtual Capture",
        &[virtual_capture]
    )
    .is_err());
    assert!(resolve_physical_input_from(
        "missing",
        "Physical microphone",
        &[physical.clone(), physical]
    )
    .is_err());
}

fn ready_route() -> ExternalAudioRoute {
    manual_route(
        &DeviceInfo::test(
            "playback",
            "Studio Virtual Playback",
            DeviceDirection::Output,
            false,
            true,
        ),
        &DeviceInfo::test(
            "capture",
            "Studio Virtual Capture",
            DeviceDirection::Input,
            false,
            true,
        ),
    )
}

#[test]
fn ready_inventory_continues_to_dynamic_format_negotiation() {
    assert!(inventory_readiness(&ready_route(), 1, 1, 1).is_none());
}

#[test]
fn missing_input_playback_capture_and_removed_devices_are_precise() {
    let route = ready_route();
    assert_eq!(
        inventory_readiness(&route, 0, 1, 1).unwrap().readiness,
        RouteReadiness::MissingInput
    );
    assert_eq!(
        inventory_readiness(&route, 1, 0, 1).unwrap().readiness,
        RouteReadiness::MissingPlayback
    );
    assert_eq!(
        inventory_readiness(&route, 1, 1, 0).unwrap().readiness,
        RouteReadiness::MissingCapture
    );
}

#[test]
fn ambiguous_and_incompatible_routes_do_not_become_ready() {
    let ambiguous = discover_external_routes(
        &[
            DeviceInfo::test(
                "capture-a",
                "Studio Virtual Capture",
                DeviceDirection::Input,
                false,
                true,
            ),
            DeviceInfo::test(
                "capture-b",
                "Studio Virtual Capture",
                DeviceDirection::Input,
                false,
                true,
            ),
        ],
        &[DeviceInfo::test(
            "playback",
            "Studio Virtual Playback",
            DeviceDirection::Output,
            false,
            true,
        )],
    );
    assert_eq!(
        inventory_readiness(&ambiguous[0], 1, 1, 2)
            .unwrap()
            .readiness,
        RouteReadiness::AmbiguousPair
    );

    let mut incompatible = ready_route();
    incompatible.validation_status = RouteValidationStatus::IncompatibleFormat;
    incompatible
        .compatibility
        .common_virtual_sample_rates
        .clear();
    assert_eq!(
        inventory_readiness(&incompatible, 1, 1, 1)
            .unwrap()
            .readiness,
        RouteReadiness::IncompatibleFormat
    );
}

#[test]
fn first_launch_is_balanced_on_use() {
    let defaults = ApplicationSettingsDocument::default();
    assert_eq!(defaults.last_page, ApplicationPage::Use);
    assert_eq!(defaults.reliability_profile, ReliabilityProfile::Balanced);
}

#[test]
fn physical_speakers_are_not_an_automatic_processed_destination() {
    let resolved = resolve_device_selections(
        &ApplicationSettingsDocument::default(),
        &[input("mic", "Realtek microphone", true, false)],
        &[output("speakers", "Realtek speakers", true, false)],
    );
    assert_eq!(resolved.selected_input_id.as_deref(), Some("mic"));
    assert_eq!(resolved.external_route_playback_id, None);
    assert_eq!(resolved.local_monitor_id.as_deref(), Some("speakers"));
}

#[test]
fn unique_virtual_output_is_the_only_automatic_destination() {
    let resolved = resolve_device_selections(
        &ApplicationSettingsDocument::default(),
        &[input("mic", "Microphone", true, false)],
        &[
            output("speakers", "Speakers", true, false),
            output("virtual", "Virtual Audio Router", false, true),
        ],
    );
    assert_eq!(
        resolved.external_route_playback_id.as_deref(),
        Some("virtual")
    );
}

#[test]
fn route_endpoints_restore_only_by_unique_identity_or_friendly_name() {
    let document = ApplicationSettingsDocument {
        external_route_playback_device_id: Some("old-playback".to_owned()),
        last_known_external_route_playback_name: Some("Studio Playback".to_owned()),
        external_route_capture_device_id: Some("old-capture".to_owned()),
        last_known_external_route_capture_name: Some("Studio Capture".to_owned()),
        ..ApplicationSettingsDocument::default()
    };
    let resolved = resolve_device_selections(
        &document,
        &[
            input("new-capture", "Studio Capture", false, true),
            input("mic", "Physical microphone", true, false),
        ],
        &[output("new-playback", "Studio Playback", false, true)],
    );
    assert_eq!(
        resolved.external_route_playback_id.as_deref(),
        Some("new-playback")
    );
    assert_eq!(
        resolved.external_route_capture_id.as_deref(),
        Some("new-capture")
    );
    assert!(resolved.restoration_warning.is_some());
}

#[test]
fn missing_or_ambiguous_capture_is_never_silently_restored() {
    let document = ApplicationSettingsDocument {
        external_route_capture_device_id: Some("old-capture".to_owned()),
        last_known_external_route_capture_name: Some("Duplicate Capture".to_owned()),
        ..ApplicationSettingsDocument::default()
    };
    let resolved = resolve_device_selections(
        &document,
        &[
            input("first", "Duplicate Capture", false, true),
            input("second", "Duplicate Capture", false, true),
            input("mic", "Physical microphone", true, false),
        ],
        &[],
    );
    assert_eq!(resolved.external_route_capture_id, None);
    assert!(resolved
        .restoration_warning
        .as_deref()
        .is_some_and(|warning| warning.contains("no safe automatic fallback")));
}

fn catalog_of(routes: Vec<ExternalAudioRoute>) -> mam_voice::external_route::ExternalAudioRouteCatalog {
    mam_voice::external_route::ExternalAudioRouteCatalog {
        routes,
        virtual_playback_devices: Vec::new(),
        virtual_capture_devices: Vec::new(),
        unpaired_capture_devices: Vec::new(),
        selected_route_id: None,
        restoration_warning: None,
    }
}

#[test]
fn route_check_answers_or_hands_over_to_negotiation() {
    let inputs = vec![
        capture("capture", "CABLE Output (VB-Audio Virtual Cable)"),
        input("mic", "USB Microphone", true, false),
    ];
    let outputs = vec![playback("playback", "CABLE Input (VB-Audio Virtual Cable)")];
    let routes = discover_external_routes(&inputs, &outputs);
    let route_id = routes[0].route_id.clone();
    let catalog = catalog_of(routes);

    match check_route_inventory(EngineState::Stopped, route_id.clone(), "mic", &catalog, &inputs, &outputs) {
        RouteCheck::Negotiate { input_index, route_index } => {
            assert_eq!(input_index, 1);
            assert_eq!(route_index, 0);
        }
        RouteCheck::Answered(answer) => panic!("unexpected answer: {}", answer.message),
    }

    match check_route_inventory(EngineState::Error, route_id.clone(), "gone", &catalog, &inputs, &outputs) {
        RouteCheck::Answered(answer) => {
            assert_eq!(answer.readiness, RouteReadiness::MissingInput);
            assert_eq!(answer.route_id.as_deref(), Some(route_id.as_str()));
            assert!(answer.capture_endpoint_available);
        }
        RouteCheck::Negotiate { .. } => panic!("a missing microphone cannot be negotiated"),
    }

    match check_route_inventory(EngineState::Stopped, route_id.clone(), "mic", &catalog, &inputs, &[]) {
        RouteCheck::Answered(answer) => {
            assert_eq!(answer.readiness, RouteReadiness::MissingPlayback);
        }
        RouteCheck::Negotiate { .. } => panic!("a missing playback endpoint cannot be negotiated"),
    }

    match check_route_inventory(EngineState::Stopped, "other".to_owned(), "mic", &catalog, &inputs, &outputs) {
        RouteCheck::Answered(answer) => assert_eq!(answer.readiness, RouteReadiness::DeviceUnavailable),
        RouteCheck::Negotiate { .. } => panic!("an unknown route cannot be negotiated"),
    }

    match check_route_inventory(EngineState::Running, route_id, "mic", &catalog, &inputs, &outputs) {
        RouteCheck::Answered(answer) => assert_eq!(answer.readiness, RouteReadiness::EngineActive),
        RouteCheck::Negotiate { .. } => panic!("a live engine blocks the check"),
    }
}
