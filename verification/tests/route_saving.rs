use mam_voice::application_settings::{
    ApplicationSettingsDocument, ApplicationSettingsError, ApplicationSettingsStore,
};
use mam_voice::commands::external_routes::{
    build_catalog, delete_external_route, route_to_save, save_external_route,
    selected_saved_route, SaveExternalAudioRouteRequest,
};
use mam_voice::device::{DeviceDirection, DeviceInfo};
use mam_voice::engine_state::EngineState;
use mam_voice::external_route::{stable_route_id, PairingConfidence, PairingSource};

fn cable_playback() -> DeviceInfo {
    DeviceInfo::test(
        "playback",
        "CABLE Input (VB-Audio Virtual Cable)",
        DeviceDirection::Output,
        false,
        true,
    )
}

fn cable_capture() -> DeviceInfo {
    DeviceInfo::test(
        "capture",
        "CABLE Output (VB-Audio Virtual Cable)",
        DeviceDirection::Input,
        false,
        true,
    )
}

fn speakers() -> DeviceInfo {
    DeviceInfo::test("speakers", "Speakers", DeviceDirection::Output, true, false)
}

fn request(candidate: Option<&str>, playback: &str, capture: &str, confirm: bool) -> SaveExternalAudioRouteRequest {
    SaveExternalAudioRouteRequest {
        candidate_route_id: candidate.map(|c| c.to_owned()),
        playback_device_id: playback.to_owned(),
        capture_device_id: capture.to_owned(),
        confirm_physical_endpoints: confirm,
    }
}

fn fresh_store() -> ApplicationSettingsStore {
    ApplicationSettingsStore::load(Ok((ApplicationSettingsDocument::default(), false)), |_| Ok(()))
}

#[test]
fn saving_the_same_endpoint_twice_is_refused() {
    let error = route_to_save(
        &request(None, "same", "same", true),
        &[cable_capture()],
        &[cable_playback()],
    )
    .unwrap_err();
    assert_eq!(error, "Playback and capture endpoints must be different directional devices.");
}

#[test]
fn saving_a_missing_or_shared_endpoint_is_refused() {
    let missing = route_to_save(
        &request(None, "gone", "capture", true),
        &[cable_capture()],
        &[cable_playback()],
    )
    .unwrap_err();
    assert_eq!(missing, "The selected playback endpoint is no longer available.");
    let shared = route_to_save(
        &request(None, "playback", "capture", true),
        &[cable_capture(), cable_capture()],
        &[cable_playback()],
    )
    .unwrap_err();
    assert_eq!(
        shared,
        "The selected capture endpoint identifier is ambiguous because multiple endpoints share its friendly-name fingerprint."
    );
}

#[test]
fn a_named_ready_discovered_route_is_saved_as_discovered() {
    let id = stable_route_id("playback", Some("capture"), false);
    let route = route_to_save(
        &request(Some(&id), "playback", "capture", false),
        &[cable_capture()],
        &[cable_playback()],
    )
    .unwrap();
    assert_eq!(route.route_id, id);
    assert!(!route.manual);
    assert_eq!(route.pairing_confidence, PairingConfidence::Exact);
}

#[test]
fn a_physical_manual_pair_needs_confirmation() {
    let physical_capture = DeviceInfo::test("mic", "Microphone", DeviceDirection::Input, true, false);
    let refused = route_to_save(
        &request(None, "playback", "mic", false),
        &[physical_capture.clone()],
        &[cable_playback()],
    )
    .unwrap_err();
    assert_eq!(
        refused,
        "This manual pair contains a likely physical endpoint. Confirm the advanced physical-endpoint warning before saving."
    );
    let confirmed = route_to_save(
        &request(None, "playback", "mic", true),
        &[physical_capture],
        &[cable_playback()],
    )
    .unwrap();
    assert!(confirmed.manual);
    assert_eq!(confirmed.pairing_source, PairingSource::Manual);
    assert_eq!(confirmed.route_id, stable_route_id("playback", Some("mic"), true));
}

#[test]
fn routing_cannot_change_while_audio_runs() {
    let mut store = fresh_store();
    let error = save_external_route(
        EngineState::Running,
        &request(None, "playback", "capture", true),
        &mut store,
        &[cable_capture()],
        &[cable_playback()],
        |_| Ok(()),
    )
    .unwrap_err();
    assert_eq!(error, "Stop the active Use or Test route before changing external routing.");
    assert!(store.document().external_route_playback_device_id.is_none());
}

#[test]
fn a_saved_manual_pair_is_stored_selected_and_usable() {
    let mut store = fresh_store();
    let inputs = [cable_capture()];
    let outputs = [cable_playback(), speakers()];
    let catalog = save_external_route(
        EngineState::Stopped,
        &request(None, "playback", "capture", false),
        &mut store,
        &inputs,
        &outputs,
        |_| Ok(()),
    )
    .unwrap();
    let manual_id = stable_route_id("playback", Some("capture"), true);
    assert_eq!(catalog.selected_route_id.as_deref(), Some(manual_id.as_str()));
    assert_eq!(catalog.routes.len(), 2);
    assert!(store.document().external_route_manual);
    assert_eq!(store.document().external_route_capture_device_id.as_deref(), Some("capture"));
    let route = selected_saved_route(catalog, &manual_id).unwrap();
    assert!(route.manual);
}

#[test]
fn a_failed_write_leaves_the_settings_unchanged() {
    let mut store = fresh_store();
    let error = save_external_route(
        EngineState::Error,
        &request(None, "playback", "capture", false),
        &mut store,
        &[cable_capture()],
        &[cable_playback()],
        |_| Err(ApplicationSettingsError::Storage("disk full".to_owned())),
    )
    .unwrap_err();
    assert_eq!(error, "Application settings storage failed: disk full");
    assert!(store.document().selected_external_route_id.is_none());
}

#[test]
fn deleting_forgets_the_route_only() {
    let mut store = fresh_store();
    let inputs = [DeviceInfo::test("mic", "Microphone", DeviceDirection::Input, true, false)];
    let outputs = [speakers()];
    save_external_route(
        EngineState::Stopped,
        &request(None, "speakers", "mic", true),
        &mut store,
        &inputs,
        &outputs,
        |_| Ok(()),
    )
    .unwrap();
    assert!(store.document().external_route_manual);
    let page = store.document().last_page;
    let catalog = delete_external_route(EngineState::Stopped, &mut store, &inputs, &outputs, |_| Ok(())).unwrap();
    assert!(store.document().external_route_playback_device_id.is_none());
    assert!(store.document().selected_external_route_id.is_none());
    assert!(!store.document().external_route_manual);
    assert_eq!(store.document().last_page, page);
    assert!(catalog.routes.is_empty());
    assert_eq!(catalog.selected_route_id, None);
}

#[test]
fn only_the_saved_ready_route_can_start_use() {
    let mut store = fresh_store();
    let inputs = [cable_capture()];
    let outputs = [cable_playback()];
    let catalog = build_catalog(&mut store, &inputs, &outputs, |_| Ok(()));
    let id = stable_route_id("playback", Some("capture"), false);
    assert_eq!(
        selected_saved_route(catalog, "unknown").unwrap_err(),
        "The selected external route is unavailable. Refresh devices and select it again."
    );
    let catalog = build_catalog(&mut store, &inputs, &outputs, |_| Ok(()));
    assert_eq!(selected_saved_route(catalog, &id).unwrap().route_id, id);
}

#[test]
fn a_shown_route_that_is_not_the_saved_one_cannot_start_use() {
    let mut store = fresh_store();
    let inputs = [cable_capture()];
    let outputs = [cable_playback()];
    let catalog = save_external_route(
        EngineState::Stopped,
        &request(None, "playback", "capture", false),
        &mut store,
        &inputs,
        &outputs,
        |_| Ok(()),
    )
    .unwrap();
    let automatic = stable_route_id("playback", Some("capture"), false);
    assert_eq!(
        selected_saved_route(catalog, &automatic).unwrap_err(),
        "Save the external route before starting Use."
    );
}

#[test]
fn a_stored_playback_endpoint_is_upgraded_to_its_one_ready_route() {
    let document = ApplicationSettingsDocument {
        external_route_playback_device_id: Some("playback".to_owned()),
        last_known_external_route_playback_name: Some("CABLE Input (VB-Audio Virtual Cable)".to_owned()),
        ..ApplicationSettingsDocument::default()
    };
    let mut store = ApplicationSettingsStore::load(Ok((document, false)), |_| Ok(()));
    let catalog = build_catalog(&mut store, &[cable_capture()], &[cable_playback()], |_| Ok(()));
    let id = stable_route_id("playback", Some("capture"), false);
    assert_eq!(catalog.selected_route_id.as_deref(), Some(id.as_str()));
    assert_eq!(store.document().external_route_capture_device_id.as_deref(), Some("capture"));
}

#[test]
fn an_upgrade_that_cannot_be_stored_is_reported() {
    let document = ApplicationSettingsDocument {
        external_route_playback_device_id: Some("playback".to_owned()),
        last_known_external_route_playback_name: Some("CABLE Input (VB-Audio Virtual Cable)".to_owned()),
        ..ApplicationSettingsDocument::default()
    };
    let mut store = ApplicationSettingsStore::load(Ok((document, false)), |_| Ok(()));
    let catalog = build_catalog(&mut store, &[cable_capture()], &[cable_playback()], |_| {
        Err(ApplicationSettingsError::Storage("read-only".to_owned()))
    });
    assert_eq!(catalog.selected_route_id, None);
    assert_eq!(
        catalog.restoration_warning.as_deref(),
        Some(" Conservative route pairing was found but could not be persisted: Application settings storage failed: read-only")
    );
    assert!(store.document().external_route_capture_device_id.is_none());
}

#[test]
fn a_saved_discovered_route_is_selected_afterwards() {
    let mut store = fresh_store();
    let inputs = [cable_capture()];
    let outputs = [cable_playback(), speakers()];
    let id = stable_route_id("playback", Some("capture"), false);
    let catalog = save_external_route(
        EngineState::Stopped,
        &request(Some(&id), "playback", "capture", false),
        &mut store,
        &inputs,
        &outputs,
        |_| Ok(()),
    )
    .unwrap();
    assert_eq!(catalog.selected_route_id.as_deref(), Some(id.as_str()));
    assert_eq!(catalog.routes.len(), 1);
    assert!(!store.document().external_route_manual);
    let again = build_catalog(&mut store, &inputs, &outputs, |_| Ok(()));
    assert_eq!(again.selected_route_id.as_deref(), Some(id.as_str()));
}
