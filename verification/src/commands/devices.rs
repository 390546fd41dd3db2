use vstd::prelude::*;

use crate::application_settings::{
    join_present_warnings, joined_warnings, opt_chars, resolve_device_selections,
    resolution_spec, ApplicationPage, ApplicationSettingsDocument,
    APPLICATION_SETTINGS_SCHEMA_VERSION,
};
use crate::device::{DeviceInfo, DeviceView};
use crate::external_route::{clone_devices, device_views};
use crate::reliability::ReliabilityProfile;
use crate::text::{from_chars, str_equal, to_chars};
use crate::words::append_chars;

verus! {

/// The endpoints and the restored selections shown on the device pages.
#[derive(Debug)]
pub struct AudioDeviceCatalog {
    pub inputs: Vec<DeviceInfo>,
    pub outputs: Vec<DeviceInfo>,
    pub selected_input_id: Option<String>,
    pub selected_external_route_id: Option<String>,
    pub external_route_playback_id: Option<String>,
    pub external_route_capture_id: Option<String>,
    pub local_monitor_id: Option<String>,
    pub reliability_profile: ReliabilityProfile,
    pub last_page: ApplicationPage,
    pub has_likely_virtual_destination: bool,
    pub restoration_warning: Option<String>,
}

/// The selections a user saves from the device pages.
#[derive(Debug)]
pub struct SaveApplicationSettingsRequest {
    pub selected_input_id: Option<String>,
    pub local_monitor_id: Option<String>,
    pub reliability_profile: ReliabilityProfile,
    pub last_page: ApplicationPage,
}

/// Some endpoint carries the identifier.
pub open spec fn any_with_id(devices: Seq<DeviceView>, id: Seq<char>) -> bool {
    exists|k: int| 0 <= k < devices.len() && (#[trigger] devices[k]).id == id
}

/// Two endpoints carry the identifier.
pub open spec fn two_with_id(devices: Seq<DeviceView>, id: Seq<char>) -> bool {
    exists|a: int, b: int|
        0 <= a < b < devices.len() && (#[trigger] devices[a]).id == id && (#[trigger] devices[b]).id
            == id
}

pub open spec fn unavailable_message(purpose: Seq<char>) -> Seq<char> {
    "The selected "@ + purpose + " is no longer available. Refresh devices and choose again."@
}

pub open spec fn ambiguous_message(purpose: Seq<char>) -> Seq<char> {
    "The selected "@ + purpose
        + " identifier is ambiguous. Refresh devices and choose an unambiguous endpoint."@
}

/// Finds the first endpoint with the identifier at or after `from`, and whether a
/// second one follows it.
fn find_id(devices: &[DeviceInfo], id: &str) -> (found: (Option<usize>, bool))
    ensures
        match found.0 {
            None => !any_with_id(device_views(devices@), id@),
            Some(k) => {
                &&& k < devices@.len()
                &&& devices@[k as int]@.id == id@
                &&& any_with_id(device_views(devices@), id@)
                &&& forall|j: int| 0 <= j < k ==> devices@[j]@.id != id@
                &&& found.1 == two_with_id(device_views(devices@), id@)
            },
        },
{
    let ghost views = device_views(devices@);
    let mut first: Option<usize> = None;
    let mut second = false;
    let mut i: usize = 0;
    while i < devices.len()
        invariant
            i <= devices@.len(),
            views == device_views(devices@),
            views.len() == devices@.len(),
            first is None ==> forall|j: int| 0 <= j < i ==> views[j].id != id@,
            first is None ==> !second,
            first matches Some(k) ==> k < i && views[k as int].id == id@ && forall|j: int|
                0 <= j < k ==> views[j].id != id@,
            first matches Some(k) ==> second == exists|b: int| k < b < i && views[b].id == id@,
        decreases devices@.len() - i,
    {
        assert(views[i as int] == devices@[i as int]@);
        if str_equal(devices[i].id.as_str(), id) {
            if first.is_none() {
                first = Some(i);
            } else {
                second = true;
            }
        }
        i = i + 1;
    }
    proof {
        match first {
            None => {
                assert forall|k: int| 0 <= k < views.len() implies (#[trigger] views[k]).id != id@ by {}
            },
            Some(k) => {
                assert(views[k as int] == devices@[k as int]@);
                assert forall|j: int| 0 <= j < k implies devices@[j]@.id != id@ by {
                    assert(views[j] == devices@[j]@);
                }
                if second {
                    let b = choose|b: int| k < b < i && views[b].id == id@;
                    assert(views[k as int].id == id@ && views[b].id == id@);
                }
                if two_with_id(views, id@) {
                    let (a, b) = choose|a: int, b: int|
                        0 <= a < b < views.len() && (#[trigger] views[a]).id == id@
                            && (#[trigger] views[b]).id == id@;
                    assert(b > k as int);
                }
            },
        }
    }
    (first, second)
}

fn purpose_message(head: &str, purpose: &str, tail: &str) -> (message: String)
    ensures
        message@ == head@ + purpose@ + tail@,
{
    let mut t = to_chars(head);
    append_chars(&mut t, to_chars(purpose).as_slice());
    append_chars(&mut t, to_chars(tail).as_slice());
    from_chars(t.as_slice())
}

/// The endpoint a user selected by identifier: none when nothing was selected, an
/// error when it is gone or when its identifier is shared.
pub fn selected_pair<'a>(purpose: &str, id: Option<&str>, devices: &'a [DeviceInfo]) -> (result:
    Result<Option<&'a DeviceInfo>, String>)
    ensures
        match id {
            None => result matches Ok(None),
            Some(id) => if !any_with_id(device_views(devices@), id@) {
                result matches Err(m) && m@ == unavailable_message(purpose@)
            } else if two_with_id(device_views(devices@), id@) {
                result matches Err(m) && m@ == ambiguous_message(purpose@)
            } else {
                result matches Ok(Some(d)) && d@.id == id@ && exists|k: int|
                    0 <= k < devices@.len() && devices@[k] == *d
            },
        },
{
    let id = match id {
        None => return Ok(None),
        Some(id) => id,
    };
    let (first, second) = find_id(devices, id);
    match first {
        None => Err(
            purpose_message(
                "The selected ",
                purpose,
                " is no longer available. Refresh devices and choose again.",
            ),
        ),
        Some(k) => {
            if second {
                Err(
                    purpose_message(
                        "The selected ",
                        purpose,
                        " identifier is ambiguous. Refresh devices and choose an unambiguous endpoint.",
                    ),
                )
            } else {
                Ok(Some(&devices[k]))
            }
        },
    }
}

/// Both warnings, when present, joined by a space; none when neither is present.
pub fn join_warnings(first: Option<String>, second: Option<String>) -> (joined: Option<String>)
    ensures
        opt_chars(joined) == joined_warnings(seq![opt_chars(first), opt_chars(second)]),
{
    let ghost ws = seq![opt_chars(first), opt_chars(second)];
    let mut warnings: Vec<Option<String>> = Vec::new();
    warnings.push(first);
    warnings.push(second);
    assert(warnings@.map_values(|w: Option<String>| opt_chars(w)) =~= ws);
    join_present_warnings(warnings)
}

/// Whether some output endpoint is likely virtual.
pub fn has_likely_virtual(devices: &[DeviceInfo]) -> (found: bool)
    ensures
        found == exists|k: int| 0 <= k < devices@.len() && (#[trigger] devices@[k]).is_likely_virtual,
{
    let mut i: usize = 0;
    while i < devices.len()
        invariant
            i <= devices@.len(),
            forall|j: int| 0 <= j < i ==> !(#[trigger] devices@[j]).is_likely_virtual,
        decreases devices@.len() - i,
    {
        if devices[i].is_likely_virtual {
            return true;
        }
        i = i + 1;
    }
    false
}

/// The catalog shown for the current endpoints and stored settings.
pub fn audio_device_catalog(
    inputs: Vec<DeviceInfo>,
    outputs: Vec<DeviceInfo>,
    document: &ApplicationSettingsDocument,
    startup_warning: Option<String>,
) -> (catalog: AudioDeviceCatalog)
    ensures
        device_views(catalog.inputs@) == device_views(inputs@),
        device_views(catalog.outputs@) == device_views(outputs@),
        ({
            let r = resolution_spec(*document, device_views(inputs@), device_views(outputs@));
            &&& opt_chars(catalog.selected_input_id) == r.0
            &&& opt_chars(catalog.external_route_playback_id) == r.1
            &&& opt_chars(catalog.external_route_capture_id) == r.2
            &&& opt_chars(catalog.local_monitor_id) == r.3
            &&& opt_chars(catalog.restoration_warning) == joined_warnings(
                seq![opt_chars(startup_warning), r.4],
            )
        }),
        catalog.selected_external_route_id == document.selected_external_route_id,
        catalog.reliability_profile == document.reliability_profile,
        catalog.last_page == document.last_page,
        catalog.has_likely_virtual_destination == exists|k: int|
            0 <= k < outputs@.len() && (#[trigger] outputs@[k]).is_likely_virtual,
{
    let resolved = resolve_device_selections(document, inputs.as_slice(), outputs.as_slice());
    let restoration_warning = join_warnings(startup_warning, resolved.restoration_warning);
    let has_likely_virtual_destination = has_likely_virtual(outputs.as_slice());
    let selected_external_route_id = match &document.selected_external_route_id {
        Some(s) => Some(s.clone()),
        None => None,
    };
    AudioDeviceCatalog {
        inputs,
        outputs,
        selected_input_id: resolved.selected_input_id,
        selected_external_route_id,
        external_route_playback_id: resolved.external_route_playback_id,
        external_route_capture_id: resolved.external_route_capture_id,
        local_monitor_id: resolved.local_monitor_id,
        reliability_profile: document.reliability_profile,
        last_page: document.last_page,
        has_likely_virtual_destination,
        restoration_warning,
    }
}

/// The message when a virtual endpoint is chosen as the application input.
pub open spec fn virtual_input_message() -> Seq<char> {
    "The application input must be a physical capture endpoint."@
}

/// The settings saved from the device pages: the chosen input and monitor (by
/// identifier and friendly name), the profile and page, and the stored route kept.
pub fn settings_for_request(
    request: &SaveApplicationSettingsRequest,
    existing: &ApplicationSettingsDocument,
    input: Option<&DeviceInfo>,
    monitor: Option<&DeviceInfo>,
) -> (result: Result<ApplicationSettingsDocument, String>)
    ensures
        (input matches Some(d) && d.is_likely_virtual) ==> (result matches Err(m) && m@
            == virtual_input_message()),
        !(input matches Some(d) && d.is_likely_virtual) ==> (result matches Ok(doc) && {
            &&& doc.schema_version == APPLICATION_SETTINGS_SCHEMA_VERSION
            &&& opt_chars(doc.selected_input_device_id) == match input {
                Some(d) => Some(d.id@),
                None => None,
            }
            &&& opt_chars(doc.last_known_input_friendly_name) == match input {
                Some(d) => Some(d.name@),
                None => None,
            }
            &&& opt_chars(doc.local_monitor_device_id) == match monitor {
                Some(d) => Some(d.id@),
                None => None,
            }
            &&& opt_chars(doc.last_known_local_monitor_friendly_name) == match monitor {
                Some(d) => Some(d.name@),
                None => None,
            }
            &&& doc.selected_external_route_id == existing.selected_external_route_id
            &&& doc.external_route_playback_device_id == existing.external_route_playback_device_id
            &&& doc.last_known_external_route_playback_name
                == existing.last_known_external_route_playback_name
            &&& doc.external_route_capture_device_id == existing.external_route_capture_device_id
            &&& doc.last_known_external_route_capture_name
                == existing.last_known_external_route_capture_name
            &&& doc.external_route_pairing_source == existing.external_route_pairing_source
            &&& doc.external_route_manual == existing.external_route_manual
            &&& doc.reliability_profile == request.reliability_profile
            &&& doc.last_page == request.last_page
        }),
{
    if let Some(d) = input {
        if d.is_likely_virtual {
            return Err(
                from_chars(
                    to_chars("The application input must be a physical capture endpoint.").as_slice(),
                ),
            );
        }
    }
    let existing = existing.clone();
    Ok(
        ApplicationSettingsDocument {
            schema_version: APPLICATION_SETTINGS_SCHEMA_VERSION,
            selected_input_device_id: match input {
                Some(d) => Some(d.id.clone()),
                None => None,
            },
            last_known_input_friendly_name: match input {
                Some(d) => Some(d.name.clone()),
                None => None,
            },
            selected_external_route_id: existing.selected_external_route_id,
            external_route_playback_device_id: existing.external_route_playback_device_id,
            last_known_external_route_playback_name: existing.last_known_external_route_playback_name,
            external_route_capture_device_id: existing.external_route_capture_device_id,
            last_known_external_route_capture_name: existing.last_known_external_route_capture_name,
            external_route_pairing_source: existing.external_route_pairing_source,
            external_route_manual: existing.external_route_manual,
            local_monitor_device_id: match monitor {
                Some(d) => Some(d.id.clone()),
                None => None,
            },
            last_known_local_monitor_friendly_name: match monitor {
                Some(d) => Some(d.name.clone()),
                None => None,
            },
            reliability_profile: request.reliability_profile,
            last_page: request.last_page,
        },
    )
}

} // verus!
