use vstd::prelude::*;

use crate::controller::StartAudioRequest;
use crate::device::{has_only_index, only_index, DeviceInfo, DeviceView};
use crate::external_route::{device_views, ExternalAudioRoute};
use crate::reliability::ReliabilityProfile;
use crate::text::{chars_equal, from_chars, normalize_name, normalized_name, str_equal, to_chars};

verus! {

/// A start request as the user interface sends it: Use names a saved external route,
/// Test names a local monitor.
#[derive(Debug)]
pub enum StartEngineRequest {
    Use {
        input_id: String,
        input_name: String,
        external_route_id: String,
        reliability_profile: ReliabilityProfile,
    },
    Test {
        input_id: String,
        input_name: String,
        monitor_id: String,
        monitor_name: String,
        reliability_profile: ReliabilityProfile,
    },
}

/// The input at `i` is physical and carries the identifier.
pub open spec fn physical_with_id(inputs: Seq<DeviceView>, id: Seq<char>) -> spec_fn(int) -> bool {
    |i: int| inputs[i].id == id && !inputs[i].is_likely_virtual
}

/// The input at `i` is physical and carries the friendly name.
pub open spec fn physical_with_name(inputs: Seq<DeviceView>, name: Seq<char>) -> spec_fn(int) -> bool {
    |i: int| !inputs[i].is_likely_virtual && normalized_name(inputs[i].name) == normalized_name(name)
}

pub open spec fn input_unavailable_message() -> Seq<char> {
    "The selected physical input is unavailable or ambiguous. Refresh devices and select it again."@
}

/// Resolves the physical input to start with: the unique physical input with the
/// identifier, else the unique physical input with the friendly name.
pub fn resolve_physical_input_from(id: &str, friendly_name: &str, inputs: &[DeviceInfo]) -> (result:
    Result<DeviceInfo, String>)
    ensures
        ({
            let views = device_views(inputs@);
            let n = inputs@.len() as int;
            match result {
                Ok(d) => exists|k: int|
                    d@ == views[k] && (only_index(n, physical_with_id(views, id@), k) || (
                    !has_only_index(n, physical_with_id(views, id@)) && only_index(
                        n,
                        physical_with_name(views, friendly_name@),
                        k,
                    ))),
                Err(m) => m@ == input_unavailable_message() && !has_only_index(
                    n,
                    physical_with_id(views, id@),
                ) && !has_only_index(n, physical_with_name(views, friendly_name@)),
            }
        }),
{
    let ghost views = device_views(inputs@);
    let ghost n = inputs@.len() as int;
    let wanted = normalize_name(friendly_name);
    let mut id_hits: Vec<bool> = Vec::new();
    let mut name_hits: Vec<bool> = Vec::new();
    let mut i: usize = 0;
    while i < inputs.len()
        invariant
            i <= inputs@.len(),
            views == device_views(inputs@),
            wanted@ == normalized_name(friendly_name@),
            id_hits@.len() == i,
            name_hits@.len() == i,
            forall|j: int| 0 <= j < i ==> id_hits@[j] == physical_with_id(views, id@)(j),
            forall|j: int| 0 <= j < i ==> name_hits@[j] == physical_with_name(views, friendly_name@)(j),
        decreases inputs@.len() - i,
    {
        let d = &inputs[i];
        assert(views[i as int] == d@);
        id_hits.push(str_equal(d.id.as_str(), id) && !d.is_likely_virtual);
        let candidate = normalize_name(d.name.as_str());
        name_hits.push(!d.is_likely_virtual && chars_equal(candidate.as_slice(), wanted.as_slice()));
        i = i + 1;
    }
    proof {
        crate::device::lemma_hits_describe(id_hits@, n, physical_with_id(views, id@));
        crate::device::lemma_hits_describe(name_hits@, n, physical_with_name(views, friendly_name@));
    }
    if let Some(k) = crate::device::only_hit(&id_hits) {
        assert(views[k as int] == inputs@[k as int]@);
        return Ok(inputs[k].clone());
    }
    if let Some(k) = crate::device::only_hit(&name_hits) {
        assert(views[k as int] == inputs@[k as int]@);
        return Ok(inputs[k].clone());
    }
    Err(
        from_chars(
            to_chars(
                "The selected physical input is unavailable or ambiguous. Refresh devices and select it again.",
            ).as_slice(),
        ),
    )
}

/// The live request for a start: the resolved physical input, and for Use the saved
/// route's playback endpoint as the processed destination.
pub fn start_audio_request(
    request: StartEngineRequest,
    input: &DeviceInfo,
    route: Option<&ExternalAudioRoute>,
) -> (live: StartAudioRequest)
    requires
        request is Use ==> route is Some,
    ensures
        match (request, live) {
            (
                StartEngineRequest::Use { reliability_profile, .. },
                StartAudioRequest::Use {
                    input_id,
                    input_name,
                    processed_destination_id,
                    processed_destination_name,
                    reliability_profile: profile,
                },
            ) => input_id@ == input.id@ && input_name@ == input.name@ && processed_destination_id@
                == route.unwrap().playback_device.id@ && processed_destination_name@
                == route.unwrap().playback_device.name@ && profile == reliability_profile,
            (
                StartEngineRequest::Test { monitor_id, monitor_name, reliability_profile, .. },
                StartAudioRequest::Test {
                    input_id,
                    input_name,
                    monitor_id: m_id,
                    monitor_name: m_name,
                    reliability_profile: profile,
                },
            ) => input_id@ == input.id@ && input_name@ == input.name@ && m_id == monitor_id
                && m_name == monitor_name && profile == reliability_profile,
            _ => false,
        },
{
    match request {
        StartEngineRequest::Use { reliability_profile, .. } => {
            let route = route.unwrap();
            StartAudioRequest::Use {
                input_id: input.id.clone(),
                input_name: input.name.clone(),
                processed_destination_id: route.playback_device.id.clone(),
                processed_destination_name: route.playback_device.name.clone(),
                reliability_profile,
            }
        },
        StartEngineRequest::Test { monitor_id, monitor_name, reliability_profile, .. } => {
            StartAudioRequest::Test {
                input_id: input.id.clone(),
                input_name: input.name.clone(),
                monitor_id,
                monitor_name,
                reliability_profile,
            }
        },
    }
}

} // verus!
