//! Choosing among the enumerated devices.

use crate::audio_loopback::types::{
    device_models, AudioLoopbackDevice, DeviceModel, DeviceType, LoopbackMethod,
};
use crate::text::same_text;
use vstd::prelude::*;

verus! {

/// Place of a device in the order of preference; a lower rank is preferred.
///
/// With native loopback the default output device comes first. Then any
/// output device, then an input that records what is played, then whatever
/// is left: what is being played is preferred over what is being said.
/// Without native loopback the default device goes before the others that
/// are left.
pub open spec fn selection_rank(d: DeviceModel, native_loopback: bool) -> nat {
    if native_loopback && d.is_default && d.device_type == DeviceType::Render {
        0
    } else if d.device_type == DeviceType::Render {
        1
    } else if d.loopback_method == LoopbackMethod::StereoMix {
        2
    } else if !native_loopback && d.is_default {
        3
    } else {
        4
    }
}

/// `devices[i]` has the best rank of the list and is the first of that rank.
pub open spec fn is_best_choice(devices: Seq<DeviceModel>, native_loopback: bool, i: int) -> bool {
    &&& 0 <= i < devices.len()
    &&& forall|j: int|
        0 <= j < devices.len() ==> selection_rank(devices[i], native_loopback) <= selection_rank(
            #[trigger] devices[j],
            native_loopback,
        )
    &&& forall|j: int|
        0 <= j < i ==> selection_rank(#[trigger] devices[j], native_loopback) != selection_rank(
            devices[i],
            native_loopback,
        )
}

/// `devices[i]` is the first device whose id is `id`.
pub open spec fn is_first_with_id(devices: Seq<DeviceModel>, id: Seq<char>, i: int) -> bool {
    &&& 0 <= i < devices.len()
    &&& devices[i].id == id
    &&& forall|j: int| 0 <= j < i ==> (#[trigger] devices[j]).id != id
}

/// Whether some device of the list has the id `id`.
pub open spec fn has_device(devices: Seq<DeviceModel>, id: Seq<char>) -> bool {
    exists|i: int| 0 <= i < devices.len() && (#[trigger] devices[i]).id == id
}

/// The rank of a device in the order of preference.
pub fn rank_of(d: &AudioLoopbackDevice, native_loopback: bool) -> (r: u8)
    ensures
        r as nat == selection_rank(d@, native_loopback),
{
    if native_loopback && d.is_default && d.device_type == DeviceType::Render {
        0
    } else if d.device_type == DeviceType::Render {
        1
    } else if d.loopback_method == LoopbackMethod::StereoMix {
        2
    } else if !native_loopback && d.is_default {
        3
    } else {
        4
    }
}

/// Index of the device to prefer, if there is any device.
pub fn best_device_index(devices: &Vec<AudioLoopbackDevice>, native_loopback: bool) -> (r: Option<
    usize,
>)
    ensures
        r is None <==> devices.len() == 0,
        r matches Some(i) ==> is_best_choice(device_models(devices@), native_loopback, i as int),
{
    if devices.len() == 0 {
        return None;
    }
    let ghost models = device_models(devices@);
    let mut best: usize = 0;
    let mut best_rank: u8 = rank_of(&devices[0], native_loopback);
    let mut i: usize = 1;
    while i < devices.len()
        invariant
            1 <= i <= devices.len(),
            models == device_models(devices@),
            best < i,
            best_rank as nat == selection_rank(models[best as int], native_loopback),
            forall|j: int|
                0 <= j < i ==> best_rank as nat <= selection_rank(
                    #[trigger] models[j],
                    native_loopback,
                ),
            forall|j: int|
                0 <= j < best ==> selection_rank(#[trigger] models[j], native_loopback)
                    != best_rank as nat,
        decreases devices.len() - i,
    {
        let rank = rank_of(&devices[i], native_loopback);
        if rank < best_rank {
            best = i;
            best_rank = rank;
        }
        i += 1;
    }
    Some(best)
}

/// The device to capture from when the user has chosen none: the first
/// device of the best rank, or `None` for an empty list.
pub fn auto_select_best_device(devices: &Vec<AudioLoopbackDevice>, native_loopback: bool) -> (r:
    Option<AudioLoopbackDevice>)
    ensures
        r is None <==> devices.len() == 0,
        r matches Some(d) ==> exists|i: int|
            #![auto]
            is_best_choice(device_models(devices@), native_loopback, i) && d == devices[i],
{
    match best_device_index(devices, native_loopback) {
        Some(i) => Some(devices[i].clone()),
        None => None,
    }
}

/// Index of the first device with the given id.
pub fn device_index_by_id(devices: &Vec<AudioLoopbackDevice>, device_id: &str) -> (r: Option<usize>)
    ensures
        r is Some <==> has_device(device_models(devices@), device_id@),
        r matches Some(i) ==> is_first_with_id(device_models(devices@), device_id@, i as int),
{
    let ghost models = device_models(devices@);
    let mut i: usize = 0;
    while i < devices.len()
        invariant
            i <= devices.len(),
            models == device_models(devices@),
            forall|j: int| 0 <= j < i ==> (#[trigger] models[j]).id != device_id@,
        decreases devices.len() - i,
    {
        if same_text(devices[i].id.as_str(), device_id) {
            assert(models[i as int].id == device_id@);
            return Some(i);
        }
        i += 1;
    }
    None
}

/// The first device with the given id; an unknown id is no error.
pub fn find_device_by_id(devices: &Vec<AudioLoopbackDevice>, device_id: &str) -> (r: Option<
    AudioLoopbackDevice,
>)
    ensures
        r is Some <==> has_device(device_models(devices@), device_id@),
        r matches Some(d) ==> exists|i: int|
            #![auto]
            is_first_with_id(device_models(devices@), device_id@, i) && d == devices[i],
{
    match device_index_by_id(devices, device_id) {
        Some(i) => Some(devices[i].clone()),
        None => None,
    }
}

/// Where no two devices share an id, every device is the one that is found
/// by its id.
pub proof fn lemma_listed_device_is_found_by_its_id(devices: Seq<DeviceModel>, i: int)
    requires
        0 <= i < devices.len(),
        forall|a: int, b: int|
            0 <= a < b < devices.len() ==> (#[trigger] devices[a]).id != (#[trigger] devices[b]).id,
    ensures
        is_first_with_id(devices, devices[i].id, i),
        has_device(devices, devices[i].id),
        forall|j: int| is_first_with_id(devices, devices[i].id, j) ==> j == i,
{
}

/// Whether a device with the given id is present. No stream is opened.
pub fn test_audio_device(devices: &Vec<AudioLoopbackDevice>, device_id: &str) -> (r: bool)
    ensures
        r == has_device(device_models(devices@), device_id@),
{
    device_index_by_id(devices, device_id).is_some()
}

} // verus!
