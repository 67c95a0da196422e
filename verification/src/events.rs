//! Normalization of native disk notifications into storage events.
//!
//! The platform backend resolves a notification's record, probes free
//! space where needed, and hands the primitive values here; these
//! functions decide which events to emit and in what order. The backend
//! sends them into the client channel in exactly the returned order.

use vstd::prelude::*;

use crate::ids::{DeviceId, VolumeId};
use crate::model::StorageEvent;
use crate::record::{get_device_info, get_volume_info, spec_device_of, spec_volume_of, DiskRecord};

verus! {

/// Events for a disk-appeared notification: the device, then its volume.
/// A client that already knows the id treats the add as an upsert.
pub fn appeared_events(rec: &DiskRecord, free_probe: Option<u64>) -> (es: Vec<StorageEvent>)
    ensures
        es@.len() == 2,
        (es@[0] matches StorageEvent::AddDevice { device } && device@ == spec_device_of(rec@)),
        (es@[1] matches StorageEvent::AddVolume { volume } && volume@ == spec_volume_of(
            rec@,
            free_probe,
        )),
{
    let device = get_device_info(rec);
    let volume = get_volume_info(rec, free_probe);
    let mut es: Vec<StorageEvent> = Vec::new();
    es.push(StorageEvent::AddDevice { device });
    es.push(StorageEvent::AddVolume { volume });
    es
}

/// Events for a description-changed notification.
///
/// A change is reported exactly like an appearance — add events, not
/// update events — and the client upserts on add; this mirroring is
/// deliberate and part of the event contract.
pub fn changed_events(rec: &DiskRecord, free_probe: Option<u64>) -> (es: Vec<StorageEvent>)
    ensures
        es@.len() == 2,
        (es@[0] matches StorageEvent::AddDevice { device } && device@ == spec_device_of(rec@)),
        (es@[1] matches StorageEvent::AddVolume { volume } && volume@ == spec_volume_of(
            rec@,
            free_probe,
        )),
{
    appeared_events(rec, free_probe)
}

/// Events for a disk-disappeared notification, computed from whatever ids
/// the (possibly partially torn-down) record still carried.
///
/// The volume removal always precedes the device removal, so a consumer
/// never observes a device-less orphan volume reference after a device
/// removal.
pub fn disappeared_events(rec: &DiskRecord) -> (es: Vec<StorageEvent>)
    ensures
        es@.len() == (if rec@.volume_uuid is Some {
            1int
        } else {
            0int
        }) + (if rec@.device_path is Some {
            1int
        } else {
            0int
        }),
        (rec@.volume_uuid matches Some(u) ==> (es@[0] matches StorageEvent::RemoveVolume { id }
            && id@ == u)),
        (rec@.device_path matches Some(p) ==> (es@[es@.len() - 1]
            matches StorageEvent::RemoveDevice { id } && id@ == p)),
        forall|i: int, j: int|
            0 <= i < es@.len() && 0 <= j < es@.len() && es@[i] is RemoveVolume && es@[j]
                is RemoveDevice ==> i < j,
        forall|i: int| 0 <= i < es@.len() ==> (es@[i] is RemoveVolume || es@[i] is RemoveDevice),
{
    let mut es: Vec<StorageEvent> = Vec::new();
    match &rec.volume_uuid {
        Some(u) => {
            es.push(StorageEvent::RemoveVolume { id: VolumeId(u.clone()) });
        },
        None => {},
    }
    match &rec.device_path {
        Some(p) => {
            es.push(StorageEvent::RemoveDevice { id: DeviceId(p.clone()) });
        },
        None => {},
    }
    es
}

} // verus!
