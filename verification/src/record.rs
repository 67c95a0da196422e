//! Translation of one disk-description record into a device and a volume.
//!
//! The platform backend reduces a native record to the primitive values in
//! `DiskRecord`; the translators here are pure and total. A missing native
//! field degrades the corresponding output field to `None` (or the default
//! kind) instead of failing the record.

use vstd::prelude::*;

use crate::ids::{DeviceId, VolumeId};
use crate::model::{
    opt_string_view, spec_classify, DeviceKind, DeviceModel, StorageDevice, StorageVolume,
    VolumeModel,
};

verus! {

/// One native disk-description record, reduced to primitive values.
///
/// Every field is independently optional: the backend leaves a field
/// `None` when the native record lacks it or it cannot be read.
#[derive(Clone, Debug)]
pub struct DiskRecord {
    /// The volume's UUID, rendered as a string.
    pub volume_uuid: Option<String>,
    /// The volume's user-visible name.
    pub volume_name: Option<String>,
    /// The volume's mount point, resolved to a filesystem path.
    pub volume_path: Option<String>,
    /// Media size in bytes.
    pub media_size: Option<u64>,
    /// Whether the media is writable.
    pub media_writable: Option<bool>,
    /// The media's UUID, rendered as a string; the stable hardware serial.
    pub media_uuid: Option<String>,
    /// The media's hardware name.
    pub media_name: Option<String>,
    /// Whether the media is considered removable.
    pub media_removable: Option<bool>,
    /// Whether the media is considered ejectable.
    pub media_ejectable: Option<bool>,
    /// Whether the device is inside the computer.
    pub device_internal: Option<bool>,
    /// The device's model string.
    pub device_model: Option<String>,
    /// The native device path. Both the device's id and the volume's
    /// owning-device id derive from this one field, so that association
    /// needs no second lookup.
    pub device_path: Option<String>,
}

/// Mathematical view of a `DiskRecord`.
#[verifier::ext_equal]
pub struct RecordModel {
    pub volume_uuid: Option<Seq<char>>,
    pub volume_name: Option<Seq<char>>,
    pub volume_path: Option<Seq<char>>,
    pub media_size: Option<u64>,
    pub media_writable: Option<bool>,
    pub media_uuid: Option<Seq<char>>,
    pub media_name: Option<Seq<char>>,
    pub media_removable: Option<bool>,
    pub media_ejectable: Option<bool>,
    pub device_internal: Option<bool>,
    pub device_model: Option<Seq<char>>,
    pub device_path: Option<Seq<char>>,
}

impl View for DiskRecord {
    type V = RecordModel;

    open spec fn view(&self) -> RecordModel {
        RecordModel {
            volume_uuid: opt_string_view(self.volume_uuid),
            volume_name: opt_string_view(self.volume_name),
            volume_path: opt_string_view(self.volume_path),
            media_size: self.media_size,
            media_writable: self.media_writable,
            media_uuid: opt_string_view(self.media_uuid),
            media_name: opt_string_view(self.media_name),
            media_removable: self.media_removable,
            media_ejectable: self.media_ejectable,
            device_internal: self.device_internal,
            device_model: opt_string_view(self.device_model),
            device_path: opt_string_view(self.device_path),
        }
    }
}

/// The device a record translates to. Its volume set is empty: populating
/// it is the snapshot merge's job, never the translator's.
pub open spec fn spec_device_of(r: RecordModel) -> DeviceModel {
    DeviceModel {
        id: r.device_path,
        display_name: r.media_name,
        model: r.device_model,
        kind: spec_classify(r.device_model, r.device_internal),
        internal: r.device_internal,
        removable: r.media_removable,
        ejectable: r.media_ejectable,
        serial: r.media_uuid,
        volumes: Seq::empty(),
    }
}

/// The volume a record translates to, given what the free-space probe
/// returned for its mount path. The probe result is taken only when the
/// record names a non-empty mount path; otherwise free space is `None`,
/// never a stale or zero value.
pub open spec fn spec_volume_of(r: RecordModel, free_probe: Option<u64>) -> VolumeModel {
    VolumeModel {
        id: r.volume_uuid,
        display_name: r.volume_name,
        device_id: r.device_path,
        size: r.media_size,
        free: match r.volume_path {
            Some(p) => if p.len() > 0 {
                free_probe
            } else {
                None
            },
            None => None,
        },
        path: r.device_path,
        mounts: match r.volume_path {
            Some(p) => seq![p],
            None => Seq::empty(),
        },
        partition_id: None,
        is_system: None,
        is_writable: r.media_writable,
    }
}

fn clone_opt_string(o: &Option<String>) -> (r: Option<String>)
    ensures
        r == *o,
{
    match o {
        Some(s) => Some(s.clone()),
        None => None,
    }
}

/// Translate a record into its volume, with `free_probe` the result of the
/// caller's free-space query against the record's mount path (`None` when
/// there was nothing to probe or the query failed).
pub fn get_volume_info(rec: &DiskRecord, free_probe: Option<u64>) -> (v: StorageVolume)
    ensures
        v@ == spec_volume_of(rec@, free_probe),
        v@.mounts.len() == 0 ==> v@.free is None,
{
    let id = match &rec.volume_uuid {
        Some(u) => Some(VolumeId(u.clone())),
        None => None,
    };
    let device_id = match &rec.device_path {
        Some(p) => Some(DeviceId(p.clone())),
        None => None,
    };
    let mounts: Vec<String> = match &rec.volume_path {
        Some(p) => vec![p.clone()],
        None => Vec::new(),
    };
    let free = match &rec.volume_path {
        Some(p) => if p.as_str().is_empty() {
            None
        } else {
            free_probe
        },
        None => None,
    };
    let v = StorageVolume {
        id,
        display_name: clone_opt_string(&rec.volume_name),
        device_id,
        size: rec.media_size,
        free,
        path: clone_opt_string(&rec.device_path),
        mounts,
        partition_id: None,
        is_system: None,
        is_writable: rec.media_writable,
    };
    proof {
        assert(v@.mounts =~= spec_volume_of(rec@, free_probe).mounts);
        assert(v@ =~= spec_volume_of(rec@, free_probe));
    }
    v
}

/// Translate a record into its device. The volume set of the result is
/// always empty.
pub fn get_device_info(rec: &DiskRecord) -> (d: StorageDevice)
    ensures
        d@ == spec_device_of(rec@),
{
    let id = match &rec.device_path {
        Some(p) => Some(DeviceId(p.clone())),
        None => None,
    };
    let kind = DeviceKind::classify(&rec.device_model, &rec.device_internal);
    let d = StorageDevice {
        id,
        display_name: clone_opt_string(&rec.media_name),
        model: clone_opt_string(&rec.device_model),
        kind,
        internal: rec.device_internal,
        removable: rec.media_removable,
        ejectable: rec.media_ejectable,
        serial: clone_opt_string(&rec.media_uuid),
        volumes: Vec::new(),
    };
    proof {
        assert(d@.volumes =~= spec_device_of(rec@).volumes);
        assert(d@ =~= spec_device_of(rec@));
    }
    d
}

} // verus!
