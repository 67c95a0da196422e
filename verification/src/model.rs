//! The data model: devices, volumes, the device-kind classification, and
//! the event vocabulary of the monitor.

use vstd::prelude::*;

use crate::ids::{DeviceId, VolumeId};

verus! {

/// What kind of storage device this is.
///
/// Classification precedence, first match wins: an explicit device-model
/// string that matches a known card or flash label, otherwise the
/// internal/external flag, otherwise `Other`. The model string overrides
/// the flag because the flag alone cannot tell a card reader from a fixed
/// disk.
#[derive(Clone, Copy, Debug, PartialEq, Eq, Hash, Structural)]
pub enum DeviceKind {
    UsbFlashDrive,
    SdCard,
    MicroSdCard,
    InternalDrive,
    ExternalDrive,
    Other,
}

/// The classification rule of `DeviceKind`, over the model string and the
/// internal/external flag of a disk-description record.
pub open spec fn spec_classify(model: Option<Seq<char>>, internal: Option<bool>) -> DeviceKind {
    if model == Some("SD/MMC"@) {
        DeviceKind::SdCard
    } else if model == Some("Micro SD/M2"@) {
        DeviceKind::MicroSdCard
    } else if model == Some("Flash Disk"@) {
        DeviceKind::UsbFlashDrive
    } else {
        match internal {
            Some(true) => DeviceKind::InternalDrive,
            Some(false) => DeviceKind::ExternalDrive,
            None => DeviceKind::Other,
        }
    }
}

/// The view of an optional string: the character sequence it holds, if any.
pub open spec fn opt_string_view(o: Option<String>) -> Option<Seq<char>> {
    match o {
        Some(s) => Some(s@),
        None => None,
    }
}

/// The view of an optional device identifier.
pub open spec fn opt_device_id_view(o: Option<DeviceId>) -> Option<Seq<char>> {
    match o {
        Some(i) => Some(i@),
        None => None,
    }
}

/// The view of an optional volume identifier.
pub open spec fn opt_volume_id_view(o: Option<VolumeId>) -> Option<Seq<char>> {
    match o {
        Some(i) => Some(i@),
        None => None,
    }
}

impl DeviceKind {
    /// Classify a device from its model string and internal/external flag,
    /// by the stated precedence.
    pub fn classify(model: &Option<String>, internal: &Option<bool>) -> (k: DeviceKind)
        ensures
            k == spec_classify(opt_string_view(*model), *internal),
    {
        match model {
            Some(m) => {
                if *m == "SD/MMC".to_owned() {
                    DeviceKind::SdCard
                } else if *m == "Micro SD/M2".to_owned() {
                    DeviceKind::MicroSdCard
                } else if *m == "Flash Disk".to_owned() {
                    DeviceKind::UsbFlashDrive
                } else {
                    Self::classify_by_flag(internal)
                }
            },
            None => Self::classify_by_flag(internal),
        }
    }

    fn classify_by_flag(internal: &Option<bool>) -> (k: DeviceKind)
        ensures
            k == spec_classify(None, *internal),
    {
        match internal {
            Some(true) => DeviceKind::InternalDrive,
            Some(false) => DeviceKind::ExternalDrive,
            None => DeviceKind::Other,
        }
    }
}

/// The views of a sequence of volume identifiers.
pub open spec fn volume_id_views(vs: Seq<VolumeId>) -> Seq<Seq<char>> {
    vs.map_values(|v: VolumeId| v@)
}

/// The views of a sequence of devices.
pub open spec fn device_views(ds: Seq<StorageDevice>) -> Seq<DeviceModel> {
    ds.map_values(|d: StorageDevice| d@)
}

/// Mathematical view of a `StorageDevice`.
#[verifier::ext_equal]
pub struct DeviceModel {
    pub id: Option<Seq<char>>,
    pub display_name: Option<Seq<char>>,
    pub model: Option<Seq<char>>,
    pub kind: DeviceKind,
    pub internal: Option<bool>,
    pub removable: Option<bool>,
    pub ejectable: Option<bool>,
    pub serial: Option<Seq<char>>,
    pub volumes: Seq<Seq<char>>,
}

/// One physical or virtual storage device.
#[derive(Clone, Debug)]
pub struct StorageDevice {
    /// Unique identifier of this device. This identifier isn't necessarily
    /// specific to the device itself, and may not be stable across
    /// disconnects and reconnects. Use the serial number for a stable ID
    /// that is tied to the device itself.
    pub id: Option<DeviceId>,
    pub display_name: Option<String>,
    pub model: Option<String>,
    pub kind: DeviceKind,
    /// Whether this device is inside of the computer or outside.
    pub internal: Option<bool>,
    /// Whether this device is considered removable or not.
    pub removable: Option<bool>,
    /// Whether this device is considered ejectable or not.
    pub ejectable: Option<bool>,
    /// Serial number of the hardware device hosting the volume, if
    /// available.
    pub serial: Option<String>,
    /// IDs of volumes detected on the device, pairwise distinct under
    /// case-insensitive identifier equality. Filled in by the snapshot
    /// merge, never by the record translator.
    pub volumes: Vec<VolumeId>,
}

impl View for StorageDevice {
    type V = DeviceModel;

    open spec fn view(&self) -> DeviceModel {
        DeviceModel {
            id: opt_device_id_view(self.id),
            display_name: opt_string_view(self.display_name),
            model: opt_string_view(self.model),
            kind: self.kind,
            internal: self.internal,
            removable: self.removable,
            ejectable: self.ejectable,
            serial: opt_string_view(self.serial),
            volumes: volume_id_views(self.volumes@),
        }
    }
}

/// Mathematical view of a `StorageVolume`.
#[verifier::ext_equal]
pub struct VolumeModel {
    pub id: Option<Seq<char>>,
    pub display_name: Option<Seq<char>>,
    pub device_id: Option<Seq<char>>,
    pub size: Option<u64>,
    pub free: Option<u64>,
    pub path: Option<Seq<char>>,
    pub mounts: Seq<Seq<char>>,
    pub partition_id: Option<Seq<char>>,
    pub is_system: Option<bool>,
    pub is_writable: Option<bool>,
}

/// One mountable partition or filesystem.
#[derive(Clone, Debug)]
pub struct StorageVolume {
    /// Unique identifier of this volume.
    pub id: Option<VolumeId>,
    pub display_name: Option<String>,
    /// Identifier of the device hosting this volume.
    pub device_id: Option<DeviceId>,
    /// Size of the volume in bytes.
    pub size: Option<u64>,
    /// Amount of free space on the volume in bytes. `None` when no mount
    /// path is known or the free-space probe failed; absence is
    /// distinguishable from a legitimate zero.
    pub free: Option<u64>,
    /// Platform-specific path that references the volume itself.
    pub path: Option<String>,
    /// Path(s) where the files on this volume are mounted. A volume may be
    /// unmounted, hence possibly empty.
    pub mounts: Vec<String>,
    /// Identifier for the partition on the device.
    pub partition_id: Option<String>,
    /// True if this is a "system partition" that the user should not
    /// modify or see.
    pub is_system: Option<bool>,
    pub is_writable: Option<bool>,
}

impl View for StorageVolume {
    type V = VolumeModel;

    open spec fn view(&self) -> VolumeModel {
        VolumeModel {
            id: opt_volume_id_view(self.id),
            display_name: opt_string_view(self.display_name),
            device_id: opt_device_id_view(self.device_id),
            size: self.size,
            free: self.free,
            path: opt_string_view(self.path),
            mounts: self.mounts@.map_values(|s: String| s@),
            partition_id: opt_string_view(self.partition_id),
            is_system: self.is_system,
            is_writable: self.is_writable,
        }
    }
}

/// One change to the set of attached storage, as the monitor reports it.
///
/// Created by the event bridge or the snapshotter, consumed once by the
/// client, never mutated after creation. A repeated `AddDevice` or
/// `AddVolume` for an already-known id is an idempotent upsert, equivalent
/// to the corresponding update event.
#[derive(Clone, Debug)]
pub enum StorageEvent {
    AddDevice { device: StorageDevice },
    UpdateDevice { device: StorageDevice },
    RemoveDevice { id: DeviceId },
    AddVolume { volume: StorageVolume },
    UpdateVolume { volume: StorageVolume },
    RemoveVolume { id: VolumeId },
    /// Not intended for the client: indicates that the device manager
    /// should perform a refresh and emit the needed events on its own.
    /// Required on platforms where it is not possible to tell when
    /// physical devices have been removed.
    Refresh,
}

} // verus!
