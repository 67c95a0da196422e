use diskwatch::{DeviceId, DeviceKind, DiskRecord, VolumeId};

fn empty_record() -> DiskRecord {
    DiskRecord {
        volume_uuid: None,
        volume_name: None,
        volume_path: None,
        media_size: None,
        media_writable: None,
        media_uuid: None,
        media_name: None,
        media_removable: None,
        media_ejectable: None,
        device_internal: None,
        device_model: None,
        device_path: None,
    }
}

fn card_record() -> DiskRecord {
    DiskRecord {
        volume_uuid: Some(String::from("ABCD-1")),
        volume_name: Some(String::from("CARD")),
        volume_path: Some(String::from("/Volumes/CARD")),
        media_size: Some(32_000_000_000),
        media_writable: Some(true),
        media_uuid: Some(String::from("11111111-2222")),
        media_name: Some(String::from("Card Reader Media")),
        media_removable: Some(true),
        media_ejectable: Some(true),
        device_internal: Some(false),
        device_model: Some(String::from("SD/MMC")),
        device_path: Some(String::from("/dev/disk2")),
    }
}

#[test]
fn volume_fields_come_from_the_record() {
    let v = diskwatch::get_volume_info(&card_record(), Some(123));
    assert_eq!(v.id, Some(VolumeId(String::from("ABCD-1"))));
    assert_eq!(v.display_name, Some(String::from("CARD")));
    assert_eq!(v.device_id, Some(DeviceId(String::from("/dev/disk2"))));
    assert_eq!(v.size, Some(32_000_000_000));
    assert_eq!(v.free, Some(123));
    assert_eq!(v.path, Some(String::from("/dev/disk2")));
    assert_eq!(v.mounts, vec![String::from("/Volumes/CARD")]);
    assert_eq!(v.partition_id, None);
    assert_eq!(v.is_system, None);
    assert_eq!(v.is_writable, Some(true));
}

#[test]
fn volume_with_no_mount_has_no_free_space() {
    let mut rec = card_record();
    rec.volume_path = None;
    let v = diskwatch::get_volume_info(&rec, Some(123));
    assert!(v.mounts.is_empty());
    assert_eq!(v.free, None);
}

#[test]
fn volume_with_empty_mount_path_has_no_free_space() {
    let mut rec = card_record();
    rec.volume_path = Some(String::new());
    let v = diskwatch::get_volume_info(&rec, Some(123));
    assert_eq!(v.free, None);
}

#[test]
fn volume_free_space_none_when_probe_failed() {
    let v = diskwatch::get_volume_info(&card_record(), None);
    assert_eq!(v.free, None);
}

#[test]
fn volume_from_empty_record_degrades_to_none() {
    let v = diskwatch::get_volume_info(&empty_record(), Some(55));
    assert_eq!(v.id, None);
    assert_eq!(v.display_name, None);
    assert_eq!(v.device_id, None);
    assert_eq!(v.size, None);
    assert_eq!(v.free, None);
    assert_eq!(v.path, None);
    assert!(v.mounts.is_empty());
    assert_eq!(v.is_writable, None);
}

#[test]
fn device_fields_come_from_the_record() {
    let d = diskwatch::get_device_info(&card_record());
    assert_eq!(d.id, Some(DeviceId(String::from("/dev/disk2"))));
    assert_eq!(d.display_name, Some(String::from("Card Reader Media")));
    assert_eq!(d.model, Some(String::from("SD/MMC")));
    assert_eq!(d.kind, DeviceKind::SdCard);
    assert_eq!(d.internal, Some(false));
    assert_eq!(d.removable, Some(true));
    assert_eq!(d.ejectable, Some(true));
    assert_eq!(d.serial, Some(String::from("11111111-2222")));
    assert!(d.volumes.is_empty());
}

#[test]
fn device_from_empty_record_degrades_to_defaults() {
    let d = diskwatch::get_device_info(&empty_record());
    assert_eq!(d.id, None);
    assert_eq!(d.display_name, None);
    assert_eq!(d.model, None);
    assert_eq!(d.kind, DeviceKind::Other);
    assert_eq!(d.internal, None);
    assert_eq!(d.serial, None);
    assert!(d.volumes.is_empty());
}
