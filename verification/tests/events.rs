use diskwatch::{
    appeared_events, changed_events, disappeared_events, DeviceId, DeviceKind, DiskRecord,
    StorageEvent, VolumeId,
};

fn record(device_path: Option<&str>, uuid: Option<&str>) -> DiskRecord {
    DiskRecord {
        volume_uuid: uuid.map(String::from),
        volume_name: Some(String::from("CARD")),
        volume_path: Some(String::from("/Volumes/CARD")),
        media_size: Some(64_000),
        media_writable: Some(true),
        media_uuid: None,
        media_name: Some(String::from("Reader")),
        media_removable: Some(true),
        media_ejectable: Some(true),
        device_internal: Some(false),
        device_model: Some(String::from("SD/MMC")),
        device_path: device_path.map(String::from),
    }
}

#[test]
fn appeared_emits_add_device_then_add_volume() {
    let es = appeared_events(&record(Some("/dev/disk2"), Some("ABCD-1")), Some(7));
    assert_eq!(es.len(), 2);
    match &es[0] {
        StorageEvent::AddDevice { device } => {
            assert_eq!(device.id, Some(DeviceId(String::from("/dev/disk2"))));
            assert_eq!(device.kind, DeviceKind::SdCard);
            assert!(device.volumes.is_empty());
        }
        other => panic!("expected AddDevice first, got {:?}", other),
    }
    match &es[1] {
        StorageEvent::AddVolume { volume } => {
            assert_eq!(volume.id, Some(VolumeId(String::from("ABCD-1"))));
            assert_eq!(volume.device_id, Some(DeviceId(String::from("/dev/disk2"))));
            assert_eq!(volume.free, Some(7));
        }
        other => panic!("expected AddVolume second, got {:?}", other),
    }
}

#[test]
fn changed_is_reported_like_appeared() {
    let rec = record(Some("/dev/disk2"), Some("ABCD-1"));
    let a = appeared_events(&rec, None);
    let c = changed_events(&rec, None);
    assert_eq!(a.len(), c.len());
    assert!(matches!(&c[0], StorageEvent::AddDevice { .. }));
    assert!(matches!(&c[1], StorageEvent::AddVolume { .. }));
}

#[test]
fn disappeared_removes_volume_strictly_before_device() {
    let es = disappeared_events(&record(Some("/dev/disk2"), Some("ABCD-1")));
    assert_eq!(es.len(), 2);
    let vol_pos = es
        .iter()
        .position(|e| matches!(e, StorageEvent::RemoveVolume { .. }))
        .expect("a RemoveVolume event");
    let dev_pos = es
        .iter()
        .position(|e| matches!(e, StorageEvent::RemoveDevice { .. }))
        .expect("a RemoveDevice event");
    assert!(vol_pos < dev_pos);
    match &es[0] {
        StorageEvent::RemoveVolume { id } => assert_eq!(id, &VolumeId(String::from("abcd-1"))),
        other => panic!("expected RemoveVolume first, got {:?}", other),
    }
    match &es[1] {
        StorageEvent::RemoveDevice { id } => assert_eq!(id, &DeviceId(String::from("/dev/disk2"))),
        other => panic!("expected RemoveDevice second, got {:?}", other),
    }
}

#[test]
fn disappeared_with_only_volume_id() {
    let es = disappeared_events(&record(None, Some("ABCD-1")));
    assert_eq!(es.len(), 1);
    assert!(matches!(&es[0], StorageEvent::RemoveVolume { .. }));
}

#[test]
fn disappeared_with_only_device_id() {
    let es = disappeared_events(&record(Some("/dev/disk2"), None));
    assert_eq!(es.len(), 1);
    assert!(matches!(&es[0], StorageEvent::RemoveDevice { .. }));
}

#[test]
fn disappeared_with_no_ids_emits_nothing() {
    let es = disappeared_events(&record(None, None));
    assert!(es.is_empty());
}
