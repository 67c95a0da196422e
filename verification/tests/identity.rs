use diskwatch::{DeviceId, VolumeId};

#[test]
fn device_id_eq_ignores_case() {
    let a = DeviceId(String::from("/dev/DISK2"));
    let b = DeviceId(String::from("/dev/disk2"));
    assert_eq!(a, b);
    assert!(a == b);
}

#[test]
fn device_id_eq_distinguishes_content() {
    let a = DeviceId(String::from("/dev/disk2"));
    let b = DeviceId(String::from("/dev/disk3"));
    assert!(a != b);
}

#[test]
fn device_id_hash_ignores_case() {
    let a = DeviceId(String::from("ABCD-1"));
    let b = DeviceId(String::from("abcd-1"));
    assert_eq!(a.hash(), b.hash());
    assert_eq!(a, b);
}

#[test]
fn device_id_hash_distinguishes_content() {
    let a = DeviceId(String::from("abcd-1"));
    let b = DeviceId(String::from("abcd-2"));
    assert_ne!(a.hash(), b.hash());
}

#[test]
fn volume_id_eq_ignores_case() {
    let a = VolumeId(String::from("ABCD-1"));
    let b = VolumeId(String::from("abcd-1"));
    assert_eq!(a, b);
    let c = VolumeId(String::from("abcd-2"));
    assert!(a != c);
}

#[test]
fn volume_id_hash_ignores_case() {
    let a = VolumeId(String::from("Mixed-Case-UUID"));
    let b = VolumeId(String::from("mixed-case-uuid"));
    assert_eq!(a.hash(), b.hash());
}

#[test]
fn device_id_eq_handles_non_ascii_case() {
    let a = DeviceId(String::from("VOLUME-ÄRGER"));
    let b = DeviceId(String::from("volume-ärger"));
    assert_eq!(a, b);
    assert_eq!(a.hash(), b.hash());
}

#[test]
fn hash_of_empty_id_is_the_offset_basis() {
    let d = DeviceId(String::new());
    assert_eq!(d.hash(), 0xcbf29ce484222325);
}

#[test]
fn hash_folds_characters_in_order() {
    let d = DeviceId(String::from("Ab"));
    let mut expected: u64 = 0xcbf29ce484222325;
    expected = expected.wrapping_mul(0x100000001b3).wrapping_add('a' as u64);
    expected = expected.wrapping_mul(0x100000001b3).wrapping_add('b' as u64);
    assert_eq!(d.hash(), expected);
}

#[test]
fn id_from_string_keeps_spelling() {
    let d = DeviceId::from(String::from("/dev/Disk5"));
    assert_eq!(d.0, "/dev/Disk5");
    let v = VolumeId::from(String::from("AbCd"));
    assert_eq!(v.0, "AbCd");
}

#[test]
fn id_raw_spelling_preserved_despite_eq() {
    let a = DeviceId(String::from("/dev/DISK2"));
    let b = DeviceId(String::from("/dev/disk2"));
    assert_eq!(a, b);
    assert_ne!(a.0, b.0);
}
