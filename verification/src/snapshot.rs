//! The snapshot merge: building de-duplicated device and volume
//! collections from one pass over the enumerated filesystem records.
//!
//! Devices are merged by case-folded device id, first write wins: a later
//! record for a known device keeps the first record's scalar fields and
//! only adds its volume id to the device's volume set. Every record's
//! volume is kept unconditionally, even when it carries no id.

use vstd::prelude::*;

use crate::ids::{lower_of, lowercase, string_eq, VolumeId};
use crate::model::{device_views, volume_id_views, DeviceModel, StorageDevice, StorageVolume};
use crate::record::{
    get_device_info, get_volume_info, spec_device_of, spec_volume_of, DiskRecord, RecordModel,
};

verus! {

/// Whether `vs` already holds an identifier equal to `v` under
/// case-insensitive identifier equality.
pub open spec fn contains_ci(vs: Seq<Seq<char>>, v: Seq<char>) -> bool {
    exists|i: int| 0 <= i < vs.len() && lower_of(#[trigger] vs[i]) == lower_of(v)
}

/// Insert a volume id into a device's volume set: a no-op when the record
/// carried no volume id, or when an equal id is already present.
pub open spec fn vol_set_insert(vs: Seq<Seq<char>>, vid: Option<Seq<char>>) -> Seq<Seq<char>> {
    match vid {
        None => vs,
        Some(v) => if contains_ci(vs, v) {
            vs
        } else {
            vs.push(v)
        },
    }
}

/// Whether a volume set holds no two identifiers that are equal under
/// case-insensitive identifier equality: the set character of a device's
/// `volumes` field.
pub open spec fn distinct_ci(vs: Seq<Seq<char>>) -> bool {
    forall|i: int, j: int|
        0 <= i < j < vs.len() ==> lower_of(#[trigger] vs[i]) != lower_of(#[trigger] vs[j])
}

/// The merge key of a device: the case-folded form of its id.
pub open spec fn dev_key(d: DeviceModel) -> Option<Seq<char>> {
    match d.id {
        Some(s) => Some(lower_of(s)),
        None => None,
    }
}

/// Merge one record into the device list. A record without a device path
/// contributes no device; one whose device is already known only adds its
/// volume id to that device's set; otherwise its device is appended.
pub open spec fn merge_one(devs: Seq<DeviceModel>, r: RecordModel) -> Seq<DeviceModel> {
    match r.device_path {
        None => devs,
        Some(raw) => {
            let key = lower_of(raw);
            if exists|i: int| 0 <= i < devs.len() && dev_key(#[trigger] devs[i]) == Some(key) {
                let i = choose|i: int|
                    0 <= i < devs.len() && dev_key(#[trigger] devs[i]) == Some(key);
                devs.update(
                    i,
                    DeviceModel {
                        volumes: vol_set_insert(devs[i].volumes, r.volume_uuid),
                        ..devs[i]
                    },
                )
            } else {
                devs.push(
                    DeviceModel {
                        volumes: vol_set_insert(Seq::empty(), r.volume_uuid),
                        ..spec_device_of(r)
                    },
                )
            }
        },
    }
}

/// The device list a record sequence merges to, in order of first
/// observation.
pub open spec fn spec_merge(rs: Seq<RecordModel>) -> Seq<DeviceModel>
    decreases rs.len(),
{
    if rs.len() == 0 {
        Seq::empty()
    } else {
        merge_one(spec_merge(rs.drop_last()), rs.last())
    }
}

/// The record views of an enumeration, each paired with its free-space
/// probe result.
pub open spec fn records_of(entries: Seq<(DiskRecord, Option<u64>)>) -> Seq<RecordModel> {
    entries.map_values(|e: (DiskRecord, Option<u64>)| e.0@)
}

fn contains_volume(vs: &Vec<VolumeId>, vid: &VolumeId) -> (r: bool)
    ensures
        r == contains_ci(volume_id_views(vs@), vid@),
{
    let target = lowercase(vid.0.as_str());
    let n = vs.len();
    let mut i: usize = 0;
    while i < n
        invariant
            n == vs@.len(),
            i <= n,
            target@ == lower_of(vid@),
            forall|k: int|
                0 <= k < i ==> lower_of(#[trigger] volume_id_views(vs@)[k]) != lower_of(vid@),
        decreases n - i,
    {
        let c = lowercase(vs[i].0.as_str());
        if string_eq(&c, &target) {
            proof {
                assert(volume_id_views(vs@)[i as int] == vs@[i as int]@);
            }
            return true;
        }
        proof {
            assert(volume_id_views(vs@)[i as int] == vs@[i as int]@);
        }
        i = i + 1;
    }
    false
}

fn find_key(keys: &Vec<String>, key: &String) -> (r: Option<usize>)
    ensures
        (r matches Some(j) ==> j < keys@.len() && keys@[j as int]@ == key@),
        (r is None ==> forall|i: int| 0 <= i < keys@.len() ==> keys@[i]@ != key@),
{
    let n = keys.len();
    let mut j: usize = 0;
    while j < n
        invariant
            n == keys@.len(),
            j <= n,
            forall|i: int| 0 <= i < j ==> keys@[i]@ != key@,
        decreases n - j,
    {
        if string_eq(&keys[j], key) {
            return Some(j);
        }
        j = j + 1;
    }
    None
}

/// Build one consistent snapshot from the enumerated filesystem records,
/// each paired with the free-space probe result for its mount path.
///
/// The devices are the record sequence's merge; the volumes are every
/// record's translation, in enumeration order, kept unconditionally.
/// Records without a device id contribute their volume but no device.
pub fn build_snapshot(entries: &Vec<(DiskRecord, Option<u64>)>) -> (r: (
    Vec<StorageDevice>,
    Vec<StorageVolume>,
))
    ensures
        device_views(r.0@) == spec_merge(records_of(entries@)),
        forall|i: int| 0 <= i < r.0@.len() ==> (#[trigger] r.0@[i])@.id is Some,
        forall|i: int, j: int|
            0 <= i < j < r.0@.len() ==> dev_key(r.0@[i]@) != dev_key(r.0@[j]@),
        forall|i: int| 0 <= i < r.0@.len() ==> distinct_ci((#[trigger] r.0@[i])@.volumes),
        r.1@.len() == entries@.len(),
        forall|k: int|
            0 <= k < entries@.len() ==> (#[trigger] r.1@[k])@ == spec_volume_of(
                entries@[k].0@,
                entries@[k].1,
            ),
{
    let mut devices: Vec<StorageDevice> = Vec::new();
    let mut keys: Vec<String> = Vec::new();
    let mut volumes: Vec<StorageVolume> = Vec::new();
    let n = entries.len();
    let mut idx: usize = 0;
    while idx < n
        invariant
            n == entries@.len(),
            idx <= n,
            keys@.len() == devices@.len(),
            device_views(devices@) == spec_merge(records_of(entries@.take(idx as int))),
            forall|i: int|
                0 <= i < devices@.len() ==> dev_key(#[trigger] devices@[i]@) == Some(keys@[i]@),
            forall|i: int, j: int| 0 <= i < j < keys@.len() ==> keys@[i]@ != keys@[j]@,
            forall|i: int|
                0 <= i < devices@.len() ==> distinct_ci((#[trigger] devices@[i])@.volumes),
            volumes@.len() == idx,
            forall|k: int|
                0 <= k < idx ==> (#[trigger] volumes@[k])@ == spec_volume_of(
                    entries@[k].0@,
                    entries@[k].1,
                ),
        decreases n - idx,
    {
        let rec = &entries[idx].0;
        let probe = entries[idx].1;
        let volume = get_volume_info(rec, probe);
        let ghost prev = spec_merge(records_of(entries@.take(idx as int)));
        proof {
            assert(records_of(entries@.take(idx as int + 1)).drop_last() =~= records_of(
                entries@.take(idx as int),
            ));
            assert(records_of(entries@.take(idx as int + 1)).last() == rec@);
        }
        match &rec.device_path {
            None => {
                proof {
                    assert(merge_one(prev, rec@) == prev);
                }
            },
            Some(p) => {
                let key = lowercase(p.as_str());
                match find_key(&keys, &key) {
                    Some(j) => {
                        let ghost devs_before = devices@;
                        proof {
                            assert(prev[j as int] == devices@[j as int]@);
                            assert(dev_key(prev[j as int]) == Some(lower_of(p@)));
                            let i0 = choose|i: int|
                                0 <= i < prev.len() && dev_key(#[trigger] prev[i]) == Some(
                                    lower_of(p@),
                                );
                            assert(prev[i0] == devices@[i0]@);
                            assert(dev_key(prev[i0]) == Some(keys@[i0]@));
                            assert(i0 == j as int);
                        }
                        let mut d = devices.remove(j);
                        let ghost d_old = d;
                        match &volume.id {
                            Some(vid) => {
                                if !contains_volume(&d.volumes, vid) {
                                    d.volumes.push(vid.clone());
                                    proof {
                                        assert(volume_id_views(d.volumes@) =~= volume_id_views(
                                            d_old.volumes@,
                                        ).push(vid@));
                                    }
                                }
                            },
                            None => {},
                        }
                        proof {
                            assert(d@ =~= DeviceModel {
                                volumes: vol_set_insert(d_old@.volumes, rec@.volume_uuid),
                                ..d_old@
                            });
                        }
                        devices.insert(j, d);
                        proof {
                            assert(devices@ =~= devs_before.update(j as int, d));
                            assert(device_views(devices@) =~= prev.update(j as int, d@));
                            assert(device_views(devices@) =~= merge_one(prev, rec@));
                        }
                    },
                    None => {
                        proof {
                            assert forall|i: int|
                                0 <= i < prev.len() implies dev_key(#[trigger] prev[i]) != Some(
                                lower_of(p@),
                            ) by {
                                assert(dev_key(devices@[i]@) == Some(keys@[i]@));
                            }
                        }
                        let mut d = get_device_info(rec);
                        match &volume.id {
                            Some(vid) => {
                                d.volumes.push(vid.clone());
                                proof {
                                    assert(!contains_ci(Seq::empty(), vid@));
                                    assert(volume_id_views(d.volumes@) =~= Seq::empty().push(
                                        vid@,
                                    ));
                                }
                            },
                            None => {},
                        }
                        proof {
                            assert(d@ =~= DeviceModel {
                                volumes: vol_set_insert(Seq::empty(), rec@.volume_uuid),
                                ..spec_device_of(rec@)
                            });
                        }
                        devices.push(d);
                        keys.push(key);
                        proof {
                            assert(device_views(devices@) =~= merge_one(prev, rec@));
                        }
                    },
                }
            },
        }
        volumes.push(volume);
        idx = idx + 1;
    }
    proof {
        assert(entries@.take(n as int) =~= entries@);
    }
    (devices, volumes)
}

/// Whether the device list holds a device whose id case-folds to
/// `dpath`'s folded form and whose volume set holds `vuuid`.
pub open spec fn associated(devs: Seq<DeviceModel>, dpath: Seq<char>, vuuid: Seq<char>) -> bool {
    exists|i: int|
        0 <= i < devs.len() && dev_key(#[trigger] devs[i]) == Some(lower_of(dpath))
            && contains_ci(devs[i].volumes, vuuid)
}

proof fn lemma_contains_ci_push(vs: Seq<Seq<char>>, v: Seq<char>, w: Seq<char>)
    ensures
        contains_ci(vs, w) ==> contains_ci(vs.push(v), w),
        lower_of(v) == lower_of(w) ==> contains_ci(vs.push(v), w),
{
    if contains_ci(vs, w) {
        let i = choose|i: int| 0 <= i < vs.len() && lower_of(#[trigger] vs[i]) == lower_of(w);
        assert(vs.push(v)[i] == vs[i]);
    }
    if lower_of(v) == lower_of(w) {
        assert(vs.push(v)[vs.len() as int] == v);
    }
}

proof fn lemma_vol_set_insert_keeps(vs: Seq<Seq<char>>, vid: Option<Seq<char>>, w: Seq<char>)
    requires
        contains_ci(vs, w),
    ensures
        contains_ci(vol_set_insert(vs, vid), w),
{
    match vid {
        None => {},
        Some(v) => {
            if !contains_ci(vs, v) {
                lemma_contains_ci_push(vs, v, w);
            }
        },
    }
}

proof fn lemma_vol_set_insert_adds(vs: Seq<Seq<char>>, v: Seq<char>)
    ensures
        contains_ci(vol_set_insert(vs, Some(v)), v),
{
    if !contains_ci(vs, v) {
        lemma_contains_ci_push(vs, v, v);
    }
}

proof fn lemma_merge_one_preserves(
    devs: Seq<DeviceModel>,
    r: RecordModel,
    dpath: Seq<char>,
    vuuid: Seq<char>,
)
    requires
        associated(devs, dpath, vuuid),
    ensures
        associated(merge_one(devs, r), dpath, vuuid),
{
    let i = choose|i: int|
        0 <= i < devs.len() && dev_key(#[trigger] devs[i]) == Some(lower_of(dpath))
            && contains_ci(devs[i].volumes, vuuid);
    let out = merge_one(devs, r);
    match r.device_path {
        None => {
            assert(dev_key(out[i]) == Some(lower_of(dpath)));
        },
        Some(raw) => {
            let key = lower_of(raw);
            if exists|k: int| 0 <= k < devs.len() && dev_key(#[trigger] devs[k]) == Some(key) {
                let k = choose|k: int|
                    0 <= k < devs.len() && dev_key(#[trigger] devs[k]) == Some(key);
                if k == i {
                    lemma_vol_set_insert_keeps(devs[i].volumes, r.volume_uuid, vuuid);
                    assert(dev_key(out[i]) == Some(lower_of(dpath)));
                    assert(contains_ci(out[i].volumes, vuuid));
                } else {
                    assert(out[i] == devs[i]);
                }
            } else {
                assert(out[i] == devs[i]);
            }
        },
    }
}

proof fn lemma_merge_one_adds(devs: Seq<DeviceModel>, r: RecordModel)
    requires
        r.device_path is Some,
        r.volume_uuid is Some,
    ensures
        associated(merge_one(devs, r), r.device_path->0, r.volume_uuid->0),
{
    let raw = r.device_path->0;
    let key = lower_of(raw);
    let vu = r.volume_uuid->0;
    let out = merge_one(devs, r);
    if exists|k: int| 0 <= k < devs.len() && dev_key(#[trigger] devs[k]) == Some(key) {
        let k = choose|k: int| 0 <= k < devs.len() && dev_key(#[trigger] devs[k]) == Some(key);
        lemma_vol_set_insert_adds(devs[k].volumes, vu);
        assert(dev_key(out[k]) == Some(key));
        assert(contains_ci(out[k].volumes, vu));
    } else {
        lemma_vol_set_insert_adds(Seq::empty(), vu);
        let j = devs.len() as int;
        assert(out[j].id == Some(raw));
        assert(dev_key(out[j]) == Some(key));
        assert(contains_ci(out[j].volumes, vu));
    }
}

/// After a merge, every record that carried both a device path and a
/// volume UUID has its volume id, case-insensitively, in the volume set
/// of the device whose id case-folds like that device path. This is the
/// association rule: a volume belongs to a device exactly when its
/// owning-device id equals the device's id under identifier equality.
pub proof fn lemma_snapshot_associates(rs: Seq<RecordModel>)
    ensures
        forall|k: int|
            0 <= k < rs.len() && (#[trigger] rs[k]).device_path is Some && rs[k].volume_uuid
                is Some ==> associated(spec_merge(rs), rs[k].device_path->0, rs[k].volume_uuid->0),
    decreases rs.len(),
{
    if rs.len() > 0 {
        let prefix = rs.drop_last();
        let r = rs.last();
        let prev = spec_merge(prefix);
        lemma_snapshot_associates(prefix);
        assert forall|k: int|
            0 <= k < rs.len() && (#[trigger] rs[k]).device_path is Some && rs[k].volume_uuid
                is Some implies associated(
            spec_merge(rs),
            rs[k].device_path->0,
            rs[k].volume_uuid->0,
        ) by {
            if k < rs.len() - 1 {
                assert(prefix[k] == rs[k]);
                assert(associated(prev, rs[k].device_path->0, rs[k].volume_uuid->0));
                lemma_merge_one_preserves(prev, r, rs[k].device_path->0, rs[k].volume_uuid->0);
            } else {
                assert(rs[k] == r);
                lemma_merge_one_adds(prev, r);
            }
        }
    }
}

/// Whether some record in `rs` carries a device path whose case-folded
/// form is `key` and a volume UUID that case-folds like `v`.
pub open spec fn record_reports(rs: Seq<RecordModel>, key: Option<Seq<char>>, v: Seq<char>) -> bool {
    exists|k: int|
        0 <= k < rs.len() && (#[trigger] rs[k]).device_path is Some && Some(
            lower_of(rs[k].device_path->0),
        ) == key && rs[k].volume_uuid is Some && lower_of(rs[k].volume_uuid->0) == lower_of(v)
}

proof fn lemma_record_reports_extend(
    prefix: Seq<RecordModel>,
    rs: Seq<RecordModel>,
    key: Option<Seq<char>>,
    v: Seq<char>,
)
    requires
        rs.len() > 0,
        prefix == rs.drop_last(),
        record_reports(prefix, key, v),
    ensures
        record_reports(rs, key, v),
{
    let k = choose|k: int|
        0 <= k < prefix.len() && (#[trigger] prefix[k]).device_path is Some && Some(
            lower_of(prefix[k].device_path->0),
        ) == key && prefix[k].volume_uuid is Some && lower_of(prefix[k].volume_uuid->0)
            == lower_of(v);
    assert(rs[k] == prefix[k]);
}

/// The other direction of the association rule — the device invariant: a
/// merged device's volume set holds only ids that some record reported
/// for that very device, that is, a record whose device path case-folds
/// to the device's key and whose volume UUID case-folds to the stored id.
pub proof fn lemma_volumes_from_records(rs: Seq<RecordModel>)
    ensures
        forall|i: int, m: int|
            0 <= i < spec_merge(rs).len() && 0 <= m < spec_merge(rs)[i].volumes.len()
                ==> record_reports(
                rs,
                dev_key(spec_merge(rs)[i]),
                #[trigger] spec_merge(rs)[i].volumes[m],
            ),
    decreases rs.len(),
{
    let out = spec_merge(rs);
    if rs.len() > 0 {
        let prefix = rs.drop_last();
        let r = rs.last();
        let prev = spec_merge(prefix);
        lemma_volumes_from_records(prefix);
        assert forall|i: int, m: int|
            0 <= i < out.len() && 0 <= m < out[i].volumes.len() implies record_reports(
            rs,
            dev_key(out[i]),
            #[trigger] out[i].volumes[m],
        ) by {
            match r.device_path {
                None => {
                    assert(out == prev);
                    assert(record_reports(prefix, dev_key(prev[i]), prev[i].volumes[m]));
                    lemma_record_reports_extend(prefix, rs, dev_key(out[i]), out[i].volumes[m]);
                },
                Some(raw) => {
                    let key = lower_of(raw);
                    if exists|k: int| 0 <= k < prev.len() && dev_key(#[trigger] prev[k]) == Some(
                        key,
                    ) {
                        let k0 = choose|k: int|
                            0 <= k < prev.len() && dev_key(#[trigger] prev[k]) == Some(key);
                        if i == k0 {
                            let vs = prev[k0].volumes;
                            let ins = vol_set_insert(vs, r.volume_uuid);
                            assert(out[i].volumes == ins);
                            assert(dev_key(out[i]) == dev_key(prev[k0]));
                            if m < vs.len() {
                                assert(ins[m] == vs[m]);
                                assert(record_reports(prefix, dev_key(prev[i]), prev[i].volumes[m]));
                                lemma_record_reports_extend(
                                    prefix,
                                    rs,
                                    dev_key(out[i]),
                                    out[i].volumes[m],
                                );
                            } else {
                                assert(r.volume_uuid is Some);
                                assert(ins[m] == r.volume_uuid->0);
                                assert(rs[rs.len() - 1] == r);
                                assert(record_reports(rs, dev_key(out[i]), out[i].volumes[m]));
                            }
                        } else {
                            assert(out[i] == prev[i]);
                            assert(record_reports(prefix, dev_key(prev[i]), prev[i].volumes[m]));
                            lemma_record_reports_extend(prefix, rs, dev_key(out[i]), out[i].volumes[m]);
                        }
                    } else {
                        if i < prev.len() {
                            assert(out[i] == prev[i]);
                            assert(record_reports(prefix, dev_key(prev[i]), prev[i].volumes[m]));
                            lemma_record_reports_extend(prefix, rs, dev_key(out[i]), out[i].volumes[m]);
                        } else {
                            let vs = vol_set_insert(Seq::empty(), r.volume_uuid);
                            assert(out[i].volumes == vs);
                            assert(r.volume_uuid is Some);
                            assert(vs[m] == r.volume_uuid->0);
                            assert(dev_key(out[i]) == Some(key));
                            assert(rs[rs.len() - 1] == r);
                            assert(record_reports(rs, dev_key(out[i]), out[i].volumes[m]));
                        }
                    }
                },
            }
        }
    }
}

/// A snapshot is a function of the enumerated records alone: two merges
/// of the same record sequence yield the same device list, so snapshots
/// taken while no device changes agree.
pub proof fn lemma_snapshot_deterministic(
    rs: Seq<RecordModel>,
    d1: Seq<DeviceModel>,
    d2: Seq<DeviceModel>,
)
    ensures
        d1 == spec_merge(rs) && d2 == spec_merge(rs) ==> d1 == d2,
{
}

} // verus!
