//! Cross-platform model of attached storage: devices, volumes, and the
//! event vocabulary a monitor emits when they come and go.
//!
//! The platform backend (session handling, native callbacks, field
//! extraction from disk-description records) lives outside this crate; this
//! library holds the identity model, the record translation, the snapshot
//! merge, and the normalization of native notifications into events.

mod events;
mod ids;
mod model;
mod record;
mod snapshot;

pub use ids::lemma_device_id_case_insensitive;
pub use ids::lemma_volume_id_case_insensitive;
pub use ids::lower_of;
pub use ids::spec_hash_chars;
pub use ids::DeviceId;
pub use ids::VolumeId;

pub use model::device_views;
pub use model::opt_device_id_view;
pub use model::opt_string_view;
pub use model::opt_volume_id_view;
pub use model::spec_classify;
pub use model::volume_id_views;
pub use model::DeviceKind;
pub use model::DeviceModel;
pub use model::StorageDevice;
pub use model::StorageEvent;
pub use model::StorageVolume;
pub use model::VolumeModel;

pub use record::get_device_info;
pub use record::get_volume_info;
pub use record::spec_device_of;
pub use record::spec_volume_of;
pub use record::DiskRecord;
pub use record::RecordModel;

pub use snapshot::associated;
pub use snapshot::build_snapshot;
pub use snapshot::contains_ci;
pub use snapshot::dev_key;
pub use snapshot::distinct_ci;
pub use snapshot::lemma_snapshot_associates;
pub use snapshot::lemma_snapshot_deterministic;
pub use snapshot::lemma_volumes_from_records;
pub use snapshot::merge_one;
pub use snapshot::record_reports;
pub use snapshot::records_of;
pub use snapshot::spec_merge;
pub use snapshot::vol_set_insert;

pub use events::appeared_events;
pub use events::changed_events;
pub use events::disappeared_events;
