//! Identifiers for devices and volumes.
//!
//! Equality and hashing are case-insensitive: two identifiers are one
//! identifier when their case-folded forms agree. The raw spelling is kept
//! for display and round-tripping.

use vstd::prelude::*;
use vstd::string::StrSliceExecFns;

verus! {

/// The case-folded form of an identifier string.
///
/// Identifier equality and hashing are defined over this form, so spellings
/// that differ only in letter case name the same device or volume.
pub uninterp spec fn lower_of(s: Seq<char>) -> Seq<char>;

/// Relies on str::to_lowercase: the returned string is the Unicode
/// lowercase form of the input and depends on the input characters alone.
#[verifier::external_body]
pub(crate) fn lowercase(s: &str) -> (r: String)
    ensures
        r@ == lower_of(s@),
{
    s.to_lowercase()
}

/// Polynomial hash of a character sequence, wrapping modulo 2^64.
pub open spec fn spec_hash_chars(s: Seq<char>) -> u64
    decreases s.len(),
{
    if s.len() == 0 {
        0xcbf29ce484222325u64
    } else {
        spec_hash_chars(s.drop_last()).wrapping_mul(0x100000001b3u64).wrapping_add(
            s.last() as u64,
        )
    }
}

fn hash_chars(s: &str) -> (h: u64)
    ensures
        h == spec_hash_chars(s@),
{
    let n = s.unicode_len();
    let mut h: u64 = 0xcbf29ce484222325u64;
    let mut i: usize = 0;
    while i < n
        invariant
            n == s@.len(),
            i <= n,
            h == spec_hash_chars(s@.take(i as int)),
        decreases n - i,
    {
        let c = s.get_char(i);
        h = h.wrapping_mul(0x100000001b3u64).wrapping_add(c as u64);
        proof {
            assert(s@.take(i + 1).drop_last() =~= s@.take(i as int));
            assert(s@.take(i + 1).last() == s@[i as int]);
        }
        i = i + 1;
    }
    proof {
        assert(s@.take(n as int) =~= s@);
    }
    h
}

pub(crate) fn string_eq(a: &String, b: &String) -> (r: bool)
    ensures
        r == (a@ == b@),
{
    *a == *b
}

/// Opaque identifier of a storage device.
///
/// Not necessarily stable across disconnect and reconnect; the device's
/// serial number is the stable hardware identifier when the platform
/// supplies one.
#[derive(Debug, Eq)]
pub struct DeviceId(pub String);

impl Clone for DeviceId {
    fn clone(&self) -> (r: Self)
        ensures
            r == *self,
    {
        DeviceId(self.0.clone())
    }
}

impl View for DeviceId {
    type V = Seq<char>;

    open spec fn view(&self) -> Seq<char> {
        self.0@
    }
}

impl PartialEq for DeviceId {
    fn eq(&self, other: &Self) -> bool {
        let a = lowercase(self.0.as_str());
        let b = lowercase(other.0.as_str());
        a == b
    }
}

impl vstd::std_specs::cmp::PartialEqSpecImpl for DeviceId {
    open spec fn obeys_eq_spec() -> bool {
        true
    }

    open spec fn eq_spec(&self, other: &Self) -> bool {
        lower_of(self@) == lower_of(other@)
    }
}

impl From<String> for DeviceId {
    fn from(s: String) -> (r: Self) {
        DeviceId(s)
    }
}

impl vstd::std_specs::convert::FromSpecImpl<String> for DeviceId {
    open spec fn obeys_from_spec() -> bool {
        true
    }

    open spec fn from_spec(s: String) -> Self {
        DeviceId(s)
    }
}

impl DeviceId {
    /// Hash over the case-folded form, so that equal identifiers hash
    /// alike even when their spellings differ in letter case.
    pub fn hash(&self) -> (h: u64)
        ensures
            h == spec_hash_chars(lower_of(self@)),
    {
        let canon = lowercase(self.0.as_str());
        hash_chars(canon.as_str())
    }
}

/// Opaque identifier of a volume.
#[derive(Debug, Eq)]
pub struct VolumeId(pub String);

impl Clone for VolumeId {
    fn clone(&self) -> (r: Self)
        ensures
            r == *self,
    {
        VolumeId(self.0.clone())
    }
}

impl View for VolumeId {
    type V = Seq<char>;

    open spec fn view(&self) -> Seq<char> {
        self.0@
    }
}

impl PartialEq for VolumeId {
    fn eq(&self, other: &Self) -> bool {
        let a = lowercase(self.0.as_str());
        let b = lowercase(other.0.as_str());
        a == b
    }
}

impl vstd::std_specs::cmp::PartialEqSpecImpl for VolumeId {
    open spec fn obeys_eq_spec() -> bool {
        true
    }

    open spec fn eq_spec(&self, other: &Self) -> bool {
        lower_of(self@) == lower_of(other@)
    }
}

impl From<String> for VolumeId {
    fn from(s: String) -> (r: Self) {
        VolumeId(s)
    }
}

impl vstd::std_specs::convert::FromSpecImpl<String> for VolumeId {
    open spec fn obeys_from_spec() -> bool {
        true
    }

    open spec fn from_spec(s: String) -> Self {
        VolumeId(s)
    }
}

impl VolumeId {
    /// Hash over the case-folded form; see DeviceId::hash.
    pub fn hash(&self) -> (h: u64)
        ensures
            h == spec_hash_chars(lower_of(self@)),
    {
        let canon = lowercase(self.0.as_str());
        hash_chars(canon.as_str())
    }
}

/// Device identifiers that agree after case folding compare equal and
/// hash alike.
pub proof fn lemma_device_id_case_insensitive(a: DeviceId, b: DeviceId)
    ensures
        lower_of(a@) == lower_of(b@) ==> vstd::std_specs::cmp::PartialEqSpec::eq_spec(&a, &b),
        lower_of(a@) == lower_of(b@) ==> spec_hash_chars(lower_of(a@)) == spec_hash_chars(
            lower_of(b@),
        ),
{
}

/// Volume identifiers that agree after case folding compare equal and
/// hash alike.
pub proof fn lemma_volume_id_case_insensitive(a: VolumeId, b: VolumeId)
    ensures
        lower_of(a@) == lower_of(b@) ==> vstd::std_specs::cmp::PartialEqSpec::eq_spec(&a, &b),
        lower_of(a@) == lower_of(b@) ==> spec_hash_chars(lower_of(a@)) == spec_hash_chars(
            lower_of(b@),
        ),
{
}

} // verus!
