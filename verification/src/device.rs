//! Device cloud-join identity correlation.
//!
//! A persisted certificate-store entry is a binary blob in which a
//! device-join certificate, when present, begins twelve bytes after a fixed
//! eight-byte marker (the marker, then a four-byte length that is validated
//! only against the remaining buffer — the blob layout is undocumented and
//! platform-version-dependent). Each certificate contributes its subject's
//! first domain-component and first common-name attribute to an attribute
//! map; tenant-join entries are then joined against that map by tenant
//! identifier. A tenant-join entry with no matching certificate yields an
//! empty device identifier, not an omitted record.

use vstd::prelude::*;

use crate::search::spec_find;
use crate::search::find_u8_from;
use crate::strutil::pair_views;
use crate::strutil::str_eq;

verus! {

/// A failed registry open or read, as the caller reports it. Any such
/// failure aborts a whole collection pass: no partial results.
#[derive(Debug)]
pub struct RegistryError {
    pub message: String,
}

/// One device identity record: the tenant joined, the device identifier
/// from the matching certificate (empty when none matches), and the
/// registered user.
#[derive(Debug)]
pub struct EntraJoinInfo {
    pub tenant_id: String,
    pub device_id: String,
    pub registered_user: String,
}

/// Abstract value of an [`EntraJoinInfo`].
pub struct EntraJoinInfoV {
    pub tenant_id: Seq<char>,
    pub device_id: Seq<char>,
    pub registered_user: Seq<char>,
}

impl View for EntraJoinInfo {
    type V = EntraJoinInfoV;

    open spec fn view(&self) -> EntraJoinInfoV {
        EntraJoinInfoV {
            tenant_id: self.tenant_id@,
            device_id: self.device_id@,
            registered_user: self.registered_user@,
        }
    }
}

/// One tenant-join registry entry: its tenant identifier and the registered
/// user's address.
#[derive(Debug)]
pub struct TenantJoinEntry {
    pub tenant_id: String,
    pub registered_user: String,
}

impl View for TenantJoinEntry {
    type V = (Seq<char>, Seq<char>);

    open spec fn view(&self) -> (Seq<char>, Seq<char>) {
        (self.tenant_id@, self.registered_user@)
    }
}

/// The fixed eight-byte marker that precedes a device-join certificate
/// inside a certificate-store blob.
pub open spec fn spec_cert_marker() -> Seq<u8> {
    seq![0x20u8, 0x00u8, 0x00u8, 0x00u8, 0x01u8, 0x00u8, 0x00u8, 0x00u8]
}

/// The DER bytes of the certificate inside `blob`: everything from twelve
/// bytes after the first marker (the marker and the four-byte length) to the
/// end. `None` when the marker is absent, or sits too close to the end for
/// the length field to fit.
pub open spec fn spec_extract_der(blob: Seq<u8>) -> Option<Seq<u8>> {
    match spec_find(blob, spec_cert_marker(), 0) {
        None => None,
        Some(i) => if i + 12 <= blob.len() {
            Some(blob.skip(i + 12))
        } else {
            None
        },
    }
}

/// The bytes of `v` from position `n` on.
fn bytes_skip(v: &Vec<u8>, n: usize) -> (r: Vec<u8>)
    requires
        n <= v@.len(),
    ensures
        r@ == v@.skip(n as int),
{
    let len = v.len();
    let mut r: Vec<u8> = Vec::new();
    let mut i: usize = n;
    while i < len
        invariant
            len == v@.len(),
            n <= i <= len,
            r@ =~= v@.subrange(n as int, i as int),
        decreases len - i,
    {
        r.push(v[i]);
        i = i + 1;
    }
    proof {
        assert(r@ =~= v@.skip(n as int));
    }
    r
}

/// Locate the device-join certificate inside a certificate-store blob.
pub fn extract_certificate_der(blob: &Vec<u8>) -> (r: Option<Vec<u8>>)
    ensures
        match r {
            Some(der) => spec_extract_der(blob@) == Some(der@),
            None => spec_extract_der(blob@) is None,
        },
{
    let mut marker: Vec<u8> = Vec::new();
    marker.push(0x20);
    marker.push(0x00);
    marker.push(0x00);
    marker.push(0x00);
    marker.push(0x01);
    marker.push(0x00);
    marker.push(0x00);
    marker.push(0x00);
    proof {
        assert(marker@ =~= spec_cert_marker());
    }
    match find_u8_from(blob, &marker, 0) {
        None => None,
        Some(i) => {
            if blob.len() - i >= 12 {
                Some(bytes_skip(blob, i + 12))
            } else {
                None
            }
        },
    }
}

/// The subject's first domain-component and first common-name attribute of
/// the certificate that `der` encodes, when `der` parses as an X.509
/// certificate carrying both. A pure function of the bytes.
pub uninterp spec fn cert_join_attributes(der: Seq<u8>) -> Option<(Seq<char>, Seq<char>)>;

/// Relies on `x509_certificate::X509Certificate::from_der` and
/// `rfc3280::Name::find_first_attribute_string`: parsing DER bytes is a pure
/// function of those bytes, and the two lookups return the subject's first
/// domain-component (OID 0.9.2342.19200300.100.1.25) and first common-name
/// (OID 2.5.4.3) attribute as strings.
#[verifier::external_body]
fn der_join_attributes(der: &Vec<u8>) -> (r: Option<(String, String)>)
    ensures
        match r {
            Some(p) => cert_join_attributes(der@) == Some((p.0@, p.1@)),
            None => cert_join_attributes(der@) is None,
        },
{
    let cert = match x509_certificate::X509Certificate::from_der(der.as_slice()) {
        Ok(c) => c,
        Err(_) => return None,
    };
    let name = cert.subject_name();
    let dc_oid = bcder::Oid(bytes::Bytes::from_static(
        &[0x09, 0x92, 0x26, 0x89, 0x93, 0xf2, 0x2c, 0x64, 0x01, 0x19],
    ));
    let cn_oid = bcder::Oid(bytes::Bytes::from_static(&[0x55, 0x04, 0x03]));
    match (name.find_first_attribute_string(dc_oid), name.find_first_attribute_string(cn_oid)) {
        (Ok(Some(dc)), Ok(Some(cn))) => Some((dc, cn)),
        _ => None,
    }
}

/// The attribute-map entry one blob contributes: the (domain-component,
/// common-name) pair of its device-join certificate, when the blob holds one
/// carrying both attributes.
pub open spec fn spec_cert_entry(blob: Seq<u8>) -> Option<(Seq<char>, Seq<char>)> {
    match spec_extract_der(blob) {
        None => None,
        Some(der) => cert_join_attributes(der),
    }
}

/// The attribute-map entries of a list of blobs, in blob order. Blobs
/// without a marker or whose certificate does not parse or lacks an
/// attribute contribute nothing; they are not errors.
pub open spec fn spec_cert_entries(blobs: Seq<Seq<u8>>) -> Seq<(Seq<char>, Seq<char>)>
    decreases blobs.len(),
{
    if blobs.len() == 0 {
        Seq::empty()
    } else {
        let rest = spec_cert_entries(blobs.drop_first());
        match spec_cert_entry(blobs[0]) {
            Some(p) => seq![p] + rest,
            None => rest,
        }
    }
}

/// The views of a list of byte vectors.
pub open spec fn byte_views(blobs: Seq<Vec<u8>>) -> Seq<Seq<u8>> {
    blobs.map_values(|b: Vec<u8>| b@)
}

/// Build the domain-component to common-name attribute map from the
/// certificate-store blobs.
pub fn build_certificate_map(blobs: &Vec<Vec<u8>>) -> (m: Vec<(String, String)>)
    ensures
        pair_views(m@) == spec_cert_entries(byte_views(blobs@)),
{
    let n = blobs.len();
    let mut m: Vec<(String, String)> = Vec::new();
    let mut i: usize = 0;
    proof {
        assert(byte_views(blobs@).skip(0) =~= byte_views(blobs@));
    }
    while i < n
        invariant
            n == blobs@.len(),
            i <= n,
            spec_cert_entries(byte_views(blobs@)) =~~= pair_views(m@) + spec_cert_entries(
                byte_views(blobs@).skip(i as int),
            ),
        decreases n - i,
    {
        let ghost prev = m@;
        let ghost tail = byte_views(blobs@).skip(i as int);
        proof {
            assert(tail[0] == blobs@[i as int]@);
            assert(tail.drop_first() =~= byte_views(blobs@).skip(i as int + 1));
        }
        let entry = match extract_certificate_der(&blobs[i]) {
            None => None,
            Some(der) => der_join_attributes(&der),
        };
        match entry {
            Some(p) => {
                m.push(p);
                proof {
                    assert(pair_views(m@) =~~= pair_views(prev).push(
                        (m@[m@.len() - 1].0@, m@[m@.len() - 1].1@),
                    ));
                }
            },
            None => {},
        }
        i = i + 1;
    }
    proof {
        assert(byte_views(blobs@).skip(n as int) =~= Seq::<Seq<u8>>::empty());
    }
    m
}

/// The value of the last entry of `m` whose key is `key`: a later
/// certificate for the same domain component overwrites an earlier one.
pub open spec fn spec_assoc_last(m: Seq<(Seq<char>, Seq<char>)>, key: Seq<char>) -> Option<
    Seq<char>,
>
    decreases m.len(),
{
    if m.len() == 0 {
        None
    } else if m.last().0 == key {
        Some(m.last().1)
    } else {
        spec_assoc_last(m.drop_last(), key)
    }
}

/// If no entry at position `i` or later matches, the lookup is decided by
/// the first `i` entries.
proof fn lemma_assoc_last_take(m: Seq<(Seq<char>, Seq<char>)>, key: Seq<char>, i: int)
    requires
        0 <= i <= m.len(),
        forall|j: int| i <= j < m.len() ==> m[j].0 != key,
    ensures
        spec_assoc_last(m, key) == spec_assoc_last(m.take(i), key),
    decreases m.len() - i,
{
    if i == m.len() {
        assert(m.take(i) =~= m);
    } else {
        assert(m.drop_last() =~= m.take(m.len() - 1));
        lemma_assoc_last_take(m.take(m.len() - 1), key, i);
        assert(m.take(m.len() - 1).take(i) =~= m.take(i));
    }
}

/// Look `key` up in the attribute map, last matching entry first.
fn assoc_last(m: &Vec<(String, String)>, key: &String) -> (r: Option<String>)
    ensures
        match r {
            Some(d) => spec_assoc_last(pair_views(m@), key@) == Some(d@),
            None => spec_assoc_last(pair_views(m@), key@) is None,
        },
{
    let n = m.len();
    let mut i: usize = n;
    while i > 0
        invariant
            n == m@.len(),
            i <= n,
            forall|j: int| i <= j < n ==> pair_views(m@)[j].0 != key@,
        decreases i,
    {
        i = i - 1;
        if str_eq(m[i].0.as_str(), key.as_str()) {
            proof {
                lemma_assoc_last_take(pair_views(m@), key@, i + 1);
                assert(pair_views(m@).take(i + 1).last() == pair_views(m@)[i as int]);
                assert(pair_views(m@).take(i + 1).last().0 == key@);
            }
            return Some(m[i].1.clone());
        }
    }
    proof {
        lemma_assoc_last_take(pair_views(m@), key@, 0);
        assert(pair_views(m@).take(0) =~= Seq::<(Seq<char>, Seq<char>)>::empty());
    }
    None
}

/// The record one tenant-join entry yields, against a given attribute map:
/// the device identifier defaults to the empty string when no certificate
/// matches the tenant.
pub open spec fn spec_join_record(
    entries: Seq<(Seq<char>, Seq<char>)>,
    tenant: (Seq<char>, Seq<char>),
) -> EntraJoinInfoV {
    EntraJoinInfoV {
        tenant_id: tenant.0,
        device_id: match spec_assoc_last(entries, tenant.0) {
            Some(d) => d,
            None => Seq::empty(),
        },
        registered_user: tenant.1,
    }
}

/// Correlate the certificate-store blobs with the tenant-join entries into
/// one device identity record per tenant-join entry.
///
/// Either registry subtree failing to read is a hard failure for the whole
/// call: the error is returned and no partial list, even when certificates
/// were found. Per-certificate marker or parse failures only reduce the
/// attribute map's coverage.
pub fn get_entra_join_info(
    cert_blobs: Result<Vec<Vec<u8>>, RegistryError>,
    tenants: Result<Vec<TenantJoinEntry>, RegistryError>,
) -> (r: Result<Vec<EntraJoinInfo>, RegistryError>)
    ensures
        match (cert_blobs, tenants) {
            (Err(e), _) => r matches Err(e2) && e2 == e,
            (Ok(_), Err(e)) => r matches Err(e2) && e2 == e,
            (Ok(blobs), Ok(ts)) => r matches Ok(recs) && recs@.len() == ts@.len() && forall|k: int|
                0 <= k < ts@.len() ==> recs@[k]@ == spec_join_record(
                    spec_cert_entries(byte_views(blobs@)),
                    ts@[k]@,
                ),
        },
{
    let blobs = match cert_blobs {
        Err(e) => {
            return Err(e);
        },
        Ok(b) => b,
    };
    let ts = match tenants {
        Err(e) => {
            return Err(e);
        },
        Ok(t) => t,
    };
    let entries = build_certificate_map(&blobs);
    let n = ts.len();
    let mut out: Vec<EntraJoinInfo> = Vec::new();
    let mut k: usize = 0;
    while k < n
        invariant
            n == ts@.len(),
            k <= n,
            out@.len() == k,
            pair_views(entries@) == spec_cert_entries(byte_views(blobs@)),
            forall|j: int|
                0 <= j < k ==> out@[j]@ == spec_join_record(pair_views(entries@), ts@[j]@),
        decreases n - k,
    {
        let device_id = match assoc_last(&entries, &ts[k].tenant_id) {
            Some(d) => d,
            None => String::new(),
        };
        out.push(
            EntraJoinInfo {
                tenant_id: ts[k].tenant_id.clone(),
                device_id,
                registered_user: ts[k].registered_user.clone(),
            },
        );
        k = k + 1;
    }
    Ok(out)
}

} // verus!
