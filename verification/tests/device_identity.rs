//! Device identity correlation and emission batches.

use cua::collect_logs;
use cua::device::extract_certificate_der;
use cua::get_entra_join_info;
use cua::CurrentUserInfo;
use cua::EmittedRecord;
use cua::RegistryError;
use cua::ResolveError;
use cua::TenantJoinEntry;

const MARKER: [u8; 8] = [0x20, 0x00, 0x00, 0x00, 0x01, 0x00, 0x00, 0x00];

fn tenant(id: &str, user: &str) -> TenantJoinEntry {
    TenantJoinEntry {
        tenant_id: id.to_string(),
        registered_user: user.to_string(),
    }
}

#[test]
fn marker_locates_certificate_bytes() {
    let mut blob = vec![0xaa, 0xbb];
    blob.extend_from_slice(&MARKER);
    blob.extend_from_slice(&[9, 9, 9, 9]); // length field, skipped
    blob.extend_from_slice(&[0x30, 0x82, 0x01]); // certificate bytes
    assert_eq!(extract_certificate_der(&blob), Some(vec![0x30, 0x82, 0x01]));
}

#[test]
fn absent_marker_yields_nothing() {
    assert_eq!(extract_certificate_der(&vec![1, 2, 3, 4, 5, 6, 7, 8, 9]), None);
}

#[test]
fn marker_too_close_to_the_end_yields_nothing() {
    let mut blob = MARKER.to_vec();
    blob.extend_from_slice(&[1, 2]); // truncated length field
    assert_eq!(extract_certificate_der(&blob), None);
}

#[test]
fn marker_with_exactly_the_length_field_yields_empty_bytes() {
    let mut blob = MARKER.to_vec();
    blob.extend_from_slice(&[0, 0, 0, 0]);
    assert_eq!(extract_certificate_der(&blob), Some(vec![]));
}

#[test]
fn tenant_without_matching_certificate_yields_empty_device_id() {
    let records = get_entra_join_info(
        Ok(vec![]),
        Ok(vec![tenant("tenant-a", "alice@example.com")]),
    )
    .expect("correlation should succeed");
    assert_eq!(records.len(), 1);
    assert_eq!(records[0].tenant_id, "tenant-a");
    assert_eq!(records[0].device_id, "");
    assert_eq!(records[0].registered_user, "alice@example.com");
}

#[test]
fn tenant_read_failure_yields_error_and_zero_records() {
    // A blob with the marker is present, but the tenant subtree failed:
    // the whole call errors, no partial results.
    let mut blob = MARKER.to_vec();
    blob.extend_from_slice(&[0, 0, 0, 0, 1, 2, 3]);
    let r = get_entra_join_info(
        Ok(vec![blob]),
        Err(RegistryError { message: "tenant subtree unreadable".to_string() }),
    );
    match r {
        Err(e) => assert_eq!(e.message, "tenant subtree unreadable"),
        Ok(_) => panic!("expected the tenant-read failure to propagate"),
    }
}

#[test]
fn certificate_read_failure_yields_error() {
    let r = get_entra_join_info(
        Err(RegistryError { message: "certificate subtree unreadable".to_string() }),
        Ok(vec![tenant("tenant-a", "alice@example.com")]),
    );
    match r {
        Err(e) => assert_eq!(e.message, "certificate subtree unreadable"),
        Ok(_) => panic!("expected the certificate-read failure to propagate"),
    }
}

#[test]
fn blob_that_does_not_parse_contributes_nothing() {
    // Marker present, but the bytes after it are not a certificate: the
    // entry is skipped silently and the record still appears, empty.
    let mut blob = MARKER.to_vec();
    blob.extend_from_slice(&[0x10, 0, 0, 0, 0xde, 0xad, 0xbe, 0xef]);
    let records = get_entra_join_info(
        Ok(vec![blob, vec![1, 2, 3]]),
        Ok(vec![tenant("tenant-a", "alice@example.com")]),
    )
    .expect("correlation should succeed");
    assert_eq!(records.len(), 1);
    assert_eq!(records[0].device_id, "");
}

#[test]
fn one_record_per_tenant_entry_in_order() {
    let records = get_entra_join_info(
        Ok(vec![]),
        Ok(vec![tenant("t1", "u1@example.com"), tenant("t2", "u2@example.com")]),
    )
    .expect("correlation should succeed");
    assert_eq!(records.len(), 2);
    assert_eq!(records[0].tenant_id, "t1");
    assert_eq!(records[1].tenant_id, "t2");
}

#[test]
fn collect_logs_emits_tenant_records_then_user_record() {
    let device = get_entra_join_info(
        Ok(vec![]),
        Ok(vec![tenant("t1", "u1@example.com")]),
    );
    let user = Ok(Some(CurrentUserInfo {
        sid: "S-1-12-1-1-2-3-4".to_string(),
        username: "alice@contoso.com".to_string(),
        user_type: "AzureAD".to_string(),
        azure_ad_object_id: Some("01000000-0200-0000-0300-000004000000".to_string()),
    }));
    let out = collect_logs(device, user);
    assert_eq!(out.len(), 2);
    match &out[0] {
        EmittedRecord::TenantInfo { tenant_id, device_id, registered_user } => {
            assert_eq!(tenant_id, "t1");
            assert_eq!(device_id, "");
            assert_eq!(registered_user, "u1@example.com");
        }
        other => panic!("expected a tenant record, got {:?}", other),
    }
    match &out[1] {
        EmittedRecord::CurrentUser { user_sid, username, user_type, azure_ad_object_id } => {
            assert_eq!(user_sid, "S-1-12-1-1-2-3-4");
            assert_eq!(username, "alice@contoso.com");
            assert_eq!(user_type, "AzureAD");
            assert_eq!(
                azure_ad_object_id.as_deref(),
                Some("01000000-0200-0000-0300-000004000000")
            );
        }
        other => panic!("expected a user record, got {:?}", other),
    }
}

#[test]
fn collect_logs_reports_failures_per_pass() {
    let out = collect_logs(
        Err(RegistryError { message: "no registry".to_string() }),
        Err(ResolveError::TokenQuery { message: "no token".to_string() }),
    );
    assert_eq!(out.len(), 2);
    assert!(
        matches!(&out[0], EmittedRecord::TenantInfoError { message } if message == "no registry")
    );
    assert!(
        matches!(&out[1], EmittedRecord::CurrentUserError { message } if message == "no token")
    );
}

#[test]
fn collect_logs_reports_no_user_as_absence() {
    let out = collect_logs(Ok(vec![]), Ok(None));
    assert_eq!(out.len(), 1);
    assert!(matches!(out[0], EmittedRecord::NoCurrentUser));
}
