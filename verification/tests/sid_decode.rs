//! SID whitelist, classification, and cloud object-identifier decoding.

use cua::convert_azure_ad_sid_to_object_id;
use cua::is_whitelisted_sid;
use cua::user_type_for_sid;

#[test]
fn small_cloud_sid_decodes_to_expected_identifier() {
    // 1, 2, 3, 4 as little-endian 4-byte groups.
    assert_eq!(
        convert_azure_ad_sid_to_object_id("S-1-12-1-1-2-3-4"),
        Some("01000000-0200-0000-0300-000004000000".to_string())
    );
}

#[test]
fn realistic_cloud_sid_decodes_to_expected_identifier() {
    assert_eq!(
        convert_azure_ad_sid_to_object_id(
            "S-1-12-1-2972021878-1304051170-2167207259-2621117692"
        ),
        Some("767425b1-e23d-ba4d-5bf5-2c81fc143b9c".to_string())
    );
}

#[test]
fn decoding_is_deterministic() {
    let sid = "S-1-12-1-2972021878-1304051170-2167207259-2621117692";
    assert_eq!(
        convert_azure_ad_sid_to_object_id(sid),
        convert_azure_ad_sid_to_object_id(sid)
    );
}

#[test]
fn fewer_than_four_numeric_components_yield_no_identifier() {
    assert_eq!(convert_azure_ad_sid_to_object_id("S-1-12-1-1-2-3"), None);
    assert_eq!(convert_azure_ad_sid_to_object_id("S-1-12-1-"), None);
    assert_eq!(convert_azure_ad_sid_to_object_id("S-1-12-1"), None);
}

#[test]
fn non_numeric_components_are_skipped() {
    // "x" does not parse; the four numeric components still decode.
    assert_eq!(
        convert_azure_ad_sid_to_object_id("S-1-12-1-1-x-2-3-4"),
        Some("01000000-0200-0000-0300-000004000000".to_string())
    );
    // A component beyond 32 bits does not parse either.
    assert_eq!(
        convert_azure_ad_sid_to_object_id("S-1-12-1-99999999999-1-2-3"),
        None
    );
}

#[test]
fn whitelisted_prefixes_are_recognized() {
    assert!(is_whitelisted_sid("S-1-5-96-0-1"));
    assert!(is_whitelisted_sid("S-1-5-90-0-2"));
    assert!(is_whitelisted_sid("S-1-5-96"));
    assert!(!is_whitelisted_sid("S-1-5-21-1111-2222-3333-1001"));
    assert!(!is_whitelisted_sid("S-1-12-1-1-2-3-4"));
    assert!(!is_whitelisted_sid(""));
}

#[test]
fn user_type_follows_cloud_prefix() {
    assert_eq!(user_type_for_sid("S-1-12-1-1-2-3-4"), "AzureAD");
    assert_eq!(user_type_for_sid("S-1-5-21-1111-2222-3333-1001"), "DomainOrLocal");
    assert_eq!(user_type_for_sid(""), "DomainOrLocal");
}
