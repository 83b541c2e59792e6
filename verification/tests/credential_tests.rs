use picoforge::cbor::{cbor_encode, Cbor};
use picoforge::credmgmt::{
    credential_descriptor, delete_credential_failure, enumerate_credentials_failure, enumerate_rps_begin_request,
    enumerate_rps_failure, enumerate_rps_next_request, list_credentials, parse_rp_answer, rp_labels,
    stored_credential, CredentialEnumeration, EnumerateCredentialResponse, EnumerateRpResponse, RpEnumeration,
};
use picoforge::error::PFError;

fn ci(n: i128) -> Cbor {
    Cbor::Int(n)
}

fn text(s: &str) -> Cbor {
    Cbor::Text(s.to_string())
}

fn rp_answer(id: &str, hash: u8, total: Option<i128>) -> Vec<u8> {
    let mut m = vec![
        (ci(3), Cbor::Dict(vec![(text("id"), text(id))])),
        (ci(4), Cbor::Bytes(vec![hash; 32])),
    ];
    if let Some(t) = total {
        m.push((ci(5), ci(t)));
    }
    cbor_encode(&Cbor::Dict(m))
}

fn cred_answer(name: &str, user_id: &[u8], cred_id: &[u8], total: Option<i128>) -> Vec<u8> {
    let mut m = vec![
        (ci(6), Cbor::Dict(vec![
            (text("id"), Cbor::Bytes(user_id.to_vec())),
            (text("name"), text(name)),
            (text("displayName"), text("Display")),
        ])),
        (ci(7), Cbor::Dict(vec![(text("id"), Cbor::Bytes(cred_id.to_vec())), (text("type"), text("public-key"))])),
        (ci(8), Cbor::Dict(vec![(ci(1), ci(2))])),
    ];
    if let Some(t) = total {
        m.push((ci(9), ci(t)));
    }
    cbor_encode(&Cbor::Dict(m))
}

fn no_credentials() -> PFError {
    PFError::Device("FIDO Operation Failed with Status: 0x2E".to_string())
}

#[test]
fn rp_enumeration_reads_all_announced_entries() {
    let mut e = RpEnumeration::begin(Ok(rp_answer("a.example", 1, Some(2)))).unwrap();
    assert_eq!(e.rps.len(), 1);
    assert_eq!(e.total, Some(2));
    assert!(e.wants_more());
    e.next(Ok(rp_answer("b.example", 2, None))).unwrap();
    assert!(!e.wants_more());
    assert_eq!(e.rps.len(), 2);
    assert_eq!(e.rps[1].rp_id_hash, vec![2u8; 32]);
    assert_eq!(e.rps[1].total_rps, Some(2));
}

#[test]
fn rp_enumeration_without_credentials_is_empty() {
    let e = RpEnumeration::begin(Err(no_credentials())).unwrap();
    assert!(e.rps.is_empty());
    assert!(e.finished);
    assert!(!e.wants_more());
}

#[test]
fn rp_enumeration_passes_other_errors_on() {
    let r = RpEnumeration::begin(Err(PFError::Io("gone".to_string())));
    assert_eq!(r.unwrap_err().message(), "IO error: gone");
}

#[test]
fn rp_enumeration_stops_at_no_more_credentials() {
    let mut e = RpEnumeration::begin(Ok(rp_answer("a", 1, Some(3)))).unwrap();
    e.next(Err(no_credentials())).unwrap();
    assert!(e.finished);
    assert!(!e.wants_more());
    assert_eq!(e.rps.len(), 1);
}

#[test]
fn rp_answer_errors_name_the_stage() {
    let missing_rp = cbor_encode(&Cbor::Dict(vec![(ci(4), Cbor::Bytes(vec![0; 32]))]));
    let e = parse_rp_answer(&missing_rp, "EnumerateRpsBegin", true, None).unwrap_err();
    assert_eq!(e.message(), "Device error: RP not found in EnumerateRpsBegin response");
    let missing_hash = cbor_encode(&Cbor::Dict(vec![(ci(3), Cbor::Dict(vec![]))]));
    let e = parse_rp_answer(&missing_hash, "EnumerateRpsGetNextRp", false, None).unwrap_err();
    assert_eq!(e.message(), "Device error: RpIdHash not found in EnumerateRpsGetNextRp response");
    assert!(parse_rp_answer(&cbor_encode(&ci(5)), "x", true, None).unwrap().is_none());
    assert!(matches!(parse_rp_answer(&[0xFF], "x", true, None), Err(PFError::Io(_))));
}

#[test]
fn credential_enumeration_and_listing() {
    let mut e = CredentialEnumeration::begin(Ok(cred_answer("alice", &[0xAB, 0x01], &[0xDE, 0xAD], Some(2)))).unwrap();
    assert!(e.wants_more());
    e.next(Ok(cred_answer("bob", &[0x02], &[0xBE, 0xEF], None))).unwrap();
    assert!(!e.wants_more());
    let rp = EnumerateRpResponse {
        rp: Cbor::Dict(vec![(text("id"), text("example.com"))]),
        rp_id_hash: vec![0; 32],
        total_rps: None,
    };
    let list = list_credentials(&rp, &e.creds);
    assert_eq!(list.len(), 2);
    assert_eq!(list[0].rp_id, "example.com");
    assert_eq!(list[0].rp_name, "example.com");
    assert_eq!(list[0].user_name, "alice");
    assert_eq!(list[0].user_display_name, "Display");
    assert_eq!(list[0].user_id, "ab01");
    assert_eq!(list[0].credential_id, "dead");
    assert_eq!(list[1].credential_id, "beef");
}

#[test]
fn credential_answer_without_user_is_refused() {
    let a = cbor_encode(&Cbor::Dict(vec![(ci(7), Cbor::Dict(vec![]))]));
    let e = CredentialEnumeration::begin(Ok(a)).unwrap_err();
    assert_eq!(e.message(), "Device error: User not found in EnumerateCredentialsBegin response");
}

#[test]
fn rp_labels_fall_back() {
    assert_eq!(rp_labels(&ci(1)), ("Unknown".to_string(), "Unknown".to_string()));
    let rp = Cbor::Dict(vec![(text("id"), text("x.org")), (text("name"), text("X"))]);
    assert_eq!(rp_labels(&rp), ("x.org".to_string(), "X".to_string()));
}

#[test]
fn stored_credential_without_maps_is_empty() {
    let c = EnumerateCredentialResponse { user: ci(1), credential_id: ci(2), public_key: ci(3), total_credentials: None };
    let s = stored_credential(&"rp".to_string(), &"RP".to_string(), &c);
    assert_eq!(s.credential_id, "");
    assert_eq!(s.user_id, "");
    assert_eq!(s.user_name, "");
}

#[test]
fn listed_id_gives_descriptor_for_deletion() {
    match credential_descriptor("dEaD").unwrap() {
        Cbor::Dict(m) => {
            assert_eq!(m.len(), 2);
            assert!(matches!(&m[1].1, Cbor::Bytes(b) if b == &vec![0xDE, 0xAD]));
            assert!(matches!(&m[0].1, Cbor::Text(t) if t == "public-key"));
        }
        _ => panic!("descriptor is a map"),
    }
    assert_eq!(credential_descriptor("abc").unwrap_err(), "Invalid Credential ID Hex string");
    assert_eq!(credential_descriptor("zz").unwrap_err(), "Invalid Credential ID Hex string");
}

#[test]
fn credential_requests_and_reports() {
    assert_eq!(enumerate_rps_next_request(), vec![0x0A, 0xA1, 0x01, 0x03]);
    let begin = enumerate_rps_begin_request(&[0u8; 32]);
    assert_eq!(begin[0], 0x0A);
    assert_eq!(begin[1], 0xA3);
    let e = PFError::NoDevice;
    assert_eq!(enumerate_rps_failure(&e), "Failed to enumerate Relying Parties: No device found");
    assert_eq!(
        enumerate_credentials_failure("x.org", &e),
        "Failed to enumerate credentials for RP x.org: No device found"
    );
    assert_eq!(delete_credential_failure(&e), "Failed to delete credential: No device found");
}
