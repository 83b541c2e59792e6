use picoforge::cbor::{cbor_encode, Cbor};
use picoforge::clientpin::{authenticate, key_agreement_peer, parse_pin_token_response, session_from, PinSession};
use picoforge::config::{sign_config_command, vendor_config_failure};
use picoforge::credmgmt::{
    credential_deleted_message, credential_details_title, credential_display_name, sign_credential_mgmt_command,
};
use picoforge::error::PFError;
use picoforge::fidodevice::{config_written_message, token_acquisition_failure};
use picoforge::types::StoredCredential;

fn ci(n: i128) -> Cbor {
    Cbor::Int(n)
}

fn cose_key(x: Vec<u8>, y: Vec<u8>) -> Cbor {
    Cbor::Dict(vec![(ci(1), ci(2)), (ci(3), ci(-25)), (ci(-1), ci(1)), (ci(-2), Cbor::Bytes(x)), (ci(-3), Cbor::Bytes(y))])
}

#[test]
fn peer_point_is_x_then_y() {
    let peer = key_agreement_peer(&cose_key(vec![0xAA; 32], vec![0xBB; 32])).unwrap();
    assert_eq!(peer.len(), 65);
    assert_eq!(peer[0], 0x04);
    assert_eq!(&peer[1..33], &[0xAA; 32][..]);
    assert_eq!(&peer[33..65], &[0xBB; 32][..]);
}

#[test]
fn peer_point_errors() {
    match key_agreement_peer(&ci(3)) {
        Err(PFError::Device(t)) => assert_eq!(t, "Invalid KeyAgreement format"),
        _ => panic!("expected a format error"),
    }
    let no_x = Cbor::Dict(vec![(ci(-3), Cbor::Bytes(vec![1; 32]))]);
    match key_agreement_peer(&no_x) {
        Err(PFError::Device(t)) => assert_eq!(t, "Invalid KeyAgreement X coordinate"),
        _ => panic!("expected an X error"),
    }
    let no_y = Cbor::Dict(vec![(ci(-2), Cbor::Bytes(vec![1; 32])), (ci(-3), ci(0))]);
    match key_agreement_peer(&no_y) {
        Err(PFError::Device(t)) => assert_eq!(t, "Invalid KeyAgreement Y coordinate"),
        _ => panic!("expected a Y error"),
    }
}

#[test]
fn session_takes_coordinates_and_hashes_secret() {
    let mut public = vec![0x04u8];
    public.extend(vec![0x11u8; 32]);
    public.extend(vec![0x22u8; 32]);
    let z = vec![0x33u8; 32];
    let s = session_from(&public, &z);
    assert_eq!(s.platform_x, vec![0x11u8; 32]);
    assert_eq!(s.platform_y, vec![0x22u8; 32]);
    let digest = ring::digest::digest(&ring::digest::SHA256, &z);
    assert_eq!(s.shared_secret.as_slice(), digest.as_ref());
}

#[test]
fn missing_token_texts() {
    let session = PinSession { platform_x: vec![0u8; 32], platform_y: vec![0u8; 32], shared_secret: vec![0u8; 32] };
    let resp = cbor_encode(&Cbor::Dict(vec![(ci(1), ci(0))]));
    match parse_pin_token_response(&session, &resp, false) {
        Err(PFError::Device(t)) => assert_eq!(t, "pinToken not found in response"),
        _ => panic!("expected a missing token"),
    }
    match parse_pin_token_response(&session, &resp, true) {
        Err(PFError::Device(t)) => assert_eq!(t, "pinUvAuthToken not found in response"),
        _ => panic!("expected a missing token"),
    }
    let not_map = cbor_encode(&ci(5));
    match parse_pin_token_response(&session, &not_map, true) {
        Err(PFError::Device(t)) => assert_eq!(t, "Unexpected response format"),
        _ => panic!("expected a format error"),
    }
}

#[test]
fn signatures_have_sixteen_bytes() {
    let token = vec![7u8; 32];
    assert_eq!(authenticate(&token, b"abc").len(), 16);
    assert_eq!(sign_config_command(&token, 0xFF, &[1, 2, 3]).len(), 16);
    assert_eq!(sign_credential_mgmt_command(&token, 4, Some(&[9, 9])).len(), 16);
    let key = ring::hmac::Key::new(ring::hmac::HMAC_SHA256, &token);
    let tag = ring::hmac::sign(&key, b"abc");
    assert_eq!(authenticate(&token, b"abc").as_slice(), &tag.as_ref()[0..16]);
}

#[test]
fn fido_write_texts() {
    match vendor_config_failure(&PFError::Device("boom".to_string())) {
        PFError::Device(t) => assert!(t.starts_with("FIDO config failed: ") && t.contains("boom")),
        _ => panic!("expected a device error"),
    }
    match token_acquisition_failure("Device(\"x\")") {
        PFError::Device(t) => assert_eq!(t, "PIN token acquisition failed: Device(\"x\")"),
        _ => panic!("expected a device error"),
    }
    assert_eq!(
        config_written_message(),
        "Configuration updated successfully! Unplug and re-plug the device to apply VID/PID changes."
    );
    assert_eq!(credential_deleted_message(), "Credential deleted successfully");
}

fn cred(rp_id: &str, rp_name: &str, display: &str) -> StoredCredential {
    StoredCredential {
        credential_id: "ab".to_string(),
        rp_id: rp_id.to_string(),
        rp_name: rp_name.to_string(),
        user_name: "u".to_string(),
        user_display_name: display.to_string(),
        user_id: "01".to_string(),
    }
}

#[test]
fn details_sheet_labels() {
    assert_eq!(credential_details_title(&cred("example.com", "Example", "")), "Example");
    assert_eq!(credential_details_title(&cred("example.com", "", "")), "example.com");
    assert_eq!(credential_details_title(&cred("", "", "")), "Passkey Details");
    assert_eq!(credential_display_name(&cred("a", "b", "")), "N/A");
    assert_eq!(credential_display_name(&cred("a", "b", "Alice")), "Alice");
}
