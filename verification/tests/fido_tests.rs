use picoforge::cbor::{cbor_encode, dict_get_int, Cbor};
use picoforge::clientpin::{encrypt_pin_hash, parse_key_agreement_response, PinSession};
use picoforge::constants::ClientPinResponseParam;
use picoforge::getinfo::{add_certifications, flag_get, parse_get_info};

fn ci(n: i128) -> Cbor {
    Cbor::Int(n)
}

fn text(s: &str) -> Cbor {
    Cbor::Text(s.to_string())
}

#[test]
fn test_client_pin_command_ordering() {
    let map = Cbor::Dict(vec![
        (ci(0x01), ci(1)),
        (ci(0x02), ci(8)),
        (ci(0x03), Cbor::Dict(vec![])),
        (ci(0x04), Cbor::Bytes(vec![0u8; 16])),
        (ci(0x09), ci(0x01)),
    ]);
    let cbor = cbor_encode(&map);
    assert_eq!(cbor[0], 0xA5);
    assert_eq!(cbor[1], 0x01);
}

#[test]
fn test_get_key_agreement_parsing_logic() {
    let inner = Cbor::Dict(vec![
        (ci(1), ci(2)),
        (ci(-1), ci(1)),
        (ci(-2), Cbor::Bytes(vec![0xAA; 32])),
        (ci(-3), Cbor::Bytes(vec![0xBB; 32])),
    ]);
    let resp = Cbor::Dict(vec![(ci(ClientPinResponseParam::KeyAgreement.value() as i128), inner)]);
    let bytes = cbor_encode(&resp);
    let key_agreement = parse_key_agreement_response(&bytes);
    assert!(key_agreement.is_ok());
    match key_agreement.unwrap() {
        Cbor::Dict(km) => match dict_get_int(&km, -2) {
            Some(Cbor::Bytes(b)) => assert_eq!(b, &vec![0xAA; 32]),
            _ => panic!("KeyAgreement should be a map"),
        },
        _ => panic!("Expected map"),
    }
}

#[test]
fn test_pin_hash_encryption_actually_encrypts() {
    let pin = "123456";
    let pin_hash = ring::digest::digest(&ring::digest::SHA256, pin.as_bytes());
    let pin_hash_16 = &pin_hash.as_ref()[0..16];
    let session = PinSession { platform_x: vec![0u8; 32], platform_y: vec![0u8; 32], shared_secret: vec![0u8; 32] };
    let block = encrypt_pin_hash(&session, pin);
    assert_eq!(block.len(), 16);
    assert_ne!(
        block.as_slice(),
        pin_hash_16,
        "Encryption did not modify the block — the old bug is back!"
    );
}

#[test]
fn test_parse_certifications_map() {
    let mut certifications: Vec<(String, bool)> = Vec::new();
    let val = Cbor::Dict(vec![
        (text("fido-v2"), Cbor::Bool(true)),
        (text("0x6C07D70FE96C3897"), Cbor::Bool(true)),
    ]);
    add_certifications(&mut certifications, &val);
    assert_eq!(certifications.len(), 2);
    assert_eq!(flag_get(&certifications, "fido-v2"), Some(true));
    assert_eq!(flag_get(&certifications, "PIN Complexity"), Some(true));
}

#[test]
fn test_parse_certifications_array() {
    let mut certifications: Vec<(String, bool)> = Vec::new();
    let val = Cbor::Array(vec![ci(0x6C07D70FE96C3897), ci(0x03E43F56B34285E2), ci(0x1234567890ABCDEF)]);
    add_certifications(&mut certifications, &val);
    assert_eq!(certifications.len(), 3);
    assert_eq!(flag_get(&certifications, "PIN Complexity"), Some(true));
    assert_eq!(flag_get(&certifications, "Auth Encryption"), Some(true));
    assert_eq!(flag_get(&certifications, &format!("0x{:016X}", 0x1234567890ABCDEFu64)), Some(true));
    assert_eq!(flag_get(&certifications, "0x1234567890ABCDEF"), Some(true));
}

#[test]
fn test_parse_get_info_all_keys() {
    let alg_map = Cbor::Dict(vec![(text("alg"), ci(-7))]);
    let map = Cbor::Dict(vec![
        (ci(0x01), Cbor::Array(vec![text("FIDO_2_1")])),
        (ci(0x03), Cbor::Bytes(vec![0x01, 0x02, 0x03, 0x04])),
        (ci(0x05), ci(1024)),
        (ci(0x07), ci(16)),
        (ci(0x08), ci(64)),
        (ci(0x0A), Cbor::Array(vec![alg_map])),
        (ci(0x0B), ci(2048)),
        (ci(0x0C), Cbor::Bool(true)),
        (ci(0x0D), ci(4)),
        (ci(0x0E), ci(0x0102)),
        (ci(0x0F), ci(128)),
    ]);
    let bytes = cbor_encode(&map);
    let info = parse_get_info(&bytes).expect("GetInfo parses");
    assert_eq!(info.versions, vec!["FIDO_2_1".to_string()]);
    assert_eq!(info.aaguid, "01020304");
    assert_eq!(info.max_msg_size, 1024);
    assert_eq!(info.max_credential_count_in_list, Some(16));
    assert_eq!(info.max_credential_id_length, Some(64));
    assert_eq!(info.algorithms, vec!["ES256".to_string()]);
    assert_eq!(info.max_serialized_large_blob_array, Some(2048));
    assert_eq!(info.force_pin_change, Some(true));
    assert_eq!(info.min_pin_length, 4);
    assert_eq!(info.firmware_version, "1.2");
    assert_eq!(info.max_cred_blob_length, Some(128));
}
