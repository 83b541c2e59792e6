use picoforge::cbor::{cbor_encode, Cbor};
use picoforge::ctaphid::{
    first_fido_interface, init_request, parse_init_response, product_name_or_default, request_reports,
    ResponseAssembler, CTAPHID_CBOR, CTAPHID_ERROR, CTAPHID_KEEPALIVE, HID_USAGE_PAGE_FIDO,
};
use picoforge::error::{error_mentions, PFError};

fn frames_of(reports: &[Vec<u8>]) -> Vec<Vec<u8>> {
    reports.iter().map(|r| r[1..].to_vec()).collect()
}

fn reassemble(cid: u32, cmd: u8, frames: &[Vec<u8>]) -> Option<Result<Vec<u8>, PFError>> {
    let mut reader = ResponseAssembler::new(cid, cmd);
    for f in frames {
        if let Some(r) = reader.feed(f) {
            return Some(r);
        }
    }
    None
}

#[test]
fn framing_short_payload_is_one_report() {
    let reports = request_reports(0x01020304, CTAPHID_CBOR, &[0x04]);
    assert_eq!(reports.len(), 1);
    assert_eq!(reports[0].len(), 65);
    assert_eq!(&reports[0][0..8], &[0x00, 0x01, 0x02, 0x03, 0x04, 0x90, 0x00, 0x01]);
    assert_eq!(reports[0][8], 0x04);
    assert!(reports[0][9..].iter().all(|b| *b == 0));
}

#[test]
fn framing_long_payload_uses_continuations() {
    let payload: Vec<u8> = (0..200u32).map(|i| i as u8).collect();
    let reports = request_reports(7, CTAPHID_CBOR, &payload);
    assert_eq!(reports.len(), 4);
    assert_eq!(reports[1][5], 0);
    assert_eq!(reports[2][5], 1);
    assert_eq!(reports[3][5], 2);
    assert_eq!(reports[1][6], 57);
}

#[test]
fn framing_roundtrip_reassembles_payload() {
    // A response carries a zero status byte before its payload.
    let mut response = vec![0u8];
    response.extend((0..150u32).map(|i| (i * 3) as u8));
    let frames = frames_of(&request_reports(0xCAFEBABE, CTAPHID_CBOR, &response));
    let got = reassemble(0xCAFEBABE, CTAPHID_CBOR, &frames).expect("complete");
    assert_eq!(got.unwrap(), response[1..].to_vec());
}

#[test]
fn assembler_skips_other_channels_and_keepalives() {
    let frames = frames_of(&request_reports(5, CTAPHID_CBOR, &[0x00, 0xAA]));
    let other = frames_of(&request_reports(6, CTAPHID_CBOR, &[0x00, 0xBB]));
    let mut keepalive = vec![0u8; 64];
    keepalive[..4].copy_from_slice(&5u32.to_be_bytes());
    keepalive[4] = CTAPHID_KEEPALIVE;
    let all = vec![other[0].clone(), keepalive, frames[0].clone()];
    assert_eq!(reassemble(5, CTAPHID_CBOR, &all).unwrap().unwrap(), vec![0xAA]);
}

#[test]
fn assembler_reports_ctap_status_error() {
    let frames = frames_of(&request_reports(9, CTAPHID_CBOR, &[0x2E]));
    let err = reassemble(9, CTAPHID_CBOR, &frames).unwrap().unwrap_err();
    assert_eq!(err.message(), "Device error: FIDO Operation Failed with Status: 0x2E");
    assert!(error_mentions(&err, "0x2E"));
}

#[test]
fn assembler_reports_hid_error() {
    let mut f = vec![0u8; 64];
    f[..4].copy_from_slice(&9u32.to_be_bytes());
    f[4] = CTAPHID_ERROR;
    f[5] = 0x11;
    let err = reassemble(9, CTAPHID_CBOR, &[f]).unwrap().unwrap_err();
    assert_eq!(err.message(), "Device error: Device returned CTAP Error: 0x11");
}

#[test]
fn assembler_reports_unexpected_command() {
    let frames = frames_of(&request_reports(9, 0x83, &[0x00]));
    let err = reassemble(9, CTAPHID_CBOR, &frames).unwrap().unwrap_err();
    assert_eq!(err.message(), "Device error: Unexpected command response: 0x83 (Expected 0x90)");
}

#[test]
fn assembler_reports_sequence_mismatch() {
    let mut response = vec![0u8];
    response.extend(vec![1u8; 100]);
    let mut frames = frames_of(&request_reports(3, CTAPHID_CBOR, &response));
    frames[1][4] = 5;
    let err = reassemble(3, CTAPHID_CBOR, &frames).unwrap().unwrap_err();
    assert_eq!(err.message(), "Device error: Sequence mismatch");
}

#[test]
fn init_exchange_assigns_channel() {
    let nonce = [1u8, 2, 3, 4, 5, 6, 7, 8];
    let req = init_request(&nonce);
    assert_eq!(req.len(), 65);
    assert_eq!(&req[1..8], &[0xFF, 0xFF, 0xFF, 0xFF, 0x86, 0x00, 0x08]);
    assert_eq!(&req[8..16], &nonce);
    let mut answer = vec![0u8; 64];
    answer[..4].copy_from_slice(&[0xFF; 4]);
    answer[4] = 0x86;
    answer[7..15].copy_from_slice(&nonce);
    answer[15..19].copy_from_slice(&[0x12, 0x34, 0x56, 0x78]);
    assert_eq!(parse_init_response(&answer, &nonce), Some(0x12345678));
    answer[8] = 0;
    assert_eq!(parse_init_response(&answer, &nonce), None);
}

#[test]
fn fido_interface_is_found_by_usage_page() {
    assert_eq!(first_fido_interface(&[0x0001, HID_USAGE_PAGE_FIDO, HID_USAGE_PAGE_FIDO]), Some(1));
    assert_eq!(first_fido_interface(&[0x0001, 0x000C]), None);
    assert_eq!(product_name_or_default(None), "Unknown FIDO Device");
    assert_eq!(product_name_or_default(Some("Pico Key".to_string())), "Pico Key");
}

#[test]
fn cbor_map_keys_are_written_in_order() {
    let m = Cbor::Dict(vec![(Cbor::Int(4), Cbor::Int(1)), (Cbor::Int(1), Cbor::Int(2))]);
    assert_eq!(cbor_encode(&m), vec![0xA2, 0x01, 0x02, 0x04, 0x01]);
}
