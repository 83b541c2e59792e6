use picoforge::cbor::{cbor_encode, Cbor};
use picoforge::constants::VendorConfigCommand;
use picoforge::ctaphid::CTAPHID_CBOR;
use picoforge::error::PFError;
use picoforge::fidodevice::{
    config_pin, fido_config_commands, get_info_request, hex4, memory_stats_outcome, memory_stats_request,
    open_failure, parse_device_identity, physical_config_from, physical_config_request, read_device_details,
    FidoDetailsStage, FidoDetailsStep,
};
use picoforge::getinfo::{firmware_version_text, flag_get, flag_set, get_info_failure, parse_get_info};
use picoforge::types::{AppConfigInput, DeviceMethod};

fn ci(n: i128) -> Cbor {
    Cbor::Int(n)
}

fn text(s: &str) -> Cbor {
    Cbor::Text(s.to_string())
}

fn no_input() -> AppConfigInput {
    AppConfigInput {
        vid: None,
        pid: None,
        product_name: None,
        led_gpio: None,
        led_brightness: None,
        touch_timeout: None,
        led_driver: None,
        led_dimmable: None,
        power_cycle_on_reset: None,
        led_steady: None,
        enable_secp256k1: None,
    }
}

#[test]
fn get_info_reads_lists_and_labels() {
    let map = Cbor::Dict(vec![
        (ci(0x02), Cbor::Array(vec![text("credProtect"), ci(3), text("hmac-secret")])),
        (ci(0x04), Cbor::Dict(vec![(text("rk"), Cbor::Bool(true)), (text("clientPin"), Cbor::Bool(false)), (ci(1), Cbor::Bool(true))])),
        (ci(0x06), Cbor::Array(vec![ci(2), ci(1)])),
        (ci(0x0A), Cbor::Array(vec![Cbor::Dict(vec![(text("alg"), ci(-999))]), Cbor::Dict(vec![(text("alg"), ci(-8))])])),
        (ci(0x13), Cbor::Array(vec![ci(0x03E43F56B34285E2), ci(0x10)])),
        (ci(0x14), ci(55)),
        (text("ignored"), ci(1)),
    ]);
    let info = parse_get_info(&cbor_encode(&map)).unwrap();
    assert_eq!(info.extensions, vec!["credProtect".to_string(), "hmac-secret".to_string()]);
    assert_eq!(info.options.len(), 2);
    assert_eq!(flag_get(&info.options, "rk"), Some(true));
    assert_eq!(flag_get(&info.options, "clientPin"), Some(false));
    assert_eq!(info.pin_protocols, vec![2, 1]);
    assert_eq!(info.algorithms, vec!["Unknown (-999)".to_string(), "EdDSA".to_string()]);
    assert_eq!(info.vendor_config_commands, vec!["AuthEncryptionEnable".to_string(), "0x0000000000000010".to_string()]);
    assert_eq!(info.remaining_discoverable_credentials, Some(55));
    assert_eq!(info.aaguid, "Unknown");
    assert_eq!(info.firmware_version, "0.0");
    assert!(info.versions.is_empty());
}

#[test]
fn get_info_refuses_non_maps_and_garbage() {
    assert_eq!(parse_get_info(&cbor_encode(&ci(1))).unwrap_err(), "GetInfo response is not a CBOR map");
    assert!(parse_get_info(&[0xFF]).unwrap_err().starts_with("Failed to parse GetInfo CBOR: "));
    assert_eq!(get_info_failure(&PFError::NoDevice), "GetInfo CTAP command failed: No device found");
}

#[test]
fn firmware_version_is_major_dot_minor() {
    assert_eq!(firmware_version_text(0x0102), "1.2");
    assert_eq!(firmware_version_text(0x0710), "7.16");
    assert_eq!(firmware_version_text(-1), "255.255");
}

#[test]
fn flag_map_overwrites_existing_names() {
    let mut m: Vec<(String, bool)> = Vec::new();
    flag_set(&mut m, "a".to_string(), true);
    flag_set(&mut m, "b".to_string(), false);
    flag_set(&mut m, "a".to_string(), false);
    assert_eq!(m.len(), 2);
    assert_eq!(flag_get(&m, "a"), Some(false));
    assert_eq!(flag_get(&m, "b"), Some(false));
    assert_eq!(flag_get(&m, "c"), None);
}

#[test]
fn device_identity_from_get_info() {
    let map = Cbor::Dict(vec![(ci(3), Cbor::Bytes(vec![0xAB, 0x0C])), (ci(0x0E), ci(0x0305))]);
    let (aaguid, fw) = parse_device_identity(&cbor_encode(&map)).unwrap();
    assert_eq!(aaguid, "AB0C");
    assert_eq!(fw, "3.5");
    let (aaguid, fw) = parse_device_identity(&cbor_encode(&Cbor::Array(vec![]))).unwrap();
    assert_eq!((aaguid.as_str(), fw.as_str()), ("Unknown", "Unknown"));
}

#[test]
fn memory_stats_outcomes() {
    let unsupported = PFError::Device("FIDO Operation Failed with Status: 0x2B".to_string());
    assert_eq!(memory_stats_outcome(Err(unsupported)).unwrap(), None);
    let other = memory_stats_outcome(Err(PFError::Io("x".to_string()))).unwrap_err();
    assert_eq!(other.message(), "Device error: Failed to fetch memory stats: IO error: x");
    assert_eq!(memory_stats_outcome(Ok(vec![])).unwrap(), Some((0, 0)));
    let stats = cbor_encode(&Cbor::Dict(vec![(ci(1), ci(100)), (ci(2), ci(2048)), (ci(3), ci(1 << 20))]));
    assert_eq!(memory_stats_outcome(Ok(stats)).unwrap(), Some((2048, 1 << 20)));
    let bad = memory_stats_outcome(Ok(vec![0xFF])).unwrap_err();
    assert!(bad.message().starts_with("IO error: Failed to parse Memory Stats CBOR: "));
}

#[test]
fn vendor_requests() {
    assert_eq!(get_info_request(), vec![0x04]);
    assert_eq!(memory_stats_request(), vec![0x06, 0xA1, 0x01, 0x01]);
    assert_eq!(physical_config_request(), vec![0x05, 0xA1, 0x01, 0x01]);
}

#[test]
fn physical_config_over_fido() {
    let answer = cbor_encode(&Cbor::Dict(vec![(text("gpio"), ci(25)), (text("brightness"), ci(300))]));
    let c = physical_config_from(Ok(answer), 0x2E8A, 0x10FE, "Pico Key");
    assert_eq!(c.vid, "2E8A");
    assert_eq!(c.pid, "10FE");
    assert_eq!(c.product_name, "Pico Key");
    assert_eq!(c.led_gpio, 25);
    assert_eq!(c.led_brightness, 44);
    let c = physical_config_from(Err(PFError::NoDevice), 1, 2, "x");
    assert_eq!((c.vid.as_str(), c.pid.as_str(), c.led_gpio), ("0001", "0002", 0));
    assert_eq!(hex4(0xBEEF), "BEEF");
}

#[test]
fn fido_details_state_machine() {
    let (mut reader, step) = read_device_details(0x1050, 0x0407, "Key".to_string());
    assert!(matches!(step, FidoDetailsStep::Send { cmd, ref payload } if cmd == CTAPHID_CBOR && payload == &vec![0x04]));
    let info = cbor_encode(&Cbor::Dict(vec![(ci(0x0E), ci(0x0201))]));
    let step = reader.on_answer(Ok(info));
    assert_eq!(reader.stage, FidoDetailsStage::Memory);
    assert!(matches!(step, FidoDetailsStep::Send { cmd: 0xC1, .. }));
    let stats = cbor_encode(&Cbor::Dict(vec![(ci(2), ci(4096)), (ci(3), ci(8192))]));
    let _ = reader.on_answer(Ok(stats));
    assert_eq!(reader.stage, FidoDetailsStage::Physical);
    match reader.on_answer(Err(PFError::NoDevice)) {
        FidoDetailsStep::Done(Ok(status)) => {
            assert_eq!(status.info.serial, "?");
            assert_eq!(status.info.firmware_version, "2.1");
            assert_eq!(status.info.flash_used, Some(4));
            assert_eq!(status.info.flash_total, Some(8));
            assert_eq!(status.config.vid, "1050");
            assert_eq!(status.method, DeviceMethod::Fido);
            assert!(!status.secure_boot);
        }
        _ => panic!("reading finishes"),
    }
    assert_eq!(reader.stage, FidoDetailsStage::Done);
}

#[test]
fn fido_details_fail_on_get_info_error() {
    let (mut reader, _) = read_device_details(1, 2, "x".to_string());
    match reader.on_answer(Err(PFError::NoDevice)) {
        FidoDetailsStep::Done(Err(e)) => assert_eq!(e.message(), "Device error: GetInfo failed: No device found"),
        _ => panic!("reading fails"),
    }
    assert!(matches!(open_failure(PFError::NoDevice), PFError::NoDevice));
    assert_eq!(open_failure(PFError::Io("z".to_string())).message(), "Device error: IO error: z");
}

#[test]
fn fido_config_command_plan() {
    let mut c = no_input();
    c.vid = Some("2e8a".to_string());
    c.pid = Some("10FE".to_string());
    c.led_gpio = Some(25);
    c.touch_timeout = Some(15);
    c.led_dimmable = Some(true);
    c.power_cycle_on_reset = Some(false);
    let plan = fido_config_commands(&c).unwrap();
    let got: Vec<(VendorConfigCommand, i128, bool)> = plan.iter().map(|p| (p.command, p.value, p.required)).collect();
    assert_eq!(
        got,
        vec![
            (VendorConfigCommand::PhysicalVidPid, 0x2E8A10FE, true),
            (VendorConfigCommand::PhysicalLedGpio, 25, true),
            (VendorConfigCommand::PhysicalOptions, 15, false),
            (VendorConfigCommand::PhysicalOptions, 6, true),
        ]
    );
    let plan = fido_config_commands(&no_input()).unwrap();
    assert_eq!(plan.len(), 1);
    assert_eq!(plan[0].value, 0);
    c.vid = Some("xyz".to_string());
    assert!(matches!(fido_config_commands(&c), Err(PFError::Io(_))));
    c.vid = Some("10000".to_string());
    assert!(matches!(fido_config_commands(&c), Err(PFError::Io(_))));
}

#[test]
fn fido_config_needs_a_pin() {
    assert_eq!(config_pin(Some("1234".to_string())).unwrap(), "1234");
    assert_eq!(
        config_pin(None).unwrap_err().message(),
        "Device error: A security PIN is required to be set to change the configuration in fido mode"
    );
}
