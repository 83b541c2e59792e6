use picoforge::error::PFError;
use picoforge::rescue::{
    build_rescue_tlv, check_select_answer, enable_secure_boot, hex_list_text, parse_flash_info, parse_phy_config,
    parse_secure_boot, parse_select_identity, read_apdu, read_device_details, reboot_device, rescue_write_plan,
    write_config_outcome, PhyTag, ReadParam, RescueDetailsStage, RescueDetailsStep, RescueWrite,
};
use picoforge::types::{AppConfigInput, DeviceMethod};

fn no_input() -> AppConfigInput {
    AppConfigInput {
        vid: None,
        pid: None,
        product_name: None,
        led_gpio: None,
        led_brightness: None,
        touch_timeout: None,
        led_driver: None,
        led_dimmable: None,
        power_cycle_on_reset: None,
        led_steady: None,
        enable_secp256k1: None,
    }
}

fn ok(mut data: Vec<u8>) -> Vec<u8> {
    data.extend([0x90, 0x00]);
    data
}

#[test]
fn select_answer_and_identity() {
    assert!(check_select_answer(vec![0x90, 0x00]).is_ok());
    assert_eq!(
        check_select_answer(vec![0x6A, 0x82]).unwrap_err().message(),
        "Device error: Rescue Applet not found on device. Is it in FIDO mode?"
    );
    let long = ok(vec![1, 2, 6, 4, 0xDE, 0xAD, 0xBE, 0xEF, 0x01, 0x02, 0x03, 0x04]);
    let (serial, major, minor) = parse_select_identity(&long).unwrap();
    assert_eq!(serial, "DEADBEEF01020304");
    assert_eq!((major, minor), (6, 4));
    let short = ok(vec![1, 2, 7, 0]);
    assert_eq!(parse_select_identity(&short).unwrap().0, "00000000");
    assert_eq!(parse_select_identity(&[0x90, 0x00]).unwrap_err().message(), "Device error: Invalid select response");
}

#[test]
fn flash_and_secure_boot_answers() {
    let mut d = Vec::new();
    for w in [10u32, 2048, 4096 * 1024] {
        d.extend(w.to_be_bytes());
    }
    assert_eq!(parse_flash_info(&ok(d)).unwrap(), (2048, 4096 * 1024));
    assert_eq!(parse_flash_info(&ok(vec![0, 0, 0, 1, 0, 0, 0, 2])).unwrap(), (2, 0));
    assert_eq!(parse_flash_info(&[0x6F, 0x00]).unwrap_err().message(), "Device error: Failed to read flash");
    assert_eq!(parse_secure_boot(&ok(vec![1, 0])), (true, false));
    assert_eq!(parse_secure_boot(&ok(vec![1])), (false, false));
    assert_eq!(parse_secure_boot(&[1, 1, 0x6A, 0x00]), (false, false));
}

#[test]
fn phy_config_tlv_is_read() {
    let mut d = vec![0x00, 4, 0x2E, 0x8A, 0x10, 0xFE];
    d.extend([0x04, 1, 25]);
    d.extend([0x06, 2, 0x00, 0x0A]);
    d.extend([0x09, 5, b'P', b'i', b'c', b'o', 0]);
    d.extend([0x0A, 4, 0, 0, 0, 8]);
    d.extend([0x0C, 1, 3]);
    d.extend([0x77, 1, 9]);
    d.extend([0x05, 9, 1]);
    let c = parse_phy_config(&ok(d)).unwrap();
    assert_eq!(c.vid, "2E8A");
    assert_eq!(c.pid, "10FE");
    assert_eq!(c.led_gpio, 25);
    assert!(c.led_dimmable);
    assert!(c.power_cycle_on_reset);
    assert!(c.led_steady);
    assert_eq!(c.product_name, "Pico");
    assert!(c.enable_secp256k1);
    assert_eq!(c.led_driver, Some(3));
    assert_eq!(c.led_brightness, 0);
    assert_eq!(parse_phy_config(&[0x6A, 0x00]).unwrap_err().message(), "Device error: Failed to read config");
}

#[test]
fn config_write_reads_back() {
    let mut c = no_input();
    c.vid = Some("1d50".to_string());
    c.pid = Some("619B".to_string());
    c.led_gpio = Some(16);
    c.led_brightness = Some(200);
    c.touch_timeout = Some(30);
    c.led_dimmable = Some(false);
    c.power_cycle_on_reset = Some(false);
    c.led_steady = Some(true);
    c.enable_secp256k1 = Some(true);
    c.led_driver = Some(5);
    c.product_name = Some("LibreKey".to_string());
    let tlv = build_rescue_tlv(&c).unwrap();
    let back = parse_phy_config(&ok(tlv)).unwrap();
    assert_eq!(back.vid, "1D50");
    assert_eq!(back.pid, "619B");
    assert_eq!(back.led_gpio, 16);
    assert_eq!(back.led_brightness, 200);
    assert_eq!(back.touch_timeout, 30);
    assert!(!back.led_dimmable);
    assert!(!back.power_cycle_on_reset);
    assert!(back.led_steady);
    assert!(back.enable_secp256k1);
    assert_eq!(back.led_driver, Some(5));
    assert_eq!(back.product_name, "LibreKey");
}

#[test]
fn config_tlv_bytes_and_errors() {
    let mut c = no_input();
    c.led_gpio = Some(7);
    c.led_dimmable = Some(true);
    c.power_cycle_on_reset = Some(true);
    c.led_steady = Some(false);
    assert_eq!(build_rescue_tlv(&c).unwrap(), vec![PhyTag::LedGpio.value(), 1, 7, 0x06, 2, 0, 2]);
    c.led_steady = None;
    assert_eq!(build_rescue_tlv(&c).unwrap(), vec![0x04, 1, 7]);
    let mut v = no_input();
    v.vid = Some("G000".to_string());
    v.pid = Some("0001".to_string());
    assert_eq!(build_rescue_tlv(&v).unwrap_err().message(), "IO error: Invalid VID");
    v.vid = Some("0001".to_string());
    v.pid = Some("".to_string());
    assert_eq!(build_rescue_tlv(&v).unwrap_err().message(), "IO error: Invalid PID");
    let mut n = no_input();
    n.product_name = Some("x".repeat(32));
    assert_eq!(build_rescue_tlv(&n).unwrap_err().message(), "IO error: Product name too long");
    n.product_name = Some("x".repeat(31));
    assert_eq!(build_rescue_tlv(&n).unwrap().len(), 2 + 32);
    n.product_name = Some(String::new());
    assert!(build_rescue_tlv(&n).unwrap().is_empty());
}

#[test]
fn write_plan_and_outcome() {
    assert!(matches!(rescue_write_plan(&no_input()), Ok(RescueWrite::NothingToApply)));
    let mut c = no_input();
    c.led_driver = Some(1);
    match rescue_write_plan(&c).unwrap() {
        RescueWrite::Send(a) => assert_eq!(a, vec![0x80, 0x1C, 0x01, 0x00, 3, 0x0C, 1, 1]),
        _ => panic!("something to send"),
    }
    assert_eq!(write_config_outcome(&[0x90, 0x00]).unwrap(), "Configuration Applied Successfully");
    assert_eq!(write_config_outcome(&[0x6A, 0x80]).unwrap_err().message(), "Device error: Write failed: [6A, 80]");
}

#[test]
fn reboot_and_secure_boot_commands() {
    let r = reboot_device(true);
    assert_eq!(r.apdu, vec![0x80, 0x1F, 0x01, 0x00, 0x00]);
    assert_eq!(reboot_device(false).apdu[2], 0x00);
    assert_eq!(r.outcome(&[0x90, 0x00]).unwrap(), "Reboot command sent");
    assert_eq!(r.outcome(&[0x69, 0x85]).unwrap_err().message(), "Device error: Reboot failed: [69, 85]");
    let s = enable_secure_boot(true);
    assert_eq!(s.apdu, vec![0x80, 0x1D, 0x00, 0x01, 0x00]);
    assert_eq!(s.outcome(&[0x90, 0x00]).unwrap(), "Secure Boot Enabled");
    assert_eq!(s.outcome(&[]).unwrap_err().message(), "Device error: Secure Boot failed: []");
    assert_eq!(hex_list_text(&[0x0A]), "[0A]");
}

#[test]
fn rescue_details_state_machine() {
    let (mut reader, step) = read_device_details();
    match step {
        RescueDetailsStep::Transmit(a) => {
            assert_eq!(&a[..5], &[0x00, 0xA4, 0x04, 0x04, 8]);
            assert_eq!(a.len(), 13);
        }
        _ => panic!("selects first"),
    }
    let step = reader.on_answer(ok(vec![0, 0, 6, 2, 1, 2, 3, 4, 5, 6, 7, 8]));
    assert_eq!(reader.stage, RescueDetailsStage::Flash);
    assert!(matches!(step, RescueDetailsStep::Transmit(ref a) if a == &read_apdu(ReadParam::FlashInfo)));
    let mut flash = Vec::new();
    for w in [0u32, 10240, 2 * 1024 * 1024] {
        flash.extend(w.to_be_bytes());
    }
    reader.on_answer(ok(flash));
    assert_eq!(reader.stage, RescueDetailsStage::Secure);
    let step = reader.on_answer(ok(vec![1, 1]));
    assert!(matches!(step, RescueDetailsStep::Transmit(ref a) if a == &vec![0x80, 0x1E, 0x01, 0x01, 0x00]));
    match reader.on_answer(ok(vec![0x04, 1, 13])) {
        RescueDetailsStep::Done(Ok(status)) => {
            assert_eq!(status.info.serial, "0102030405060708");
            assert_eq!(status.info.firmware_version, "6.2");
            assert_eq!(status.info.flash_used, Some(10));
            assert_eq!(status.info.flash_total, Some(2048));
            assert_eq!(status.config.led_gpio, 13);
            assert!(status.secure_boot && status.secure_lock);
            assert_eq!(status.method, DeviceMethod::Rescue);
        }
        _ => panic!("reading finishes"),
    }
}

#[test]
fn rescue_details_stop_on_missing_applet() {
    let (mut reader, _) = read_device_details();
    match reader.on_answer(vec![0x6A, 0x82]) {
        RescueDetailsStep::Done(Err(PFError::Device(t))) => {
            assert_eq!(t, "Rescue Applet not found on device. Is it in FIDO mode?")
        }
        _ => panic!("reading fails"),
    }
}
