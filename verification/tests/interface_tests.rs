use picoforge::clientpin::{change_pin_failure, check_new_pin, set_pin_failure, wrap_error};
use picoforge::config::{acfg_token_failure, min_pin_length_failure, min_pin_length_message, pin_update_message};
use picoforge::constants::{CoseAlgorithm, FidoCertification, VendorConfigCommand};
use picoforge::error::PFError;
use picoforge::forms::{
    check_change_pin, check_pin_prompt, check_set_pin, config_changes, has_changes, mentions_troubleshooting,
    parse_u8, ConfigForm, DialogPhase, PinFormCheck,
};
use picoforge::i18n::{Language, TranslationKey};
use picoforge::text::{hex_decode, hex_encode, parse_hex_u64};
use picoforge::translator::{replace_text, Translator};
use picoforge::types::AppConfig;
use picoforge::ui::{ActiveView, DeviceConnectionState, LedDriverType, UsbIdentityPreset};

#[test]
fn language_codes() {
    assert_eq!(Language::from_code("zh"), Language::Chinese);
    assert_eq!(Language::from_code("zh-CN"), Language::Chinese);
    assert_eq!(Language::from_code("zh_CN"), Language::Chinese);
    assert_eq!(Language::from_code("fr"), Language::English);
    assert_eq!(Language::English.code(), "en");
    assert_eq!(Language::from_code(Language::Chinese.code()), Language::Chinese);
    assert_eq!(Language::from_code(Language::English.code()), Language::English);
}

#[test]
fn translation_keys_and_texts() {
    assert_eq!(TranslationKey::AppName.as_str(), "app.name");
    assert_eq!(TranslationKey::MenuHome.as_str(), "menu.home");
    let mut t = Translator::new(Language::English);
    assert_eq!(t.language(), Language::English);
    assert_eq!(t.t(TranslationKey::AppName), "PicoForge");
    assert_eq!(t.t(TranslationKey::MenuPasskeys), "Passkeys");
    // A key that the English table lacks shows its identifier.
    assert_eq!(t.t(TranslationKey::PinIsSet), "passkeys.pin_is_set");
    t.set_language(Language::Chinese);
    assert_eq!(t.language(), Language::Chinese);
    assert_eq!(t.t(TranslationKey::Warning), "警告");
    assert_eq!(t.t_with_args(TranslationKey::CredentialsStored, &["3"]), "3 个凭据已存储");
}

#[test]
fn translation_arguments() {
    let t = Translator::new(Language::English);
    assert_eq!(
        t.t_with_args(TranslationKey::DeleteConfirmMsg, &["github.com"]),
        "Are you sure you want to delete the passkey for github.com?"
    );
    assert_eq!(t.t_with_args(TranslationKey::AppName, &[]), "PicoForge");
    assert_eq!(replace_text("{0}{0}x{1}", "{0}", "ab"), "ababx{1}");
    assert_eq!(replace_text("aaa", "aa", "b"), "ba");
}

#[test]
fn usb_identity_presets() {
    assert_eq!(UsbIdentityPreset::from_vid_pid("2e8a", "10fe"), UsbIdentityPreset::PicoFido);
    assert_eq!(UsbIdentityPreset::from_vid_pid("234B", "0000"), UsbIdentityPreset::Gnuk);
    assert_eq!(UsbIdentityPreset::from_vid_pid("1234", "5678"), UsbIdentityPreset::Custom);
    let (label, vid, pid) = UsbIdentityPreset::YubiKey5.details();
    assert_eq!(label, "YubiKey 5 (1050:0407)");
    assert_eq!((vid, pid), (Some("1050"), Some("0407")));
    assert_eq!(UsbIdentityPreset::Custom.details(), ("Custom (Manual Entry)", None, None));
    let all = UsbIdentityPreset::all();
    assert_eq!(all.len(), 18);
    assert_eq!(all[0], UsbIdentityPreset::Custom);
    assert_eq!(all[17], UsbIdentityPreset::GnuPg);
    for p in all {
        if let (_, Some(v), Some(q)) = p.details() {
            let found = UsbIdentityPreset::from_vid_pid(v, q);
            assert!(found == p || (p == UsbIdentityPreset::GnuPg && found == UsbIdentityPreset::Gnuk));
        }
    }
}

#[test]
fn led_drivers() {
    let all = LedDriverType::all();
    assert_eq!(all.iter().map(|d| d.value()).collect::<Vec<u8>>(), vec![1, 2, 3, 5]);
    assert_eq!(LedDriverType::Esp32Neopixel.label(), "ESP32 Neopixel");
    let s = DeviceConnectionState::new();
    assert!(s.status.is_none() && s.fido_info.is_none() && s.error.is_none() && !s.loading);
    assert_ne!(ActiveView::Home, ActiveView::About);
}

fn current() -> AppConfig {
    AppConfig {
        vid: "2E8A".to_string(),
        pid: "10FE".to_string(),
        product_name: "Pico".to_string(),
        led_gpio: 25,
        led_brightness: 100,
        touch_timeout: 15,
        led_driver: None,
        led_dimmable: false,
        power_cycle_on_reset: true,
        led_steady: false,
        enable_secp256k1: false,
    }
}

fn form_of(c: &AppConfig) -> ConfigForm {
    ConfigForm {
        vid: c.vid.clone(),
        pid: c.pid.clone(),
        product_name: c.product_name.clone(),
        led_gpio: c.led_gpio.to_string(),
        led_driver_index: Some(0),
        led_brightness: c.led_brightness,
        touch_timeout: c.touch_timeout.to_string(),
        led_dimmable: c.led_dimmable,
        led_steady: c.led_steady,
        power_cycle: c.power_cycle_on_reset,
        enable_secp256k1: c.enable_secp256k1,
    }
}

#[test]
fn unchanged_form_asks_for_nothing() {
    let c = current();
    let changes = config_changes(&form_of(&c), &c);
    assert!(!has_changes(&changes));
}

#[test]
fn form_changes() {
    let c = current();
    let mut f = form_of(&c);
    f.pid = "10FF".to_string();
    f.led_gpio = "300".to_string();
    f.touch_timeout = "+20".to_string();
    f.led_driver_index = Some(3);
    f.led_steady = true;
    let ch = config_changes(&f, &c);
    assert!(has_changes(&ch));
    assert_eq!(ch.vid, None);
    assert_eq!(ch.pid, Some("10FF".to_string()));
    assert_eq!(ch.led_gpio, None);
    assert_eq!(ch.touch_timeout, Some(20));
    assert_eq!(ch.led_driver, Some(5));
    assert_eq!((ch.led_dimmable, ch.led_steady, ch.power_cycle_on_reset), (Some(false), Some(true), Some(true)));
    assert_eq!(ch.enable_secp256k1, None);
}

#[test]
fn decimal_byte_parsing() {
    assert_eq!(parse_u8("0"), Some(0));
    assert_eq!(parse_u8("255"), Some(255));
    assert_eq!(parse_u8("+7"), Some(7));
    assert_eq!(parse_u8("256"), None);
    assert_eq!(parse_u8(""), None);
    assert_eq!(parse_u8("+"), None);
    assert_eq!(parse_u8("-1"), None);
    assert_eq!(parse_u8("1 "), None);
    assert_eq!(parse_u8("0001"), Some(1));
}

#[test]
fn pin_dialog_checks() {
    let input = DialogPhase::Input;
    assert!(matches!(check_pin_prompt(&input, "1234"), PinFormCheck::Submit));
    assert!(matches!(check_pin_prompt(&input, ""), PinFormCheck::Ignore));
    assert!(matches!(check_pin_prompt(&DialogPhase::Loading, "1234"), PinFormCheck::Ignore));
    assert!(matches!(check_pin_prompt(&DialogPhase::Error("x".to_string()), "1234"), PinFormCheck::Submit));
    assert!(matches!(check_change_pin(&input, "", "1234", "1234"), PinFormCheck::Ignore));
    assert!(matches!(check_change_pin(&input, "1111", "1234", "1235"), PinFormCheck::Reject(ref m) if m == "PINs do not match"));
    assert!(matches!(check_change_pin(&input, "1111", "123", "123"), PinFormCheck::Reject(ref m) if m == "PIN must be at least 4 characters"));
    assert!(matches!(check_change_pin(&input, "1111", "1234", "1234"), PinFormCheck::Submit));
    assert!(matches!(check_set_pin(&DialogPhase::Success("ok".to_string()), "1234", "1234"), PinFormCheck::Ignore));
    assert!(matches!(check_set_pin(&input, "ab", "ab"), PinFormCheck::Reject(_)));
    assert!(mentions_troubleshooting("see the troubleshooting guide please"));
    assert!(!mentions_troubleshooting("see the guide"));
}

#[test]
fn pin_rules_and_reports() {
    assert!(check_new_pin("1234").is_ok());
    assert_eq!(check_new_pin("123").unwrap_err().message(), "Device error: PIN must be at least 4 characters");
    assert_eq!(check_new_pin(&"9".repeat(64)).unwrap_err().message(), "Device error: PIN must be less than 64 characters");
    let policy = PFError::Device("FIDO Operation Failed with Status: 0x37".to_string());
    assert_eq!(set_pin_failure(&policy).message(), "Device error: New PIN violates policy (e.g. too short).");
    let wrong = PFError::Device("FIDO Operation Failed with Status: 0x31".to_string());
    assert!(change_pin_failure(&wrong).message().contains("Invalid current PIN (0x31)"));
    let other = PFError::Io("x".to_string());
    assert_eq!(change_pin_failure(&other).message(), "Device error: changePin failed: IO error: x");
    assert_eq!(wrap_error("p: ", &other).message(), "Device error: p: IO error: x");
    assert!(min_pin_length_failure(&policy).message().starts_with("Device error: Cannot decrease minimum PIN length."));
    let unsupported = PFError::Device("FIDO Operation Failed with Status: 0x2B".to_string());
    assert!(acfg_token_failure(&unsupported).starts_with("The device does not support FIDO 2.1"));
    assert_eq!(acfg_token_failure(&other), "Failed to obtain PIN token: IO error: x");
    assert_eq!(min_pin_length_message(8), "Minimum PIN length successfully set to 8");
    assert_eq!(pin_update_message(true), "PIN Changed Successfully");
    assert_eq!(pin_update_message(false), "PIN Set Successfully");
}

#[test]
fn identifiers_and_hex() {
    assert_eq!(VendorConfigCommand::from_u64(0x6fcb19b0cbe3acfa), Some(VendorConfigCommand::PhysicalVidPid));
    assert_eq!(VendorConfigCommand::from_u64(1), None);
    assert_eq!(FidoCertification::from_u64(0x7B392A394DE9F948), Some(FidoCertification::LedGpio));
    assert_eq!(FidoCertification::from_str("6C07D70FE96C3897"), Some(FidoCertification::PinComplexity));
    assert_eq!(FidoCertification::from_str("fido-v2"), None);
    assert_eq!(CoseAlgorithm::from_i128(-7), Some(CoseAlgorithm::ES256));
    assert_eq!(CoseAlgorithm::from_i128(-7 + (1i128 << 32)), Some(CoseAlgorithm::ES256));
    assert_eq!(CoseAlgorithm::from_i128(0), None);
    assert_eq!(hex_encode(&[0x0A, 0xFF], false), "0aff");
    assert_eq!(hex_encode(&[0x0A, 0xFF], true), "0AFF");
    let text: Vec<char> = "0aFF".chars().collect();
    assert_eq!(hex_decode(&text), Some(vec![0x0A, 0xFF]));
    let odd: Vec<char> = "abc".chars().collect();
    assert_eq!(hex_decode(&odd), None);
    let big: Vec<char> = "FFFFFFFFFFFFFFFF".chars().collect();
    assert_eq!(parse_hex_u64(&big), Some(u64::MAX));
    let too_big: Vec<char> = "10000000000000000".chars().collect();
    assert_eq!(parse_hex_u64(&too_big), None);
    let plus: Vec<char> = "+1f".chars().collect();
    assert_eq!(parse_hex_u64(&plus), Some(31));
}

#[test]
fn translation_identifiers_apart_from_aliases() {
    assert_eq!(TranslationKey::Delete.as_str(), TranslationKey::ActionDelete.as_str());
    assert_eq!(TranslationKey::Cancel.as_str(), TranslationKey::ActionCancel.as_str());
    assert_ne!(TranslationKey::Delete.as_str(), TranslationKey::DeletePasskey.as_str());
    assert_ne!(TranslationKey::MenuHome.as_str(), TranslationKey::MenuPasskeys.as_str());
    for k in [TranslationKey::AppName, TranslationKey::Warning, TranslationKey::CredentialsStored] {
        let id = k.as_str();
        assert!(!id.is_empty() && id.contains('.') && !id.contains(' '));
    }
}

#[test]
fn usb_presets_ignore_letter_case() {
    for p in UsbIdentityPreset::all() {
        if let (_, Some(v), Some(q)) = p.details() {
            let upper = UsbIdentityPreset::from_vid_pid(v, q);
            let lower = UsbIdentityPreset::from_vid_pid(&v.to_lowercase(), &q.to_lowercase());
            assert_eq!(upper, lower);
        }
    }
    assert_eq!(UsbIdentityPreset::from_vid_pid("a2Ca", "0483"), UsbIdentityPreset::Custom);
    assert_eq!(UsbIdentityPreset::from_vid_pid("0483", "a2Ca"), UsbIdentityPreset::SoloKeys);
}
