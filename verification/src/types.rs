//! The device data that the library reads and writes.
use vstd::prelude::*;

verus! {

/// How the device was reached.
#[derive(Debug, Clone, Copy, PartialEq, Eq, Structural)]
pub enum DeviceMethod {
    /// Through the Rescue applet over PC/SC.
    Rescue,
    /// Through FIDO HID only.
    Fido,
}

/// Identity and memory of the device.
#[derive(Debug, Clone, PartialEq)]
pub struct DeviceInfo {
    pub serial: String,
    /// Used flash in KiB, where known.
    pub flash_used: Option<u32>,
    /// Total flash in KiB, where known.
    pub flash_total: Option<u32>,
    pub firmware_version: String,
}

/// The physical configuration of the device.
#[derive(Debug, Clone, PartialEq)]
pub struct AppConfig {
    /// USB vendor id as four hexadecimal digits.
    pub vid: String,
    /// USB product id as four hexadecimal digits.
    pub pid: String,
    pub product_name: String,
    pub led_gpio: u8,
    pub led_brightness: u8,
    pub touch_timeout: u8,
    pub led_driver: Option<u8>,
    pub led_dimmable: bool,
    pub power_cycle_on_reset: bool,
    pub led_steady: bool,
    pub enable_secp256k1: bool,
}

impl AppConfig {
    /// The configuration with empty texts, zero numbers, no LED driver
    /// and every option off.
    pub open spec fn spec_empty(c: AppConfig) -> bool {
        &&& c.vid@ == Seq::<char>::empty()
        &&& c.pid@ == Seq::<char>::empty()
        &&& c.product_name@ == Seq::<char>::empty()
        &&& c.led_gpio == 0
        &&& c.led_brightness == 0
        &&& c.touch_timeout == 0
        &&& c.led_driver is None
        &&& !c.led_dimmable
        &&& !c.power_cycle_on_reset
        &&& !c.led_steady
        &&& !c.enable_secp256k1
    }
}

impl Default for AppConfig {
    fn default() -> (r: Self)
        ensures
            AppConfig::spec_empty(r),
    {
        AppConfig {
            vid: String::new(),
            pid: String::new(),
            product_name: String::new(),
            led_gpio: 0,
            led_brightness: 0,
            touch_timeout: 0,
            led_driver: None,
            led_dimmable: false,
            power_cycle_on_reset: false,
            led_steady: false,
            enable_secp256k1: false,
        }
    }
}

/// The configuration changes to write; `None` leaves a setting as it is.
#[derive(Debug, Clone, PartialEq)]
pub struct AppConfigInput {
    pub vid: Option<String>,
    pub pid: Option<String>,
    pub product_name: Option<String>,
    pub led_gpio: Option<u8>,
    pub led_brightness: Option<u8>,
    pub touch_timeout: Option<u8>,
    pub led_driver: Option<u8>,
    pub led_dimmable: Option<bool>,
    pub power_cycle_on_reset: Option<bool>,
    pub led_steady: Option<bool>,
    pub enable_secp256k1: Option<bool>,
}

/// Everything read from a device.
#[derive(Debug, Clone, PartialEq)]
pub struct FullDeviceStatus {
    pub info: DeviceInfo,
    pub config: AppConfig,
    pub secure_boot: bool,
    pub secure_lock: bool,
    pub method: DeviceMethod,
}

/// What the authenticatorGetInfo response says. The two maps from names
/// to flags are lists of pairs in which each name occurs once.
#[derive(Debug, Clone, PartialEq)]
pub struct FidoDeviceInfo {
    pub versions: Vec<String>,
    pub extensions: Vec<String>,
    pub aaguid: String,
    pub options: Vec<(String, bool)>,
    pub max_msg_size: i128,
    pub pin_protocols: Vec<u32>,
    pub remaining_discoverable_credentials: Option<i128>,
    pub min_pin_length: i128,
    pub firmware_version: String,
    pub vendor_config_commands: Vec<String>,
    pub certifications: Vec<(String, bool)>,
    pub max_credential_count_in_list: Option<i128>,
    pub max_credential_id_length: Option<i128>,
    pub algorithms: Vec<String>,
    pub max_serialized_large_blob_array: Option<i128>,
    pub force_pin_change: Option<bool>,
    pub max_cred_blob_length: Option<i128>,
}

/// A resident credential as listed to the user.
#[derive(Debug, Clone, PartialEq)]
pub struct StoredCredential {
    /// The credential id in lower-case hexadecimal.
    pub credential_id: String,
    pub rp_id: String,
    pub rp_name: String,
    pub user_name: String,
    pub user_display_name: String,
    /// The user handle in lower-case hexadecimal.
    pub user_id: String,
}

} // verus!
