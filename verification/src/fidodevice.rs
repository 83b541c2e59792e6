//! Reading the status and configuration of a device over FIDO HID, and
//! the vendor configuration commands that write it.
use vstd::prelude::*;
use crate::cbor::{
    Cbor, CborModel, cbor_decode, cbor_decode_int_map, cbor_decoding, cbor_encode, cbor_encoding,
    cbor_int_map_decoding, dict_get_int, dict_get_text, dict_lookup, int_pairs_model,
};
use crate::clientpin::{error_is, extend, int_dict, lemma_int_dict_encodable, make_int_dict, PFErrorText};
use crate::constants::{
    CTAP_VENDOR_CBOR_CMD, CtapCommand, MemoryResponseKey, MemorySubCommand, PhysicalOptionsSubCommand, VendorCommand,
    VendorConfigCommand,
};
use crate::error::{PFError, error_mentions, is_device_error, seq_contains};
use crate::getinfo::{firmware_text, firmware_version_text};
use crate::text::{spec_parse_hex_u64, hex_byte_chars, hex_encode, hex_encoding, push_hex_byte};
use crate::types::{AppConfig, AppConfigInput, DeviceInfo, DeviceMethod, FullDeviceStatus};

verus! {

/// The authenticatorGetInfo request.
pub fn get_info_request() -> (r: Vec<u8>)
    ensures
        r@ == seq![CtapCommand::GetInfo.spec_value()],
{
    let mut r: Vec<u8> = Vec::new();
    r.push(CtapCommand::GetInfo.value());
    r
}

/// The AAGUID (upper-case hexadecimal) and the firmware version that a
/// GetInfo answer gives, each "Unknown" when absent.
pub open spec fn identity_answer(resp: Seq<u8>) -> Result<(Seq<char>, Seq<char>), PFErrorText> {
    match cbor_decoding(resp) {
        Err(t) => Err(PFErrorText::Io(t)),
        Ok(CborModel::Dict(m)) => Ok(
            (
                match dict_lookup(m, CborModel::Int(0x03)) {
                    Some(CborModel::Bytes(b)) => hex_encoding(b, true),
                    _ => "Unknown"@,
                },
                match dict_lookup(m, CborModel::Int(0x0E)) {
                    Some(CborModel::Int(i)) => firmware_text(i as i128),
                    _ => "Unknown"@,
                },
            ),
        ),
        Ok(_) => Ok(("Unknown"@, "Unknown"@)),
    }
}

/// Reads the AAGUID and the firmware version from a GetInfo answer.
pub fn parse_device_identity(resp: &[u8]) -> (r: Result<(String, String), PFError>)
    ensures
        match identity_answer(resp@) {
            Ok(v) => r matches Ok(p) && p.0@ == v.0 && p.1@ == v.1,
            Err(t) => r matches Err(e) && error_is(e, t),
        },
{
    match cbor_decode(resp) {
        Err(t) => Err(PFError::Io(t)),
        Ok(Cbor::Dict(m)) => {
            proof { crate::cbor::lemma_cbor_pair_models(m@); }
            let aaguid = match dict_get_int(&m, 0x03) {
                Some(Cbor::Bytes(b)) => hex_encode(b.as_slice(), true),
                _ => String::from_str("Unknown"),
            };
            let fw = match dict_get_int(&m, 0x0E) {
                Some(Cbor::Int(i)) => firmware_version_text(*i),
                _ => String::from_str("Unknown"),
            };
            Ok((aaguid, fw))
        },
        Ok(_) => Ok((String::from_str("Unknown"), String::from_str("Unknown"))),
    }
}

/// The error of a failed GetInfo exchange while reading the device status.
pub fn get_info_exchange_failure(e: &PFError) -> (r: PFError)
    ensures
        is_device_error(r, "GetInfo failed: "@ + e.spec_message()),
{
    crate::clientpin::wrap_error("GetInfo failed: ", e)
}

/// A vendor request: the vendor command byte and the map `{1: sub}`.
pub open spec fn vendor_request_bytes(cmd: u8, sub: u8) -> Seq<u8> {
    seq![cmd] + cbor_encoding(int_dict(seq![(1int, CborModel::Int(sub as int))]))
}

fn vendor_request(cmd: u8, sub: u8) -> (r: Vec<u8>)
    ensures
        r@ == vendor_request_bytes(cmd, sub),
{
    let mut entries: Vec<(i128, Cbor)> = Vec::new();
    entries.push((1, Cbor::Int(sub as i128)));
    let ghost wanted = seq![(1int, CborModel::Int(sub as int))];
    assert(entries@.map_values(|e: (i128, Cbor)| (e.0 as int, e.1@)) =~= wanted);
    let m = make_int_dict(entries);
    proof { lemma_int_dict_encodable(wanted); }
    let mut payload: Vec<u8> = Vec::new();
    payload.push(cmd);
    extend(&mut payload, cbor_encode(&m).as_slice());
    payload
}

/// The vendor request for the memory statistics.
pub fn memory_stats_request() -> (r: Vec<u8>)
    ensures
        r@ == vendor_request_bytes(VendorCommand::Memory.spec_value(), MemorySubCommand::GetStats.spec_value()),
{
    vendor_request(VendorCommand::Memory.value(), MemorySubCommand::GetStats.value())
}

/// The vendor request for the physical options.
pub fn physical_config_request() -> (r: Vec<u8>)
    ensures
        r@ == vendor_request_bytes(
            VendorCommand::PhysicalOptions.spec_value(),
            PhysicalOptionsSubCommand::GetOptions.spec_value(),
        ),
{
    vendor_request(VendorCommand::PhysicalOptions.value(), PhysicalOptionsSubCommand::GetOptions.value())
}

/// The value stored under key `k` in a list of integer pairs.
pub open spec fn int_lookup(m: Seq<(int, int)>, k: int) -> Option<int>
    decreases m.len(),
{
    if m.len() == 0 {
        None
    } else if m[0].0 == k {
        Some(m[0].1)
    } else {
        int_lookup(m.drop_first(), k)
    }
}

/// The value under `k`, or 0, cast to `u32`.
pub open spec fn stat_value(m: Seq<(int, int)>, k: int) -> u32 {
    match int_lookup(m, k) {
        Some(v) => v as u32,
        None => 0,
    }
}

/// What the memory statistics exchange gives: nothing when the firmware
/// does not offer them (0x2B), else the used and the total space in
/// bytes.
pub open spec fn memory_stats_answer(answer: Result<Seq<u8>, PFError>) -> Result<Option<(u32, u32)>, PFErrorText> {
    match answer {
        Err(e) => if seq_contains(e.spec_message(), "0x2B"@) {
            Ok(None)
        } else {
            Err(PFErrorText::Device("Failed to fetch memory stats: "@ + e.spec_message()))
        },
        Ok(res) => if res.len() == 0 {
            Ok(Some((0, 0)))
        } else {
            match cbor_int_map_decoding(res) {
                Err(t) => Err(PFErrorText::Io("Failed to parse Memory Stats CBOR: "@ + t)),
                Ok(m) => Ok(
                    Some(
                        (
                            stat_value(m, MemoryResponseKey::UsedSpace.spec_value() as int),
                            stat_value(m, MemoryResponseKey::TotalSpace.spec_value() as int),
                        ),
                    ),
                ),
            }
        },
    }
}

fn int_get(m: &Vec<(i128, i128)>, k: i128) -> (r: Option<i128>)
    ensures
        r matches Some(x) ==> int_lookup(int_pairs_model(m@), k as int) == Some(x as int),
        r is None <==> int_lookup(int_pairs_model(m@), k as int) is None,
{
    let ghost pm = int_pairs_model(m@);
    assert(pm.subrange(0, pm.len() as int) =~= pm);
    let mut i: usize = 0;
    while i < m.len()
        invariant
            i <= m@.len(),
            pm == int_pairs_model(m@),
            pm.len() == m@.len(),
            int_lookup(pm, k as int) == int_lookup(pm.subrange(i as int, pm.len() as int), k as int),
        decreases m@.len() - i,
    {
        let ghost tail = pm.subrange(i as int, pm.len() as int);
        assert(tail[0] == (m@[i as int].0 as int, m@[i as int].1 as int));
        assert(tail.drop_first() =~= pm.subrange(i + 1, pm.len() as int));
        if m[i].0 == k {
            return Some(m[i].1);
        }
        i = i + 1;
    }
    assert(pm.subrange(i as int, pm.len() as int).len() == 0);
    None
}

/// Reads the answer to the memory statistics request.
pub fn memory_stats_outcome(answer: Result<Vec<u8>, PFError>) -> (r: Result<Option<(u32, u32)>, PFError>)
    ensures
        match memory_stats_answer(
            match answer {
                Ok(v) => Ok(v@),
                Err(e) => Err(e),
            },
        ) {
            Ok(v) => r == Ok::<Option<(u32, u32)>, PFError>(v),
            Err(t) => r matches Err(e) && error_is(e, t),
        },
{
    match answer {
        Err(e) => {
            if error_mentions(&e, "0x2B") {
                Ok(None)
            } else {
                Err(crate::clientpin::wrap_error("Failed to fetch memory stats: ", &e))
            }
        },
        Ok(res) => {
            if res.len() == 0 {
                return Ok(Some((0, 0)));
            }
            match cbor_decode_int_map(res.as_slice()) {
                Err(t) => {
                    let mut s = String::from_str("Failed to parse Memory Stats CBOR: ");
                    s.append(t.as_str());
                    let e = PFError::Io(s);
                    assert(error_is(e, PFErrorText::Io("Failed to parse Memory Stats CBOR: "@ + t@)));
                    Err(e)
                },
                Ok(m) => {
                    let used = match int_get(&m, MemoryResponseKey::UsedSpace.value() as i128) {
                        Some(v) => v as u32,
                        None => 0,
                    };
                    let total = match int_get(&m, MemoryResponseKey::TotalSpace.value() as i128) {
                        Some(v) => v as u32,
                        None => 0,
                    };
                    Ok(Some((used, total)))
                },
            }
        },
    }
}

/// The two big-endian bytes of a 16-bit value.
pub open spec fn u16_bytes(v: u16) -> Seq<u8> {
    seq![(v / 256) as u8, (v % 256) as u8]
}

/// A 16-bit value as four upper-case hexadecimal digits (`{:04X}`).
pub fn hex4(v: u16) -> (r: String)
    ensures
        r@ == hex_encoding(u16_bytes(v), true),
{
    let mut s = String::new();
    push_hex_byte(&mut s, (v / 256) as u8, true);
    push_hex_byte(&mut s, (v % 256) as u8, true);
    proof {
        let b = u16_bytes(v);
        assert(b.drop_last() =~= seq![(v / 256) as u8]);
        assert(b.drop_last().drop_last() =~= Seq::<u8>::empty());
        assert(hex_encoding(Seq::<u8>::empty(), true) =~= Seq::<char>::empty());
        assert(b.drop_last().last() == (v / 256) as u8);
        assert(hex_encoding(b.drop_last(), true) =~= hex_byte_chars((v / 256) as u8, true));
        assert(s@ =~= hex_encoding(b, true));
    }
    s
}

/// The integer stored under a text key of a map item.
pub open spec fn int_under(v: CborModel, key: Seq<char>) -> Option<int> {
    match v {
        CborModel::Dict(m) => match dict_lookup(m, CborModel::Text(key)) {
            Some(CborModel::Int(n)) => Some(n),
            _ => None,
        },
        _ => None,
    }
}

/// Whether `c` is the configuration read over FIDO: the identity of the
/// HID device, and the LED pin and brightness from the answer when it is
/// a map holding them (each cast to `u8`), everything else at its default.
pub open spec fn physical_config_is(c: AppConfig, answer: Seq<u8>, vid: u16, pid: u16, product_name: Seq<char>) -> bool {
    let parsed = match cbor_decoding(answer) {
        Ok(CborModel::Dict(m)) => Some(CborModel::Dict(m)),
        _ => None,
    };
    &&& c.vid@ == hex_encoding(u16_bytes(vid), true)
    &&& c.pid@ == hex_encoding(u16_bytes(pid), true)
    &&& c.product_name@ == product_name
    &&& c.led_gpio == match parsed {
        Some(p) => match int_under(p, "gpio"@) {
            Some(n) => n as u8,
            None => 0,
        },
        None => 0,
    }
    &&& c.led_brightness == match parsed {
        Some(p) => match int_under(p, "brightness"@) {
            Some(n) => n as u8,
            None => 0,
        },
        None => 0,
    }
    &&& c.touch_timeout == 0
    &&& c.led_driver is None
    &&& !c.led_dimmable
    &&& !c.power_cycle_on_reset
    &&& !c.led_steady
    &&& !c.enable_secp256k1
}

/// The bytes of the answer, or none when the exchange failed (a failure
/// is not an error here).
pub open spec fn answer_or_empty(answer: Result<Seq<u8>, PFError>) -> Seq<u8> {
    match answer {
        Ok(b) => b,
        Err(_) => Seq::empty(),
    }
}

/// The configuration that the physical options answer describes.
pub fn physical_config_from(answer: Result<Vec<u8>, PFError>, vid: u16, pid: u16, product_name: &str) -> (r: AppConfig)
    ensures
        physical_config_is(
            r,
            answer_or_empty(
                match answer {
                    Ok(v) => Ok(v@),
                    Err(e) => Err(e),
                },
            ),
            vid,
            pid,
            product_name@,
        ),
{
    let res: Vec<u8> = match answer {
        Ok(v) => v,
        Err(_) => Vec::new(),
    };
    let mut config = AppConfig {
        vid: hex4(vid),
        pid: hex4(pid),
        product_name: String::from_str(product_name),
        led_gpio: 0,
        led_brightness: 0,
        touch_timeout: 0,
        led_driver: None,
        led_dimmable: false,
        power_cycle_on_reset: false,
        led_steady: false,
        enable_secp256k1: false,
    };
    match cbor_decode(res.as_slice()) {
        Ok(Cbor::Dict(m)) => {
            proof { crate::cbor::lemma_cbor_pair_models(m@); }
            match dict_get_text(&m, "gpio") {
                Some(Cbor::Int(v)) => {
                    config.led_gpio = *v as u8;
                },
                _ => {},
            }
            match dict_get_text(&m, "brightness") {
                Some(Cbor::Int(v)) => {
                    config.led_brightness = *v as u8;
                },
                _ => {},
            }
        },
        _ => {},
    }
    config
}

/// The status of a device reached over FIDO: no serial number ("?"), the
/// flash figures in KiB where known, and no secure boot.
pub fn fido_device_status(firmware_version: String, mem: Option<(u32, u32)>, config: AppConfig) -> (r: FullDeviceStatus)
    ensures
        r.info.serial@ == "?"@,
        r.info.flash_used == (match mem {
            Some(m) => Some(m.0 / 1024),
            None => None::<u32>,
        }),
        r.info.flash_total == (match mem {
            Some(m) => Some(m.1 / 1024),
            None => None::<u32>,
        }),
        r.info.firmware_version == firmware_version,
        r.config == config,
        !r.secure_boot,
        !r.secure_lock,
        r.method == DeviceMethod::Fido,
{
    let (used, total) = match mem {
        Some(m) => (Some(m.0 / 1024), Some(m.1 / 1024)),
        None => (None, None),
    };
    FullDeviceStatus {
        info: DeviceInfo { serial: String::from_str("?"), flash_used: used, flash_total: total, firmware_version },
        config,
        secure_boot: false,
        secure_lock: false,
        method: DeviceMethod::Fido,
    }
}


/// What `u16::from_str_radix(s, 16)` accepts: an optional `+` and
/// hexadecimal digits whose value fits in 16 bits.
pub open spec fn spec_parse_hex_u16(s: Seq<char>) -> Option<u16> {
    match spec_parse_hex_u64(s) {
        Some(v) => if v <= 0xffff {
            Some(v as u16)
        } else {
            None
        },
        None => None,
    }
}

/// Parses hexadecimal text with `u16::from_str_radix(s, 16)`; on failure
/// the text of std's error. Its documentation: an optional `+` and then
/// only digits of the radix, either case, whose value fits the type; any
/// other text is an error. The error's text is not described there and
/// is not stated here.
#[verifier::external_body]
pub(crate) fn u16_from_hex(s: &str) -> (r: Result<u16, String>)
    ensures
        r matches Ok(v) ==> spec_parse_hex_u16(s@) == Some(v),
        r is Err <==> spec_parse_hex_u16(s@) is None,
{
    u16::from_str_radix(s, 16).map_err(|e| e.to_string())
}

/// One vendor configuration command of a configuration write. When
/// `required` holds, a failure of the command ends the write with its
/// error; otherwise the failure is ignored.
#[derive(Debug, Clone)]
pub struct ConfigCommand {
    pub command: VendorConfigCommand,
    pub value: i128,
    pub required: bool,
}

/// The physical options word: 0x02 LED dimmable, 0x04 no power cycle
/// on reset, 0x08 steady LED. A missing setting counts as dimmable off,
/// power cycle on, steady off.
pub open spec fn fido_options_word(c: AppConfigInput) -> int {
    (if c.led_dimmable == Some(true) { 2int } else { 0int }) + (if c.power_cycle_on_reset == Some(false) {
        4int
    } else {
        0int
    }) + (if c.led_steady == Some(true) { 8int } else { 0int })
}

/// The commands of a configuration write, as (command, value, required),
/// or `None` when the VID or PID is not hexadecimal text of 16 bits.
pub open spec fn fido_config_plan(c: AppConfigInput) -> Option<Seq<(VendorConfigCommand, int, bool)>> {
    let vidpid: Option<Seq<(VendorConfigCommand, int, bool)>> = match (c.vid, c.pid) {
        (Some(v), Some(p)) => match (spec_parse_hex_u16(v@), spec_parse_hex_u16(p@)) {
            (Some(x), Some(y)) => Some(seq![(VendorConfigCommand::PhysicalVidPid, x * 65536 + y, true)]),
            _ => None,
        },
        _ => Some(Seq::empty()),
    };
    match vidpid {
        None => None,
        Some(first) => Some(
            first + (match c.led_gpio {
                Some(g) => seq![(VendorConfigCommand::PhysicalLedGpio, g as int, true)],
                None => Seq::empty(),
            }) + (match c.led_brightness {
                Some(b) => seq![(VendorConfigCommand::PhysicalLedBrightness, b as int, true)],
                None => Seq::empty(),
            }) + (match c.touch_timeout {
                Some(t) => seq![(VendorConfigCommand::PhysicalOptions, t as int, false)],
                None => Seq::empty(),
            }) + seq![(VendorConfigCommand::PhysicalOptions, fido_options_word(c), true)],
        ),
    }
}

/// The commands as values.
pub open spec fn config_command_models(v: Seq<ConfigCommand>) -> Seq<(VendorConfigCommand, int, bool)> {
    v.map_values(|c: ConfigCommand| (c.command, c.value as int, c.required))
}

fn parse_id(s: &String) -> (r: Result<u16, PFError>)
    ensures
        match spec_parse_hex_u16(s@) {
            Some(v) => r == Ok::<u16, PFError>(v),
            None => r matches Err(e) && e is Io,
        },
{
    match u16_from_hex(s.as_str()) {
        Ok(v) => Ok(v),
        Err(t) => Err(PFError::Io(t)),
    }
}

fn push_command(out: &mut Vec<ConfigCommand>, command: VendorConfigCommand, value: i128, required: bool)
    ensures
        config_command_models(final(out)@) == config_command_models(old(out)@).push((command, value as int, required)),
{
    out.push(ConfigCommand { command, value, required });
    assert(config_command_models(final(out)@) =~= config_command_models(old(out)@).push((command, value as int, required)));
}

/// The vendor configuration commands that write `config` over FIDO, in
/// the order they are sent. A VID or PID that is not hexadecimal text of
/// 16 bits is an I/O error, before any command.
pub fn fido_config_commands(config: &AppConfigInput) -> (r: Result<Vec<ConfigCommand>, PFError>)
    ensures
        match fido_config_plan(*config) {
            Some(p) => r matches Ok(v) && config_command_models(v@) == p,
            None => r matches Err(e) && e is Io,
        },
{
    let mut out: Vec<ConfigCommand> = Vec::new();
    match (&config.vid, &config.pid) {
        (Some(v), Some(p)) => {
            let vid = parse_id(v)?;
            let pid = parse_id(p)?;
            let vidpid: u32 = (vid as u32) * 65536 + (pid as u32);
            push_command(&mut out, VendorConfigCommand::PhysicalVidPid, vidpid as i128, true);
        },
        _ => {},
    }
    let ghost first = config_command_models(out@);
    match config.led_gpio {
        Some(g) => push_command(&mut out, VendorConfigCommand::PhysicalLedGpio, g as i128, true),
        None => {},
    }
    let ghost second = config_command_models(out@);
    match config.led_brightness {
        Some(b) => push_command(&mut out, VendorConfigCommand::PhysicalLedBrightness, b as i128, true),
        None => {},
    }
    let ghost third = config_command_models(out@);
    let mut opts: u16 = 0;
    if let Some(true) = config.led_dimmable {
        opts = opts + 2;
    }
    if let Some(false) = config.power_cycle_on_reset {
        opts = opts + 4;
    }
    if let Some(true) = config.led_steady {
        opts = opts + 8;
    }
    match config.touch_timeout {
        Some(t) => push_command(&mut out, VendorConfigCommand::PhysicalOptions, t as i128, false),
        None => {},
    }
    let ghost fourth = config_command_models(out@);
    push_command(&mut out, VendorConfigCommand::PhysicalOptions, opts as i128, true);
    proof {
        let p = fido_config_plan(*config)->0;
        let gpio_part: Seq<(VendorConfigCommand, int, bool)> = match config.led_gpio {
            Some(g) => seq![(VendorConfigCommand::PhysicalLedGpio, g as int, true)],
            None => Seq::empty(),
        };
        let bright_part: Seq<(VendorConfigCommand, int, bool)> = match config.led_brightness {
            Some(b) => seq![(VendorConfigCommand::PhysicalLedBrightness, b as int, true)],
            None => Seq::empty(),
        };
        let touch_part: Seq<(VendorConfigCommand, int, bool)> = match config.touch_timeout {
            Some(t) => seq![(VendorConfigCommand::PhysicalOptions, t as int, false)],
            None => Seq::empty(),
        };
        assert(second =~= first + gpio_part);
        assert(third =~= first + gpio_part + bright_part);
        assert(fourth =~= first + gpio_part + bright_part + touch_part);
        assert(config_command_models(out@) =~= p);
    }
    Ok(out)
}

/// How a configuration write reports that not even a plain PIN token
/// could be had; `detail` renders the error of that last attempt.
pub fn token_acquisition_failure(detail: &str) -> (r: PFError)
    ensures
        is_device_error(r, "PIN token acquisition failed: "@ + detail@),
{
    let mut s = String::from_str("PIN token acquisition failed: ");
    s.append(detail);
    PFError::Device(s)
}

/// The message after a configuration write over FIDO.
pub fn config_written_message() -> (r: String)
    ensures
        r@ == "Configuration updated successfully! Unplug and re-plug the device to apply VID/PID changes."@,
{
    String::from_str("Configuration updated successfully! Unplug and re-plug the device to apply VID/PID changes.")
}

/// The PIN that a configuration write over FIDO needs.
pub fn config_pin(pin: Option<String>) -> (r: Result<String, PFError>)
    ensures
        match pin {
            Some(p) => r == Ok::<String, PFError>(p),
            None => r matches Err(e) && is_device_error(
                e,
                "A security PIN is required to be set to change the configuration in fido mode"@,
            ),
        },
{
    match pin {
        Some(p) => Ok(p),
        None => Err(
            crate::error::device_error("A security PIN is required to be set to change the configuration in fido mode"),
        ),
    }
}


/// How a failure to open the HID transport is reported while reading the
/// device status: no device stays no device, anything else becomes a
/// device error with the displayed text.
pub fn open_failure(e: PFError) -> (r: PFError)
    ensures
        e is NoDevice ==> r is NoDevice,
        !(e is NoDevice) ==> is_device_error(r, e.spec_message()),
{
    match e {
        PFError::NoDevice => PFError::NoDevice,
        _ => PFError::Device(e.message()),
    }
}

/// Where a reading of the device status over FIDO stands.
#[derive(Debug, Clone, Copy, PartialEq, Eq, Structural)]
pub enum FidoDetailsStage {
    /// Waiting for the GetInfo answer.
    Info,
    /// Waiting for the memory statistics answer.
    Memory,
    /// Waiting for the physical options answer.
    Physical,
    /// Finished.
    Done,
}

/// What to do next while reading the device status.
#[derive(Debug)]
pub enum FidoDetailsStep {
    /// Send `payload` as the CTAPHID command `cmd` and hand back the answer.
    Send { cmd: u8, payload: Vec<u8> },
    /// The reading is over.
    Done(Result<FullDeviceStatus, PFError>),
}

/// The state of a reading of the device status over FIDO.
#[derive(Debug)]
pub struct FidoDetailsRead {
    pub stage: FidoDetailsStage,
    pub firmware_version: String,
    pub memory: Option<(u32, u32)>,
    pub vid: u16,
    pub pid: u16,
    pub product_name: String,
}

/// Starts reading the status of the FIDO device with the given USB
/// identity: the first step sends GetInfo.
pub fn read_device_details(vid: u16, pid: u16, product_name: String) -> (r: (FidoDetailsRead, FidoDetailsStep))
    ensures
        r.0.stage == FidoDetailsStage::Info,
        r.0.vid == vid,
        r.0.pid == pid,
        r.0.product_name == product_name,
        r.1 matches FidoDetailsStep::Send { cmd, payload } && cmd == crate::ctaphid::CTAPHID_CBOR && payload@
            == seq![CtapCommand::GetInfo.spec_value()],
{
    (
        FidoDetailsRead {
            stage: FidoDetailsStage::Info,
            firmware_version: String::new(),
            memory: None,
            vid,
            pid,
            product_name,
        },
        FidoDetailsStep::Send { cmd: crate::ctaphid::CTAPHID_CBOR, payload: get_info_request() },
    )
}

/// The answer as bytes or error.
pub open spec fn answer_model(answer: Result<Vec<u8>, PFError>) -> Result<Seq<u8>, PFError> {
    match answer {
        Ok(v) => Ok(v@),
        Err(e) => Err(e),
    }
}

impl FidoDetailsRead {
    /// Takes the answer to the last request.
    pub fn on_answer(&mut self, answer: Result<Vec<u8>, PFError>) -> (r: FidoDetailsStep)
        requires
            old(self).stage != FidoDetailsStage::Done,
        ensures
            final(self).vid == old(self).vid,
            final(self).pid == old(self).pid,
            final(self).product_name == old(self).product_name,
            old(self).stage == FidoDetailsStage::Info ==> match answer {
                Err(e) => r matches FidoDetailsStep::Done(Err(x)) && is_device_error(
                    x,
                    "GetInfo failed: "@ + e.spec_message(),
                ) && final(self).stage == FidoDetailsStage::Done,
                Ok(resp) => match identity_answer(resp@) {
                    Err(t) => r matches FidoDetailsStep::Done(Err(x)) && error_is(x, t) && final(self).stage
                        == FidoDetailsStage::Done,
                    Ok(id) => r matches FidoDetailsStep::Send { cmd, payload } && cmd == CTAP_VENDOR_CBOR_CMD
                        && payload@ == vendor_request_bytes(
                        VendorCommand::Memory.spec_value(),
                        MemorySubCommand::GetStats.spec_value(),
                    ) && final(self).stage == FidoDetailsStage::Memory && final(self).firmware_version@ == id.1,
                },
            },
            old(self).stage == FidoDetailsStage::Memory ==> final(self).firmware_version
                == old(self).firmware_version,
            old(self).stage == FidoDetailsStage::Memory ==> match memory_stats_answer(answer_model(answer)) {
                Err(t) => r matches FidoDetailsStep::Done(Err(x)) && error_is(x, t) && final(self).stage
                    == FidoDetailsStage::Done,
                Ok(m) => r matches FidoDetailsStep::Send { cmd, payload } && cmd == CTAP_VENDOR_CBOR_CMD && payload@
                    == vendor_request_bytes(
                    VendorCommand::PhysicalOptions.spec_value(),
                    PhysicalOptionsSubCommand::GetOptions.spec_value(),
                ) && final(self).stage == FidoDetailsStage::Physical && final(self).memory == m,
            },
            old(self).stage == FidoDetailsStage::Physical ==> (r matches FidoDetailsStep::Done(Ok(status))
                && status.info.serial@ == "?"@ && status.info.firmware_version == old(self).firmware_version
                && status.info.flash_used == (match old(self).memory {
                Some(m) => Some(m.0 / 1024),
                None => None::<u32>,
            }) && status.info.flash_total == (match old(self).memory {
                Some(m) => Some(m.1 / 1024),
                None => None::<u32>,
            }) && physical_config_is(
                status.config,
                answer_or_empty(answer_model(answer)),
                old(self).vid,
                old(self).pid,
                old(self).product_name@,
            ) && !status.secure_boot && !status.secure_lock && status.method == DeviceMethod::Fido),
            old(self).stage == FidoDetailsStage::Physical ==> final(self).stage == FidoDetailsStage::Done,
    {
        match self.stage {
            FidoDetailsStage::Info => match answer {
                Err(e) => {
                    self.stage = FidoDetailsStage::Done;
                    FidoDetailsStep::Done(Err(get_info_exchange_failure(&e)))
                },
                Ok(resp) => match parse_device_identity(resp.as_slice()) {
                    Err(e) => {
                        self.stage = FidoDetailsStage::Done;
                        FidoDetailsStep::Done(Err(e))
                    },
                    Ok((_aaguid, fw)) => {
                        self.firmware_version = fw;
                        self.stage = FidoDetailsStage::Memory;
                        FidoDetailsStep::Send { cmd: CTAP_VENDOR_CBOR_CMD, payload: memory_stats_request() }
                    },
                },
            },
            FidoDetailsStage::Memory => match memory_stats_outcome(answer) {
                Err(e) => {
                    self.stage = FidoDetailsStage::Done;
                    FidoDetailsStep::Done(Err(e))
                },
                Ok(m) => {
                    self.memory = m;
                    self.stage = FidoDetailsStage::Physical;
                    FidoDetailsStep::Send { cmd: CTAP_VENDOR_CBOR_CMD, payload: physical_config_request() }
                },
            },
            _ => {
                let config = physical_config_from(answer, self.vid, self.pid, self.product_name.as_str());
                self.stage = FidoDetailsStage::Done;
                FidoDetailsStep::Done(Ok(fido_device_status(self.firmware_version.clone(), self.memory, config)))
            },
        }
    }
}

/// A configuration write over FIDO ends with the physical options word,
/// which it must send. The word sets bit 0x02 exactly when the LED is to
/// be dimmable, bit 0x04 exactly when power cycling on reset is to be
/// off, bit 0x08 exactly when the LED is to be steady, and no other bit;
/// it is the options byte that the Rescue path writes for the same
/// settings, a missing setting taken as dimmable off, power cycle on and
/// steady off.
pub proof fn lemma_fido_options_word(c: AppConfigInput)
    requires
        fido_config_plan(c) is Some,
    ensures
        ({
            let plan = fido_config_plan(c)->Some_0;
            let last = plan[plan.len() - 1];
            &&& plan.len() > 0
            &&& last.0 == VendorConfigCommand::PhysicalOptions
            &&& last.2
            &&& 0 <= last.1 < 16
            &&& crate::rescue::bit_set(last.1 as u8, 0x02) == (c.led_dimmable == Some(true))
            &&& crate::rescue::bit_set(last.1 as u8, 0x04) == (c.power_cycle_on_reset == Some(false))
            &&& crate::rescue::bit_set(last.1 as u8, 0x08) == (c.led_steady == Some(true))
            &&& (last.1 as u8) & 0xF1u8 == 0
            &&& last.1 == crate::rescue::rescue_options_byte(
                c.led_dimmable == Some(true),
                c.power_cycle_on_reset != Some(false),
                c.led_steady == Some(true),
            ) as int
        }),
{
    let plan = fido_config_plan(c)->Some_0;
    let w = fido_options_word(c);
    assert(plan[plan.len() - 1] == (VendorConfigCommand::PhysicalOptions, w, true));
    let x: u8 = if c.led_dimmable == Some(true) { 2 } else { 0 };
    let y: u8 = if c.power_cycle_on_reset == Some(false) { 4 } else { 0 };
    let z: u8 = if c.led_steady == Some(true) { 8 } else { 0 };
    assert(w == x + y + z);
    assert((x == 0 || x == 2) && (y == 0 || y == 4) && (z == 0 || z == 8) ==> ((x + y + z) as u8 & 2 == x
        && (x + y + z) as u8 & 4 == y && (x + y + z) as u8 & 8 == z && (x + y + z) as u8 & 0xF1 == 0))
        by (bit_vector);
}

} // verus!
