//! The Rescue applet of the pico-keys firmware over PC/SC: the APDUs that
//! select it, read the device status and configuration, write the
//! configuration, reboot the device and enable secure boot, and the
//! reading of their answers.
use vstd::prelude::*;
use crate::error::{PFError, device_error, io_error, is_device_error, is_io_error};
use crate::text::{decimal_chars, hex_byte_chars, hex_encode, hex_encoding, push_char, push_decimal, push_hex_byte};
use crate::types::{AppConfig, AppConfigInput, DeviceInfo, DeviceMethod, FullDeviceStatus};

verus! {

/// Class byte of ISO 7816 commands.
pub const APDU_CLA_ISO: u8 = 0x00;
/// SELECT instruction.
pub const APDU_INS_SELECT: u8 = 0xA4;
/// SELECT by DF name.
pub const APDU_P1_SELECT_BY_DF_NAME: u8 = 0x04;
/// SELECT returning the FCI.
pub const APDU_P2_RETURN_FCI: u8 = 0x04;
/// Class byte of the Rescue applet's own commands.
pub const APDU_CLA_PROPRIETARY: u8 = 0x80;
/// P2 of commands that do not use it.
pub const P2_UNUSED: u8 = 0x00;
/// The application identifier of the Rescue applet.
pub const RESCUE_AID: [u8; 8] = [0xA0, 0x58, 0x3F, 0xC1, 0x9B, 0x7E, 0x4F, 0x21];

/// The status word of success.
pub open spec fn sw_success() -> Seq<u8> {
    seq![0x90u8, 0x00u8]
}

/// Instructions of the Rescue applet.
#[derive(Debug, Clone, Copy, PartialEq, Eq, Structural)]
pub enum RescueInstruction {
    Write,
    Secure,
    Read,
    Reboot,
}

impl RescueInstruction {
    pub open spec fn spec_value(&self) -> u8 {
        match self {
            RescueInstruction::Write => 0x1C,
            RescueInstruction::Secure => 0x1D,
            RescueInstruction::Read => 0x1E,
            RescueInstruction::Reboot => 0x1F,
        }
    }

    #[verifier::when_used_as_spec(spec_value)]
    pub fn value(&self) -> (r: u8)
        ensures
            r == self.spec_value(),
    {
        match self {
            RescueInstruction::Write => 0x1C,
            RescueInstruction::Secure => 0x1D,
            RescueInstruction::Read => 0x1E,
            RescueInstruction::Reboot => 0x1F,
        }
    }
}

/// What a READ command reads (its P1).
#[derive(Debug, Clone, Copy, PartialEq, Eq, Structural)]
pub enum ReadParam {
    PhyConfig,
    FlashInfo,
    SecureBootStatus,
}

impl ReadParam {
    pub open spec fn spec_value(&self) -> u8 {
        match self {
            ReadParam::PhyConfig => 0x01,
            ReadParam::FlashInfo => 0x02,
            ReadParam::SecureBootStatus => 0x03,
        }
    }

    #[verifier::when_used_as_spec(spec_value)]
    pub fn value(&self) -> (r: u8)
        ensures
            r == self.spec_value(),
    {
        match self {
            ReadParam::PhyConfig => 0x01,
            ReadParam::FlashInfo => 0x02,
            ReadParam::SecureBootStatus => 0x03,
        }
    }
}

/// What a WRITE command writes (its P1).
#[derive(Debug, Clone, Copy, PartialEq, Eq, Structural)]
pub enum WriteParam {
    PhyConfig,
}

impl WriteParam {
    pub open spec fn spec_value(&self) -> u8 {
        0x01
    }

    #[verifier::when_used_as_spec(spec_value)]
    pub fn value(&self) -> (r: u8)
        ensures
            r == self.spec_value(),
    {
        0x01
    }
}

/// How a REBOOT command restarts the device (its P1).
#[derive(Debug, Clone, Copy, PartialEq, Eq, Structural)]
pub enum RebootParam {
    Normal,
    Bootsel,
}

impl RebootParam {
    pub open spec fn spec_value(&self) -> u8 {
        match self {
            RebootParam::Normal => 0x00,
            RebootParam::Bootsel => 0x01,
        }
    }

    #[verifier::when_used_as_spec(spec_value)]
    pub fn value(&self) -> (r: u8)
        ensures
            r == self.spec_value(),
    {
        match self {
            RebootParam::Normal => 0x00,
            RebootParam::Bootsel => 0x01,
        }
    }
}

/// Tags of the physical configuration TLV.
#[derive(Debug, Clone, Copy, PartialEq, Eq, Structural)]
pub enum PhyTag {
    VidPid,
    LedGpio,
    LedBrightness,
    Opts,
    PresenceTimeout,
    UsbProduct,
    Curves,
    LedDriver,
}

impl PhyTag {
    pub open spec fn spec_value(&self) -> u8 {
        match self {
            PhyTag::VidPid => 0x00,
            PhyTag::LedGpio => 0x04,
            PhyTag::LedBrightness => 0x05,
            PhyTag::Opts => 0x06,
            PhyTag::PresenceTimeout => 0x08,
            PhyTag::UsbProduct => 0x09,
            PhyTag::Curves => 0x0A,
            PhyTag::LedDriver => 0x0C,
        }
    }

    #[verifier::when_used_as_spec(spec_value)]
    pub fn value(&self) -> (r: u8)
        ensures
            r == self.spec_value(),
    {
        match self {
            PhyTag::VidPid => 0x00,
            PhyTag::LedGpio => 0x04,
            PhyTag::LedBrightness => 0x05,
            PhyTag::Opts => 0x06,
            PhyTag::PresenceTimeout => 0x08,
            PhyTag::UsbProduct => 0x09,
            PhyTag::Curves => 0x0A,
            PhyTag::LedDriver => 0x0C,
        }
    }

    /// The tag whose number is `v`.
    pub open spec fn spec_from_u8(v: u8) -> Option<PhyTag> {
        if exists|t: PhyTag| t.spec_value() == v {
            Some(choose|t: PhyTag| t.spec_value() == v)
        } else {
            None
        }
    }

    /// The tag whose number is `v`, if there is one.
    pub fn from_u8(v: u8) -> (r: Option<PhyTag>)
        ensures
            r == Self::spec_from_u8(v),
    {
        let r = match v {
            0x00 => Some(PhyTag::VidPid),
            0x04 => Some(PhyTag::LedGpio),
            0x05 => Some(PhyTag::LedBrightness),
            0x06 => Some(PhyTag::Opts),
            0x08 => Some(PhyTag::PresenceTimeout),
            0x09 => Some(PhyTag::UsbProduct),
            0x0A => Some(PhyTag::Curves),
            0x0C => Some(PhyTag::LedDriver),
            _ => None,
        };
        proof {
            match r {
                Some(t) => {
                    assert(t.spec_value() == v);
                    assert forall|u: PhyTag| u.spec_value() == v implies u == t by {}
                },
                None => {
                    assert forall|u: PhyTag| u.spec_value() != v by {}
                },
            }
        }
        r
    }
}

/// Bits of the options word.
#[derive(Debug)]
pub struct RescueOptions {
    pub bits: u16,
}

impl RescueOptions {
    /// The LED can be dimmed.
    pub const LED_DIMMABLE: u16 = 0x02;
    /// Resetting does not power-cycle the device.
    pub const DISABLE_POWER_RESET: u16 = 0x04;
    /// The LED stays on.
    pub const LED_STEADY: u16 = 0x08;
}

/// Bits of the enabled-curves word.
#[derive(Debug)]
pub struct RescueCurves {
    pub bits: u32,
}

impl RescueCurves {
    /// secp256k1 is enabled.
    pub const SECP256K1: u32 = 0x08;
}

// ---------------------------------------------------------------------
// Status words and answers.
// ---------------------------------------------------------------------

/// Whether the answer ends with the status word 90 00.
pub open spec fn ends_ok(rx: Seq<u8>) -> bool {
    rx.len() >= 2 && rx[rx.len() - 2] == 0x90 && rx[rx.len() - 1] == 0x00
}

/// Whether the answer ends with the status word 90 00.
pub fn ends_with_success(rx: &[u8]) -> (r: bool)
    ensures
        r == ends_ok(rx@),
{
    rx.len() >= 2 && rx[rx.len() - 2] == 0x90 && rx[rx.len() - 1] == 0x00
}

/// The items of a byte list as `{:02X?}` shows them, without brackets.
pub open spec fn hex_items(b: Seq<u8>) -> Seq<char>
    decreases b.len(),
{
    if b.len() == 0 {
        Seq::empty()
    } else if b.len() == 1 {
        hex_byte_chars(b[0], true)
    } else {
        hex_items(b.drop_last()) + ", "@ + hex_byte_chars(b.last(), true)
    }
}

/// A byte list as `{:02X?}` shows it: `[90, 00]`.
pub open spec fn hex_list(b: Seq<u8>) -> Seq<char> {
    "["@ + hex_items(b) + "]"@
}

/// Renders a byte list as `{:02X?}` does.
pub fn hex_list_text(b: &[u8]) -> (r: String)
    ensures
        r@ == hex_list(b@),
{
    proof { reveal_strlit("["); reveal_strlit("]"); reveal_strlit(", "); }
    let mut s = String::new();
    push_char(&mut s, '[');
    let mut i: usize = 0;
    while i < b.len()
        invariant
            i <= b@.len(),
            s@ == "["@ + hex_items(b@.take(i as int)),
        decreases b@.len() - i,
    {
        let ghost before = s@;
        if i > 0 {
            push_char(&mut s, ',');
            push_char(&mut s, ' ');
        }
        push_hex_byte(&mut s, b[i], true);
        proof {
            let t = b@.take(i + 1);
            assert(t.drop_last() =~= b@.take(i as int));
            reveal_strlit(", ");
            assert(t.last() == b@[i as int]);
            assert(s@ =~= "["@ + hex_items(t));
        }
        i = i + 1;
    }
    push_char(&mut s, ']');
    assert(b@.take(b@.len() as int) =~= b@);
    assert(s@ =~= hex_list(b@));
    s
}

// ---------------------------------------------------------------------
// Selecting the applet.
// ---------------------------------------------------------------------

/// The SELECT APDU of the Rescue applet: 00 A4 04 04, the length of the
/// AID and the AID.
pub open spec fn select_apdu_bytes() -> Seq<u8> {
    seq![APDU_CLA_ISO, APDU_INS_SELECT, APDU_P1_SELECT_BY_DF_NAME, APDU_P2_RETURN_FCI, 8u8] + RESCUE_AID@
}

/// The SELECT APDU of the Rescue applet.
pub fn select_apdu() -> (r: Vec<u8>)
    ensures
        r@ == select_apdu_bytes(),
{
    let mut apdu: Vec<u8> = Vec::new();
    apdu.push(APDU_CLA_ISO);
    apdu.push(APDU_INS_SELECT);
    apdu.push(APDU_P1_SELECT_BY_DF_NAME);
    apdu.push(APDU_P2_RETURN_FCI);
    apdu.push(8);
    let aid = RESCUE_AID;
    let mut i: usize = 0;
    while i < 8
        invariant
            i <= 8,
            aid@ == RESCUE_AID@,
            apdu@ == seq![APDU_CLA_ISO, APDU_INS_SELECT, APDU_P1_SELECT_BY_DF_NAME, APDU_P2_RETURN_FCI, 8u8]
                + aid@.take(i as int),
        decreases 8 - i,
    {
        apdu.push(aid[i]);
        assert(aid@.take(i + 1) =~= aid@.take(i as int).push(aid@[i as int]));
        i = i + 1;
    }
    assert(aid@.take(8) =~= aid@);
    apdu
}

/// Checks the answer to SELECT.
pub fn check_select_answer(rx: Vec<u8>) -> (r: Result<Vec<u8>, PFError>)
    ensures
        ends_ok(rx@) ==> r == Ok::<Vec<u8>, PFError>(rx),
        !ends_ok(rx@) ==> (r matches Err(e) && is_device_error(
            e,
            "Rescue Applet not found on device. Is it in FIDO mode?"@,
        )),
{
    if ends_with_success(rx.as_slice()) {
        Ok(rx)
    } else {
        Err(device_error("Rescue Applet not found on device. Is it in FIDO mode?"))
    }
}

/// The identity in the answer to SELECT: the serial number (bytes 4..12
/// in upper-case hexadecimal, or "00000000" when the answer is shorter
/// than 14 bytes) and the firmware version bytes 2 and 3.
pub open spec fn select_identity_answer(rx: Seq<u8>) -> Option<(Seq<char>, u8, u8)> {
    if rx.len() < 6 {
        None
    } else {
        Some(
            (
                if rx.len() >= 14 {
                    hex_encoding(rx.subrange(4, 12), true)
                } else {
                    "00000000"@
                },
                rx[2],
                rx[3],
            ),
        )
    }
}

/// Reads the serial number and the firmware version from the answer to
/// SELECT.
pub fn parse_select_identity(rx: &[u8]) -> (r: Result<(String, u8, u8), PFError>)
    ensures
        match select_identity_answer(rx@) {
            Some(v) => r matches Ok(x) && x.0@ == v.0 && x.1 == v.1 && x.2 == v.2,
            None => r matches Err(e) && is_device_error(e, "Invalid select response"@),
        },
{
    if rx.len() < 6 {
        return Err(device_error("Invalid select response"));
    }
    let serial = if rx.len() >= 14 {
        let mut b: Vec<u8> = Vec::new();
        crate::ctaphid::push_range(&mut b, rx, 4, 12);
        hex_encode(b.as_slice(), true)
    } else {
        String::from_str("00000000")
    };
    Ok((serial, rx[2], rx[3]))
}

// ---------------------------------------------------------------------
// Reading the status.
// ---------------------------------------------------------------------

/// The READ APDU: 80 1E P1 P2 00.
pub open spec fn read_apdu_bytes(param: ReadParam, p2: u8) -> Seq<u8> {
    seq![APDU_CLA_PROPRIETARY, RescueInstruction::Read.spec_value(), param.spec_value(), p2, 0x00u8]
}

/// The READ APDU for `param`.
pub fn read_apdu(param: ReadParam) -> (r: Vec<u8>)
    ensures
        r@ == read_apdu_bytes(
            param,
            match param {
                ReadParam::PhyConfig => 0x01u8,
                _ => P2_UNUSED,
            },
        ),
{
    let p2: u8 = match param {
        ReadParam::PhyConfig => 0x01,
        _ => P2_UNUSED,
    };
    let mut r: Vec<u8> = Vec::new();
    r.push(APDU_CLA_PROPRIETARY);
    r.push(RescueInstruction::Read.value());
    r.push(param.value());
    r.push(p2);
    r.push(0x00);
    assert(r@ =~= read_apdu_bytes(param, p2));
    r
}

/// The big-endian 32-bit word at `at`, or 0 when fewer than four bytes
/// are left there (a read past the end gives 0).
pub open spec fn word_or_zero(d: Seq<u8>, at: int) -> u32 {
    if at + 4 <= d.len() {
        (d[at] as int * 0x1000000 + d[at + 1] as int * 0x10000 + d[at + 2] as int * 0x100 + d[at + 3] as int) as u32
    } else {
        0
    }
}

fn read_word_or_zero(d: &[u8], at: usize) -> (r: u32)
    requires
        at <= 16,
    ensures
        r == word_or_zero(d@, at as int),
{
    if d.len() >= 4 && at <= d.len() - 4 {
        (d[at] as u32) * 0x1000000 + (d[at + 1] as u32) * 0x10000 + (d[at + 2] as u32) * 0x100 + (d[at + 3] as u32)
    } else {
        0
    }
}

/// The used and total flash in bytes from the flash information answer:
/// the second and third big-endian words before the status word.
pub open spec fn flash_answer(rx: Seq<u8>) -> Option<(u32, u32)> {
    if !ends_ok(rx) {
        None
    } else {
        let d = rx.subrange(0, rx.len() - 2);
        Some((word_or_zero(d, 4), word_or_zero(d, 8)))
    }
}

/// Reads the flash information answer.
pub fn parse_flash_info(rx: &[u8]) -> (r: Result<(u32, u32), PFError>)
    ensures
        match flash_answer(rx@) {
            Some(v) => r == Ok::<(u32, u32), PFError>(v),
            None => r matches Err(e) && is_device_error(e, "Failed to read flash"@),
        },
{
    if !ends_with_success(rx) {
        return Err(device_error("Failed to read flash"));
    }
    let mut d: Vec<u8> = Vec::new();
    crate::ctaphid::push_range(&mut d, rx, 0, rx.len() - 2);
    let used = read_word_or_zero(d.as_slice(), 4);
    let total = read_word_or_zero(d.as_slice(), 8);
    Ok((used, total))
}

/// Secure boot enabled and locked, from the secure boot status answer:
/// the first two bytes, when the answer succeeded and has four bytes.
pub open spec fn secure_boot_answer(rx: Seq<u8>) -> (bool, bool) {
    if ends_ok(rx) && rx.len() >= 4 {
        (rx[0] != 0, rx[1] != 0)
    } else {
        (false, false)
    }
}

/// Reads the secure boot status answer.
pub fn parse_secure_boot(rx: &[u8]) -> (r: (bool, bool))
    ensures
        r == secure_boot_answer(rx@),
{
    if ends_with_success(rx) && rx.len() >= 4 {
        (rx[0] != 0, rx[1] != 0)
    } else {
        (false, false)
    }
}


// ---------------------------------------------------------------------
// The physical configuration TLV.
// ---------------------------------------------------------------------

/// The physical configuration as values.
pub struct PhyModel {
    pub vid: Seq<char>,
    pub pid: Seq<char>,
    pub product_name: Seq<char>,
    pub led_gpio: u8,
    pub led_brightness: u8,
    pub touch_timeout: u8,
    pub led_driver: Option<u8>,
    pub led_dimmable: bool,
    pub power_cycle_on_reset: bool,
    pub led_steady: bool,
    pub enable_secp256k1: bool,
}

/// The configuration as values.
pub open spec fn phy_model(c: AppConfig) -> PhyModel {
    PhyModel {
        vid: c.vid@,
        pid: c.pid@,
        product_name: c.product_name@,
        led_gpio: c.led_gpio,
        led_brightness: c.led_brightness,
        touch_timeout: c.touch_timeout,
        led_driver: c.led_driver,
        led_dimmable: c.led_dimmable,
        power_cycle_on_reset: c.power_cycle_on_reset,
        led_steady: c.led_steady,
        enable_secp256k1: c.enable_secp256k1,
    }
}

/// The default configuration as values.
pub open spec fn empty_phy() -> PhyModel {
    PhyModel {
        vid: Seq::empty(),
        pid: Seq::empty(),
        product_name: Seq::empty(),
        led_gpio: 0,
        led_brightness: 0,
        touch_timeout: 0,
        led_driver: None,
        led_dimmable: false,
        power_cycle_on_reset: false,
        led_steady: false,
        enable_secp256k1: false,
    }
}

/// Decodes bytes as UTF-8 with `std::str::from_utf8`: the text when the
/// bytes are valid UTF-8 (vstd's `valid_utf8` and `decode_utf8` state
/// the encoding), else nothing.
#[verifier::external_body]
fn utf8_text(b: &[u8]) -> (r: Option<String>)
    ensures
        r is Some <==> vstd::utf8::valid_utf8(b@),
        r matches Some(s) ==> s@ == vstd::utf8::decode_utf8(b@),
{
    std::str::from_utf8(b).ok().map(|s| s.to_string())
}

/// The text without leading NUL characters.
pub open spec fn trim_nul_front(s: Seq<char>) -> Seq<char>
    decreases s.len(),
{
    if s.len() > 0 && s[0] == '\0' {
        trim_nul_front(s.drop_first())
    } else {
        s
    }
}

/// The text without trailing NUL characters.
pub open spec fn trim_nul_back(s: Seq<char>) -> Seq<char>
    decreases s.len(),
{
    if s.len() > 0 && s.last() == '\0' {
        trim_nul_back(s.drop_last())
    } else {
        s
    }
}

/// The text without leading and trailing NUL characters
/// (`trim_matches('\0')`).
pub open spec fn trim_nul(s: Seq<char>) -> Seq<char> {
    trim_nul_back(trim_nul_front(s))
}

/// The product name in a TLV value: its UTF-8 text (empty when invalid)
/// without NUL padding.
pub open spec fn product_name_of(val: Seq<u8>) -> Seq<char> {
    trim_nul(
        if vstd::utf8::valid_utf8(val) {
            vstd::utf8::decode_utf8(val)
        } else {
            Seq::empty()
        },
    )
}

/// Whether bit `mask` (a power of two below 256) is set in byte `b`.
pub open spec fn bit_set(b: u8, mask: u8) -> bool {
    b & mask != 0
}

/// What the TLV entry `tag: val` changes in the configuration. Unknown
/// tags, and values too short for their tag, change nothing.
pub open spec fn phy_apply(m: PhyModel, tag: u8, val: Seq<u8>) -> PhyModel {
    if tag == 0x00 {
        if val.len() == 4 {
            PhyModel {
                vid: hex_encoding(val.subrange(0, 2), true),
                pid: hex_encoding(val.subrange(2, 4), true),
                ..m
            }
        } else {
            m
        }
    } else if tag == 0x04 {
        if val.len() > 0 { PhyModel { led_gpio: val[0], ..m } } else { m }
    } else if tag == 0x05 {
        if val.len() > 0 { PhyModel { led_brightness: val[0], ..m } } else { m }
    } else if tag == 0x08 {
        if val.len() > 0 { PhyModel { touch_timeout: val[0], ..m } } else { m }
    } else if tag == 0x09 {
        PhyModel { product_name: product_name_of(val), ..m }
    } else if tag == 0x06 {
        if val.len() >= 2 {
            PhyModel {
                led_dimmable: bit_set(val[1], 0x02),
                power_cycle_on_reset: !bit_set(val[1], 0x04),
                led_steady: bit_set(val[1], 0x08),
                ..m
            }
        } else {
            m
        }
    } else if tag == 0x0A {
        if val.len() >= 4 { PhyModel { enable_secp256k1: bit_set(val[3], 0x08), ..m } } else { m }
    } else if tag == 0x0C {
        if val.len() > 0 { PhyModel { led_driver: Some(val[0]), ..m } } else { m }
    } else {
        m
    }
}

/// The configuration after the TLV entries from position `i` on are
/// read. Reading stops at an entry whose header or value does not fit.
#[verifier::opaque]
pub open spec fn phy_from(data: Seq<u8>, i: int, m: PhyModel) -> PhyModel
    decreases data.len() - i,
{
    if i < 0 || i + 2 > data.len() {
        m
    } else {
        let len = data[i + 1] as int;
        if i + 2 + len > data.len() {
            m
        } else {
            phy_from(data, i + 2 + len, phy_apply(m, data[i], data.subrange(i + 2, i + 2 + len)))
        }
    }
}

/// What the physical configuration answer gives: the configuration that
/// its TLV entries describe, starting from the default one.
pub open spec fn phy_answer(rx: Seq<u8>) -> Option<PhyModel> {
    if !ends_ok(rx) {
        None
    } else {
        Some(phy_from(rx.subrange(0, rx.len() - 2), 0, empty_phy()))
    }
}

fn trim_nul_text(s: String) -> (r: String)
    ensures
        r@ == trim_nul(s@),
{
    let chars = crate::text::str_chars(s.as_str());
    assert(chars@.subrange(0, chars@.len() as int) =~= chars@);
    let mut start: usize = 0;
    while start < chars.len() && chars[start] == '\0'
        invariant
            start <= chars@.len(),
            trim_nul_front(chars@) == trim_nul_front(chars@.subrange(start as int, chars@.len() as int)),
        decreases chars@.len() - start,
    {
        let ghost t = chars@.subrange(start as int, chars@.len() as int);
        assert(t.drop_first() =~= chars@.subrange(start + 1, chars@.len() as int));
        start = start + 1;
    }
    proof {
        let t = chars@.subrange(start as int, chars@.len() as int);
        assert(chars@.subrange(0, chars@.len() as int) =~= chars@);
    }
    let ghost front = chars@.subrange(start as int, chars@.len() as int);
    assert(trim_nul_front(chars@) == front) by {
        assert(chars@.subrange(0, chars@.len() as int) =~= chars@);
    }
    let mut end: usize = chars.len();
    while end > start && chars[end - 1] == '\0'
        invariant
            start <= end <= chars@.len(),
            front == chars@.subrange(start as int, chars@.len() as int),
            trim_nul_back(front) == trim_nul_back(chars@.subrange(start as int, end as int)),
        decreases end - start,
    {
        let ghost t = chars@.subrange(start as int, end as int);
        assert(t.drop_last() =~= chars@.subrange(start as int, end - 1));
        end = end - 1;
    }
    let out = crate::text::string_from_chars(&chars.as_slice()[start..end]);
    assert(chars@.subrange(start as int, end as int) == trim_nul(s@));
    out
}

fn apply_tlv(config: &mut AppConfig, tag: u8, val: &[u8])
    ensures
        phy_model(*final(config)) == phy_apply(phy_model(*old(config)), tag, val@),
{
    if tag == 0x00 {
        if val.len() == 4 {
            config.vid = hex_encode(&val[0..2], true);
            config.pid = hex_encode(&val[2..4], true);
        }
    } else if tag == 0x04 {
        if val.len() > 0 {
            config.led_gpio = val[0];
        }
    } else if tag == 0x05 {
        if val.len() > 0 {
            config.led_brightness = val[0];
        }
    } else if tag == 0x08 {
        if val.len() > 0 {
            config.touch_timeout = val[0];
        }
    } else if tag == 0x09 {
        let text = match utf8_text(val) {
            Some(t) => t,
            None => String::new(),
        };
        config.product_name = trim_nul_text(text);
    } else if tag == 0x06 {
        if val.len() >= 2 {
            config.led_dimmable = val[1] & 0x02 != 0;
            config.power_cycle_on_reset = !(val[1] & 0x04 != 0);
            config.led_steady = val[1] & 0x08 != 0;
        }
    } else if tag == 0x0A {
        if val.len() >= 4 {
            config.enable_secp256k1 = val[3] & 0x08 != 0;
        }
    } else if tag == 0x0C {
        if val.len() > 0 {
            config.led_driver = Some(val[0]);
        }
    }
}

/// Reads the physical configuration answer.
pub fn parse_phy_config(rx: &[u8]) -> (r: Result<AppConfig, PFError>)
    ensures
        match phy_answer(rx@) {
            Some(m) => r matches Ok(c) && phy_model(c) == m,
            None => r matches Err(e) && is_device_error(e, "Failed to read config"@),
        },
{
    if !ends_with_success(rx) {
        return Err(device_error("Failed to read config"));
    }
    let mut d: Vec<u8> = Vec::new();
    crate::ctaphid::push_range(&mut d, rx, 0, rx.len() - 2);
    let mut config = AppConfig {
        vid: String::new(),
        pid: String::new(),
        product_name: String::new(),
        led_gpio: 0,
        led_brightness: 0,
        touch_timeout: 0,
        led_driver: None,
        led_dimmable: false,
        power_cycle_on_reset: false,
        led_steady: false,
        enable_secp256k1: false,
    };
    assert(d@ =~= rx@.subrange(0, rx@.len() - 2));
    let ghost data = d@;
    let mut i: usize = 0;
    while i < d.len() && d.len() - i >= 2 && (d[i + 1] as usize) <= d.len() - (i + 2)
        invariant
            data == d@,
            i <= d@.len(),
            phy_from(data, 0, empty_phy()) == phy_from(data, i as int, phy_model(config)),
        decreases d@.len() - i,
    {
        proof { reveal(phy_from); }
        let tag = d[i];
        let len = d[i + 1] as usize;
        apply_tlv(&mut config, tag, &d.as_slice()[i + 2..i + 2 + len]);
        assert(d@.subrange(i + 2, i + 2 + len) == data.subrange(i + 2, i + 2 + len));
        i = i + 2 + len;
    }
    proof { reveal(phy_from); }
    Ok(config)
}


/// The status of a device reached through the Rescue applet.
pub fn rescue_device_status(
    serial: String,
    version_major: u8,
    version_minor: u8,
    flash: (u32, u32),
    secure: (bool, bool),
    config: AppConfig,
) -> (r: FullDeviceStatus)
    ensures
        r.info.serial == serial,
        r.info.flash_used == Some(flash.0 / 1024),
        r.info.flash_total == Some(flash.1 / 1024),
        r.info.firmware_version@ == decimal_chars(version_major as nat) + "."@ + decimal_chars(version_minor as nat),
        r.config == config,
        r.secure_boot == secure.0,
        r.secure_lock == secure.1,
        r.method == DeviceMethod::Rescue,
{
    let mut fw = String::new();
    push_decimal(&mut fw, version_major as u128);
    push_char(&mut fw, '.');
    push_decimal(&mut fw, version_minor as u128);
    proof { reveal_strlit("."); }
    assert(fw@ =~= decimal_chars(version_major as nat) + "."@ + decimal_chars(version_minor as nat));
    FullDeviceStatus {
        info: DeviceInfo {
            serial,
            flash_used: Some(flash.0 / 1024),
            flash_total: Some(flash.1 / 1024),
            firmware_version: fw,
        },
        config,
        secure_boot: secure.0,
        secure_lock: secure.1,
        method: DeviceMethod::Rescue,
    }
}

// ---------------------------------------------------------------------
// Writing the configuration.
// ---------------------------------------------------------------------

/// The options word of a write: all three settings given, with 0x02
/// LED dimmable, 0x04 no power cycle on reset, 0x08 steady LED.
pub open spec fn rescue_options_byte(dim: bool, cycle: bool, steady: bool) -> u8 {
    ((if dim { 2int } else { 0int }) + (if !cycle { 4int } else { 0int }) + (if steady { 8int } else { 0int })) as u8
}

/// The VID/PID entry of a write: present when both are given, an I/O
/// error when either is not hexadecimal text of 16 bits.
pub open spec fn vidpid_entry(c: AppConfigInput) -> Result<Seq<u8>, Seq<char>> {
    match (c.vid, c.pid) {
        (Some(v), Some(p)) => match crate::fidodevice::spec_parse_hex_u16(v@) {
            None => Err("Invalid VID"@),
            Some(x) => match crate::fidodevice::spec_parse_hex_u16(p@) {
                None => Err("Invalid PID"@),
                Some(y) => Ok(
                    seq![PhyTag::VidPid.spec_value(), 4u8] + crate::fidodevice::u16_bytes(x)
                        + crate::fidodevice::u16_bytes(y),
                ),
            },
        },
        _ => Ok(Seq::empty()),
    }
}

/// A one-byte entry, present when the setting is given.
pub open spec fn byte_entry(tag: u8, v: Option<u8>) -> Seq<u8> {
    match v {
        Some(b) => seq![tag, 1u8, b],
        None => Seq::empty(),
    }
}

/// The options entry, present when all three options are given.
pub open spec fn opts_entry(c: AppConfigInput) -> Seq<u8> {
    match (c.led_dimmable, c.power_cycle_on_reset, c.led_steady) {
        (Some(d), Some(cy), Some(st)) => seq![PhyTag::Opts.spec_value(), 2u8, 0u8, rescue_options_byte(d, cy, st)],
        _ => Seq::empty(),
    }
}

/// The enabled-curves entry, present when secp256k1 is set or cleared.
pub open spec fn curves_entry(c: AppConfigInput) -> Seq<u8> {
    match c.enable_secp256k1 {
        Some(en) => seq![PhyTag::Curves.spec_value(), 4u8, 0u8, 0u8, 0u8, if en { 8u8 } else { 0u8 }],
        None => Seq::empty(),
    }
}

/// The entries after the VID/PID and before the product name: LED pin,
/// brightness, touch timeout, options, curves, LED driver.
pub open spec fn middle_entries(c: AppConfigInput) -> Seq<u8> {
    byte_entry(PhyTag::LedGpio.spec_value(), c.led_gpio) + byte_entry(
        PhyTag::LedBrightness.spec_value(),
        c.led_brightness,
    ) + byte_entry(PhyTag::PresenceTimeout.spec_value(), c.touch_timeout) + opts_entry(c) + curves_entry(c)
        + byte_entry(PhyTag::LedDriver.spec_value(), c.led_driver)
}

/// The product name entry: its UTF-8 bytes and a NUL, at most 32 bytes
/// in all; an empty name is left out.
pub open spec fn name_entry(c: AppConfigInput) -> Result<Seq<u8>, Seq<char>> {
    match c.product_name {
        Some(n) => {
            let b = vstd::utf8::encode_utf8(n@);
            if b.len() == 0 {
                Ok(Seq::empty())
            } else if b.len() + 1 > 32 {
                Err("Product name too long"@)
            } else {
                Ok(seq![PhyTag::UsbProduct.spec_value(), (b.len() + 1) as u8] + b + seq![0u8])
            }
        },
        None => Ok(Seq::empty()),
    }
}

/// The TLV of a configuration write, or the text of the I/O error.
pub open spec fn rescue_tlv(c: AppConfigInput) -> Result<Seq<u8>, Seq<char>> {
    match vidpid_entry(c) {
        Err(t) => Err(t),
        Ok(first) => match name_entry(c) {
            Err(t) => Err(t),
            Ok(last) => Ok(first + middle_entries(c) + last),
        },
    }
}

fn push_byte_entry(out: &mut Vec<u8>, tag: u8, v: Option<u8>)
    ensures
        final(out)@ == old(out)@ + byte_entry(tag, v),
{
    match v {
        Some(b) => {
            out.push(tag);
            out.push(1);
            out.push(b);
            assert(final(out)@ =~= old(out)@ + seq![tag, 1u8, b]);
        },
        None => {
            assert(final(out)@ =~= old(out)@ + Seq::<u8>::empty());
        },
    }
}

fn vidpid_tlv(config: &AppConfigInput) -> (r: Result<Vec<u8>, PFError>)
    ensures
        match vidpid_entry(*config) {
            Ok(b) => r matches Ok(v) && v@ == b,
            Err(t) => r matches Err(e) && is_io_error(e, t),
        },
{
    let mut tlv: Vec<u8> = Vec::new();
    match (&config.vid, &config.pid) {
        (Some(v), Some(p)) => {
            let vid = match crate::fidodevice::u16_from_hex(v.as_str()) {
                Ok(x) => x,
                Err(_) => {
                    return Err(io_error("Invalid VID"));
                },
            };
            let pid = match crate::fidodevice::u16_from_hex(p.as_str()) {
                Ok(x) => x,
                Err(_) => {
                    return Err(io_error("Invalid PID"));
                },
            };
            tlv.push(PhyTag::VidPid.value());
            tlv.push(4);
            tlv.push((vid / 256) as u8);
            tlv.push((vid % 256) as u8);
            tlv.push((pid / 256) as u8);
            tlv.push((pid % 256) as u8);
            assert(tlv@ =~= seq![PhyTag::VidPid.spec_value(), 4u8] + crate::fidodevice::u16_bytes(vid)
                + crate::fidodevice::u16_bytes(pid));
        },
        _ => {},
    }
    Ok(tlv)
}

fn push_opts_entry(tlv: &mut Vec<u8>, config: &AppConfigInput)
    ensures
        final(tlv)@ == old(tlv)@ + opts_entry(*config),
{
    match (config.led_dimmable, config.power_cycle_on_reset, config.led_steady) {
        (Some(d), Some(cy), Some(st)) => {
            let mut o: u8 = 0;
            if d {
                o = o + 2;
            }
            if !cy {
                o = o + 4;
            }
            if st {
                o = o + 8;
            }
            tlv.push(PhyTag::Opts.value());
            tlv.push(2);
            tlv.push(0);
            tlv.push(o);
        },
        _ => {},
    }
    assert(final(tlv)@ =~= old(tlv)@ + opts_entry(*config));
}

fn push_curves_entry(tlv: &mut Vec<u8>, config: &AppConfigInput)
    ensures
        final(tlv)@ == old(tlv)@ + curves_entry(*config),
{
    match config.enable_secp256k1 {
        Some(en) => {
            tlv.push(PhyTag::Curves.value());
            tlv.push(4);
            tlv.push(0);
            tlv.push(0);
            tlv.push(0);
            tlv.push(if en { 8 } else { 0 });
        },
        None => {},
    }
    assert(final(tlv)@ =~= old(tlv)@ + curves_entry(*config));
}

fn push_middle_entries(tlv: &mut Vec<u8>, config: &AppConfigInput)
    ensures
        final(tlv)@ == old(tlv)@ + middle_entries(*config),
{
    push_byte_entry(tlv, PhyTag::LedGpio.value(), config.led_gpio);
    push_byte_entry(tlv, PhyTag::LedBrightness.value(), config.led_brightness);
    push_byte_entry(tlv, PhyTag::PresenceTimeout.value(), config.touch_timeout);
    push_opts_entry(tlv, config);
    push_curves_entry(tlv, config);
    push_byte_entry(tlv, PhyTag::LedDriver.value(), config.led_driver);
    assert(final(tlv)@ =~= old(tlv)@ + middle_entries(*config));
}

fn push_name_entry(tlv: &mut Vec<u8>, config: &AppConfigInput) -> (r: Result<(), PFError>)
    ensures
        match name_entry(*config) {
            Ok(b) => r is Ok && final(tlv)@ == old(tlv)@ + b,
            Err(t) => r matches Err(e) && is_io_error(e, t),
        },
{
    match &config.product_name {
        Some(n) => {
            let bytes = n.as_str().as_bytes();
            assert(bytes@ == vstd::utf8::encode_utf8(n@));
            if bytes.len() > 0 {
                if bytes.len() > 31 {
                    return Err(io_error("Product name too long"));
                }
                let ghost start = tlv@;
                tlv.push(PhyTag::UsbProduct.value());
                tlv.push((bytes.len() + 1) as u8);
                crate::clientpin::extend(tlv, bytes);
                tlv.push(0);
                assert(tlv@ =~= start + (seq![PhyTag::UsbProduct.spec_value(), (bytes@.len() + 1) as u8] + bytes@
                    + seq![0u8]));
            } else {
                assert(tlv@ =~= old(tlv)@ + Seq::<u8>::empty());
            }
        },
        None => {
            assert(tlv@ =~= old(tlv)@ + Seq::<u8>::empty());
        },
    }
    Ok(())
}

/// Builds the TLV of a configuration write.
pub fn build_rescue_tlv(config: &AppConfigInput) -> (r: Result<Vec<u8>, PFError>)
    ensures
        match rescue_tlv(*config) {
            Ok(b) => r matches Ok(v) && v@ == b,
            Err(t) => r matches Err(e) && is_io_error(e, t),
        },
{
    let mut tlv = vidpid_tlv(config)?;
    let ghost first = tlv@;
    push_middle_entries(&mut tlv, config);
    let ghost second = tlv@;
    push_name_entry(&mut tlv, config)?;
    proof {
        match name_entry(*config) {
            Ok(last) => {
                assert(tlv@ =~= first + middle_entries(*config) + last);
            },
            Err(_) => {},
        }
    }
    Ok(tlv)
}

/// The WRITE APDU that carries the TLV: 80 1C 01 00, its length, the TLV.
pub open spec fn write_apdu_bytes(tlv: Seq<u8>) -> Seq<u8> {
    seq![APDU_CLA_PROPRIETARY, RescueInstruction::Write.spec_value(), WriteParam::PhyConfig.spec_value(), P2_UNUSED, tlv.len() as u8] + tlv
}

/// What a configuration write does: nothing when no setting is given,
/// else send the WRITE APDU.
#[derive(Debug, Clone)]
pub enum RescueWrite {
    NothingToApply,
    Send(Vec<u8>),
}

/// Plans a configuration write through the Rescue applet.
pub fn rescue_write_plan(config: &AppConfigInput) -> (r: Result<RescueWrite, PFError>)
    ensures
        match rescue_tlv(*config) {
            Ok(b) => if b.len() == 0 {
                r matches Ok(RescueWrite::NothingToApply)
            } else {
                r matches Ok(RescueWrite::Send(a)) && a@ == write_apdu_bytes(b)
            },
            Err(t) => r matches Err(e) && is_io_error(e, t),
        },
{
    let tlv = build_rescue_tlv(config)?;
    if tlv.len() == 0 {
        return Ok(RescueWrite::NothingToApply);
    }
    let mut apdu: Vec<u8> = Vec::new();
    apdu.push(APDU_CLA_PROPRIETARY);
    apdu.push(RescueInstruction::Write.value());
    apdu.push(WriteParam::PhyConfig.value());
    apdu.push(P2_UNUSED);
    apdu.push(tlv.len() as u8);
    crate::clientpin::extend(&mut apdu, tlv.as_slice());
    assert(apdu@ =~= write_apdu_bytes(tlv@));
    Ok(RescueWrite::Send(apdu))
}

/// The message of a write that had nothing to apply.
pub fn nothing_to_apply_message() -> (r: String)
    ensures
        r@ == "No changes to apply"@,
{
    String::from_str("No changes to apply")
}

fn answer_outcome(rx: &[u8], success: &str, failure: &str) -> (r: Result<String, PFError>)
    ensures
        ends_ok(rx@) ==> (r matches Ok(s) && s@ == success@),
        !ends_ok(rx@) ==> (r matches Err(e) && is_device_error(e, failure@ + hex_list(rx@))),
{
    if ends_with_success(rx) {
        Ok(String::from_str(success))
    } else {
        let mut s = String::from_str(failure);
        s.append(hex_list_text(rx).as_str());
        Err(PFError::Device(s))
    }
}

/// Reads the answer to the configuration WRITE.
pub fn write_config_outcome(rx: &[u8]) -> (r: Result<String, PFError>)
    ensures
        ends_ok(rx@) ==> (r matches Ok(s) && s@ == "Configuration Applied Successfully"@),
        !ends_ok(rx@) ==> (r matches Err(e) && is_device_error(e, "Write failed: "@ + hex_list(rx@))),
{
    answer_outcome(rx, "Configuration Applied Successfully", "Write failed: ")
}

// ---------------------------------------------------------------------
// Rebooting and secure boot.
// ---------------------------------------------------------------------

/// A command of the Rescue applet, sent after the applet is selected,
/// with the texts that report its answer.
#[derive(Debug)]
pub struct RescueCommand {
    pub apdu: Vec<u8>,
    pub success: &'static str,
    pub failure: &'static str,
}

impl RescueCommand {
    /// The message reported on success.
    pub open spec fn success_text(&self) -> Seq<char> {
        self.success@
    }

    /// The text before the status bytes on failure.
    pub open spec fn failure_text(&self) -> Seq<char> {
        self.failure@
    }

    /// Reads the answer to the command.
    pub fn outcome(&self, rx: &[u8]) -> (r: Result<String, PFError>)
        ensures
            ends_ok(rx@) ==> (r matches Ok(s) && s@ == self.success_text()),
            !ends_ok(rx@) ==> (r matches Err(e) && is_device_error(e, self.failure_text() + hex_list(rx@))),
    {
        answer_outcome(rx, self.success, self.failure)
    }
}

/// The REBOOT command: 80 1F P1 00 00, with P1 1 to restart into the
/// bootloader (BOOTSEL) and 0 to restart normally.
pub fn reboot_device(to_bootsel: bool) -> (r: RescueCommand)
    ensures
        r.apdu@ == seq![
            APDU_CLA_PROPRIETARY,
            RescueInstruction::Reboot.spec_value(),
            if to_bootsel { RebootParam::Bootsel.spec_value() } else { RebootParam::Normal.spec_value() },
            P2_UNUSED,
            0x00u8,
        ],
        r.success_text() == "Reboot command sent"@,
        r.failure_text() == "Reboot failed: "@,
{
    let param = if to_bootsel { RebootParam::Bootsel } else { RebootParam::Normal };
    let mut apdu: Vec<u8> = Vec::new();
    apdu.push(APDU_CLA_PROPRIETARY);
    apdu.push(RescueInstruction::Reboot.value());
    apdu.push(param.value());
    apdu.push(P2_UNUSED);
    apdu.push(0x00);
    RescueCommand { apdu, success: "Reboot command sent", failure: "Reboot failed: " }
}

/// The SECURE command: 80 1D, the boot key index 0, the lock flag, 00.
pub fn enable_secure_boot(lock: bool) -> (r: RescueCommand)
    ensures
        r.apdu@ == seq![
            APDU_CLA_PROPRIETARY,
            RescueInstruction::Secure.spec_value(),
            0x00u8,
            if lock { 0x01u8 } else { 0x00u8 },
            0x00u8,
        ],
        r.success_text() == "Secure Boot Enabled"@,
        r.failure_text() == "Secure Boot failed: "@,
{
    let lock_byte: u8 = if lock { 0x01 } else { 0x00 };
    let mut apdu: Vec<u8> = Vec::new();
    apdu.push(APDU_CLA_PROPRIETARY);
    apdu.push(RescueInstruction::Secure.value());
    apdu.push(0x00);
    apdu.push(lock_byte);
    apdu.push(0x00);
    RescueCommand { apdu, success: "Secure Boot Enabled", failure: "Secure Boot failed: " }
}


// ---------------------------------------------------------------------
// Reading the device status.
// ---------------------------------------------------------------------

/// Where a reading of the device status through the Rescue applet stands.
#[derive(Debug, Clone, Copy, PartialEq, Eq, Structural)]
pub enum RescueDetailsStage {
    /// Waiting for the answer to SELECT.
    Select,
    /// Waiting for the flash information.
    Flash,
    /// Waiting for the secure boot status.
    Secure,
    /// Waiting for the physical configuration.
    Phy,
    /// Finished.
    Done,
}

/// What to do next while reading the device status.
#[derive(Debug)]
pub enum RescueDetailsStep {
    /// Transmit the APDU and hand back the answer.
    Transmit(Vec<u8>),
    /// The reading is over.
    Done(Result<FullDeviceStatus, PFError>),
}

/// The state of a reading of the device status through the Rescue applet.
#[derive(Debug)]
pub struct RescueDetailsRead {
    pub stage: RescueDetailsStage,
    pub serial: String,
    pub version_major: u8,
    pub version_minor: u8,
    pub flash: (u32, u32),
    pub secure: (bool, bool),
}

/// Starts reading the status of the device: the first step selects the
/// Rescue applet.
pub fn read_device_details() -> (r: (RescueDetailsRead, RescueDetailsStep))
    ensures
        r.0.stage == RescueDetailsStage::Select,
        r.1 matches RescueDetailsStep::Transmit(a) && a@ == select_apdu_bytes(),
{
    (
        RescueDetailsRead {
            stage: RescueDetailsStage::Select,
            serial: String::new(),
            version_major: 0,
            version_minor: 0,
            flash: (0, 0),
            secure: (false, false),
        },
        RescueDetailsStep::Transmit(select_apdu()),
    )
}

impl RescueDetailsRead {
    /// Takes the answer to the last APDU.
    pub fn on_answer(&mut self, rx: Vec<u8>) -> (r: RescueDetailsStep)
        requires
            old(self).stage != RescueDetailsStage::Done,
        ensures
            old(self).stage == RescueDetailsStage::Select ==> if !ends_ok(rx@) {
                r matches RescueDetailsStep::Done(Err(e)) && is_device_error(
                    e,
                    "Rescue Applet not found on device. Is it in FIDO mode?"@,
                ) && final(self).stage == RescueDetailsStage::Done
            } else {
                match select_identity_answer(rx@) {
                    None => r matches RescueDetailsStep::Done(Err(e)) && is_device_error(
                        e,
                        "Invalid select response"@,
                    ) && final(self).stage == RescueDetailsStage::Done,
                    Some(id) => r matches RescueDetailsStep::Transmit(a) && a@ == read_apdu_bytes(
                        ReadParam::FlashInfo,
                        P2_UNUSED,
                    ) && final(self).stage == RescueDetailsStage::Flash && final(self).serial@ == id.0
                        && final(self).version_major == id.1 && final(self).version_minor == id.2,
                }
            },
            old(self).stage == RescueDetailsStage::Flash ==> match flash_answer(rx@) {
                None => r matches RescueDetailsStep::Done(Err(e)) && is_device_error(e, "Failed to read flash"@)
                    && final(self).stage == RescueDetailsStage::Done,
                Some(f) => r matches RescueDetailsStep::Transmit(a) && a@ == read_apdu_bytes(
                    ReadParam::SecureBootStatus,
                    P2_UNUSED,
                ) && final(self).stage == RescueDetailsStage::Secure && final(self).flash == f && final(self).serial
                    == old(self).serial && final(self).version_major == old(self).version_major
                    && final(self).version_minor == old(self).version_minor,
            },
            old(self).stage == RescueDetailsStage::Secure ==> (r matches RescueDetailsStep::Transmit(a) && a@
                == read_apdu_bytes(ReadParam::PhyConfig, 0x01) && final(self).stage == RescueDetailsStage::Phy
                && final(self).secure == secure_boot_answer(rx@) && final(self).flash == old(self).flash
                && final(self).serial == old(self).serial && final(self).version_major == old(self).version_major
                && final(self).version_minor == old(self).version_minor),
            old(self).stage == RescueDetailsStage::Phy ==> final(self).stage == RescueDetailsStage::Done
                && match phy_answer(rx@) {
                None => r matches RescueDetailsStep::Done(Err(e)) && is_device_error(e, "Failed to read config"@),
                Some(m) => r matches RescueDetailsStep::Done(Ok(status)) && status.info.serial == old(self).serial
                    && status.info.flash_used == Some(old(self).flash.0 / 1024) && status.info.flash_total == Some(
                    old(self).flash.1 / 1024,
                ) && status.info.firmware_version@ == decimal_chars(old(self).version_major as nat) + "."@
                    + decimal_chars(old(self).version_minor as nat) && phy_model(status.config) == m
                    && status.secure_boot == old(self).secure.0 && status.secure_lock == old(self).secure.1
                    && status.method == DeviceMethod::Rescue,
            },
    {
        match self.stage {
            RescueDetailsStage::Select => {
                let rx = match check_select_answer(rx) {
                    Ok(rx) => rx,
                    Err(e) => {
                        self.stage = RescueDetailsStage::Done;
                        return RescueDetailsStep::Done(Err(e));
                    },
                };
                match parse_select_identity(rx.as_slice()) {
                    Err(e) => {
                        self.stage = RescueDetailsStage::Done;
                        RescueDetailsStep::Done(Err(e))
                    },
                    Ok((serial, major, minor)) => {
                        self.serial = serial;
                        self.version_major = major;
                        self.version_minor = minor;
                        self.stage = RescueDetailsStage::Flash;
                        RescueDetailsStep::Transmit(read_apdu(ReadParam::FlashInfo))
                    },
                }
            },
            RescueDetailsStage::Flash => match parse_flash_info(rx.as_slice()) {
                Err(e) => {
                    self.stage = RescueDetailsStage::Done;
                    RescueDetailsStep::Done(Err(e))
                },
                Ok(f) => {
                    self.flash = f;
                    self.stage = RescueDetailsStage::Secure;
                    RescueDetailsStep::Transmit(read_apdu(ReadParam::SecureBootStatus))
                },
            },
            RescueDetailsStage::Secure => {
                self.secure = parse_secure_boot(rx.as_slice());
                self.stage = RescueDetailsStage::Phy;
                RescueDetailsStep::Transmit(read_apdu(ReadParam::PhyConfig))
            },
            _ => {
                self.stage = RescueDetailsStage::Done;
                match parse_phy_config(rx.as_slice()) {
                    Err(e) => RescueDetailsStep::Done(Err(e)),
                    Ok(config) => RescueDetailsStep::Done(
                        Ok(
                            rescue_device_status(
                                self.serial.clone(),
                                self.version_major,
                                self.version_minor,
                                self.flash,
                                self.secure,
                                config,
                            ),
                        ),
                    ),
                }
            },
        }
    }
}


// ---------------------------------------------------------------------
// What a read gives back of a write.
// ---------------------------------------------------------------------

proof fn lemma_phy_shift(p: Seq<u8>, r: Seq<u8>, k: int, m: PhyModel)
    requires
        0 <= k,
    ensures
        phy_from(p + r, p.len() + k, m) == phy_from(r, k, m),
    decreases r.len() - k,
{
    reveal(phy_from);
    let d = p + r;
    let i = p.len() + k;
    if k + 2 <= r.len() {
        assert(d[i + 1] == r[k + 1]);
        assert(d[i] == r[k]);
        let len = r[k + 1] as int;
        if k + 2 + len <= r.len() {
            assert(d.subrange(i + 2, i + 2 + len) =~= r.subrange(k + 2, k + 2 + len));
            let m2 = phy_apply(m, r[k], r.subrange(k + 2, k + 2 + len));
            lemma_phy_shift(p, r, k + 2 + len, m2);
        }
    }
}

/// One TLV entry: the tag, the length and the value.
pub open spec fn tlv_entry(tag: u8, val: Seq<u8>) -> Seq<u8> {
    seq![tag, val.len() as u8] + val
}

proof fn lemma_phy_entry(tag: u8, val: Seq<u8>, r: Seq<u8>, m: PhyModel)
    requires
        val.len() < 256,
    ensures
        phy_from(tlv_entry(tag, val) + r, 0, m) == phy_from(r, 0, phy_apply(m, tag, val)),
{
    reveal(phy_from);
    let e = tlv_entry(tag, val);
    let d = e + r;
    assert(d[0] == tag);
    assert(d[1] == val.len() as u8);
    assert(d.subrange(2, 2 + val.len() as int) =~= val);
    lemma_phy_shift(e, r, 0, phy_apply(m, tag, val));
}

proof fn lemma_encode_concat(a: Seq<char>, b: Seq<char>)
    ensures
        vstd::utf8::encode_utf8(a + b) == vstd::utf8::encode_utf8(a) + vstd::utf8::encode_utf8(b),
    decreases a.len(),
{
    if a.len() > 0 {
        assert((a + b).drop_first() =~= a.drop_first() + b);
        lemma_encode_concat(a.drop_first(), b);
        assert((a + b)[0] == a[0]);
    } else {
        assert(a + b =~= b);
    }
}

proof fn lemma_trim_front_push_nul(n: Seq<char>)
    ensures
        trim_nul_front(n) != Seq::<char>::empty() ==> trim_nul_front(n.push('\0')) == trim_nul_front(n).push('\0'),
        trim_nul_front(n) == Seq::<char>::empty() ==> trim_nul_front(n.push('\0')) == Seq::<char>::empty(),
    decreases n.len(),
{
    let z = n.push('\0');
    if n.len() == 0 {
        assert(n =~= Seq::<char>::empty());
        assert(z[0] == '\0');
        assert(z.drop_first() =~= Seq::<char>::empty());
        assert(trim_nul_front(z) == trim_nul_front(z.drop_first()));
        assert(trim_nul_front(Seq::<char>::empty()) == Seq::<char>::empty());
    } else if n[0] == '\0' {
        assert(z[0] == '\0');
        assert(z.drop_first() =~= n.drop_first().push('\0'));
        lemma_trim_front_push_nul(n.drop_first());
        assert(trim_nul_front(n) == trim_nul_front(n.drop_first()));
        assert(trim_nul_front(z) == trim_nul_front(n.drop_first().push('\0')));
        assert(trim_nul_front(n) != Seq::<char>::empty() ==> trim_nul_front(z) == trim_nul_front(n).push('\0'));
    } else {
        assert(z[0] == n[0]);
        assert(trim_nul_front(n) == n);
        assert(trim_nul_front(z) == z);
        assert(z =~= n.push('\0'));
        assert(trim_nul_front(n) != Seq::<char>::empty() ==> trim_nul_front(z) == trim_nul_front(n).push('\0'));
    }
}

/// Trailing NUL padding does not change the trimmed text.
proof fn lemma_trim_nul_push(n: Seq<char>)
    ensures
        trim_nul(n.push('\0')) == trim_nul(n),
{
    lemma_trim_front_push_nul(n);
    let f = trim_nul_front(n);
    if f != Seq::<char>::empty() {
        assert(f.push('\0').drop_last() =~= f);
        assert(f.push('\0').last() == '\0');
    }
}

proof fn lemma_name_roundtrip(n: Seq<char>)
    ensures
        product_name_of(vstd::utf8::encode_utf8(n) + seq![0u8]) == trim_nul(n),
{
    let z = n.push('\0');
    lemma_encode_concat(n, seq!['\0']);
    assert(n + seq!['\0'] =~= z);
    let e0 = vstd::utf8::encode_utf8(seq!['\0']);
    assert(seq!['\0'].drop_first() =~= Seq::<char>::empty());
    assert(('\0' as u32) == 0);
    assert(0u32 & 0x7F == 0) by (bit_vector);
    assert(vstd::utf8::has_width_1_encoding(0u32));
    assert(vstd::utf8::encode_scalar(0u32) =~= seq![0u8]);
    assert(vstd::utf8::encode_utf8(Seq::<char>::empty()) =~= Seq::<u8>::empty());
    assert(e0 =~= vstd::utf8::encode_scalar(0u32) + vstd::utf8::encode_utf8(Seq::<char>::empty()));
    assert(e0 =~= seq![0u8]);
    vstd::utf8::encode_utf8_valid_utf8(z);
    vstd::utf8::encode_utf8_decode_utf8(z);
    lemma_trim_nul_push(n);
}

proof fn lemma_options_bits(d: bool, cy: bool, st: bool)
    ensures
        bit_set(rescue_options_byte(d, cy, st), 0x02) == d,
        !bit_set(rescue_options_byte(d, cy, st), 0x04) == cy,
        bit_set(rescue_options_byte(d, cy, st), 0x08) == st,
{
    let b = rescue_options_byte(d, cy, st);
    let x: u8 = if d { 2 } else { 0 };
    let y: u8 = if !cy { 4 } else { 0 };
    let z: u8 = if st { 8 } else { 0 };
    assert(b == x + y + z);
    assert((x == 0 || x == 2) && (y == 0 || y == 4) && (z == 0 || z == 8) ==> ((x + y + z) as u8 & 2 == x
        && (x + y + z) as u8 & 4 == y && (x + y + z) as u8 & 8 == z)) by (bit_vector);
}

proof fn lemma_curve_bit(en: bool)
    ensures
        bit_set(if en { 8u8 } else { 0u8 }, 0x08) == en,
{
    assert(8u8 & 8u8 != 0) by (bit_vector);
    assert(0u8 & 8u8 == 0) by (bit_vector);
}

/// What reading back the configuration that `c` wrote gives: each
/// setting written is read as written (the VID and PID as four
/// upper-case hexadecimal digits, the product name without NUL padding),
/// and every setting not written keeps its default.
pub open spec fn reads_back(c: AppConfigInput, m: PhyModel) -> bool {
    &&& match (c.vid, c.pid) {
        (Some(v), Some(p)) => m.vid == hex_encoding(
            crate::fidodevice::u16_bytes(crate::fidodevice::spec_parse_hex_u16(v@)->0),
            true,
        ) && m.pid == hex_encoding(crate::fidodevice::u16_bytes(crate::fidodevice::spec_parse_hex_u16(p@)->0), true),
        _ => m.vid == Seq::<char>::empty() && m.pid == Seq::<char>::empty(),
    }
    &&& m.led_gpio == match c.led_gpio {
        Some(g) => g,
        None => 0u8,
    }
    &&& m.led_brightness == match c.led_brightness {
        Some(b) => b,
        None => 0u8,
    }
    &&& m.touch_timeout == match c.touch_timeout {
        Some(t) => t,
        None => 0u8,
    }
    &&& m.led_driver == c.led_driver
    &&& match (c.led_dimmable, c.power_cycle_on_reset, c.led_steady) {
        (Some(d), Some(cy), Some(st)) => m.led_dimmable == d && m.power_cycle_on_reset == cy && m.led_steady == st,
        _ => !m.led_dimmable && !m.power_cycle_on_reset && !m.led_steady,
    }
    &&& m.enable_secp256k1 == match c.enable_secp256k1 {
        Some(e) => e,
        None => false,
    }
    &&& m.product_name == match c.product_name {
        Some(n) => trim_nul(n@),
        None => Seq::<char>::empty(),
    }
}

proof fn lemma_byte_entry(tag: u8, v: Option<u8>, r: Seq<u8>, m: PhyModel)
    ensures
        phy_from(byte_entry(tag, v) + r, 0, m) == phy_from(
            r,
            0,
            match v {
                Some(b) => phy_apply(m, tag, seq![b]),
                None => m,
            },
        ),
{
    match v {
        Some(b) => {
            assert(byte_entry(tag, v) =~= tlv_entry(tag, seq![b]));
            lemma_phy_entry(tag, seq![b], r, m);
        },
        None => {
            assert(byte_entry(tag, v) + r =~= r);
        },
    }
}

/// The configuration after the VID/PID entry of a write.
pub open spec fn after_vidpid(c: AppConfigInput) -> PhyModel {
    match (c.vid, c.pid) {
        (Some(v), Some(p)) => PhyModel {
            vid: hex_encoding(crate::fidodevice::u16_bytes(crate::fidodevice::spec_parse_hex_u16(v@)->0), true),
            pid: hex_encoding(crate::fidodevice::u16_bytes(crate::fidodevice::spec_parse_hex_u16(p@)->0), true),
            ..empty_phy()
        },
        _ => empty_phy(),
    }
}

/// The configuration after the one-byte entries of a write.
pub open spec fn after_bytes(c: AppConfigInput, m: PhyModel) -> PhyModel {
    PhyModel {
        led_gpio: match c.led_gpio {
            Some(b) => b,
            None => m.led_gpio,
        },
        led_brightness: match c.led_brightness {
            Some(b) => b,
            None => m.led_brightness,
        },
        touch_timeout: match c.touch_timeout {
            Some(b) => b,
            None => m.touch_timeout,
        },
        ..m
    }
}

/// The configuration after the options and curves entries of a write.
pub open spec fn after_opts_curves(c: AppConfigInput, m: PhyModel) -> PhyModel {
    let m1 = match (c.led_dimmable, c.power_cycle_on_reset, c.led_steady) {
        (Some(d), Some(cy), Some(st)) => PhyModel { led_dimmable: d, power_cycle_on_reset: cy, led_steady: st, ..m },
        _ => m,
    };
    match c.enable_secp256k1 {
        Some(en) => PhyModel { enable_secp256k1: en, ..m1 },
        None => m1,
    }
}

/// The configuration after the driver and name entries of a write.
pub open spec fn after_driver_name(c: AppConfigInput, m: PhyModel) -> PhyModel {
    let m1 = match c.led_driver {
        Some(b) => PhyModel { led_driver: Some(b), ..m },
        None => m,
    };
    match c.product_name {
        Some(n) => if vstd::utf8::encode_utf8(n@).len() == 0 {
            m1
        } else {
            PhyModel { product_name: trim_nul(n@), ..m1 }
        },
        None => m1,
    }
}

proof fn lemma_read_vidpid(c: AppConfigInput, rest: Seq<u8>)
    requires
        vidpid_entry(c) is Ok,
    ensures
        phy_from(vidpid_entry(c)->Ok_0 + rest, 0, empty_phy()) == phy_from(rest, 0, after_vidpid(c)),
{
    let first = vidpid_entry(c)->Ok_0;
    match (c.vid, c.pid) {
        (Some(v), Some(p)) => {
            let x = crate::fidodevice::u16_bytes(crate::fidodevice::spec_parse_hex_u16(v@)->0);
            let y = crate::fidodevice::u16_bytes(crate::fidodevice::spec_parse_hex_u16(p@)->0);
            let val = x + y;
            assert(first =~= tlv_entry(PhyTag::VidPid.spec_value(), val));
            lemma_phy_entry(PhyTag::VidPid.spec_value(), val, rest, empty_phy());
            assert(val.subrange(0, 2) =~= x);
            assert(val.subrange(2, 4) =~= y);
        },
        _ => {
            assert(first + rest =~= rest);
        },
    }
}

proof fn lemma_read_bytes(c: AppConfigInput, rest: Seq<u8>, m: PhyModel)
    ensures
        phy_from(
            byte_entry(PhyTag::LedGpio.spec_value(), c.led_gpio) + (byte_entry(
                PhyTag::LedBrightness.spec_value(),
                c.led_brightness,
            ) + (byte_entry(PhyTag::PresenceTimeout.spec_value(), c.touch_timeout) + rest)),
            0,
            m,
        ) == phy_from(rest, 0, after_bytes(c, m)),
{
    let bright = byte_entry(PhyTag::LedBrightness.spec_value(), c.led_brightness);
    let touch = byte_entry(PhyTag::PresenceTimeout.spec_value(), c.touch_timeout);
    lemma_byte_entry(PhyTag::LedGpio.spec_value(), c.led_gpio, bright + (touch + rest), m);
    let m1 = match c.led_gpio {
        Some(b) => phy_apply(m, PhyTag::LedGpio.spec_value(), seq![b]),
        None => m,
    };
    lemma_byte_entry(PhyTag::LedBrightness.spec_value(), c.led_brightness, touch + rest, m1);
    let m2 = match c.led_brightness {
        Some(b) => phy_apply(m1, PhyTag::LedBrightness.spec_value(), seq![b]),
        None => m1,
    };
    lemma_byte_entry(PhyTag::PresenceTimeout.spec_value(), c.touch_timeout, rest, m2);
    let m3 = match c.touch_timeout {
        Some(b) => phy_apply(m2, PhyTag::PresenceTimeout.spec_value(), seq![b]),
        None => m2,
    };
    assert(m3 == after_bytes(c, m));
}

proof fn lemma_read_opts_curves(c: AppConfigInput, rest: Seq<u8>, m: PhyModel)
    ensures
        phy_from(opts_entry(c) + (curves_entry(c) + rest), 0, m) == phy_from(rest, 0, after_opts_curves(c, m)),
{
    let m1 = match (c.led_dimmable, c.power_cycle_on_reset, c.led_steady) {
        (Some(d), Some(cy), Some(st)) => {
            let val = seq![0u8, rescue_options_byte(d, cy, st)];
            assert(opts_entry(c) =~= tlv_entry(PhyTag::Opts.spec_value(), val));
            lemma_phy_entry(PhyTag::Opts.spec_value(), val, curves_entry(c) + rest, m);
            lemma_options_bits(d, cy, st);
            phy_apply(m, PhyTag::Opts.spec_value(), val)
        },
        _ => {
            assert(opts_entry(c) + (curves_entry(c) + rest) =~= curves_entry(c) + rest);
            m
        },
    };
    let m2 = match c.enable_secp256k1 {
        Some(en) => {
            let val = seq![0u8, 0u8, 0u8, if en { 8u8 } else { 0u8 }];
            assert(curves_entry(c) =~= tlv_entry(PhyTag::Curves.spec_value(), val));
            lemma_phy_entry(PhyTag::Curves.spec_value(), val, rest, m1);
            lemma_curve_bit(en);
            phy_apply(m1, PhyTag::Curves.spec_value(), val)
        },
        None => {
            assert(curves_entry(c) + rest =~= rest);
            m1
        },
    };
    assert(m2 == after_opts_curves(c, m));
}

proof fn lemma_read_driver_name(c: AppConfigInput, m: PhyModel)
    requires
        name_entry(c) is Ok,
    ensures
        phy_from(byte_entry(PhyTag::LedDriver.spec_value(), c.led_driver) + name_entry(c)->Ok_0, 0, m)
            == after_driver_name(c, m),
{
    reveal(phy_from);
    let last = name_entry(c)->Ok_0;
    lemma_byte_entry(PhyTag::LedDriver.spec_value(), c.led_driver, last, m);
    let m1 = match c.led_driver {
        Some(b) => phy_apply(m, PhyTag::LedDriver.spec_value(), seq![b]),
        None => m,
    };
    match c.product_name {
        Some(n) => {
            let b = vstd::utf8::encode_utf8(n@);
            if b.len() == 0 {
                assert(last =~= Seq::<u8>::empty());
            } else {
                let val = b + seq![0u8];
                assert(last =~= tlv_entry(PhyTag::UsbProduct.spec_value(), val));
                lemma_phy_entry(PhyTag::UsbProduct.spec_value(), val, Seq::<u8>::empty(), m1);
                assert(last + Seq::<u8>::empty() =~= last);
                lemma_name_roundtrip(n@);
            }
        },
        None => {
            assert(last =~= Seq::<u8>::empty());
        },
    }
}

proof fn lemma_empty_name(n: Seq<char>)
    requires
        vstd::utf8::encode_utf8(n).len() == 0,
    ensures
        trim_nul(n) == Seq::<char>::empty(),
{
    if n.len() > 0 {
        assert(vstd::utf8::encode_scalar(n[0] as u32).len() > 0);
    }
    assert(n =~= Seq::<char>::empty());
}

proof fn lemma_written_model(c: AppConfigInput)
    ensures
        reads_back(c, after_driver_name(c, after_opts_curves(c, after_bytes(c, after_vidpid(c))))),
{
    match c.product_name {
        Some(n) => {
            if vstd::utf8::encode_utf8(n@).len() == 0 {
                lemma_empty_name(n@);
            }
        },
        None => {},
    }
}

proof fn lemma_tlv_shape(c: AppConfigInput)
    requires
        rescue_tlv(c) is Ok,
    ensures
        rescue_tlv(c)->Ok_0 == vidpid_entry(c)->Ok_0 + (byte_entry(PhyTag::LedGpio.spec_value(), c.led_gpio) + (
        byte_entry(PhyTag::LedBrightness.spec_value(), c.led_brightness) + (byte_entry(
            PhyTag::PresenceTimeout.spec_value(),
            c.touch_timeout,
        ) + (opts_entry(c) + (curves_entry(c) + (byte_entry(PhyTag::LedDriver.spec_value(), c.led_driver)
            + name_entry(c)->Ok_0)))))),
{
    let first = vidpid_entry(c)->Ok_0;
    let last = name_entry(c)->Ok_0;
    assert(rescue_tlv(c)->Ok_0 == first + middle_entries(c) + last);
    assert(first + middle_entries(c) + last =~= first + (byte_entry(PhyTag::LedGpio.spec_value(), c.led_gpio) + (
    byte_entry(PhyTag::LedBrightness.spec_value(), c.led_brightness) + (byte_entry(
        PhyTag::PresenceTimeout.spec_value(),
        c.touch_timeout,
    ) + (opts_entry(c) + (curves_entry(c) + (byte_entry(PhyTag::LedDriver.spec_value(), c.led_driver)
        + last)))))));
}

/// Reading the TLV that a configuration write sends gives back the
/// configuration written.
#[verifier::spinoff_prover]
pub proof fn lemma_config_write_reads_back(c: AppConfigInput)
    requires
        rescue_tlv(c) is Ok,
    ensures
        reads_back(c, phy_from(rescue_tlv(c)->Ok_0, 0, empty_phy())),
{
    let first = vidpid_entry(c)->Ok_0;
    let last = name_entry(c)->Ok_0;
    let gpio = byte_entry(PhyTag::LedGpio.spec_value(), c.led_gpio);
    let bright = byte_entry(PhyTag::LedBrightness.spec_value(), c.led_brightness);
    let touch = byte_entry(PhyTag::PresenceTimeout.spec_value(), c.touch_timeout);
    let driver = byte_entry(PhyTag::LedDriver.spec_value(), c.led_driver);
    let tail = opts_entry(c) + (curves_entry(c) + (driver + last));
    lemma_tlv_shape(c);
    lemma_read_vidpid(c, gpio + (bright + (touch + tail)));
    let m1 = after_vidpid(c);
    lemma_read_bytes(c, tail, m1);
    let m2 = after_bytes(c, m1);
    lemma_read_opts_curves(c, driver + last, m2);
    let m3 = after_opts_curves(c, m2);
    lemma_read_driver_name(c, m3);
    lemma_written_model(c);
}


/// A configuration write is at most 62 bytes of TLV, so the length byte
/// of its APDU is exact.
pub proof fn lemma_tlv_fits(c: AppConfigInput)
    requires
        rescue_tlv(c) is Ok,
    ensures
        rescue_tlv(c)->Ok_0.len() <= 62,
        write_apdu_bytes(rescue_tlv(c)->Ok_0)[4] as int == rescue_tlv(c)->Ok_0.len(),
{
    let first = vidpid_entry(c)->Ok_0;
    let last = name_entry(c)->Ok_0;
    assert(first.len() <= 6);
    assert(last.len() <= 34);
    assert(middle_entries(c).len() <= 22);
    assert(rescue_tlv(c)->Ok_0 == first + middle_entries(c) + last);
}

} // verus!
