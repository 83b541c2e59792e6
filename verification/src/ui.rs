//! The state and choices of the user interface that do not depend on
//! how it is drawn: the views, the connection state, the USB identity
//! presets and LED drivers, the changes a configuration form asks for,
//! and the checks of the PIN dialogs.
use vstd::prelude::*;
use crate::cbor::str_eq;
use crate::types::{FidoDeviceInfo, FullDeviceStatus};

verus! {

/// The page shown in the main area.
#[derive(Debug, Clone, Copy, PartialEq, Eq, Structural)]
pub enum ActiveView {
    Home,
    Passkeys,
    Configuration,
    Security,
    About,
}

/// What is known of the connected device.
#[derive(Debug, Clone)]
pub struct DeviceConnectionState {
    pub status: Option<FullDeviceStatus>,
    pub fido_info: Option<FidoDeviceInfo>,
    pub error: Option<String>,
    pub loading: bool,
}

impl DeviceConnectionState {
    /// Nothing known, nothing loading.
    pub fn new() -> (r: Self)
        ensures
            r.status is None,
            r.fido_info is None,
            r.error is None,
            !r.loading,
    {
        DeviceConnectionState { status: None, fido_info: None, error: None, loading: false }
    }
}

/// What `str::to_uppercase` gives for a text (its Unicode upper case).
pub uninterp spec fn uppercase_of(s: Seq<char>) -> Seq<char>;

/// Whether every character of a text is ASCII.
pub open spec fn is_ascii_text(s: Seq<char>) -> bool {
    forall|i: int| 0 <= i < s.len() ==> (s[i] as u32) < 128
}

/// The upper case of an ASCII character: `a` to `z` become `A` to `Z`,
/// every other character stays.
pub open spec fn ascii_upper_char(c: char) -> char {
    if 'a' <= c && c <= 'z' {
        ((c as u32) - 32) as char
    } else {
        c
    }
}

/// The lower case of an ASCII character: `A` to `Z` become `a` to `z`,
/// every other character stays.
pub open spec fn ascii_lower_char(c: char) -> char {
    if 'A' <= c && c <= 'Z' {
        ((c as u32) + 32) as char
    } else {
        c
    }
}

/// A text with its ASCII letters raised.
pub open spec fn ascii_upper(s: Seq<char>) -> Seq<char> {
    s.map_values(|c: char| ascii_upper_char(c))
}

/// A text with its ASCII letters lowered.
pub open spec fn ascii_lower(s: Seq<char>) -> Seq<char> {
    s.map_values(|c: char| ascii_lower_char(c))
}

/// Upper-cases a text with `str::to_uppercase`; the result is named by
/// `uppercase_of` (Unicode case mapping is not written out here). Of an
/// ASCII text, the documented Unicode upper case raises `a` to `z` to `A`
/// to `Z` and keeps every other character, one for one.
#[verifier::external_body]
fn to_uppercase(s: &str) -> (r: String)
    ensures
        r@ == uppercase_of(s@),
        is_ascii_text(s@) ==> r@ == ascii_upper(s@),
{
    s.to_uppercase()
}

/// A known USB identity, or a custom one.
#[derive(Debug, Clone, Copy, PartialEq, Eq, Structural)]
pub enum UsbIdentityPreset {
    Custom,
    Generic,
    LibreKeys,
    PicoHsm,
    PicoFido,
    PicoOpenPgp,
    Pico,
    SoloKeys,
    NitroHsm,
    NitroFido2,
    NitroStart,
    NitroPro,
    NitroKey3,
    YubiKey5,
    YubiKeyNeo,
    YubiHsm2,
    Gnuk,
    GnuPg,
}

impl UsbIdentityPreset {
    /// The label, VID and PID of the preset (none for a custom identity).
    pub open spec fn spec_details(&self) -> (Seq<char>, Option<Seq<char>>, Option<Seq<char>>) {
        match self {
            UsbIdentityPreset::Custom => ("Custom (Manual Entry)"@, None, None),
            UsbIdentityPreset::Generic => ("Generic (FEFF:FCFD)"@, Some("FEFF"@), Some("FCFD"@)),
            UsbIdentityPreset::LibreKeys => ("LibreKeys One (1D50:619B)"@, Some("1D50"@), Some("619B"@)),
            UsbIdentityPreset::PicoHsm => ("Pico Keys HSM (2E8A:10FD)"@, Some("2E8A"@), Some("10FD"@)),
            UsbIdentityPreset::PicoFido => ("Pico Keys Fido (2E8A:10FE)"@, Some("2E8A"@), Some("10FE"@)),
            UsbIdentityPreset::PicoOpenPgp => ("Pico Keys OpenPGP (2E8A:10FF)"@, Some("2E8A"@), Some("10FF"@)),
            UsbIdentityPreset::Pico => ("Pico (2E8A:0003)"@, Some("2E8A"@), Some("0003"@)),
            UsbIdentityPreset::SoloKeys => ("SoloKeys (0483:A2CA)"@, Some("0483"@), Some("A2CA"@)),
            UsbIdentityPreset::NitroHsm => ("NitroHSM (20A0:4230)"@, Some("20A0"@), Some("4230"@)),
            UsbIdentityPreset::NitroFido2 => ("NitroFIDO2 (20A0:42D4)"@, Some("20A0"@), Some("42D4"@)),
            UsbIdentityPreset::NitroStart => ("NitroStart (20A0:4211)"@, Some("20A0"@), Some("4211"@)),
            UsbIdentityPreset::NitroPro => ("NitroPro (20A0:4108)"@, Some("20A0"@), Some("4108"@)),
            UsbIdentityPreset::NitroKey3 => ("Nitrokey 3 (20A0:42B2)"@, Some("20A0"@), Some("42B2"@)),
            UsbIdentityPreset::YubiKey5 => ("YubiKey 5 (1050:0407)"@, Some("1050"@), Some("0407"@)),
            UsbIdentityPreset::YubiKeyNeo => ("YubiKey Neo (1050:0116)"@, Some("1050"@), Some("0116"@)),
            UsbIdentityPreset::YubiHsm2 => ("YubiHSM 2 (1050:0030)"@, Some("1050"@), Some("0030"@)),
            UsbIdentityPreset::Gnuk => ("Gnuk Token (234B:0000)"@, Some("234B"@), Some("0000"@)),
            UsbIdentityPreset::GnuPg => ("GnuPG (234B:0000)"@, Some("234B"@), Some("0000"@)),
        }
    }

    /// The label, VID and PID of the preset.
    pub fn details(&self) -> (r: (&'static str, Option<&'static str>, Option<&'static str>))
        ensures
            r.0@ == self.spec_details().0,
            match self.spec_details().1 {
                Some(v) => r.1 matches Some(x) && x@ == v,
                None => r.1 is None,
            },
            match self.spec_details().2 {
                Some(p) => r.2 matches Some(x) && x@ == p,
                None => r.2 is None,
            },
    {
        match self {
            UsbIdentityPreset::Custom => ("Custom (Manual Entry)", None, None),
            UsbIdentityPreset::Generic => ("Generic (FEFF:FCFD)", Some("FEFF"), Some("FCFD")),
            UsbIdentityPreset::LibreKeys => ("LibreKeys One (1D50:619B)", Some("1D50"), Some("619B")),
            UsbIdentityPreset::PicoHsm => ("Pico Keys HSM (2E8A:10FD)", Some("2E8A"), Some("10FD")),
            UsbIdentityPreset::PicoFido => ("Pico Keys Fido (2E8A:10FE)", Some("2E8A"), Some("10FE")),
            UsbIdentityPreset::PicoOpenPgp => ("Pico Keys OpenPGP (2E8A:10FF)", Some("2E8A"), Some("10FF")),
            UsbIdentityPreset::Pico => ("Pico (2E8A:0003)", Some("2E8A"), Some("0003")),
            UsbIdentityPreset::SoloKeys => ("SoloKeys (0483:A2CA)", Some("0483"), Some("A2CA")),
            UsbIdentityPreset::NitroHsm => ("NitroHSM (20A0:4230)", Some("20A0"), Some("4230")),
            UsbIdentityPreset::NitroFido2 => ("NitroFIDO2 (20A0:42D4)", Some("20A0"), Some("42D4")),
            UsbIdentityPreset::NitroStart => ("NitroStart (20A0:4211)", Some("20A0"), Some("4211")),
            UsbIdentityPreset::NitroPro => ("NitroPro (20A0:4108)", Some("20A0"), Some("4108")),
            UsbIdentityPreset::NitroKey3 => ("Nitrokey 3 (20A0:42B2)", Some("20A0"), Some("42B2")),
            UsbIdentityPreset::YubiKey5 => ("YubiKey 5 (1050:0407)", Some("1050"), Some("0407")),
            UsbIdentityPreset::YubiKeyNeo => ("YubiKey Neo (1050:0116)", Some("1050"), Some("0116")),
            UsbIdentityPreset::YubiHsm2 => ("YubiHSM 2 (1050:0030)", Some("1050"), Some("0030")),
            UsbIdentityPreset::Gnuk => ("Gnuk Token (234B:0000)", Some("234B"), Some("0000")),
            UsbIdentityPreset::GnuPg => ("GnuPG (234B:0000)", Some("234B"), Some("0000")),
        }
    }

    /// The preset whose VID and PID are the given upper-case texts, else
    /// the custom identity.
    pub open spec fn spec_from_upper(vid: Seq<char>, pid: Seq<char>) -> UsbIdentityPreset {
        if vid == "FEFF"@ && pid == "FCFD"@ {
            UsbIdentityPreset::Generic
        }
        else if vid == "1D50"@ && pid == "619B"@ {
            UsbIdentityPreset::LibreKeys
        }
        else if vid == "2E8A"@ && pid == "10FD"@ {
            UsbIdentityPreset::PicoHsm
        }
        else if vid == "2E8A"@ && pid == "10FE"@ {
            UsbIdentityPreset::PicoFido
        }
        else if vid == "2E8A"@ && pid == "10FF"@ {
            UsbIdentityPreset::PicoOpenPgp
        }
        else if vid == "2E8A"@ && pid == "0003"@ {
            UsbIdentityPreset::Pico
        }
        else if vid == "0483"@ && pid == "A2CA"@ {
            UsbIdentityPreset::SoloKeys
        }
        else if vid == "20A0"@ && pid == "4230"@ {
            UsbIdentityPreset::NitroHsm
        }
        else if vid == "20A0"@ && pid == "42D4"@ {
            UsbIdentityPreset::NitroFido2
        }
        else if vid == "20A0"@ && pid == "4211"@ {
            UsbIdentityPreset::NitroStart
        }
        else if vid == "20A0"@ && pid == "4108"@ {
            UsbIdentityPreset::NitroPro
        }
        else if vid == "20A0"@ && pid == "42B2"@ {
            UsbIdentityPreset::NitroKey3
        }
        else if vid == "1050"@ && pid == "0407"@ {
            UsbIdentityPreset::YubiKey5
        }
        else if vid == "1050"@ && pid == "0116"@ {
            UsbIdentityPreset::YubiKeyNeo
        }
        else if vid == "1050"@ && pid == "0030"@ {
            UsbIdentityPreset::YubiHsm2
        }
        else if vid == "234B"@ && pid == "0000"@ {
            UsbIdentityPreset::Gnuk
        }
        else {
            UsbIdentityPreset::Custom
        }
    }

    /// The preset whose VID and PID are the given upper-case texts.
    pub fn from_upper(vid: &str, pid: &str) -> (r: Self)
        ensures
            r == Self::spec_from_upper(vid@, pid@),
    {
        if str_eq(vid, "FEFF") && str_eq(pid, "FCFD") {
            UsbIdentityPreset::Generic
        }
        else if str_eq(vid, "1D50") && str_eq(pid, "619B") {
            UsbIdentityPreset::LibreKeys
        }
        else if str_eq(vid, "2E8A") && str_eq(pid, "10FD") {
            UsbIdentityPreset::PicoHsm
        }
        else if str_eq(vid, "2E8A") && str_eq(pid, "10FE") {
            UsbIdentityPreset::PicoFido
        }
        else if str_eq(vid, "2E8A") && str_eq(pid, "10FF") {
            UsbIdentityPreset::PicoOpenPgp
        }
        else if str_eq(vid, "2E8A") && str_eq(pid, "0003") {
            UsbIdentityPreset::Pico
        }
        else if str_eq(vid, "0483") && str_eq(pid, "A2CA") {
            UsbIdentityPreset::SoloKeys
        }
        else if str_eq(vid, "20A0") && str_eq(pid, "4230") {
            UsbIdentityPreset::NitroHsm
        }
        else if str_eq(vid, "20A0") && str_eq(pid, "42D4") {
            UsbIdentityPreset::NitroFido2
        }
        else if str_eq(vid, "20A0") && str_eq(pid, "4211") {
            UsbIdentityPreset::NitroStart
        }
        else if str_eq(vid, "20A0") && str_eq(pid, "4108") {
            UsbIdentityPreset::NitroPro
        }
        else if str_eq(vid, "20A0") && str_eq(pid, "42B2") {
            UsbIdentityPreset::NitroKey3
        }
        else if str_eq(vid, "1050") && str_eq(pid, "0407") {
            UsbIdentityPreset::YubiKey5
        }
        else if str_eq(vid, "1050") && str_eq(pid, "0116") {
            UsbIdentityPreset::YubiKeyNeo
        }
        else if str_eq(vid, "1050") && str_eq(pid, "0030") {
            UsbIdentityPreset::YubiHsm2
        }
        else if str_eq(vid, "234B") && str_eq(pid, "0000") {
            UsbIdentityPreset::Gnuk
        }
        else {
            UsbIdentityPreset::Custom
        }
    }

    /// The preset of a VID and PID, compared after `str::to_uppercase`.
    pub fn from_vid_pid(vid: &str, pid: &str) -> (r: Self)
        ensures
            r == Self::spec_from_upper(uppercase_of(vid@), uppercase_of(pid@)),
            is_ascii_text(vid@) && is_ascii_text(pid@) ==> r == Self::spec_from_upper(
                ascii_upper(vid@),
                ascii_upper(pid@),
            ),
    {
        let v = to_uppercase(vid);
        let p = to_uppercase(pid);
        Self::from_upper(v.as_str(), p.as_str())
    }

    /// The presets in the order they are offered.
    pub open spec fn spec_all() -> Seq<UsbIdentityPreset> {
        seq![
            UsbIdentityPreset::Custom,
            UsbIdentityPreset::Generic,
            UsbIdentityPreset::LibreKeys,
            UsbIdentityPreset::PicoHsm,
            UsbIdentityPreset::PicoFido,
            UsbIdentityPreset::PicoOpenPgp,
            UsbIdentityPreset::Pico,
            UsbIdentityPreset::SoloKeys,
            UsbIdentityPreset::NitroHsm,
            UsbIdentityPreset::NitroFido2,
            UsbIdentityPreset::NitroStart,
            UsbIdentityPreset::NitroPro,
            UsbIdentityPreset::NitroKey3,
            UsbIdentityPreset::YubiKey5,
            UsbIdentityPreset::YubiKeyNeo,
            UsbIdentityPreset::YubiHsm2,
            UsbIdentityPreset::Gnuk,
            UsbIdentityPreset::GnuPg
        ]
    }

    /// The presets in the order they are offered.
    pub fn all() -> (r: Vec<Self>)
        ensures
            r@ == Self::spec_all(),
    {
        let mut r: Vec<Self> = Vec::new();
        r.push(UsbIdentityPreset::Custom);
        r.push(UsbIdentityPreset::Generic);
        r.push(UsbIdentityPreset::LibreKeys);
        r.push(UsbIdentityPreset::PicoHsm);
        r.push(UsbIdentityPreset::PicoFido);
        r.push(UsbIdentityPreset::PicoOpenPgp);
        r.push(UsbIdentityPreset::Pico);
        r.push(UsbIdentityPreset::SoloKeys);
        r.push(UsbIdentityPreset::NitroHsm);
        r.push(UsbIdentityPreset::NitroFido2);
        r.push(UsbIdentityPreset::NitroStart);
        r.push(UsbIdentityPreset::NitroPro);
        r.push(UsbIdentityPreset::NitroKey3);
        r.push(UsbIdentityPreset::YubiKey5);
        r.push(UsbIdentityPreset::YubiKeyNeo);
        r.push(UsbIdentityPreset::YubiHsm2);
        r.push(UsbIdentityPreset::Gnuk);
        r.push(UsbIdentityPreset::GnuPg);
        assert(r@ =~= Self::spec_all());
        r
    }
}

/// A driver of the device's LED.
#[derive(Debug, Clone, Copy, PartialEq, Eq, Structural)]
pub enum LedDriverType {
    PicoGpio,
    PimoroniRgb,
    Ws2812Neopixel,
    Esp32Neopixel,
}

impl LedDriverType {
    /// The number the firmware configuration uses for the driver.
    pub open spec fn spec_value(&self) -> u8 {
        match self {
            LedDriverType::PicoGpio => 1,
            LedDriverType::PimoroniRgb => 2,
            LedDriverType::Ws2812Neopixel => 3,
            LedDriverType::Esp32Neopixel => 5,
        }
    }

    /// The number the firmware configuration uses for the driver.
    #[verifier::when_used_as_spec(spec_value)]
    pub fn value(&self) -> (r: u8)
        ensures
            r == self.spec_value(),
    {
        match self {
            LedDriverType::PicoGpio => 1,
            LedDriverType::PimoroniRgb => 2,
            LedDriverType::Ws2812Neopixel => 3,
            LedDriverType::Esp32Neopixel => 5,
        }
    }

    /// The name shown for the driver.
    pub open spec fn spec_label(&self) -> Seq<char> {
        match self {
            LedDriverType::PicoGpio => "Pico (Standard GPIO)"@,
            LedDriverType::PimoroniRgb => "Pimoroni (RGB)"@,
            LedDriverType::Ws2812Neopixel => "WS2812 (Neopixel)"@,
            LedDriverType::Esp32Neopixel => "ESP32 Neopixel"@,
        }
    }

    /// The name shown for the driver.
    pub fn label(&self) -> (r: &'static str)
        ensures
            r@ == self.spec_label(),
    {
        match self {
            LedDriverType::PicoGpio => "Pico (Standard GPIO)",
            LedDriverType::PimoroniRgb => "Pimoroni (RGB)",
            LedDriverType::Ws2812Neopixel => "WS2812 (Neopixel)",
            LedDriverType::Esp32Neopixel => "ESP32 Neopixel",
        }
    }

    /// The drivers in the order they are offered.
    pub open spec fn spec_all() -> Seq<LedDriverType> {
        seq![
            LedDriverType::PicoGpio,
            LedDriverType::PimoroniRgb,
            LedDriverType::Ws2812Neopixel,
            LedDriverType::Esp32Neopixel,
        ]
    }

    /// The drivers in the order they are offered.
    pub fn all() -> (r: Vec<Self>)
        ensures
            r@ == Self::spec_all(),
    {
        let mut r: Vec<Self> = Vec::new();
        r.push(LedDriverType::PicoGpio);
        r.push(LedDriverType::PimoroniRgb);
        r.push(LedDriverType::Ws2812Neopixel);
        r.push(LedDriverType::Esp32Neopixel);
        assert(r@ =~= Self::spec_all());
        r
    }
}

/// Lowering the letters of a text and raising them again is the same as
/// raising them.
proof fn lemma_upper_of_lower(s: Seq<char>)
    ensures
        ascii_upper(ascii_lower(s)) == ascii_upper(s),
{
    assert forall|i: int| 0 <= i < s.len() implies ascii_upper(ascii_lower(s))[i] == ascii_upper(s)[i] by {
        let c = s[i];
        if 'A' <= c && c <= 'Z' {
            assert(ascii_lower_char(c) as u32 == c as u32 + 32);
        }
    }
    assert(ascii_upper(ascii_lower(s)) =~= ascii_upper(s));
}

/// A text without lower-case ASCII letters is its own upper case.
proof fn lemma_upper_keeps(s: Seq<char>)
    requires
        forall|i: int| 0 <= i < s.len() ==> !('a' <= #[trigger] s[i] && s[i] <= 'z'),
    ensures
        ascii_upper(s) == s,
{
    assert(ascii_upper(s) =~= s);
}

/// A preset is found again from its VID and PID, in upper or lower case,
/// and so are any two spellings of the same VID and PID found as the same
/// preset. `GnuPg` shares the identity of `Gnuk` and is found as `Gnuk`;
/// `Custom` has no identity.
pub proof fn lemma_preset_ignores_case(p: UsbIdentityPreset, vid: Seq<char>, pid: Seq<char>)
    ensures
        UsbIdentityPreset::spec_from_upper(ascii_upper(ascii_lower(vid)), ascii_upper(ascii_lower(pid)))
            == UsbIdentityPreset::spec_from_upper(ascii_upper(vid), ascii_upper(pid)),
        p != UsbIdentityPreset::Custom && p != UsbIdentityPreset::GnuPg ==> (p.spec_details() matches (
            _,
            Some(v),
            Some(d),
        ) && UsbIdentityPreset::spec_from_upper(ascii_upper(v), ascii_upper(d)) == p
            && UsbIdentityPreset::spec_from_upper(ascii_upper(ascii_lower(v)), ascii_upper(ascii_lower(d))) == p),
{
    lemma_upper_of_lower(vid);
    lemma_upper_of_lower(pid);
    match p.spec_details() {
        (_, Some(v), Some(d)) => {
            lemma_upper_of_lower(v);
            lemma_upper_of_lower(d);
            reveal_strlit("FEFF");
            reveal_strlit("FCFD");
            reveal_strlit("1D50");
            reveal_strlit("619B");
            reveal_strlit("2E8A");
            reveal_strlit("10FD");
            reveal_strlit("10FE");
            reveal_strlit("10FF");
            reveal_strlit("0003");
            reveal_strlit("0483");
            reveal_strlit("A2CA");
            reveal_strlit("20A0");
            reveal_strlit("4230");
            reveal_strlit("42D4");
            reveal_strlit("4211");
            reveal_strlit("4108");
            reveal_strlit("42B2");
            reveal_strlit("1050");
            reveal_strlit("0407");
            reveal_strlit("0116");
            reveal_strlit("0030");
            reveal_strlit("234B");
            reveal_strlit("0000");
            lemma_upper_keeps(v);
            lemma_upper_keeps(d);
            assert(v.len() == 4 && d.len() == 4);
            assert(v == seq![v[0], v[1], v[2], v[3]]);
            assert(d == seq![d[0], d[1], d[2], d[3]]);
        },
        _ => {},
    }
}

} // verus!
