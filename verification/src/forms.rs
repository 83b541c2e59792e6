//! What the forms of the user interface decide: the configuration
//! changes a form asks for, and whether a PIN dialog submits, refuses or
//! ignores its input.
use vstd::prelude::*;
use crate::cbor::str_eq;
use crate::text::{decimal_chars, str_chars};
use crate::types::{AppConfig, AppConfigInput};
use crate::ui::LedDriverType;

verus! {

/// The value of decimal digits, most significant first.
pub open spec fn decimal_value(s: Seq<char>) -> nat
    decreases s.len(),
{
    if s.len() == 0 {
        0
    } else {
        (decimal_value(s.drop_last()) * 10 + (s.last() as int - '0' as int)) as nat
    }
}

/// Whether every character is an ASCII digit.
pub open spec fn all_digits(s: Seq<char>) -> bool {
    forall|i: int| 0 <= i < s.len() ==> '0' <= #[trigger] s[i] <= '9'
}

/// What `str::parse::<u8>` gives: an optional `+`, then at least one
/// decimal digit, and a value below 256.
pub open spec fn spec_parse_u8(s: Seq<char>) -> Option<u8> {
    let digits = if s.len() > 0 && s[0] == '+' { s.drop_first() } else { s };
    if digits.len() == 0 || !all_digits(digits) || decimal_value(digits) > 255 {
        None
    } else {
        Some(decimal_value(digits) as u8)
    }
}

proof fn lemma_decimal_prefix(s: Seq<char>, i: int, j: int)
    requires
        0 <= i <= j <= s.len(),
        all_digits(s),
    ensures
        decimal_value(s.take(j)) >= decimal_value(s.take(i)),
    decreases j - i,
{
    if i < j {
        lemma_decimal_prefix(s, i, j - 1);
        assert(s.take(j).drop_last() =~= s.take(j - 1));
    }
}

/// Parses a `u8` as `str::parse::<u8>` does.
pub fn parse_u8(text: &str) -> (r: Option<u8>)
    ensures
        r == spec_parse_u8(text@),
{
    let s = str_chars(text);
    let start: usize = if s.len() > 0 && s[0] == '+' { 1 } else { 0 };
    let ghost digits = if s@.len() > 0 && s@[0] == '+' { s@.drop_first() } else { s@ };
    assert(digits =~= s@.skip(start as int));
    if start >= s.len() {
        assert(digits.len() == 0);
        return None;
    }
    let mut acc: u32 = 0;
    let mut i: usize = start;
    while i < s.len()
        invariant
            start <= i <= s@.len(),
            s@ == text@,
            digits == s@.skip(start as int),
            digits == (if s@.len() > 0 && s@[0] == '+' { s@.drop_first() } else { s@ }),
            forall|j: int| start <= j < i ==> '0' <= #[trigger] s@[j] <= '9',
            acc == decimal_value(digits.take(i - start)),
            acc <= 255,
        decreases s@.len() - i,
    {
        let c = s[i];
        if c < '0' || c > '9' {
            assert(digits[i - start] == c);
            assert(!all_digits(digits));
            return None;
        }
        assert(digits.take(i - start + 1).drop_last() =~= digits.take(i - start));
        assert(digits.take(i - start + 1).last() == c);
        let d: u32 = (c as u32) - ('0' as u32);
        acc = acc * 10 + d;
        i = i + 1;
        assert(acc == decimal_value(digits.take(i - start)));
        if acc > 255 {
            proof {
                assert forall|j: int| 0 <= j < digits.len() implies '0' <= #[trigger] digits[j] <= '9' || j >= i - start by {
                    if j < i - start {
                        assert(digits[j] == s@[start + j]);
                    }
                }
                if all_digits(digits) {
                    lemma_decimal_prefix(digits, i - start, digits.len() as int);
                    assert(digits.take(digits.len() as int) =~= digits);
                    assert(decimal_value(digits) > 255);
                }
                assert(spec_parse_u8(s@) is None);
            }
            return None;
        }
    }
    proof {
        assert(digits.take(i - start) =~= digits);
        assert forall|j: int| 0 <= j < digits.len() implies '0' <= #[trigger] digits[j] <= '9' by {
            assert(digits[j] == s@[start + j]);
        }
    }
    Some(acc as u8)
}

/// What the configuration form holds.
#[derive(Debug, Clone)]
pub struct ConfigForm {
    pub vid: String,
    pub pid: String,
    pub product_name: String,
    /// The LED pin as typed.
    pub led_gpio: String,
    /// The position chosen in the list of LED drivers, if any.
    pub led_driver_index: Option<usize>,
    pub led_brightness: u8,
    /// The touch timeout as typed.
    pub touch_timeout: String,
    pub led_dimmable: bool,
    pub led_steady: bool,
    pub power_cycle: bool,
    pub enable_secp256k1: bool,
}

/// A text that differs from the current one, else nothing.
pub open spec fn text_change(form: Seq<char>, current: Seq<char>) -> Option<Seq<char>> {
    if form != current {
        Some(form)
    } else {
        None
    }
}

/// A typed number that parses and differs from the current one.
pub open spec fn number_change(typed: Seq<char>, current: u8) -> Option<u8> {
    match spec_parse_u8(typed) {
        Some(v) => if v != current {
            Some(v)
        } else {
            None
        },
        None => None,
    }
}

/// The driver chosen, when it differs from the current one (driver 1
/// when none is set).
pub open spec fn driver_change(index: Option<usize>, current: Option<u8>) -> Option<u8> {
    match index {
        Some(i) => if i < LedDriverType::spec_all().len() {
            let v = LedDriverType::spec_all()[i as int].spec_value();
            let cur = match current {
                Some(c) => c,
                None => 1u8,
            };
            if v != cur {
                Some(v)
            } else {
                None
            }
        } else {
            None
        },
        None => None,
    }
}

/// Whether the change asked for in `changes` is what the form asks of
/// the current configuration: each setting that differs, and the three
/// options together when any of them differs.
pub open spec fn asks_for(changes: AppConfigInput, form: ConfigForm, current: AppConfig) -> bool {
    let options_differ = form.led_dimmable != current.led_dimmable || form.led_steady != current.led_steady
        || form.power_cycle != current.power_cycle_on_reset;
    &&& match changes.vid {
        Some(v) => text_change(form.vid@, current.vid@) == Some(v@),
        None => text_change(form.vid@, current.vid@) is None,
    }
    &&& match changes.pid {
        Some(v) => text_change(form.pid@, current.pid@) == Some(v@),
        None => text_change(form.pid@, current.pid@) is None,
    }
    &&& match changes.product_name {
        Some(v) => text_change(form.product_name@, current.product_name@) == Some(v@),
        None => text_change(form.product_name@, current.product_name@) is None,
    }
    &&& changes.led_gpio == number_change(form.led_gpio@, current.led_gpio)
    &&& changes.led_driver == driver_change(form.led_driver_index, current.led_driver)
    &&& changes.led_brightness == (if form.led_brightness != current.led_brightness {
        Some(form.led_brightness)
    } else {
        None
    })
    &&& changes.touch_timeout == number_change(form.touch_timeout@, current.touch_timeout)
    &&& changes.led_dimmable == (if options_differ { Some(form.led_dimmable) } else { None })
    &&& changes.led_steady == (if options_differ { Some(form.led_steady) } else { None })
    &&& changes.power_cycle_on_reset == (if options_differ { Some(form.power_cycle) } else { None })
    &&& changes.enable_secp256k1 == (if form.enable_secp256k1 != current.enable_secp256k1 {
        Some(form.enable_secp256k1)
    } else {
        None
    })
}

fn text_differs(form: &String, current: &String) -> (r: Option<String>)
    ensures
        match text_change(form@, current@) {
            Some(t) => r matches Some(s) && s@ == t,
            None => r is None,
        },
{
    if str_eq(form.as_str(), current.as_str()) {
        None
    } else {
        Some(form.clone())
    }
}

fn number_differs(typed: &String, current: u8) -> (r: Option<u8>)
    ensures
        r == number_change(typed@, current),
{
    match parse_u8(typed.as_str()) {
        Some(v) => if v != current {
            Some(v)
        } else {
            None
        },
        None => None,
    }
}

/// The configuration changes that the form asks for.
pub fn config_changes(form: &ConfigForm, current: &AppConfig) -> (r: AppConfigInput)
    ensures
        asks_for(r, *form, *current),
{
    let drivers = LedDriverType::all();
    let led_driver = match form.led_driver_index {
        Some(i) => if i < drivers.len() {
            let v = drivers[i].value();
            let cur = match current.led_driver {
                Some(c) => c,
                None => 1,
            };
            if v != cur {
                Some(v)
            } else {
                None
            }
        } else {
            None
        },
        None => None,
    };
    let options_differ = form.led_dimmable != current.led_dimmable || form.led_steady != current.led_steady
        || form.power_cycle != current.power_cycle_on_reset;
    AppConfigInput {
        vid: text_differs(&form.vid, &current.vid),
        pid: text_differs(&form.pid, &current.pid),
        product_name: text_differs(&form.product_name, &current.product_name),
        led_gpio: number_differs(&form.led_gpio, current.led_gpio),
        led_brightness: if form.led_brightness != current.led_brightness {
            Some(form.led_brightness)
        } else {
            None
        },
        touch_timeout: number_differs(&form.touch_timeout, current.touch_timeout),
        led_driver,
        led_dimmable: if options_differ { Some(form.led_dimmable) } else { None },
        power_cycle_on_reset: if options_differ { Some(form.power_cycle) } else { None },
        led_steady: if options_differ { Some(form.led_steady) } else { None },
        enable_secp256k1: if form.enable_secp256k1 != current.enable_secp256k1 {
            Some(form.enable_secp256k1)
        } else {
            None
        },
    }
}

/// Whether any setting is to change.
pub open spec fn spec_has_changes(c: AppConfigInput) -> bool {
    c.vid is Some || c.pid is Some || c.product_name is Some || c.led_gpio is Some || c.led_brightness is Some
        || c.touch_timeout is Some || c.led_driver is Some || c.led_dimmable is Some || c.power_cycle_on_reset is Some
        || c.led_steady is Some || c.enable_secp256k1 is Some
}

/// Whether any setting is to change.
pub fn has_changes(c: &AppConfigInput) -> (r: bool)
    ensures
        r == spec_has_changes(*c),
{
    c.vid.is_some() || c.pid.is_some() || c.product_name.is_some() || c.led_gpio.is_some()
        || c.led_brightness.is_some() || c.touch_timeout.is_some() || c.led_driver.is_some()
        || c.led_dimmable.is_some() || c.power_cycle_on_reset.is_some() || c.led_steady.is_some()
        || c.enable_secp256k1.is_some()
}

/// A form that asks for nothing different asks for no change.
pub proof fn lemma_unchanged_form_asks_nothing(changes: AppConfigInput, form: ConfigForm, current: AppConfig)
    requires
        asks_for(changes, form, current),
        form.vid@ == current.vid@,
        form.pid@ == current.pid@,
        form.product_name@ == current.product_name@,
        number_change(form.led_gpio@, current.led_gpio) is None,
        number_change(form.touch_timeout@, current.touch_timeout) is None,
        driver_change(form.led_driver_index, current.led_driver) is None,
        form.led_brightness == current.led_brightness,
        form.led_dimmable == current.led_dimmable,
        form.led_steady == current.led_steady,
        form.power_cycle == current.power_cycle_on_reset,
        form.enable_secp256k1 == current.enable_secp256k1,
    ensures
        !spec_has_changes(changes),
{
}

// ---------------------------------------------------------------------
// PIN dialogs.
// ---------------------------------------------------------------------

/// Where a dialog stands.
#[derive(Debug, Clone)]
pub enum DialogPhase {
    Input,
    Loading,
    Success(String),
    Error(String),
}

/// What a dialog does with its input when confirmed.
#[derive(Debug, Clone)]
pub enum PinFormCheck {
    /// Nothing: the dialog is busy or finished, or a field it needs is empty.
    Ignore,
    /// Show the error and stay open.
    Reject(String),
    /// Submit the input and show progress.
    Submit,
}

/// Whether the dialog is busy or finished.
pub open spec fn phase_blocks(phase: DialogPhase) -> bool {
    phase is Loading || phase is Success
}

/// The error of a new PIN and its confirmation: they differ, or the PIN
/// has fewer than four bytes.
pub open spec fn new_pin_error(new_pin: Seq<char>, confirm: Seq<char>) -> Option<Seq<char>> {
    if new_pin != confirm {
        Some("PINs do not match"@)
    } else if vstd::utf8::encode_utf8(new_pin).len() < 4 {
        Some("PIN must be at least 4 characters"@)
    } else {
        None
    }
}

/// Whether `r` is the check that the spec describes.
pub open spec fn check_is(r: PinFormCheck, ignore: bool, error: Option<Seq<char>>) -> bool {
    if ignore {
        r is Ignore
    } else {
        match error {
            Some(t) => r matches PinFormCheck::Reject(s) && s@ == t,
            None => r is Submit,
        }
    }
}

fn blocks(phase: &DialogPhase) -> (r: bool)
    ensures
        r == phase_blocks(*phase),
{
    match phase {
        DialogPhase::Loading => true,
        DialogPhase::Success(_) => true,
        _ => false,
    }
}

fn check_new_pin_pair(new_pin: &str, confirm: &str) -> (r: PinFormCheck)
    ensures
        check_is(r, false, new_pin_error(new_pin@, confirm@)),
{
    if !str_eq(new_pin, confirm) {
        return PinFormCheck::Reject(String::from_str("PINs do not match"));
    }
    if new_pin.as_bytes().len() < 4 {
        return PinFormCheck::Reject(String::from_str("PIN must be at least 4 characters"));
    }
    PinFormCheck::Submit
}

/// Confirming the PIN prompt: submits a PIN that is not empty.
pub fn check_pin_prompt(phase: &DialogPhase, pin: &str) -> (r: PinFormCheck)
    ensures
        check_is(r, phase_blocks(*phase) || pin@.len() == 0, None),
{
    if blocks(phase) || str_chars(pin).len() == 0 {
        return PinFormCheck::Ignore;
    }
    PinFormCheck::Submit
}

/// Confirming the change-PIN dialog: needs the current PIN, and a new
/// PIN of at least four bytes that matches its confirmation.
pub fn check_change_pin(phase: &DialogPhase, current: &str, new_pin: &str, confirm: &str) -> (r: PinFormCheck)
    ensures
        check_is(r, phase_blocks(*phase) || current@.len() == 0, new_pin_error(new_pin@, confirm@)),
{
    if blocks(phase) || str_chars(current).len() == 0 {
        return PinFormCheck::Ignore;
    }
    check_new_pin_pair(new_pin, confirm)
}

/// Confirming the set-PIN dialog: needs a new PIN of at least four bytes
/// that matches its confirmation.
pub fn check_set_pin(phase: &DialogPhase, new_pin: &str, confirm: &str) -> (r: PinFormCheck)
    ensures
        check_is(r, phase_blocks(*phase), new_pin_error(new_pin@, confirm@)),
{
    if blocks(phase) {
        return PinFormCheck::Ignore;
    }
    check_new_pin_pair(new_pin, confirm)
}

/// Whether an error message points to the troubleshooting guide.
pub fn mentions_troubleshooting(msg: &str) -> (r: bool)
    ensures
        r == crate::error::seq_contains(msg@, "troubleshooting guide"@),
{
    let hay = str_chars(msg);
    let needle = str_chars("troubleshooting guide");
    crate::error::chars_contain(hay.as_slice(), needle.as_slice())
}


proof fn lemma_decimal_chars(n: nat)
    ensures
        decimal_chars(n).len() > 0,
        all_digits(decimal_chars(n)),
        decimal_value(decimal_chars(n)) == n,
    decreases n,
{
    if n >= 10 {
        lemma_decimal_chars(n / 10);
        let p = decimal_chars(n / 10);
        let d = decimal_chars(n);
        assert(d == p.push(('0' as int + n % 10) as char));
        assert(d.drop_last() =~= p);
        assert forall|i: int| 0 <= i < d.len() implies '0' <= #[trigger] d[i] <= '9' by {
            if i < p.len() {
                assert(d[i] == p[i]);
            }
        }
        let c = ('0' as int + n % 10) as char;
        assert(c as int == '0' as int + n % 10);
        assert(d.last() == c);
        assert(decimal_value(d) == decimal_value(p) * 10 + (c as int - '0' as int));
        assert(n == (n / 10) * 10 + n % 10);
        assert(decimal_value(d) == n);
    } else {
        let d = decimal_chars(n);
        let c = ('0' as int + n) as char;
        assert(c as int == '0' as int + n);
        assert(d.drop_last() =~= Seq::<char>::empty());
        assert(d.last() == c);
        assert(decimal_value(d.drop_last()) == 0);
        assert(decimal_value(d) == n);
    }
}

/// A form that differs from the device in a setting asks for that setting
/// to take the form's value, and so asks for a change. The three options
/// (dimmable, steady, power cycle on reset) travel together: when any of
/// them differs, all three are asked for with the form's values.
pub proof fn lemma_differing_form_asks_for_it(changes: AppConfigInput, form: ConfigForm, current: AppConfig)
    requires
        asks_for(changes, form, current),
    ensures
        form.power_cycle != current.power_cycle_on_reset ==> changes.power_cycle_on_reset == Some(form.power_cycle),
        form.led_dimmable != current.led_dimmable ==> changes.led_dimmable == Some(form.led_dimmable),
        form.led_steady != current.led_steady ==> changes.led_steady == Some(form.led_steady),
        (form.power_cycle != current.power_cycle_on_reset || form.led_dimmable != current.led_dimmable
            || form.led_steady != current.led_steady) ==> changes.led_dimmable == Some(form.led_dimmable)
            && changes.led_steady == Some(form.led_steady) && changes.power_cycle_on_reset == Some(
            form.power_cycle,
        ),
        form.led_brightness != current.led_brightness ==> changes.led_brightness == Some(form.led_brightness),
        form.enable_secp256k1 != current.enable_secp256k1 ==> changes.enable_secp256k1 == Some(
            form.enable_secp256k1,
        ),
        form.vid@ != current.vid@ ==> (changes.vid matches Some(v) && v@ == form.vid@),
        form.pid@ != current.pid@ ==> (changes.pid matches Some(v) && v@ == form.pid@),
        form.product_name@ != current.product_name@ ==> (changes.product_name matches Some(v) && v@
            == form.product_name@),
        (form.power_cycle != current.power_cycle_on_reset || form.led_dimmable != current.led_dimmable
            || form.led_steady != current.led_steady || form.led_brightness != current.led_brightness
            || form.enable_secp256k1 != current.enable_secp256k1 || form.vid@ != current.vid@
            || form.pid@ != current.pid@ || form.product_name@ != current.product_name@) ==> spec_has_changes(
            changes,
        ),
{
}

/// A number shown in decimal parses back to itself, so a form field
/// left as shown asks for no change.
pub proof fn lemma_shown_number_unchanged(n: u8)
    ensures
        spec_parse_u8(decimal_chars(n as nat)) == Some(n),
        number_change(decimal_chars(n as nat), n) is None,
{
    lemma_decimal_chars(n as nat);
    let d = decimal_chars(n as nat);
    assert(d[0] != '+');
}


/// The error of the minimum PIN length dialog: a new PIN is optional,
/// but when given it must match its confirmation and have at least
/// `min_len` bytes.
pub open spec fn min_length_form_error(new_pin: Seq<char>, confirm: Seq<char>, min_len: u8) -> Option<Seq<char>> {
    if new_pin.len() == 0 {
        None
    } else if new_pin != confirm {
        Some("PINs do not match"@)
    } else if vstd::utf8::encode_utf8(new_pin).len() < min_len {
        Some("PIN must be at least "@ + decimal_chars(min_len as nat) + " characters"@)
    } else {
        None
    }
}

/// Confirming the minimum PIN length dialog: needs the current PIN.
pub fn check_min_length_form(current: &str, new_pin: &str, confirm: &str, min_len: u8) -> (r: PinFormCheck)
    ensures
        check_is(r, current@.len() == 0, min_length_form_error(new_pin@, confirm@, min_len)),
{
    if str_chars(current).len() == 0 {
        return PinFormCheck::Ignore;
    }
    if str_chars(new_pin).len() == 0 {
        return PinFormCheck::Submit;
    }
    if !str_eq(new_pin, confirm) {
        return PinFormCheck::Reject(String::from_str("PINs do not match"));
    }
    if new_pin.as_bytes().len() < min_len as usize {
        let mut m = String::from_str("PIN must be at least ");
        crate::text::push_decimal(&mut m, min_len as u128);
        m.append(" characters");
        return PinFormCheck::Reject(m);
    }
    PinFormCheck::Submit
}

/// What follows an attempt to set the minimum PIN length.
pub enum MinLengthStep {
    /// Change the PIN to the new one.
    ChangePin,
    /// Report the outcome.
    Finish(Result<String, String>),
}

/// The step after setting the minimum PIN length: a failure is reported;
/// on success the PIN is changed when a new one was given, else the new
/// minimum is reported.
pub fn after_min_length_set(result: &Result<String, String>, new_pin: &str, min_len: u8) -> (r: MinLengthStep)
    ensures
        match result {
            Err(e) => r matches MinLengthStep::Finish(Err(m)) && m@ == "Failed to set length: "@ + e@,
            Ok(_) => if new_pin@.len() > 0 {
                r is ChangePin
            } else {
                r matches MinLengthStep::Finish(Ok(m)) && m@ == "Minimum length updated to "@ + decimal_chars(
                    min_len as nat,
                ) + "."@
            },
        },
{
    match result {
        Err(e) => {
            let mut m = String::from_str("Failed to set length: ");
            m.append(e.as_str());
            MinLengthStep::Finish(Err(m))
        },
        Ok(_) => {
            if str_chars(new_pin).len() > 0 {
                MinLengthStep::ChangePin
            } else {
                let mut m = String::from_str("Minimum length updated to ");
                crate::text::push_decimal(&mut m, min_len as u128);
                m.append(".");
                MinLengthStep::Finish(Ok(m))
            }
        },
    }
}

/// The report after the PIN change that follows a new minimum length.
pub fn after_min_length_pin_change(result: &Result<String, String>) -> (r: Result<String, String>)
    ensures
        match result {
            Ok(_) => r matches Ok(m) && m@ == "Minimum length and PIN updated."@,
            Err(e) => r matches Err(m) && m@ == "Length set, but PIN change failed: "@ + e@,
        },
{
    match result {
        Ok(_) => Ok(String::from_str("Minimum length and PIN updated.")),
        Err(e) => {
            let mut m = String::from_str("Length set, but PIN change failed: ");
            m.append(e.as_str());
            Err(m)
        },
    }
}


/// The position in the list of drivers of the driver numbered `v`, or 0.
pub open spec fn driver_index(v: u8) -> usize {
    if v == 1 {
        0
    } else if v == 2 {
        1
    } else if v == 3 {
        2
    } else if v == 5 {
        3
    } else {
        0
    }
}

fn driver_position(v: u8) -> (r: usize)
    ensures
        r == driver_index(v),
{
    let all = LedDriverType::all();
    let mut i: usize = 0;
    while i < all.len()
        invariant
            all@ == LedDriverType::spec_all(),
            i <= all@.len(),
            forall|j: int| 0 <= j < i ==> (#[trigger] all@[j]).spec_value() != v,
        decreases all@.len() - i,
    {
        if all[i].value() == v {
            return i;
        }
        i = i + 1;
    }
    0
}

/// Whether `f` is the form shown for the device configuration `c`, or
/// for no device: "CAFE", "4242", "My Key", pin 25, timeout 10,
/// brightness 8, LED dimmable, secp256k1 on, the first driver.
pub open spec fn form_shows(f: ConfigForm, c: Option<AppConfig>) -> bool {
    match c {
        Some(c) => {
            &&& f.vid@ == c.vid@
            &&& f.pid@ == c.pid@
            &&& f.product_name@ == c.product_name@
            &&& f.led_gpio@ == decimal_chars(c.led_gpio as nat)
            &&& f.touch_timeout@ == decimal_chars(c.touch_timeout as nat)
            &&& f.led_brightness == c.led_brightness
            &&& f.led_dimmable == c.led_dimmable
            &&& f.led_steady == c.led_steady
            &&& f.power_cycle == c.power_cycle_on_reset
            &&& f.enable_secp256k1 == c.enable_secp256k1
            &&& f.led_driver_index == Some(
                driver_index(
                    match c.led_driver {
                        Some(d) => d,
                        None => 1u8,
                    },
                ),
            )
        },
        None => {
            &&& f.vid@ == "CAFE"@
            &&& f.pid@ == "4242"@
            &&& f.product_name@ == "My Key"@
            &&& f.led_gpio@ == "25"@
            &&& f.touch_timeout@ == "10"@
            &&& f.led_brightness == 8
            &&& f.led_dimmable
            &&& !f.led_steady
            &&& !f.power_cycle
            &&& f.enable_secp256k1
            &&& f.led_driver_index == Some(0usize)
        },
    }
}

fn decimal_text(n: u8) -> (r: String)
    ensures
        r@ == decimal_chars(n as nat),
{
    let mut s = String::new();
    crate::text::push_decimal(&mut s, n as u128);
    s
}

/// The form shown for the device configuration, or for no device.
pub fn form_from_config(config: Option<&AppConfig>) -> (r: ConfigForm)
    ensures
        form_shows(
            r,
            match config {
                Some(c) => Some(*c),
                None => None,
            },
        ),
{
    match config {
        Some(c) => ConfigForm {
            vid: c.vid.clone(),
            pid: c.pid.clone(),
            product_name: c.product_name.clone(),
            led_gpio: decimal_text(c.led_gpio),
            led_driver_index: Some(
                driver_position(
                    match c.led_driver {
                        Some(d) => d,
                        None => 1,
                    },
                ),
            ),
            led_brightness: c.led_brightness,
            touch_timeout: decimal_text(c.touch_timeout),
            led_dimmable: c.led_dimmable,
            led_steady: c.led_steady,
            power_cycle: c.power_cycle_on_reset,
            enable_secp256k1: c.enable_secp256k1,
        },
        None => ConfigForm {
            vid: String::from_str("CAFE"),
            pid: String::from_str("4242"),
            product_name: String::from_str("My Key"),
            led_gpio: String::from_str("25"),
            led_driver_index: Some(0),
            led_brightness: 8,
            touch_timeout: String::from_str("10"),
            led_dimmable: true,
            led_steady: false,
            power_cycle: false,
            enable_secp256k1: true,
        },
    }
}

/// A form filled from the device asks for no change, unless the device
/// reports an LED driver that the list does not offer.
pub proof fn lemma_form_of_device_asks_nothing(changes: AppConfigInput, form: ConfigForm, current: AppConfig)
    requires
        form_shows(form, Some(current)),
        asks_for(changes, form, current),
        match current.led_driver {
            Some(d) => d == 1 || d == 2 || d == 3 || d == 5,
            None => true,
        },
    ensures
        !spec_has_changes(changes),
{
    lemma_shown_number_unchanged(current.led_gpio);
    lemma_shown_number_unchanged(current.touch_timeout);
}

/// The report of a failed configuration write; over FIDO an unknown
/// subcommand (0x3E) means the firmware cannot be configured that way.
pub open spec fn config_write_error_text(fido: bool, e: Seq<char>) -> Seq<char> {
    if fido && crate::error::seq_contains("Failed to apply configuration: "@ + e, "0x3E"@) {
        "The device firmware does not support being configured in fido only communication mode. \nHave a look at the troubleshooting guide to fix this"@
    } else {
        "Failed to apply configuration: "@ + e
    }
}

/// Reports a failed configuration write.
pub fn config_write_error(fido: bool, e: &str) -> (r: String)
    ensures
        r@ == config_write_error_text(fido, e@),
{
    let mut m = String::from_str("Failed to apply configuration: ");
    m.append(e);
    if fido {
        let hay = str_chars(m.as_str());
        let needle = str_chars("0x3E");
        if crate::error::chars_contain(hay.as_slice(), needle.as_slice()) {
            return String::from_str(
                "The device firmware does not support being configured in fido only communication mode. \nHave a look at the troubleshooting guide to fix this",
            );
        }
    }
    m
}

/// Whether a status read after a write may replace the shown one: it
/// must come from the device that was written (the same serial number).
pub fn refreshed_status_applies(expected_serial: &Option<String>, new_serial: &str) -> (r: bool)
    ensures
        r == (expected_serial matches Some(s) && s@ == new_serial@),
{
    match expected_serial {
        Some(s) => str_eq(s.as_str(), new_serial),
        None => false,
    }
}

} // verus!
