//! The library's error type.
use vstd::prelude::*;

verus! {

/// Errors of device communication and of the library's checks.
#[derive(Debug, Clone)]
pub enum PFError {
    /// A failure to build, send or read data.
    Io(String),
    /// The device refused a request or answered unexpectedly.
    Device(String),
    /// No suitable device is attached.
    NoDevice,
    /// The smart-card layer reported an error.
    Pcsc(String),
}

impl PFError {
    /// The text that the error displays.
    pub open spec fn spec_message(&self) -> Seq<char> {
        match self {
            PFError::Io(s) => "IO error: "@ + s@,
            PFError::Device(s) => "Device error: "@ + s@,
            PFError::NoDevice => "No device found"@,
            PFError::Pcsc(s) => "PC/SC error: "@ + s@,
        }
    }

    /// The text that the error displays.
    pub fn message(&self) -> (r: String)
        ensures
            r@ == self.spec_message(),
    {
        match self {
            PFError::Io(s) => {
                let mut r = String::from_str("IO error: ");
                r.append(s.as_str());
                r
            },
            PFError::Device(s) => {
                let mut r = String::from_str("Device error: ");
                r.append(s.as_str());
                r
            },
            PFError::NoDevice => String::from_str("No device found"),
            PFError::Pcsc(s) => {
                let mut r = String::from_str("PC/SC error: ");
                r.append(s.as_str());
                r
            },
        }
    }
}

/// A device error carrying the text `s`.
pub open spec fn is_device_error(e: PFError, s: Seq<char>) -> bool {
    e matches PFError::Device(t) && t@ == s
}

/// An I/O error carrying the text `s`.
pub open spec fn is_io_error(e: PFError, s: Seq<char>) -> bool {
    e matches PFError::Io(t) && t@ == s
}

/// A device error whose text is the literal `s`.
pub fn device_error(s: &str) -> (e: PFError)
    ensures
        is_device_error(e, s@),
{
    PFError::Device(String::from_str(s))
}

/// An I/O error whose text is the literal `s`.
pub fn io_error(s: &str) -> (e: PFError)
    ensures
        is_io_error(e, s@),
{
    PFError::Io(String::from_str(s))
}

/// Whether `needle` occurs in `hay` as a contiguous run.
pub open spec fn seq_contains(hay: Seq<char>, needle: Seq<char>) -> bool {
    exists|i: int| 0 <= i <= hay.len() - needle.len() && #[trigger] hay.subrange(i, i + needle.len()) == needle
}

/// Whether `needle` occurs in `hay` (what `str::contains` reports).
pub fn chars_contain(hay: &[char], needle: &[char]) -> (r: bool)
    ensures
        r == seq_contains(hay@, needle@),
{
    if needle.len() > hay.len() {
        return false;
    }
    let mut i: usize = 0;
    while i <= hay.len() - needle.len()
        invariant
            needle.len() <= hay.len(),
            i <= hay.len() - needle.len() + 1,
            forall|j: int| 0 <= j < i ==> #[trigger] hay@.subrange(j, j + needle@.len()) != needle@,
        decreases hay.len() - needle.len() + 1 - i,
    {
        let mut k: usize = 0;
        let mut same = true;
        while k < needle.len()
            invariant
                i + needle.len() <= hay.len(),
                k <= needle.len(),
                same == (forall|t: int| 0 <= t < k ==> hay@[i + t] == needle@[t]),
            decreases needle.len() - k,
        {
            if hay[i + k] != needle[k] {
                same = false;
            }
            k = k + 1;
        }
        if same {
            assert(hay@.subrange(i as int, i + needle@.len()) =~= needle@);
            return true;
        }
        assert(hay@.subrange(i as int, i + needle@.len()) != needle@) by {
            let t = choose|t: int| 0 <= t < needle.len() && hay@[i + t] != needle@[t];
            assert(hay@.subrange(i as int, i + needle@.len())[t] == hay@[i + t]);
        }
        i = i + 1;
    }
    false
}

/// Whether the displayed text of `e` contains `needle`.
pub fn error_mentions(e: &PFError, needle: &str) -> (r: bool)
    ensures
        r == seq_contains(e.spec_message(), needle@),
{
    let text = e.message();
    let hay = crate::text::str_chars(text.as_str());
    let nd = crate::text::str_chars(needle);
    chars_contain(hay.as_slice(), nd.as_slice())
}

} // verus!
