//! Small verified helpers on characters and strings: splitting a string
//! into characters, hexadecimal and decimal rendering and parsing.
use vstd::prelude::*;

verus! {

/// Appends one character to a `String` (std `String::push`).
#[verifier::external_body]
pub(crate) fn push_char(s: &mut String, c: char)
    ensures
        final(s)@ == old(s)@.push(c),
{
    s.push(c)
}

/// The characters of `s`, in order.
pub fn str_chars(s: &str) -> (r: Vec<char>)
    ensures
        r@ == s@,
{
    let mut r: Vec<char> = Vec::new();
    for c in it: s.chars()
        invariant
            r@ == it.seq().take(it.index() as int),
            it.seq() == s@,
    {
        r.push(c);
    }
    r
}

/// A `String` holding exactly the characters `cs`.
pub fn string_from_chars(cs: &[char]) -> (r: String)
    ensures
        r@ == cs@,
{
    let mut r = String::new();
    let mut i: usize = 0;
    while i < cs.len()
        invariant
            i <= cs.len(),
            r@ == cs@.take(i as int),
        decreases cs.len() - i,
    {
        push_char(&mut r, cs[i]);
        i = i + 1;
        assert(r@ =~= cs@.take(i as int));
    }
    assert(cs@.take(cs.len() as int) =~= cs@);
    r
}


/// The value of a hexadecimal digit, either case.
pub open spec fn hex_digit_value(c: char) -> int {
    if '0' <= c && c <= '9' {
        c as int - '0' as int
    } else if 'a' <= c && c <= 'f' {
        c as int - 'a' as int + 10
    } else if 'A' <= c && c <= 'F' {
        c as int - 'A' as int + 10
    } else {
        -1
    }
}

pub open spec fn is_hex_digit(c: char) -> bool {
    hex_digit_value(c) >= 0
}

pub open spec fn all_hex(s: Seq<char>) -> bool {
    forall|i: int| 0 <= i < s.len() ==> is_hex_digit(#[trigger] s[i])
}

/// The number that the hexadecimal digits `s` spell, most significant first.
pub open spec fn hex_value(s: Seq<char>) -> nat
    decreases s.len(),
{
    if s.len() == 0 {
        0
    } else {
        (hex_value(s.drop_last()) * 16 + hex_digit_value(s.last())) as nat
    }
}

/// What `u64::from_str_radix(s, 16)` gives: an optional `+`, then at
/// least one hexadecimal digit, and a value below 2^64.
pub open spec fn spec_parse_hex_u64(s: Seq<char>) -> Option<u64> {
    let digits = if s.len() > 0 && s[0] == '+' { s.drop_first() } else { s };
    if digits.len() == 0 || !all_hex(digits) || hex_value(digits) > u64::MAX {
        None
    } else {
        Some(hex_value(digits) as u64)
    }
}

proof fn lemma_hex_value_grows(s: Seq<char>)
    requires
        s.len() > 0,
        all_hex(s),
    ensures
        hex_value(s) >= hex_value(s.drop_last()) * 16,
{
}

proof fn lemma_hex_value_prefix(s: Seq<char>, i: int, j: int)
    requires
        0 <= i <= j <= s.len(),
        all_hex(s),
    ensures
        hex_value(s.take(j)) >= hex_value(s.take(i)),
    decreases j - i,
{
    if i < j {
        lemma_hex_value_prefix(s, i, j - 1);
        assert(s.take(j).drop_last() =~= s.take(j - 1));
        lemma_hex_value_grows(s.take(j));
    }
}

fn digit_value(c: char) -> (r: Option<u64>)
    ensures
        r matches Some(v) ==> is_hex_digit(c) && v == hex_digit_value(c),
        r is None ==> !is_hex_digit(c),
{
    if '0' <= c && c <= '9' {
        Some((c as u32 - '0' as u32) as u64)
    } else if 'a' <= c && c <= 'f' {
        Some((c as u32 - 'a' as u32 + 10) as u64)
    } else if 'A' <= c && c <= 'F' {
        Some((c as u32 - 'A' as u32 + 10) as u64)
    } else {
        None
    }
}

/// Parses `s` as `u64::from_str_radix(s, 16)` does.
pub fn parse_hex_u64(s: &[char]) -> (r: Option<u64>)
    ensures
        r == spec_parse_hex_u64(s@),
{
    let start: usize = if s.len() > 0 && s[0] == '+' { 1 } else { 0 };
    let ghost digits = if s@.len() > 0 && s@[0] == '+' { s@.drop_first() } else { s@ };
    assert(digits =~= s@.subrange(start as int, s@.len() as int));
    if start == s.len() {
        return None;
    }
    let mut acc: u64 = 0;
    let mut i: usize = start;
    while i < s.len()
        invariant
            start <= i <= s.len(),
            digits == (if s@.len() > 0 && s@[0] == '+' { s@.drop_first() } else { s@ }),
            digits.len() > 0,
            digits =~= s@.subrange(start as int, s@.len() as int),
            all_hex(digits.take(i - start)),
            acc == hex_value(digits.take(i - start)),
        decreases s.len() - i,
    {
        let ghost k = (i - start) as int;
        assert(digits.take(k + 1).drop_last() =~= digits.take(k));
        assert(digits.take(k + 1).last() == s@[i as int]);
        match digit_value(s[i]) {
            None => {
                assert(!all_hex(digits)) by {
                    assert(digits[k] == s@[i as int]);
                }
                return None;
            },
            Some(d) => {
                assert(all_hex(digits.take(k + 1)));
                if acc > (u64::MAX - d) / 16 {
                    proof {
                        assert(hex_value(digits.take(k + 1)) > u64::MAX) by (nonlinear_arith)
                            requires
                                hex_value(digits.take(k + 1)) == acc * 16 + d,
                                acc > (u64::MAX - d) / 16,
                                d < 16,
                        ;
                        if all_hex(digits) {
                            lemma_hex_value_prefix(digits, k + 1, digits.len() as int);
                            assert(digits.take(digits.len() as int) =~= digits);
                        }
                    }
                    return None;
                }
                assert(acc * 16 + d <= u64::MAX) by (nonlinear_arith)
                    requires
                        acc <= (u64::MAX - d) / 16,
                        d < 16,
                ;
                acc = acc * 16 + d;
                i = i + 1;
            },
        }
    }
    assert(digits.take(digits.len() as int) =~= digits);
    Some(acc)
}


/// The hexadecimal digit for `n < 16`, in upper or lower case.
pub open spec fn hex_digit_char(n: int, upper: bool) -> char {
    if n < 10 {
        ('0' as int + n) as char
    } else if upper {
        ('A' as int + n - 10) as char
    } else {
        ('a' as int + n - 10) as char
    }
}

/// Two hexadecimal digits for a byte, most significant first.
pub open spec fn hex_byte_chars(b: u8, upper: bool) -> Seq<char> {
    seq![hex_digit_char(b as int / 16, upper), hex_digit_char(b as int % 16, upper)]
}

/// The hexadecimal rendering of `bytes`, two digits per byte
/// (what `hex::encode` and `hex::encode_upper` return).
pub open spec fn hex_encoding(bytes: Seq<u8>, upper: bool) -> Seq<char>
    decreases bytes.len(),
{
    if bytes.len() == 0 {
        Seq::empty()
    } else {
        hex_encoding(bytes.drop_last(), upper) + hex_byte_chars(bytes.last(), upper)
    }
}

fn hex_digit(n: u8, upper: bool) -> (c: char)
    requires
        n < 16,
    ensures
        c == hex_digit_char(n as int, upper),
{
    if n < 10 {
        ((48u8 + n) as char)
    } else if upper {
        ((65u8 + n - 10) as char)
    } else {
        ((97u8 + n - 10) as char)
    }
}

/// Appends the two hexadecimal digits of `b` to `s`.
pub fn push_hex_byte(s: &mut String, b: u8, upper: bool)
    ensures
        final(s)@ == old(s)@ + hex_byte_chars(b, upper),
{
    push_char(s, hex_digit(b / 16, upper));
    push_char(s, hex_digit(b % 16, upper));
    assert(final(s)@ =~= old(s)@ + hex_byte_chars(b, upper));
}

/// The bytes rendered as hexadecimal text (upper case when `upper`).
pub fn hex_encode(bytes: &[u8], upper: bool) -> (r: String)
    ensures
        r@ == hex_encoding(bytes@, upper),
{
    let mut r = String::new();
    let mut i: usize = 0;
    while i < bytes.len()
        invariant
            i <= bytes.len(),
            r@ == hex_encoding(bytes@.take(i as int), upper),
        decreases bytes.len() - i,
    {
        assert(bytes@.take(i + 1).drop_last() =~= bytes@.take(i as int));
        push_hex_byte(&mut r, bytes[i], upper);
        i = i + 1;
    }
    assert(bytes@.take(bytes.len() as int) =~= bytes@);
    r
}

/// The 16 upper-case hexadecimal digits of `v` (as `{:016X}` renders it).
pub open spec fn hex_u64_chars(v: u64) -> Seq<char> {
    hex_encoding(u64_be_bytes(v), true)
}

/// The eight big-endian bytes of `v`.
pub open spec fn u64_be_bytes(v: u64) -> Seq<u8> {
    Seq::new(8, |i: int| ((v as int / pow256(7 - i)) % 256) as u8)
}

pub open spec fn pow256(k: int) -> int
    decreases k,
{
    if k <= 0 {
        1
    } else {
        256 * pow256(k - 1)
    }
}

/// Appends `0x` and the 16 upper-case hexadecimal digits of `v`.
pub fn push_hex_u64(s: &mut String, v: u64)
    ensures
        final(s)@ == old(s)@ + "0x"@ + hex_u64_chars(v),
{
    proof { reveal_strlit("0x"); }
    push_char(s, '0');
    push_char(s, 'x');
    let ghost start = s@;
    let mut k: usize = 0;
    while k < 8
        invariant
            k <= 8,
            start == old(s)@ + "0x"@,
            s@ == start + hex_encoding(u64_be_bytes(v).take(k as int), true),
        decreases 8 - k,
    {
        let shift: u64 = (8 * (7 - k)) as u64;
        let b: u8 = ((v >> shift) & 0xff) as u8;
        assert(b == ((v as int / pow256(7 - k)) % 256) as u8) by {
            lemma_shift_byte(v, (7 - k) as int);
        }
        assert(u64_be_bytes(v).take(k + 1).drop_last() =~= u64_be_bytes(v).take(k as int));
        push_hex_byte(s, b, true);
        k = k + 1;
    }
    assert(u64_be_bytes(v).take(8) =~= u64_be_bytes(v));
}

proof fn lemma_shift_byte(v: u64, j: int)
    requires
        0 <= j <= 7,
    ensures
        ((v >> ((8 * j) as u64)) & 0xff) as u8 == ((v as int / pow256(j)) % 256) as u8,
{
    reveal_with_fuel(pow256, 8);
    if j == 0 {
        assert(((v >> 0u64) & 0xff) as u8 == ((v / 1u64) % 256) as u8) by (bit_vector);
    }
    if j == 1 {
        assert(((v >> 8u64) & 0xff) as u8 == ((v / 256u64) % 256) as u8) by (bit_vector);
    }
    if j == 2 {
        assert(((v >> 16u64) & 0xff) as u8 == ((v / 65536u64) % 256) as u8) by (bit_vector);
    }
    if j == 3 {
        assert(((v >> 24u64) & 0xff) as u8 == ((v / 16777216u64) % 256) as u8) by (bit_vector);
    }
    if j == 4 {
        assert(((v >> 32u64) & 0xff) as u8 == ((v / 4294967296u64) % 256) as u8) by (bit_vector);
    }
    if j == 5 {
        assert(((v >> 40u64) & 0xff) as u8 == ((v / 1099511627776u64) % 256) as u8) by (bit_vector);
    }
    if j == 6 {
        assert(((v >> 48u64) & 0xff) as u8 == ((v / 281474976710656u64) % 256) as u8) by (bit_vector);
    }
    if j == 7 {
        assert(((v >> 56u64) & 0xff) as u8 == ((v / 72057594037927936u64) % 256) as u8) by (bit_vector);
    }
}

/// The decimal digits of `n`, without sign or leading zeros.
pub open spec fn decimal_chars(n: nat) -> Seq<char>
    decreases n,
{
    if n < 10 {
        seq![('0' as int + n) as char]
    } else {
        decimal_chars(n / 10).push(('0' as int + n % 10) as char)
    }
}

/// Appends the decimal rendering of `n`.
pub fn push_decimal(s: &mut String, n: u128)
    ensures
        final(s)@ == old(s)@ + decimal_chars(n as nat),
    decreases n,
{
    if n >= 10 {
        push_decimal(s, n / 10);
    }
    let d: u8 = (n % 10) as u8;
    push_char(s, (48u8 + d) as char);
    assert(final(s)@ =~= old(s)@ + decimal_chars(n as nat));
}

/// The rendering of a signed integer with `{}`: a `-` before the
/// magnitude when negative.
pub open spec fn signed_decimal_chars(n: int) -> Seq<char> {
    if n < 0 {
        seq!['-'] + decimal_chars((-n) as nat)
    } else {
        decimal_chars(n as nat)
    }
}

/// Appends the decimal rendering of a signed `n`.
pub fn push_signed_decimal(s: &mut String, n: i128)
    ensures
        final(s)@ == old(s)@ + signed_decimal_chars(n as int),
{
    if n < 0 {
        push_char(s, '-');
        let m: u128 = if n == i128::MIN { (i128::MAX as u128) + 1 } else { (-n) as u128 };
        push_decimal(s, m);
        assert(final(s)@ =~= old(s)@ + signed_decimal_chars(n as int));
    } else {
        push_decimal(s, n as u128);
    }
}


/// What `hex::decode` gives for the text `s`: an even number of
/// hexadecimal digits (either case), two per byte.
pub open spec fn spec_hex_decode(s: Seq<char>) -> Option<Seq<u8>> {
    if s.len() % 2 != 0 || !all_hex(s) {
        None
    } else {
        Some(
            Seq::new(
                s.len() / 2,
                |i: int| (hex_digit_value(s[2 * i]) * 16 + hex_digit_value(s[2 * i + 1])) as u8,
            ),
        )
    }
}

/// Decodes hexadecimal text into bytes.
pub fn hex_decode(s: &[char]) -> (r: Option<Vec<u8>>)
    ensures
        r matches Some(v) ==> spec_hex_decode(s@) == Some(v@),
        r is None <==> spec_hex_decode(s@) is None,
{
    if s.len() % 2 != 0 {
        return None;
    }
    let mut out: Vec<u8> = Vec::new();
    let mut i: usize = 0;
    while i < s.len() / 2
        invariant
            s.len() % 2 == 0,
            i <= s.len() / 2,
            out@.len() == i,
            forall|j: int| 0 <= j < 2 * i ==> is_hex_digit(#[trigger] s@[j]),
            forall|j: int|
                0 <= j < i ==> #[trigger] out@[j] == (hex_digit_value(s@[2 * j]) * 16
                    + hex_digit_value(s@[2 * j + 1])) as u8,
        decreases s.len() / 2 - i,
    {
        let hi = digit_value(s[2 * i]);
        let lo = digit_value(s[2 * i + 1]);
        match (hi, lo) {
            (Some(h), Some(l)) => {
                out.push((h * 16 + l) as u8);
                i = i + 1;
            },
            _ => {
                assert(!all_hex(s@));
                return None;
            },
        }
    }
    assert(all_hex(s@)) by {
        assert forall|j: int| 0 <= j < s@.len() implies is_hex_digit(#[trigger] s@[j]) by {
            assert(j < 2 * i);
        }
    }
    assert(out@ =~= spec_hex_decode(s@)->0);
    Some(out)
}

/// `s` without a leading `0x`, as `strip_prefix("0x").unwrap_or(s)` gives.
pub open spec fn strip_0x(s: Seq<char>) -> Seq<char> {
    if s.len() >= 2 && s[0] == '0' && s[1] == 'x' {
        s.subrange(2, s.len() as int)
    } else {
        s
    }
}

/// Removes a leading `0x`.
pub fn strip_0x_chars(s: &[char]) -> (r: Vec<char>)
    ensures
        r@ == strip_0x(s@),
{
    let start: usize = if s.len() >= 2 && s[0] == '0' && s[1] == 'x' { 2 } else { 0 };
    let mut r: Vec<char> = Vec::new();
    let mut i: usize = start;
    while i < s.len()
        invariant
            start <= i <= s.len(),
            r@ == s@.subrange(start as int, i as int),
        decreases s.len() - i,
    {
        r.push(s[i]);
        i = i + 1;
        assert(r@ =~= s@.subrange(start as int, i as int));
    }
    assert(s@.subrange(0, s@.len() as int) =~= s@);
    r
}


proof fn lemma_hex_digit_roundtrip(n: int, upper: bool)
    requires
        0 <= n < 16,
    ensures
        is_hex_digit(hex_digit_char(n, upper)),
        hex_digit_value(hex_digit_char(n, upper)) == n,
{
}

proof fn lemma_hex_encoding_index(b: Seq<u8>, upper: bool)
    ensures
        hex_encoding(b, upper).len() == 2 * b.len(),
        forall|i: int|
            0 <= i < b.len() ==> #[trigger] hex_encoding(b, upper)[2 * i] == hex_digit_char(b[i] as int / 16, upper)
                && hex_encoding(b, upper)[2 * i + 1] == hex_digit_char(b[i] as int % 16, upper),
    decreases b.len(),
{
    if b.len() > 0 {
        let p = b.drop_last();
        lemma_hex_encoding_index(p, upper);
        assert forall|i: int| 0 <= i < b.len() implies #[trigger] hex_encoding(b, upper)[2 * i] == hex_digit_char(
            b[i] as int / 16,
            upper,
        ) && hex_encoding(b, upper)[2 * i + 1] == hex_digit_char(b[i] as int % 16, upper) by {
            if i < p.len() {
                assert(hex_encoding(p, upper)[2 * i] == hex_digit_char(p[i] as int / 16, upper));
                assert(p[i] == b[i]);
            }
        }
    }
}

/// Hexadecimal text decodes back to the bytes it renders, in either case:
/// a credential id listed in hexadecimal names the same bytes when it is
/// given back.
pub proof fn lemma_hex_roundtrip(b: Seq<u8>, upper: bool)
    ensures
        spec_hex_decode(hex_encoding(b, upper)) == Some(b),
{
    let e = hex_encoding(b, upper);
    lemma_hex_encoding_index(b, upper);
    assert forall|j: int| 0 <= j < e.len() implies is_hex_digit(#[trigger] e[j]) by {
        let i = j / 2;
        assert(0 <= i < b.len());
        assert(e[2 * i] == hex_digit_char(b[i] as int / 16, upper));
        lemma_hex_digit_roundtrip(b[i] as int / 16, upper);
        lemma_hex_digit_roundtrip(b[i] as int % 16, upper);
        if j % 2 == 0 {
            assert(j == 2 * i);
        } else {
            assert(j == 2 * i + 1);
        }
    }
    let d = Seq::new(e.len() / 2, |i: int| (hex_digit_value(e[2 * i]) * 16 + hex_digit_value(e[2 * i + 1])) as u8);
    assert forall|i: int| 0 <= i < b.len() implies d[i] == b[i] by {
        lemma_hex_digit_roundtrip(b[i] as int / 16, upper);
        lemma_hex_digit_roundtrip(b[i] as int % 16, upper);
        assert(e[2 * i] == hex_digit_char(b[i] as int / 16, upper));
    }
    assert(d =~= b);
}


/// The number that big-endian bytes spell.
pub open spec fn be_value(b: Seq<u8>) -> nat
    decreases b.len(),
{
    if b.len() == 0 {
        0
    } else {
        be_value(b.drop_last()) * 256 + b.last() as nat
    }
}

proof fn lemma_hex_value_of_encoding(b: Seq<u8>, upper: bool)
    ensures
        hex_value(hex_encoding(b, upper)) == be_value(b),
    decreases b.len(),
{
    if b.len() > 0 {
        let p = b.drop_last();
        lemma_hex_value_of_encoding(p, upper);
        let x = b.last();
        let e = hex_encoding(b, upper);
        let hi = hex_digit_char(x as int / 16, upper);
        let lo = hex_digit_char(x as int % 16, upper);
        assert(e == hex_encoding(p, upper) + seq![hi, lo]);
        assert(e.drop_last() =~= hex_encoding(p, upper).push(hi));
        assert(e.drop_last().drop_last() =~= hex_encoding(p, upper));
        lemma_hex_digit_roundtrip(x as int / 16, upper);
        lemma_hex_digit_roundtrip(x as int % 16, upper);
        assert(hex_value(e.drop_last()) == hex_value(hex_encoding(p, upper)) * 16 + x as int / 16);
        assert(hex_value(e) == hex_value(e.drop_last()) * 16 + x as int % 16);
    }
}

proof fn lemma_be_bytes_prefix(v: u64, k: int)
    requires
        0 <= k <= 8,
    ensures
        be_value(u64_be_bytes(v).take(k)) == v as int / pow256(8 - k),
    decreases k,
{
    reveal_with_fuel(pow256, 9);
    if k == 0 {
        assert(u64_be_bytes(v).take(0) =~= Seq::<u8>::empty());
        assert(pow256(8) == 0x1_0000_0000_0000_0000);
        vstd::arithmetic::div_mod::lemma_basic_div(v as int, pow256(8));
    } else {
        lemma_be_bytes_prefix(v, k - 1);
        let t = u64_be_bytes(v).take(k);
        assert(t.drop_last() =~= u64_be_bytes(v).take(k - 1));
        let d = pow256(8 - k);
        assert(pow256(9 - k) == 256 * d);
        assert(d > 0);
        assert(t.last() == ((v as int / d) % 256) as u8);
        vstd::arithmetic::div_mod::lemma_div_denominator(v as int, d, 256);
        vstd::arithmetic::div_mod::lemma_fundamental_div_mod(v as int / d, 256);
        assert(v as int / pow256(9 - k) == (v as int / d) / 256) by {
            assert(d * 256 == 256 * d);
        }
        assert(0 <= (v as int / d) % 256 < 256);
    }
}

/// The sixteen hexadecimal digits of a number parse back to it.
pub proof fn lemma_hex_u64_roundtrip(v: u64)
    ensures
        spec_parse_hex_u64(hex_u64_chars(v)) == Some(v),
        spec_parse_hex_u64(strip_0x("0x"@ + hex_u64_chars(v))) == Some(v),
{
    reveal_with_fuel(pow256, 9);
    let b = u64_be_bytes(v);
    let e = hex_u64_chars(v);
    lemma_hex_encoding_index(b, true);
    assert forall|j: int| 0 <= j < e.len() implies is_hex_digit(#[trigger] e[j]) by {
        let i = j / 2;
        assert(0 <= i < b.len());
        assert(e[2 * i] == hex_digit_char(b[i] as int / 16, true));
        lemma_hex_digit_roundtrip(b[i] as int / 16, true);
        lemma_hex_digit_roundtrip(b[i] as int % 16, true);
        if j % 2 == 0 {
            assert(j == 2 * i);
        } else {
            assert(j == 2 * i + 1);
        }
    }
    lemma_hex_value_of_encoding(b, true);
    lemma_be_bytes_prefix(v, 8);
    assert(b.take(8) =~= b);
    assert(e.len() == 16);
    assert(e[0] != '+') by {
        lemma_hex_digit_roundtrip(b[0] as int / 16, true);
    }
    reveal_strlit("0x");
    let s = "0x"@ + e;
    assert(s[0] == '0' && s[1] == 'x');
    assert(s.subrange(2, s.len() as int) =~= e);
}

} // verus!
