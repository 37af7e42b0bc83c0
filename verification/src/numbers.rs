//! Decimal and hexadecimal conversions between integers and text, with the
//! meaning of `str::parse` for integer types and of `format!` with `{:0N}`/`{:02x}`.
use vstd::prelude::*;
use crate::text::{is_digit, all_digits, chars_of, push_char};

verus! {

/// The value of a character that is an ASCII digit.
pub open spec fn digit_value(c: char) -> int {
    (c as int) - ('0' as int)
}

/// The value of a run of decimal digits, most significant first (0 for the empty run).
pub open spec fn digits_value(s: Seq<char>) -> int
    decreases s.len(),
{
    if s.len() == 0 {
        0
    } else {
        digits_value(s.drop_last()) * 10 + digit_value(s.last())
    }
}

/// What `str::parse` reads from `s` for an integer type before the range check:
/// an optional `+` (or `-` where `signed`), then one or more ASCII digits.
pub open spec fn spec_parse_int(s: Seq<char>, signed: bool) -> Option<int> {
    if s.len() > 0 && (s[0] == '+' || (signed && s[0] == '-')) {
        let rest = s.drop_first();
        if rest.len() > 0 && all_digits(rest) {
            if s[0] == '-' {
                Some(-digits_value(rest))
            } else {
                Some(digits_value(rest))
            }
        } else {
            None
        }
    } else if s.len() > 0 && all_digits(s) {
        Some(digits_value(s))
    } else {
        None
    }
}

/// What `str::parse::<T>` returns for an integer type whose values are `lo..=hi`.
pub open spec fn spec_parse_in(s: Seq<char>, signed: bool, lo: int, hi: int) -> Option<int> {
    match spec_parse_int(s, signed) {
        Some(v) => if lo <= v <= hi { Some(v) } else { None },
        None => None,
    }
}

proof fn lemma_digits_value_nonneg(s: Seq<char>)
    requires
        all_digits(s),
    ensures
        digits_value(s) >= 0,
    decreases s.len(),
{
    if s.len() > 0 {
        assert(all_digits(s.drop_last()));
        lemma_digits_value_nonneg(s.drop_last());
    }
}

proof fn lemma_digits_value_push(s: Seq<char>, i: int)
    requires
        0 <= i < s.len(),
    ensures
        digits_value(s.subrange(0, i + 1)) == digits_value(s.subrange(0, i)) * 10 + digit_value(s[i]),
{
    assert(s.subrange(0, i + 1).drop_last() =~= s.subrange(0, i));
}

proof fn lemma_digits_value_grows(s: Seq<char>, i: int)
    requires
        0 <= i <= s.len(),
        all_digits(s),
    ensures
        digits_value(s.subrange(0, i)) <= digits_value(s),
    decreases s.len() - i,
{
    if i < s.len() {
        lemma_digits_value_grows(s, i + 1);
        lemma_digits_value_push(s, i);
        assert(all_digits(s.subrange(0, i)));
        lemma_digits_value_nonneg(s.subrange(0, i));
    } else {
        assert(s.subrange(0, i) =~= s);
    }
}

/// Reads the digits `v[start..]` (all of which must be digits for a `Some`) as a
/// magnitude, giving `None` when a character is not a digit or the value exceeds `cap`.
fn read_digits(v: &Vec<char>, start: usize, cap: i128) -> (r: Option<i128>)
    requires
        start < v.len(),
        0 <= cap < 0x1_0000_0000_0000_0000_0000_0000_0000,
    ensures
        r matches Some(m) ==> 0 <= m && all_digits(v@.subrange(start as int, v.len() as int)) && m
            == digits_value(v@.subrange(start as int, v.len() as int)) && m <= cap,
        r is None ==> !all_digits(v@.subrange(start as int, v.len() as int)) || digits_value(
            v@.subrange(start as int, v.len() as int),
        ) > cap,
{
    let ghost t = v@.subrange(start as int, v.len() as int);
    let mut acc: i128 = 0;
    let mut i: usize = start;
    while i < v.len()
        invariant
            start <= i <= v.len(),
            t == v@.subrange(start as int, v.len() as int),
            all_digits(t.subrange(0, i - start)),
            acc == digits_value(t.subrange(0, i - start)),
            0 <= acc <= cap,
            0 <= cap < 0x1_0000_0000_0000_0000_0000_0000_0000,
        decreases v.len() - i,
    {
        let c = v[i];
        if !('0' <= c && c <= '9') {
            assert(t[i - start] == c);
            return None;
        }
        let d = (c as u32 - '0' as u32) as i128;
        proof { lemma_digits_value_push(t, i - start); }
        assert(t[i - start] == c);
        if d > cap || acc > (cap - d) / 10 {
            proof {
                assert(all_digits(t.subrange(0, i - start + 1)));
                assert(acc * 10 + d > cap) by (nonlinear_arith)
                    requires d > cap || acc > (cap - d) / 10, 0 <= d <= 9, cap >= 0, acc >= 0;
                if all_digits(t) {
                    lemma_digits_value_grows(t, i - start + 1);
                }
            }
            return None;
        }
        assert(acc * 10 + d <= cap) by (nonlinear_arith)
            requires acc <= (cap - d) / 10, 0 <= d <= cap, acc >= 0;
        acc = acc * 10 + d;
        i = i + 1;
        assert(all_digits(t.subrange(0, i - start)));
    }
    assert(t.subrange(0, i - start) =~= t);
    Some(acc)
}

/// `str::parse` for an integer type with values `lo..=hi` (signed when `lo < 0`).
pub fn parse_int_in(s: &str, lo: i128, hi: i128) -> (r: Option<i128>)
    requires
        -0x1_0000_0000_0000_0000 <= lo <= 0 < hi <= 0x1_0000_0000_0000_0000,
    ensures
        r == (match spec_parse_in(s@, lo < 0, lo as int, hi as int) {
            Some(v) => Some(v as i128),
            None => None::<i128>,
        }),
{
    let v = chars_of(s);
    if v.len() == 0 {
        return None;
    }
    let signed = lo < 0;
    let first = v[0];
    if first == '+' || (signed && first == '-') {
        if v.len() == 1 {
            return None;
        }
        let neg = first == '-';
        let cap: i128 = if neg { 0 - lo } else { hi };
        assert(v@.subrange(1, v.len() as int) =~= s@.drop_first());
        match read_digits(&v, 1, cap) {
            Some(m) => {
                if neg { Some(0 - m) } else { Some(m) }
            },
            None => None,
        }
    } else {
        assert(v@.subrange(0, v.len() as int) =~= s@);
        proof {
            if all_digits(s@) {
                assert(is_digit(s@[0]));
            }
        }
        match read_digits(&v, 0, hi) {
            Some(m) => Some(m),
            None => {
                proof {
                    if all_digits(s@) {
                        lemma_digits_value_nonneg(s@);
                    }
                }
                None
            },
        }
    }
}

/// `str::parse::<i32>`.
pub fn parse_i32(s: &str) -> (r: Option<i32>)
    ensures
        r == (match spec_parse_in(s@, true, i32::MIN as int, i32::MAX as int) {
            Some(v) => Some(v as i32),
            None => None::<i32>,
        }),
{
    match parse_int_in(s, i32::MIN as i128, i32::MAX as i128) {
        Some(v) => Some(v as i32),
        None => None,
    }
}

/// `str::parse::<i64>`.
pub fn parse_i64(s: &str) -> (r: Option<i64>)
    ensures
        r == (match spec_parse_in(s@, true, i64::MIN as int, i64::MAX as int) {
            Some(v) => Some(v as i64),
            None => None::<i64>,
        }),
{
    match parse_int_in(s, i64::MIN as i128, i64::MAX as i128) {
        Some(v) => Some(v as i64),
        None => None,
    }
}

/// `str::parse::<u8>`.
pub fn parse_u8(s: &str) -> (r: Option<u8>)
    ensures
        r == (match spec_parse_in(s@, false, 0, u8::MAX as int) {
            Some(v) => Some(v as u8),
            None => None::<u8>,
        }),
{
    match parse_int_in(s, 0, u8::MAX as i128) {
        Some(v) => Some(v as u8),
        None => None,
    }
}

/// `str::parse::<u16>`.
pub fn parse_u16(s: &str) -> (r: Option<u16>)
    ensures
        r == (match spec_parse_in(s@, false, 0, u16::MAX as int) {
            Some(v) => Some(v as u16),
            None => None::<u16>,
        }),
{
    match parse_int_in(s, 0, u16::MAX as i128) {
        Some(v) => Some(v as u16),
        None => None,
    }
}

/// `str::parse::<u32>`.
pub fn parse_u32(s: &str) -> (r: Option<u32>)
    ensures
        r == (match spec_parse_in(s@, false, 0, u32::MAX as int) {
            Some(v) => Some(v as u32),
            None => None::<u32>,
        }),
{
    match parse_int_in(s, 0, u32::MAX as i128) {
        Some(v) => Some(v as u32),
        None => None,
    }
}

/// `str::parse::<u64>`.
pub fn parse_u64(s: &str) -> (r: Option<u64>)
    ensures
        r == (match spec_parse_in(s@, false, 0, u64::MAX as int) {
            Some(v) => Some(v as u64),
            None => None::<u64>,
        }),
{
    match parse_int_in(s, 0, u64::MAX as i128) {
        Some(v) => Some(v as u64),
        None => None,
    }
}

/// The ASCII digit for `d` in `0..10`.
pub open spec fn digit_char(d: int) -> char {
    ((d + '0' as int) as u32) as char
}

/// The decimal digits of `n`, most significant first, with no leading zero.
pub open spec fn dec_digits(n: nat) -> Seq<char>
    decreases n,
{
    if n < 10 {
        seq![digit_char(n as int)]
    } else {
        dec_digits(n / 10).push(digit_char((n % 10) as int))
    }
}

/// `s` preceded by as many `'0'` as needed to make it `width` characters long.
pub open spec fn zero_pad(s: Seq<char>, width: int) -> Seq<char> {
    if s.len() >= width {
        s
    } else {
        Seq::new((width - s.len()) as nat, |i: int| '0') + s
    }
}

/// What `format!("{:0w$}", v)` writes for the integer `v`: a `-` for negative values,
/// then the digits of the magnitude, zero-padded so that the whole is at least `w` long.
pub open spec fn fmt_int(v: int, width: int) -> Seq<char> {
    if v < 0 {
        seq!['-'] + zero_pad(dec_digits((-v) as nat), width - 1)
    } else {
        zero_pad(dec_digits(v as nat), width)
    }
}

fn digit_to_char(d: u64) -> (c: char)
    requires
        d < 10,
    ensures
        c == digit_char(d as int),
{
    ((d as u8) + 48u8) as char
}

/// The decimal digits of `n`.
fn digits_of(n: u64) -> (r: Vec<char>)
    ensures
        r@ == dec_digits(n as nat),
{
    let mut acc: Vec<char> = Vec::new();
    let mut m = n;
    while m >= 10
        invariant
            dec_digits(n as nat) == dec_digits(m as nat) + acc@,
        decreases m,
    {
        let c = digit_to_char(m % 10);
        acc.insert(0, c);
        assert(dec_digits(m as nat) == dec_digits((m / 10) as nat).push(c));
        m = m / 10;
        assert(dec_digits(n as nat) =~= dec_digits(m as nat) + acc@);
    }
    let c = digit_to_char(m);
    acc.insert(0, c);
    assert(acc@ =~= dec_digits(m as nat) + acc@.drop_first());
    acc
}

/// `format!("{:0width$}", v)` for a 64-bit signed integer.
pub fn format_int(v: i64, width: usize) -> (r: String)
    ensures
        r@ == fmt_int(v as int, width as int),
{
    let mut r = String::new();
    let mag: u64 = if v < 0 { (0i128 - v as i128) as u64 } else { v as u64 };
    let w: usize = if v < 0 { if width > 0 { width - 1 } else { 0 } } else { width };
    if v < 0 {
        push_char(&mut r, '-');
    }
    let digits = digits_of(mag);
    let mut k = digits.len();
    while k < w
        invariant
            digits.len() <= k <= w || (w < digits.len() && k == digits.len()),
            r@.len() == (if v < 0 { 1int } else { 0int }) + (k - digits.len()),
            forall|i: int| (if v < 0 { 1int } else { 0int }) <= i < r@.len() ==> r@[i] == '0',
            v < 0 ==> r@[0] == '-',
        decreases w - k,
    {
        push_char(&mut r, '0');
        k = k + 1;
    }
    let mut i: usize = 0;
    let ghost pre = r@;
    while i < digits.len()
        invariant
            i <= digits.len(),
            r@ == pre + digits@.subrange(0, i as int),
        decreases digits.len() - i,
    {
        push_char(&mut r, digits[i]);
        i = i + 1;
        assert(r@ =~= pre + digits@.subrange(0, i as int));
    }
    assert(digits@.subrange(0, digits.len() as int) =~= digits@);
    proof {
        let d = dec_digits(mag as nat);
        if v < 0 {
            assert(-(v as int) == mag as int);
            if d.len() >= width - 1 {
                assert(pre =~= seq!['-']);
            } else {
                assert(pre =~= seq!['-'] + Seq::new((width - 1 - d.len()) as nat, |i: int| '0'));
            }
            assert(r@ =~= fmt_int(v as int, width as int));
        } else {
            if d.len() >= width {
                assert(pre =~= Seq::<char>::empty());
            } else {
                assert(pre =~= Seq::new((width - d.len()) as nat, |i: int| '0'));
            }
            assert(r@ =~= fmt_int(v as int, width as int));
        }
    }
    r
}

/// The lowercase hexadecimal digit for `d` in `0..16`.
pub open spec fn hex_char(d: int) -> char {
    if d < 10 {
        digit_char(d)
    } else {
        ((d - 10 + 'a' as int) as u32) as char
    }
}

/// What `format!("{:02x}", b)` writes for a byte.
pub open spec fn hex_byte(b: u8) -> Seq<char> {
    seq![hex_char((b / 16) as int), hex_char((b % 16) as int)]
}

/// Each byte of `bytes` written as two lowercase hexadecimal digits, in order.
pub open spec fn hex_lower(bytes: Seq<u8>) -> Seq<char>
    decreases bytes.len(),
{
    if bytes.len() == 0 {
        Seq::empty()
    } else {
        hex_lower(bytes.drop_last()) + hex_byte(bytes.last())
    }
}

fn hex_digit(d: u8) -> (c: char)
    requires
        d < 16,
    ensures
        c == hex_char(d as int),
{
    if d < 10 {
        (d + 48u8) as char
    } else {
        (d + 87u8) as char
    }
}

/// Lowercase hexadecimal text for `bytes`, two digits per byte.
pub fn to_hex_lower(bytes: &[u8]) -> (r: String)
    ensures
        r@ == hex_lower(bytes@),
{
    let mut r = String::new();
    let mut i: usize = 0;
    while i < bytes.len()
        invariant
            i <= bytes@.len(),
            r@ == hex_lower(bytes@.subrange(0, i as int)),
        decreases bytes.len() - i,
    {
        let b = bytes[i];
        push_char(&mut r, hex_digit(b / 16));
        push_char(&mut r, hex_digit(b % 16));
        assert(bytes@.subrange(0, i + 1).drop_last() =~= bytes@.subrange(0, i as int));
        i = i + 1;
        assert(r@ =~= hex_lower(bytes@.subrange(0, i as int)));
    }
    assert(bytes@.subrange(0, bytes@.len() as int) =~= bytes@);
    r
}

proof fn lemma_digits_value_append_digit(s: Seq<char>, c: char)
    ensures
        digits_value(s.push(c)) == digits_value(s) * 10 + digit_value(c),
{
    assert(s.push(c).drop_last() =~= s);
}

/// The decimal digits of a number are digits, at least one, and read back as it.
pub proof fn lemma_dec_digits(n: nat)
    ensures
        dec_digits(n).len() >= 1,
        all_digits(dec_digits(n)),
        digits_value(dec_digits(n)) == n,
    decreases n,
{
    if n >= 10 {
        lemma_dec_digits(n / 10);
        let d = dec_digits(n / 10);
        let c = digit_char((n % 10) as int);
        assert(dec_digits(n) == d.push(c));
        lemma_digits_value_append_digit(d, c);
        assert(is_digit(c));
        assert(digit_value(c) == n % 10);
        assert forall|i: int| 0 <= i < d.push(c).len() implies is_digit(#[trigger] d.push(c)[i]) by {
            if i < d.len() {
                assert(d.push(c)[i] == d[i]);
            }
        }
    } else {
        let c = digit_char(n as int);
        assert(dec_digits(n) == seq![c]);
        assert(seq![c] =~= Seq::<char>::empty().push(c));
        lemma_digits_value_append_digit(Seq::<char>::empty(), c);
    }
}

/// Leading zeros do not change the value of digits.
pub proof fn lemma_leading_zeros(k: nat, s: Seq<char>)
    ensures
        digits_value(Seq::new(k, |i: int| '0') + s) == digits_value(s),
        all_digits(s) ==> all_digits(Seq::new(k, |i: int| '0') + s),
    decreases s.len(),
{
    let z = Seq::new(k, |i: int| '0');
    if s.len() == 0 {
        assert(z + s =~= z);
        lemma_zeros_value(k);
    } else {
        lemma_leading_zeros(k, s.drop_last());
        assert((z + s).drop_last() =~= z + s.drop_last());
        assert((z + s).last() == s.last());
        if all_digits(s) {
            assert(all_digits(s.drop_last()));
            assert forall|i: int| 0 <= i < (z + s).len() implies is_digit(#[trigger] (z + s)[i]) by {
                if i < k {
                    assert((z + s)[i] == '0');
                } else {
                    assert((z + s)[i] == s[i - k]);
                }
            }
        }
    }
}

proof fn lemma_zeros_value(k: nat)
    ensures
        digits_value(Seq::new(k, |i: int| '0')) == 0,
    decreases k,
{
    if k > 0 {
        lemma_zeros_value((k - 1) as nat);
        assert(Seq::new(k, |i: int| '0').drop_last() =~= Seq::new((k - 1) as nat, |i: int| '0'));
    }
}

/// The text that formatting a non-negative number gives is digits that read back as
/// the number, whatever the width.
pub proof fn lemma_fmt_nonneg(v: int, width: int)
    requires
        v >= 0,
    ensures
        fmt_int(v, width).len() >= 1,
        all_digits(fmt_int(v, width)),
        digits_value(fmt_int(v, width)) == v,
{
    lemma_dec_digits(v as nat);
    let d = dec_digits(v as nat);
    if d.len() < width {
        lemma_leading_zeros((width - d.len()) as nat, d);
    }
}

/// Formatting a number and parsing the text gives the number back.
pub proof fn law_format_parse_round_trip(v: int, width: int, signed: bool, lo: int, hi: int)
    requires
        0 <= v,
        lo <= v <= hi,
    ensures
        spec_parse_in(fmt_int(v, width), signed, lo, hi) == Some(v),
{
    lemma_fmt_nonneg(v, width);
    let t = fmt_int(v, width);
    assert(is_digit(t[0]));
}

/// Hexadecimal text has two characters per byte.
pub proof fn lemma_hex_lower_len(bytes: Seq<u8>)
    ensures
        hex_lower(bytes).len() == 2 * bytes.len(),
    decreases bytes.len(),
{
    if bytes.len() > 0 {
        lemma_hex_lower_len(bytes.drop_last());
    }
}

} // verus!
