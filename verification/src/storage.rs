//! Export formats and the WSL disk-size value, such as `20GB` or `1.25TB`.
//!
//! A disk size is whole gigabytes without leading zeros, or terabytes rounded
//! half up to two decimal places; the accepted spelling is canonicalised.
use vstd::prelude::*;

use crate::text::{
    all_ascii_digits, ascii_lower, ascii_lower_char, ascii_upper, ascii_upper_char, char_is_ascii_digit, decimal, decimal_chars,
    digit_char, digit_value, digits_value, is_ascii_digit, is_unicode_whitespace, string_of,
    sub_chars, to_ascii_upper_chars, trim, trim_chars, trim_end, trim_start, trimmed_chars,
};

verus! {

/// `wsl.exe --export` formats.
#[derive(Debug, Clone, Copy, PartialEq, Eq, Structural)]
pub enum ExportFormat {
    Tar,
    TarGz,
    TarXz,
    Vhd,
}

/// WSL disk-size string value object, such as `20GB` or `1.25TB`.
#[derive(Debug, Clone, PartialEq, Eq)]
pub struct DiskSize(String);

/// The input is not a disk size WSL accepts.
#[derive(Debug, Clone, Copy, PartialEq, Eq, Structural)]
pub struct DiskSizeParseError;

impl View for DiskSize {
    type V = Seq<char>;

    closed spec fn view(&self) -> Seq<char> {
        self.0@
    }
}

/// The sequence ends with the two given characters.
pub open spec fn ends_with_pair(s: Seq<char>, a: char, b: char) -> bool {
    s.len() >= 2 && s[s.len() - 2] == a && s[s.len() - 1] == b
}

/// A gigabyte count: digits without a leading zero.
pub open spec fn is_gb_number(raw: Seq<char>) -> bool {
    raw.len() > 0 && raw[0] != '0' && all_ascii_digits(raw)
}

/// The index of the first `.`, or `-1`.
pub open spec fn dot_index(s: Seq<char>) -> int
    decreases s.len(),
{
    if s.len() == 0 {
        -1
    } else if s[0] == '.' {
        0
    } else if dot_index(s.drop_first()) < 0 {
        -1
    } else {
        dot_index(s.drop_first()) + 1
    }
}

pub open spec fn u64_max() -> int {
    0xffff_ffff_ffff_ffff
}

/// A terabyte amount in hundredths, rounded half up at the third decimal place.
/// `None` when the text is no such amount or the value does not fit in a `u64`.
pub open spec fn tb_centi(raw: Seq<char>) -> Option<int> {
    let d = dot_index(raw);
    if d < 0 {
        if raw.len() > 0 && all_ascii_digits(raw) && digits_value(raw) * 100 <= u64_max() {
            Some(digits_value(raw) * 100)
        } else {
            None
        }
    } else {
        let whole = raw.take(d);
        let frac = raw.skip(d + 1);
        if whole.len() == 0 || frac.len() == 0 || !all_ascii_digits(whole) || !all_ascii_digits(
            frac,
        ) {
            None
        } else {
            let base = digits_value(whole) * 100 + digit_value(frac[0]) * 10 + (if frac.len() > 1 {
                digit_value(frac[1])
            } else {
                0
            });
            let rounded = if frac.len() > 2 && digit_value(frac[2]) >= 5 {
                base + 1
            } else {
                base
            };
            if rounded <= u64_max() {
                Some(rounded)
            } else {
                None
            }
        }
    }
}

/// The number part of the canonical text of a terabyte amount given in hundredths:
/// the whole terabytes, then the hundredths without trailing zeros.
pub open spec fn tb_number(centi: nat) -> Seq<char> {
    let whole = centi / 100;
    let fraction = centi % 100;
    if fraction == 0 {
        decimal(whole)
    } else if fraction % 10 == 0 {
        decimal(whole) + seq!['.', digit_char((fraction / 10) as int)]
    } else {
        decimal(whole) + seq!['.', digit_char((fraction / 10) as int), digit_char((fraction % 10) as int)]
    }
}

/// The canonical text of a terabyte amount given in hundredths.
pub open spec fn tb_text(centi: nat) -> Seq<char> {
    tb_number(centi) + seq!['T', 'B']
}

/// The canonical text of a disk size, or `None` when the input is no disk size.
pub open spec fn disk_size_text(value: Seq<char>) -> Option<Seq<char>> {
    let t = trim(value);
    let n = ascii_upper(t);
    if t.len() == 0 {
        None
    } else if ends_with_pair(n, 'G', 'B') {
        let raw = trim(n.take(n.len() - 2));
        if is_gb_number(raw) {
            Some(raw + seq!['G', 'B'])
        } else {
            None
        }
    } else if ends_with_pair(n, 'T', 'B') {
        let raw = trim(n.take(n.len() - 2));
        match tb_centi(raw) {
            Some(c) => if c != 0 {
                Some(tb_text(c as nat))
            } else {
                None
            },
            None => None,
        }
    } else {
        None
    }
}

impl DiskSize {
    /// Parses and canonicalises a disk size (see the module documentation).
    pub fn parse(value: &str) -> (r: Result<DiskSize, DiskSizeParseError>)
        ensures
            match r {
                Ok(d) => disk_size_text(value@) == Some(d@),
                Err(_) => disk_size_text(value@) is None,
            },
    {
        let t = trimmed_chars(value);
        if t.len() == 0 {
            return Err(DiskSizeParseError);
        }
        let n = to_ascii_upper_chars(&t);
        let len: usize = n.len();
        if len >= 2 && n[len - 2] == 'G' && n[len - 1] == 'B' {
            let raw = trim_chars(&sub_chars(&n, 0, len - 2));
            assert(n@.subrange(0, len - 2) =~= n@.take(len - 2));
            return match parse_gb(&raw) {
                Ok(s) => Ok(DiskSize(s)),
                Err(e) => Err(e),
            };
        }
        if len >= 2 && n[len - 2] == 'T' && n[len - 1] == 'B' {
            let raw = trim_chars(&sub_chars(&n, 0, len - 2));
            assert(n@.subrange(0, len - 2) =~= n@.take(len - 2));
            return match parse_tb(&raw) {
                Ok(s) => Ok(DiskSize(s)),
                Err(e) => Err(e),
            };
        }
        Err(DiskSizeParseError)
    }

    /// The canonical text of the disk size.
    pub fn as_str(&self) -> (s: &str)
        ensures
            s@ == self@,
    {
        self.0.as_str()
    }

    /// A copy of the disk size.
    pub fn duplicate(&self) -> (r: DiskSize)
        ensures
            r@ == self@,
    {
        DiskSize(self.0.clone())
    }
}

impl DiskSizeParseError {
    /// The message of the error.
    pub fn message(&self) -> (s: String)
        ensures
            s@ == "invalid WSL disk size"@,
    {
        crate::text::string_from("invalid WSL disk size")
    }
}

impl core::str::FromStr for DiskSize {
    type Err = DiskSizeParseError;

    fn from_str(value: &str) -> (r: Result<DiskSize, DiskSizeParseError>)
        ensures
            match r {
                Ok(d) => disk_size_text(value@) == Some(d@),
                Err(_) => disk_size_text(value@) is None,
            },
    {
        DiskSize::parse(value)
    }
}

/// A whole number of gigabytes.
pub fn parse_gb(raw_number: &Vec<char>) -> (r: Result<String, DiskSizeParseError>)
    ensures
        match r {
            Ok(s) => is_gb_number(raw_number@) && s@ == raw_number@ + seq!['G', 'B'],
            Err(_) => !is_gb_number(raw_number@),
        },
{
    if raw_number.len() == 0 || raw_number[0] == '0' || !all_digits(raw_number) {
        return Err(DiskSizeParseError);
    }
    let mut v = raw_number.clone();
    v.push('G');
    v.push('B');
    assert(v@ =~= raw_number@ + seq!['G', 'B']);
    Ok(string_of(&v))
}

/// A terabyte amount, canonicalised; zero is refused.
pub fn parse_tb(raw_number: &Vec<char>) -> (r: Result<String, DiskSizeParseError>)
    ensures
        match r {
            Ok(s) => match tb_centi(raw_number@) {
                Some(c) => c != 0 && s@ == tb_text(c as nat),
                None => false,
            },
            Err(_) => match tb_centi(raw_number@) {
                Some(c) => c == 0,
                None => true,
            },
        },
{
    let centi_tb = parse_tb_centi(raw_number)?;
    if centi_tb == 0 {
        return Err(DiskSizeParseError);
    }
    Ok(format_tb(centi_tb))
}

/// Whether every character is an ASCII digit.
pub fn all_digits(s: &Vec<char>) -> (b: bool)
    ensures
        b == all_ascii_digits(s@),
{
    let mut i: usize = 0;
    while i < s.len()
        invariant
            i <= s.len(),
            forall|k: int| 0 <= k < i ==> is_ascii_digit(#[trigger] s@[k]),
        decreases s.len() - i,
    {
        if !char_is_ascii_digit(s[i]) {
            return false;
        }
        i += 1;
    }
    true
}

proof fn lemma_digits_value_nonneg(s: Seq<char>)
    requires
        all_ascii_digits(s),
    ensures
        digits_value(s) >= 0,
    decreases s.len(),
{
    if s.len() > 0 {
        lemma_digits_value_nonneg(s.drop_last());
    }
}

proof fn lemma_digits_value_prefix_le(s: Seq<char>, k: int)
    requires
        all_ascii_digits(s),
        0 <= k <= s.len(),
    ensures
        digits_value(s.take(k)) <= digits_value(s),
    decreases s.len() - k,
{
    if k < s.len() {
        lemma_digits_value_prefix_le(s, k + 1);
        assert(s.take(k + 1).drop_last() =~= s.take(k));
        lemma_digits_value_nonneg(s.take(k));
    } else {
        assert(s.take(k) =~= s);
    }
}

/// The value of a non-empty string of digits that fits in a `u64`.
pub fn parse_unsigned(value: &Vec<char>) -> (r: Result<u64, DiskSizeParseError>)
    ensures
        match r {
            Ok(v) => value@.len() > 0 && all_ascii_digits(value@) && digits_value(value@) <= u64_max()
                && v == digits_value(value@),
            Err(_) => !(value@.len() > 0 && all_ascii_digits(value@) && digits_value(value@)
                <= u64_max()),
        },
{
    if value.len() == 0 || !all_digits(value) {
        return Err(DiskSizeParseError);
    }
    let mut acc: u64 = 0;
    let mut i: usize = 0;
    assert(value@.take(0) =~= Seq::<char>::empty());
    while i < value.len()
        invariant
            i <= value.len(),
            all_ascii_digits(value@),
            acc == digits_value(value@.take(i as int)),
        decreases value.len() - i,
    {
        let d: u64 = (value[i] as u32 - 48) as u64;
        assert(value@.take(i + 1).drop_last() =~= value@.take(i as int));
        let next: u128 = acc as u128 * 10 + d as u128;
        if next > 0xffff_ffff_ffff_ffffu128 {
            proof {
                lemma_digits_value_prefix_le(value@, i + 1);
            }
            return Err(DiskSizeParseError);
        }
        acc = next as u64;
        i += 1;
    }
    assert(value@.take(value.len() as int) =~= value@);
    Ok(acc)
}

proof fn lemma_dot_index_bounds(s: Seq<char>)
    ensures
        -1 <= dot_index(s) < s.len(),
        dot_index(s) >= 0 ==> s[dot_index(s)] == '.',
        forall|k: int| 0 <= k < (if dot_index(s) < 0 { s.len() as int } else { dot_index(s) }) ==> s[k] != '.',
    decreases s.len(),
{
    if s.len() > 0 && s[0] != '.' {
        lemma_dot_index_bounds(s.drop_first());
        let d = dot_index(s.drop_first());
        assert forall|k: int| 0 <= k < (if dot_index(s) < 0 { s.len() as int } else { dot_index(s) }) implies s[k] != '.' by {
            if k > 0 {
                assert(s[k] == s.drop_first()[k - 1]);
            }
        }
    }
}

proof fn lemma_dot_index_of_scan(s: Seq<char>, i: int)
    requires
        0 <= i <= s.len(),
        forall|k: int| 0 <= k < i ==> s[k] != '.',
        i == s.len() || s[i] == '.',
    ensures
        dot_index(s) == (if i == s.len() { -1 } else { i }),
    decreases s.len(),
{
    if s.len() > 0 && s[0] != '.' {
        lemma_dot_index_of_scan(s.drop_first(), i - 1);
    }
}

/// A terabyte amount in hundredths, rounded half up at the third decimal place.
pub fn parse_tb_centi(raw_number: &Vec<char>) -> (r: Result<u64, DiskSizeParseError>)
    ensures
        match r {
            Ok(v) => tb_centi(raw_number@) == Some(v as int),
            Err(_) => tb_centi(raw_number@) is None,
        },
{
    let len: usize = raw_number.len();
    let mut d: usize = 0;
    while d < len && raw_number[d] != '.'
        invariant
            d <= len == raw_number.len(),
            forall|k: int| 0 <= k < d ==> raw_number@[k] != '.',
        decreases len - d,
    {
        d += 1;
    }
    proof {
        lemma_dot_index_of_scan(raw_number@, d as int);
    }
    if d == len {
        let value = parse_unsigned(raw_number)?;
        let scaled: u128 = value as u128 * 100;
        if scaled > 0xffff_ffff_ffff_ffffu128 {
            return Err(DiskSizeParseError);
        }
        return Ok(scaled as u64);
    }
    let whole = sub_chars(raw_number, 0, d);
    let fraction = sub_chars(raw_number, d + 1, len);
    assert(whole@ =~= raw_number@.take(d as int));
    assert(fraction@ =~= raw_number@.skip(d + 1));
    if whole.len() == 0 || fraction.len() == 0 || contains_dot(&fraction) {
        proof {
            if whole.len() > 0 && fraction.len() > 0 {
                let k = choose|k: int| 0 <= k < fraction@.len() && fraction@[k] == '.';
                assert(!is_ascii_digit(fraction@[k]));
            }
        }
        return Err(DiskSizeParseError);
    }
    let whole_value = parse_unsigned(&whole)?;
    if !char_is_ascii_digit(fraction[0]) {
        assert(!is_ascii_digit(fraction@[0]));
        return Err(DiskSizeParseError);
    }
    let first: u64 = (fraction[0] as u32 - 48) as u64;
    let second: u64 = if fraction.len() > 1 {
        if !char_is_ascii_digit(fraction[1]) {
            assert(!is_ascii_digit(fraction@[1]));
            return Err(DiskSizeParseError);
        }
        (fraction[1] as u32 - 48) as u64
    } else {
        0
    };
    let third: u64 = if fraction.len() > 2 {
        if !char_is_ascii_digit(fraction[2]) {
            assert(!is_ascii_digit(fraction@[2]));
            return Err(DiskSizeParseError);
        }
        (fraction[2] as u32 - 48) as u64
    } else {
        0
    };
    if !all_digits(&fraction) {
        return Err(DiskSizeParseError);
    }
    let base: u128 = whole_value as u128 * 100 + (first * 10 + second) as u128;
    if base > 0xffff_ffff_ffff_ffffu128 {
        return Err(DiskSizeParseError);
    }
    if third >= 5 {
        if base + 1 > 0xffff_ffff_ffff_ffffu128 {
            return Err(DiskSizeParseError);
        }
        Ok((base + 1) as u64)
    } else {
        Ok(base as u64)
    }
}

/// Whether some character is `.`.
pub fn contains_dot(s: &Vec<char>) -> (b: bool)
    ensures
        b == (exists|k: int| 0 <= k < s@.len() && s@[k] == '.'),
{
    let mut i: usize = 0;
    while i < s.len()
        invariant
            i <= s.len(),
            forall|k: int| 0 <= k < i ==> s@[k] != '.',
        decreases s.len() - i,
    {
        if s[i] == '.' {
            return true;
        }
        i += 1;
    }
    false
}

/// The canonical text of a terabyte amount given in hundredths.
pub fn format_tb(centi_tb: u64) -> (s: String)
    ensures
        s@ == tb_text(centi_tb as nat),
{
    let whole = centi_tb / 100;
    let fraction = centi_tb % 100;
    let mut v = decimal_chars(whole);
    if fraction == 0 {
    } else if fraction % 10 == 0 {
        v.push('.');
        v.push(crate::text::digit_to_char(fraction / 10));
    } else {
        v.push('.');
        v.push(crate::text::digit_to_char(fraction / 10));
        v.push(crate::text::digit_to_char(fraction % 10));
    }
    v.push('T');
    v.push('B');
    assert(v@ =~= tb_text(centi_tb as nat));
    string_of(&v)
}

// ---------------------------------------------------------------------------
// The canonical text is a fixed point of parsing
// ---------------------------------------------------------------------------
proof fn lemma_decimal_digits(n: nat)
    ensures
        decimal(n).len() > 0,
        all_ascii_digits(decimal(n)),
        digits_value(decimal(n)) == n,
        n > 0 ==> decimal(n)[0] != '0',
    decreases n,
{
    if n >= 10 {
        lemma_decimal_digits(n / 10);
        let d = decimal(n / 10);
        assert(decimal(n).drop_last() =~= d);
        assert(decimal(n).last() == digit_char((n % 10) as int));
        assert(digit_value(digit_char((n % 10) as int)) == n % 10);
        assert(decimal(n)[0] == d[0]);
        assert(digits_value(decimal(n)) == digits_value(d) * 10 + digit_value(decimal(n).last()));
        assert(digits_value(decimal(n)) == (n / 10) * 10 + n % 10);
    } else {
        assert(digit_value(digit_char(n as int)) == n);
        assert(decimal(n).drop_last() =~= Seq::<char>::empty());
        assert(digits_value(Seq::<char>::empty()) == 0);
        assert(digits_value(decimal(n)) == digits_value(decimal(n).drop_last()) * 10 + digit_value(
            decimal(n).last(),
        ));
    }
}

proof fn lemma_trim_of_clean(s: Seq<char>)
    requires
        s.len() > 0,
        !is_unicode_whitespace(s[0]),
        !is_unicode_whitespace(s.last()),
    ensures
        trim(s) == s,
{
}

/// Text made of digits, `.`, and upper-case letters is clean: trimming and
/// upper-casing leave it unchanged.
pub open spec fn is_canonical_char(c: char) -> bool {
    is_ascii_digit(c) || c == '.' || c == 'G' || c == 'T' || c == 'B'
}

proof fn lemma_clean_text(s: Seq<char>)
    requires
        s.len() > 0,
        forall|k: int| 0 <= k < s.len() ==> is_canonical_char(#[trigger] s[k]),
    ensures
        trim(s) == s,
        ascii_upper(s) == s,
{
    assert(is_canonical_char(s[0]));
    assert(is_canonical_char(s[s.len() - 1]));
    lemma_trim_of_clean(s);
    assert(ascii_upper(s) =~= s);
}

proof fn lemma_dot_index_concat(a: Seq<char>, b: Seq<char>)
    requires
        all_ascii_digits(a),
    ensures
        dot_index(a + seq!['.'] + b) == a.len(),
{
    let s = a + seq!['.'] + b;
    assert forall|k: int| 0 <= k < a.len() implies s[k] != '.' by {
        assert(s[k] == a[k]);
        assert(is_ascii_digit(a[k]));
    }
    lemma_dot_index_of_scan(s, a.len() as int);
}

proof fn lemma_dot_index_digits(a: Seq<char>)
    requires
        all_ascii_digits(a),
    ensures
        dot_index(a) == -1,
{
    assert forall|k: int| 0 <= k < a.len() implies a[k] != '.' by {
        assert(is_ascii_digit(a[k]));
    }
    lemma_dot_index_of_scan(a, a.len() as int);
}

proof fn lemma_digit_char_value(d: int)
    requires
        0 <= d < 10,
    ensures
        is_ascii_digit(digit_char(d)),
        digit_value(digit_char(d)) == d,
{
}

/// The number part of a canonical terabyte text reads back as the same amount.
proof fn lemma_tb_number_reads_back(c: nat)
    requires
        c <= u64_max(),
    ensures
        tb_number(c).len() > 0,
        forall|k: int| 0 <= k < tb_number(c).len() ==> is_canonical_char(#[trigger] tb_number(c)[k]),
        tb_centi(tb_number(c)) == Some(c as int),
{
    let w = c / 100;
    let f = c % 100;
    lemma_decimal_digits(w);
    let dw = decimal(w);
    let body = tb_number(c);
    assert forall|k: int| 0 <= k < dw.len() implies is_canonical_char(#[trigger] dw[k]) by {
        assert(is_ascii_digit(dw[k]));
    }
    if f == 0 {
        lemma_dot_index_digits(dw);
        assert(body == dw);
    } else if f % 10 == 0 {
        let df = seq![digit_char((f / 10) as int)];
        lemma_digit_char_value((f / 10) as int);
        lemma_dot_index_concat(dw, df);
        assert(body =~= dw + seq!['.'] + df);
        assert(body.take(dw.len() as int) =~= dw);
        assert(body.skip(dw.len() as int + 1) =~= df);
        assert(all_ascii_digits(df));
        assert forall|k: int| 0 <= k < body.len() implies is_canonical_char(#[trigger] body[k]) by {
            if k < dw.len() {
                assert(body[k] == dw[k]);
            }
        }
    } else {
        let df = seq![digit_char((f / 10) as int), digit_char((f % 10) as int)];
        lemma_digit_char_value((f / 10) as int);
        lemma_digit_char_value((f % 10) as int);
        lemma_dot_index_concat(dw, df);
        assert(body =~= dw + seq!['.'] + df);
        assert(body.take(dw.len() as int) =~= dw);
        assert(body.skip(dw.len() as int + 1) =~= df);
        assert(all_ascii_digits(df));
        assert forall|k: int| 0 <= k < body.len() implies is_canonical_char(#[trigger] body[k]) by {
            if k < dw.len() {
                assert(body[k] == dw[k]);
            }
        }
    }
}

proof fn lemma_tb_centi_range(raw: Seq<char>)
    requires
        tb_centi(raw) is Some,
    ensures
        0 <= tb_centi(raw)->0 <= u64_max(),
{
    let d = dot_index(raw);
    if d < 0 {
        lemma_digits_value_nonneg(raw);
    } else {
        lemma_digits_value_nonneg(raw.take(d));
        let frac = raw.skip(d + 1);
        assert(is_ascii_digit(frac[0]));
        if frac.len() > 1 {
            assert(is_ascii_digit(frac[1]));
        }
    }
}

proof fn lemma_tb_canonical(c: nat)
    requires
        0 < c <= u64_max(),
    ensures
        disk_size_text(tb_text(c)) == Some(tb_text(c)),
{
    let t = tb_text(c);
    let body = tb_number(c);
    lemma_tb_number_reads_back(c);
    assert forall|k: int| 0 <= k < t.len() implies is_canonical_char(#[trigger] t[k]) by {
        if k < body.len() {
            assert(t[k] == body[k]);
        }
    }
    lemma_clean_text(t);
    lemma_clean_text(body);
    assert(t.take(t.len() - 2) =~= body);
}

proof fn lemma_gb_canonical(raw: Seq<char>)
    requires
        is_gb_number(raw),
    ensures
        disk_size_text(raw + seq!['G', 'B']) == Some(raw + seq!['G', 'B']),
{
    let t = raw + seq!['G', 'B'];
    assert forall|k: int| 0 <= k < t.len() implies is_canonical_char(#[trigger] t[k]) by {
        if k < raw.len() {
            assert(t[k] == raw[k]);
            assert(is_ascii_digit(raw[k]));
        }
    }
    lemma_clean_text(t);
    assert forall|k: int| 0 <= k < raw.len() implies is_canonical_char(#[trigger] raw[k]) by {
        assert(is_ascii_digit(raw[k]));
    }
    lemma_clean_text(raw);
    assert(t.take(t.len() - 2) =~= raw);
}

proof fn lemma_upper_of_lower_canonical_char(c: char)
    requires
        is_canonical_char(c),
    ensures
        !is_unicode_whitespace(ascii_lower_char(c)),
        ascii_upper_char(ascii_lower_char(c)) == c,
{
    if c == 'G' {
        assert(ascii_lower_char(c) == 'g');
        assert(ascii_upper_char('g') == 'G');
    } else if c == 'T' {
        assert(ascii_lower_char(c) == 't');
        assert(ascii_upper_char('t') == 'T');
    } else if c == 'B' {
        assert(ascii_lower_char(c) == 'b');
        assert(ascii_upper_char('b') == 'B');
    }
}

/// Lower-casing clean text changes nothing the parser reads: the text stays
/// trimmed and upper-cases back to itself.
proof fn lemma_lower_clean_text(s: Seq<char>)
    requires
        s.len() > 0,
        forall|k: int| 0 <= k < s.len() ==> is_canonical_char(#[trigger] s[k]),
    ensures
        trim(ascii_lower(s)) == ascii_lower(s),
        ascii_upper(ascii_lower(s)) == s,
{
    let l = ascii_lower(s);
    assert forall|k: int| 0 <= k < s.len() implies #[trigger] ascii_upper(l)[k] == s[k] by {
        lemma_upper_of_lower_canonical_char(s[k]);
    }
    assert(ascii_upper(l) =~= s);
    lemma_upper_of_lower_canonical_char(s[0]);
    lemma_upper_of_lower_canonical_char(s[s.len() - 1]);
    assert(l[0] == ascii_lower_char(s[0]));
    assert(l.last() == ascii_lower_char(s[s.len() - 1]));
    lemma_trim_of_clean(l);
}

/// The characters of a canonical disk-size text are digits, `.`, and the
/// upper-case unit letters.
proof fn lemma_disk_size_text_chars(value: Seq<char>)
    requires
        disk_size_text(value) is Some,
    ensures
        disk_size_text(value)->0.len() > 0,
        forall|k: int|
            0 <= k < disk_size_text(value)->0.len() ==> is_canonical_char(#[trigger] disk_size_text(value)->0[k]),
{
    let n0 = ascii_upper(trim(value));
    let raw = trim(n0.take(n0.len() - 2));
    let t = disk_size_text(value)->0;
    if ends_with_pair(n0, 'G', 'B') {
        assert(t == raw + seq!['G', 'B']);
        assert forall|k: int| 0 <= k < t.len() implies is_canonical_char(#[trigger] t[k]) by {
            if k < raw.len() {
                assert(t[k] == raw[k]);
                assert(is_ascii_digit(raw[k]));
            }
        }
    } else {
        let c = tb_centi(raw)->0;
        lemma_tb_centi_range(raw);
        lemma_tb_number_reads_back(c as nat);
        let body = tb_number(c as nat);
        assert(t == body + seq!['T', 'B']);
        assert forall|k: int| 0 <= k < t.len() implies is_canonical_char(#[trigger] t[k]) by {
            if k < body.len() {
                assert(t[k] == body[k]);
            }
        }
    }
}

/// The canonical text of a disk size is a fixed point of parsing: the text
/// parses to itself, and so does its lower-case form.
pub proof fn lemma_disk_size_canonical(value: Seq<char>)
    requires
        disk_size_text(value) is Some,
    ensures
        disk_size_text(disk_size_text(value)->0) == disk_size_text(value),
        disk_size_text(ascii_lower(disk_size_text(value)->0)) == disk_size_text(value),
{
    let n0 = ascii_upper(trim(value));
    let raw = trim(n0.take(n0.len() - 2));
    if ends_with_pair(n0, 'G', 'B') {
        lemma_gb_canonical(raw);
    } else {
        let c = tb_centi(raw)->0;
        lemma_tb_centi_range(raw);
        lemma_tb_canonical(c as nat);
    }
    let t = disk_size_text(value)->0;
    lemma_disk_size_text_chars(value);
    lemma_clean_text(t);
    lemma_lower_clean_text(t);
    assert(ascii_lower(t).len() == t.len());
}

/// A terabyte amount is counted in hundredths: a whole number exactly, and an
/// amount with decimals rounded half up from its first three decimals (later
/// decimals are ignored), so the thousandths it names lie within half a
/// hundredth of the result.
pub proof fn lemma_tb_amount_rounding(whole: Seq<char>, fraction: Seq<char>)
    requires
        whole.len() > 0,
        all_ascii_digits(whole),
    ensures
        tb_centi(whole) is Some ==> tb_centi(whole)->0 == digits_value(whole) * 100,
        fraction.len() > 0 && all_ascii_digits(fraction) && tb_centi(whole + seq!['.'] + fraction) is Some ==> {
            let c = tb_centi(whole + seq!['.'] + fraction)->0;
            let x = digits_value(whole) * 1000 + digit_value(fraction[0]) * 100 + (if fraction.len() > 1 {
                digit_value(fraction[1]) * 10
            } else {
                0
            }) + (if fraction.len() > 2 {
                digit_value(fraction[2])
            } else {
                0
            });
            10 * c - 5 <= x < 10 * c + 5
        },
{
    lemma_dot_index_digits(whole);
    if fraction.len() > 0 && all_ascii_digits(fraction) {
        let s = whole + seq!['.'] + fraction;
        lemma_dot_index_concat(whole, fraction);
        assert(s.take(whole.len() as int) =~= whole);
        assert(s.skip(whole.len() as int + 1) =~= fraction);
        assert(is_ascii_digit(fraction[0]));
        if fraction.len() > 1 {
            assert(is_ascii_digit(fraction[1]));
        }
        if fraction.len() > 2 {
            assert(is_ascii_digit(fraction[2]));
        }
    }
}

/// A gigabyte size is a whole number without a leading zero, kept as written:
/// `<digits>GB` parses to itself, while an empty number, or digits with a leading
/// `0`, are refused.
pub proof fn lemma_gb_amounts(raw: Seq<char>)
    ensures
        raw.len() > 0 && raw[0] != '0' && all_ascii_digits(raw) ==> disk_size_text(raw + seq!['G', 'B']) == Some(
            raw + seq!['G', 'B'],
        ),
        raw.len() == 0 || (raw[0] == '0' && all_ascii_digits(raw)) ==> disk_size_text(raw + seq!['G', 'B']) is None,
{
    let t = raw + seq!['G', 'B'];
    if raw.len() > 0 && raw[0] != '0' && all_ascii_digits(raw) {
        lemma_gb_canonical(raw);
    }
    if raw.len() == 0 {
        assert(t =~= seq!['G', 'B']);
        assert(trim(t) == t) by {
            lemma_clean_text(t);
        }
        assert(ascii_upper(t) == t) by {
            lemma_clean_text(t);
        }
        assert(t.take(0) =~= Seq::<char>::empty());
    } else if raw[0] == '0' && all_ascii_digits(raw) {
        assert forall|k: int| 0 <= k < t.len() implies is_canonical_char(#[trigger] t[k]) by {
            if k < raw.len() {
                assert(t[k] == raw[k]);
                assert(is_ascii_digit(raw[k]));
            }
        }
        lemma_clean_text(t);
        assert forall|k: int| 0 <= k < raw.len() implies is_canonical_char(#[trigger] raw[k]) by {
            assert(is_ascii_digit(raw[k]));
        }
        lemma_clean_text(raw);
        assert(t.take(t.len() - 2) =~= raw);
    }
}

/// Digits without a redundant leading zero (`0` itself is allowed).
pub open spec fn is_plain_number(s: Seq<char>) -> bool {
    s.len() > 0 && all_ascii_digits(s) && (s.len() == 1 || s[0] != '0')
}

/// The number of a canonical terabyte amount: a positive plain number, or a plain
/// number, a `.`, and one or two fraction digits of which the last is not zero.
pub open spec fn is_canonical_tb_number(s: Seq<char>) -> bool {
    ||| (is_plain_number(s) && s != seq!['0'])
    ||| exists|w: Seq<char>, f: Seq<char>|
        #![trigger w + seq!['.'] + f]
        s == w + seq!['.'] + f && is_plain_number(w) && 1 <= f.len() <= 2 && all_ascii_digits(f) && f.last()
            != '0'
}

/// The shape of a canonical disk size: a positive whole number of gigabytes
/// without a leading zero followed by `GB`, or a canonical positive terabyte
/// amount followed by `TB`.
pub open spec fn is_canonical_disk_size(c: Seq<char>) -> bool {
    ||| (ends_with_pair(c, 'G', 'B') && is_gb_number(c.take(c.len() - 2)))
    ||| (ends_with_pair(c, 'T', 'B') && is_canonical_tb_number(c.take(c.len() - 2)))
}

proof fn lemma_decimal_plain(n: nat)
    ensures
        is_plain_number(decimal(n)),
        decimal(n) == seq!['0'] ==> n == 0,
{
    lemma_decimal_digits(n);
    if n < 10 {
        assert(decimal(n).len() == 1);
        if decimal(n) == seq!['0'] {
            assert(digit_value(decimal(n)[0]) == n);
        }
    } else {
        assert(decimal(n).len() > 1) by {
            reveal_with_fuel(decimal, 2);
        }
    }
}

/// The canonical text of every disk size has the canonical shape: an upper-case
/// unit, no whitespace, no leading zeros, no trailing fractional zeros, and a
/// positive amount.
pub proof fn lemma_disk_size_text_shape(value: Seq<char>)
    requires
        disk_size_text(value) is Some,
    ensures
        is_canonical_disk_size(disk_size_text(value)->0),
{
    let n0 = ascii_upper(trim(value));
    let raw = trim(n0.take(n0.len() - 2));
    let t = disk_size_text(value)->0;
    if ends_with_pair(n0, 'G', 'B') {
        assert(t.take(t.len() - 2) =~= raw);
    } else {
        let c = tb_centi(raw)->0;
        lemma_tb_centi_range(raw);
        let cn = c as nat;
        let body = tb_number(cn);
        assert(t == body + seq!['T', 'B']);
        assert(t.take(t.len() - 2) =~= body);
        let w = cn / 100;
        let f = cn % 100;
        lemma_decimal_plain(w);
        let dw = decimal(w);
        if f == 0 {
            assert(body == dw);
            assert(w > 0);
        } else if f % 10 == 0 {
            let df = seq![digit_char((f / 10) as int)];
            lemma_digit_char_value((f / 10) as int);
            assert(body == dw + seq!['.'] + df);
            assert(f / 10 != 0);
            assert(df.last() != '0');
            assert(all_ascii_digits(df));
        } else {
            let df = seq![digit_char((f / 10) as int), digit_char((f % 10) as int)];
            lemma_digit_char_value((f / 10) as int);
            lemma_digit_char_value((f % 10) as int);
            assert(body == dw + seq!['.'] + df);
            assert(df.last() == digit_char((f % 10) as int));
            assert(df.last() != '0');
            assert(all_ascii_digits(df));
        }
    }
}

} // verus!
