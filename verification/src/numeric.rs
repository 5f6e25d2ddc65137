//! Reading and writing integers as decimal text, with the rules of Rust's integer parser.

use vstd::prelude::*;

verus! {

/// Why text could not be read as an integer (the kinds Rust's integer parser reports).
#[derive(Clone, Copy, Debug, PartialEq, Eq, Structural)]
pub enum IntErrorKind {
    Empty,
    InvalidDigit,
    PosOverflow,
    NegOverflow,
}

impl IntErrorKind {
    /// The message Rust's `ParseIntError` prints for this kind.
    pub open spec fn message_spec(self) -> Seq<char> {
        match self {
            IntErrorKind::Empty => "cannot parse integer from empty string"@,
            IntErrorKind::InvalidDigit => "invalid digit found in string"@,
            IntErrorKind::PosOverflow => "number too large to fit in target type"@,
            IntErrorKind::NegOverflow => "number too small to fit in target type"@,
        }
    }

    pub fn message(&self) -> (r: &'static str)
        ensures
            r@ == self.message_spec(),
    {
        match self {
            IntErrorKind::Empty => "cannot parse integer from empty string",
            IntErrorKind::InvalidDigit => "invalid digit found in string",
            IntErrorKind::PosOverflow => "number too large to fit in target type",
            IntErrorKind::NegOverflow => "number too small to fit in target type",
        }
    }
}

pub open spec fn is_digit(c: char) -> bool {
    '0' <= c && c <= '9'
}

pub open spec fn digit_value(c: char) -> int {
    (c as int) - ('0' as int)
}

/// Reads `s[i..]` left to right onto `acc`. Reading stops at the first character that is
/// not a digit, or at the first digit that takes the value out of `[lo, hi]`.
pub open spec fn scan_digits(s: Seq<char>, i: int, acc: int, negative: bool, lo: int, hi: int) -> Result<int, IntErrorKind>
    decreases s.len() - i,
{
    if i >= s.len() {
        Ok(acc)
    } else if !is_digit(s[i]) {
        Err(IntErrorKind::InvalidDigit)
    } else {
        let next = if negative { acc * 10 - digit_value(s[i]) } else { acc * 10 + digit_value(s[i]) };
        if next > hi {
            Err(IntErrorKind::PosOverflow)
        } else if next < lo {
            Err(IntErrorKind::NegOverflow)
        } else {
            scan_digits(s, i + 1, next, negative, lo, hi)
        }
    }
}

/// What Rust's `str::parse` gives for an integer type with range `[lo, hi]`: an optional
/// `+` (or `-` for a signed type) and then at least one ASCII digit.
pub open spec fn parse_int_spec(s: Seq<char>, signed: bool, lo: int, hi: int) -> Result<int, IntErrorKind> {
    if s.len() == 0 {
        Err(IntErrorKind::Empty)
    } else if s.len() == 1 && (s[0] == '+' || s[0] == '-') {
        Err(IntErrorKind::InvalidDigit)
    } else if s[0] == '+' {
        scan_digits(s, 1, 0, false, lo, hi)
    } else if s[0] == '-' && signed {
        scan_digits(s, 1, 0, true, lo, hi)
    } else {
        scan_digits(s, 0, 0, false, lo, hi)
    }
}

/// Reads `s` as an integer in `[lo, hi]`, exactly as `parse_int_spec` says.
pub fn parse_int(s: &str, signed: bool, lo: i64, hi: i64) -> (r: Result<i64, IntErrorKind>)
    requires
        -0x1_0000_0000 <= lo <= 0 <= hi <= 0x1_0000_0000,
    ensures
        match r {
            Ok(v) => parse_int_spec(s@, signed, lo as int, hi as int) == Ok::<int, IntErrorKind>(v as int),
            Err(e) => parse_int_spec(s@, signed, lo as int, hi as int) == Err::<int, IntErrorKind>(e),
        },
{
    let n = s.unicode_len();
    if n == 0 {
        return Err(IntErrorKind::Empty);
    }
    let c0 = s.get_char(0);
    if n == 1 && (c0 == '+' || c0 == '-') {
        return Err(IntErrorKind::InvalidDigit);
    }
    let mut negative = false;
    let mut i: usize = 0;
    if c0 == '+' {
        i = 1;
    } else if c0 == '-' && signed {
        i = 1;
        negative = true;
    }
    let ghost start = i as int;
    let mut acc: i64 = 0;
    while i < n
        invariant
            n == s@.len(),
            0 <= start <= i <= n,
            -0x1_0000_0000 <= lo <= 0 <= hi <= 0x1_0000_0000,
            lo <= acc <= hi,
            parse_int_spec(s@, signed, lo as int, hi as int) == scan_digits(s@, start, 0, negative, lo as int, hi as int),
            scan_digits(s@, start, 0, negative, lo as int, hi as int) == scan_digits(s@, i as int, acc as int, negative, lo as int, hi as int),
        decreases n - i,
    {
        let c = s.get_char(i);
        if !('0' <= c && c <= '9') {
            return Err(IntErrorKind::InvalidDigit);
        }
        let d = (c as u32 - '0' as u32) as i64;
        let next = if negative { acc * 10 - d } else { acc * 10 + d };
        if next > hi {
            return Err(IntErrorKind::PosOverflow);
        }
        if next < lo {
            return Err(IntErrorKind::NegOverflow);
        }
        acc = next;
        i = i + 1;
    }
    Ok(acc)
}


/// `parse_int_spec` for `u32`, with the value taken into the type.
pub open spec fn parse_u32_spec(s: Seq<char>) -> Result<u32, IntErrorKind> {
    match parse_int_spec(s, false, 0, u32::MAX as int) {
        Ok(v) => Ok(v as u32),
        Err(e) => Err(e),
    }
}

/// `parse_int_spec` for `u16`, with the value taken into the type.
pub open spec fn parse_u16_spec(s: Seq<char>) -> Result<u16, IntErrorKind> {
    match parse_int_spec(s, false, 0, u16::MAX as int) {
        Ok(v) => Ok(v as u16),
        Err(e) => Err(e),
    }
}

/// `parse_int_spec` for `i32`, with the value taken into the type.
pub open spec fn parse_i32_spec(s: Seq<char>) -> Result<i32, IntErrorKind> {
    match parse_int_spec(s, true, i32::MIN as int, i32::MAX as int) {
        Ok(v) => Ok(v as i32),
        Err(e) => Err(e),
    }
}

/// Reads `s` as a `u32` (what `s.parse::<u32>()` gives).
pub fn parse_u32(s: &str) -> (r: Result<u32, IntErrorKind>)
    ensures
        r == parse_u32_spec(s@),
{
    match parse_int(s, false, 0, 0xffff_ffff) {
        Ok(v) => Ok(v as u32),
        Err(e) => Err(e),
    }
}

/// Reads `s` as a `u16` (what `s.parse::<u16>()` gives).
pub fn parse_u16(s: &str) -> (r: Result<u16, IntErrorKind>)
    ensures
        r == parse_u16_spec(s@),
{
    match parse_int(s, false, 0, 0xffff) {
        Ok(v) => Ok(v as u16),
        Err(e) => Err(e),
    }
}

/// Reads `s` as an `i32` (what `s.parse::<i32>()` gives).
pub fn parse_i32(s: &str) -> (r: Result<i32, IntErrorKind>)
    ensures
        r == parse_i32_spec(s@),
{
    match parse_int(s, true, -0x8000_0000, 0x7fff_ffff) {
        Ok(v) => Ok(v as i32),
        Err(e) => Err(e),
    }
}

/// The character of a decimal digit `d` (0 to 9).
pub open spec fn digit_char(d: int) -> char {
    if d == 0 { '0' } else if d == 1 { '1' } else if d == 2 { '2' } else if d == 3 { '3' }
    else if d == 4 { '4' } else if d == 5 { '5' } else if d == 6 { '6' } else if d == 7 { '7' }
    else if d == 8 { '8' } else { '9' }
}

/// The decimal text of `n`, without sign or leading zeros (what `Display` prints).
pub open spec fn decimal(n: nat) -> Seq<char>
    decreases n,
{
    if n < 10 {
        seq![digit_char(n as int)]
    } else {
        decimal(n / 10).push(digit_char((n % 10) as int))
    }
}

fn digit_text(d: u32) -> (r: &'static str)
    requires
        d < 10,
    ensures
        r@ == seq![digit_char(d as int)],
{
    proof {
        reveal_strlit("0"); reveal_strlit("1"); reveal_strlit("2"); reveal_strlit("3");
        reveal_strlit("4"); reveal_strlit("5"); reveal_strlit("6"); reveal_strlit("7");
        reveal_strlit("8"); reveal_strlit("9");
    }
    if d == 0 { "0" } else if d == 1 { "1" } else if d == 2 { "2" } else if d == 3 { "3" }
    else if d == 4 { "4" } else if d == 5 { "5" } else if d == 6 { "6" } else if d == 7 { "7" }
    else if d == 8 { "8" } else { "9" }
}

/// Appends the decimal text of `n` to `out`.
pub fn push_decimal(out: &mut String, n: u32)
    ensures
        final(out)@ == old(out)@ + decimal(n as nat),
    decreases n,
{
    if n >= 10 {
        push_decimal(out, n / 10);
    }
    out.append(digit_text(n % 10));
    proof {
        if n >= 10 {
            assert(decimal(n as nat) == decimal((n / 10) as nat).push(digit_char((n % 10) as int)));
        }
    }
}

/// The decimal text of `n` (what `n.to_string()` gives).
pub fn decimal_string(n: u32) -> (r: String)
    ensures
        r@ == decimal(n as nat),
{
    let mut out = String::new();
    push_decimal(&mut out, n);
    out
}

/// The value of a string of decimal digits.
pub open spec fn digits_value(s: Seq<char>) -> int
    decreases s.len(),
{
    if s.len() == 0 {
        0
    } else {
        digits_value(s.drop_last()) * 10 + digit_value(s.last())
    }
}

pub open spec fn all_digits(s: Seq<char>) -> bool {
    forall|i: int| 0 <= i < s.len() ==> is_digit(#[trigger] s[i])
}

proof fn lemma_digit_char(d: int)
    requires
        0 <= d < 10,
    ensures
        is_digit(digit_char(d)),
        digit_value(digit_char(d)) == d,
{
}

/// The decimal text of `n` is a nonempty string of digits.
pub proof fn lemma_decimal_is_digits(n: nat)
    ensures
        decimal(n).len() >= 1,
        all_digits(decimal(n)),
{
    lemma_decimal_digits(n);
}

/// The decimal text of `n` is a nonempty string of digits worth `n`.
proof fn lemma_decimal_digits(n: nat)
    ensures
        decimal(n).len() >= 1,
        all_digits(decimal(n)),
        digits_value(decimal(n)) == n,
    decreases n,
{
    if n < 10 {
        lemma_digit_char(n as int);
        assert(decimal(n).drop_last() =~= Seq::<char>::empty());
        assert(digits_value(Seq::<char>::empty()) == 0);
        assert(digits_value(decimal(n)) == digits_value(decimal(n).drop_last()) * 10 + digit_value(decimal(n).last()));
    } else {
        lemma_decimal_digits(n / 10);
        lemma_digit_char((n % 10) as int);
        let d = decimal(n / 10);
        assert(decimal(n).drop_last() =~= d);
        assert(decimal(n).last() == digit_char((n % 10) as int));
        assert(digits_value(decimal(n)) == digits_value(d) * 10 + digit_value(decimal(n).last()));
        assert((n / 10) * 10 + n % 10 == n) by (nonlinear_arith);
        assert forall|i: int| 0 <= i < decimal(n).len() implies is_digit(#[trigger] decimal(n)[i]) by {
            if i < d.len() {
                assert(decimal(n)[i] == d[i]);
            }
        }
    }
}

/// Extending a digit string never lowers its value.
proof fn lemma_prefix_value_monotone(s: Seq<char>, i: int, j: int)
    requires
        all_digits(s),
        0 <= i <= j <= s.len(),
    ensures
        0 <= digits_value(s.take(i)) <= digits_value(s.take(j)),
    decreases j - i,
{
    lemma_value_nonneg(s.take(i));
    if i < j {
        lemma_prefix_value_monotone(s, i, j - 1);
        assert(s.take(j).drop_last() =~= s.take(j - 1));
        lemma_value_nonneg(s.take(j - 1));
        assert(is_digit(s[j - 1]));
    }
}

proof fn lemma_value_nonneg(s: Seq<char>)
    requires
        all_digits(s),
    ensures
        digits_value(s) >= 0,
    decreases s.len(),
{
    if s.len() > 0 {
        assert(all_digits(s.drop_last())) by {
            assert forall|k: int| 0 <= k < s.drop_last().len() implies is_digit(#[trigger] s.drop_last()[k]) by {
                assert(s.drop_last()[k] == s[k]);
            }
        }
        lemma_value_nonneg(s.drop_last());
        assert(is_digit(s[s.len() - 1]));
    }
}

/// Scanning a digit string whose value fits from position `i`, holding the value of the
/// first `i` digits, ends with the value of the whole string.
proof fn lemma_scan_digit_string(s: Seq<char>, i: int, lo: int, hi: int)
    requires
        all_digits(s),
        0 <= i <= s.len(),
        lo <= 0,
        digits_value(s) <= hi,
    ensures
        scan_digits(s, i, digits_value(s.take(i)), false, lo, hi) == Ok::<int, IntErrorKind>(digits_value(s)),
    decreases s.len() - i,
{
    if i == s.len() {
        assert(s.take(i) =~= s);
    } else {
        assert(s.take(i + 1).drop_last() =~= s.take(i));
        lemma_prefix_value_monotone(s, i + 1, s.len() as int);
        assert(s.take(s.len() as int) =~= s);
        lemma_prefix_value_monotone(s, i, i);
        assert(is_digit(s[i]));
        lemma_scan_digit_string(s, i + 1, lo, hi);
    }
}

/// The decimal text of `n` reads back as `n` in any integer type whose range holds `n`.
pub proof fn lemma_decimal_parses(n: nat, signed: bool, lo: int, hi: int)
    requires
        lo <= 0,
        n <= hi,
    ensures
        parse_int_spec(decimal(n), signed, lo, hi) == Ok::<int, IntErrorKind>(n as int),
{
    lemma_decimal_digits(n);
    let s = decimal(n);
    assert(is_digit(s[0]));
    assert(s.take(0) =~= Seq::<char>::empty());
    lemma_scan_digit_string(s, 0, lo, hi);
}

} // verus!
