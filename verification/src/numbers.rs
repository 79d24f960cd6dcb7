//! Integers written as text, and read from it.

use crate::text::{chars_of, digit, is_digit};
use vstd::prelude::*;

verus! {

/// Why a text is no integer of the type that is asked for.
#[derive(Debug, Clone, Copy, PartialEq, Eq, Structural)]
pub enum IntError {
    Empty,
    InvalidDigit,
    PosOverflow,
    NegOverflow,
}

impl IntError {
    pub open spec fn text(&self) -> Seq<char> {
        match self {
            IntError::Empty => "cannot parse integer from empty string"@,
            IntError::InvalidDigit => "invalid digit found in string"@,
            IntError::PosOverflow => "number too large to fit in target type"@,
            IntError::NegOverflow => "number too small to fit in target type"@,
        }
    }

    pub fn message(&self) -> (r: &'static str)
        ensures
            r@ == self.text(),
    {
        match self {
            IntError::Empty => "cannot parse integer from empty string",
            IntError::InvalidDigit => "invalid digit found in string",
            IntError::PosOverflow => "number too large to fit in target type",
            IntError::NegOverflow => "number too small to fit in target type",
        }
    }
}

pub open spec fn digit_char(d: nat) -> char {
    (48 + d) as char
}

pub open spec fn hex_char(d: nat) -> char {
    if d < 10 {
        (48 + d) as char
    } else {
        (87 + d) as char
    }
}

/// A natural number in decimal notation.
pub open spec fn decimal(n: nat) -> Seq<char>
    decreases n,
{
    if n < 10 {
        seq![digit_char(n)]
    } else {
        decimal(n / 10).push(digit_char(n % 10))
    }
}

/// An integer in decimal notation, with a sign where it is negative.
pub open spec fn decimal_int(n: int) -> Seq<char> {
    if n < 0 {
        "-"@ + decimal((-n) as nat)
    } else {
        decimal(n as nat)
    }
}

/// The lowest `width` hexadecimal digits of a number, leading zeros included.
pub open spec fn hex_digits(n: nat, width: nat) -> Seq<char>
    decreases width,
{
    if width == 0 {
        Seq::<char>::empty()
    } else {
        hex_digits(n / 16, (width - 1) as nat).push(hex_char(n % 16))
    }
}

/// The number that a text of digits stands for, read from the left: the first
/// character that is no digit, or that takes the number over `max`, decides the error.
pub open spec fn scanned(s: Seq<char>, max: nat) -> Result<nat, IntError>
    decreases s.len(),
{
    if s.len() == 0 {
        Ok(0)
    } else {
        match scanned(s.drop_last(), max) {
            Err(e) => Err(e),
            Ok(v) => if !digit(s.last()) {
                Err(IntError::InvalidDigit)
            } else {
                let w = v * 10 + (s.last() as nat - 48) as nat;
                if w > max {
                    Err(IntError::PosOverflow)
                } else {
                    Ok(w)
                }
            },
        }
    }
}

/// What a text reads as, as an integer from `-min` to `max`; without a negative range a
/// sign `-` is an invalid digit.
pub open spec fn parsed_int(s: Seq<char>, min: nat, max: nat) -> Result<int, IntError> {
    if s.len() == 0 {
        Err(IntError::Empty)
    } else if s.len() == 1 && (s[0] == '+' || s[0] == '-') {
        Err(IntError::InvalidDigit)
    } else if s[0] == '+' {
        match scanned(s.subrange(1, s.len() as int), max) {
            Ok(v) => Ok(v as int),
            Err(e) => Err(e),
        }
    } else if s[0] == '-' && min > 0 {
        match scanned(s.subrange(1, s.len() as int), min) {
            Ok(v) => Ok(-(v as int)),
            Err(IntError::PosOverflow) => Err(IntError::NegOverflow),
            Err(e) => Err(e),
        }
    } else {
        match scanned(s, max) {
            Ok(v) => Ok(v as int),
            Err(e) => Err(e),
        }
    }
}

/// What a text reads as, as a natural number up to `max`.
pub open spec fn parsed_nat(s: Seq<char>, max: nat) -> Result<int, IntError> {
    parsed_int(s, 0, max)
}

pub fn u128_text(n: u128) -> (r: String)
    ensures
        r@ == decimal(n as nat),
    decreases n,
{
    let last = (48u8 + (n % 10) as u8) as char;
    let mut out = if n < 10 {
        String::new()
    } else {
        u128_text(n / 10)
    };
    out.push(last);
    assert(n < 10 ==> out@ =~= seq![digit_char(n as nat)]);
    out
}

pub fn u64_text(n: u64) -> (r: String)
    ensures
        r@ == decimal(n as nat),
{
    u128_text(n as u128)
}

pub fn i64_text(n: i64) -> (r: String)
    ensures
        r@ == decimal_int(n as int),
{
    if n < 0 {
        let size: u128 = (-(n as i128)) as u128;
        let mut out = "-".to_owned();
        let digits = u128_text(size);
        out.push_str(digits.as_str());
        out
    } else {
        u128_text(n as u128)
    }
}

pub fn hex_text(n: u128, width: u32) -> (r: String)
    ensures
        r@ == hex_digits(n as nat, width as nat),
    decreases width,
{
    if width == 0 {
        return String::new();
    }
    let mut out = hex_text(n / 16, width - 1);
    let d: u8 = (n % 16) as u8;
    if d < 10 {
        out.push((48 + d) as char);
    } else {
        out.push((87 + d) as char);
    }
    out
}

fn scan(s: &Vec<char>, from: usize, max: u128) -> (r: Result<u128, IntError>)
    requires
        from <= s.len(),
        max <= 0xffff_ffff_ffff_ffff_ffff,
    ensures
        match r {
            Ok(v) => scanned(s@.subrange(from as int, s@.len() as int), max as nat) == Ok::<
                nat,
                IntError,
            >(v as nat) && v <= max,
            Err(e) => scanned(s@.subrange(from as int, s@.len() as int), max as nat) == Err::<
                nat,
                IntError,
            >(e),
        },
{
    let ghost all = s@.subrange(from as int, s@.len() as int);
    let mut v: u128 = 0;
    let mut i: usize = from;
    assert(all.take(0) =~= Seq::<char>::empty());
    while i < s.len()
        invariant
            from <= i <= s.len(),
            all == s@.subrange(from as int, s@.len() as int),
            v <= max <= 0xffff_ffff_ffff_ffff_ffff,
            scanned(all.take(i - from), max as nat) == Ok::<nat, IntError>(v as nat),
        decreases s.len() - i,
    {
        let c = s[i];
        assert(all.take(i - from + 1).drop_last() =~= all.take(i - from));
        if !is_digit(c) {
            proof {
                scanned_stays_err(all, i - from + 1, max as nat);
            }
            return Err(IntError::InvalidDigit);
        }
        let w: u128 = v * 10 + (c as u128 - 48);
        if w > max {
            proof {
                scanned_stays_err(all, i - from + 1, max as nat);
            }
            return Err(IntError::PosOverflow);
        }
        v = w;
        i = i + 1;
    }
    assert(all.take(all.len() as int) =~= all);
    Ok(v)
}

/// An error met in a part of the text is the error of the whole.
proof fn scanned_stays_err(s: Seq<char>, k: int, max: nat)
    requires
        0 <= k <= s.len(),
        scanned(s.take(k), max) is Err,
    ensures
        scanned(s, max) == scanned(s.take(k), max),
    decreases s.len() - k,
{
    if k < s.len() {
        assert(s.take(k + 1).drop_last() =~= s.take(k));
        scanned_stays_err(s, k + 1, max);
    } else {
        assert(s.take(k) =~= s);
    }
}

/// Reads an integer from `-min` to `max`.
fn parse_int(s: &str, min: u128, max: u128) -> (r: Result<i128, IntError>)
    requires
        min <= 0xffff_ffff_ffff_ffff,
        max <= 0xffff_ffff_ffff_ffff,
    ensures
        match r {
            Ok(v) => parsed_int(s@, min as nat, max as nat) == Ok::<int, IntError>(v as int) && -min
                <= v <= max,
            Err(e) => parsed_int(s@, min as nat, max as nat) == Err::<int, IntError>(e),
        },
{
    let a = chars_of(s);
    if a.len() == 0 {
        return Err(IntError::Empty);
    }
    if a.len() == 1 && (a[0] == '+' || a[0] == '-') {
        return Err(IntError::InvalidDigit);
    }
    if a[0] == '+' {
        match scan(&a, 1, max) {
            Ok(v) => Ok(v as i128),
            Err(e) => Err(e),
        }
    } else if a[0] == '-' && min > 0 {
        match scan(&a, 1, min) {
            Ok(v) => Ok(-(v as i128)),
            Err(IntError::PosOverflow) => Err(IntError::NegOverflow),
            Err(e) => Err(e),
        }
    } else {
        assert(a@.subrange(0, a@.len() as int) =~= s@);
        match scan(&a, 0, max) {
            Ok(v) => Ok(v as i128),
            Err(e) => Err(e),
        }
    }
}

pub fn parse_u64(s: &str) -> (r: Result<u64, IntError>)
    ensures
        match r {
            Ok(v) => parsed_nat(s@, u64::MAX as nat) == Ok::<int, IntError>(v as int),
            Err(e) => parsed_nat(s@, u64::MAX as nat) == Err::<int, IntError>(e),
        },
{
    match parse_int(s, 0, 0xffff_ffff_ffff_ffff) {
        Ok(v) => Ok(v as u64),
        Err(e) => Err(e),
    }
}

pub fn parse_u32(s: &str) -> (r: Result<u32, IntError>)
    ensures
        match r {
            Ok(v) => parsed_nat(s@, u32::MAX as nat) == Ok::<int, IntError>(v as int),
            Err(e) => parsed_nat(s@, u32::MAX as nat) == Err::<int, IntError>(e),
        },
{
    match parse_int(s, 0, 0xffff_ffff) {
        Ok(v) => Ok(v as u32),
        Err(e) => Err(e),
    }
}

pub fn parse_u16(s: &str) -> (r: Result<u16, IntError>)
    ensures
        match r {
            Ok(v) => parsed_nat(s@, u16::MAX as nat) == Ok::<int, IntError>(v as int),
            Err(e) => parsed_nat(s@, u16::MAX as nat) == Err::<int, IntError>(e),
        },
{
    match parse_int(s, 0, 0xffff) {
        Ok(v) => Ok(v as u16),
        Err(e) => Err(e),
    }
}

pub fn parse_i64(s: &str) -> (r: Result<i64, IntError>)
    ensures
        match r {
            Ok(v) => parsed_int(s@, 0x8000_0000_0000_0000, i64::MAX as nat) == Ok::<int, IntError>(
                v as int,
            ),
            Err(e) => parsed_int(s@, 0x8000_0000_0000_0000, i64::MAX as nat) == Err::<
                int,
                IntError,
            >(e),
        },
{
    match parse_int(s, 0x8000_0000_0000_0000, 0x7fff_ffff_ffff_ffff) {
        Ok(v) => Ok(v as i64),
        Err(e) => Err(e),
    }
}

pub fn parse_i32(s: &str) -> (r: Result<i32, IntError>)
    ensures
        match r {
            Ok(v) => parsed_int(s@, 0x8000_0000, i32::MAX as nat) == Ok::<int, IntError>(v as int),
            Err(e) => parsed_int(s@, 0x8000_0000, i32::MAX as nat) == Err::<int, IntError>(e),
        },
{
    match parse_int(s, 0x8000_0000, 0x7fff_ffff) {
        Ok(v) => Ok(v as i32),
        Err(e) => Err(e),
    }
}

/// Reading gives back what writing wrote.
pub proof fn decimal_reads_back(n: nat, max: nat)
    requires
        n <= max,
    ensures
        parsed_nat(decimal(n), max) == Ok::<int, IntError>(n as int),
{
    decimal_scans(n, max);
    assert(digit(decimal(n)[0]));
}

/// The same where negative numbers can be read too.
pub proof fn decimal_reads_back_signed(n: nat, min: nat, max: nat)
    requires
        n <= max,
    ensures
        parsed_int(decimal(n), min, max) == Ok::<int, IntError>(n as int),
{
    decimal_scans(n, max);
    assert(digit(decimal(n)[0]));
}

proof fn decimal_scans(n: nat, max: nat)
    requires
        n <= max,
    ensures
        scanned(decimal(n), max) == Ok::<nat, IntError>(n),
        decimal(n).len() >= 1,
        digit(decimal(n)[0]),
    decreases n,
{
    if n < 10 {
        let s = seq![digit_char(n)];
        assert(s.drop_last() =~= Seq::<char>::empty());
        assert(scanned(s.drop_last(), max) == Ok::<nat, IntError>(0));
        assert(digit_char(n) as nat == 48 + n);
    } else {
        decimal_scans(n / 10, max);
        let s = decimal(n);
        assert(s.drop_last() =~= decimal(n / 10));
        assert(s.last() == digit_char(n % 10));
        assert(digit_char(n % 10) as nat == 48 + n % 10);
        assert(s[0] == decimal(n / 10)[0]);
    }
}

/// The number, or one in place of zero.
pub open spec fn at_least_one(n: u64) -> u64 {
    if n == 0 {
        1
    } else {
        n
    }
}

pub fn one_or_more(n: u64) -> (r: u64)
    ensures
        r == at_least_one(n),
{
    if n == 0 {
        1
    } else {
        n
    }
}

} // verus!
