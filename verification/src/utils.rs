//! Numbers out of text, and out of 256-bit words.

use vstd::prelude::*;
use vstd::string::*;

use vstd::utf8::is_ascii_chars;

use crate::error::{agrees, agrees_on_view, Error, ErrorView};
use crate::primitives::{pow2_64, U256};

verus! {

/// What a character is worth as a digit of the radix, if it is one. Letters count from
/// ten, in either case.
pub open spec fn digit_value(c: char, radix: nat) -> Option<nat> {
    let v: int = if '0' <= c && c <= '9' {
        c as int - '0' as int
    } else if 'a' <= c && c <= 'z' {
        c as int - 'a' as int + 10
    } else if 'A' <= c && c <= 'Z' {
        c as int - 'A' as int + 10
    } else {
        -1
    };
    if 0 <= v && v < radix {
        Some(v as nat)
    } else {
        None
    }
}

/// Whether every character is a digit of the radix.
pub open spec fn all_digits(s: Seq<char>, radix: nat) -> bool {
    forall|i: int| 0 <= i < s.len() ==> (#[trigger] digit_value(s[i], radix)) is Some
}

/// The number that a digit string writes, most significant digit first.
pub open spec fn digits_value(s: Seq<char>, radix: nat) -> nat
    decreases s.len(),
{
    if s.len() == 0 {
        0
    } else {
        digits_value(s.drop_last(), radix) * radix + match digit_value(s.last(), radix) {
            Some(v) => v,
            None => 0,
        }
    }
}

/// The text without its sign: one leading `+` is allowed and means nothing.
pub open spec fn unsigned_part(s: Seq<char>) -> Seq<char> {
    if s.len() > 0 && s[0] == '+' {
        s.skip(1)
    } else {
        s
    }
}

/// The `u64` that a digit string writes in the given radix: at least one digit and
/// nothing else, and a value that fits.
pub open spec fn digits_u64(digits: Seq<char>, radix: nat) -> Option<u64> {
    if digits.len() > 0 && all_digits(digits, radix) && digits_value(digits, radix) <= u64::MAX {
        Some(digits_value(digits, radix) as u64)
    } else {
        None
    }
}

/// The `u64` that a text writes in the given radix, where a sign is allowed: an optional
/// `+`, then digits as for [`digits_u64`].
pub open spec fn parse_u64(s: Seq<char>, radix: nat) -> Option<u64> {
    digits_u64(unsigned_part(s), radix)
}

/// The text without its `0x`, if it begins with one. Only one is dropped.
pub open spec fn without_0x(s: Seq<char>) -> Seq<char> {
    if s.len() >= 2 && s[0] == '0' && s[1] == 'x' {
        s.skip(2)
    } else {
        s
    }
}

/// The text without any leading `0x`, however often it is repeated. Texts that write
/// bytes or an address are trimmed so; a number has one `0x` at most, see
/// [`without_0x`].
pub open spec fn strip_0x(s: Seq<char>) -> Seq<char>
    decreases s.len(),
{
    if s.len() >= 2 && s[0] == '0' && s[1] == 'x' {
        strip_0x(s.skip(2))
    } else {
        s
    }
}

/// A longer digit string is worth at least as much as any of its prefixes.
proof fn lemma_digits_value_monotonic(s: Seq<char>, k: int, radix: nat)
    requires
        0 <= k <= s.len(),
        radix >= 1,
    ensures
        digits_value(s.take(k), radix) <= digits_value(s, radix),
    decreases s.len() - k,
{
    if k == s.len() {
        assert(s.take(k) =~= s);
    } else {
        lemma_digits_value_monotonic(s.drop_last(), k, radix);
        assert(s.drop_last().take(k) =~= s.take(k));
        let v = digits_value(s.drop_last(), radix);
        assert(v * radix >= v) by (nonlinear_arith)
            requires
                radix >= 1,
                v >= 0,
        ;
    }
}

/// The digit that an ASCII byte stands for in the radix.
fn digit_of(b: u8, radix: u8) -> (r: Option<u8>)
    requires
        radix <= 36,
    ensures
        match r {
            Some(v) => digit_value(b as char, radix as nat) == Some(v as nat),
            None => digit_value(b as char, radix as nat) is None,
        },
{
    let v: u8 = if b >= 48 && b <= 57 {
        b - 48
    } else if b >= 97 && b <= 122 {
        b - 97 + 10
    } else if b >= 65 && b <= 90 {
        b - 65 + 10
    } else {
        return None;
    };
    if v < radix {
        Some(v)
    } else {
        None
    }
}

/// Reads the digits of `s` from position `from` on.
fn parse_digits(s: &str, from: usize, radix: u8) -> (r: Option<u64>)
    requires
        s.is_ascii(),
        from <= s@.len(),
        2 <= radix <= 36,
    ensures
        r == digits_u64(s@.skip(from as int), radix as nat),
{
    let n = s.unicode_len();
    if from >= n {
        return None;
    }
    let ghost digits = s@.skip(from as int);
    let mut acc: u64 = 0;
    let mut i: usize = from;
    while i < n
        invariant
            s.is_ascii(),
            n == s@.len(),
            from <= i <= n,
            2 <= radix <= 36,
            digits == s@.skip(from as int),
            all_digits(digits.take(i - from), radix as nat),
            acc == digits_value(digits.take(i - from), radix as nat),
        decreases n - i,
    {
        let b = s.get_ascii(i);
        let ghost c = s@[i as int];
        assert(c == digits[i - from]);
        assert(b as char == c);
        let ghost next = digits.take(i - from + 1);
        assert(next.drop_last() =~= digits.take(i - from));
        assert(next.last() == c);
        match digit_of(b, radix) {
            None => {
                assert(!all_digits(digits, radix as nat));
                return None;
            },
            Some(d) => {
                let widened = match acc.checked_mul(radix as u64) {
                    Some(m) => m.checked_add(d as u64),
                    None => None,
                };
                match widened {
                    Some(v) => {
                        acc = v;
                    },
                    None => {
                        proof {
                            lemma_digits_value_monotonic(digits, i - from + 1, radix as nat);
                        }
                        return None;
                    },
                }
                assert forall|j: int| 0 <= j < next.len() implies (#[trigger] digit_value(
                    next[j],
                    radix as nat,
                )) is Some by {
                    if j < i - from {
                        assert(next[j] == digits.take(i - from)[j]);
                    }
                }
            },
        }
        i = i + 1;
    }
    assert(digits.take(n - from) =~= digits);
    Some(acc)
}

/// A text with a character outside ASCII writes no number, signed or not.
proof fn lemma_non_ascii_is_no_number(s: Seq<char>, radix: nat)
    requires
        !is_ascii_chars(s),
    ensures
        parse_u64(s, radix) is None,
        digits_u64(s, radix) is None,
{
    let i = choose|i: int| 0 <= i < s.len() && !('\0' <= #[trigger] s[i] <= '\u{7f}');
    let digits = unsigned_part(s);
    assert(digit_value(s[i], radix) is None);
    if s[0] == '+' {
        assert(digits[i - 1] == s[i]);
        assert(digit_value(digits[i - 1], radix) is None);
    }
}

/// Reads a number in the given radix: digits only.
fn parse_unsigned(s: &str, radix: u8) -> (r: Option<u64>)
    requires
        2 <= radix <= 36,
    ensures
        r == digits_u64(s@, radix as nat),
{
    if !s.is_ascii() {
        proof {
            lemma_non_ascii_is_no_number(s@, radix as nat);
        }
        return None;
    }
    assert(s@.skip(0) =~= s@);
    parse_digits(s, 0, radix)
}

/// Reads a number in the given radix: an optional `+`, then digits only.
fn parse_number(s: &str, radix: u8) -> (r: Option<u64>)
    requires
        2 <= radix <= 36,
    ensures
        r == parse_u64(s@, radix as nat),
{
    if !s.is_ascii() {
        proof {
            lemma_non_ascii_is_no_number(s@, radix as nat);
        }
        return None;
    }
    assert(s@.skip(0) =~= s@);
    if s.unicode_len() > 0 && s.get_ascii(0) == 43 {
        parse_digits(s, 1, radix)
    } else {
        parse_digits(s, 0, radix)
    }
}

/// Reads a decimal `u64`: an optional `+`, then digits only.
pub fn parse_decimal_u64(s: &str) -> (r: Option<u64>)
    ensures
        r == parse_u64(s@, 10),
{
    parse_number(s, 10)
}

/// Drops one leading `0x` from a text that begins with it.
pub fn trim_one_0x(text: &str) -> (r: &str)
    ensures
        r@ == without_0x(text@),
{
    let n = text.unicode_len();
    if n >= 2 && text.get_char(0) == '0' && text.get_char(1) == 'x' {
        let rest = text.substring_char(2, n);
        assert(rest@ =~= text@.skip(2));
        rest
    } else {
        text
    }
}

/// Drops every leading `0x` from a text, however often it is repeated.
pub fn trim_0x(text: &str) -> (r: &str)
    ensures
        r@ == strip_0x(text@),
{
    let n = text.unicode_len();
    let mut from: usize = 0;
    assert(text@.skip(0) =~= text@);
    while n - from >= 2 && text.get_char(from) == '0' && text.get_char(from + 1) == 'x'
        invariant
            n == text@.len(),
            from <= n,
            strip_0x(text@) == strip_0x(text@.skip(from as int)),
        decreases n - from,
    {
        assert(text@.skip(from as int).skip(2) =~= text@.skip(from + 2));
        from = from + 2;
    }
    let rest = text.substring_char(from, n);
    assert(rest@ =~= text@.skip(from as int));
    rest
}

/// The number that a hexadecimal text writes: one `0x` may come first; what follows must
/// be at least one hex digit and nothing but hex digits, and must fit in 64 bits. Any
/// other text, one with a sign or a second `0x` among them, writes no number.
pub open spec fn hex_u64(hex: Seq<char>) -> Result<u64, ErrorView> {
    match digits_u64(without_0x(hex), 16) {
        Some(v) => Ok(v),
        None => Err(ErrorView::MalformedHex(hex)),
    }
}

/// Reads a hexadecimal block number or quantity. A text that writes none comes back in
/// [`Error::MalformedHex`].
pub fn hex_string_to_u64(hex: &str) -> (r: Result<u64, Error>)
    ensures
        agrees(r, hex_u64(hex@)),
{
    match parse_unsigned(trim_one_0x(hex), 16) {
        Some(v) => Ok(v),
        None => Err(Error::MalformedHex(hex.to_owned())),
    }
}

/// What a hexadecimal digit is worth; zero for any other character.
pub open spec fn hex_digit(c: char) -> nat {
    match digit_value(c, 16) {
        Some(v) => v,
        None => 0,
    }
}

/// The bytes that a text of hex digits writes, two digits to a byte, the high one first.
/// A text of odd length, or with any other character, writes none.
pub open spec fn hex_decoded(s: Seq<char>) -> Option<Seq<u8>> {
    if s.len() % 2 == 0 && all_digits(s, 16) {
        Some(Seq::new(s.len() / 2, |i: int| (16 * hex_digit(s[2 * i]) + hex_digit(s[2 * i + 1])) as u8))
    } else {
        None
    }
}

/// `hex::decode`: the bytes that the hex digits write, in either case of the letters;
/// an error, here nothing, for a text of odd length or with any other character.
#[verifier::external_body]
fn hex_decode(s: &str) -> (r: Option<Vec<u8>>)
    ensures
        match r {
            Some(bytes) => hex_decoded(s@) == Some(bytes@),
            None => hex_decoded(s@) is None,
        },
{
    hex::decode(s).ok()
}

/// The bytes that a hexadecimal text writes once any leading `0x` is dropped.
pub open spec fn hex_bytes(text: Seq<char>) -> Result<Seq<u8>, ErrorView> {
    match hex_decoded(strip_0x(text)) {
        Some(bytes) => Ok(bytes),
        None => Err(ErrorView::MalformedHex(text)),
    }
}

/// Reads the bytes that a call returned, as the endpoint writes them: hex digits after
/// `0x`. A text that writes none comes back in [`Error::MalformedHex`].
pub fn hex_string_to_bytes(text: &str) -> (r: Result<Vec<u8>, Error>)
    ensures
        agrees_on_view(r, hex_bytes(text@)),
{
    match hex_decode(trim_0x(text)) {
        Some(bytes) => Ok(bytes),
        None => Err(Error::MalformedHex(text.to_owned())),
    }
}

/// A moment, in whole seconds since 1970-01-01 00:00:00 UTC.
#[derive(Clone, Copy, Debug, PartialEq, Eq)]
pub struct UtcTime {
    pub secs: i64,
}

/// The first second for which `chrono` has a UTC date: the first second of the year
/// 262144 BCE.
pub const MIN_UTC_SECS: i64 = -8_334_601_228_800;

/// The last second for which `chrono` has a UTC date: the last second of the year
/// 262142 CE.
pub const MAX_UTC_SECS: i64 = 8_210_266_876_799;

/// Whether `chrono` has a UTC date and time for this count of seconds since the epoch.
pub open spec fn utc_datetime_exists(secs: int) -> bool {
    MIN_UTC_SECS <= secs <= MAX_UTC_SECS
}

/// `chrono::DateTime::from_timestamp` with no nanoseconds, read back with
/// `DateTime::timestamp`: the same count where chrono has a date for it (the two are
/// documented to round-trip), nothing where the count is out of chrono's range. That
/// range is the days of the years `MIN_YEAR` to `MAX_YEAR` of chrono's `NaiveDate`.
#[verifier::external_body]
fn utc_seconds(secs: i64) -> (r: Option<i64>)
    ensures
        r == (if utc_datetime_exists(secs as int) {
            Some(secs)
        } else {
            None
        }),
{
    chrono::DateTime::from_timestamp(secs, 0).map(|moment| moment.timestamp())
}

/// The moment that a count of seconds since the epoch stands for, where a UTC date
/// exists for it.
pub open spec fn datetime_of(count: nat) -> Option<UtcTime> {
    if count <= MAX_UTC_SECS {
        Some(UtcTime { secs: count as i64 })
    } else {
        None
    }
}

/// Reads a contract's 256-bit timestamp: its low 64 bits are a count of seconds since the
/// epoch, and what lies above them is dropped. Fails with
/// [`Error::TimestampOutOfRange`] where no UTC date exists for the count.
pub fn u256_to_datetime(uint: U256) -> (r: Result<UtcTime, Error>)
    ensures
        match datetime_of(uint@ % pow2_64()) {
            Some(moment) => r == Ok::<UtcTime, Error>(moment),
            None => r == Err::<UtcTime, Error>(Error::TimestampOutOfRange),
        },
{
    let count = uint.low_u64();
    if count > 0x7fff_ffff_ffff_ffff {
        return Err(Error::TimestampOutOfRange);
    }
    match utc_seconds(count as i64) {
        Some(secs) => Ok(UtcTime { secs }),
        None => Err(Error::TimestampOutOfRange),
    }
}

/// What a vote-progress tally means: a count up to the number of voters stands for
/// itself, anything above it is a negative number in 64-bit two's complement.
pub open spec fn signed_vote_progress(raw: U256, total_voters: u64) -> int {
    let low = raw@ % pow2_64();
    if low <= total_voters {
        low as int
    } else {
        low - pow2_64()
    }
}

/// Reads a vote-progress tally that a contract returns unsigned although votes against
/// can outnumber votes for. Only the low 64 bits count. Fails with
/// [`Error::ValueOutOfRange`] where the tally does not fit an `i64`.
pub fn reinterpret_signed_vote_progress(raw: U256, total_voters: u64) -> (r: Result<i64, Error>)
    ensures
        r == (if i64::MIN <= signed_vote_progress(raw, total_voters) <= i64::MAX {
            Ok::<i64, Error>(signed_vote_progress(raw, total_voters) as i64)
        } else {
            Err::<i64, Error>(Error::ValueOutOfRange)
        }),
{
    let low = raw.low_u64();
    if low <= total_voters {
        if low <= 0x7fff_ffff_ffff_ffff {
            Ok(low as i64)
        } else {
            Err(Error::ValueOutOfRange)
        }
    } else if low >= 0x8000_0000_0000_0000 {
        Ok(((low - 0x8000_0000_0000_0000) as i64) + i64::MIN)
    } else {
        Err(Error::ValueOutOfRange)
    }
}

} // verus!
