//! Typed currency amounts in integer subunits, and the conversions between
//! the wire format's decimal text and the domain's integer representation.
//!
//! The wire format quotes currency as a base-unit decimal (whole coins); the
//! domain stores integer subunits only.  Conversion fails rather than rounds:
//! text with more than eight fractional digits is rejected, and values that do
//! not fit the target integer type are rejected as out of range.

use vstd::prelude::*;
use vstd::arithmetic::mul::*;
use vstd::string::*;

verus! {

/// Subunits in one whole coin.
pub const SATS_PER_COIN: u64 = 100_000_000;

/// Largest integer part (in whole coins) whose subunit value still fits `u64`.
pub const MAX_WHOLE_COINS: u64 = 184_467_440_737;

/// Why decimal text failed to convert into an amount.
#[derive(Debug, Clone, Copy, PartialEq, Eq, Structural)]
pub enum ParseAmountError {
    /// The text is not a decimal number with at most eight fractional digits.
    InvalidDecimal,
    /// The value does not fit the target amount type.
    OutOfRange,
}

/// An unsigned amount in subunits.
#[derive(Debug, Clone, Copy, PartialEq, Eq, Structural)]
pub struct Amount {
    /// The amount in subunits.
    pub sats: u64,
}

/// A signed amount in subunits; fees and send-category amounts are negative.
#[derive(Debug, Clone, Copy, PartialEq, Eq, Structural)]
pub struct SignedAmount {
    /// The amount in subunits.
    pub sats: i64,
}

/// A fee rate in subunits per virtual size unit.
#[derive(Debug, Clone, Copy, PartialEq, Eq, Structural)]
pub struct FeeRate {
    /// Subunits per virtual size unit.
    pub sat_per_vb: u64,
}

// ---------------------------------------------------------------------------
// Specification: the decimal grammar and its value in subunits.
// ---------------------------------------------------------------------------

/// A decimal digit.
pub open spec fn is_dec_digit(c: char) -> bool {
    48 <= c as int <= 57
}

/// The numeric value of a decimal digit.
pub open spec fn digit_val(c: char) -> int {
    c as int - 48
}

/// Every character of `s` is a decimal digit.
pub open spec fn all_dec_digits(s: Seq<char>) -> bool {
    forall|i: int| 0 <= i < s.len() ==> is_dec_digit(#[trigger] s[i])
}

/// The value of a digit string read in base ten.
pub open spec fn digits_val(s: Seq<char>) -> int
    decreases s.len(),
{
    if s.len() == 0 {
        0
    } else {
        digits_val(s.drop_last()) * 10 + digit_val(s.last())
    }
}

/// Ten to the `n`.
pub open spec fn pow10(n: nat) -> int
    decreases n,
{
    if n == 0 {
        1
    } else {
        10 * pow10((n - 1) as nat)
    }
}

/// `s` is one or more digits with no decimal point.
pub open spec fn plain_digits_ok(s: Seq<char>) -> bool {
    s.len() >= 1 && all_dec_digits(s)
}

/// `s` splits at position `k` into a nonempty digit string, a decimal point,
/// and one to eight fractional digits.
pub open spec fn dot_split_ok(s: Seq<char>, k: int) -> bool {
    &&& 1 <= k
    &&& k + 1 < s.len()
    &&& s.len() - (k + 1) <= 8
    &&& s[k] == '.'
    &&& all_dec_digits(s.take(k))
    &&& all_dec_digits(s.skip(k + 1))
}

/// `s` is well-formed unsigned decimal text: digits, optionally followed by a
/// decimal point and at most eight fractional digits.
pub open spec fn dec_text_ok(s: Seq<char>) -> bool {
    plain_digits_ok(s) || (exists|k: int| dot_split_ok(s, k))
}

/// The exact value of well-formed unsigned decimal text, in subunits.
pub open spec fn dec_text_sats(s: Seq<char>) -> int {
    if plain_digits_ok(s) {
        digits_val(s) * SATS_PER_COIN
    } else {
        let k = choose|k: int| dot_split_ok(s, k);
        digits_val(s.take(k)) * SATS_PER_COIN + digits_val(s.skip(k + 1)) * pow10(
            (8 - (s.len() - k - 1)) as nat,
        )
    }
}

/// `s` is well-formed signed decimal text: unsigned text with an optional
/// leading minus sign.
pub open spec fn sdec_text_ok(s: Seq<char>) -> bool {
    if s.len() >= 1 && s[0] == '-' {
        dec_text_ok(s.skip(1))
    } else {
        dec_text_ok(s)
    }
}

/// The exact value of well-formed signed decimal text, in subunits.
pub open spec fn sdec_text_sats(s: Seq<char>) -> int {
    if s.len() >= 1 && s[0] == '-' {
        -dec_text_sats(s.skip(1))
    } else {
        dec_text_sats(s)
    }
}

/// Decimal text, optionally minus-signed, converts to a `u64` subunit
/// amount: the value must be non-negative and fit `u64`.
pub open spec fn amount_text_ok(s: Seq<char>) -> bool {
    sdec_text_ok(s) && 0 <= sdec_text_sats(s) <= u64::MAX
}

/// Signed decimal text converts to an `i64` subunit amount.
pub open spec fn signed_amount_text_ok(s: Seq<char>) -> bool {
    sdec_text_ok(s) && i64::MIN <= sdec_text_sats(s) <= i64::MAX
}

// ---------------------------------------------------------------------------
// Specification: canonical decimal rendering of an amount.
// ---------------------------------------------------------------------------

/// The character for one decimal digit.
pub open spec fn digit_char(d: int) -> char {
    if d == 0 {
        '0'
    } else if d == 1 {
        '1'
    } else if d == 2 {
        '2'
    } else if d == 3 {
        '3'
    } else if d == 4 {
        '4'
    } else if d == 5 {
        '5'
    } else if d == 6 {
        '6'
    } else if d == 7 {
        '7'
    } else if d == 8 {
        '8'
    } else {
        '9'
    }
}

/// The shortest digit string for `n` (a single zero for zero).
pub open spec fn dec_digits_of(n: nat) -> Seq<char>
    decreases n,
{
    if n < 10 {
        seq![digit_char(n as int)]
    } else {
        dec_digits_of(n / 10) + seq![digit_char((n % 10) as int)]
    }
}

/// The digit string for `n` zero-padded to exactly `w` digits.
pub open spec fn fixed_width_digits(n: nat, w: nat) -> Seq<char>
    decreases w,
{
    if w == 0 {
        Seq::empty()
    } else {
        fixed_width_digits(n / 10, (w - 1) as nat) + seq![digit_char((n % 10) as int)]
    }
}

/// The canonical decimal rendering of an unsigned subunit amount: the whole
/// coins, a decimal point, and exactly eight fractional digits.
pub open spec fn render_sats(sats: nat) -> Seq<char> {
    dec_digits_of(sats / (SATS_PER_COIN as nat)) + seq!['.'] + fixed_width_digits(
        sats % (SATS_PER_COIN as nat),
        8,
    )
}

/// The canonical decimal rendering of a signed subunit amount.
pub open spec fn render_signed_sats(sats: int) -> Seq<char> {
    if sats < 0 {
        seq!['-'] + render_sats((-sats) as nat)
    } else {
        render_sats(sats as nat)
    }
}

// ---------------------------------------------------------------------------
// Lemmas about digit strings.
// ---------------------------------------------------------------------------

proof fn lemma_digits_val_nonneg(s: Seq<char>)
    requires
        all_dec_digits(s),
    ensures
        digits_val(s) >= 0,
    decreases s.len(),
{
    if s.len() > 0 {
        assert(all_dec_digits(s.drop_last()));
        lemma_digits_val_nonneg(s.drop_last());
    }
}

proof fn lemma_digits_val_bound(s: Seq<char>)
    requires
        all_dec_digits(s),
    ensures
        digits_val(s) < pow10(s.len()),
    decreases s.len(),
{
    if s.len() > 0 {
        assert(all_dec_digits(s.drop_last()));
        lemma_digits_val_bound(s.drop_last());
    }
}

/// Extending a digit string by one digit multiplies its value by ten.
proof fn lemma_digits_val_take_step(s: Seq<char>, i: int)
    requires
        0 <= i < s.len(),
    ensures
        digits_val(s.take(i + 1)) == digits_val(s.take(i)) * 10 + digit_val(s[i]),
{
    assert(s.take(i + 1).drop_last() =~= s.take(i));
    assert(s.take(i + 1).last() == s[i]);
}

/// A digit string is worth at least any of its prefixes.
proof fn lemma_digits_val_take_mono(s: Seq<char>, i: int)
    requires
        all_dec_digits(s),
        0 <= i <= s.len(),
    ensures
        digits_val(s.take(i)) <= digits_val(s),
    decreases s.len() - i,
{
    if i == s.len() {
        assert(s.take(i) =~= s);
    } else {
        lemma_digits_val_take_step(s, i);
        assert(all_dec_digits(s.take(i))) by {
            assert(forall|j: int| 0 <= j < i ==> s.take(i)[j] == s[j]);
        }
        lemma_digits_val_nonneg(s.take(i));
        lemma_digits_val_take_mono(s, i + 1);
    }
}

/// The decimal point position of well-formed fractional text is unique.
proof fn lemma_dot_split_unique(s: Seq<char>, k1: int, k2: int)
    requires
        dot_split_ok(s, k1),
        dot_split_ok(s, k2),
    ensures
        k1 == k2,
{
    if k1 < k2 {
        assert(s.skip(k1 + 1)[k2 - k1 - 1] == s[k2]);
        assert(is_dec_digit(s[k2]));
        assert(s[k2] == '.');
        assert(false);
    }
    if k2 < k1 {
        assert(s.skip(k2 + 1)[k1 - k2 - 1] == s[k1]);
        assert(is_dec_digit(s[k1]));
        assert(false);
    }
}

proof fn lemma_pow10_pos(n: nat)
    ensures
        pow10(n) >= 1,
    decreases n,
{
    if n > 0 {
        lemma_pow10_pos((n - 1) as nat);
    }
}

proof fn lemma_pow10_add(a: nat, b: nat)
    ensures
        pow10(a) * pow10(b) == pow10(a + b),
    decreases a,
{
    if a == 0 {
        assert(pow10(0) == 1);
    } else {
        lemma_pow10_add((a - 1) as nat, b);
        assert(pow10(a) * pow10(b) == (10 * pow10((a - 1) as nat)) * pow10(b));
        assert((10 * pow10((a - 1) as nat)) * pow10(b) == 10 * (pow10((a - 1) as nat) * pow10(b)))
            by (nonlinear_arith);
    }
}

// ---------------------------------------------------------------------------
// Executable conversion: decimal text to subunits.
// ---------------------------------------------------------------------------

/// Reads the base-ten value of the digit characters of `s` in `[from, to)`,
/// failing once the accumulated value exceeds `cap`.
fn digits_value_capped(s: &str, from: usize, to: usize, cap: u64) -> (r: Option<u64>)
    requires
        from <= to <= s@.len(),
        all_dec_digits(s@.subrange(from as int, to as int)),
        cap >= 9,
    ensures
        match r {
            Some(v) => v == digits_val(s@.subrange(from as int, to as int)) && v <= cap,
            None => digits_val(s@.subrange(from as int, to as int)) > cap,
        },
{
    let ghost digits = s@.subrange(from as int, to as int);
    let mut acc: u64 = 0;
    let mut j: usize = from;
    while j < to
        invariant
            from <= j <= to <= s@.len(),
            all_dec_digits(digits),
            digits == s@.subrange(from as int, to as int),
            acc == digits_val(digits.take(j - from)),
            acc <= cap,
            cap >= 9,
        decreases to - j,
    {
        let c = s.get_char(j);
        proof {
            assert(digits[j - from] == s@[j as int]);
            assert(is_dec_digit(c));
        }
        let d: u64 = (c as u32 - 48) as u64;
        proof {
            lemma_digits_val_take_step(digits, j - from);
        }
        if acc > (cap - d) / 10 {
            proof {
                // acc * 10 + d > cap, so the full digit string exceeds cap too.
                assert(acc * 10 + d > cap);
                lemma_digits_val_take_mono(digits, j - from + 1);
            }
            return None;
        }
        proof {
            assert(acc * 10 + d <= cap) by {
                assert(acc <= (cap - d) / 10);
                assert(((cap - d) / 10) * 10 + d <= cap);
                lemma_mul_inequality(acc as int, ((cap - d) / 10) as int, 10);
            }
        }
        acc = acc * 10 + d;
        j += 1;
    }
    proof {
        assert(digits.take(to - from) =~= digits);
    }
    Some(acc)
}

/// Ten to the `e`, for small exponents.
fn pow10_u64(e: usize) -> (r: u64)
    requires
        e <= 8,
    ensures
        r == pow10(e as nat),
        r <= 100_000_000,
{
    let mut r: u64 = 1;
    let mut i: usize = 0;
    while i < e
        invariant
            i <= e <= 8,
            r == pow10(i as nat),
            r <= 100_000_000,
        decreases e - i,
    {
        proof {
            lemma_pow10_pos(i as nat);
            lemma_pow10_add(i as nat, (e - i) as nat);
            lemma_pow10_pos((e - i - 1) as nat);
            assert(pow10((i + 1) as nat) * pow10((e - i - 1) as nat) == pow10(e as nat)) by {
                lemma_pow10_add((i + 1) as nat, (e - i - 1) as nat);
            }
            assert(pow10(e as nat) <= pow10(8)) by {
                lemma_pow10_add(e as nat, (8 - e) as nat);
                lemma_pow10_pos((8 - e) as nat);
                lemma_mul_inequality(1, pow10((8 - e) as nat), pow10(e as nat));
                lemma_pow10_pos(e as nat);
                assert(pow10(e as nat) * 1 == pow10(e as nat));
                assert(pow10(e as nat) * pow10((8 - e) as nat) == pow10(8));
                lemma_mul_inequality(1, pow10((8 - e) as nat), pow10(e as nat));
            }
            assert(10 * pow10(i as nat) == pow10((i + 1) as nat));
            assert(pow10((i + 1) as nat) <= pow10(8)) by {
                lemma_pow10_add((i + 1) as nat, (8 - i - 1) as nat);
                lemma_pow10_pos((8 - i - 1) as nat);
                lemma_mul_inequality(1, pow10((8 - i - 1) as nat), pow10((i + 1) as nat));
                lemma_pow10_pos((i + 1) as nat);
            }
            lemma_pow10_8();
        }
        r = r * 10;
        i += 1;
    }
    r
}

/// Converts unsigned decimal text to subunits.
///
/// Succeeds exactly on well-formed decimal text whose value fits `u64`, and
/// returns that exact value; text with bad syntax or more than eight
/// fractional digits is an invalid decimal, anything larger than `u64` is out
/// of range.
pub fn parse_btc_text(s: &str) -> (r: Result<u64, ParseAmountError>)
    ensures
        r is Ok <==> dec_text_ok(s@) && dec_text_sats(s@) <= u64::MAX,
        r matches Ok(v) ==> v == dec_text_sats(s@),
        r matches Err(e) ==> (e == ParseAmountError::InvalidDecimal <==> !dec_text_ok(s@)),
        dec_text_ok(s@) && r is Err ==> r->Err_0 == ParseAmountError::OutOfRange,
{
    let n = s.unicode_len();
    // Locate the decimal point, if any, and check every other character is a
    // digit.
    let mut i: usize = 0;
    let mut dot: Option<usize> = None;
    while i < n
        invariant
            0 <= i <= n == s@.len(),
            match dot {
                Some(d) => d < i && s@[d as int] == '.' && (forall|j: int|
                    0 <= j < i && j != d ==> is_dec_digit(#[trigger] s@[j])),
                None => forall|j: int| 0 <= j < i ==> is_dec_digit(#[trigger] s@[j]),
            },
        decreases n - i,
    {
        let c = s.get_char(i);
        if c == '.' {
            match dot {
                Some(d) => {
                    proof {
                        // Two decimal points: no split position can be valid,
                        // and the text is not plain digits either.
                        assert forall|k: int| !dot_split_ok(s@, k) by {
                            if dot_split_ok(s@, k) {
                                if k != d {
                                    lemma_index_not_digit(s@, k, d as int);
                                }
                                if k != i {
                                    lemma_index_not_digit(s@, k, i as int);
                                }
                            }
                        }
                        assert(!plain_digits_ok(s@));
                    }
                    return Err(ParseAmountError::InvalidDecimal);
                },
                None => {
                    dot = Some(i);
                },
            }
        } else {
            let v = c as u32;
            if v < 48 || v > 57 {
                proof {
                    // A character that is neither a digit nor a point rules
                    // out both grammatical forms.
                    assert(!is_dec_digit(s@[i as int]));
                    assert(s@[i as int] != '.');
                    assert forall|k: int| !dot_split_ok(s@, k) by {
                        if dot_split_ok(s@, k) && k != i {
                            lemma_index_not_digit(s@, k, i as int);
                        }
                    }
                }
                return Err(ParseAmountError::InvalidDecimal);
            }
        }
        i += 1;
    }
    match dot {
        None => {
            if n == 0 {
                proof {
                    assert forall|k: int| !dot_split_ok(s@, k) by {}
                }
                return Err(ParseAmountError::InvalidDecimal);
            }
            proof {
                assert(s@.subrange(0, n as int) =~= s@);
                assert(plain_digits_ok(s@));
            }
            match digits_value_capped(s, 0, n, MAX_WHOLE_COINS) {
                None => {
                    proof {
                        lemma_whole_part_overflow(digits_val(s@));
                    }
                    Err(ParseAmountError::OutOfRange)
                },
                Some(iv) => {
                    proof {
                        lemma_digits_val_nonneg(s@);
                        lemma_mul_inequality(iv as int, MAX_WHOLE_COINS as int,
                            SATS_PER_COIN as int);
                    }
                    Ok(iv * SATS_PER_COIN)
                },
            }
        },
        Some(d) => {
            // Grammar checks around the decimal point.
            if d < 1 || d + 1 >= n || n - (d + 1) > 8 {
                proof {
                    assert(!plain_digits_ok(s@));
                    assert forall|k: int| !dot_split_ok(s@, k) by {
                        if dot_split_ok(s@, k) && k != d {
                            lemma_index_not_digit(s@, k, d as int);
                        }
                    }
                }
                return Err(ParseAmountError::InvalidDecimal);
            }
            proof {
                assert(all_dec_digits(s@.take(d as int)));
                assert(all_dec_digits(s@.skip(d as int + 1))) by {
                    assert forall|j: int| 0 <= j < s@.skip(d as int + 1).len() implies is_dec_digit(
                        #[trigger] s@.skip(d as int + 1)[j],
                    ) by {
                        assert(s@.skip(d as int + 1)[j] == s@[j + d + 1]);
                    }
                }
                assert(dot_split_ok(s@, d as int));
                assert(!plain_digits_ok(s@));
                lemma_dot_split_value(s@, d as int);
            }
            let iv = match digits_value_capped(s, 0, d, MAX_WHOLE_COINS) {
                None => {
                    proof {
                        assert(s@.subrange(0, d as int) =~= s@.take(d as int));
                        lemma_digits_val_nonneg(s@.skip(d as int + 1));
                        lemma_pow10_pos((8 - (s@.len() - d - 1)) as nat);
                        lemma_mul_nonnegative(digits_val(s@.skip(d as int + 1)), pow10(
                            (8 - (s@.len() - d - 1)) as nat));
                        lemma_whole_part_overflow(digits_val(s@.take(d as int)));
                    }
                    return Err(ParseAmountError::OutOfRange);
                },
                Some(iv) => iv,
            };
            let fl = n - (d + 1);
            let fv = match digits_value_capped(s, d + 1, n, u64::MAX) {
                None => {
                    proof {
                        // Unreachable: at most eight digits always fit.
                        assert(s@.subrange(d as int + 1, n as int) =~= s@.skip(d as int + 1));
                        lemma_digits_val_bound(s@.skip(d as int + 1));
                        lemma_pow10_le(s@.skip(d as int + 1).len(), 8);
                        lemma_pow10_8();
                    }
                    return Err(ParseAmountError::OutOfRange);
                },
                Some(fv) => fv,
            };
            proof {
                assert(s@.subrange(0, d as int) =~= s@.take(d as int));
                assert(s@.subrange(d as int + 1, n as int) =~= s@.skip(d as int + 1));
                lemma_digits_val_bound(s@.skip(d as int + 1));
                lemma_pow10_le(s@.skip(d as int + 1).len(), 8);
                lemma_pow10_8();
            }
            let scale = pow10_u64(8 - fl);
            let base = iv * SATS_PER_COIN;
            proof {
                lemma_mul_inequality(iv as int, MAX_WHOLE_COINS as int, SATS_PER_COIN as int);
                // fv * scale < 10^fl * 10^(8-fl) == 10^8
                lemma_digits_val_nonneg(s@.skip(d as int + 1));
                lemma_pow10_pos((8 - fl) as nat);
                lemma_pow10_add(fl as nat, (8 - fl) as nat);
                assert(fv * scale < pow10(fl as nat) * pow10((8 - fl) as nat)) by {
                    assert(fv < pow10(fl as nat));
                    lemma_mul_strict_inequality(fv as int, pow10(fl as nat), pow10(
                        (8 - fl) as nat));
                }
            }
            let fscaled = fv * scale;
            if fscaled > u64::MAX - base {
                proof {
                    assert(dec_text_sats(s@) > u64::MAX);
                }
                return Err(ParseAmountError::OutOfRange);
            }
            Ok(base + fscaled)
        },
    }
}

/// Within a valid split at `k`, every other position holds a digit.
proof fn lemma_index_not_digit(s: Seq<char>, k: int, j: int)
    requires
        dot_split_ok(s, k),
        0 <= j < s.len(),
        j != k,
    ensures
        is_dec_digit(s[j]),
{
    if j < k {
        assert(s.take(k)[j] == s[j]);
    } else {
        assert(s.skip(k + 1)[j - k - 1] == s[j]);
    }
}

/// The value of fractional text at the unique split `k`.
proof fn lemma_dot_split_value(s: Seq<char>, k: int)
    requires
        dot_split_ok(s, k),
    ensures
        !plain_digits_ok(s),
        dec_text_sats(s) == digits_val(s.take(k)) * SATS_PER_COIN + digits_val(s.skip(k + 1))
            * pow10((8 - (s.len() - k - 1)) as nat),
{
    assert(!is_dec_digit('.'));
    assert(!plain_digits_ok(s));
    let kc = choose|kk: int| dot_split_ok(s, kk);
    lemma_dot_split_unique(s, k, kc);
}

/// A whole-coin count beyond `MAX_WHOLE_COINS` puts the subunit value beyond
/// `u64`, whatever the fraction adds.
proof fn lemma_whole_part_overflow(whole: int)
    requires
        whole > MAX_WHOLE_COINS,
    ensures
        whole * SATS_PER_COIN > u64::MAX,
{
    lemma_mul_inequality((MAX_WHOLE_COINS + 1) as int, whole, SATS_PER_COIN as int);
}

proof fn lemma_pow10_8()
    ensures
        pow10(8) == 100_000_000,
{
    assert(pow10(0) == 1);
    assert(pow10(1) == 10);
    assert(pow10(2) == 100);
    assert(pow10(3) == 1000);
    assert(pow10(4) == 10000);
    assert(pow10(5) == 100000);
    assert(pow10(6) == 1000000);
    assert(pow10(7) == 10000000);
    assert(pow10(8) == 100000000);
}

proof fn lemma_pow10_le(a: nat, b: nat)
    requires
        a <= b,
    ensures
        pow10(a) <= pow10(b),
{
    lemma_pow10_add(a, (b - a) as nat);
    lemma_pow10_pos((b - a) as nat);
    lemma_pow10_pos(a);
    lemma_mul_inequality(1, pow10((b - a) as nat), pow10(a));
}

/// The value of well-formed unsigned decimal text is non-negative.
proof fn lemma_dec_text_sats_nonneg(s: Seq<char>)
    requires
        dec_text_ok(s),
    ensures
        dec_text_sats(s) >= 0,
{
    if plain_digits_ok(s) {
        lemma_digits_val_nonneg(s);
        lemma_mul_nonnegative(digits_val(s), SATS_PER_COIN as int);
    } else {
        let k = choose|k: int| dot_split_ok(s, k);
        lemma_digits_val_nonneg(s.take(k));
        lemma_digits_val_nonneg(s.skip(k + 1));
        lemma_pow10_pos((8 - (s.len() - k - 1)) as nat);
        lemma_mul_nonnegative(digits_val(s.take(k)), SATS_PER_COIN as int);
        lemma_mul_nonnegative(digits_val(s.skip(k + 1)), pow10((8 - (s.len() - k - 1)) as nat));
    }
}

/// Converts signed decimal text to subunits.
///
/// Succeeds exactly on well-formed decimal text, optionally minus-signed,
/// whose value fits `i64`, and returns that exact value.
pub fn parse_signed_btc_text(s: &str) -> (r: Result<i64, ParseAmountError>)
    ensures
        r is Ok <==> signed_amount_text_ok(s@),
        r matches Ok(v) ==> v == sdec_text_sats(s@),
        r matches Err(e) ==> (e == ParseAmountError::InvalidDecimal <==> !sdec_text_ok(s@)),
        sdec_text_ok(s@) && r is Err ==> r->Err_0 == ParseAmountError::OutOfRange,
{
    let n = s.unicode_len();
    let negative = n >= 1 && s.get_char(0) == '-';
    if negative {
        let rest = s.substring_char(1, n);
        proof {
            assert(rest@ =~= s@.skip(1));
        }
        match parse_btc_text(rest) {
            Ok(m) => {
                if m <= i64::MAX as u64 {
                    Ok(-(m as i64))
                } else if m == i64::MAX as u64 + 1 {
                    Ok(i64::MIN)
                } else {
                    Err(ParseAmountError::OutOfRange)
                }
            },
            Err(e) => {
                proof {
                    if dec_text_ok(s@.skip(1)) {
                        // Magnitude beyond u64 is certainly beyond i64.
                        assert(dec_text_sats(s@.skip(1)) > u64::MAX);
                    }
                }
                Err(e)
            },
        }
    } else {
        match parse_btc_text(s) {
            Ok(m) => {
                if m <= i64::MAX as u64 {
                    Ok(m as i64)
                } else {
                    Err(ParseAmountError::OutOfRange)
                }
            },
            Err(e) => {
                proof {
                    if dec_text_ok(s@) {
                        assert(dec_text_sats(s@) > u64::MAX);
                    }
                }
                Err(e)
            },
        }
    }
}

// ---------------------------------------------------------------------------
// Executable rendering: subunits to canonical decimal text.
// ---------------------------------------------------------------------------

/// Appends the character for one digit.
fn push_digit_char(out: &mut String, d: u64)
    requires
        d <= 9,
    ensures
        final(out)@ == old(out)@.push(digit_char(d as int)),
{
    proof {
        reveal_strlit("0");
        reveal_strlit("1");
        reveal_strlit("2");
        reveal_strlit("3");
        reveal_strlit("4");
        reveal_strlit("5");
        reveal_strlit("6");
        reveal_strlit("7");
        reveal_strlit("8");
        reveal_strlit("9");
    }
    if d == 0 {
        out.append("0");
    } else if d == 1 {
        out.append("1");
    } else if d == 2 {
        out.append("2");
    } else if d == 3 {
        out.append("3");
    } else if d == 4 {
        out.append("4");
    } else if d == 5 {
        out.append("5");
    } else if d == 6 {
        out.append("6");
    } else if d == 7 {
        out.append("7");
    } else if d == 8 {
        out.append("8");
    } else {
        out.append("9");
    }
    proof {
        assert(out@ =~= old(out)@.push(digit_char(d as int)));
    }
}

/// Appends the shortest digit string for `n`.
fn push_dec_digits(out: &mut String, n: u64)
    ensures
        final(out)@ == old(out)@ + dec_digits_of(n as nat),
    decreases n,
{
    if n >= 10 {
        push_dec_digits(out, n / 10);
        push_digit_char(out, n % 10);
        proof {
            assert(out@ =~= old(out)@ + dec_digits_of(n as nat));
        }
    } else {
        push_digit_char(out, n);
        proof {
            assert(out@ =~= old(out)@ + dec_digits_of(n as nat));
        }
    }
}

/// Appends the digit string for `n` zero-padded to `w` digits.
fn push_fixed_width(out: &mut String, n: u64, w: usize)
    ensures
        final(out)@ == old(out)@ + fixed_width_digits(n as nat, w as nat),
    decreases w,
{
    if w > 0 {
        push_fixed_width(out, n / 10, w - 1);
        push_digit_char(out, n % 10);
        proof {
            assert(out@ =~= old(out)@ + fixed_width_digits(n as nat, w as nat));
        }
    } else {
        proof {
            assert(out@ =~= old(out)@ + fixed_width_digits(n as nat, 0));
        }
    }
}

/// Renders a subunit amount as canonical decimal text: the whole coins, a
/// decimal point, and exactly eight fractional digits.
pub fn render_btc_text(sats: u64) -> (r: String)
    ensures
        r@ == render_sats(sats as nat),
{
    let mut out = String::new();
    push_dec_digits(&mut out, sats / SATS_PER_COIN);
    out.append(".");
    push_fixed_width(&mut out, sats % SATS_PER_COIN, 8);
    proof {
        reveal_strlit(".");
        assert(out@ =~= render_sats(sats as nat));
    }
    out
}

/// Renders a signed subunit amount as canonical decimal text, with a leading
/// minus sign when negative.
pub fn render_signed_btc_text(sats: i64) -> (r: String)
    ensures
        r@ == render_signed_sats(sats as int),
{
    if sats < 0 {
        let m: u64 = if sats == i64::MIN {
            9_223_372_036_854_775_808u64
        } else {
            (-sats) as u64
        };
        let mut out = String::new();
        out.append("-");
        let tail = render_btc_text(m);
        out.append(tail.as_str());
        proof {
            reveal_strlit("-");
            assert(out@ =~= render_signed_sats(sats as int));
        }
        out
    } else {
        render_btc_text(sats as u64)
    }
}

// ---------------------------------------------------------------------------
// The rendering round trip.
// ---------------------------------------------------------------------------

/// Characters produced for digits are decimal digits with the same value.
proof fn lemma_digit_char_val(d: int)
    requires
        0 <= d <= 9,
    ensures
        is_dec_digit(digit_char(d)),
        digit_val(digit_char(d)) == d,
{
}

proof fn lemma_dec_digits_shape(n: nat)
    ensures
        dec_digits_of(n).len() >= 1,
        all_dec_digits(dec_digits_of(n)),
        digits_val(dec_digits_of(n)) == n,
    decreases n,
{
    if n < 10 {
        lemma_digit_char_val(n as int);
        let s = dec_digits_of(n);
        assert(s =~= seq![digit_char(n as int)]);
        assert(s.drop_last() =~= Seq::<char>::empty());
        assert(digits_val(Seq::<char>::empty()) == 0);
        assert(digits_val(s) == digits_val(s.drop_last()) * 10 + digit_val(s.last()));
        assert(digits_val(s) == n);
    } else {
        lemma_dec_digits_shape(n / 10);
        lemma_digit_char_val((n % 10) as int);
        let s = dec_digits_of(n);
        assert(s.drop_last() =~= dec_digits_of(n / 10));
        assert(s.last() == digit_char((n % 10) as int));
        assert(digits_val(s) == (n / 10) * 10 + (n % 10));
    }
}

proof fn lemma_fixed_width_shape(n: nat, w: nat)
    ensures
        fixed_width_digits(n, w).len() == w,
        all_dec_digits(fixed_width_digits(n, w)),
        n < pow10(w) ==> digits_val(fixed_width_digits(n, w)) == n,
    decreases w,
{
    if w > 0 {
        lemma_fixed_width_shape(n / 10, (w - 1) as nat);
        lemma_digit_char_val((n % 10) as int);
        let s = fixed_width_digits(n, w);
        assert(s.drop_last() =~= fixed_width_digits(n / 10, (w - 1) as nat));
        assert(s.last() == digit_char((n % 10) as int));
        if n < pow10(w) {
            assert(n / 10 < pow10((w - 1) as nat)) by {
                assert(pow10(w) == 10 * pow10((w - 1) as nat));
            }
            assert(digits_val(s) == (n / 10) * 10 + (n % 10));
        }
    }
}

proof fn lemma_render_round_trip_n(m: nat)
    requires
        m <= u64::MAX,
    ensures
        amount_text_ok(render_sats(m)),
        dec_text_ok(render_sats(m)),
        dec_text_sats(render_sats(m)) == m,
        sdec_text_sats(render_sats(m)) == m,
{
    let unit = SATS_PER_COIN as nat;
    let q = m / unit;
    let f = m % unit;
    let s = render_sats(m);
    let ip = dec_digits_of(q);
    let fp = fixed_width_digits(f, 8);
    lemma_dec_digits_shape(q);
    lemma_pow10_8();
    lemma_fixed_width_shape(f, 8);
    let k = ip.len() as int;
    assert(s[k] == '.');
    assert(s.take(k) =~= ip);
    assert(s.skip(k + 1) =~= fp);
    assert(dot_split_ok(s, k));
    lemma_dot_split_value(s, k);
    assert(pow10(0) == 1);
    vstd::arithmetic::div_mod::lemma_fundamental_div_mod(m as int, unit as int);
    assert(dec_text_sats(s) == q * unit + f * 1);
    assert(s[0] == ip[0]);
    assert(is_dec_digit(s[0]));
    assert(s[0] != '-');
}

/// Rendering an unsigned amount and converting the text back yields the same
/// amount; the canonical rendering is always exactly representable.
pub proof fn lemma_btc_text_round_trip(sats: u64)
    ensures
        amount_text_ok(render_sats(sats as nat)),
        sdec_text_sats(render_sats(sats as nat)) == sats,
{
    lemma_render_round_trip_n(sats as nat);
}

/// Rendering a signed amount and converting the text back yields the same
/// amount; the canonical rendering is always exactly representable.
pub proof fn lemma_signed_btc_text_round_trip(sats: i64)
    ensures
        signed_amount_text_ok(render_signed_sats(sats as int)),
        sdec_text_sats(render_signed_sats(sats as int)) == sats,
{
    if sats < 0 {
        let m = (-(sats as int)) as nat;
        lemma_render_round_trip_n(m);
        let s = render_signed_sats(sats as int);
        assert(s[0] == '-');
        assert(s.skip(1) =~= render_sats(m));
    } else {
        lemma_render_round_trip_n(sats as nat);
        let s = render_signed_sats(sats as int);
        let q = (sats as nat) / (SATS_PER_COIN as nat);
        lemma_dec_digits_shape(q);
        assert(s[0] == dec_digits_of(q)[0]);
        assert(is_dec_digit(s[0]));
        assert(s[0] != '-');
    }
}

// ---------------------------------------------------------------------------
// The amount types' own conversions.
// ---------------------------------------------------------------------------

impl Amount {
    /// Constructs an amount from subunits directly.
    pub fn from_sat(sats: u64) -> (r: Amount)
        ensures
            r.sats == sats,
    {
        Amount { sats }
    }

    /// The amount in subunits.
    pub fn to_sat(&self) -> (r: u64)
        ensures
            r == self.sats,
    {
        self.sats
    }

    /// Converts base-unit decimal text into an unsigned amount.
    ///
    /// Succeeds exactly on well-formed decimal text whose subunit value is
    /// non-negative and fits `u64`; malformed text or more than eight
    /// fractional digits is an invalid decimal, and a negative or too-large
    /// value is out of range.
    pub fn from_btc_text(s: &str) -> (r: Result<Amount, ParseAmountError>)
        ensures
            r is Ok <==> amount_text_ok(s@),
            r matches Ok(a) ==> a.sats == sdec_text_sats(s@),
            r matches Err(e) ==> (e == ParseAmountError::InvalidDecimal <==> !sdec_text_ok(s@)),
            sdec_text_ok(s@) && r is Err ==> r->Err_0 == ParseAmountError::OutOfRange,
    {
        let n = s.unicode_len();
        let negative = n >= 1 && s.get_char(0) == '-';
        if negative {
            let rest = s.substring_char(1, n);
            proof {
                assert(rest@ =~= s@.skip(1));
            }
            match parse_btc_text(rest) {
                Ok(m) => {
                    if m == 0 {
                        Ok(Amount { sats: 0 })
                    } else {
                        proof {
                            lemma_dec_text_sats_nonneg(s@.skip(1));
                        }
                        Err(ParseAmountError::OutOfRange)
                    }
                },
                Err(e) => {
                    proof {
                        if dec_text_ok(s@.skip(1)) {
                            assert(dec_text_sats(s@.skip(1)) > u64::MAX);
                        }
                    }
                    Err(e)
                },
            }
        } else {
            match parse_btc_text(s) {
                Ok(v) => {
                    proof {
                        lemma_dec_text_sats_nonneg(s@);
                    }
                    Ok(Amount { sats: v })
                },
                Err(e) => Err(e),
            }
        }
    }

    /// Renders the amount as canonical base-unit decimal text.
    pub fn to_btc_text(&self) -> (r: String)
        ensures
            r@ == render_sats(self.sats as nat),
    {
        render_btc_text(self.sats)
    }
}

impl SignedAmount {
    /// Constructs a signed amount from subunits directly.
    pub fn from_sat(sats: i64) -> (r: SignedAmount)
        ensures
            r.sats == sats,
    {
        SignedAmount { sats }
    }

    /// The amount in subunits.
    pub fn to_sat(&self) -> (r: i64)
        ensures
            r == self.sats,
    {
        self.sats
    }

    /// Converts base-unit decimal text, optionally minus-signed, into a
    /// signed amount; the exact-value and failure conditions follow the
    /// unsigned conversion with `i64` range bounds.
    pub fn from_btc_text(s: &str) -> (r: Result<SignedAmount, ParseAmountError>)
        ensures
            r is Ok <==> signed_amount_text_ok(s@),
            r matches Ok(a) ==> a.sats == sdec_text_sats(s@),
            r matches Err(e) ==> (e == ParseAmountError::InvalidDecimal <==> !sdec_text_ok(s@)),
            sdec_text_ok(s@) && r is Err ==> r->Err_0 == ParseAmountError::OutOfRange,
    {
        match parse_signed_btc_text(s) {
            Ok(v) => Ok(SignedAmount { sats: v }),
            Err(e) => Err(e),
        }
    }

    /// Renders the amount as canonical base-unit decimal text.
    pub fn to_btc_text(&self) -> (r: String)
        ensures
            r@ == render_signed_sats(self.sats as int),
    {
        render_signed_btc_text(self.sats)
    }
}

impl FeeRate {
    /// Converts a rate quoted as base-unit decimal coins per thousand size
    /// units into subunits per size unit: the inner amount conversion
    /// followed by integer division by one thousand.
    pub fn from_btc_per_kvb_text(s: &str) -> (r: Result<FeeRate, ParseAmountError>)
        ensures
            r is Ok <==> amount_text_ok(s@),
            r matches Ok(fr) ==> fr.sat_per_vb == sdec_text_sats(s@) / 1000,
            r matches Err(e) ==> (e == ParseAmountError::InvalidDecimal <==> !sdec_text_ok(s@)),
            sdec_text_ok(s@) && r is Err ==> r->Err_0 == ParseAmountError::OutOfRange,
    {
        match Amount::from_btc_text(s) {
            Ok(a) => Ok(FeeRate { sat_per_vb: a.sats / 1000 }),
            Err(e) => Err(e),
        }
    }
}

} // verus!
