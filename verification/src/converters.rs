//! Fixed-point decimals and address conversions.
use vstd::prelude::*;

use crate::coin::{digits_value, is_digit};
use crate::error::{StdError, StdErrorView};
use crate::text::{decimal_digits, result_view, str_to_owned};

verus! {

/// Number of fractional digits of a `Decimal`.
pub const DECIMAL_PLACES: u32 = 18;

/// `10^18`, the atomics of one.
pub const DECIMAL_FRACTIONAL: u128 = 1_000_000_000_000_000_000u128;

/// A fixed-point decimal with 18 fractional digits, held by its atomics:
/// the value is `atomics / 10^18`.
#[derive(Debug, Clone, Copy, PartialEq, Eq)]
pub struct Decimal {
    pub atomics: u128,
}

/// `10^e`.
pub open spec fn pow10(e: nat) -> nat
    decreases e,
{
    if e == 0 {
        1
    } else {
        10 * pow10((e - 1) as nat)
    }
}

/// What an unsigned integer parse (`u128::from_str`, and the 256-bit parse of
/// the framework) reads: an optional `+`, then one or more digits, whose value
/// is at most `max`.
pub open spec fn spec_parse_uint(s: Seq<char>, max: nat) -> Option<nat> {
    let digits = if s.len() > 0 && s[0] == '+' {
        s.drop_first()
    } else {
        s
    };
    if digits.len() > 0 && (forall|i: int| 0 <= i < digits.len() ==> is_digit(#[trigger] digits[i]))
        && digits_value(digits) <= max {
        Some(digits_value(digits))
    } else {
        None
    }
}

/// What `u128::from_str` reads.
pub open spec fn spec_parse_u128(s: Seq<char>) -> Option<nat> {
    spec_parse_uint(s, u128::MAX as nat)
}

/// The atomics that a fixed-point decimal parse with 18 places reads from
/// `s`: a whole part, and after a single dot a fractional part of at most 18
/// characters; `None` when the text is refused or the atomics exceed `max`.
pub open spec fn spec_decimal_parse(s: Seq<char>, max: nat) -> Option<nat> {
    let whole_part = crate::text::before_char(s, '.');
    match spec_parse_uint(whole_part, max) {
        None => None,
        Some(whole) => if whole * DECIMAL_FRACTIONAL > max {
            None
        } else if whole_part.len() == s.len() {
            Some(whole * (DECIMAL_FRACTIONAL as nat))
        } else {
            let rest = s.skip(whole_part.len() + 1int);
            let fractional_part = crate::text::before_char(rest, '.');
            if fractional_part.len() < rest.len() {
                None
            } else {
                match spec_parse_uint(fractional_part, max) {
                    None => None,
                    Some(fractional) => if fractional_part.len() > 18 {
                        None
                    } else if whole * DECIMAL_FRACTIONAL + fractional * pow10(
                        (18 - fractional_part.len()) as nat,
                    ) > max {
                        None
                    } else {
                        Some(
                            whole * (DECIMAL_FRACTIONAL as nat) + fractional * pow10(
                                (18 - fractional_part.len()) as nat,
                            ),
                        )
                    },
                }
            }
        },
    }
}

/// The atomics that `Decimal::from_str` reads from `s`.
pub open spec fn spec_decimal_from_str(s: Seq<char>) -> Option<u128> {
    match spec_decimal_parse(s, u128::MAX as nat) {
        Some(v) => Some(v as u128),
        None => None,
    }
}

proof fn lemma_digit_char(d: nat)
    requires
        d < 10,
    ensures
        is_digit(crate::text::digit_char(d)),
        (crate::text::digit_char(d) as int) - 48 == d,
{
}

/// The decimal digits of `n` are digits, at least one, and read back as `n`.
proof fn lemma_decimal_digits(n: nat)
    ensures
        decimal_digits(n).len() >= 1,
        forall|i: int| 0 <= i < decimal_digits(n).len() ==> is_digit(#[trigger] decimal_digits(n)[i]),
        digits_value(decimal_digits(n)) == n,
    decreases n,
{
    lemma_digit_char(n % 10);
    if n < 10 {
        assert(decimal_digits(n) =~= seq![crate::text::digit_char(n)]);
        assert(seq![crate::text::digit_char(n)].drop_last() =~= Seq::<char>::empty());
        assert(digits_value(Seq::<char>::empty()) == 0);
        assert(decimal_digits(n).last() == crate::text::digit_char(n));
        assert(n % 10 == n);
    } else {
        lemma_decimal_digits(n / 10);
        let s = decimal_digits(n / 10);
        assert(decimal_digits(n).drop_last() =~= s);
        assert(decimal_digits(n).last() == crate::text::digit_char(n % 10));
        assert(digits_value(decimal_digits(n)) == digits_value(s) * 10 + (n % 10));
    }
}

/// A number below `10^k` has at most `k` digits.
proof fn lemma_decimal_digits_len(n: nat, k: nat)
    requires
        k >= 1,
        n < pow10(k),
    ensures
        decimal_digits(n).len() <= k,
    decreases n,
{
    if n >= 10 {
        assert(k >= 2) by {
            if k == 1 {
                assert(pow10(0) == 1);
            }
        }
        assert(n / 10 < pow10((k - 1) as nat));
        lemma_decimal_digits_len(n / 10, (k - 1) as nat);
    }
}

/// Leading zeros do not change the number a string of digits reads as.
proof fn lemma_leading_zeros(z: Seq<char>, s: Seq<char>)
    requires
        forall|i: int| 0 <= i < z.len() ==> #[trigger] z[i] == '0',
    ensures
        digits_value(z + s) == digits_value(s),
    decreases z.len() + s.len(),
{
    if s.len() == 0 {
        assert(z + s =~= z);
        if z.len() > 0 {
            assert(z.drop_last() + s =~= z.drop_last());
            lemma_leading_zeros(z.drop_last(), s);
            assert((z + s).drop_last() =~= z.drop_last());
        }
    } else {
        assert((z + s).drop_last() =~= z + s.drop_last());
        lemma_leading_zeros(z, s.drop_last());
    }
}

/// Removing trailing zeros divides by a power of ten: the rest is a prefix of
/// digits that is empty only when the number is zero.
proof fn lemma_trim_trailing_zeros(s: Seq<char>)
    requires
        forall|i: int| 0 <= i < s.len() ==> is_digit(#[trigger] s[i]),
    ensures
        trim_trailing_zeros(s).len() <= s.len(),
        trim_trailing_zeros(s) == s.take(trim_trailing_zeros(s).len() as int),
        digits_value(s) == digits_value(trim_trailing_zeros(s)) * pow10(
            (s.len() - trim_trailing_zeros(s).len()) as nat,
        ),
        digits_value(s) > 0 ==> trim_trailing_zeros(s).len() > 0,
    decreases s.len(),
{
    let t = trim_trailing_zeros(s);
    if s.len() > 0 && s.last() == '0' {
        let d = s.drop_last();
        lemma_trim_trailing_zeros(d);
        assert(t == trim_trailing_zeros(d));
        assert(d.take(t.len() as int) =~= s.take(t.len() as int));
        let e = (d.len() - t.len()) as nat;
        assert(pow10(e + 1) == 10 * pow10(e));
        assert(digits_value(s) == digits_value(d) * 10 + 0);
        let vt = digits_value(t);
        assert(digits_value(d) == vt * pow10(e));
        assert(vt * pow10(e) * 10 == vt * (10 * pow10(e))) by (nonlinear_arith);
        assert((s.len() - t.len()) as nat == e + 1);
        assert(digits_value(s) == vt * pow10(e + 1));
        assert(digits_value(s) > 0 ==> t.len() > 0) by {
            if t.len() == 0 {
                assert(vt == 0) by {
                    assert(t =~= Seq::<char>::empty());
                }
                assert(0 * pow10(e + 1) == 0);
            }
        }
    } else {
        assert(digits_value(s) * 1 == digits_value(s));
        assert(s.take(s.len() as int) =~= s);
        assert(pow10(0) == 1);
    }
}

proof fn lemma_no_dot_before(s: Seq<char>)
    requires
        forall|i: int| 0 <= i < s.len() ==> is_digit(#[trigger] s[i]),
    ensures
        crate::text::before_char(s, '.') == s,
    decreases s.len(),
{
    if s.len() > 0 {
        assert(is_digit(s[0]));
        let t = s.drop_first();
        assert forall|i: int| 0 <= i < t.len() implies is_digit(#[trigger] t[i]) by {
            assert(t[i] == s[i + 1]);
        }
        lemma_no_dot_before(t);
        assert(seq![s[0]] + t =~= s);
    }
}

/// The text of a decimal reads back as the same decimal, under any bound it respects.
pub proof fn law_decimal_text_reads_back(a: nat, max: nat)
    requires
        a <= max,
    ensures
        spec_decimal_parse(decimal_text_of(a), max) == Some(a),
{
    let f1 = DECIMAL_FRACTIONAL as nat;
    reveal_with_fuel(pow10, 19);
    assert(pow10(18) == f1);
    let w = a / f1;
    let f = a % f1;
    assert(a == w * f1 + f);
    let dw = decimal_digits(w);
    lemma_decimal_digits(w);
    lemma_no_dot_before(dw);
    assert(dw[0] != '+');
    assert(spec_parse_uint(dw, max) == Some(w));
    if f == 0 {
        assert(decimal_text_of(a) == dw);
    } else {
        let df = decimal_digits(f);
        lemma_decimal_digits(f);
        lemma_decimal_digits_len(f, 18);
        let p = pad_zeros(df, 18);
        let z = Seq::new((18 - df.len()) as nat, |i: int| '0');
        if df.len() < 18 {
            assert(p == z + df);
            lemma_leading_zeros(z, df);
        } else {
            assert(p == df);
        }
        assert(p.len() == 18);
        assert forall|i: int| 0 <= i < p.len() implies is_digit(#[trigger] p[i]) by {
            if df.len() < 18 && i < z.len() {
                assert(p[i] == z[i]);
            } else if df.len() < 18 {
                assert(p[i] == df[i - z.len()]);
            }
        }
        assert(digits_value(p) == f);
        let t = trim_trailing_zeros(p);
        lemma_trim_trailing_zeros(p);
        assert forall|i: int| 0 <= i < t.len() implies is_digit(#[trigger] t[i]) by {
            assert(t[i] == p.take(t.len() as int)[i]);
        }
        lemma_no_dot_before(t);
        assert(t[0] != '+');
        let e = (18 - t.len()) as nat;
        assert(f == digits_value(t) * pow10(e));
        assert(pow10(e) >= 1) by {
            lemma_pow10_positive(e);
        }
        assert(digits_value(t) <= f) by (nonlinear_arith)
            requires
                f == digits_value(t) * pow10(e),
                pow10(e) >= 1,
        ;
        assert(spec_parse_uint(t, max) == Some(digits_value(t)));
        reveal_strlit(".");
        let text = decimal_text_of(a);
        assert(text == dw + "."@ + t);
        assert("."@ =~= seq!['.']);
        assert forall|k: int| 0 <= k < dw.len() implies #[trigger] text[k] != '.' by {
            assert(text[k] == dw[k]);
        }
        assert(text[dw.len() as int] == '.');
        crate::text::lemma_before_char_take(text, '.', dw.len() as int);
        assert(text.take(dw.len() as int) =~= dw);
        assert(text.skip(dw.len() + 1int) =~= t);
    }
}

proof fn lemma_pow10_positive(e: nat)
    ensures
        pow10(e) >= 1,
    decreases e,
{
    if e > 0 {
        lemma_pow10_positive((e - 1) as nat);
    }
}

/// Calls `cosmwasm_std::Decimal::from_str`; claims that it accepts exactly
/// the texts that `spec_decimal_from_str` describes, with those atomics.
#[verifier::external_body]
fn decimal_from_str(s: &str) -> (res: Option<Decimal>)
    ensures
        match res {
            Some(d) => spec_decimal_from_str(s@) == Some(d.atomics),
            None => spec_decimal_from_str(s@) is None,
        },
{
    <cosmwasm_std::Decimal as std::str::FromStr>::from_str(s).ok().map(
        |d| Decimal { atomics: d.atomics().u128() },
    )
}

/// Reads a decimal from its text; the text must be one that is accepted.
pub fn str_to_dec(s: &str) -> (res: Decimal)
    requires
        spec_decimal_from_str(s@) is Some,
    ensures
        Some(res.atomics) == spec_decimal_from_str(s@),
{
    match decimal_from_str(s) {
        Some(d) => d,
        None => {
            proof {
                assert(false);
            }
            Decimal { atomics: 0 }
        },
    }
}

/// Reads a decimal from its text, or `None` when the text is refused.
pub fn try_str_to_dec(s: &str) -> (res: Option<Decimal>)
    ensures
        match res {
            Some(d) => spec_decimal_from_str(s@) == Some(d.atomics),
            None => spec_decimal_from_str(s@) is None,
        },
{
    decimal_from_str(s)
}

/// The decimal of an integer, `num / 1`.
pub fn u128_to_dec(num: u128) -> (res: Decimal)
    requires
        num * DECIMAL_FRACTIONAL <= u128::MAX,
    ensures
        res.atomics == num * DECIMAL_FRACTIONAL,
{
    decimal_from_ratio(num, 1)
}

/// Calls `cosmwasm_std::Decimal::from_ratio`: atomics are
/// `numerator * 10^18 / denominator`, rounded down.
#[verifier::external_body]
fn decimal_from_ratio(numerator: u128, denominator: u128) -> (res: Decimal)
    requires
        denominator != 0,
        numerator * DECIMAL_FRACTIONAL / (denominator as int) <= u128::MAX,
    ensures
        res.atomics == numerator * DECIMAL_FRACTIONAL / (denominator as int),
{
    Decimal { atomics: cosmwasm_std::Decimal::from_ratio(numerator, denominator).atomics().u128() }
}

/// The smallest integer not below the decimal.
pub open spec fn spec_ceil(atomics: u128) -> nat {
    if atomics == 0 {
        0
    } else {
        (1 + (atomics - 1) / (DECIMAL_FRACTIONAL as int)) as nat
    }
}

/// Calls `cosmwasm_std::Decimal::to_uint_ceil`: the value rounded up.
#[verifier::external_body]
fn decimal_to_uint_ceil(dec: Decimal) -> (res: u128)
    ensures
        res == spec_ceil(dec.atomics),
{
    cosmwasm_std::Decimal::raw(dec.atomics).to_uint_ceil().u128()
}

/// The decimal rounded up to an integer.
pub fn dec_to_u128(dec: Decimal) -> (res: u128)
    ensures
        res == spec_ceil(dec.atomics),
{
    decimal_to_uint_ceil(dec)
}

/// The decimal rounded up to an integer amount.
pub fn dec_to_uint128(dec: Decimal) -> (res: u128)
    ensures
        res == spec_ceil(dec.atomics),
{
    decimal_to_uint_ceil(dec)
}

/// Calls `cosmwasm_std::Decimal`'s `*`: atomics `a * b / 10^18`, rounded down.
#[verifier::external_body]
pub(crate) fn decimal_mul(a: Decimal, b: Decimal) -> (res: Decimal)
    requires
        a.atomics * b.atomics / (DECIMAL_FRACTIONAL as int) <= u128::MAX,
    ensures
        res.atomics == a.atomics * b.atomics / (DECIMAL_FRACTIONAL as int),
{
    let r = cosmwasm_std::Decimal::raw(a.atomics) * cosmwasm_std::Decimal::raw(b.atomics);
    Decimal { atomics: r.atomics().u128() }
}

/// Calls `cosmwasm_std::Decimal`'s `/`: atomics `a * 10^18 / b`, rounded down.
#[verifier::external_body]
pub(crate) fn decimal_div(a: Decimal, b: Decimal) -> (res: Decimal)
    requires
        b.atomics != 0,
        a.atomics * DECIMAL_FRACTIONAL / (b.atomics as int) <= u128::MAX,
    ensures
        res.atomics == a.atomics * DECIMAL_FRACTIONAL / (b.atomics as int),
{
    let r = cosmwasm_std::Decimal::raw(a.atomics) / cosmwasm_std::Decimal::raw(b.atomics);
    Decimal { atomics: r.atomics().u128() }
}

/// `s` with `'0'` added in front up to `width` characters.
pub open spec fn pad_zeros(s: Seq<char>, width: nat) -> Seq<char> {
    if s.len() >= width {
        s
    } else {
        Seq::new((width - s.len()) as nat, |i: int| '0') + s
    }
}

/// `s` without its trailing `'0'` characters.
pub open spec fn trim_trailing_zeros(s: Seq<char>) -> Seq<char>
    decreases s.len(),
{
    if s.len() > 0 && s.last() == '0' {
        trim_trailing_zeros(s.drop_last())
    } else {
        s
    }
}

/// The text of a decimal: the whole part, and when the fraction is not zero a
/// dot and the 18 fractional digits without trailing zeros.
pub open spec fn decimal_text_of(atomics: nat) -> Seq<char> {
    let whole = atomics / (DECIMAL_FRACTIONAL as nat);
    let fractional = atomics % (DECIMAL_FRACTIONAL as nat);
    if fractional == 0 {
        decimal_digits(whole)
    } else {
        decimal_digits(whole) + "."@ + trim_trailing_zeros(pad_zeros(decimal_digits(fractional), 18))
    }
}

/// The text of a `Decimal`.
pub open spec fn decimal_text(atomics: u128) -> Seq<char> {
    decimal_text_of(atomics as nat)
}

/// Calls `cosmwasm_std::Decimal`'s `to_string`; its text is `decimal_text`,
/// as the `Display` impl in the crate's source builds it.
#[verifier::external_body]
pub(crate) fn decimal_to_string(d: Decimal) -> (res: String)
    ensures
        res@ == decimal_text(d.atomics),
{
    cosmwasm_std::Decimal::raw(d.atomics).to_string()
}

/// `2^128`.
pub open spec fn two_pow_128() -> nat {
    0x1_0000_0000_0000_0000_0000_0000_0000_0000nat
}

/// The largest 256-bit number.
pub open spec fn u256_max() -> nat {
    (two_pow_128() * two_pow_128() - 1) as nat
}

/// A 256-bit fixed-point decimal with 18 fractional digits, held by its
/// atomics split in a high and a low half: the atomics are `hi * 2^128 + lo`.
#[derive(Debug, Clone, Copy, PartialEq, Eq)]
pub struct Decimal256 {
    pub hi: u128,
    pub lo: u128,
}

impl Decimal256 {
    /// The atomics of the decimal.
    pub open spec fn atomics(self) -> nat {
        (self.hi * two_pow_128() + self.lo) as nat
    }
}

/// Calls `cosmwasm_std::Decimal256::from_ratio`: atomics
/// `numerator * 10^18 / denominator`, rounded down.
#[verifier::external_body]
fn decimal256_from_ratio(numerator: u128, denominator: u128) -> (res: Decimal256)
    requires
        denominator != 0,
    ensures
        res.atomics() == numerator * DECIMAL_FRACTIONAL / (denominator as int),
{
    let b = cosmwasm_std::Decimal256::from_ratio(numerator, denominator).atomics().to_be_bytes();
    Decimal256 {
        hi: u128::from_be_bytes(b[..16].try_into().unwrap()),
        lo: u128::from_be_bytes(b[16..].try_into().unwrap()),
    }
}

/// Calls `cosmwasm_std::Decimal256::from_str`; claims that it reads the same
/// texts as `Decimal::from_str` with 256-bit atomics.
#[verifier::external_body]
fn decimal256_from_str(s: &str) -> (res: Option<Decimal256>)
    ensures
        match res {
            Some(d) => spec_decimal_parse(s@, u256_max()) == Some(d.atomics()),
            None => spec_decimal_parse(s@, u256_max()) is None,
        },
{
    let d = <cosmwasm_std::Decimal256 as std::str::FromStr>::from_str(s).ok()?;
    let b = d.atomics().to_be_bytes();
    Some(Decimal256 {
        hi: u128::from_be_bytes(b[..16].try_into().unwrap()),
        lo: u128::from_be_bytes(b[16..].try_into().unwrap()),
    })
}

/// Calls `cosmwasm_std::Decimal256`'s `to_string`; its text is
/// `decimal_text_of`, as for `Decimal`.
#[verifier::external_body]
fn decimal256_to_string(d: Decimal256) -> (res: String)
    ensures
        res@ == decimal_text_of(d.atomics()),
{
    let mut b = [0u8; 32];
    b[..16].copy_from_slice(&d.hi.to_be_bytes());
    b[16..].copy_from_slice(&d.lo.to_be_bytes());
    cosmwasm_std::Decimal256::new(cosmwasm_std::Uint256::from_be_bytes(b)).to_string()
}

/// The smallest integer not below a decimal of the given atomics.
pub open spec fn spec_ceil_of(atomics: nat) -> nat {
    if atomics == 0 {
        0
    } else {
        (1 + (atomics - 1) / (DECIMAL_FRACTIONAL as int)) as nat
    }
}

/// Calls `cosmwasm_std::Decimal256::to_uint_ceil` and then
/// `Uint128::try_from`: the value rounded up, when it fits in 128 bits.
#[verifier::external_body]
fn decimal256_to_u128_ceil(d: Decimal256) -> (res: Option<u128>)
    ensures
        match res {
            Some(v) => spec_ceil_of(d.atomics()) == v,
            None => spec_ceil_of(d.atomics()) > u128::MAX,
        },
{
    let mut b = [0u8; 32];
    b[..16].copy_from_slice(&d.hi.to_be_bytes());
    b[16..].copy_from_slice(&d.lo.to_be_bytes());
    let c = cosmwasm_std::Decimal256::new(cosmwasm_std::Uint256::from_be_bytes(b)).to_uint_ceil();
    cosmwasm_std::Uint128::try_from(c).ok().map(|v| v.u128())
}

/// The 256-bit decimal of an integer, `num / 1`.
pub fn u128_to_dec256(num: u128) -> (res: Decimal256)
    ensures
        res.atomics() == num * DECIMAL_FRACTIONAL,
{
    decimal256_from_ratio(num, 1)
}

/// The same value as a 256-bit decimal (through its text, which reads back
/// exactly).
pub fn dec_to_dec256(dec: Decimal) -> (res: Decimal256)
    ensures
        res.atomics() == dec.atomics,
{
    let text = decimal_to_string(dec);
    proof {
        assert(u128::MAX <= u256_max());
        law_decimal_text_reads_back(dec.atomics as nat, u256_max());
    }
    match decimal256_from_str(text.as_str()) {
        Some(d) => d,
        None => {
            proof {
                assert(false);
            }
            Decimal256 { hi: 0, lo: 0 }
        },
    }
}

/// The first 18 characters of a text, or all of it when shorter.
pub open spec fn first_18(s: Seq<char>) -> Seq<char> {
    if s.len() <= 18 {
        s
    } else {
        s.take(18)
    }
}

/// The decimal read from the first 18 characters of the 256-bit decimal's
/// text; those characters must read as a decimal.
pub fn dec256_to_dec(dec256: Decimal256) -> (res: Decimal)
    requires
        spec_decimal_from_str(first_18(decimal_text_of(dec256.atomics()))) is Some,
    ensures
        Some(res.atomics) == spec_decimal_from_str(first_18(decimal_text_of(dec256.atomics()))),
{
    let text = decimal256_to_string(dec256);
    let n = text.as_str().unicode_len();
    let end: usize = if n <= 18 {
        n
    } else {
        18
    };
    let head = text.as_str().substring_char(0, end);
    assert(head@ =~= first_18(decimal_text_of(dec256.atomics())));
    str_to_dec(head)
}

/// The 256-bit decimal rounded up; the result must fit in 128 bits.
pub fn dec256_to_u128(dec256: Decimal256) -> (res: u128)
    requires
        spec_ceil_of(dec256.atomics()) <= u128::MAX,
    ensures
        res == spec_ceil_of(dec256.atomics()),
{
    match decimal256_to_u128_ceil(dec256) {
        Some(v) => v,
        None => {
            proof {
                assert(false);
            }
            0
        },
    }
}

/// Reads each text as a decimal; every text must be accepted.
pub fn str_vec_to_dec_vec(str_vec: &[&str]) -> (res: Vec<Decimal>)
    requires
        forall|i: int| 0 <= i < str_vec@.len() ==> (#[trigger] spec_decimal_from_str(
            str_vec@[i]@,
        )) is Some,
    ensures
        res@.len() == str_vec@.len(),
        forall|i: int|
            0 <= i < str_vec@.len() ==> Some(#[trigger] res@[i].atomics) == spec_decimal_from_str(
                str_vec@[i]@,
            ),
{
    let mut out: Vec<Decimal> = Vec::new();
    let mut i: usize = 0;
    while i < str_vec.len()
        invariant
            i <= str_vec@.len(),
            out@.len() == i,
            forall|j: int| 0 <= j < str_vec@.len() ==> (#[trigger] spec_decimal_from_str(
                str_vec@[j]@,
            )) is Some,
            forall|j: int|
                0 <= j < i ==> Some(#[trigger] out@[j].atomics) == spec_decimal_from_str(
                    str_vec@[j]@,
                ),
        decreases str_vec@.len() - i,
    {
        let d = str_to_dec(str_vec[i]);
        out.push(d);
        i = i + 1;
    }
    out
}

/// The amounts as framework integers (both are 128-bit unsigned numbers).
pub fn u128_vec_to_uint128_vec(u128_vec: &[u128]) -> (res: Vec<u128>)
    ensures
        res@ == u128_vec@,
{
    let mut out: Vec<u128> = Vec::new();
    let mut i: usize = 0;
    while i < u128_vec.len()
        invariant
            i <= u128_vec@.len(),
            out@ == u128_vec@.take(i as int),
        decreases u128_vec@.len() - i,
    {
        out.push(u128_vec[i]);
        i = i + 1;
        assert(out@ =~= u128_vec@.take(i as int));
    }
    assert(u128_vec@.take(i as int) =~= u128_vec@);
    out
}

/// The text of std's integer parse error for a text that is not a `u128`.
pub uninterp spec fn u128_parse_error_text(s: Seq<char>) -> Seq<char>;

/// Calls `cosmwasm_std::Uint128::from_str`: reads `s` as `u128::from_str`
/// does; a refused text gives a generic error `Parsing u128: ` followed by
/// std's parse error text, which is named `u128_parse_error_text`.
#[verifier::external_body]
pub(crate) fn parse_uint128(s: &str) -> (res: Result<u128, StdError>)
    ensures
        match res {
            Ok(v) => spec_parse_u128(s@) == Some(v as nat),
            Err(e) => spec_parse_u128(s@) is None && e.deep_view() == (StdErrorView::GenericErr {
                msg: "Parsing u128: "@ + u128_parse_error_text(s@),
            }),
        },
{
    match <cosmwasm_std::Uint128 as std::str::FromStr>::from_str(s) {
        Ok(v) => Ok(v.u128()),
        Err(cosmwasm_std::StdError::GenericErr { msg, .. }) => Err(StdError::GenericErr { msg }),
        Err(e) => Err(StdError::Other { text: e.to_string() }),
    }
}

/// What `bech32::decode` gives for a text: the human-readable part and the
/// 5-bit data without checksum, or the text of its error.
pub uninterp spec fn bech32_decoded(s: Seq<char>) -> Result<(Seq<char>, Seq<u8>), Seq<char>>;

/// What `bech32::encode` gives for a human-readable part and 5-bit data with
/// the plain bech32 variant, or the text of its error.
pub uninterp spec fn bech32_encoded(hrp: Seq<char>, data: Seq<u8>) -> Result<Seq<char>, Seq<char>>;

/// Calls `bech32::decode`; its outcome is named `bech32_decoded`, and each
/// data value is below 32, as the crate's `u5` type holds.
#[verifier::external_body]
fn bech32_decode(s: &str) -> (res: Result<(String, Vec<u8>), String>)
    ensures
        match res {
            Ok((hrp, data)) => bech32_decoded(s@) == Ok::<(Seq<char>, Seq<u8>), Seq<char>>(
                (hrp@, data@),
            ),
            Err(e) => bech32_decoded(s@) == Err::<(Seq<char>, Seq<u8>), Seq<char>>(e@),
        },
        match res {
            Ok((_, data)) => forall|i: int| 0 <= i < data@.len() ==> data@[i] < 32,
            Err(_) => true,
        },
{
    match bech32::decode(s) {
        Ok((hrp, data, _)) => Ok((hrp, data.iter().map(|x| x.to_u8()).collect())),
        Err(e) => Err(e.to_string()),
    }
}

/// Calls `bech32::encode` with the plain bech32 variant; its outcome is named
/// `bech32_encoded`.
#[verifier::external_body]
fn bech32_encode(hrp: &str, data: &Vec<u8>) -> (res: Result<String, String>)
    requires
        forall|i: int| 0 <= i < data@.len() ==> data@[i] < 32,
    ensures
        match res {
            Ok(s) => bech32_encoded(hrp@, data@) == Ok::<Seq<char>, Seq<char>>(s@),
            Err(e) => bech32_encoded(hrp@, data@) == Err::<Seq<char>, Seq<char>>(e@),
        },
{
    let d: Vec<bech32::u5> = data.iter().map(|x| bech32::u5::try_from_u8(*x).unwrap()).collect();
    bech32::encode(hrp, d, bech32::Variant::Bech32).map_err(|e| e.to_string())
}

/// The address with the same data under another human-readable prefix.
pub open spec fn spec_get_addr_by_prefix(address: Seq<char>, prefix: Seq<char>) -> Result<
    Seq<char>,
    StdErrorView,
> {
    match bech32_decoded(address) {
        Err(e) => Err(StdErrorView::GenericErr { msg: e }),
        Ok((_, data)) => match bech32_encoded(prefix, data) {
            Err(e) => Err(StdErrorView::GenericErr { msg: e }),
            Ok(s) => Ok(s),
        },
    }
}

/// Re-encodes a bech32 address under the human-readable `prefix`.
pub fn get_addr_by_prefix(address: &str, prefix: &str) -> (res: Result<String, StdError>)
    ensures
        result_view(&res) == spec_get_addr_by_prefix(address@, prefix@),
{
    let (_hrp, data) = match bech32_decode(address) {
        Ok(x) => x,
        Err(e) => return Err(StdError::GenericErr { msg: e }),
    };
    match bech32_encode(prefix, &data) {
        Ok(s) => Ok(s),
        Err(e) => Err(StdError::GenericErr { msg: e }),
    }
}

} // verus!
