//! Coins, the checks on the funds sent with a message, and the text form of a coin.
use vstd::prelude::*;

use crate::text::{decimal_digits, result_view, str_to_owned, u128_to_string};

verus! {

/// An amount of one denomination.
#[derive(Debug, Clone, PartialEq, Eq)]
pub struct Coin {
    pub denom: String,
    pub amount: u128,
}

pub struct CoinView {
    pub denom: Seq<char>,
    pub amount: u128,
}

impl DeepView for Coin {
    type V = CoinView;

    open spec fn deep_view(&self) -> CoinView {
        CoinView { denom: self.denom@, amount: self.amount }
    }
}

impl Coin {
    /// A coin of `amount` in `denom`.
    pub fn new(amount: u128, denom: &str) -> (res: Coin)
        ensures
            res.deep_view() == (CoinView { denom: denom@, amount }),
    {
        Coin { denom: str_to_owned(denom), amount }
    }

    /// A copy of the coin.
    pub fn duplicate(&self) -> (res: Coin)
        ensures
            res.deep_view() == self.deep_view(),
    {
        Coin { denom: str_to_owned(self.denom.as_str()), amount: self.amount }
    }

    /// The text form of the coin: the amount followed by the denomination.
    pub fn to_text(&self) -> (res: String)
        ensures
            res@ == coin_text(self.deep_view()),
    {
        let mut s = u128_to_string(self.amount);
        s.append(self.denom.as_str());
        s
    }
}

/// The text form of a coin, `{amount}{denom}`.
pub open spec fn coin_text(c: CoinView) -> Seq<char> {
    decimal_digits(c.amount as nat) + c.denom
}

/// A copy of a list of coins.
pub fn duplicate_coins(coins: &Vec<Coin>) -> (res: Vec<Coin>)
    ensures
        res.deep_view() == coins.deep_view(),
{
    let mut out: Vec<Coin> = Vec::new();
    let mut i: usize = 0;
    while i < coins.len()
        invariant
            i <= coins.len(),
            out@.len() == i,
            out.deep_view() == coins.deep_view().take(i as int),
        decreases coins.len() - i,
    {
        let ghost prev = out@;
        let ghost prev_dv = out.deep_view();
        let c = coins[i].duplicate();
        assert(c.deep_view() == coins.deep_view()[i as int]);
        out.push(c);
        assert(out@ == prev.push(out@[i as int]));
        i = i + 1;
        assert forall|k: int| 0 <= k < i implies #[trigger] out.deep_view()[k]
            == coins.deep_view()[k] by {
            if k < i - 1 {
                assert(out@[k] == prev[k]);
                assert(prev_dv[k] == prev[k].deep_view());
                assert(prev_dv[k] == coins.deep_view().take(i - 1)[k]);
            }
        }
        assert(out.deep_view() =~= coins.deep_view().take(i as int));
    }
    assert(coins.deep_view().take(i as int) =~= coins.deep_view());
    out
}

/// Why the funds sent with a message were refused.
#[derive(Debug, Clone, PartialEq, Eq)]
pub enum PaymentError {
    MissingDenom(String),
    ExtraDenom(String),
    MultipleDenoms,
    NoFunds,
    NonPayable,
}

pub enum PaymentErrorView {
    MissingDenom(Seq<char>),
    ExtraDenom(Seq<char>),
    MultipleDenoms,
    NoFunds,
    NonPayable,
}

impl DeepView for PaymentError {
    type V = PaymentErrorView;

    open spec fn deep_view(&self) -> PaymentErrorView {
        match self {
            PaymentError::MissingDenom(d) => PaymentErrorView::MissingDenom(d@),
            PaymentError::ExtraDenom(d) => PaymentErrorView::ExtraDenom(d@),
            PaymentError::MultipleDenoms => PaymentErrorView::MultipleDenoms,
            PaymentError::NoFunds => PaymentErrorView::NoFunds,
            PaymentError::NonPayable => PaymentErrorView::NonPayable,
        }
    }
}

/// The text a payment error is reported with.
pub open spec fn payment_error_text(e: PaymentErrorView) -> Seq<char> {
    match e {
        PaymentErrorView::MissingDenom(d) => "Must send reserve token '"@ + d + "'"@,
        PaymentErrorView::ExtraDenom(d) => "Received unsupported denom '"@ + d + "'"@,
        PaymentErrorView::MultipleDenoms => "Sent more than one denomination"@,
        PaymentErrorView::NoFunds => "No funds sent"@,
        PaymentErrorView::NonPayable => "This message does no accept funds"@,
    }
}

impl PaymentError {
    /// The text the error is reported with.
    pub fn message(&self) -> (res: String)
        ensures
            res@ == payment_error_text(self.deep_view()),
    {
        match self {
            PaymentError::MissingDenom(d) => {
                let mut s = str_to_owned("Must send reserve token '");
                s.append(d.as_str());
                s.append("'");
                s
            },
            PaymentError::ExtraDenom(d) => {
                let mut s = str_to_owned("Received unsupported denom '");
                s.append(d.as_str());
                s.append("'");
                s
            },
            PaymentError::MultipleDenoms => str_to_owned("Sent more than one denomination"),
            PaymentError::NoFunds => str_to_owned("No funds sent"),
            PaymentError::NonPayable => str_to_owned("This message does no accept funds"),
        }
    }
}

/// Exactly one coin of non-zero amount was sent: that coin; else why not.
pub open spec fn spec_one_coin(funds: Seq<CoinView>) -> Result<CoinView, PaymentErrorView> {
    if funds.len() == 0 {
        Err(PaymentErrorView::NoFunds)
    } else if funds.len() == 1 {
        if funds[0].amount == 0 {
            Err(PaymentErrorView::NoFunds)
        } else {
            Ok(funds[0])
        }
    } else {
        Err(PaymentErrorView::MultipleDenoms)
    }
}

/// Exactly one coin of non-zero amount in `denom` was sent: its amount; else why not.
pub open spec fn spec_must_pay(funds: Seq<CoinView>, denom: Seq<char>) -> Result<
    u128,
    PaymentErrorView,
> {
    match spec_one_coin(funds) {
        Err(e) => Err(e),
        Ok(c) => if c.denom != denom {
            Err(PaymentErrorView::MissingDenom(denom))
        } else {
            Ok(c.amount)
        },
    }
}

/// No funds were sent.
pub open spec fn spec_nonpayable(funds: Seq<CoinView>) -> Result<(), PaymentErrorView> {
    if funds.len() == 0 {
        Ok(())
    } else {
        Err(PaymentErrorView::NonPayable)
    }
}

/// If exactly one coin was sent, returns it, whatever its denomination; errors
/// when no coin, a zero amount, or more than one coin was sent
/// (the rule of `cw_utils::one_coin`).
pub fn one_coin(funds: &Vec<Coin>) -> (res: Result<Coin, PaymentError>)
    ensures
        result_view(&res) == spec_one_coin(funds.deep_view()),
{
    if funds.len() == 0 {
        Err(PaymentError::NoFunds)
    } else if funds.len() == 1 {
        if funds[0].amount == 0 {
            Err(PaymentError::NoFunds)
        } else {
            Ok(funds[0].duplicate())
        }
    } else {
        Err(PaymentError::MultipleDenoms)
    }
}

/// The amount of the one coin sent, which must be in `denom`
/// (the rule of `cw_utils::must_pay`).
pub fn must_pay(funds: &Vec<Coin>, denom: &str) -> (res: Result<u128, PaymentError>)
    ensures
        result_view(&res) == spec_must_pay(funds.deep_view(), denom@),
{
    let coin = match one_coin(funds) {
        Ok(c) => c,
        Err(e) => return Err(e),
    };
    if !crate::text::str_eq(coin.denom.as_str(), denom) {
        Err(PaymentError::MissingDenom(str_to_owned(denom)))
    } else {
        Ok(coin.amount)
    }
}

/// Errors if any coin was sent (the rule of `cw_utils::nonpayable`).
pub fn nonpayable(funds: &Vec<Coin>) -> (res: Result<(), PaymentError>)
    ensures
        result_view(&res) == spec_nonpayable(funds.deep_view()),
{
    if funds.len() == 0 {
        Ok(())
    } else {
        Err(PaymentError::NonPayable)
    }
}


/// An ASCII decimal digit.
pub open spec fn is_digit(c: char) -> bool {
    '0' <= c <= '9'
}

/// The number written by a string of decimal digits.
pub open spec fn digits_value(s: Seq<char>) -> nat
    decreases s.len(),
{
    if s.len() == 0 {
        0
    } else {
        digits_value(s.drop_last()) * 10 + ((s.last() as int) - 48) as nat
    }
}

/// `i` is the position of the first character of `s` that is not a digit.
pub open spec fn first_non_digit_at(s: Seq<char>, i: int) -> bool {
    &&& 0 <= i < s.len()
    &&& !is_digit(s[i])
    &&& forall|j: int| 0 <= j < i ==> is_digit(#[trigger] s[j])
}

/// Why a coin could not be read from its text form.
#[derive(Debug, Clone, PartialEq, Eq)]
pub enum CoinParseError {
    MissingDenom,
    MissingAmount,
    InvalidAmount,
}

impl DeepView for CoinParseError {
    type V = CoinParseError;

    open spec fn deep_view(&self) -> CoinParseError {
        *self
    }
}

/// The text a coin parse error is reported with.
pub open spec fn coin_parse_error_text(e: CoinParseError) -> Seq<char> {
    match e {
        CoinParseError::MissingDenom => "Missing denominator"@,
        CoinParseError::MissingAmount => "Missing amount or non-digit characters in amount"@,
        CoinParseError::InvalidAmount => "Invalid amount: number too large to fit in target type"@,
    }
}

impl CoinParseError {
    /// The text the error is reported with.
    pub fn message(&self) -> (res: String)
        ensures
            res@ == coin_parse_error_text(*self),
    {
        match self {
            CoinParseError::MissingDenom => str_to_owned("Missing denominator"),
            CoinParseError::MissingAmount => str_to_owned(
                "Missing amount or non-digit characters in amount",
            ),
            CoinParseError::InvalidAmount => str_to_owned(
                "Invalid amount: number too large to fit in target type",
            ),
        }
    }
}

/// A coin read from `{amount}{denom}`: the leading digits are the amount, the
/// rest, from the first non-digit on, is the denomination.
pub open spec fn spec_coin_from_str(s: Seq<char>) -> Result<CoinView, CoinParseError> {
    if !(exists|i: int| first_non_digit_at(s, i)) {
        Err(CoinParseError::MissingDenom)
    } else {
        let pos = choose|i: int| first_non_digit_at(s, i);
        if pos == 0 {
            Err(CoinParseError::MissingAmount)
        } else if digits_value(s.take(pos)) > u128::MAX {
            Err(CoinParseError::InvalidAmount)
        } else {
            Ok(CoinView { denom: s.skip(pos), amount: digits_value(s.take(pos)) as u128 })
        }
    }
}

proof fn lemma_first_non_digit_unique(s: Seq<char>, i: int, j: int)
    requires
        first_non_digit_at(s, i),
        first_non_digit_at(s, j),
    ensures
        i == j,
{
    if i < j {
        assert(is_digit(s[i]));
    } else if j < i {
        assert(is_digit(s[j]));
    }
}

proof fn lemma_digits_value_step(s: Seq<char>, k: int)
    requires
        0 <= k < s.len(),
    ensures
        digits_value(s.take(k + 1)) == digits_value(s.take(k)) * 10 + ((s[k] as int) - 48) as nat,
{
    assert(s.take(k + 1).drop_last() =~= s.take(k));
}

proof fn lemma_digits_value_grows(s: Seq<char>, k: int, j: int)
    requires
        0 <= k <= j <= s.len(),
    ensures
        digits_value(s.take(k)) <= digits_value(s.take(j)),
    decreases j - k,
{
    if k < j {
        lemma_digits_value_grows(s, k, j - 1);
        lemma_digits_value_step(s, j - 1);
    }
}

/// Reads a coin from its text form `{amount}{denom}` (the rule of the
/// framework's `Coin::from_str`).
pub fn coin_from_str(s: &str) -> (res: Result<Coin, CoinParseError>)
    ensures
        result_view(&res) == spec_coin_from_str(s@),
{
    let n = s.unicode_len();
    let mut pos: usize = 0;
    while pos < n
        invariant
            n == s@.len(),
            pos <= n,
            forall|j: int| 0 <= j < pos ==> is_digit(#[trigger] s@[j]),
        ensures
            pos <= n,
            forall|j: int| 0 <= j < pos ==> is_digit(#[trigger] s@[j]),
            pos == n || !is_digit(s@[pos as int]),
        decreases n - pos,
    {
        let c = s.get_char(pos);
        if !('0' <= c && c <= '9') {
            break;
        }
        pos = pos + 1;
    }
    if pos == n {
        assert forall|i: int| !first_non_digit_at(s@, i) by {
            if 0 <= i < s@.len() {
                assert(is_digit(s@[i]));
            }
        }
        return Err(CoinParseError::MissingDenom);
    }
    proof {
        assert(first_non_digit_at(s@, pos as int));
        let p = choose|i: int| first_non_digit_at(s@, i);
        lemma_first_non_digit_unique(s@, p, pos as int);
    }
    if pos == 0 {
        return Err(CoinParseError::MissingAmount);
    }
    let mut value: u128 = 0;
    let mut k: usize = 0;
    while k < pos
        invariant
            n == s@.len(),
            pos < n,
            k <= pos,
            forall|j: int| 0 <= j < pos ==> is_digit(#[trigger] s@[j]),
            value == digits_value(s@.take(k as int)),
            first_non_digit_at(s@, pos as int),
            (choose|i: int| first_non_digit_at(s@, i)) == pos as int,
        decreases pos - k,
    {
        let c = s.get_char(k);
        proof {
            assert(is_digit(s@[k as int]));
            lemma_digits_value_step(s@, k as int);
        }
        let d: u32 = (c as u32) - 48;
        let next = match value.checked_mul(10) {
            Some(v) => v.checked_add(d as u128),
            None => None,
        };
        match next {
            Some(v) => {
                value = v;
            },
            None => {
                proof {
                    assert(d == (s@[k as int] as int) - 48);
                    assert(digits_value(s@.take(k as int + 1)) > u128::MAX);
                    lemma_digits_value_grows(s@, k as int + 1, pos as int);
                }
                return Err(CoinParseError::InvalidAmount);
            },
        }
        k = k + 1;
    }
    let denom = s.substring_char(pos, n);
    assert(denom@ =~= s@.skip(pos as int));
    Ok(Coin { denom: str_to_owned(denom), amount: value })
}

} // verus!
