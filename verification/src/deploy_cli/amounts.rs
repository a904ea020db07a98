//! Amounts of tokens and of NEAR: reading, scaling and showing them.
use crate::near_amount::{exact_amount, padded, without_zeros, ONE_NEAR};
use crate::text::{
    all_digits, bounded_number, chars_of, decimal, decimal_text, digits_value, first_word_of,
    is_digit, is_white, law_decimal_text_reads_back, lemma_decimal_text, lemma_digits_value_bound,
    lemma_word_len, number_value, parse_number, read_u128, trim, trim_start, trimmed, u128_fault,
};
use vstd::arithmetic::power::{lemma_pow0, lemma_pow_increases, pow};
use vstd::prelude::*;

verus! {

/// What NEAR charges for one byte of storage, in yoctoNEAR.
pub const STORAGE_COST_PER_BYTE: u128 = 10_000_000_000_000_000_000;

/// Why an amount of tokens cannot be scaled.
#[derive(Clone, Copy, PartialEq, Eq, Structural, Debug)]
pub enum SupplyFault {
    Zero,
    /// Ten to the power of the decimals does not fit a `u128`.
    TooManyDecimals,
    /// The scaled amount does not fit a `u128`.
    Overflow,
}

/// An amount of tokens that cannot be scaled, and what is said of it.
#[derive(Debug)]
pub struct SupplyError {
    pub fault: SupplyFault,
    pub message: String,
}

/// Why `tokens` cannot be scaled by `decimals`.
pub open spec fn supply_fault(tokens: u128, decimals: u8) -> Option<SupplyFault> {
    if tokens == 0 {
        Some(SupplyFault::Zero)
    } else if pow(10, decimals as nat) > u128::MAX {
        Some(SupplyFault::TooManyDecimals)
    } else if tokens * pow(10, decimals as nat) > u128::MAX {
        Some(SupplyFault::Overflow)
    } else {
        None
    }
}

/// What is said of an amount that cannot be scaled.
pub open spec fn supply_message(
    fault: SupplyFault,
    tokens: u128,
    decimals: u8,
    label: Seq<char>,
) -> Seq<char> {
    match fault {
        SupplyFault::Zero => label + " must be greater than zero"@,
        SupplyFault::TooManyDecimals => decimal_text(decimals as nat)
            + " decimals is too many to represent"@,
        SupplyFault::Overflow => label + " of "@ + decimal_text(tokens as nat) + " tokens at "@
            + decimal_text(decimals as nat) + " decimals overflows a u128"@,
    }
}

/// Ten to the power of `n`, where it fits.
pub fn power_of_ten(n: u8) -> (r: Option<u128>)
    ensures
        match r {
            Some(p) => p == pow(10, n as nat),
            None => pow(10, n as nat) > u128::MAX,
        },
{
    let mut p: u128 = 1;
    let mut i: u8 = 0;
    proof {
        lemma_pow0(10);
    }
    while i < n
        invariant
            i <= n,
            p == pow(10, i as nat),
        decreases n - i,
    {
        proof {
            reveal(pow);
            lemma_pow_increases(10, (i + 1) as nat, n as nat);
        }
        match p.checked_mul(10) {
            Some(q) => {
                p = q;
            },
            None => {
                return None;
            },
        }
        i += 1;
    }
    Some(p)
}

/// Turns whole tokens into the smallest units, and refuses what cannot be represented.
pub fn tokens_to_yocto(tokens: u128, decimals: u8, label: &str) -> (r: Result<u128, SupplyError>)
    ensures
        match r {
            Ok(n) => supply_fault(tokens, decimals) is None && n == tokens * pow(
                10,
                decimals as nat,
            ),
            Err(e) => supply_fault(tokens, decimals) == Some(e.fault) && e.message@
                == supply_message(e.fault, tokens, decimals, label@),
        },
{
    if tokens == 0 {
        let mut message: String = label.to_owned();
        message.append(" must be greater than zero");
        return Err(SupplyError { fault: SupplyFault::Zero, message });
    }
    let multiplier: u128 = match power_of_ten(decimals) {
        Some(p) => p,
        None => {
            let mut message: String = decimal(decimals as u128);
            message.append(" decimals is too many to represent");
            return Err(SupplyError { fault: SupplyFault::TooManyDecimals, message });
        },
    };
    match tokens.checked_mul(multiplier) {
        Some(n) => Ok(n),
        None => {
            let mut message: String = label.to_owned();
            message.append(" of ");
            message.append(decimal(tokens).as_str());
            message.append(" tokens at ");
            message.append(decimal(decimals as u128).as_str());
            message.append(" decimals overflows a u128");
            Err(SupplyError { fault: SupplyFault::Overflow, message })
        },
    }
}

/// Reads a number, with a message that names what it was to be.
pub fn parse_u128(value: &str, label: &str) -> (r: Result<u128, String>)
    ensures
        match r {
            Ok(n) => bounded_number(value@, u128::MAX as nat) == Some(n as nat),
            Err(message) => bounded_number(value@, u128::MAX as nat) is None && message@
                == "invalid "@ + label@ + ": "@ + value@,
        },
{
    match parse_number(value, u128::MAX) {
        Some(n) => Ok(n),
        None => {
            let mut message: String = "invalid ".to_owned();
            message.append(label);
            message.append(": ");
            message.append(value);
            Err(message)
        },
    }
}

/// Why a text is no amount of NEAR.
#[derive(PartialEq, Eq, Debug)]
pub enum NearAmountError {
    MissingWhole,
    /// What stands before the point is no number that fits a `u128`; what std says of it.
    InvalidWhole(String),
    /// What stands after the point is not at most 24 digits.
    BadFraction,
    TooLarge,
}

/// A [`NearAmountError`], as mathematical values.
pub ghost enum NearAmountFault {
    MissingWhole,
    InvalidWhole(Seq<char>),
    BadFraction,
    TooLarge,
}

impl View for NearAmountError {
    type V = NearAmountFault;

    open spec fn view(&self) -> NearAmountFault {
        match *self {
            NearAmountError::MissingWhole => NearAmountFault::MissingWhole,
            NearAmountError::InvalidWhole(fault) => NearAmountFault::InvalidWhole(fault@),
            NearAmountError::BadFraction => NearAmountFault::BadFraction,
            NearAmountError::TooLarge => NearAmountFault::TooLarge,
        }
    }
}

/// What an amount of NEAR is refused for.
pub open spec fn near_amount_text(e: NearAmountFault) -> Seq<char> {
    match e {
        NearAmountFault::MissingWhole => "missing whole NEAR amount"@,
        NearAmountFault::InvalidWhole(fault) => fault,
        NearAmountFault::BadFraction => "NEAR amount must have at most 24 decimal places"@,
        NearAmountFault::TooLarge => "NEAR amount is too large"@,
    }
}

impl NearAmountError {
    pub fn message(self) -> (r: String)
        ensures
            r@ == near_amount_text(self@),
    {
        match self {
            NearAmountError::MissingWhole => "missing whole NEAR amount".to_owned(),
            NearAmountError::InvalidWhole(fault) => fault,
            NearAmountError::BadFraction =>
                "NEAR amount must have at most 24 decimal places".to_owned(),
            NearAmountError::TooLarge => "NEAR amount is too large".to_owned(),
        }
    }
}

/// The position of the first point in `s`; its length where there is none.
pub open spec fn first_point(s: Seq<char>) -> int
    decreases s.len(),
{
    if s.len() == 0 || s[0] == '.' {
        0
    } else {
        1 + first_point(s.skip(1))
    }
}

/// What stands before the first point.
pub open spec fn whole_part(s: Seq<char>) -> Seq<char> {
    s.take(first_point(s))
}

/// What stands after the first point; nothing where there is none.
pub open spec fn fraction_part(s: Seq<char>) -> Seq<char> {
    if first_point(s) < s.len() {
        s.skip(first_point(s) + 1)
    } else {
        Seq::empty()
    }
}

/// The yoctoNEAR that a whole number and the digits after the point make.
pub open spec fn near_value(whole: nat, fraction: Seq<char>) -> int {
    whole * ONE_NEAR + digits_value(fraction) * pow(10, (24 - fraction.len()) as nat)
}

/// The yoctoNEAR that `text` writes as an amount of NEAR.
pub open spec fn near_amount(text: Seq<char>) -> Result<int, NearAmountFault> {
    let t = trimmed(text);
    let whole = whole_part(t);
    let fraction = fraction_part(t);
    if whole.len() == 0 {
        Err(NearAmountFault::MissingWhole)
    } else if bounded_number(whole, u128::MAX as nat) is None {
        Err(NearAmountFault::InvalidWhole(u128_fault(whole)))
    } else if fraction.len() > 24 || !all_digits(fraction) {
        Err(NearAmountFault::BadFraction)
    } else if near_value(number_value(whole)->0, fraction) > u128::MAX {
        Err(NearAmountFault::TooLarge)
    } else {
        Ok(near_value(number_value(whole)->0, fraction))
    }
}

/// The first point stands where it is found first.
pub proof fn lemma_first_point(s: Seq<char>, i: int)
    requires
        0 <= i <= s.len(),
        forall|j: int| 0 <= j < i ==> s[j] != '.',
        i < s.len() ==> s[i] == '.',
    ensures
        first_point(s) == i,
    decreases s.len(),
{
    if i > 0 {
        let rest = s.skip(1);
        assert forall|j: int| 0 <= j < i - 1 implies rest[j] != '.' by {
            assert(rest[j] == s[j + 1]);
        }
        lemma_first_point(rest, i - 1);
    }
}

proof fn lemma_near_value_bound(fraction: Seq<char>)
    requires
        all_digits(fraction),
        fraction.len() <= 24,
    ensures
        digits_value(fraction) * pow(10, (24 - fraction.len()) as nat) < ONE_NEAR,
        pow(10, (24 - fraction.len()) as nat) > 0,
{
    let n = fraction.len();
    lemma_digits_value_bound(fraction);
    vstd::arithmetic::power::lemma_pow_adds(10, n, (24 - n) as nat);
    vstd::arithmetic::power::lemma_pow_positive(10, (24 - n) as nat);
    lemma_ten_to_24();
    let a = digits_value(fraction) as int;
    let b = pow(10, n);
    let c = pow(10, (24 - n) as nat);
    assert(a * c < b * c) by (nonlinear_arith)
        requires
            a < b,
            c > 0,
    ;
}

/// One NEAR is ten to the power of its decimals.
pub proof fn lemma_ten_to_24()
    ensures
        pow(10, 24) == ONE_NEAR,
{
    reveal_with_fuel(pow, 25);
    assert(pow(10, 24) == ONE_NEAR);
}

/// Reads an amount of NEAR with up to 24 decimal places, and gives it in yoctoNEAR.
pub fn parse_near_amount(value: &str) -> (r: Result<u128, NearAmountError>)
    ensures
        match r {
            Ok(n) => near_amount(value@) == Ok::<int, NearAmountFault>(n as int),
            Err(e) => near_amount(value@) == Err::<int, NearAmountFault>(e@),
        },
{
    let text: &str = trim(value);
    let chars: Vec<char> = chars_of(text);
    let mut point: usize = 0;
    while point < chars.len() && chars[point] != '.'
        invariant
            point <= chars.len(),
            forall|j: int| 0 <= j < point ==> chars[j] != '.',
        decreases chars.len() - point,
    {
        point += 1;
    }
    proof {
        lemma_first_point(text@, point as int);
    }
    assert(text@.take(point as int) =~= text@.subrange(0, point as int));
    let whole_text: &str = text.substring_char(0, point);
    if point == 0 {
        return Err(NearAmountError::MissingWhole);
    }
    let whole: u128 = match read_u128(whole_text) {
        Ok(n) => n,
        Err(fault) => {
            return Err(NearAmountError::InvalidWhole(fault));
        },
    };
    let start: usize = if point < chars.len() {
        point + 1
    } else {
        point
    };
    let ghost fraction = fraction_part(text@);
    assert(fraction =~= text@.subrange(start as int, chars.len() as int));
    let digits: usize = chars.len() - start;
    if digits > 24 {
        return Err(NearAmountError::BadFraction);
    }
    let mut fraction_value: u128 = 0;
    let mut i: usize = start;
    assert(fraction.take(0) =~= Seq::empty());
    while i < chars.len()
        invariant
            start <= i <= chars.len(),
            chars@ == text@,
            digits == chars.len() - start,
            digits <= 24,
            fraction == text@.subrange(start as int, chars.len() as int),
            fraction == fraction_part(text@),
            text@ == trimmed(value@),
            whole_part(text@).len() > 0,
            bounded_number(whole_part(text@), u128::MAX as nat) is Some,
            forall|j: int| 0 <= j < i - start ==> is_digit(#[trigger] fraction[j]),
            fraction_value == digits_value(fraction.take(i - start)),
            fraction_value < ONE_NEAR,
        decreases chars.len() - i,
    {
        let c: char = chars[i];
        assert(fraction[i - start] == c);
        if !('0' <= c && c <= '9') {
            return Err(NearAmountError::BadFraction);
        }
        proof {
            let upto = fraction.take(i - start + 1);
            assert(upto.drop_last() =~= fraction.take(i - start));
            assert(upto.last() == c);
            assert(all_digits(upto));
            lemma_digits_value_bound(upto);
            lemma_pow_increases(10, upto.len(), 24);
            lemma_ten_to_24();
        }
        fraction_value = fraction_value * 10 + (c as u32 - '0' as u32) as u128;
        i += 1;
    }
    proof {
        assert(fraction.take(i - start) =~= fraction);
        lemma_near_value_bound(fraction);
        lemma_pow_increases(10, (24 - digits) as nat, 24);
        lemma_ten_to_24();
    }
    let scale: u128 = match power_of_ten((24 - digits) as u8) {
        Some(p) => p,
        None => 0,
    };
    let fraction_value: u128 = fraction_value * scale;
    match whole.checked_mul(ONE_NEAR) {
        None => Err(NearAmountError::TooLarge),
        Some(scaled) => match scaled.checked_add(fraction_value) {
            None => Err(NearAmountError::TooLarge),
            Some(n) => Ok(n),
        },
    }
}

/// The deposit that uploads a release of `bytes`: the storage that it takes, and one NEAR over.
pub open spec fn release_deposit(bytes: nat) -> nat {
    bytes * STORAGE_COST_PER_BYTE as nat + ONE_NEAR as nat
}

/// The deposit that uploads a release of `bytes`, in yoctoNEAR.
pub fn blob_deposit(bytes: u64) -> (r: u128)
    ensures
        r == release_deposit(bytes as nat),
{
    bytes as u128 * STORAGE_COST_PER_BYTE + ONE_NEAR
}

proof fn lemma_decimal_len(n: nat, k: nat)
    requires
        k > 0,
        n < pow(10, k),
    ensures
        decimal_text(n).len() <= k,
    decreases k,
{
    if n >= 10 {
        reveal(pow);
        lemma_pow0(10);
        assert(k > 1) by {
            if k == 1 {
                assert(pow(10, 1) == 10 * pow(10, 0));
            }
        }
        assert(pow(10, k) == 10 * pow(10, (k - 1) as nat));
        lemma_decimal_len(n / 10, (k - 1) as nat);
    }
}

proof fn lemma_leading_zeros(m: nat, s: Seq<char>)
    requires
        all_digits(s),
    ensures
        all_digits(Seq::new(m, |i: int| '0') + s),
        digits_value(Seq::new(m, |i: int| '0') + s) == digits_value(s),
    decreases m + s.len(),
{
    let zeros = Seq::new(m, |i: int| '0');
    let t = zeros + s;
    if s.len() > 0 {
        assert(all_digits(s.drop_last())) by {
            assert forall|i: int| 0 <= i < s.drop_last().len() implies is_digit(
                #[trigger] s.drop_last()[i],
            ) by {
                assert(s.drop_last()[i] == s[i]);
            }
        }
        lemma_leading_zeros(m, s.drop_last());
        assert(t.drop_last() =~= zeros + s.drop_last());
        assert(t.last() == s.last());
    } else if m > 0 {
        lemma_leading_zeros((m - 1) as nat, s);
        assert(t.drop_last() =~= Seq::new((m - 1) as nat, |i: int| '0') + s);
        assert(t.last() == '0');
    }
}

proof fn lemma_without_zeros(s: Seq<char>)
    requires
        all_digits(s),
    ensures
        all_digits(without_zeros(s)),
        without_zeros(s).len() <= s.len(),
        digits_value(s) == digits_value(without_zeros(s)) * pow(
            10,
            (s.len() - without_zeros(s).len()) as nat,
        ),
    decreases s.len(),
{
    let w = without_zeros(s);
    if s.len() > 0 && s.last() == '0' {
        let d = s.drop_last();
        assert forall|i: int| 0 <= i < d.len() implies is_digit(#[trigger] d[i]) by {
            assert(d[i] == s[i]);
        }
        lemma_without_zeros(d);
        reveal(pow);
        let k = (d.len() - w.len()) as nat;
        assert(pow(10, k + 1) == 10 * pow(10, k));
        let v = digits_value(w) as int;
        let p = pow(10, k);
        assert(v * p * 10 == v * (10 * p)) by (nonlinear_arith);
        assert((s.len() - w.len()) as nat == k + 1);
    } else {
        lemma_pow0(10);
    }
}

/// A word that whitespace follows is the first word, and has nothing to trim.
proof fn lemma_word_before_space(word: Seq<char>, rest: Seq<char>)
    requires
        word.len() > 0,
        forall|i: int| 0 <= i < word.len() ==> !is_white(#[trigger] word[i]),
        rest.len() > 0,
        is_white(rest[0]),
    ensures
        first_word_of(word + rest) == word,
        trimmed(word) == word,
{
    let s = word + rest;
    assert(s[0] == word[0]);
    assert(trim_start(s) == s);
    assert forall|i: int| 0 <= i < word.len() implies !is_white(#[trigger] s[i]) by {
        assert(s[i] == word[i]);
    }
    assert(s[word.len() as int] == rest[0]);
    lemma_word_len(s, word.len() as int);
    assert(s.take(word.len() as int) =~= word);
    assert(!is_white(word[word.len() - 1]));
}

/// An amount that is shown exactly in NEAR reads back as the same amount: nothing, and whatever is
/// more than a thousand yoctoNEAR, which are shown as such.
pub proof fn law_a_shown_amount_reads_back(y: u128)
    requires
        y == 0 || y > 1000,
    ensures
        near_amount(first_word_of(exact_amount(y))) == Ok::<int, NearAmountFault>(y as int),
{
    let whole = (y / ONE_NEAR) as nat;
    let part = (y % ONE_NEAR) as nat;
    let d = decimal_text(whole);
    lemma_decimal_text(whole);
    law_decimal_text_reads_back(whole, u128::MAX as nat);
    lemma_ten_to_24();
    reveal_strlit(" NEAR");
    reveal_strlit(".");
    assert(" NEAR"@.len() == 5 && " NEAR"@[0] == ' ');
    assert("."@.len() == 1 && "."@[0] == '.');
    if part == 0 {
        if y == 0 {
            reveal_strlit("0 NEAR");
            assert("0 NEAR"@ =~= d + " NEAR"@);
        }
        assert(exact_amount(y) == d + " NEAR"@);
        assert forall|i: int| 0 <= i < d.len() implies !is_white(#[trigger] d[i]) && d[i] != '.' by {
            assert(is_digit(d[i]));
        }
        lemma_word_before_space(d, " NEAR"@);
        lemma_first_point(d, d.len() as int);
        assert(whole_part(d) =~= d);
        assert(fraction_part(d) =~= Seq::empty());
        assert(digits_value(fraction_part(d)) == 0);
        assert(near_value(whole, fraction_part(d)) == y) by {
            assert(0 * pow(10, 24) == 0);
        }
    } else {
        let digits = decimal_text(part);
        lemma_decimal_text(part);
        lemma_decimal_len(part, 24);
        let full = padded(part, 24);
        lemma_leading_zeros((24 - digits.len()) as nat, digits);
        assert(full =~= Seq::new((24 - digits.len()) as nat, |i: int| '0') + digits);
        let w = without_zeros(full);
        lemma_without_zeros(full);
        let t = d + "."@ + w;
        assert(exact_amount(y) =~= t + " NEAR"@);
        assert forall|i: int| 0 <= i < t.len() implies !is_white(#[trigger] t[i]) by {
            if i < d.len() {
                assert(t[i] == d[i] && is_digit(d[i]));
            } else if i > d.len() {
                assert(t[i] == w[i - d.len() - 1] && is_digit(w[i - d.len() - 1]));
            }
        }
        lemma_word_before_space(t, " NEAR"@);
        assert forall|i: int| 0 <= i < d.len() implies t[i] != '.' by {
            assert(t[i] == d[i] && is_digit(d[i]));
        }
        lemma_first_point(t, d.len() as int);
        assert(whole_part(t) =~= d);
        assert(fraction_part(t) =~= w);
        assert(near_value(whole, w) == y);
    }
}

/// The deposit that a dry run shows for an upload reads back as the deposit that the upload attaches.
pub proof fn law_the_shown_deposit_is_the_one_attached(bytes: u64)
    ensures
        near_amount(first_word_of(exact_amount(release_deposit(bytes as nat) as u128))) == Ok::<
            int,
            NearAmountFault,
        >(release_deposit(bytes as nat) as int),
{
    law_a_shown_amount_reads_back(release_deposit(bytes as nat) as u128);
}

/// A whole token is scaled by its decimals exactly, and no other amount gives the same result.
pub proof fn law_scaling_is_exact(tokens: u128, other: u128, decimals: u8)
    requires
        supply_fault(tokens, decimals) is None,
        tokens * pow(10, decimals as nat) == other * pow(10, decimals as nat),
    ensures
        tokens == other,
        tokens * pow(10, decimals as nat) <= u128::MAX,
{
    vstd::arithmetic::power::lemma_pow_positive(10, decimals as nat);
    let p = pow(10, decimals as nat);
    assert(tokens == other) by (nonlinear_arith)
        requires
            tokens * p == other * p,
            p > 0,
    ;
}

/// At the token's 24 decimals, whole tokens are scaled as NEAR is.
pub proof fn law_whole_tokens_scale_as_near(tokens: u128)
    requires
        tokens > 0,
    ensures
        supply_fault(tokens, 24) is None <==> tokens * ONE_NEAR <= u128::MAX,
        tokens * pow(10, 24) == tokens * ONE_NEAR,
{
    lemma_ten_to_24();
}

} // verus!
