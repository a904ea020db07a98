//! Text: comparison, trimming, searching and decimal numbers, over sequences of characters.
use vstd::prelude::*;

verus! {

/// Whether `c` has Unicode's `White_Space` property.
pub open spec fn is_white(c: char) -> bool {
    ||| 0x9 <= c as u32 <= 0xd
    ||| c as u32 == 0x20
    ||| c as u32 == 0x85
    ||| c as u32 == 0xa0
    ||| c as u32 == 0x1680
    ||| 0x2000 <= c as u32 <= 0x200a
    ||| c as u32 == 0x2028
    ||| c as u32 == 0x2029
    ||| c as u32 == 0x202f
    ||| c as u32 == 0x205f
    ||| c as u32 == 0x3000
}

/// Whether `c` is one of `0` to `9`.
pub open spec fn is_digit(c: char) -> bool {
    '0' <= c <= '9'
}

/// The value of a decimal digit.
pub open spec fn digit_value(c: char) -> nat {
    (c as u32 - '0' as u32) as nat
}

/// The digit that stands for `n`, for `n` below ten.
pub open spec fn digit_char(n: nat) -> char {
    if n == 0 {
        '0'
    } else if n == 1 {
        '1'
    } else if n == 2 {
        '2'
    } else if n == 3 {
        '3'
    } else if n == 4 {
        '4'
    } else if n == 5 {
        '5'
    } else if n == 6 {
        '6'
    } else if n == 7 {
        '7'
    } else if n == 8 {
        '8'
    } else {
        '9'
    }
}

/// Whether every character is a decimal digit.
pub open spec fn all_digits(s: Seq<char>) -> bool {
    forall|i: int| 0 <= i < s.len() ==> is_digit(#[trigger] s[i])
}

/// The number that a sequence of decimal digits writes, most significant first.
pub open spec fn digits_value(s: Seq<char>) -> nat
    decreases s.len(),
{
    if s.len() == 0 {
        0
    } else {
        digits_value(s.drop_last()) * 10 + digit_value(s.last())
    }
}

/// The decimal digits of `n`, without leading zeros.
pub open spec fn decimal_text(n: nat) -> Seq<char>
    decreases n,
{
    if n < 10 {
        seq![digit_char(n)]
    } else {
        decimal_text(n / 10).push(digit_char(n % 10))
    }
}

/// `s` without one leading plus sign.
pub open spec fn without_plus(s: Seq<char>) -> Seq<char> {
    if s.len() > 0 && s[0] == '+' {
        s.skip(1)
    } else {
        s
    }
}

/// The number that `s` writes: an optional plus sign and at least one decimal digit.
pub open spec fn number_value(s: Seq<char>) -> Option<nat> {
    let digits = without_plus(s);
    if digits.len() > 0 && all_digits(digits) {
        Some(digits_value(digits))
    } else {
        None
    }
}

/// The number that `s` writes, if it is at most `limit`.
pub open spec fn bounded_number(s: Seq<char>, limit: nat) -> Option<nat> {
    match number_value(s) {
        Some(n) => if n <= limit {
            Some(n)
        } else {
            None
        },
        None => None,
    }
}

/// `s` without the whitespace at its start.
pub open spec fn trim_start(s: Seq<char>) -> Seq<char>
    decreases s.len(),
{
    if s.len() > 0 && is_white(s[0]) {
        trim_start(s.skip(1))
    } else {
        s
    }
}

/// `s` without the whitespace at its end.
pub open spec fn trim_end(s: Seq<char>) -> Seq<char>
    decreases s.len(),
{
    if s.len() > 0 && is_white(s.last()) {
        trim_end(s.drop_last())
    } else {
        s
    }
}

/// `s` without the whitespace at its start and its end.
pub open spec fn trimmed(s: Seq<char>) -> Seq<char> {
    trim_end(trim_start(s))
}

/// An answer, or the default where the answer is blank.
pub open spec fn answer_or(reply: Seq<char>, default: Seq<char>) -> Seq<char> {
    if trimmed(reply).len() == 0 {
        default
    } else {
        trimmed(reply)
    }
}

/// The position of the first whitespace in `s`; its length where there is none.
pub open spec fn word_len(s: Seq<char>) -> int
    decreases s.len(),
{
    if s.len() == 0 || is_white(s[0]) {
        0
    } else {
        1 + word_len(s.skip(1))
    }
}

/// The first of the words that whitespace separates; nothing where there is none.
pub open spec fn first_word_of(s: Seq<char>) -> Seq<char> {
    trim_start(s).take(word_len(trim_start(s)))
}

/// Whether `prefix` stands at the start of `s`.
pub open spec fn starts_with(s: Seq<char>, prefix: Seq<char>) -> bool {
    prefix.len() <= s.len() && s.take(prefix.len() as int) == prefix
}

/// Whether `suffix` stands at the end of `s`.
pub open spec fn ends_with(s: Seq<char>, suffix: Seq<char>) -> bool {
    suffix.len() <= s.len() && s.skip(s.len() - suffix.len()) == suffix
}

/// Whether `needle` stands at position `i` of `s`.
pub open spec fn occurs_at(s: Seq<char>, needle: Seq<char>, i: int) -> bool {
    0 <= i <= s.len() - needle.len() && s.subrange(i, i + needle.len()) == needle
}

/// Whether `needle` stands anywhere in `s`.
pub open spec fn contains_text(s: Seq<char>, needle: Seq<char>) -> bool {
    exists|i: int| occurs_at(s, needle, i)
}

/// The lower-case form of an ASCII letter; any other character unchanged.
pub open spec fn ascii_lower(c: char) -> char {
    if 'A' <= c <= 'Z' {
        (c as u32 + 32) as char
    } else {
        c
    }
}

/// `s` with its ASCII letters in lower case.
pub open spec fn lower_text(s: Seq<char>) -> Seq<char> {
    s.map_values(|c: char| ascii_lower(c))
}

/// The views of a list of strings.
pub open spec fn texts(list: Seq<String>) -> Seq<Seq<char>> {
    list.map_values(|s: String| s@)
}

/// The view of an optional string.
pub open spec fn opt_text(s: Option<String>) -> Option<Seq<char>> {
    match s {
        Some(t) => Some(t@),
        None => None,
    }
}

/// What stands in a text stands in any that continues it.
pub proof fn lemma_stands_before(x: Seq<char>, y: Seq<char>, part: Seq<char>)
    requires
        contains_text(x, part),
    ensures
        contains_text(x + y, part),
{
    let i = choose|i: int| occurs_at(x, part, i);
    assert((x + y).subrange(i, i + part.len()) =~= x.subrange(i, i + part.len()));
    assert(occurs_at(x + y, part, i));
}

/// What stands in a text stands in any that ends with it.
pub proof fn lemma_stands_after(x: Seq<char>, y: Seq<char>, part: Seq<char>)
    requires
        contains_text(y, part),
    ensures
        contains_text(x + y, part),
{
    let i = choose|i: int| occurs_at(y, part, i);
    let j = x.len() + i;
    assert((x + y).subrange(j, j + part.len()) =~= y.subrange(i, i + part.len()));
    assert(occurs_at(x + y, part, j));
}

/// A text stands in itself.
pub proof fn lemma_stands_in_itself(part: Seq<char>)
    ensures
        contains_text(part, part),
{
    assert(part.subrange(0, part.len() as int) =~= part);
    assert(occurs_at(part, part, 0));
}

/// A decimal digit's character and its value name each other.
pub proof fn lemma_digit_char(n: nat)
    requires
        n < 10,
    ensures
        is_digit(digit_char(n)),
        digit_value(digit_char(n)) == n,
{
}

/// Decimal text is made of digits and writes the number it was made from.
pub proof fn lemma_decimal_text(n: nat)
    ensures
        decimal_text(n).len() > 0,
        all_digits(decimal_text(n)),
        digits_value(decimal_text(n)) == n,
    decreases n,
{
    lemma_digit_char(n % 10);
    if n < 10 {
        lemma_digit_char(n);
        let s = decimal_text(n);
        assert(s.drop_last() =~= Seq::empty());
        assert(digits_value(s.drop_last()) == 0);
    } else {
        lemma_decimal_text(n / 10);
        let s = decimal_text(n);
        assert(s.drop_last() =~= decimal_text(n / 10));
        assert forall|i: int| 0 <= i < s.len() implies is_digit(#[trigger] s[i]) by {
            if i < s.len() - 1 {
                assert(s[i] == decimal_text(n / 10)[i]);
            }
        }
    }
}

/// Reading back a number that was written in decimal gives the number.
pub proof fn law_decimal_text_reads_back(n: nat, limit: nat)
    requires
        n <= limit,
    ensures
        bounded_number(decimal_text(n), limit) == Some(n),
{
    lemma_decimal_text(n);
    assert(is_digit(decimal_text(n)[0]));
}

/// A number of `s.len()` digits is below ten to that power.
pub proof fn lemma_digits_value_bound(s: Seq<char>)
    requires
        all_digits(s),
    ensures
        digits_value(s) < vstd::arithmetic::power::pow(10, s.len()),
    decreases s.len(),
{
    if s.len() == 0 {
        vstd::arithmetic::power::lemma_pow0(10);
    } else {
        assert forall|i: int| 0 <= i < s.drop_last().len() implies is_digit(
            #[trigger] s.drop_last()[i],
        ) by {
            assert(s.drop_last()[i] == s[i]);
        }
        lemma_digits_value_bound(s.drop_last());
        assert(is_digit(s[s.len() - 1]));
        reveal(vstd::arithmetic::power::pow);
    }
}

/// Whether two texts are the same.
pub fn same_text(a: &str, b: &str) -> (r: bool)
    ensures
        r == (a@ == b@),
{
    a.to_owned() == b.to_owned()
}

/// Whether `list` holds `text`.
pub fn has_text(list: &Vec<String>, text: &str) -> (r: bool)
    ensures
        r == texts(list@).contains(text@),
{
    let mut i: usize = 0;
    while i < list.len()
        invariant
            i <= list.len(),
            forall|j: int| 0 <= j < i ==> (#[trigger] list[j])@ != text@,
        decreases list.len() - i,
    {
        if same_text(list[i].as_str(), text) {
            assert(texts(list@)[i as int] == text@);
            return true;
        }
        i += 1;
    }
    assert forall|j: int| 0 <= j < texts(list@).len() implies texts(list@)[j] != text@ by {
        assert(texts(list@)[j] == list[j]@);
    }
    false
}

/// The characters of `s`.
pub fn chars_of(s: &str) -> (r: Vec<char>)
    ensures
        r@ == s@,
{
    let mut r: Vec<char> = Vec::new();
    for c in it: s.chars()
        invariant
            it.seq() == s@,
            r@ == s@.take(it.index() as int),
    {
        r.push(c);
        assert(r@ =~= s@.take(it.index() as int + 1));
    }
    assert(s@.take(s@.len() as int) =~= s@);
    r
}

/// Whether `c` is whitespace.
pub fn white(c: char) -> (r: bool)
    ensures
        r == is_white(c),
{
    let n: u32 = c as u32;
    (0x9 <= n && n <= 0xd) || n == 0x20 || n == 0x85 || n == 0xa0 || n == 0x1680 || (0x2000 <= n && n
        <= 0x200a) || n == 0x2028 || n == 0x2029 || n == 0x202f || n == 0x205f || n == 0x3000
}

/// The number that `text` writes in decimal, if it is at most `limit`.
pub fn parse_number(text: &str, limit: u128) -> (r: Option<u128>)
    ensures
        match r {
            Some(n) => bounded_number(text@, limit as nat) == Some(n as nat),
            None => bounded_number(text@, limit as nat) is None,
        },
{
    let chars: Vec<char> = chars_of(text);
    let mut start: usize = 0;
    if chars.len() > 0 && chars[0] == '+' {
        start = 1;
    }
    let ghost digits = without_plus(text@);
    assert(digits == chars@.skip(start as int)) by {
        assert(chars@.skip(0) =~= chars@);
    }
    if chars.len() == start {
        return None;
    }
    let mut value: u128 = 0;
    let mut fits: bool = true;
    let mut i: usize = start;
    while i < chars.len()
        invariant
            start <= i <= chars.len(),
            digits == chars@.skip(start as int),
            digits == without_plus(text@),
            digits.len() > 0,
            forall|j: int| 0 <= j < i - start ==> is_digit(#[trigger] digits[j]),
            fits ==> value == digits_value(digits.take(i - start)) && value <= limit,
            !fits ==> digits_value(digits.take(i - start)) > limit,
        decreases chars.len() - i,
    {
        let c: char = chars[i];
        assert(digits[i - start] == c);
        if !('0' <= c && c <= '9') {
            assert(!is_digit(digits[i - start]));
            return None;
        }
        let d: u128 = (c as u32 - '0' as u32) as u128;
        assert(digits.take(i - start + 1).drop_last() =~= digits.take(i - start));
        assert(digits.take(i - start + 1).last() == c);
        if fits {
            match value.checked_mul(10) {
                Some(shifted) => match shifted.checked_add(d) {
                    Some(sum) => {
                        if sum <= limit {
                            value = sum;
                        } else {
                            fits = false;
                        }
                    },
                    None => {
                        fits = false;
                    },
                },
                None => {
                    fits = false;
                },
            }
        }
        i += 1;
    }
    assert(digits.take(i - start) =~= digits);
    if fits {
        Some(value)
    } else {
        None
    }
}

/// The digit that stands for `n`.
fn digit_text(n: u128) -> (r: &'static str)
    requires
        n < 10,
    ensures
        r@ == seq![digit_char(n as nat)],
{
    proof {
        reveal_strlit("0");
        reveal_strlit("1");
        reveal_strlit("2");
        reveal_strlit("3");
        reveal_strlit("4");
        reveal_strlit("5");
        reveal_strlit("6");
        reveal_strlit("7");
        reveal_strlit("8");
        reveal_strlit("9");
    }
    let r = if n == 0 {
        "0"
    } else if n == 1 {
        "1"
    } else if n == 2 {
        "2"
    } else if n == 3 {
        "3"
    } else if n == 4 {
        "4"
    } else if n == 5 {
        "5"
    } else if n == 6 {
        "6"
    } else if n == 7 {
        "7"
    } else if n == 8 {
        "8"
    } else {
        "9"
    };
    assert(r@ =~= seq![digit_char(n as nat)]);
    r
}

/// `n` in decimal.
pub fn decimal(n: u128) -> (r: String)
    ensures
        r@ == decimal_text(n as nat),
    decreases n,
{
    if n < 10 {
        digit_text(n).to_owned()
    } else {
        let mut r: String = decimal(n / 10);
        r.append(digit_text(n % 10));
        assert(r@ =~= decimal_text((n / 10) as nat).push(digit_char((n % 10) as nat)));
        r
    }
}

proof fn lemma_trim_start_step(s: Seq<char>, i: int)
    requires
        0 <= i < s.len(),
        is_white(s[i]),
    ensures
        trim_start(s.skip(i)) == trim_start(s.skip(i + 1)),
{
    assert(s.skip(i).skip(1) =~= s.skip(i + 1));
}

/// `text` without the whitespace at its start and its end.
pub fn trim(text: &str) -> (r: &str)
    ensures
        r@ == trimmed(text@),
{
    let chars: Vec<char> = chars_of(text);
    let mut start: usize = 0;
    assert(text@.skip(0) =~= text@);
    while start < chars.len() && white(chars[start])
        invariant
            start <= chars.len(),
            chars@ == text@,
            trim_start(text@) == trim_start(text@.skip(start as int)),
        decreases chars.len() - start,
    {
        proof {
            lemma_trim_start_step(text@, start as int);
        }
        start += 1;
    }
    let ghost body = text@.skip(start as int);
    assert(trim_start(text@) == body);
    let mut end: usize = chars.len();
    assert(text@.subrange(start as int, end as int) =~= body);
    while start < end && white(chars[end - 1])
        invariant
            start <= end <= chars.len(),
            chars@ == text@,
            trim_end(body) == trim_end(text@.subrange(start as int, end as int)),
        decreases end,
    {
        let ghost cur = text@.subrange(start as int, end as int);
        assert(cur.drop_last() =~= text@.subrange(start as int, end - 1));
        end -= 1;
    }
    assert(trim_end(text@.subrange(start as int, end as int)) == text@.subrange(
        start as int,
        end as int,
    ));
    text.substring_char(start, end)
}

/// The first word ends at the first whitespace.
pub proof fn lemma_word_len(s: Seq<char>, i: int)
    requires
        0 <= i <= s.len(),
        forall|j: int| 0 <= j < i ==> !is_white(#[trigger] s[j]),
        i < s.len() ==> is_white(s[i]),
    ensures
        word_len(s) == i,
    decreases s.len(),
{
    if i > 0 {
        let rest = s.skip(1);
        assert(!is_white(s[0]));
        assert forall|j: int| 0 <= j < i - 1 implies !is_white(#[trigger] rest[j]) by {
            assert(rest[j] == s[j + 1]);
        }
        lemma_word_len(rest, i - 1);
    }
}

/// How std's `Debug` shows `text`: between quotes, with escapes.
pub uninterp spec fn debug_text(text: Seq<char>) -> Seq<char>;

/// Calls `Debug` of `str`.
#[verifier::external_body]
pub(crate) fn show_debug(text: &str) -> (r: String)
    ensures
        r@ == debug_text(text@),
{
    format!("{text:?}")
}

/// What std says of `text` where it is no `u8`.
pub uninterp spec fn u8_fault(text: Seq<char>) -> Seq<char>;

/// Calls `FromStr` of `u8`, which reads an optional plus sign and decimal digits.
#[verifier::external_body]
pub(crate) fn read_u8(text: &str) -> (r: Result<u8, String>)
    ensures
        match r {
            Ok(n) => bounded_number(text@, u8::MAX as nat) == Some(n as nat),
            Err(fault) => bounded_number(text@, u8::MAX as nat) is None && fault@ == u8_fault(
                text@,
            ),
        },
{
    text.parse::<u8>().map_err(|fault| fault.to_string())
}

/// What std says of `text` where it is no `u128`.
pub uninterp spec fn u128_fault(text: Seq<char>) -> Seq<char>;

/// Calls `FromStr` of `u128`, which reads an optional plus sign and decimal digits.
#[verifier::external_body]
pub(crate) fn read_u128(text: &str) -> (r: Result<u128, String>)
    ensures
        match r {
            Ok(n) => bounded_number(text@, u128::MAX as nat) == Some(n as nat),
            Err(fault) => bounded_number(text@, u128::MAX as nat) is None && fault@
                == u128_fault(text@),
        },
{
    text.parse::<u128>().map_err(|fault| fault.to_string())
}

/// The first of the words that whitespace separates.
pub fn first_word(text: &str) -> (r: &str)
    ensures
        r@ == first_word_of(text@),
{
    let chars: Vec<char> = chars_of(text);
    let mut start: usize = 0;
    assert(text@.skip(0) =~= text@);
    while start < chars.len() && white(chars[start])
        invariant
            start <= chars.len(),
            chars@ == text@,
            trim_start(text@) == trim_start(text@.skip(start as int)),
        decreases chars.len() - start,
    {
        proof {
            lemma_trim_start_step(text@, start as int);
        }
        start += 1;
    }
    let ghost body = text@.skip(start as int);
    assert(trim_start(text@) == body);
    let mut end: usize = start;
    while end < chars.len() && !white(chars[end])
        invariant
            start <= end <= chars.len(),
            chars@ == text@,
            body == text@.skip(start as int),
            forall|j: int| 0 <= j < end - start ==> !is_white(#[trigger] body[j]),
        decreases chars.len() - end,
    {
        assert(body[end - start] == chars[end as int]);
        end += 1;
    }
    proof {
        if end < chars.len() {
            assert(body[end - start] == chars[end as int]);
        }
        lemma_word_len(body, end - start);
        assert(body.take(end - start) =~= text@.subrange(start as int, end as int));
    }
    text.substring_char(start, end)
}

/// Whether `prefix` stands at the start of `text`.
pub fn has_prefix(text: &str, prefix: &str) -> (r: bool)
    ensures
        r == starts_with(text@, prefix@),
{
    let n: usize = prefix.unicode_len();
    if text.unicode_len() < n {
        return false;
    }
    assert(text@.take(n as int) =~= text@.subrange(0, n as int));
    same_text(text.substring_char(0, n), prefix)
}

/// What is left of `text` before `suffix`, if it ends so.
pub fn strip_suffix<'a>(text: &'a str, suffix: &str) -> (r: Option<&'a str>)
    ensures
        match r {
            Some(rest) => ends_with(text@, suffix@) && rest@ == text@.take(
                text@.len() - suffix@.len(),
            ),
            None => !ends_with(text@, suffix@),
        },
{
    let n: usize = suffix.unicode_len();
    let total: usize = text.unicode_len();
    if total < n {
        return None;
    }
    assert(text@.skip(total - n) =~= text@.subrange(total - n, total as int));
    if same_text(text.substring_char(total - n, total), suffix) {
        assert(text@.take(total - n) =~= text@.subrange(0, total - n));
        Some(text.substring_char(0, total - n))
    } else {
        None
    }
}

/// Whether `needle` stands anywhere in `text`.
pub fn has_substring(text: &str, needle: &str) -> (r: bool)
    ensures
        r == contains_text(text@, needle@),
{
    let n: usize = needle.unicode_len();
    let total: usize = text.unicode_len();
    if total < n {
        return false;
    }
    let mut i: usize = 0;
    while i <= total - n
        invariant
            n == needle@.len(),
            total == text@.len(),
            n <= total,
            i <= total - n + 1,
            forall|j: int| 0 <= j < i ==> !occurs_at(text@, needle@, j),
        decreases total - n + 1 - i,
    {
        if same_text(text.substring_char(i, i + n), needle) {
            assert(occurs_at(text@, needle@, i as int));
            return true;
        }
        if i == total - n {
            return false;
        }
        i += 1;
    }
    false
}

/// Whether `text` is `word`, whatever the case of its ASCII letters.
pub fn same_word(text: &str, word: &str) -> (r: bool)
    requires
        lower_text(word@) == word@,
    ensures
        r == (lower_text(text@) == word@),
{
    let a: Vec<char> = chars_of(text);
    let b: Vec<char> = chars_of(word);
    if a.len() != b.len() {
        assert(lower_text(text@).len() != word@.len());
        return false;
    }
    let mut i: usize = 0;
    while i < a.len()
        invariant
            i <= a.len(),
            a.len() == b.len(),
            a@ == text@,
            b@ == word@,
            forall|j: int| 0 <= j < i ==> ascii_lower(#[trigger] a[j]) == b[j],
        decreases a.len() - i,
    {
        let c: char = a[i];
        let w: char = b[i];
        let same: bool = if 'A' <= c && c <= 'Z' {
            'a' <= w && w <= 'z' && c as u32 + 32 == w as u32
        } else {
            c == w
        };
        if !same {
            assert(lower_text(text@)[i as int] == ascii_lower(a[i as int]));
            assert(lower_text(text@) != word@);
            return false;
        }
        i += 1;
    }
    assert(lower_text(text@) =~= word@);
    true
}

/// `a` followed by `b`.
pub fn join2(a: &str, b: &str) -> (r: String)
    ensures
        r@ == a@ + b@,
{
    let mut r: String = a.to_owned();
    r.append(b);
    r
}

/// A copy of `bytes`.
pub(crate) fn copy_bytes(bytes: &Vec<u8>) -> (r: Vec<u8>)
    ensures
        r@ == bytes@,
{
    let mut r: Vec<u8> = Vec::new();
    r.extend_from_slice(bytes.as_slice());
    assert(r@ =~= bytes@);
    r
}

/// A copy of an optional string.
pub fn copy_opt(s: &Option<String>) -> (r: Option<String>)
    ensures
        opt_text(r) == opt_text(*s),
{
    match s {
        Some(t) => Some(t.clone()),
        None => None,
    }
}

/// Adds a line to a list.
pub(crate) fn add_line(out: &mut Vec<String>, line: String)
    ensures
        texts(final(out)@) == texts(old(out)@).push(line@),
{
    let ghost before = texts(out@);
    out.push(line);
    assert(texts(out@) =~= before.push(line@));
}

proof fn lemma_trim_start(s: Seq<char>) -> (i: int)
    ensures
        0 <= i <= s.len(),
        trim_start(s) == s.skip(i),
        forall|k: int| 0 <= k < i ==> is_white(#[trigger] s[k]),
        i < s.len() ==> !is_white(s[i]),
    decreases s.len(),
{
    if s.len() > 0 && is_white(s[0]) {
        let t = s.skip(1);
        let j = lemma_trim_start(t);
        assert(t.skip(j) =~= s.skip(j + 1));
        assert forall|k: int| 0 <= k < j + 1 implies is_white(#[trigger] s[k]) by {
            if k > 0 {
                assert(t[k - 1] == s[k]);
            }
        }
        if j + 1 < s.len() {
            assert(t[j] == s[j + 1]);
        }
        j + 1
    } else {
        assert(s.skip(0) =~= s);
        0
    }
}

proof fn lemma_trim_end(s: Seq<char>) -> (j: int)
    ensures
        0 <= j <= s.len(),
        trim_end(s) == s.take(j),
        forall|k: int| j <= k < s.len() ==> is_white(#[trigger] s[k]),
        j > 0 ==> !is_white(s[j - 1]),
    decreases s.len(),
{
    if s.len() > 0 && is_white(s.last()) {
        let t = s.drop_last();
        let j = lemma_trim_end(t);
        assert(t.take(j) =~= s.take(j));
        assert forall|k: int| j <= k < s.len() implies is_white(#[trigger] s[k]) by {
            if k < t.len() {
                assert(t[k] == s[k]);
            }
        }
        if j > 0 {
            assert(t[j - 1] == s[j - 1]);
        }
        j
    } else {
        assert(s.take(s.len() as int) =~= s);
        s.len() as int
    }
}

/// Trimming takes away whitespace, at the start and at the end, and nothing else, and leaves none
/// there.
pub proof fn law_trimming_takes_whitespace_only(s: Seq<char>)
    ensures
        exists|i: int, j: int|
            {
                &&& 0 <= i <= j <= s.len()
                &&& trimmed(s) == #[trigger] s.subrange(i, j)
                &&& forall|k: int|
                    0 <= k < s.len() && (k < i || j <= k) ==> is_white(#[trigger] s[k])
            },
        trimmed(s).len() > 0 ==> !is_white(trimmed(s)[0]) && !is_white(trimmed(s).last()),
{
    let i = lemma_trim_start(s);
    let t = s.skip(i);
    let n = lemma_trim_end(t);
    let j = i + n;
    assert(t.take(n) =~= s.subrange(i, j));
    assert forall|k: int| 0 <= k < s.len() && (k < i || j <= k) implies is_white(
        #[trigger] s[k],
    ) by {
        if k >= j {
            assert(t[k - i] == s[k]);
        }
    }
    if n > 0 {
        assert(t[0] == s[i]);
        assert(t.take(n)[0] == t[0]);
        assert(t.take(n).last() == t[n - 1]);
    }
}

/// A number in decimal has no whitespace at its start or end.
pub proof fn lemma_decimal_stays_trimmed(n: nat)
    ensures
        trimmed(decimal_text(n)) == decimal_text(n),
{
    lemma_decimal_text(n);
    let s = decimal_text(n);
    assert(is_digit(s[0]) && is_digit(s[s.len() - 1]));
    assert(trim_start(s) == s);
}

} // verus!
