//! JSON text: strings, fields and objects.
use crate::account::{is_account_id, is_separator, is_word_char};
use crate::text::{decimal_text, digit_char, is_digit, lemma_decimal_text, opt_text};
use vstd::prelude::*;

verus! {

/// The lower-case hexadecimal digit that stands for `n`, for `n` below sixteen.
pub open spec fn hex_char(n: nat) -> char {
    if n < 10 {
        digit_char(n)
    } else if n == 10 {
        'a'
    } else if n == 11 {
        'b'
    } else if n == 12 {
        'c'
    } else if n == 13 {
        'd'
    } else if n == 14 {
        'e'
    } else {
        'f'
    }
}

/// What stands for `c` inside a JSON string.
pub open spec fn json_escape(c: char) -> Seq<char> {
    if c == '"' {
        seq!['\\', '"']
    } else if c == '\\' {
        seq!['\\', '\\']
    } else if c as u32 == 0x8 {
        seq!['\\', 'b']
    } else if c as u32 == 0x9 {
        seq!['\\', 't']
    } else if c as u32 == 0xa {
        seq!['\\', 'n']
    } else if c as u32 == 0xc {
        seq!['\\', 'f']
    } else if c as u32 == 0xd {
        seq!['\\', 'r']
    } else if (c as u32) < 0x20 {
        seq!['\\', 'u', '0', '0', hex_char(c as nat / 16), hex_char(c as nat % 16)]
    } else {
        seq![c]
    }
}

/// What stands for `s` inside a JSON string.
pub open spec fn json_escaped(s: Seq<char>) -> Seq<char>
    decreases s.len(),
{
    if s.len() == 0 {
        Seq::empty()
    } else {
        json_escaped(s.drop_last()) + json_escape(s.last())
    }
}

/// `s` between double quotes.
pub open spec fn quoted(s: Seq<char>) -> Seq<char> {
    "\""@ + s + "\""@
}

/// `s` as a JSON string.
pub open spec fn json_text(s: Seq<char>) -> Seq<char> {
    quoted(json_escaped(s))
}

/// A name and a value of a JSON object.
pub open spec fn json_field(name: Seq<char>, value: Seq<char>) -> Seq<char> {
    quoted(name) + ":"@ + value
}

/// An optional string as JSON.
pub open spec fn json_opt(s: Option<Seq<char>>) -> Seq<char> {
    match s {
        Some(s) => json_text(s),
        None => "null"@,
    }
}

/// An amount as JSON: a string of decimal digits.
pub open spec fn json_amount(n: u128) -> Seq<char> {
    quoted(decimal_text(n as nat))
}

/// Whether no character of `s` needs an escape in a JSON string.
pub open spec fn needs_no_escape(s: Seq<char>) -> bool {
    forall|i: int|
        0 <= i < s.len() ==> (#[trigger] s[i]) as u32 >= 0x20 && s[i] != '"' && s[i] != '\\'
}

/// Text that needs no escape stands in a JSON string as it is.
proof fn lemma_needs_no_escape(s: Seq<char>)
    requires
        needs_no_escape(s),
    ensures
        json_escaped(s) == s,
    decreases s.len(),
{
    if s.len() > 0 {
        assert forall|i: int| 0 <= i < s.drop_last().len() implies (#[trigger] s.drop_last()[i])
            as u32 >= 0x20 && s.drop_last()[i] != '"' && s.drop_last()[i] != '\\' by {
            assert(s.drop_last()[i] == s[i]);
        }
        lemma_needs_no_escape(s.drop_last());
        assert(s[s.len() - 1] == s.last());
        assert(json_escaped(s) =~= s);
    } else {
        assert(json_escaped(s) =~= s);
    }
}

/// Account identifiers and decimal numbers need no escape: between quotes they are JSON strings.
pub proof fn law_plain_texts_are_quoted(id: Seq<char>, n: nat)
    requires
        is_account_id(id),
    ensures
        json_text(id) == quoted(id),
        json_text(decimal_text(n)) == quoted(decimal_text(n)),
{
    assert forall|i: int| 0 <= i < id.len() implies (#[trigger] id[i]) as u32 >= 0x20 && id[i]
        != '"' && id[i] != '\\' by {
        assert(is_word_char(id[i]) || is_separator(id[i]));
    }
    lemma_needs_no_escape(id);
    lemma_decimal_text(n);
    let digits = decimal_text(n);
    assert forall|i: int| 0 <= i < digits.len() implies (#[trigger] digits[i]) as u32 >= 0x20
        && digits[i] != '"' && digits[i] != '\\' by {
        assert(is_digit(digits[i]));
    }
    lemma_needs_no_escape(digits);
}

/// Calls `serde_json::to_string` on `text`: a JSON string in which the quote, the backslash and
/// the control characters are escaped and every other character stands as it is.
#[verifier::external_body]
pub(crate) fn json_string(text: &str) -> (r: String)
    ensures
        r@ == json_text(text@),
{
    serde_json::to_string(text).unwrap()
}

/// The member `name` of the JSON object that `bytes` hold: no text where they hold no object, no
/// such member, or a member that is no string; what serde_json says of the bytes where they hold no
/// JSON.
pub uninterp spec fn member_text(bytes: Seq<u8>, name: Seq<char>) -> Result<
    Option<Seq<char>>,
    Seq<char>,
>;

/// The view of a member.
pub open spec fn member_view(r: Result<Option<String>, String>) -> Result<
    Option<Seq<char>>,
    Seq<char>,
> {
    match r {
        Ok(text) => Ok(opt_text(text)),
        Err(fault) => Err(fault@),
    }
}

/// Calls `serde_json::from_slice` for a value, and looks its member `name` up.
#[verifier::external_body]
pub(crate) fn json_member(bytes: &Vec<u8>, name: &str) -> (r: Result<Option<String>, String>)
    ensures
        member_view(r) == member_text(bytes@, name@),
{
    match serde_json::from_slice::<serde_json::Value>(bytes) {
        Ok(value) => Ok(value.get(name).and_then(|m| m.as_str()).map(|text| text.to_owned())),
        Err(fault) => Err(fault.to_string()),
    }
}

/// The text of the JSON string that `bytes` hold; nothing where they hold no JSON string.
pub uninterp spec fn string_text(bytes: Seq<u8>) -> Option<Seq<char>>;

/// Calls `serde_json::from_slice` for a string.
#[verifier::external_body]
pub(crate) fn json_string_value(bytes: &Vec<u8>) -> (r: Option<String>)
    ensures
        opt_text(r) == string_text(bytes@),
{
    serde_json::from_slice::<String>(bytes).ok()
}

/// The amount that the JSON string in `bytes` writes in decimal, as near-sdk reads it; nothing where
/// they hold no such string.
pub uninterp spec fn amount_value(bytes: Seq<u8>) -> Option<u128>;

/// Calls `serde_json::from_slice` for near-sdk's `U128`.
#[verifier::external_body]
pub(crate) fn json_amount_value(bytes: &Vec<u8>) -> (r: Option<u128>)
    ensures
        r == amount_value(bytes@),
{
    serde_json::from_slice::<near_sdk::json_types::U128>(bytes).ok().map(|amount| amount.0)
}

/// `text` between double quotes.
pub fn quote(text: &str) -> (r: String)
    ensures
        r@ == quoted(text@),
{
    let mut r: String = "\"".to_owned();
    r.append(text);
    r.append("\"");
    r
}

/// Appends a name and a value of a JSON object.
pub fn push_field(out: &mut String, name: &str, value: &str)
    ensures
        final(out)@ == old(out)@ + json_field(name@, value@),
{
    let ghost before = out@;
    out.append("\"");
    out.append(name);
    out.append("\"");
    out.append(":");
    out.append(value);
    assert(out@ =~= before + json_field(name@, value@));
}

/// An optional string as JSON.
pub fn json_opt_string(text: &Option<String>) -> (r: String)
    ensures
        r@ == json_opt(opt_text(*text)),
{
    match text {
        Some(t) => json_string(t.as_str()),
        None => "null".to_owned(),
    }
}

proof fn lemma_escaped_from_start(s: Seq<char>)
    requires
        s.len() > 0,
    ensures
        json_escaped(s) == json_escape(s[0]) + json_escaped(s.skip(1)),
    decreases s.len(),
{
    let t = s.drop_last();
    if t.len() > 0 {
        lemma_escaped_from_start(t);
        assert(t[0] == s[0]);
        assert(t.skip(1) =~= s.skip(1).drop_last());
        assert(s.skip(1).last() == s.last());
        assert(json_escaped(s) =~= json_escape(s[0]) + json_escaped(s.skip(1)));
    } else {
        assert(s.skip(1) =~= Seq::<char>::empty());
        assert(s.last() == s[0]);
        assert(json_escaped(t) =~= Seq::<char>::empty());
        assert(json_escaped(s) =~= json_escape(s[0]) + json_escaped(s.skip(1)));
    }
}

proof fn lemma_hex_char(m: nat, n: nat)
    requires
        m < 16,
        n < 16,
        hex_char(m) == hex_char(n),
    ensures
        m == n,
{
}

proof fn lemma_escape_tells(a: char, x: Seq<char>, b: char, y: Seq<char>)
    requires
        json_escape(a) + x == json_escape(b) + y,
    ensures
        a == b,
        x == y,
{
    let s = json_escape(a) + x;
    let t = json_escape(b) + y;
    assert(s[0] == json_escape(a)[0]);
    assert(t[0] == json_escape(b)[0]);
    if json_escape(a).len() > 1 && json_escape(b).len() > 1 {
        assert(s[1] == json_escape(a)[1]);
        assert(t[1] == json_escape(b)[1]);
        if json_escape(a).len() > 2 && json_escape(b).len() > 2 {
            assert(s[4] == json_escape(a)[4]);
            assert(t[4] == json_escape(b)[4]);
            assert(s[5] == json_escape(a)[5]);
            assert(t[5] == json_escape(b)[5]);
            lemma_hex_char(a as nat / 16, b as nat / 16);
            lemma_hex_char(a as nat % 16, b as nat % 16);
        }
    }
    assert(a == b);
    assert(s.skip(json_escape(a).len() as int) =~= x);
    assert(t.skip(json_escape(b).len() as int) =~= y);
}

/// Escaping loses nothing: different texts are different JSON strings.
pub proof fn law_escaping_loses_nothing(a: Seq<char>, b: Seq<char>)
    requires
        json_escaped(a) == json_escaped(b),
    ensures
        a == b,
    decreases a.len(),
{
    if a.len() == 0 || b.len() == 0 {
        if a.len() > 0 {
            lemma_escaped_from_start(a);
            assert(json_escape(a[0]).len() > 0);
        }
        if b.len() > 0 {
            lemma_escaped_from_start(b);
            assert(json_escape(b[0]).len() > 0);
        }
        assert(a =~= b);
    } else {
        lemma_escaped_from_start(a);
        lemma_escaped_from_start(b);
        lemma_escape_tells(a[0], json_escaped(a.skip(1)), b[0], json_escaped(b.skip(1)));
        law_escaping_loses_nothing(a.skip(1), b.skip(1));
        assert(a =~= seq![a[0]] + a.skip(1));
        assert(b =~= seq![b[0]] + b.skip(1));
    }
}

/// In an escaped text no control character is left, and no double quote without a backslash before
/// it.
pub proof fn law_escaped_text_stays_in_its_quotes(s: Seq<char>)
    ensures
        forall|i: int|
            0 <= i < json_escaped(s).len() ==> (#[trigger] json_escaped(s)[i]) as u32 >= 0x20,
        forall|i: int|
            0 <= i < json_escaped(s).len() && #[trigger] json_escaped(s)[i] == '"' ==> i > 0
                && json_escaped(s)[i - 1] == '\\',
    decreases s.len(),
{
    if s.len() > 0 {
        let t = s.drop_last();
        law_escaped_text_stays_in_its_quotes(t);
        let head = json_escaped(t);
        let code = json_escape(s.last());
        assert forall|i: int| 0 <= i < json_escaped(s).len() implies (#[trigger] json_escaped(
            s,
        )[i]) as u32 >= 0x20 && (json_escaped(s)[i] == '"' ==> i > 0 && json_escaped(s)[i - 1]
            == '\\') by {
            if i < head.len() {
                assert(json_escaped(s)[i] == head[i]);
                if i > 0 {
                    assert(json_escaped(s)[i - 1] == head[i - 1]);
                }
            } else {
                assert(json_escaped(s)[i] == code[i - head.len()]);
                if i > head.len() {
                    assert(json_escaped(s)[i - 1] == code[i - head.len() - 1]);
                }
            }
        }
    }
}

} // verus!
