//! Account identifiers.
use crate::text::same_text;
use vstd::prelude::*;

verus! {

/// The characters that separate the words of an account identifier.
pub open spec fn is_separator(c: char) -> bool {
    c == '-' || c == '_' || c == '.'
}

/// A lower-case ASCII letter or a decimal digit.
pub open spec fn is_word_char(c: char) -> bool {
    'a' <= c <= 'z' || '0' <= c <= '9'
}

/// The grammar of NEAR account identifiers: two to sixty-four characters, words of lower-case
/// letters and digits with single separators between them.
pub open spec fn is_account_id(s: Seq<char>) -> bool {
    &&& 2 <= s.len() <= 64
    &&& forall|i: int| 0 <= i < s.len() ==> is_word_char(#[trigger] s[i]) || is_separator(s[i])
    &&& !is_separator(s[0])
    &&& !is_separator(s.last())
    &&& forall|i: int|
        0 < i < s.len() ==> !(is_separator(#[trigger] s[i]) && is_separator(s[i - 1]))
}

/// Whether `text` is an account identifier, as `near_sdk::AccountId::validate` decides it.
///
/// The claim: the validation accepts exactly the texts of [`is_account_id`]. Its length limits
/// count bytes, which for the characters that it accepts is the same as counting characters.
#[verifier::external_body]
fn valid_account_id(text: &str) -> (r: bool)
    ensures
        r == is_account_id(text@),
{
    near_sdk::AccountId::validate(text).is_ok()
}

/// An account identifier. Every value is valid.
#[derive(Debug)]
pub struct AccountId {
    text: String,
}

impl View for AccountId {
    type V = Seq<char>;

    closed spec fn view(&self) -> Seq<char> {
        self.text@
    }
}

impl AccountId {
    #[verifier::type_invariant]
    spec fn well_formed(self) -> bool {
        is_account_id(self.text@)
    }

    /// The identifier that `text` writes, if it is one.
    pub fn parse(text: &str) -> (r: Option<AccountId>)
        ensures
            match r {
                Some(id) => is_account_id(text@) && id@ == text@,
                None => !is_account_id(text@),
            },
    {
        if valid_account_id(text) {
            Some(AccountId { text: text.to_owned() })
        } else {
            None
        }
    }

    /// The identifier's text.
    pub fn as_str(&self) -> (r: &str)
        ensures
            r@ == self@,
            is_account_id(self@),
    {
        proof {
            use_type_invariant(self);
        }
        self.text.as_str()
    }

    /// Another value for the same account.
    pub fn copy(&self) -> (r: AccountId)
        ensures
            r@ == self@,
    {
        proof {
            use_type_invariant(self);
        }
        AccountId { text: self.text.clone() }
    }

    /// Whether both name the same account.
    pub fn same(&self, other: &AccountId) -> (r: bool)
        ensures
            r == (self@ == other@),
    {
        same_text(self.text.as_str(), other.text.as_str())
    }

    /// Whether the identifier is `text`.
    pub fn is(&self, text: &str) -> (r: bool)
        ensures
            r == (self@ == text@),
    {
        same_text(self.text.as_str(), text)
    }
}

impl Clone for AccountId {
    fn clone(&self) -> (r: AccountId)
        ensures
            r@ == self@,
    {
        self.copy()
    }
}

impl PartialEq for AccountId {
    fn eq(&self, other: &AccountId) -> (r: bool) {
        self.same(other)
    }
}

impl vstd::std_specs::cmp::PartialEqSpecImpl for AccountId {
    open spec fn obeys_eq_spec() -> bool {
        true
    }

    open spec fn eq_spec(&self, other: &AccountId) -> bool {
        self@ == other@
    }
}

impl Eq for AccountId {

}

/// The view of an optional account.
pub open spec fn opt_account(id: Option<AccountId>) -> Option<Seq<char>> {
    match id {
        Some(id) => Some(id@),
        None => None,
    }
}

/// A copy of an optional account.
pub fn copy_opt_account(id: &Option<AccountId>) -> (r: Option<AccountId>)
    ensures
        opt_account(r) == opt_account(*id),
{
    match id {
        Some(id) => Some(id.copy()),
        None => None,
    }
}

} // verus!
