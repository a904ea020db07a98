//! The operator's answers.
use crate::deploy_cli::options::NetworkName;
use crate::sorting::{in_order, sort_texts};
use crate::text::{
    answer_or, bounded_number, chars_of, ends_with, lower_text, parse_number, same_text, same_word,
    strip_suffix, texts, trim, trimmed,
};
use vstd::prelude::*;

verus! {

/// Whether `c` ends a line.
pub open spec fn ends_line(c: char) -> bool {
    c == '\r' || c == '\n'
}

/// `s` without the line ends at its end.
pub open spec fn without_line_end(s: Seq<char>) -> Seq<char>
    decreases s.len(),
{
    if s.len() > 0 && ends_line(s.last()) {
        without_line_end(s.drop_last())
    } else {
        s
    }
}

/// A line as it was typed, without its end.
pub fn prompt_line(raw: &str) -> (r: &str)
    ensures
        r@ == without_line_end(raw@),
{
    let chars: Vec<char> = chars_of(raw);
    let mut end: usize = chars.len();
    assert(raw@.subrange(0, end as int) =~= raw@);
    while end > 0 && (chars[end - 1] == '\r' || chars[end - 1] == '\n')
        invariant
            end <= chars.len(),
            chars@ == raw@,
            without_line_end(raw@) == without_line_end(raw@.subrange(0, end as int)),
        decreases end,
    {
        assert(raw@.subrange(0, end as int).drop_last() =~= raw@.subrange(0, end - 1));
        end -= 1;
    }
    raw.substring_char(0, end)
}

/// The answer to a question that has a default.
pub fn prompt_default(reply: &str, default: &str) -> (r: String)
    ensures
        r@ == answer_or(reply@, default@),
{
    let value: &str = trim(reply);
    if value.is_empty() {
        default.to_owned()
    } else {
        value.to_owned()
    }
}

/// Whether an answer says yes: `y` or `yes`, in any case.
pub open spec fn says_yes(reply: Seq<char>) -> bool {
    lower_text(trimmed(reply)) == "y"@ || lower_text(trimmed(reply)) == "yes"@
}

/// The answer to a question that is to be confirmed.
pub fn prompt_yes_no(reply: &str) -> (r: bool)
    ensures
        r == says_yes(reply@),
{
    proof {
        reveal_strlit("y");
        reveal_strlit("yes");
        assert(lower_text("y"@) =~= "y"@);
        assert(lower_text("yes"@) =~= "yes"@);
    }
    let value: &str = trim(reply);
    same_word(value, "y") || same_word(value, "yes")
}

/// The network that an answer chooses, and whether the answer is one of the choices: testnet by
/// `1`, a blank answer or anything unknown, mainnet by `2`.
pub open spec fn network_choice(reply: Seq<char>) -> (NetworkName, bool) {
    let t = trimmed(reply);
    if t.len() == 0 || t == "1"@ {
        (NetworkName::Testnet, true)
    } else if t == "2"@ {
        (NetworkName::Mainnet, true)
    } else {
        (NetworkName::Testnet, false)
    }
}

/// The answer to the question for a network.
pub fn prompt_network(reply: &str) -> (r: (NetworkName, bool))
    ensures
        r == network_choice(reply@),
{
    let value: &str = trim(reply);
    if value.is_empty() || same_text(value, "1") {
        (NetworkName::Testnet, true)
    } else if same_text(value, "2") {
        (NetworkName::Mainnet, true)
    } else {
        (NetworkName::Testnet, false)
    }
}

/// The account whose credentials a file of this name holds: the name without `.json`.
pub open spec fn credential_account(name: Seq<char>) -> Option<Seq<char>> {
    if ends_with(name, ".json"@) && name.len() > 5 {
        Some(name.take(name.len() - 5))
    } else {
        None
    }
}

/// The accounts of the credentials among files of these names, in the order of the files.
pub open spec fn accounts_among(names: Seq<Seq<char>>) -> Seq<Seq<char>>
    decreases names.len(),
{
    if names.len() == 0 {
        Seq::empty()
    } else {
        match credential_account(names.last()) {
            Some(account) => accounts_among(names.drop_last()).push(account),
            None => accounts_among(names.drop_last()),
        }
    }
}

/// The accounts whose credentials are among the files of a directory, in order.
pub fn credential_accounts(names: &Vec<String>) -> (r: Vec<String>)
    ensures
        in_order(texts(r@)),
        texts(r@).to_multiset() == accounts_among(texts(names@)).to_multiset(),
{
    let mut found: Vec<String> = Vec::new();
    let ghost all = texts(names@);
    let mut i: usize = 0;
    assert(texts(found@) =~= Seq::empty());
    assert(all.take(0) =~= Seq::empty());
    proof {
        reveal_strlit(".json");
        assert(".json"@.len() == 5);
    }
    while i < names.len()
        invariant
            i <= names.len(),
            all == texts(names@),
            ".json"@.len() == 5,
            texts(found@) == accounts_among(all.take(i as int)),
        decreases names.len() - i,
    {
        let name: &str = names[i].as_str();
        assert(all.take(i + 1).drop_last() =~= all.take(i as int));
        assert(all.take(i + 1).last() == name@);
        match strip_suffix(name, ".json") {
            Some(account) => {
                if !account.is_empty() {
                    let ghost before = texts(found@);
                    found.push(account.to_owned());
                    assert(texts(found@) =~= before.push(account@));
                }
            },
            None => {},
        }
        i += 1;
    }
    assert(all.take(i as int) =~= all);
    sort_texts(&found)
}

/// The place in a list that an answer chooses: the first by a blank answer, else the one whose
/// number, counted from one, was given.
pub open spec fn chosen_place(reply: Seq<char>, count: nat) -> Option<int> {
    let t = trimmed(reply);
    if t.len() == 0 {
        Some(0)
    } else {
        match bounded_number(t, count) {
            Some(n) => if n >= 1 {
                Some(n - 1)
            } else {
                None
            },
            None => None,
        }
    }
}

/// Why no signer was chosen.
#[derive(Clone, Copy, PartialEq, Eq, Structural, Debug)]
pub enum ChoiceError {
    /// There are no credentials to choose from.
    NoAccounts,
    InvalidChoice,
}

/// The signer that an answer chooses among `accounts`.
pub fn choose_signer(accounts: &Vec<String>, choice: &str) -> (r: Result<String, ChoiceError>)
    ensures
        match r {
            Ok(account) => accounts.len() > 0 && chosen_place(choice@, accounts.len() as nat) is Some
                && account@ == texts(accounts@)[chosen_place(choice@, accounts.len() as nat)->0],
            Err(ChoiceError::NoAccounts) => accounts.len() == 0,
            Err(ChoiceError::InvalidChoice) => accounts.len() > 0 && chosen_place(
                choice@,
                accounts.len() as nat,
            ) is None,
        },
{
    if accounts.len() == 0 {
        return Err(ChoiceError::NoAccounts);
    }
    let value: &str = trim(choice);
    if value.is_empty() {
        return Ok(accounts[0].clone());
    }
    match parse_number(value, accounts.len() as u128) {
        Some(n) => {
            if n == 0 {
                Err(ChoiceError::InvalidChoice)
            } else {
                Ok(accounts[(n - 1) as usize].clone())
            }
        },
        None => Err(ChoiceError::InvalidChoice),
    }
}

} // verus!
