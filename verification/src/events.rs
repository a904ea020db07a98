//! NEP-297 events for the administrative operations of the contract.
use crate::account::{opt_account, AccountId};
use crate::host::{Journal, Request};
use crate::json::{
    json_amount, json_field, json_opt, json_opt_string, json_text, push_field, quote, quoted,
};
use crate::text::{
    contains_text, decimal, decimal_text, lemma_stands_after, lemma_stands_before,
    lemma_stands_in_itself, opt_text, starts_with,
};
use vstd::prelude::*;

verus! {

/// What a privileged method reports.
///
/// Every successful call of a privileged method gives its event, even when the call did not change
/// the state (pausing an already paused contract, say).
#[derive(Debug)]
pub enum ContractEvent {
    Paused { by: AccountId },
    Unpaused { by: AccountId },
    AccountFrozen { by: AccountId, account_id: AccountId },
    AccountUnfrozen { by: AccountId, account_id: AccountId },
    PriceUpdated { by: AccountId, old_price: u128, new_price: u128 },
    OwnershipTransferStarted { previous_owner: AccountId, new_owner: AccountId },
    OwnershipTransferCancelled { by: AccountId, pending_owner: Option<AccountId> },
    OwnerChanged { old_owner: AccountId, new_owner: AccountId },
    ForceFtTransfer {
        by: AccountId,
        sender_id: AccountId,
        receiver_id: AccountId,
        amount: u128,
        memo: Option<String>,
    },
}

/// A [`ContractEvent`], as mathematical values.
pub ghost enum EventView {
    Paused { by: Seq<char> },
    Unpaused { by: Seq<char> },
    AccountFrozen { by: Seq<char>, account_id: Seq<char> },
    AccountUnfrozen { by: Seq<char>, account_id: Seq<char> },
    PriceUpdated { by: Seq<char>, old_price: u128, new_price: u128 },
    OwnershipTransferStarted { previous_owner: Seq<char>, new_owner: Seq<char> },
    OwnershipTransferCancelled { by: Seq<char>, pending_owner: Option<Seq<char>> },
    OwnerChanged { old_owner: Seq<char>, new_owner: Seq<char> },
    ForceFtTransfer {
        by: Seq<char>,
        sender_id: Seq<char>,
        receiver_id: Seq<char>,
        amount: u128,
        memo: Option<Seq<char>>,
    },
}

impl View for ContractEvent {
    type V = EventView;

    open spec fn view(&self) -> EventView {
        match *self {
            ContractEvent::Paused { by } => EventView::Paused { by: by@ },
            ContractEvent::Unpaused { by } => EventView::Unpaused { by: by@ },
            ContractEvent::AccountFrozen { by, account_id } => EventView::AccountFrozen {
                by: by@,
                account_id: account_id@,
            },
            ContractEvent::AccountUnfrozen { by, account_id } => EventView::AccountUnfrozen {
                by: by@,
                account_id: account_id@,
            },
            ContractEvent::PriceUpdated { by, old_price, new_price } => EventView::PriceUpdated {
                by: by@,
                old_price,
                new_price,
            },
            ContractEvent::OwnershipTransferStarted { previous_owner, new_owner } =>
                EventView::OwnershipTransferStarted {
                previous_owner: previous_owner@,
                new_owner: new_owner@,
            },
            ContractEvent::OwnershipTransferCancelled { by, pending_owner } =>
                EventView::OwnershipTransferCancelled {
                by: by@,
                pending_owner: opt_account(pending_owner),
            },
            ContractEvent::OwnerChanged { old_owner, new_owner } => EventView::OwnerChanged {
                old_owner: old_owner@,
                new_owner: new_owner@,
            },
            ContractEvent::ForceFtTransfer { by, sender_id, receiver_id, amount, memo } =>
                EventView::ForceFtTransfer {
                by: by@,
                sender_id: sender_id@,
                receiver_id: receiver_id@,
                amount,
                memo: opt_text(memo),
            },
        }
    }
}

/// An optional account as JSON.
pub open spec fn json_opt_account(id: Option<Seq<char>>) -> Seq<char> {
    match id {
        Some(id) => quoted(id),
        None => "null"@,
    }
}

/// The name under which an event is logged.
pub open spec fn event_name(e: EventView) -> Seq<char> {
    match e {
        EventView::Paused { .. } => "paused"@,
        EventView::Unpaused { .. } => "unpaused"@,
        EventView::AccountFrozen { .. } => "account_frozen"@,
        EventView::AccountUnfrozen { .. } => "account_unfrozen"@,
        EventView::PriceUpdated { .. } => "price_updated"@,
        EventView::OwnershipTransferStarted { .. } => "ownership_transfer_started"@,
        EventView::OwnershipTransferCancelled { .. } => "ownership_transfer_cancelled"@,
        EventView::OwnerChanged { .. } => "owner_changed"@,
        EventView::ForceFtTransfer { .. } => "force_ft_transfer"@,
    }
}

/// The fields of an event, as the inside of a JSON object.
pub open spec fn event_fields(e: EventView) -> Seq<char> {
    match e {
        EventView::Paused { by } => json_field("by"@, quoted(by)),
        EventView::Unpaused { by } => json_field("by"@, quoted(by)),
        EventView::AccountFrozen { by, account_id } => json_field("by"@, quoted(by)) + ","@
            + json_field("account_id"@, quoted(account_id)),
        EventView::AccountUnfrozen { by, account_id } => json_field("by"@, quoted(by)) + ","@
            + json_field("account_id"@, quoted(account_id)),
        EventView::PriceUpdated { by, old_price, new_price } => json_field("by"@, quoted(by)) + ","@
            + json_field("old_price"@, json_amount(old_price)) + ","@ + json_field(
            "new_price"@,
            json_amount(new_price),
        ),
        EventView::OwnershipTransferStarted { previous_owner, new_owner } => json_field(
            "previous_owner"@,
            quoted(previous_owner),
        ) + ","@ + json_field("new_owner"@, quoted(new_owner)),
        EventView::OwnershipTransferCancelled { by, pending_owner } => json_field("by"@, quoted(by))
            + ","@ + json_field("pending_owner"@, json_opt_account(pending_owner)),
        EventView::OwnerChanged { old_owner, new_owner } => json_field(
            "old_owner"@,
            quoted(old_owner),
        ) + ","@ + json_field("new_owner"@, quoted(new_owner)),
        EventView::ForceFtTransfer { by, sender_id, receiver_id, amount, memo } => json_field(
            "by"@,
            quoted(by),
        ) + ","@ + json_field("sender_id"@, quoted(sender_id)) + ","@ + json_field(
            "receiver_id"@,
            quoted(receiver_id),
        ) + ","@ + json_field("amount"@, json_amount(amount)) + ","@ + json_field(
            "memo"@,
            json_opt(memo),
        ),
    }
}

/// The log line of an event.
pub open spec fn event_log(e: EventView) -> Seq<char> {
    "EVENT_JSON:{\"standard\":\"cnear\",\"version\":\"1.0.0\",\"event\":"@ + quoted(event_name(e))
        + ",\"data\":{"@ + event_fields(e) + "}}"@
}

impl ContractEvent {
    fn name(&self) -> (r: &'static str)
        ensures
            r@ == event_name(self@),
    {
        match self {
            ContractEvent::Paused { .. } => "paused",
            ContractEvent::Unpaused { .. } => "unpaused",
            ContractEvent::AccountFrozen { .. } => "account_frozen",
            ContractEvent::AccountUnfrozen { .. } => "account_unfrozen",
            ContractEvent::PriceUpdated { .. } => "price_updated",
            ContractEvent::OwnershipTransferStarted { .. } => "ownership_transfer_started",
            ContractEvent::OwnershipTransferCancelled { .. } => "ownership_transfer_cancelled",
            ContractEvent::OwnerChanged { .. } => "owner_changed",
            ContractEvent::ForceFtTransfer { .. } => "force_ft_transfer",
        }
    }

    fn fields(&self) -> (r: String)
        ensures
            r@ == event_fields(self@),
    {
        let mut out: String = String::new();
        match self {
            ContractEvent::Paused { by } => {
                push_account(&mut out, "by", by);
            },
            ContractEvent::Unpaused { by } => {
                push_account(&mut out, "by", by);
            },
            ContractEvent::AccountFrozen { by, account_id } => {
                push_account(&mut out, "by", by);
                out.append(",");
                push_account(&mut out, "account_id", account_id);
            },
            ContractEvent::AccountUnfrozen { by, account_id } => {
                push_account(&mut out, "by", by);
                out.append(",");
                push_account(&mut out, "account_id", account_id);
            },
            ContractEvent::PriceUpdated { by, old_price, new_price } => {
                push_account(&mut out, "by", by);
                out.append(",");
                push_amount(&mut out, "old_price", *old_price);
                out.append(",");
                push_amount(&mut out, "new_price", *new_price);
            },
            ContractEvent::OwnershipTransferStarted { previous_owner, new_owner } => {
                push_account(&mut out, "previous_owner", previous_owner);
                out.append(",");
                push_account(&mut out, "new_owner", new_owner);
            },
            ContractEvent::OwnershipTransferCancelled { by, pending_owner } => {
                push_account(&mut out, "by", by);
                out.append(",");
                match pending_owner {
                    Some(id) => push_account(&mut out, "pending_owner", id),
                    None => push_field(&mut out, "pending_owner", "null"),
                }
            },
            ContractEvent::OwnerChanged { old_owner, new_owner } => {
                push_account(&mut out, "old_owner", old_owner);
                out.append(",");
                push_account(&mut out, "new_owner", new_owner);
            },
            ContractEvent::ForceFtTransfer { by, sender_id, receiver_id, amount, memo } => {
                push_account(&mut out, "by", by);
                out.append(",");
                push_account(&mut out, "sender_id", sender_id);
                out.append(",");
                push_account(&mut out, "receiver_id", receiver_id);
                out.append(",");
                push_amount(&mut out, "amount", *amount);
                out.append(",");
                push_field(&mut out, "memo", json_opt_string(memo).as_str());
            },
        }
        assert(out@ =~= event_fields(self@));
        out
    }

    /// The line that is logged for the event.
    pub fn log_line(&self) -> (r: String)
        ensures
            r@ == event_log(self@),
    {
        let mut out: String =
            "EVENT_JSON:{\"standard\":\"cnear\",\"version\":\"1.0.0\",\"event\":".to_owned();
        out.append(quote(self.name()).as_str());
        out.append(",\"data\":{");
        out.append(self.fields().as_str());
        out.append("}}");
        out
    }

    /// Logs the event.
    pub(crate) fn emit(&self, journal: &mut Journal)
        ensures
            final(journal)@ == old(journal)@.push(Request::Log { text: event_log(self@) }),
            final(journal).answers() == old(journal).answers(),
    {
        journal.log(self.log_line().as_str());
    }
}

fn push_account(out: &mut String, name: &str, id: &AccountId)
    ensures
        final(out)@ == old(out)@ + json_field(name@, quoted(id@)),
{
    push_field(out, name, quote(id.as_str()).as_str())
}

fn push_amount(out: &mut String, name: &str, amount: u128)
    ensures
        final(out)@ == old(out)@ + json_field(name@, json_amount(amount)),
{
    push_field(out, name, quote(decimal(amount).as_str()).as_str())
}

/// The log line of an event is a JSON object of the standard `cnear` that names the event and holds
/// every field of it by its name.
pub proof fn law_an_event_names_its_fields(e: EventView)
    ensures
        starts_with(event_log(e), "EVENT_JSON:{\"standard\":\"cnear\",\"version\":\"1.0.0\","@),
        match e {
            EventView::Paused { by } => {
                &&& contains_text(event_log(e), "\"event\":\"paused\""@)
                &&& contains_text(event_log(e), "\"by\":\""@ + by + "\""@)
            },
            EventView::Unpaused { by } => {
                &&& contains_text(event_log(e), "\"event\":\"unpaused\""@)
                &&& contains_text(event_log(e), "\"by\":\""@ + by + "\""@)
            },
            EventView::AccountFrozen { by, account_id } => {
                &&& contains_text(event_log(e), "\"event\":\"account_frozen\""@)
                &&& contains_text(event_log(e), "\"by\":\""@ + by + "\""@)
                &&& contains_text(event_log(e), "\"account_id\":\""@ + account_id + "\""@)
            },
            EventView::AccountUnfrozen { by, account_id } => {
                &&& contains_text(event_log(e), "\"event\":\"account_unfrozen\""@)
                &&& contains_text(event_log(e), "\"by\":\""@ + by + "\""@)
                &&& contains_text(event_log(e), "\"account_id\":\""@ + account_id + "\""@)
            },
            EventView::PriceUpdated { by, old_price, new_price } => {
                &&& contains_text(event_log(e), "\"event\":\"price_updated\""@)
                &&& contains_text(event_log(e), "\"by\":\""@ + by + "\""@)
                &&& contains_text(
                    event_log(e),
                    "\"old_price\":\""@ + decimal_text(old_price as nat) + "\""@,
                )
                &&& contains_text(
                    event_log(e),
                    "\"new_price\":\""@ + decimal_text(new_price as nat) + "\""@,
                )
            },
            EventView::OwnershipTransferStarted { previous_owner, new_owner } => {
                &&& contains_text(event_log(e), "\"event\":\"ownership_transfer_started\""@)
                &&& contains_text(event_log(e), "\"previous_owner\":\""@ + previous_owner + "\""@)
                &&& contains_text(event_log(e), "\"new_owner\":\""@ + new_owner + "\""@)
            },
            EventView::OwnershipTransferCancelled { by, pending_owner } => {
                &&& contains_text(event_log(e), "\"event\":\"ownership_transfer_cancelled\""@)
                &&& contains_text(event_log(e), "\"by\":\""@ + by + "\""@)
                &&& pending_owner is Some ==> contains_text(
                    event_log(e),
                    "\"pending_owner\":\""@ + pending_owner->0 + "\""@,
                )
                &&& pending_owner is None ==> contains_text(
                    event_log(e),
                    "\"pending_owner\":null"@,
                )
            },
            EventView::OwnerChanged { old_owner, new_owner } => {
                &&& contains_text(event_log(e), "\"event\":\"owner_changed\""@)
                &&& contains_text(event_log(e), "\"old_owner\":\""@ + old_owner + "\""@)
                &&& contains_text(event_log(e), "\"new_owner\":\""@ + new_owner + "\""@)
            },
            EventView::ForceFtTransfer { by, sender_id, receiver_id, amount, memo } => {
                &&& contains_text(event_log(e), "\"event\":\"force_ft_transfer\""@)
                &&& contains_text(event_log(e), "\"by\":\""@ + by + "\""@)
                &&& contains_text(event_log(e), "\"sender_id\":\""@ + sender_id + "\""@)
                &&& contains_text(event_log(e), "\"receiver_id\":\""@ + receiver_id + "\""@)
                &&& contains_text(
                    event_log(e),
                    "\"amount\":\""@ + decimal_text(amount as nat) + "\""@,
                )
                &&& memo is Some ==> contains_text(
                    event_log(e),
                    "\"memo\":"@ + json_text(memo->0),
                )
                &&& memo is None ==> contains_text(event_log(e), "\"memo\":null"@)
            },
        },
{
    lemma_log_starts(e);
    match e {
        EventView::Paused { by } => {
            let name = "\"event\":"@ + quoted("paused"@);
            assert(name == "\"event\":\"paused\""@) by {
                reveal_strlit("\"");
                reveal_strlit("\"event\":");
                reveal_strlit("paused");
                reveal_strlit("\"event\":\"paused\"");
                assert(name =~= "\"event\":\"paused\""@);
            }
            let f0 = json_field("by"@, quoted(by));
            assert(f0 == "\"by\":\""@ + by + "\""@) by {
                reveal_strlit("\"");
                reveal_strlit(":");
                reveal_strlit("by");
                reveal_strlit("\"by\":\"");
                assert(f0 =~= "\"by\":\""@ + by + "\""@);
            }
            lemma_stands_in_itself(f0);
            lemma_in_event(e, f0);
        },
        EventView::Unpaused { by } => {
            let name = "\"event\":"@ + quoted("unpaused"@);
            assert(name == "\"event\":\"unpaused\""@) by {
                reveal_strlit("\"");
                reveal_strlit("\"event\":");
                reveal_strlit("unpaused");
                reveal_strlit("\"event\":\"unpaused\"");
                assert(name =~= "\"event\":\"unpaused\""@);
            }
            let f0 = json_field("by"@, quoted(by));
            assert(f0 == "\"by\":\""@ + by + "\""@) by {
                reveal_strlit("\"");
                reveal_strlit(":");
                reveal_strlit("by");
                reveal_strlit("\"by\":\"");
                assert(f0 =~= "\"by\":\""@ + by + "\""@);
            }
            lemma_stands_in_itself(f0);
            lemma_in_event(e, f0);
        },
        EventView::AccountFrozen { by, account_id } => {
            let name = "\"event\":"@ + quoted("account_frozen"@);
            assert(name == "\"event\":\"account_frozen\""@) by {
                reveal_strlit("\"");
                reveal_strlit("\"event\":");
                reveal_strlit("account_frozen");
                reveal_strlit("\"event\":\"account_frozen\"");
                assert(name =~= "\"event\":\"account_frozen\""@);
            }
            let f0 = json_field("by"@, quoted(by));
            let f1 = json_field("account_id"@, quoted(account_id));
            assert(f0 == "\"by\":\""@ + by + "\""@) by {
                reveal_strlit("\"");
                reveal_strlit(":");
                reveal_strlit("by");
                reveal_strlit("\"by\":\"");
                assert(f0 =~= "\"by\":\""@ + by + "\""@);
            }
            assert(f1 == "\"account_id\":\""@ + account_id + "\""@) by {
                reveal_strlit("\"");
                reveal_strlit(":");
                reveal_strlit("account_id");
                reveal_strlit("\"account_id\":\"");
                assert(f1 =~= "\"account_id\":\""@ + account_id + "\""@);
            }
            let w1 = f0 + ","@ + f1;
            lemma_stands_in_itself(f0);
            lemma_joins(f0, f1, f0);
            lemma_in_event(e, f0);
            lemma_joined(f1, f0);
            lemma_in_event(e, f1);
        },
        EventView::AccountUnfrozen { by, account_id } => {
            let name = "\"event\":"@ + quoted("account_unfrozen"@);
            assert(name == "\"event\":\"account_unfrozen\""@) by {
                reveal_strlit("\"");
                reveal_strlit("\"event\":");
                reveal_strlit("account_unfrozen");
                reveal_strlit("\"event\":\"account_unfrozen\"");
                assert(name =~= "\"event\":\"account_unfrozen\""@);
            }
            let f0 = json_field("by"@, quoted(by));
            let f1 = json_field("account_id"@, quoted(account_id));
            assert(f0 == "\"by\":\""@ + by + "\""@) by {
                reveal_strlit("\"");
                reveal_strlit(":");
                reveal_strlit("by");
                reveal_strlit("\"by\":\"");
                assert(f0 =~= "\"by\":\""@ + by + "\""@);
            }
            assert(f1 == "\"account_id\":\""@ + account_id + "\""@) by {
                reveal_strlit("\"");
                reveal_strlit(":");
                reveal_strlit("account_id");
                reveal_strlit("\"account_id\":\"");
                assert(f1 =~= "\"account_id\":\""@ + account_id + "\""@);
            }
            let w1 = f0 + ","@ + f1;
            lemma_stands_in_itself(f0);
            lemma_joins(f0, f1, f0);
            lemma_in_event(e, f0);
            lemma_joined(f1, f0);
            lemma_in_event(e, f1);
        },
        EventView::PriceUpdated { by, old_price, new_price } => {
            let name = "\"event\":"@ + quoted("price_updated"@);
            assert(name == "\"event\":\"price_updated\""@) by {
                reveal_strlit("\"");
                reveal_strlit("\"event\":");
                reveal_strlit("price_updated");
                reveal_strlit("\"event\":\"price_updated\"");
                assert(name =~= "\"event\":\"price_updated\""@);
            }
            let f0 = json_field("by"@, quoted(by));
            let f1 = json_field("old_price"@, json_amount(old_price));
            let f2 = json_field("new_price"@, json_amount(new_price));
            assert(f0 == "\"by\":\""@ + by + "\""@) by {
                reveal_strlit("\"");
                reveal_strlit(":");
                reveal_strlit("by");
                reveal_strlit("\"by\":\"");
                assert(f0 =~= "\"by\":\""@ + by + "\""@);
            }
            assert(f1 == "\"old_price\":\""@ + decimal_text(old_price as nat) + "\""@) by {
                reveal_strlit("\"");
                reveal_strlit(":");
                reveal_strlit("old_price");
                reveal_strlit("\"old_price\":\"");
                assert(f1 =~= "\"old_price\":\""@ + decimal_text(old_price as nat) + "\""@);
            }
            assert(f2 == "\"new_price\":\""@ + decimal_text(new_price as nat) + "\""@) by {
                reveal_strlit("\"");
                reveal_strlit(":");
                reveal_strlit("new_price");
                reveal_strlit("\"new_price\":\"");
                assert(f2 =~= "\"new_price\":\""@ + decimal_text(new_price as nat) + "\""@);
            }
            let w1 = f0 + ","@ + f1;
            let w2 = w1 + ","@ + f2;
            lemma_stands_in_itself(f0);
            lemma_joins(f0, f1, f0);
            lemma_joins(w1, f2, f0);
            lemma_in_event(e, f0);
            lemma_joined(f1, f0);
            lemma_joins(w1, f2, f1);
            lemma_in_event(e, f1);
            lemma_joined(f2, w1);
            lemma_in_event(e, f2);
        },
        EventView::OwnershipTransferStarted { previous_owner, new_owner } => {
            let name = "\"event\":"@ + quoted("ownership_transfer_started"@);
            assert(name == "\"event\":\"ownership_transfer_started\""@) by {
                reveal_strlit("\"");
                reveal_strlit("\"event\":");
                reveal_strlit("ownership_transfer_started");
                reveal_strlit("\"event\":\"ownership_transfer_started\"");
                assert(name =~= "\"event\":\"ownership_transfer_started\""@);
            }
            let f0 = json_field("previous_owner"@, quoted(previous_owner));
            let f1 = json_field("new_owner"@, quoted(new_owner));
            assert(f0 == "\"previous_owner\":\""@ + previous_owner + "\""@) by {
                reveal_strlit("\"");
                reveal_strlit(":");
                reveal_strlit("previous_owner");
                reveal_strlit("\"previous_owner\":\"");
                assert(f0 =~= "\"previous_owner\":\""@ + previous_owner + "\""@);
            }
            assert(f1 == "\"new_owner\":\""@ + new_owner + "\""@) by {
                reveal_strlit("\"");
                reveal_strlit(":");
                reveal_strlit("new_owner");
                reveal_strlit("\"new_owner\":\"");
                assert(f1 =~= "\"new_owner\":\""@ + new_owner + "\""@);
            }
            let w1 = f0 + ","@ + f1;
            lemma_stands_in_itself(f0);
            lemma_joins(f0, f1, f0);
            lemma_in_event(e, f0);
            lemma_joined(f1, f0);
            lemma_in_event(e, f1);
        },
        EventView::OwnershipTransferCancelled { by, pending_owner } => {
            let name = "\"event\":"@ + quoted("ownership_transfer_cancelled"@);
            assert(name == "\"event\":\"ownership_transfer_cancelled\""@) by {
                reveal_strlit("\"");
                reveal_strlit("\"event\":");
                reveal_strlit("ownership_transfer_cancelled");
                reveal_strlit("\"event\":\"ownership_transfer_cancelled\"");
                assert(name =~= "\"event\":\"ownership_transfer_cancelled\""@);
            }
            let f0 = json_field("by"@, quoted(by));
            let f1 = json_field("pending_owner"@, json_opt_account(pending_owner));
            assert(f0 == "\"by\":\""@ + by + "\""@) by {
                reveal_strlit("\"");
                reveal_strlit(":");
                reveal_strlit("by");
                reveal_strlit("\"by\":\"");
                assert(f0 =~= "\"by\":\""@ + by + "\""@);
            }
            match pending_owner {
                Some(value) => {
                    assert(f1 == "\"pending_owner\":\""@ + value + "\""@) by {
                        reveal_strlit("\"");
                        reveal_strlit(":");
                        reveal_strlit("pending_owner");
                        reveal_strlit("\"pending_owner\":\"");
                        assert(f1 =~= "\"pending_owner\":\""@ + value + "\""@);
                    }
                },
                None => {
                    assert(f1 == "\"pending_owner\":null"@) by {
                        reveal_strlit("\"");
                        reveal_strlit(":");
                        reveal_strlit("pending_owner");
                        reveal_strlit("null");
                        reveal_strlit("\"pending_owner\":null");
                        assert(f1 =~= "\"pending_owner\":null"@);
                    }
                },
            }
            let w1 = f0 + ","@ + f1;
            lemma_stands_in_itself(f0);
            lemma_joins(f0, f1, f0);
            lemma_in_event(e, f0);
            lemma_joined(f1, f0);
            lemma_in_event(e, f1);
        },
        EventView::OwnerChanged { old_owner, new_owner } => {
            let name = "\"event\":"@ + quoted("owner_changed"@);
            assert(name == "\"event\":\"owner_changed\""@) by {
                reveal_strlit("\"");
                reveal_strlit("\"event\":");
                reveal_strlit("owner_changed");
                reveal_strlit("\"event\":\"owner_changed\"");
                assert(name =~= "\"event\":\"owner_changed\""@);
            }
            let f0 = json_field("old_owner"@, quoted(old_owner));
            let f1 = json_field("new_owner"@, quoted(new_owner));
            assert(f0 == "\"old_owner\":\""@ + old_owner + "\""@) by {
                reveal_strlit("\"");
                reveal_strlit(":");
                reveal_strlit("old_owner");
                reveal_strlit("\"old_owner\":\"");
                assert(f0 =~= "\"old_owner\":\""@ + old_owner + "\""@);
            }
            assert(f1 == "\"new_owner\":\""@ + new_owner + "\""@) by {
                reveal_strlit("\"");
                reveal_strlit(":");
                reveal_strlit("new_owner");
                reveal_strlit("\"new_owner\":\"");
                assert(f1 =~= "\"new_owner\":\""@ + new_owner + "\""@);
            }
            let w1 = f0 + ","@ + f1;
            lemma_stands_in_itself(f0);
            lemma_joins(f0, f1, f0);
            lemma_in_event(e, f0);
            lemma_joined(f1, f0);
            lemma_in_event(e, f1);
        },
        EventView::ForceFtTransfer { by, sender_id, receiver_id, amount, memo } => {
            let name = "\"event\":"@ + quoted("force_ft_transfer"@);
            assert(name == "\"event\":\"force_ft_transfer\""@) by {
                reveal_strlit("\"");
                reveal_strlit("\"event\":");
                reveal_strlit("force_ft_transfer");
                reveal_strlit("\"event\":\"force_ft_transfer\"");
                assert(name =~= "\"event\":\"force_ft_transfer\""@);
            }
            let f0 = json_field("by"@, quoted(by));
            let f1 = json_field("sender_id"@, quoted(sender_id));
            let f2 = json_field("receiver_id"@, quoted(receiver_id));
            let f3 = json_field("amount"@, json_amount(amount));
            let f4 = json_field("memo"@, json_opt(memo));
            assert(f0 == "\"by\":\""@ + by + "\""@) by {
                reveal_strlit("\"");
                reveal_strlit(":");
                reveal_strlit("by");
                reveal_strlit("\"by\":\"");
                assert(f0 =~= "\"by\":\""@ + by + "\""@);
            }
            assert(f1 == "\"sender_id\":\""@ + sender_id + "\""@) by {
                reveal_strlit("\"");
                reveal_strlit(":");
                reveal_strlit("sender_id");
                reveal_strlit("\"sender_id\":\"");
                assert(f1 =~= "\"sender_id\":\""@ + sender_id + "\""@);
            }
            assert(f2 == "\"receiver_id\":\""@ + receiver_id + "\""@) by {
                reveal_strlit("\"");
                reveal_strlit(":");
                reveal_strlit("receiver_id");
                reveal_strlit("\"receiver_id\":\"");
                assert(f2 =~= "\"receiver_id\":\""@ + receiver_id + "\""@);
            }
            assert(f3 == "\"amount\":\""@ + decimal_text(amount as nat) + "\""@) by {
                reveal_strlit("\"");
                reveal_strlit(":");
                reveal_strlit("amount");
                reveal_strlit("\"amount\":\"");
                assert(f3 =~= "\"amount\":\""@ + decimal_text(amount as nat) + "\""@);
            }
            match memo {
                Some(value) => {
                    assert(f4 == "\"memo\":"@ + json_text(value)) by {
                        reveal_strlit("\"");
                        reveal_strlit(":");
                        reveal_strlit("memo");
                        reveal_strlit("\"memo\":");
                        assert(f4 =~= "\"memo\":"@ + json_text(value));
                    }
                },
                None => {
                    assert(f4 == "\"memo\":null"@) by {
                        reveal_strlit("\"");
                        reveal_strlit(":");
                        reveal_strlit("memo");
                        reveal_strlit("null");
                        reveal_strlit("\"memo\":null");
                        assert(f4 =~= "\"memo\":null"@);
                    }
                },
            }
            let w1 = f0 + ","@ + f1;
            let w2 = w1 + ","@ + f2;
            let w3 = w2 + ","@ + f3;
            let w4 = w3 + ","@ + f4;
            lemma_stands_in_itself(f0);
            lemma_joins(f0, f1, f0);
            lemma_joins(w1, f2, f0);
            lemma_joins(w2, f3, f0);
            lemma_joins(w3, f4, f0);
            lemma_in_event(e, f0);
            lemma_joined(f1, f0);
            lemma_joins(w1, f2, f1);
            lemma_joins(w2, f3, f1);
            lemma_joins(w3, f4, f1);
            lemma_in_event(e, f1);
            lemma_joined(f2, w1);
            lemma_joins(w2, f3, f2);
            lemma_joins(w3, f4, f2);
            lemma_in_event(e, f2);
            lemma_joined(f3, w2);
            lemma_joins(w3, f4, f3);
            lemma_in_event(e, f3);
            lemma_joined(f4, w3);
            lemma_in_event(e, f4);
        },
    }
}

proof fn lemma_joins(x: Seq<char>, more: Seq<char>, part: Seq<char>)
    requires
        contains_text(x, part),
    ensures
        contains_text(x + ","@ + more, part),
{
    lemma_stands_before(x, ","@, part);
    lemma_stands_before(x + ","@, more, part);
}

proof fn lemma_joined(part: Seq<char>, x: Seq<char>)
    ensures
        contains_text(x + ","@ + part, part),
{
    lemma_stands_in_itself(part);
    lemma_stands_after(x + ","@, part, part);
}

proof fn lemma_in_event(e: EventView, part: Seq<char>)
    requires
        contains_text(event_fields(e), part),
    ensures
        contains_text(event_log(e), part),
{
    let head =
        "EVENT_JSON:{\"standard\":\"cnear\",\"version\":\"1.0.0\",\"event\":"@ + quoted(event_name(e))
        + ",\"data\":{"@;
    lemma_stands_after(head, event_fields(e), part);
    lemma_stands_before(head + event_fields(e), "}}"@, part);
}

proof fn lemma_log_head()
    ensures
        "EVENT_JSON:{\"standard\":\"cnear\",\"version\":\"1.0.0\",\"event\":"@
            == "EVENT_JSON:{\"standard\":\"cnear\",\"version\":\"1.0.0\","@ + "\"event\":"@,
{
    reveal_strlit("EVENT_JSON:{\"standard\":\"cnear\",\"version\":\"1.0.0\",\"event\":");
    reveal_strlit("EVENT_JSON:{\"standard\":\"cnear\",\"version\":\"1.0.0\",");
    reveal_strlit("\"event\":");
    assert("EVENT_JSON:{\"standard\":\"cnear\",\"version\":\"1.0.0\",\"event\":"@
        =~= "EVENT_JSON:{\"standard\":\"cnear\",\"version\":\"1.0.0\","@ + "\"event\":"@);
}

proof fn lemma_log_starts(e: EventView)
    ensures
        starts_with(event_log(e), "EVENT_JSON:{\"standard\":\"cnear\",\"version\":\"1.0.0\","@),
        contains_text(event_log(e), "\"event\":"@ + quoted(event_name(e))),
{
    lemma_log_head();
    let start = "EVENT_JSON:{\"standard\":\"cnear\",\"version\":\"1.0.0\","@;
    let key = "\"event\":"@;
    let name = key + quoted(event_name(e));
    let rest = ",\"data\":{"@ + event_fields(e) + "}}"@;
    lemma_regroup(start, key, quoted(event_name(e)), ",\"data\":{"@, event_fields(e), "}}"@);
    assert(event_log(e) == start + name + rest);
    lemma_stands_in_itself(name);
    lemma_stands_after(start, name, name);
    lemma_stands_before(start + name, rest, name);
    assert((start + name + rest).take(start.len() as int) =~= start);
}

proof fn lemma_regroup(
    a: Seq<char>,
    b: Seq<char>,
    c: Seq<char>,
    d: Seq<char>,
    e: Seq<char>,
    f: Seq<char>,
)
    ensures
        a + b + c + d + e + f == a + (b + c) + (d + e + f),
{
    assert(a + b + c + d + e + f =~= a + (b + c) + (d + e + f));
}

} // verus!
