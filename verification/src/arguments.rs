//! The JSON arguments of the calls that set controller and token up.
use crate::json::{json_amount, json_field, json_string, json_text, push_field, quote, quoted};
use crate::text::{
    contains_text, decimal, decimal_text, lemma_stands_after, lemma_stands_before,
    lemma_stands_in_itself, occurs_at,
};
use vstd::prelude::*;

verus! {

/// The controller's initialization: the signer governs it.
pub open spec fn controller_args_text(signer: Seq<char>) -> Seq<char> {
    "{"@ + json_field("dao"@, quoted(signer)) + "}"@
}

/// What a token is initialized with.
pub ghost struct TokenTerms {
    pub name: Seq<char>,
    pub symbol: Seq<char>,
    pub decimals: u8,
    /// The first owner, which holds the supply.
    pub owner: Seq<char>,
    pub supply: u128,
    pub price: u128,
}

/// The token's initialization.
pub open spec fn token_args_text(t: TokenTerms) -> Seq<char> {
    "{"@ + json_field("latest_price"@, json_amount(t.price)) + ","@ + json_field(
        "metadata"@,
        "{"@ + json_field("decimals"@, decimal_text(t.decimals as nat)) + ","@ + json_field(
            "name"@,
            json_text(t.name),
        ) + ","@ + json_field("spec"@, quoted("ft-1.0.0"@)) + ","@ + json_field(
            "symbol"@,
            json_text(t.symbol),
        ) + "}"@,
    ) + ","@ + json_field("owner_id"@, quoted(t.owner)) + ","@ + json_field(
        "total_supply"@,
        json_amount(t.supply),
    ) + "}"@
}

/// The offer of the token to the controller.
pub open spec fn propose_args_text(controller: Seq<char>) -> Seq<char> {
    "{"@ + json_field("new_owner"@, quoted(controller)) + "}"@
}

/// The call that the controller makes to the token to accept it.
pub open spec fn accept_args_text(token: Seq<char>) -> Seq<char> {
    "{\"actions\":[{\"amount\":\"0\",\"arguments\":\"\",\"function_name\":\"owner_accept\",\"gas\":\"20000000000000\"}],"@
        + json_field("receiver_id"@, quoted(token)) + "}"@
}

pub(crate) fn controller_args(signer: &str) -> (r: String)
    ensures
        r@ == controller_args_text(signer@),
{
    let mut r: String = "{".to_owned();
    push_field(&mut r, "dao", quote(signer).as_str());
    r.append("}");
    r
}

pub(crate) fn token_args(
    name: &str,
    symbol: &str,
    decimals: u8,
    owner: &str,
    supply: u128,
    price: u128,
) -> (r: String)
    ensures
        r@ == token_args_text(
            TokenTerms { name: name@, symbol: symbol@, decimals, owner: owner@, supply, price },
        ),
{
    let mut metadata: String = "{".to_owned();
    push_field(&mut metadata, "decimals", decimal(decimals as u128).as_str());
    metadata.append(",");
    push_field(&mut metadata, "name", json_string(name).as_str());
    metadata.append(",");
    push_field(&mut metadata, "spec", quote("ft-1.0.0").as_str());
    metadata.append(",");
    push_field(&mut metadata, "symbol", json_string(symbol).as_str());
    metadata.append("}");
    let mut r: String = "{".to_owned();
    push_field(&mut r, "latest_price", quote(decimal(price).as_str()).as_str());
    r.append(",");
    push_field(&mut r, "metadata", metadata.as_str());
    r.append(",");
    push_field(&mut r, "owner_id", quote(owner).as_str());
    r.append(",");
    push_field(&mut r, "total_supply", quote(decimal(supply).as_str()).as_str());
    r.append("}");
    r
}

pub(crate) fn propose_args(controller: &str) -> (r: String)
    ensures
        r@ == propose_args_text(controller@),
{
    let mut r: String = "{".to_owned();
    push_field(&mut r, "new_owner", quote(controller).as_str());
    r.append("}");
    r
}

pub(crate) fn accept_args(token: &str) -> (r: String)
    ensures
        r@ == accept_args_text(token@),
{
    let mut r: String =
        "{\"actions\":[{\"amount\":\"0\",\"arguments\":\"\",\"function_name\":\"owner_accept\",\"gas\":\"20000000000000\"}],".to_owned();
    push_field(&mut r, "receiver_id", quote(token).as_str());
    r.append("}");
    r
}

/// The token's initialization names each value by its field: the owner, the supply, the price, and in
/// the metadata the name, the symbol and the decimals.
pub proof fn law_the_token_is_initialized_by_name(t: TokenTerms)
    ensures
        contains_text(token_args_text(t), "\"owner_id\":\""@ + t.owner + "\""@),
        contains_text(
            token_args_text(t),
            "\"total_supply\":\""@ + decimal_text(t.supply as nat) + "\""@,
        ),
        contains_text(
            token_args_text(t),
            "\"latest_price\":\""@ + decimal_text(t.price as nat) + "\""@,
        ),
        contains_text(token_args_text(t), "\"name\":"@ + json_text(t.name)),
        contains_text(token_args_text(t), "\"symbol\":"@ + json_text(t.symbol)),
        contains_text(token_args_text(t), "\"decimals\":"@ + decimal_text(t.decimals as nat)),
        contains_text(token_args_text(t), "\"spec\":\"ft-1.0.0\""@),
{
    let price = json_field("latest_price"@, json_amount(t.price));
    let decimals = json_field("decimals"@, decimal_text(t.decimals as nat));
    let name = json_field("name"@, json_text(t.name));
    let version = json_field("spec"@, quoted("ft-1.0.0"@));
    let symbol = json_field("symbol"@, json_text(t.symbol));
    let owner = json_field("owner_id"@, quoted(t.owner));
    let supply = json_field("total_supply"@, json_amount(t.supply));
    assert(owner == "\"owner_id\":\""@ + t.owner + "\""@) by {
        reveal_strlit("\"");
        reveal_strlit(":");
        reveal_strlit("owner_id");
        reveal_strlit("\"owner_id\":\"");
        assert(owner =~= "\"owner_id\":\""@ + t.owner + "\""@);
    }
    assert(supply == "\"total_supply\":\""@ + decimal_text(t.supply as nat) + "\""@) by {
        reveal_strlit("\"");
        reveal_strlit(":");
        reveal_strlit("total_supply");
        reveal_strlit("\"total_supply\":\"");
        assert(supply =~= "\"total_supply\":\""@ + decimal_text(t.supply as nat) + "\""@);
    }
    assert(price == "\"latest_price\":\""@ + decimal_text(t.price as nat) + "\""@) by {
        reveal_strlit("\"");
        reveal_strlit(":");
        reveal_strlit("latest_price");
        reveal_strlit("\"latest_price\":\"");
        assert(price =~= "\"latest_price\":\""@ + decimal_text(t.price as nat) + "\""@);
    }
    assert(name == "\"name\":"@ + json_text(t.name)) by {
        reveal_strlit("\"");
        reveal_strlit(":");
        reveal_strlit("name");
        reveal_strlit("\"name\":");
        assert(name =~= "\"name\":"@ + json_text(t.name));
    }
    assert(symbol == "\"symbol\":"@ + json_text(t.symbol)) by {
        reveal_strlit("\"");
        reveal_strlit(":");
        reveal_strlit("symbol");
        reveal_strlit("\"symbol\":");
        assert(symbol =~= "\"symbol\":"@ + json_text(t.symbol));
    }
    assert(decimals == "\"decimals\":"@ + decimal_text(t.decimals as nat)) by {
        reveal_strlit("\"");
        reveal_strlit(":");
        reveal_strlit("decimals");
        reveal_strlit("\"decimals\":");
        assert(decimals =~= "\"decimals\":"@ + decimal_text(t.decimals as nat));
    }
    assert(version == "\"spec\":\"ft-1.0.0\""@) by {
        reveal_strlit("\"");
        reveal_strlit(":");
        reveal_strlit("spec");
        reveal_strlit("ft-1.0.0");
        reveal_strlit("\"spec\":\"ft-1.0.0\"");
        assert(version =~= "\"spec\":\"ft-1.0.0\""@);
    }
    // The metadata, from left to right.
    let m1 = "{"@ + decimals;
    let m2 = m1 + ","@ + name;
    let m3 = m2 + ","@ + version;
    let m4 = m3 + ","@ + symbol;
    let inner = m4 + "}"@;
    lemma_stands_in_itself(decimals);
    lemma_stands_after("{"@, decimals, decimals);
    lemma_grows(m1, name, decimals);
    lemma_grows(m2, version, decimals);
    lemma_grows(m3, symbol, decimals);
    lemma_ends(m1, name);
    lemma_grows(m2, version, name);
    lemma_grows(m3, symbol, name);
    lemma_ends(m2, version);
    lemma_grows(m3, symbol, version);
    lemma_ends(m3, symbol);
    // The whole, from left to right.
    let metadata = json_field("metadata"@, inner);
    let w1 = "{"@ + price;
    let w2 = w1 + ","@ + metadata;
    let w3 = w2 + ","@ + owner;
    let w4 = w3 + ","@ + supply;
    assert(token_args_text(t) == w4 + "}"@);
    lemma_in_metadata(w1, owner, supply, m4, decimals);
    lemma_in_metadata(w1, owner, supply, m4, name);
    lemma_in_metadata(w1, owner, supply, m4, version);
    lemma_in_metadata(w1, owner, supply, m4, symbol);
    lemma_stands_in_itself(price);
    lemma_stands_after("{"@, price, price);
    lemma_grows(w1, metadata, price);
    lemma_grows(w2, owner, price);
    lemma_grows(w3, supply, price);
    lemma_stands_before(w4, "}"@, price);
    lemma_ends(w2, owner);
    lemma_grows(w3, supply, owner);
    lemma_stands_before(w4, "}"@, owner);
    lemma_ends(w3, supply);
    lemma_stands_before(w4, "}"@, supply);
}

proof fn lemma_grows(x: Seq<char>, more: Seq<char>, part: Seq<char>)
    requires
        contains_text(x, part),
    ensures
        contains_text(x + ","@ + more, part),
{
    lemma_stands_before(x, ","@, part);
    lemma_stands_before(x + ","@, more, part);
}

proof fn lemma_ends(x: Seq<char>, part: Seq<char>)
    ensures
        contains_text(x + ","@ + part, part),
{
    lemma_stands_in_itself(part);
    lemma_stands_after(x + ","@, part, part);
}

proof fn lemma_in_metadata(
    before: Seq<char>,
    owner: Seq<char>,
    supply: Seq<char>,
    fields: Seq<char>,
    part: Seq<char>,
)
    requires
        contains_text(fields, part),
    ensures
        contains_text(
            before + ","@ + json_field("metadata"@, fields + "}"@) + ","@ + owner + ","@ + supply
                + "}"@,
            part,
        ),
{
    let metadata = json_field("metadata"@, fields + "}"@);
    lemma_stands_before(fields, "}"@, part);
    lemma_stands_after(quoted("metadata"@) + ":"@, fields + "}"@, part);
    let w = before + ","@ + metadata;
    lemma_stands_after(before + ","@, metadata, part);
    lemma_grows(w, owner, part);
    lemma_grows(w + ","@ + owner, supply, part);
    lemma_stands_before(w + ","@ + owner + ","@ + supply, "}"@, part);
}

/// The controller is initialized with the account that governs it, the token is offered to the
/// account that the offer names, and the acceptance calls `owner_accept` on the token that it names.
pub proof fn law_the_hand_over_names_its_accounts(account: Seq<char>)
    ensures
        controller_args_text(account) == "{\"dao\":\""@ + account + "\"}"@,
        propose_args_text(account) == "{\"new_owner\":\""@ + account + "\"}"@,
        contains_text(accept_args_text(account), "\"function_name\":\"owner_accept\""@),
        contains_text(accept_args_text(account), "\"receiver_id\":\""@ + account + "\""@),
{
    reveal_strlit("\"");
    reveal_strlit(":");
    reveal_strlit("{");
    reveal_strlit("}");
    reveal_strlit("\"}");
    reveal_strlit("dao");
    reveal_strlit("{\"dao\":\"");
    reveal_strlit("new_owner");
    reveal_strlit("{\"new_owner\":\"");
    assert(controller_args_text(account) =~= "{\"dao\":\""@ + account + "\"}"@);
    assert(propose_args_text(account) =~= "{\"new_owner\":\""@ + account + "\"}"@);
    reveal_strlit("receiver_id");
    reveal_strlit("\"receiver_id\":\"");
    let head = "{\"actions\":[{\"amount\":\"0\",\"arguments\":\"\",\"function_name\":\"owner_accept\",\"gas\":\"20000000000000\"}],"@;
    let field = json_field("receiver_id"@, quoted(account));
    assert(field =~= "\"receiver_id\":\""@ + account + "\""@);
    lemma_stands_in_itself(field);
    lemma_stands_after(head, field, field);
    lemma_stands_before(head + field, "}"@, field);
    reveal_strlit(
        "{\"actions\":[{\"amount\":\"0\",\"arguments\":\"\",\"function_name\":\"owner_accept\",\"gas\":\"20000000000000\"}],",
    );
    reveal_strlit("\"function_name\":\"owner_accept\"");
    let call = "\"function_name\":\"owner_accept\""@;
    assert(head.subrange(41, 41 + call.len() as int) =~= call);
    assert(accept_args_text(account).subrange(41, 41 + call.len() as int) =~= call);
    assert(occurs_at(accept_args_text(account), call, 41));
}

/// Offers to different accounts are different.
pub proof fn law_an_offer_names_one_account(a: Seq<char>, b: Seq<char>)
    requires
        propose_args_text(a) == propose_args_text(b),
    ensures
        a == b,
{
    law_the_hand_over_names_its_accounts(a);
    law_the_hand_over_names_its_accounts(b);
    let head = "{\"new_owner\":\""@;
    let s = propose_args_text(a);
    reveal_strlit("\"}");
    assert(s.len() == head.len() + a.len() + 2);
    assert(s.len() == head.len() + b.len() + 2);
    assert(a =~= s.subrange(head.len() as int, (head.len() + a.len()) as int));
    assert(b =~= s.subrange(head.len() as int, (head.len() + b.len()) as int));
}

} // verus!
