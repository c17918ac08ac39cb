//! Recognition of the actions of the two contract dialects among the events
//! of a transaction.
use crate::json::same_text;
use crate::message::{Attribute, Event, Transaction};
use vstd::prelude::*;

verus! {

/// The event kind that marks a contract-level event.
pub const CONTRACT_EVENT: &'static str = "wasm";

/// An action of the token-transfer dialect.
#[derive(PartialEq, Eq, Structural, Clone, Copy, Debug)]
pub enum TokenAction {
    Mint,
    TransferNft,
    SendNft,
}

/// An action of the auction dialect.
#[derive(PartialEq, Eq, Structural, Clone, Copy, Debug)]
pub enum AuctionAction {
    CreateAuction,
    BuyNow,
    CancelAuction,
}

/// The token action that an `action` attribute value names.
pub open spec fn token_action_named(value: Seq<char>) -> Option<TokenAction> {
    if value == "mint"@ {
        Some(TokenAction::Mint)
    } else if value == "transfer_nft"@ {
        Some(TokenAction::TransferNft)
    } else if value == "send_nft"@ {
        Some(TokenAction::SendNft)
    } else {
        None
    }
}

/// The token action that an attribute announces: an `action` key with one of
/// the dialect's values.
pub open spec fn announced(a: Attribute) -> Option<TokenAction> {
    if a.key@ == "action"@ {
        token_action_named(a.value@)
    } else {
        None
    }
}

/// The action announced by the first attribute that announces one.
pub open spec fn first_announced(attributes: Seq<Attribute>) -> Option<TokenAction>
    decreases attributes.len(),
{
    if attributes.len() == 0 {
        None
    } else if announced(attributes[0]) is Some {
        announced(attributes[0])
    } else {
        first_announced(attributes.drop_first())
    }
}

/// The token action of an event: a contract-level event that carries an
/// announcing attribute.
pub open spec fn token_action_of(e: Event) -> Option<TokenAction> {
    if e.kind@ == CONTRACT_EVENT@ {
        first_announced(e.attributes@)
    } else {
        None
    }
}

/// The auction action of an event, read from its kind.
pub open spec fn auction_action_of(e: Event) -> Option<AuctionAction> {
    if e.kind@ == "wasm-create_auction"@ {
        Some(AuctionAction::CreateAuction)
    } else if e.kind@ == "wasm-buy_now"@ {
        Some(AuctionAction::BuyNow)
    } else if e.kind@ == "wasm-cancel_auction"@ {
        Some(AuctionAction::CancelAuction)
    } else {
        None
    }
}

/// An attribute announces an action exactly when some attribute does.
pub proof fn lemma_first_announced(attributes: Seq<Attribute>)
    ensures
        first_announced(attributes) is Some <==> exists|i: int|
            0 <= i < attributes.len() && (#[trigger] announced(attributes[i])) is Some,
        first_announced(attributes) matches Some(k) ==> exists|i: int|
            0 <= i < attributes.len() && #[trigger] announced(attributes[i]) == Some(k),
    decreases attributes.len(),
{
    if attributes.len() > 0 {
        let rest = attributes.drop_first();
        lemma_first_announced(rest);
        if announced(attributes[0]) is None {
            assert forall|i: int| 0 <= i < rest.len() implies rest[i] == attributes[i + 1] by {}
            if exists|i: int| 0 <= i < attributes.len() && (#[trigger] announced(attributes[i])) is Some {
                let i = choose|i: int| 0 <= i < attributes.len() && (#[trigger] announced(attributes[i])) is Some;
                assert(announced(rest[i - 1]) is Some);
            }
            if first_announced(rest) is Some {
                let i = choose|i: int| 0 <= i < rest.len() && #[trigger] announced(rest[i]) == first_announced(rest);
                assert(announced(attributes[i + 1]) == first_announced(rest));
            }
        } else {
            assert(announced(attributes[0]) is Some);
        }
    }
}

/// The attribute value that names a token action.
pub open spec fn token_label(a: TokenAction) -> Seq<char> {
    match a {
        TokenAction::Mint => "mint"@,
        TokenAction::TransferNft => "transfer_nft"@,
        TokenAction::SendNft => "send_nft"@,
    }
}

impl TokenAction {
    /// The attribute value that names the action.
    pub fn label(&self) -> (r: String)
        ensures
            r@ == token_label(*self),
            token_action_named(r@) == Some(*self),
    {
        proof {
            reveal_strlit("mint");
            reveal_strlit("transfer_nft");
            reveal_strlit("send_nft");
            assert("mint"@.len() != "transfer_nft"@.len());
            assert("mint"@.len() != "send_nft"@.len());
            assert("transfer_nft"@.len() != "send_nft"@.len());
        }
        match self {
            TokenAction::Mint => "mint".to_owned(),
            TokenAction::TransferNft => "transfer_nft".to_owned(),
            TokenAction::SendNft => "send_nft".to_owned(),
        }
    }
}

impl AuctionAction {
    /// The event kind that carries the action.
    pub fn label(&self) -> (r: String)
        ensures
            r@ == match *self {
                AuctionAction::CreateAuction => "wasm-create_auction"@,
                AuctionAction::BuyNow => "wasm-buy_now"@,
                AuctionAction::CancelAuction => "wasm-cancel_auction"@,
            },
    {
        match self {
            AuctionAction::CreateAuction => "wasm-create_auction".to_owned(),
            AuctionAction::BuyNow => "wasm-buy_now".to_owned(),
            AuctionAction::CancelAuction => "wasm-cancel_auction".to_owned(),
        }
    }
}

/// Whether an attribute is an `action` attribute naming a token action.
pub fn is_cw721_action_attribute(attribute: &Attribute) -> (r: Option<TokenAction>)
    ensures
        r == announced(*attribute),
{
    if !same_text(&attribute.key, "action") {
        None
    } else if same_text(&attribute.value, "mint") {
        Some(TokenAction::Mint)
    } else if same_text(&attribute.value, "transfer_nft") {
        Some(TokenAction::TransferNft)
    } else if same_text(&attribute.value, "send_nft") {
        Some(TokenAction::SendNft)
    } else {
        None
    }
}

/// The token action of an event, if the event belongs to the dialect.
pub fn is_cw721_event(event: &Event) -> (r: Option<TokenAction>)
    ensures
        r == token_action_of(*event),
{
    if !same_text(&event.kind, CONTRACT_EVENT) {
        return None;
    }
    let mut i: usize = 0;
    assert(event.attributes@.subrange(0, event.attributes@.len() as int) =~= event.attributes@);
    while i < event.attributes.len()
        invariant
            0 <= i <= event.attributes@.len(),
            event.kind@ == CONTRACT_EVENT@,
            first_announced(event.attributes@) == first_announced(
                event.attributes@.subrange(i as int, event.attributes@.len() as int),
            ),
        decreases event.attributes@.len() - i,
    {
        assert(event.attributes@.subrange(i as int, event.attributes@.len() as int).drop_first()
            =~= event.attributes@.subrange(i as int + 1, event.attributes@.len() as int));
        assert(event.attributes@.subrange(i as int, event.attributes@.len() as int)[0]
            == event.attributes@[i as int]);
        let found = is_cw721_action_attribute(&event.attributes[i]);
        if found.is_some() {
            return found;
        }
        i = i + 1;
    }
    None
}

/// The auction action of an event, if the event belongs to the dialect.
pub fn auction_action(event: &Event) -> (r: Option<AuctionAction>)
    ensures
        r == auction_action_of(*event),
{
    if same_text(&event.kind, "wasm-create_auction") {
        Some(AuctionAction::CreateAuction)
    } else if same_text(&event.kind, "wasm-buy_now") {
        Some(AuctionAction::BuyNow)
    } else if same_text(&event.kind, "wasm-cancel_auction") {
        Some(AuctionAction::CancelAuction)
    } else {
        None
    }
}

/// The token actions among the first `n` events, in order, with the index of
/// the event that carries each.
pub open spec fn token_selection(events: Seq<Event>, n: int) -> Seq<(usize, TokenAction)>
    decreases n,
{
    if n <= 0 {
        Seq::empty()
    } else {
        match token_action_of(events[n - 1]) {
            Some(k) => token_selection(events, n - 1).push(((n - 1) as usize, k)),
            None => token_selection(events, n - 1),
        }
    }
}

/// The auction actions among the first `n` events, in order, with the index
/// of the event that carries each.
pub open spec fn auction_selection(events: Seq<Event>, n: int) -> Seq<(usize, AuctionAction)>
    decreases n,
{
    if n <= 0 {
        Seq::empty()
    } else {
        match auction_action_of(events[n - 1]) {
            Some(k) => auction_selection(events, n - 1).push(((n - 1) as usize, k)),
            None => auction_selection(events, n - 1),
        }
    }
}

/// The events of a transaction that the token-transfer dialect handles, each
/// with its action; all others are dropped.
pub fn token_actions(tx: &Transaction) -> (r: Vec<(usize, TokenAction)>)
    ensures
        r@ == token_selection(tx.events@, tx.events@.len() as int),
{
    let mut r: Vec<(usize, TokenAction)> = Vec::new();
    let mut i: usize = 0;
    while i < tx.events.len()
        invariant
            0 <= i <= tx.events@.len(),
            r@ == token_selection(tx.events@, i as int),
        decreases tx.events@.len() - i,
    {
        match is_cw721_event(&tx.events[i]) {
            Some(k) => r.push((i, k)),
            None => {},
        }
        i = i + 1;
    }
    r
}

/// The events of a transaction that the auction dialect handles, each with
/// its action; all others are dropped.
pub fn retrieve_pallet_events(tx: &Transaction) -> (r: Vec<(usize, AuctionAction)>)
    ensures
        r@ == auction_selection(tx.events@, tx.events@.len() as int),
{
    let mut r: Vec<(usize, AuctionAction)> = Vec::new();
    let mut i: usize = 0;
    while i < tx.events.len()
        invariant
            0 <= i <= tx.events@.len(),
            r@ == auction_selection(tx.events@, i as int),
        decreases tx.events@.len() - i,
    {
        match auction_action(&tx.events[i]) {
            Some(k) => r.push((i, k)),
            None => {},
        }
        i = i + 1;
    }
    r
}

/// The selection lists, in order of position, exactly the events of the
/// first `n` that the token-transfer dialect recognises, each with its action.
pub proof fn lemma_token_selection(events: Seq<Event>, n: int)
    requires
        0 <= n <= events.len(),
        events.len() <= usize::MAX,
    ensures
        forall|k: int| 0 <= k < token_selection(events, n).len() ==> {
            let (i, a) = #[trigger] token_selection(events, n)[k];
            &&& i < n
            &&& token_action_of(events[i as int]) == Some(a)
        },
        forall|k: int, l: int| 0 <= k < l < token_selection(events, n).len()
            ==> #[trigger] token_selection(events, n)[k].0 < #[trigger] token_selection(events, n)[l].0,
        forall|i: int| 0 <= i < n && (#[trigger] token_action_of(events[i])) is Some
            ==> exists|k: int| 0 <= k < token_selection(events, n).len() && #[trigger] token_selection(events, n)[k].0 == i,
    decreases n,
{
    if n > 0 {
        lemma_token_selection(events, n - 1);
        let prev = token_selection(events, n - 1);
        let cur = token_selection(events, n);
        assert forall|i: int| 0 <= i < n && (#[trigger] token_action_of(events[i])) is Some
            implies exists|k: int| 0 <= k < cur.len() && #[trigger] cur[k].0 == i by {
            if i < n - 1 {
                let k = choose|k: int| 0 <= k < prev.len() && #[trigger] prev[k].0 == i;
                assert(cur[k] == prev[k]);
            } else {
                assert(cur[prev.len() as int].0 == i);
            }
        }
    }
}

/// For the token-transfer dialect an event of a transaction is handled
/// exactly when it is a contract-level event that carries an `action`
/// attribute whose decoded value is `mint`, `transfer_nft` or `send_nft`.
pub proof fn lemma_token_classification(tx: Transaction, i: int)
    requires
        0 <= i < tx.events@.len(),
        tx.events@.len() <= usize::MAX,
    ensures
        (exists|k: int|
            0 <= k < token_selection(tx.events@, tx.events@.len() as int).len()
                && #[trigger] token_selection(tx.events@, tx.events@.len() as int)[k].0 == i) <==> {
            &&& tx.events@[i].kind@ == CONTRACT_EVENT@
            &&& exists|j: int|
                0 <= j < tx.events@[i].attributes@.len() && (#[trigger] tx.events@[i].attributes@[j]).key@ == "action"@ && {
                    let v = tx.events@[i].attributes@[j].value@;
                    v == "mint"@ || v == "transfer_nft"@ || v == "send_nft"@
                }
        },
{
    let events = tx.events@;
    let n = events.len() as int;
    lemma_token_selection(events, n);
    let attributes = events[i].attributes@;
    lemma_first_announced(attributes);
    if exists|k: int| 0 <= k < token_selection(events, n).len() && #[trigger] token_selection(events, n)[k].0 == i {
        let k = choose|k: int| 0 <= k < token_selection(events, n).len() && #[trigger] token_selection(events, n)[k].0 == i;
        assert(token_action_of(events[i]) is Some);
        let j = choose|j: int| 0 <= j < attributes.len() && (#[trigger] announced(attributes[j])) is Some;
        assert(attributes[j].key@ == "action"@);
    }
    if events[i].kind@ == CONTRACT_EVENT@ && exists|j: int|
        0 <= j < attributes.len() && (#[trigger] attributes[j]).key@ == "action"@ && {
            let v = attributes[j].value@;
            v == "mint"@ || v == "transfer_nft"@ || v == "send_nft"@
        } {
        let j = choose|j: int|
            0 <= j < attributes.len() && (#[trigger] attributes[j]).key@ == "action"@ && {
                let v = attributes[j].value@;
                v == "mint"@ || v == "transfer_nft"@ || v == "send_nft"@
            };
        assert(announced(attributes[j]) is Some);
        assert(token_action_of(events[i]) is Some);
    }
}

} // verus!
