//! One handled action from end to end: the handler of its dialect, then
//! exactly one trace of its outcome.
use crate::auction::{
    buy_now_handled, cancel_handled, create_auction_handled, handle_buy_now, handle_cancel_auction,
    handle_create_auction,
};
use crate::classify::{auction_selection, token_label, token_selection, AuctionAction, TokenAction};
use crate::handlers::{auction_missing, handle_token_action, nft_number, token_handled, token_missing, value_of, HandlerError};
use crate::lookup::Lookups;
use crate::message::{same_attributes, Event, Transaction};
use crate::message::find_attribute;
use crate::store::{collection_exists, listing_exists, nft_exists, Store, StreamContext, TraceRow};
use vstd::prelude::*;

verus! {

/// `t` is the trace of the action `action` of transaction `tx_hash`, failed
/// or not, with the raw event.
pub open spec fn trace_matches(
    t: TraceRow,
    tx_hash: Seq<char>,
    action: Seq<char>,
    context: StreamContext,
    now: i64,
    failed: bool,
    event: Event,
) -> bool {
    &&& t.tx_hash@ == tx_hash
    &&& t.action@ == action
    &&& t.context == context
    &&& t.date == now
    &&& t.is_failure == failed
    &&& (t.message is Some <==> failed)
    &&& t.event.kind@ == event.kind@
    &&& same_attributes(t.event.attributes@, event.attributes@)
}

/// `after` is `before` with one trace appended: the outcome of the action
/// `action` of transaction `tx_hash`, failed or not, with the raw event.
pub open spec fn traced(
    before: Seq<TraceRow>,
    after: Seq<TraceRow>,
    tx_hash: Seq<char>,
    action: Seq<char>,
    context: StreamContext,
    now: i64,
    failed: bool,
    event: Event,
) -> bool {
    &&& after.len() == before.len() + 1
    &&& after.drop_last() == before
    &&& trace_matches(after.last(), tx_hash, action, context, now, failed, event)
}

/// The trace of an outcome.
fn trace_of(tx_hash: &String, action: String, context: StreamContext, now: i64, outcome: &Result<(), HandlerError>, event: &Event) -> (t: TraceRow)
    ensures
        t.tx_hash@ == tx_hash@,
        t.action@ == action@,
        t.context == context,
        t.date == now,
        t.is_failure == outcome is Err,
        t.message is Some <==> outcome is Err,
        t.event.kind@ == event.kind@,
        same_attributes(t.event.attributes@, event.attributes@),
{
    let message = match outcome {
        Ok(()) => None,
        Err(e) => Some(e.describe()),
    };
    TraceRow {
        tx_hash: tx_hash.clone(),
        action,
        context,
        date: now,
        is_failure: outcome.is_err(),
        message,
        event: event.duplicate(),
    }
}

/// Handles one action of the token-transfer dialect and records its trace.
pub fn process_token_event(
    store: &mut Store,
    tx_hash: &String,
    event: &Event,
    action: TokenAction,
    lookups: &Lookups,
    now: i64,
) -> (r: Result<(), HandlerError>)
    requires
        old(store).wf(),
    ensures
        final(store).wf(),
        token_handled(*old(store), *final(store), *event, action, *lookups, r),
        traced(old(store).traces@, final(store).traces@, tx_hash@, token_label(action), StreamContext::Cw721, now, r is Err, *event),
{
    let r = handle_token_action(store, event, action, lookups);
    let label = action.label();
    let ghost mid = *store;
    store.record_trace(trace_of(tx_hash, label, StreamContext::Cw721, now, &r, event));
    proof {
        assert(token_handled(*old(store), mid, *event, action, *lookups, r));
        assert(final(store).traces@.drop_last() =~= old(store).traces@);
    }
    r
}

/// The effect and result of handling an action of the auction dialect.
pub open spec fn auction_handled(
    before: Store,
    after: Store,
    event: Event,
    action: AuctionAction,
    tx_hash: Seq<char>,
    lookups: Lookups,
    now: i64,
    r: Result<(), HandlerError>,
) -> bool {
    match action {
        AuctionAction::CreateAuction => create_auction_handled(before, after, event, tx_hash, lookups, r),
        AuctionAction::BuyNow => buy_now_handled(before, after, event, tx_hash, lookups, now, r),
        AuctionAction::CancelAuction => cancel_handled(before, after, event, tx_hash, lookups, now, r),
    }
}

/// The event kind that carries an auction action.
pub open spec fn auction_label(action: AuctionAction) -> Seq<char> {
    match action {
        AuctionAction::CreateAuction => "wasm-create_auction"@,
        AuctionAction::BuyNow => "wasm-buy_now"@,
        AuctionAction::CancelAuction => "wasm-cancel_auction"@,
    }
}

/// Handles one action of the auction dialect and records its trace.
pub fn process_auction_event(
    store: &mut Store,
    tx_hash: &String,
    event: &Event,
    action: AuctionAction,
    lookups: &Lookups,
    now: i64,
) -> (r: Result<(), HandlerError>)
    requires
        old(store).wf(),
    ensures
        final(store).wf(),
        auction_handled(*old(store), *final(store), *event, action, tx_hash@, *lookups, now, r),
        traced(old(store).traces@, final(store).traces@, tx_hash@, auction_label(action), StreamContext::Pallet, now, r is Err, *event),
{
    let r = match action {
        AuctionAction::CreateAuction => handle_create_auction(store, event, tx_hash, lookups),
        AuctionAction::BuyNow => handle_buy_now(store, event, tx_hash, lookups, now),
        AuctionAction::CancelAuction => handle_cancel_auction(store, event, tx_hash, lookups, now),
    };
    let ghost mid = *store;
    store.record_trace(trace_of(tx_hash, action.label(), StreamContext::Pallet, now, &r, event));
    proof {
        assert(auction_handled(*old(store), mid, *event, action, tx_hash@, *lookups, now, r));
        assert(final(store).traces@.drop_last() =~= old(store).traces@);
    }
    r
}

/// Which outside lookups handling an action will consult.
#[derive(Debug)]
pub struct Needs {
    /// The chain's token record and the NFT's metadata document.
    pub nft: bool,
    /// The collection's metadata document, supply and contract info.
    pub collection: bool,
    /// The auction contract's record of the NFT.
    pub listing: bool,
    /// The events of the action's own transaction.
    pub tx_events: bool,
}

/// The lookups an upsert of `(address, token_id)` consults: none for a stored
/// NFT, and the collection's only where it is new too.
pub open spec fn upsert_needs(store: Store, address: Seq<char>, token_id: Seq<char>, needs: Needs) -> bool {
    &&& needs.nft == !nft_exists(store.nfts@, address, token_id)
    &&& needs.collection == (needs.nft && !collection_exists(store.collections@, address))
}

fn needs_for(store: &Store, address: &String, token_id: &String) -> (r: Needs)
    requires
        store.wf(),
    ensures
        upsert_needs(*store, address@, token_id@, r),
        !r.listing && !r.tx_events,
{
    let nft = store.find_nft(address.as_str(), token_id.as_str()).is_none();
    let collection = nft && !store.has_collection(address.as_str());
    Needs { nft, collection, listing: false, tx_events: false }
}

/// The lookups that handling a token action on the store as it stands will
/// consult; none where a required attribute is missing.
pub fn token_needs(store: &Store, event: &Event, action: TokenAction) -> (r: Needs)
    requires
        store.wf(),
    ensures
        token_missing(*event, action) is Some ==> !r.nft && !r.collection,
        token_missing(*event, action) is None ==> upsert_needs(
            *store,
            value_of(*event, "_contract_address"@),
            value_of(*event, "token_id"@),
            r,
        ),
        !r.listing && !r.tx_events,
{
    let none = Needs { nft: false, collection: false, listing: false, tx_events: false };
    let address = match find_attribute(event, "_contract_address") {
        Some(v) => v,
        None => return none,
    };
    let token_id = match find_attribute(event, "token_id") {
        Some(v) => v,
        None => return none,
    };
    let owner_key: &str = match action {
        TokenAction::Mint => "owner",
        _ => "recipient",
    };
    if find_attribute(event, owner_key).is_none() {
        return none;
    }
    needs_for(store, &address, &token_id)
}

/// The lookups that handling an auction action on the store as it stands
/// will consult, as far as the store decides them; none where a required
/// attribute is missing. The auction contract is consulted on an auction
/// creation, and the sale's transaction on a buy-now of a listed NFT.
pub fn auction_needs(store: &Store, event: &Event, action: AuctionAction) -> (r: Needs)
    requires
        store.wf(),
    ensures
        auction_missing(*event) is Some ==> !r.nft && !r.collection && !r.listing && !r.tx_events,
        auction_missing(*event) is None ==> {
            let address = value_of(*event, "collection_address"@);
            let token_id = value_of(*event, "token_id"@);
            &&& upsert_needs(*store, address, token_id, r)
            &&& r.listing == (action == AuctionAction::CreateAuction)
            &&& r.tx_events == (action == AuctionAction::BuyNow
                && nft_exists(store.nfts@, address, token_id)
                && listing_exists(store.listings@, nft_number(store.nfts@, address, token_id) as u64))
        },
{
    let none = Needs { nft: false, collection: false, listing: false, tx_events: false };
    let address = match find_attribute(event, "collection_address") {
        Some(v) => v,
        None => return none,
    };
    let token_id = match find_attribute(event, "token_id") {
        Some(v) => v,
        None => return none,
    };
    let base = needs_for(store, &address, &token_id);
    let tx_events = match action {
        AuctionAction::BuyNow => match store.find_nft(address.as_str(), token_id.as_str()) {
            Some(i) => {
                proof {
                    let j = choose|j: int| 0 <= j < store.nfts@.len() && #[trigger] crate::store::has_key(store.nfts@[j], address@, token_id@);
                    if j != i as int {
                        assert(!crate::store::has_key(store.nfts@[j], store.nfts@[i as int].token_address@, store.nfts@[i as int].token_id@));
                    }
                }
                store.find_listing(store.nfts[i].id).is_some()
            },
            None => false,
        },
        _ => false,
    };
    Needs {
        nft: base.nft,
        collection: base.collection,
        listing: action == AuctionAction::CreateAuction,
        tx_events,
    }
}

/// A run of handled actions of one transaction, each appending its one
/// trace, appends exactly one trace per action, in the order of the run.
pub proof fn lemma_traces_of_run(
    stores: Seq<Store>,
    tx_hash: Seq<char>,
    context: StreamContext,
    labels: Seq<Seq<char>>,
    dates: Seq<i64>,
    failed: Seq<bool>,
    events: Seq<Event>,
)
    requires
        stores.len() == events.len() + 1,
        labels.len() == events.len(),
        dates.len() == events.len(),
        failed.len() == events.len(),
        forall|k: int| 0 <= k < events.len() ==> #[trigger] traced(
            stores[k].traces@,
            stores[k + 1].traces@,
            tx_hash,
            labels[k],
            context,
            dates[k],
            failed[k],
            events[k],
        ),
    ensures
        stores.last().traces@.len() == stores[0].traces@.len() + events.len(),
        stores.last().traces@.subrange(0, stores[0].traces@.len() as int) == stores[0].traces@,
        forall|k: int| 0 <= k < events.len() ==> #[trigger] trace_matches(
            stores.last().traces@[stores[0].traces@.len() + k],
            tx_hash,
            labels[k],
            context,
            dates[k],
            failed[k],
            events[k],
        ),
    decreases events.len(),
{
    let n = events.len() as int;
    if n == 0 {
        assert(stores.last().traces@.subrange(0, stores[0].traces@.len() as int) =~= stores[0].traces@);
    } else {
        let shorter = stores.drop_last();
        assert forall|k: int| 0 <= k < n - 1 implies #[trigger] traced(
            shorter[k].traces@,
            shorter[k + 1].traces@,
            tx_hash,
            labels.drop_last()[k],
            context,
            dates.drop_last()[k],
            failed.drop_last()[k],
            events.drop_last()[k],
        ) by {
            assert(traced(stores[k].traces@, stores[k + 1].traces@, tx_hash, labels[k], context, dates[k], failed[k], events[k]));
        }
        lemma_traces_of_run(shorter, tx_hash, context, labels.drop_last(), dates.drop_last(), failed.drop_last(), events.drop_last());
        let base = stores[0].traces@.len() as int;
        let mid = stores[n - 1].traces@;
        let last = stores[n].traces@;
        assert(shorter.last() == stores[n - 1]);
        assert(traced(mid, last, tx_hash, labels[n - 1], context, dates[n - 1], failed[n - 1], events[n - 1]));
        assert(last.drop_last() == mid);
        assert forall|k: int| 0 <= k < n implies #[trigger] trace_matches(
            last[base + k],
            tx_hash,
            labels[k],
            context,
            dates[k],
            failed[k],
            events[k],
        ) by {
            if k < n - 1 {
                assert(last[base + k] == mid[base + k]);
                assert(trace_matches(mid[base + k], tx_hash, labels.drop_last()[k], context, dates.drop_last()[k], failed.drop_last()[k], events.drop_last()[k]));
            } else {
                assert(last[base + k] == last.last());
            }
        }
        assert(last.subrange(0, base) =~= mid.subrange(0, base));
    }
}

/// The token-transfer actions of a transaction.
pub open spec fn token_run(tx: Transaction) -> Seq<(usize, TokenAction)> {
    token_selection(tx.events@, tx.events@.len() as int)
}

/// The auction actions of a transaction.
pub open spec fn auction_run(tx: Transaction) -> Seq<(usize, AuctionAction)> {
    auction_selection(tx.events@, tx.events@.len() as int)
}

/// Trace completeness for a transaction of the token-transfer dialect: where
/// each of its recognised actions, in order, is handled by
/// `process_token_event`, exactly one trace per action is appended, in that
/// order, naming the transaction, the action and its event, and failed
/// exactly when the action failed.
pub proof fn lemma_token_transaction_traces(
    stores: Seq<Store>,
    tx: Transaction,
    dates: Seq<i64>,
    outcomes: Seq<Result<(), HandlerError>>,
)
    requires
        stores.len() == token_run(tx).len() + 1,
        dates.len() == token_run(tx).len(),
        outcomes.len() == token_run(tx).len(),
        forall|k: int| 0 <= k < token_run(tx).len() ==> #[trigger] traced(
            stores[k].traces@,
            stores[k + 1].traces@,
            tx.tx_hash@,
            token_label(token_run(tx)[k].1),
            StreamContext::Cw721,
            dates[k],
            outcomes[k] is Err,
            tx.events@[token_run(tx)[k].0 as int],
        ),
    ensures
        stores.last().traces@.len() == stores[0].traces@.len() + token_run(tx).len(),
        stores.last().traces@.subrange(0, stores[0].traces@.len() as int) == stores[0].traces@,
        forall|k: int| 0 <= k < token_run(tx).len() ==> #[trigger] trace_matches(
            stores.last().traces@[stores[0].traces@.len() + k],
            tx.tx_hash@,
            token_label(token_run(tx)[k].1),
            StreamContext::Cw721,
            dates[k],
            outcomes[k] is Err,
            tx.events@[token_run(tx)[k].0 as int],
        ),
{
    let run = token_run(tx);
    let labels = Seq::new(run.len(), |k: int| token_label(run[k].1));
    let failed = Seq::new(run.len(), |k: int| outcomes[k] is Err);
    let events = Seq::new(run.len(), |k: int| tx.events@[run[k].0 as int]);
    assert forall|k: int| 0 <= k < events.len() implies #[trigger] traced(
        stores[k].traces@,
        stores[k + 1].traces@,
        tx.tx_hash@,
        labels[k],
        StreamContext::Cw721,
        dates[k],
        failed[k],
        events[k],
    ) by {
        assert(traced(stores[k].traces@, stores[k + 1].traces@, tx.tx_hash@, token_label(run[k].1), StreamContext::Cw721, dates[k], outcomes[k] is Err, tx.events@[run[k].0 as int]));
    }
    lemma_traces_of_run(stores, tx.tx_hash@, StreamContext::Cw721, labels, dates, failed, events);
    assert forall|k: int| 0 <= k < run.len() implies #[trigger] trace_matches(
        stores.last().traces@[stores[0].traces@.len() + k],
        tx.tx_hash@,
        token_label(run[k].1),
        StreamContext::Cw721,
        dates[k],
        outcomes[k] is Err,
        tx.events@[run[k].0 as int],
    ) by {
        assert(trace_matches(stores.last().traces@[stores[0].traces@.len() + k], tx.tx_hash@, labels[k], StreamContext::Cw721, dates[k], failed[k], events[k]));
    }
}

/// Trace completeness for a transaction of the auction dialect: where each
/// of its recognised actions, in order, is handled by `process_auction_event`,
/// exactly one trace per action is appended, in that order, naming the
/// transaction, the event kind and the event, and failed exactly when the
/// action failed.
pub proof fn lemma_auction_transaction_traces(
    stores: Seq<Store>,
    tx: Transaction,
    dates: Seq<i64>,
    outcomes: Seq<Result<(), HandlerError>>,
)
    requires
        stores.len() == auction_run(tx).len() + 1,
        dates.len() == auction_run(tx).len(),
        outcomes.len() == auction_run(tx).len(),
        forall|k: int| 0 <= k < auction_run(tx).len() ==> #[trigger] traced(
            stores[k].traces@,
            stores[k + 1].traces@,
            tx.tx_hash@,
            auction_label(auction_run(tx)[k].1),
            StreamContext::Pallet,
            dates[k],
            outcomes[k] is Err,
            tx.events@[auction_run(tx)[k].0 as int],
        ),
    ensures
        stores.last().traces@.len() == stores[0].traces@.len() + auction_run(tx).len(),
        stores.last().traces@.subrange(0, stores[0].traces@.len() as int) == stores[0].traces@,
        forall|k: int| 0 <= k < auction_run(tx).len() ==> #[trigger] trace_matches(
            stores.last().traces@[stores[0].traces@.len() + k],
            tx.tx_hash@,
            auction_label(auction_run(tx)[k].1),
            StreamContext::Pallet,
            dates[k],
            outcomes[k] is Err,
            tx.events@[auction_run(tx)[k].0 as int],
        ),
{
    let run = auction_run(tx);
    let labels = Seq::new(run.len(), |k: int| auction_label(run[k].1));
    let failed = Seq::new(run.len(), |k: int| outcomes[k] is Err);
    let events = Seq::new(run.len(), |k: int| tx.events@[run[k].0 as int]);
    assert forall|k: int| 0 <= k < events.len() implies #[trigger] traced(
        stores[k].traces@,
        stores[k + 1].traces@,
        tx.tx_hash@,
        labels[k],
        StreamContext::Pallet,
        dates[k],
        failed[k],
        events[k],
    ) by {
        assert(traced(stores[k].traces@, stores[k + 1].traces@, tx.tx_hash@, auction_label(run[k].1), StreamContext::Pallet, dates[k], outcomes[k] is Err, tx.events@[run[k].0 as int]));
    }
    lemma_traces_of_run(stores, tx.tx_hash@, StreamContext::Pallet, labels, dates, failed, events);
    assert forall|k: int| 0 <= k < run.len() implies #[trigger] trace_matches(
        stores.last().traces@[stores[0].traces@.len() + k],
        tx.tx_hash@,
        auction_label(run[k].1),
        StreamContext::Pallet,
        dates[k],
        outcomes[k] is Err,
        tx.events@[run[k].0 as int],
    ) by {
        assert(trace_matches(stores.last().traces@[stores[0].traces@.len() + k], tx.tx_hash@, labels[k], StreamContext::Pallet, dates[k], failed[k], events[k]));
    }
}

} // verus!
