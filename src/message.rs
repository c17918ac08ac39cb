//! Transactions, events and attributes, and the decoding of the raw envelope
//! that the subscription delivers.
use crate::codec::{attribute_text, to_utf8};
use crate::json::{element, field, then_field, Json};
use vstd::prelude::*;

verus! {

/// The text that the node sends once, right after a subscription is accepted.
pub const ACKNOWLEDGMENT: &'static str = "{\"jsonrpc\":\"2.0\",\"id\":\"0\",\"result\":{}}";

/// One decoded key/value pair of an event.
#[derive(Debug)]
pub struct Attribute {
    pub key: String,
    pub value: String,
}

/// One event emitted by a transaction: its kind and its attributes, in order.
#[derive(Debug)]
pub struct Event {
    pub kind: String,
    pub attributes: Vec<Attribute>,
}

/// A transaction: its hash and the events it emitted, in order.
#[derive(Debug)]
pub struct Transaction {
    pub tx_hash: String,
    pub events: Vec<Event>,
}

/// Why an inbound message could not be read as a transaction.
#[derive(PartialEq, Eq, Structural, Clone, Copy, Debug)]
pub enum MessageError {
    /// The text is not JSON.
    NotJson,
    /// `result.events["tx.hash"][0]` is absent.
    MissingHash,
    /// `result.events["tx.hash"][0]` is not a string.
    HashNotText,
    /// `result.data.value.TxResult.result.events` is absent.
    MissingEvents,
    /// The events are not a list of `{type, attributes: [{key, value}]}`.
    MalformedEvents,
}

impl MessageError {
    /// A human-readable account of the error, naming the path concerned.
    pub fn describe(&self) -> (r: String)
        ensures
            r@ == match *self {
                MessageError::NotJson => "the message is not JSON"@,
                MessageError::MissingHash => "missing result.events[tx.hash]"@,
                MessageError::HashNotText => "result.events[tx.hash] is not a string"@,
                MessageError::MissingEvents => "missing result.data.value.TxResult.result.events"@,
                MessageError::MalformedEvents => "result.data.value.TxResult.result.events is malformed"@,
            },
            r@.len() > 0,
    {
        let text: &str = match self {
            MessageError::NotJson => "the message is not JSON",
            MessageError::MissingHash => "missing result.events[tx.hash]",
            MessageError::HashNotText => "result.events[tx.hash] is not a string",
            MessageError::MissingEvents => "missing result.data.value.TxResult.result.events",
            MessageError::MalformedEvents => "result.data.value.TxResult.result.events is malformed",
        };
        proof {
            reveal_strlit("the message is not JSON");
            reveal_strlit("missing result.events[tx.hash]");
            reveal_strlit("result.events[tx.hash] is not a string");
            reveal_strlit("missing result.data.value.TxResult.result.events");
            reveal_strlit("result.data.value.TxResult.result.events is malformed");
        }
        text.to_owned()
    }
}

/// The value of the first attribute whose key is `key`.
pub open spec fn first_value(attributes: Seq<Attribute>, key: Seq<char>) -> Option<Seq<char>>
    decreases attributes.len(),
{
    if attributes.len() == 0 {
        None
    } else if attributes[0].key@ == key {
        Some(attributes[0].value@)
    } else {
        first_value(attributes.drop_first(), key)
    }
}

/// Looks up an attribute of an event by key; the first match wins.
pub fn find_attribute(event: &Event, key: &str) -> (r: Option<String>)
    ensures
        r is Some <==> first_value(event.attributes@, key@) is Some,
        r is Some ==> first_value(event.attributes@, key@) == Some(r->0@),
{
    let mut i: usize = 0;
    assert(event.attributes@.subrange(0, event.attributes@.len() as int) =~= event.attributes@);
    while i < event.attributes.len()
        invariant
            0 <= i <= event.attributes@.len(),
            first_value(event.attributes@, key@) == first_value(
                event.attributes@.subrange(i as int, event.attributes@.len() as int),
                key@,
            ),
        decreases event.attributes@.len() - i,
    {
        assert(event.attributes@.subrange(i as int, event.attributes@.len() as int).drop_first()
            =~= event.attributes@.subrange(i as int + 1, event.attributes@.len() as int));
        let attribute = &event.attributes[i];
        if crate::json::same_text(&attribute.key, key) {
            assert(event.attributes@.subrange(i as int, event.attributes@.len() as int)[0]
                == event.attributes@[i as int]);
            return Some(attribute.value.clone());
        }
        i = i + 1;
    }
    None
}

/// The JSON text of a value, where it is one.
pub open spec fn text_of(v: Option<Json>) -> Option<Seq<char>> {
    match v {
        Some(Json::Text(s)) => Some(s@),
        _ => None,
    }
}

/// The items of a JSON array, where the value is one.
pub open spec fn items_of(v: Option<Json>) -> Option<Seq<Json>> {
    match v {
        Some(Json::Array(items)) => Some(items@),
        _ => None,
    }
}

/// Where the transaction hash stands in the envelope.
pub open spec fn hash_at(envelope: Json) -> Option<Json> {
    match then_field(field(envelope, "result"@), "events"@) {
        Some(events) => match field(events, "tx.hash"@) {
            Some(hashes) => element(hashes, 0),
            None => None,
        },
        None => None,
    }
}

/// Where the event list stands in the envelope.
pub open spec fn events_at(envelope: Json) -> Option<Json> {
    then_field(
        then_field(
            then_field(then_field(then_field(field(envelope, "result"@), "data"@), "value"@), "TxResult"@),
            "result"@,
        ),
        "events"@,
    )
}

/// An encoded attribute: an object whose `key` and `value` are strings.
pub open spec fn attribute_shaped(item: Json) -> bool {
    text_of(field(item, "key"@)) is Some && text_of(field(item, "value"@)) is Some
}

/// An encoded event: an object with a string `type` and a list of encoded
/// attributes.
pub open spec fn event_shaped(item: Json) -> bool {
    &&& text_of(field(item, "type"@)) is Some
    &&& items_of(field(item, "attributes"@)) is Some
    &&& forall|j: int|
        0 <= j < items_of(field(item, "attributes"@))->0.len() ==> #[trigger] attribute_shaped(
            items_of(field(item, "attributes"@))->0[j],
        )
}

/// `a` is the decoding of the encoded attribute `item`.
pub open spec fn attribute_decodes(item: Json, a: Attribute) -> bool {
    &&& a.key@ == attribute_text(text_of(field(item, "key"@))->0)
    &&& a.value@ == attribute_text(text_of(field(item, "value"@))->0)
}

/// `e` is the decoding of the encoded event `item`: same kind, and each
/// attribute's key and value decoded.
pub open spec fn event_decodes(item: Json, e: Event) -> bool {
    let items = items_of(field(item, "attributes"@))->0;
    &&& e.kind@ == text_of(field(item, "type"@))->0
    &&& e.attributes@.len() == items.len()
    &&& forall|j: int| 0 <= j < items.len() ==> #[trigger] attribute_decodes(items[j], e.attributes@[j])
}

/// The error that decoding an envelope gives, if any.
pub open spec fn envelope_error(envelope: Json) -> Option<MessageError> {
    if hash_at(envelope) is None {
        Some(MessageError::MissingHash)
    } else if text_of(hash_at(envelope)) is None {
        Some(MessageError::HashNotText)
    } else if events_at(envelope) is None {
        Some(MessageError::MissingEvents)
    } else if !(items_of(events_at(envelope)) matches Some(items) && forall|i: int|
        0 <= i < items.len() ==> #[trigger] event_shaped(items[i])) {
        Some(MessageError::MalformedEvents)
    } else {
        None
    }
}

/// `t` is the decoding of a well-formed envelope.
pub open spec fn transaction_decodes(envelope: Json, t: Transaction) -> bool {
    let items = items_of(events_at(envelope))->0;
    &&& t.tx_hash@ == text_of(hash_at(envelope))->0
    &&& t.events@.len() == items.len()
    &&& forall|i: int| 0 <= i < items.len() ==> #[trigger] event_decodes(items[i], t.events@[i])
}

fn text_at(v: Option<&Json>) -> (r: Option<String>)
    ensures
        r is Some <==> text_of(match v { Some(x) => Some(*x), None => None }) is Some,
        r is Some ==> text_of(match v { Some(x) => Some(*x), None => None }) == Some(r->0@),
{
    match v {
        Some(Json::Text(s)) => Some(s.clone()),
        _ => None,
    }
}

fn decode_attribute(item: &Json) -> (r: Option<Attribute>)
    ensures
        r is Some <==> attribute_shaped(*item),
        r matches Some(a) ==> attribute_decodes(*item, a),
{
    let key = text_at(item.get("key"));
    let value = text_at(item.get("value"));
    match (key, value) {
        (Some(k), Some(v)) => Some(Attribute { key: to_utf8(k.as_str()), value: to_utf8(v.as_str()) }),
        _ => None,
    }
}

fn decode_event(item: &Json) -> (r: Option<Event>)
    ensures
        r is Some <==> event_shaped(*item),
        r matches Some(e) ==> event_decodes(*item, e),
{
    let kind = match text_at(item.get("type")) {
        Some(k) => k,
        None => return None,
    };
    let items = match item.get("attributes") {
        Some(Json::Array(items)) => items,
        _ => return None,
    };
    let mut attributes: Vec<Attribute> = Vec::new();
    let mut j: usize = 0;
    while j < items.len()
        invariant
            0 <= j <= items@.len(),
            field(*item, "attributes"@) == Some(Json::Array(*items)),
            attributes@.len() == j,
            forall|k: int| 0 <= k < j ==> #[trigger] attribute_shaped(items@[k]),
            forall|k: int| 0 <= k < j ==> #[trigger] attribute_decodes(items@[k], attributes@[k]),
        decreases items@.len() - j,
    {
        match decode_attribute(&items[j]) {
            Some(a) => attributes.push(a),
            None => {
                assert(items_of(field(*item, "attributes"@))->0 == items@);
                assert(!attribute_shaped(items_of(field(*item, "attributes"@))->0[j as int]));
                return None;
            },
        }
        j = j + 1;
    }
    Some(Event { kind, attributes })
}

impl Transaction {
    /// Decodes a parsed envelope into a transaction, decoding every attribute key
    /// and value. The hash is looked for before the events.
    pub fn try_from_value(envelope: &Json) -> (r: Result<Transaction, MessageError>)
        ensures
            r matches Err(e) ==> envelope_error(*envelope) == Some(e),
            r matches Ok(t) ==> envelope_error(*envelope) is None && transaction_decodes(*envelope, t),
    {
        let hash = match envelope.get("result") {
            Some(result) => match result.get("events") {
                Some(events) => match events.get("tx.hash") {
                    Some(hashes) => hashes.at(0),
                    None => None,
                },
                None => None,
            },
            None => None,
        };
        let tx_hash = match hash {
            None => return Err(MessageError::MissingHash),
            Some(Json::Text(h)) => h.clone(),
            Some(_) => return Err(MessageError::HashNotText),
        };
        let events = match envelope.get("result") {
            Some(a) => match a.get("data") {
                Some(b) => match b.get("value") {
                    Some(c) => match c.get("TxResult") {
                        Some(d) => match d.get("result") {
                            Some(e) => e.get("events"),
                            None => None,
                        },
                        None => None,
                    },
                    None => None,
                },
                None => None,
            },
            None => None,
        };
        let items = match events {
            None => return Err(MessageError::MissingEvents),
            Some(Json::Array(items)) => items,
            Some(_) => return Err(MessageError::MalformedEvents),
        };
        let mut decoded: Vec<Event> = Vec::new();
        let mut i: usize = 0;
        while i < items.len()
            invariant
                0 <= i <= items@.len(),
                events_at(*envelope) == Some(Json::Array(*items)),
                text_of(hash_at(*envelope)) == Some(tx_hash@),
                decoded@.len() == i,
                forall|k: int| 0 <= k < i ==> #[trigger] event_shaped(items@[k]),
                forall|k: int| 0 <= k < i ==> #[trigger] event_decodes(items@[k], decoded@[k]),
            decreases items@.len() - i,
        {
            match decode_event(&items[i]) {
                Some(e) => decoded.push(e),
                None => {
                    assert(items_of(events_at(*envelope))->0 == items@);
                    assert(!event_shaped(items_of(events_at(*envelope))->0[i as int]));
                    return Err(MessageError::MalformedEvents);
                },
            }
            i = i + 1;
        }
        Ok(Transaction { tx_hash, events: decoded })
    }
}

} // verus!

verus! {

/// Whether an inbound text is the acknowledgment of the subscription.
pub fn is_acknowledgment(text: &str) -> (r: bool)
    ensures
        r == (text@ == ACKNOWLEDGMENT@),
{
    crate::json::same_text(&text.to_owned(), ACKNOWLEDGMENT)
}

/// Reads one inbound text message, given the JSON that it parses to (if it
/// parses). The acknowledgment is skipped, `Ok(None)`, without being decoded;
/// any other text is decoded as a transaction.
pub fn read_message(text: &str, parsed: Option<Json>) -> (r: Result<Option<Transaction>, MessageError>)
    ensures
        text@ == ACKNOWLEDGMENT@ ==> r matches Ok(None),
        text@ != ACKNOWLEDGMENT@ ==> match parsed {
            None => r == Err::<Option<Transaction>, MessageError>(MessageError::NotJson),
            Some(envelope) => match r {
                Ok(Some(t)) => envelope_error(envelope) is None && transaction_decodes(envelope, t),
                Ok(None) => false,
                Err(e) => envelope_error(envelope) == Some(e),
            },
        },
{
    if is_acknowledgment(text) {
        return Ok(None);
    }
    match parsed {
        None => Err(MessageError::NotJson),
        Some(envelope) => match Transaction::try_from_value(&envelope) {
            Ok(t) => Ok(Some(t)),
            Err(e) => Err(e),
        },
    }
}

impl Attribute {
    /// A copy of the attribute.
    pub fn duplicate(&self) -> (r: Attribute)
        ensures
            r.key@ == self.key@,
            r.value@ == self.value@,
    {
        Attribute { key: self.key.clone(), value: self.value.clone() }
    }
}

/// Two attribute lists hold the same keys and values, in the same order.
pub open spec fn same_attributes(a: Seq<Attribute>, b: Seq<Attribute>) -> bool {
    &&& a.len() == b.len()
    &&& forall|i: int| 0 <= i < a.len() ==> #[trigger] a[i].key@ == b[i].key@ && a[i].value@ == b[i].value@
}

impl Event {
    /// A copy of the event.
    pub fn duplicate(&self) -> (r: Event)
        ensures
            r.kind@ == self.kind@,
            same_attributes(r.attributes@, self.attributes@),
    {
        let mut attributes: Vec<Attribute> = Vec::new();
        let mut i: usize = 0;
        while i < self.attributes.len()
            invariant
                0 <= i <= self.attributes@.len(),
                attributes@.len() == i,
                forall|k: int| 0 <= k < i ==> #[trigger] attributes@[k].key@ == self.attributes@[k].key@
                    && attributes@[k].value@ == self.attributes@[k].value@,
            decreases self.attributes@.len() - i,
        {
            attributes.push(self.attributes[i].duplicate());
            i = i + 1;
        }
        Event { kind: self.kind.clone(), attributes }
    }
}

} // verus!
