use base64::Engine;
use nft_stream::codec::{decoded_or_empty, to_utf8};
use nft_stream::json::Json;
use nft_stream::message::{find_attribute, is_acknowledgment, read_message, Attribute, Event, MessageError, Transaction, ACKNOWLEDGMENT};

fn b64(s: &str) -> String {
    base64::engine::general_purpose::STANDARD.encode(s)
}

fn text(s: &str) -> Json {
    Json::Text(s.to_string())
}

fn object(members: Vec<(&str, Json)>) -> Json {
    Json::Object(members.into_iter().map(|(k, v)| (k.to_string(), v)).collect())
}

fn encoded_event(kind: &str, attributes: &[(&str, &str)]) -> Json {
    object(vec![
        ("type", text(kind)),
        (
            "attributes",
            Json::Array(
                attributes
                    .iter()
                    .map(|(k, v)| object(vec![("key", text(&b64(k))), ("value", text(&b64(v))), ("index", Json::Bool(true))]))
                    .collect(),
            ),
        ),
    ])
}

fn envelope(hash: Json, events: Option<Json>) -> Json {
    let mut result = vec![("events", object(vec![("tx.hash", Json::Array(vec![hash]))]))];
    if let Some(events) = events {
        result.push((
            "data",
            object(vec![("value", object(vec![("TxResult", object(vec![("result", object(vec![("events", events)]))]))]))]),
        ));
    }
    object(vec![("result", object(result))])
}

#[test]
fn to_utf8_decodes_base64_text() {
    assert_eq!(to_utf8("bWludA=="), "mint");
    assert_eq!(to_utf8(&b64("sei1xyz")), "sei1xyz");
}

#[test]
fn to_utf8_gives_empty_text_for_garbled_input() {
    assert_eq!(to_utf8("not base64!"), "");
    assert_eq!(to_utf8("/w=="), "");
    assert_eq!(to_utf8(""), "");
}

#[test]
fn decoded_or_empty_keeps_text() {
    assert_eq!(decoded_or_empty(Some("abc".to_string())), "abc");
    assert_eq!(decoded_or_empty(None), "");
}

#[test]
fn json_lookups() {
    let v = object(vec![("a", text("x")), ("b", Json::Array(vec![Json::Null, text("y")]))]);
    assert!(matches!(v.get("a"), Some(Json::Text(s)) if s == "x"));
    assert!(v.get("c").is_none());
    assert!(matches!(v.get("b").and_then(|b| b.at(1)), Some(Json::Text(s)) if s == "y"));
    assert!(v.get("b").and_then(|b| b.at(2)).is_none());
    assert!(text("x").get("a").is_none());
}

#[test]
fn find_attribute_first_match_wins() {
    let event = Event {
        kind: "wasm".to_string(),
        attributes: vec![
            Attribute { key: "token_id".to_string(), value: "1".to_string() },
            Attribute { key: "token_id".to_string(), value: "2".to_string() },
        ],
    };
    assert_eq!(find_attribute(&event, "token_id"), Some("1".to_string()));
    assert_eq!(find_attribute(&event, "owner"), None);
}

#[test]
fn decodes_transaction_envelope() {
    let events = Json::Array(vec![
        encoded_event("wasm", &[("action", "mint"), ("_contract_address", "sei1abc"), ("token_id", "7"), ("owner", "sei1xyz")]),
        encoded_event("coin_received", &[("amount", "1usei")]),
    ]);
    let tx = Transaction::try_from_value(&envelope(text("ABC123"), Some(events))).unwrap();
    assert_eq!(tx.tx_hash, "ABC123");
    assert_eq!(tx.events.len(), 2);
    assert_eq!(tx.events[0].kind, "wasm");
    assert_eq!(tx.events[0].attributes[0].key, "action");
    assert_eq!(tx.events[0].attributes[0].value, "mint");
    assert_eq!(tx.events[0].attributes[3].value, "sei1xyz");
    assert_eq!(tx.events[1].attributes[0].value, "1usei");
}

#[test]
fn decode_fails_without_hash() {
    let v = object(vec![("result", object(vec![]))]);
    assert_eq!(Transaction::try_from_value(&v).err(), Some(MessageError::MissingHash));
}

#[test]
fn decode_fails_on_hash_that_is_not_text() {
    let v = envelope(Json::Number("5".to_string()), Some(Json::Array(vec![])));
    assert_eq!(Transaction::try_from_value(&v).err(), Some(MessageError::HashNotText));
}

#[test]
fn decode_fails_without_events() {
    let v = envelope(text("H"), None);
    assert_eq!(Transaction::try_from_value(&v).err(), Some(MessageError::MissingEvents));
}

#[test]
fn decode_fails_on_malformed_events() {
    let v = envelope(text("H"), Some(Json::Array(vec![object(vec![("type", text("wasm"))])])));
    assert_eq!(Transaction::try_from_value(&v).err(), Some(MessageError::MalformedEvents));
    let v = envelope(text("H"), Some(text("nope")));
    assert_eq!(Transaction::try_from_value(&v).err(), Some(MessageError::MalformedEvents));
}

#[test]
fn acknowledgment_is_skipped() {
    assert!(is_acknowledgment("{\"jsonrpc\":\"2.0\",\"id\":\"0\",\"result\":{}}"));
    assert!(!is_acknowledgment("{}"));
    let parsed = object(vec![("jsonrpc", text("2.0")), ("id", text("0")), ("result", object(vec![]))]);
    assert!(matches!(read_message(ACKNOWLEDGMENT, Some(parsed)), Ok(None)));
    assert!(matches!(read_message(ACKNOWLEDGMENT, None), Ok(None)));
}

#[test]
fn read_message_reports_text_that_is_not_json() {
    assert!(matches!(read_message("garbage", None), Err(MessageError::NotJson)));
}

#[test]
fn read_message_decodes_transactions() {
    let events = Json::Array(vec![encoded_event("wasm", &[("action", "mint")])]);
    let r = read_message("{...}", Some(envelope(text("H1"), Some(events))));
    match r {
        Ok(Some(tx)) => assert_eq!(tx.tx_hash, "H1"),
        _ => panic!("expected a transaction"),
    }
}

#[test]
fn message_errors_name_their_path() {
    assert!(MessageError::MissingHash.describe().contains("tx.hash"));
    assert!(MessageError::MissingEvents.describe().contains("TxResult"));
}
