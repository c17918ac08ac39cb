//! The subscription: the filter query, the subscribe request, and the
//! decisions of the connection's life cycle.
use vstd::prelude::*;
use vstd::string::{StrSliceExecFns, StringExecFns};

verus! {

/// One term of a subscription filter, besides the transaction event type.
#[derive(Debug)]
pub enum FilterTerm {
    /// `<key> EXISTS`: the attribute is present.
    Exists(String),
    /// `<key> = '<value>'`: the attribute has the value.
    Equals(String, String),
}

/// A text with each backslash and single quote escaped by a backslash.
pub open spec fn escaped(s: Seq<char>) -> Seq<char>
    decreases s.len(),
{
    if s.len() == 0 {
        Seq::empty()
    } else {
        let c = s.last();
        escaped(s.drop_last()) + if c == '\\' || c == '\'' {
            seq!['\\', c]
        } else {
            seq![c]
        }
    }
}

/// The text of a filter term.
pub open spec fn term_text(t: FilterTerm) -> Seq<char> {
    match t {
        FilterTerm::Exists(k) => k@ + " EXISTS"@,
        FilterTerm::Equals(k, v) => k@ + " = '"@ + escaped(v@) + "'"@,
    }
}

/// The filter text of the transaction event type and the first `n` terms,
/// joined by ` AND `.
pub open spec fn query_spec(terms: Seq<FilterTerm>, n: int) -> Seq<char>
    decreases n,
{
    if n <= 0 {
        "tm.event = 'Tx'"@
    } else {
        query_spec(terms, n - 1) + " AND "@ + term_text(terms[n - 1])
    }
}

/// Appends a text, escaped, to `out`.
fn push_escaped(out: &mut String, s: &str)
    ensures
        final(out)@ == old(out)@ + escaped(s@),
{
    let n = s.unicode_len();
    let mut i: usize = 0;
    proof {
        assert(s@.subrange(0, 0) =~= Seq::<char>::empty());
        assert(out@ =~= old(out)@ + escaped(s@.subrange(0, 0)));
    }
    while i < n
        invariant
            n == s@.len(),
            0 <= i <= n,
            out@ == old(out)@ + escaped(s@.subrange(0, i as int)),
        decreases n - i,
    {
        let c = s.get_char(i);
        if c == '\\' || c == '\'' {
            out.append("\\");
        }
        out.append(s.substring_char(i, i + 1));
        proof {
            reveal_strlit("\\");
            assert(s@.subrange(0, i as int + 1).drop_last() =~= s@.subrange(0, i as int));
            assert(s@.subrange(0, i as int + 1).last() == c);
        }
        i = i + 1;
    }
    proof {
        assert(s@.subrange(0, n as int) =~= s@);
    }
}

/// The filter text of a subscription to transactions with all the terms, in
/// order: `tm.event = 'Tx' AND <term> AND ...`.
pub fn query_text(terms: &Vec<FilterTerm>) -> (r: String)
    ensures
        r@ == query_spec(terms@, terms@.len() as int),
{
    let mut out = "tm.event = 'Tx'".to_owned();
    let mut i: usize = 0;
    while i < terms.len()
        invariant
            0 <= i <= terms@.len(),
            out@ == query_spec(terms@, i as int),
        decreases terms@.len() - i,
    {
        out.append(" AND ");
        match &terms[i] {
            FilterTerm::Exists(k) => {
                out.append(k.as_str());
                out.append(" EXISTS");
            },
            FilterTerm::Equals(k, v) => {
                out.append(k.as_str());
                out.append(" = '");
                push_escaped(&mut out, v.as_str());
                out.append("'");
            },
        }
        proof {
            assert(out@ =~= query_spec(terms@, i as int + 1));
        }
        i = i + 1;
    }
    out
}

/// The JSON string literal that a text serialises to.
pub uninterp spec fn json_quoted(s: Seq<char>) -> Seq<char>;

/// Relies on `serde_json::to_string` on a `str`: the JSON string literal of the
/// text. For a `str` it writes into a byte vector and cannot fail.
#[verifier::external_body]
fn to_json_string(s: &str) -> (r: String)
    ensures
        r@ == json_quoted(s@),
{
    serde_json::to_string(s).unwrap_or_default()
}

/// The subscribe request for a filter text, as the JSON text that is sent.
pub open spec fn subscribe_spec(query: Seq<char>) -> Seq<char> {
    "{\"id\":\"0\",\"jsonrpc\":\"2.0\",\"method\":\"subscribe\",\"params\":{\"query\":"@ + json_quoted(query) + "}}"@
}

/// The subscribe request around a filter text that is already a JSON string
/// literal.
pub fn subscribe_envelope(quoted: &str) -> (r: String)
    ensures
        r@ == "{\"id\":\"0\",\"jsonrpc\":\"2.0\",\"method\":\"subscribe\",\"params\":{\"query\":"@ + quoted@ + "}}"@,
{
    let mut out = "{\"id\":\"0\",\"jsonrpc\":\"2.0\",\"method\":\"subscribe\",\"params\":{\"query\":".to_owned();
    out.append(quoted);
    out.append("}}");
    out
}

/// Builds the subscribe request for a filter text.
pub fn create_subcribe_message(query: &str) -> (r: String)
    ensures
        r@ == subscribe_spec(query@),
{
    let quoted = to_json_string(query);
    subscribe_envelope(quoted.as_str())
}

/// Where the connection to the node stands.
#[derive(PartialEq, Eq, Structural, Clone, Copy, Debug)]
pub enum Phase {
    Disconnected,
    Connecting,
    Subscribed,
    Streaming,
}

/// What happened on the connection.
#[derive(PartialEq, Eq, Structural, Clone, Copy, Debug)]
pub enum Signal {
    /// The worker starts.
    Start,
    /// The transport is open.
    Opened,
    /// The subscribe request was sent.
    SubscribeSent,
    /// The acknowledgment of the subscription arrived.
    Acknowledged,
    /// A transaction message arrived and was handed on.
    Delivered,
    /// A frame that carries no message (a ping, a pong) arrived.
    Idle,
    /// A message could not be read as a transaction.
    Malformed,
    /// Opening, reading or sending failed.
    TransportFailed,
    /// The node closed the stream.
    Closed,
}

/// What the worker is to do next.
#[derive(PartialEq, Eq, Structural, Clone, Copy, Debug)]
pub enum Command {
    /// Open the transport.
    Open,
    /// Send the subscribe request.
    SendSubscribe,
    /// Read the next message.
    Read,
}

/// The next phase and command of the connection. A repeated acknowledgment
/// while streaming is harmless and reading goes on. A failure, a malformed
/// message or a closed stream, in any phase, is a disconnection followed at
/// once by a new connection; so is a signal that the phase does not expect.
pub fn next_step(phase: Phase, signal: Signal) -> (r: (Phase, Command))
    ensures
        signal == Signal::TransportFailed || signal == Signal::Malformed || signal == Signal::Closed
            ==> r == (Phase::Connecting, Command::Open),
        signal == Signal::Start ==> r == (Phase::Connecting, Command::Open),
        signal == Signal::Opened ==> r == if phase == Phase::Connecting {
            (Phase::Connecting, Command::SendSubscribe)
        } else {
            (Phase::Connecting, Command::Open)
        },
        signal == Signal::SubscribeSent ==> r == if phase == Phase::Connecting {
            (Phase::Subscribed, Command::Read)
        } else {
            (Phase::Connecting, Command::Open)
        },
        signal == Signal::Acknowledged ==> r == if phase == Phase::Subscribed || phase == Phase::Streaming {
            (Phase::Streaming, Command::Read)
        } else {
            (Phase::Connecting, Command::Open)
        },
        signal == Signal::Delivered ==> r == if phase == Phase::Subscribed || phase == Phase::Streaming {
            (Phase::Streaming, Command::Read)
        } else {
            (Phase::Connecting, Command::Open)
        },
        signal == Signal::Idle ==> r == if phase == Phase::Subscribed || phase == Phase::Streaming {
            (phase, Command::Read)
        } else {
            (Phase::Connecting, Command::Open)
        },
{
    let restart = (Phase::Connecting, Command::Open);
    match signal {
        Signal::Opened => if phase == Phase::Connecting {
            (Phase::Connecting, Command::SendSubscribe)
        } else {
            restart
        },
        Signal::SubscribeSent => if phase == Phase::Connecting {
            (Phase::Subscribed, Command::Read)
        } else {
            restart
        },
        Signal::Acknowledged => if phase == Phase::Subscribed || phase == Phase::Streaming {
            (Phase::Streaming, Command::Read)
        } else {
            restart
        },
        Signal::Delivered => if phase == Phase::Subscribed || phase == Phase::Streaming {
            (Phase::Streaming, Command::Read)
        } else {
            restart
        },
        Signal::Idle => if phase == Phase::Subscribed || phase == Phase::Streaming {
            (phase, Command::Read)
        } else {
            restart
        },
        _ => restart,
    }
}

} // verus!
