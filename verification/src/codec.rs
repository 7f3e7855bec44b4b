//! Outbound protocol frames and their wire encoding.
//!
//! The broker speaks a Bayeux-style protocol: every request is a JSON array
//! holding one object whose `channel` field names the exchange
//! (`/meta/handshake`, `/meta/subscribe`, `/meta/connect`). The encoder
//! produces the compact JSON text for each frame, with object keys in
//! lexicographic order, exactly as the JSON serializer emits them.

use vstd::prelude::*;

verus! {

/// One outbound request frame. Every variant carries the request id the
/// engine assigned to it; the ids a session emits are strictly increasing.
pub enum OutFrame {
    /// Opens a session: declares the protocol version and the supported
    /// connection kinds, and asks the broker for a session identifier.
    Handshake { id: u64 },
    /// Registers interest in the subject's own channel under the session
    /// `client_id`, authorized by `access_token`.
    Subscribe {
        id: u64,
        client_id: String,
        subscription: String,
        access_token: String,
        timestamp: u64,
    },
    /// One long poll under the session `client_id`; the broker answers with
    /// a control frame or an alert-bearing frame.
    Connect { id: u64, client_id: String },
}

/// Mathematical image of an [`OutFrame`]: the same shape over sequences.
#[verifier::ext_equal]
pub ghost enum OutFrameV {
    Handshake { id: int },
    Subscribe {
        id: int,
        client_id: Seq<char>,
        subscription: Seq<char>,
        access_token: Seq<char>,
        timestamp: int,
    },
    Connect { id: int, client_id: Seq<char> },
}

impl View for OutFrame {
    type V = OutFrameV;

    open spec fn view(&self) -> OutFrameV {
        match self {
            OutFrame::Handshake { id } => OutFrameV::Handshake { id: *id as int },
            OutFrame::Subscribe { id, client_id, subscription, access_token, timestamp } => {
                OutFrameV::Subscribe {
                    id: *id as int,
                    client_id: client_id@,
                    subscription: subscription@,
                    access_token: access_token@,
                    timestamp: *timestamp as int,
                }
            },
            OutFrame::Connect { id, client_id } => {
                OutFrameV::Connect { id: *id as int, client_id: client_id@ }
            },
        }
    }
}

/// The request id a frame carries.
pub open spec fn frame_id(f: OutFrameV) -> int {
    match f {
        OutFrameV::Handshake { id } => id,
        OutFrameV::Subscribe { id, .. } => id,
        OutFrameV::Connect { id, .. } => id,
    }
}

/// What the JSON serializer makes of a string value: the text between and
/// including the surrounding quotes, with the escapes it inserts. The result
/// depends on the characters alone.
pub uninterp spec fn json_string_of(s: Seq<char>) -> Seq<char>;

/// Relies on `serde_json`: serializing a `String` value yields its quoted,
/// escaped JSON text, a function of the characters alone.
#[verifier::external_body]
fn json_quote(s: &str) -> (r: String)
    ensures
        r@ == json_string_of(s@),
{
    serde_json::Value::String(s.to_owned()).to_string()
}

/// The character for one decimal digit.
pub open spec fn dec_digit(n: nat) -> char {
    if n == 0 {
        '0'
    } else if n == 1 {
        '1'
    } else if n == 2 {
        '2'
    } else if n == 3 {
        '3'
    } else if n == 4 {
        '4'
    } else if n == 5 {
        '5'
    } else if n == 6 {
        '6'
    } else if n == 7 {
        '7'
    } else if n == 8 {
        '8'
    } else {
        '9'
    }
}

/// The decimal digits of `n`, most significant first.
pub open spec fn dec_seq(n: nat) -> Seq<char>
    decreases n,
{
    if n < 10 {
        seq![dec_digit(n)]
    } else {
        dec_seq(n / 10).push(dec_digit(n % 10))
    }
}

fn digit_str(d: u64) -> (r: &'static str)
    requires
        d < 10,
    ensures
        r@ == seq![dec_digit(d as nat)],
{
    let r: &'static str = match d {
        0 => "0",
        1 => "1",
        2 => "2",
        3 => "3",
        4 => "4",
        5 => "5",
        6 => "6",
        7 => "7",
        8 => "8",
        _ => "9",
    };
    proof {
        reveal_strlit("0");
        reveal_strlit("1");
        reveal_strlit("2");
        reveal_strlit("3");
        reveal_strlit("4");
        reveal_strlit("5");
        reveal_strlit("6");
        reveal_strlit("7");
        reveal_strlit("8");
        reveal_strlit("9");
        assert(r@ =~= seq![dec_digit(d as nat)]);
    }
    r
}

/// Formats `n` in decimal.
pub fn u64_to_dec(n: u64) -> (r: String)
    ensures
        r@ == dec_seq(n as nat),
    decreases n,
{
    if n < 10 {
        let r = digit_str(n).to_owned();
        r
    } else {
        let mut r = u64_to_dec(n / 10);
        r.append(digit_str(n % 10));
        r
    }
}

/// Which transport kind the frames declare to the broker: the handshake
/// names it among its supported connection kinds, and every connect poll
/// names it as its connection type.
#[derive(Clone, Copy, PartialEq, Eq, Structural)]
pub enum ConnectionKind {
    /// One persistent duplex socket for the process lifetime.
    Websocket,
    /// An independent request to a fixed endpoint each cycle.
    LongPolling,
}

/// The name a transport kind goes by on the wire.
pub open spec fn kind_name(k: ConnectionKind) -> Seq<char> {
    match k {
        ConnectionKind::Websocket => "websocket"@,
        ConnectionKind::LongPolling => "long-polling"@,
    }
}

fn kind_str(k: ConnectionKind) -> (r: &'static str)
    ensures
        r@ == kind_name(k),
{
    match k {
        ConnectionKind::Websocket => "websocket",
        ConnectionKind::LongPolling => "long-polling",
    }
}

/// The wire text of a frame under the chosen transport kind: a one-element
/// JSON array in compact form, keys in lexicographic order. Every id is
/// carried as a JSON string.
pub open spec fn frame_text(f: OutFrameV, k: ConnectionKind) -> Seq<char> {
    match f {
        OutFrameV::Handshake { id } => {
            "[{\"channel\":\"/meta/handshake\",\"id\":\""@ + dec_seq(id as nat)
                + "\",\"supportedConnectionTypes\":[\""@ + kind_name(k)
                + "\"],\"version\":\"1.0\"}]"@
        },
        OutFrameV::Subscribe { id, client_id, subscription, access_token, timestamp } => {
            "[{\"channel\":\"/meta/subscribe\",\"clientId\":"@ + json_string_of(client_id)
                + ",\"ext\":{\"access_token\":"@ + json_string_of(access_token)
                + ",\"timestamp\":\""@ + dec_seq(timestamp as nat) + "\"},\"id\":\""@
                + dec_seq(id as nat) + "\",\"subscription\":"@ + json_string_of(subscription)
                + "}]"@
        },
        OutFrameV::Connect { id, client_id } => {
            "[{\"channel\":\"/meta/connect\",\"clientId\":"@ + json_string_of(client_id)
                + ",\"connectionType\":\""@ + kind_name(k) + "\",\"id\":\""@
                + dec_seq(id as nat) + "\"}]"@
        },
    }
}

/// Encodes a frame as the exact wire text of [`frame_text`].
pub fn encode_frame(f: &OutFrame, k: ConnectionKind) -> (r: String)
    ensures
        r@ == frame_text(f@, k),
{
    match f {
        OutFrame::Handshake { id } => {
            let mut r = String::from_str("[{\"channel\":\"/meta/handshake\",\"id\":\"");
            r.append(u64_to_dec(*id).as_str());
            r.append("\",\"supportedConnectionTypes\":[\"");
            r.append(kind_str(k));
            r.append("\"],\"version\":\"1.0\"}]");
            proof {
                assert(r@ =~= frame_text(f@, k));
            }
            r
        },
        OutFrame::Subscribe { id, client_id, subscription, access_token, timestamp } => {
            let mut r = String::from_str("[{\"channel\":\"/meta/subscribe\",\"clientId\":");
            r.append(json_quote(client_id.as_str()).as_str());
            r.append(",\"ext\":{\"access_token\":");
            r.append(json_quote(access_token.as_str()).as_str());
            r.append(",\"timestamp\":\"");
            r.append(u64_to_dec(*timestamp).as_str());
            r.append("\"},\"id\":\"");
            r.append(u64_to_dec(*id).as_str());
            r.append("\",\"subscription\":");
            r.append(json_quote(subscription.as_str()).as_str());
            r.append("}]");
            proof {
                assert(r@ =~= frame_text(f@, k));
            }
            r
        },
        OutFrame::Connect { id, client_id } => {
            let mut r = String::from_str("[{\"channel\":\"/meta/connect\",\"clientId\":");
            r.append(json_quote(client_id.as_str()).as_str());
            r.append(",\"connectionType\":\"");
            r.append(kind_str(k));
            r.append("\",\"id\":\"");
            r.append(u64_to_dec(*id).as_str());
            r.append("\"}]");
            proof {
                assert(r@ =~= frame_text(f@, k));
            }
            r
        },
    }
}

} // verus!
