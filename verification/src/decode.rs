//! Inbound frames and the notification decoder.
//!
//! A broker response is a JSON array of objects. The engine only ever reads
//! three things from an element: its `successful` flag, its `clientId`
//! string, and the alert string nested at `data.alert`. [`ResponseElem`]
//! holds exactly those as plain values; [`parse_response`] extracts them
//! from the wire text through the JSON parser.

use vstd::prelude::*;

verus! {

/// What the engine reads from one element of a broker response.
pub struct ResponseElem {
    /// The element's `successful` field, when it is a boolean.
    pub successful: Option<bool>,
    /// The element's `clientId` field, when it is a string.
    pub client_id: Option<String>,
    /// The string at the element's `data.alert` path, when present.
    pub alert: Option<String>,
}

/// One inbound response: the broker's array of elements.
pub struct ResponseFrame {
    pub elems: Vec<ResponseElem>,
}

/// Mathematical image of a [`ResponseElem`].
#[verifier::ext_equal]
pub ghost struct ElemV {
    pub successful: Option<bool>,
    pub client_id: Option<Seq<char>>,
    pub alert: Option<Seq<char>>,
}

impl View for ResponseElem {
    type V = ElemV;

    open spec fn view(&self) -> ElemV {
        ElemV {
            successful: self.successful,
            client_id: self.client_id.deep_view(),
            alert: self.alert.deep_view(),
        }
    }
}

impl View for ResponseFrame {
    type V = Seq<ElemV>;

    open spec fn view(&self) -> Seq<ElemV> {
        self.elems@.map_values(|e: ResponseElem| e@)
    }
}

/// A decoded, user-facing notification payload.
pub struct Alert {
    pub body: String,
}

impl View for Alert {
    type V = Seq<char>;

    open spec fn view(&self) -> Seq<char> {
        self.body@
    }
}

/// What a well-formed response decodes to: the alert string of the second
/// element, if the response has one. A response with at most one element is
/// a control frame (heartbeat, acknowledgment) and carries nothing, as does
/// a second element without an alert payload.
pub open spec fn spec_decode(r: Seq<ElemV>) -> Option<Seq<char>> {
    if r.len() <= 1 {
        None
    } else {
        r[1].alert
    }
}

/// The session identifier a handshake response grants: the first element's
/// `clientId`, unless the response is empty, reports failure, or omits the
/// identifier.
pub open spec fn spec_handshake_result(r: Seq<ElemV>) -> Option<Seq<char>> {
    if r.len() == 0 || r[0].successful == Some(false) {
        None
    } else {
        r[0].client_id
    }
}

/// Whether a subscribe response acknowledges the subscription.
pub open spec fn spec_subscribe_acked(r: Seq<ElemV>) -> bool {
    r.len() > 0 && r[0].successful == Some(true)
}

/// Decodes an inbound frame: `Some` exactly when the frame carries an alert
/// payload, `None` for every control frame. Pure: the frame is read, never
/// changed, and equal frames always decode alike (see
/// [`lemma_decode_deterministic`]).
pub fn decode(frame: &ResponseFrame) -> (r: Option<Alert>)
    ensures
        r matches Some(a) ==> spec_decode(frame@) == Some(a@),
        r is None ==> spec_decode(frame@) is None,
{
    if frame.elems.len() <= 1 {
        None
    } else {
        match &frame.elems[1].alert {
            Some(body) => Some(Alert { body: body.clone() }),
            None => None,
        }
    }
}

/// Extracts the granted session identifier from a handshake response,
/// `None` exactly when [`spec_handshake_result`] grants none.
pub fn handshake_result(frame: &ResponseFrame) -> (r: Option<String>)
    ensures
        r.deep_view() == spec_handshake_result(frame@),
{
    if frame.elems.len() == 0 {
        None
    } else {
        let first = &frame.elems[0];
        if first.successful == Some(false) {
            None
        } else {
            match &first.client_id {
                Some(cid) => Some(cid.clone()),
                None => None,
            }
        }
    }
}

/// Whether a subscribe response acknowledges the subscription; an
/// unacknowledged subscription is tolerated but recorded.
pub fn subscribe_acked(frame: &ResponseFrame) -> (r: bool)
    ensures
        r == spec_subscribe_acked(frame@),
{
    frame.elems.len() > 0 && frame.elems[0].successful == Some(true)
}

/// Decoding is a function of the frame alone: equal frames decode equally.
/// Together with the exact contract of [`decode`], two decodings of one
/// frame always agree.
pub proof fn lemma_decode_deterministic(a: Seq<ElemV>, b: Seq<ElemV>)
    requires
        a == b,
    ensures
        spec_decode(a) == spec_decode(b),
{
}

/// What the response extractor makes of the wire text: `None` when the text
/// is not a JSON array, otherwise the fields the engine reads from each
/// element. The result depends on the text alone.
pub uninterp spec fn response_of(s: Seq<char>) -> Option<Seq<ElemV>>;

/// Relies on `serde_json`: parsing the wire text and reading, per array
/// element, the `successful` boolean, the `clientId` string and the string
/// at `data.alert`; a function of the text alone.
#[verifier::external_body]
pub fn parse_response(text: &str) -> (r: Option<ResponseFrame>)
    ensures
        r matches Some(f) ==> response_of(text@) == Some(f@),
        r is None ==> response_of(text@) is None,
{
    let v: serde_json::Value = serde_json::from_str(text).ok()?;
    let mut elems: Vec<ResponseElem> = Vec::new();
    for e in v.as_array()? {
        elems.push(ResponseElem {
            successful: e["successful"].as_bool(),
            client_id: e["clientId"].as_str().map(str::to_string),
            alert: e["data"]["alert"].as_str().map(str::to_string),
        });
    }
    Some(ResponseFrame { elems })
}

} // verus!
