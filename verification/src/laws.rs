//! Session-wide guarantees of the protocol engine.
//!
//! [`spec_step`] fixes what one step does; the proofs here say what whole
//! runs do. A run is a start state together with the sequence of events the
//! loop fed in; [`engine_at`] and [`action_at`] give the engine and the
//! requested action at each position of the run.

use vstd::prelude::*;

use crate::codec::{frame_id, OutFrameV};
use crate::decode::{spec_handshake_result, ElemV};
use crate::engine::{renew_due, spec_handshake_step, spec_step, spec_subscription_channel,
    ActionV, EngineState, EngineV, EventV, SessionV};

verus! {

/// The engine before the event at position `i` of a run that starts at `e`
/// and is fed `evs`.
pub open spec fn engine_at(e: EngineV, evs: Seq<EventV>, i: int) -> EngineV
    decreases i,
{
    if i <= 0 {
        e
    } else {
        spec_step(engine_at(e, evs, i - 1), evs[i - 1]).engine
    }
}

/// The action the engine asks for at position `i` of a run.
pub open spec fn action_at(e: EngineV, evs: Seq<EventV>, i: int) -> ActionV {
    spec_step(engine_at(e, evs, i), evs[i]).action
}

/// Whether an action sends a frame.
pub open spec fn is_send(a: ActionV) -> bool {
    a matches ActionV::Send(_)
}

/// The frame a sending action carries.
pub open spec fn sent_frame(a: ActionV) -> OutFrameV {
    match a {
        ActionV::Send(f) => f,
        _ => vstd::pervasive::arbitrary(),
    }
}

/// Whether an action sends a handshake frame.
pub open spec fn sends_handshake(a: ActionV) -> bool {
    a matches ActionV::Send(OutFrameV::Handshake { .. })
}

/// Whether an action sends a subscribe frame.
pub open spec fn sends_subscribe(a: ActionV) -> bool {
    a matches ActionV::Send(OutFrameV::Subscribe { .. })
}

/// Whether an action sends a connect frame.
pub open spec fn sends_connect(a: ActionV) -> bool {
    a matches ActionV::Send(OutFrameV::Connect { .. })
}

/// Whether the event at position `k` is a successful handshake response:
/// the engine was awaiting one, and the reply granted a session identifier.
pub open spec fn handshake_succeeded_at(e: EngineV, evs: Seq<EventV>, k: int) -> bool {
    engine_at(e, evs, k).state == EngineState::Handshaking && (evs[k] matches EventV::Reply {
        frame,
        ..
    } && spec_handshake_result(frame) is Some)
}

/// One step never decreases the request counter; a step that sends a frame
/// stamps it with the counter and advances the counter by exactly one.
pub proof fn lemma_step_counter(e: EngineV, ev: EventV)
    ensures
        spec_step(e, ev).engine.next_request_id >= e.next_request_id,
        is_send(spec_step(e, ev).action) ==> frame_id(sent_frame(spec_step(e, ev).action))
            == e.next_request_id && spec_step(e, ev).engine.next_request_id
            == e.next_request_id + 1,
{
}

/// Along a run the request counter never decreases.
pub proof fn lemma_counter_monotone(e: EngineV, evs: Seq<EventV>, i: int, j: int)
    requires
        0 <= i <= j,
    ensures
        engine_at(e, evs, j).next_request_id >= engine_at(e, evs, i).next_request_id,
    decreases j - i,
{
    if j > i {
        lemma_counter_monotone(e, evs, i, j - 1);
        lemma_step_counter(engine_at(e, evs, j - 1), evs[j - 1]);
    }
}

/// Request ids are strictly increasing and never repeat: within one run,
/// of any two outbound frames the later carries the strictly larger id.
pub proof fn lemma_request_ids_strictly_increase(e: EngineV, evs: Seq<EventV>, i: int, j: int)
    requires
        0 <= i < j,
        is_send(action_at(e, evs, i)),
        is_send(action_at(e, evs, j)),
    ensures
        frame_id(sent_frame(action_at(e, evs, i))) < frame_id(sent_frame(action_at(e, evs, j))),
{
    lemma_step_counter(engine_at(e, evs, i), evs[i]);
    assert(engine_at(e, evs, i + 1) == spec_step(engine_at(e, evs, i), evs[i]).engine);
    lemma_counter_monotone(e, evs, i + 1, j);
    lemma_step_counter(engine_at(e, evs, j), evs[j]);
}

/// Whether a handshake frame went out before position `j` of a run.
pub open spec fn handshake_before(e: EngineV, evs: Seq<EventV>, j: int) -> bool {
    exists|i: int| 0 <= i < j && sends_handshake(#[trigger] action_at(e, evs, i))
}

/// Whether a successful handshake response arrived before position `j`.
pub open spec fn handshake_success_before(e: EngineV, evs: Seq<EventV>, j: int) -> bool {
    exists|k: int| 0 <= k < j && #[trigger] handshake_succeeded_at(e, evs, k)
}

/// The states an engine can only reach once a session was granted.
pub open spec fn established_state(s: EngineState) -> bool {
    s == EngineState::Subscribing || s == EngineState::Polling || s == EngineState::Connecting
}

/// History invariant of a run that starts unestablished: awaiting a
/// handshake response means a handshake frame went out earlier, and being
/// established means a handshake went out and succeeded earlier.
pub proof fn lemma_history_inv(e: EngineV, evs: Seq<EventV>, j: int)
    requires
        e.state == EngineState::Unestablished,
        0 <= j,
    ensures
        engine_at(e, evs, j).state == EngineState::Handshaking ==> handshake_before(e, evs, j),
        established_state(engine_at(e, evs, j).state) ==> handshake_before(e, evs, j)
            && handshake_success_before(e, evs, j),
    decreases j,
{
    if j > 0 {
        lemma_history_inv(e, evs, j - 1);
        let ep = engine_at(e, evs, j - 1);
        let ev = evs[j - 1];
        assert(engine_at(e, evs, j) == spec_step(ep, ev).engine);
        if handshake_before(e, evs, j - 1) {
            let i = choose|i: int|
                0 <= i < j - 1 && sends_handshake(#[trigger] action_at(e, evs, i));
            assert(0 <= i < j && sends_handshake(action_at(e, evs, i)));
        }
        if handshake_success_before(e, evs, j - 1) {
            let k = choose|k: int| 0 <= k < j - 1 && #[trigger] handshake_succeeded_at(e, evs, k);
            assert(0 <= k < j && handshake_succeeded_at(e, evs, k));
        }
        if sends_handshake(spec_step(ep, ev).action) {
            assert(sends_handshake(action_at(e, evs, j - 1)));
            assert(handshake_before(e, evs, j));
        }
        if ep.state == EngineState::Handshaking && (ev matches EventV::Reply { frame, .. }
            && spec_handshake_result(frame) is Some) {
            assert(handshake_succeeded_at(e, evs, j - 1));
            assert(handshake_success_before(e, evs, j));
        }
    }
}

/// A successful handshake precedes any subscribe or connect frame: in a
/// run begun from a fresh, unestablished engine, whenever a subscribe or
/// connect frame goes out, a handshake frame went out strictly earlier,
/// and a successful handshake response arrived no later.
pub proof fn lemma_handshake_precedes(e: EngineV, evs: Seq<EventV>, j: int)
    requires
        e.state == EngineState::Unestablished,
        0 <= j,
        sends_subscribe(action_at(e, evs, j)) || sends_connect(action_at(e, evs, j)),
    ensures
        handshake_before(e, evs, j),
        exists|k: int| 0 <= k <= j && #[trigger] handshake_succeeded_at(e, evs, k),
{
    lemma_history_inv(e, evs, j);
    let ej = engine_at(e, evs, j);
    if sends_subscribe(action_at(e, evs, j)) {
        assert(ej.state == EngineState::Handshaking);
        assert(handshake_succeeded_at(e, evs, j));
    } else {
        assert(established_state(ej.state));
        let k = choose|k: int| 0 <= k < j && #[trigger] handshake_succeeded_at(e, evs, k);
        assert(0 <= k <= j && handshake_succeeded_at(e, evs, k));
    }
}

/// An engine holds a session exactly while it needs one: in a run begun
/// from a fresh engine, every established state carries a granted session,
/// and the unestablished state carries none — there is never more than the
/// one session the last successful handshake granted.
pub proof fn lemma_session_present(e: EngineV, evs: Seq<EventV>, j: int)
    requires
        e.state == EngineState::Unestablished,
        e.session is None,
        0 <= j,
    ensures
        established_state(engine_at(e, evs, j).state) ==> engine_at(e, evs, j).session is Some,
        engine_at(e, evs, j).state == EngineState::Unestablished ==> engine_at(
            e,
            evs,
            j,
        ).session is None,
    decreases j,
{
    if j > 0 {
        lemma_session_present(e, evs, j - 1);
    }
}

/// A stopped engine stays stopped.
pub proof fn lemma_stopped_absorbing(e: EngineV, evs: Seq<EventV>, i: int, j: int)
    requires
        0 <= i <= j,
        engine_at(e, evs, i).state == EngineState::Stopped,
    ensures
        engine_at(e, evs, j).state == EngineState::Stopped,
    decreases j - i,
{
    if j > i {
        lemma_stopped_absorbing(e, evs, i, j - 1);
    }
}

/// Once shutdown is signaled, no further outbound frames: the tick that
/// observes shutdown answers `Stop`, and so does every later step of the
/// run, whatever events follow — in particular nothing is sent again.
pub proof fn lemma_shutdown_halts(e: EngineV, evs: Seq<EventV>, i: int, j: int)
    requires
        0 <= i <= j,
        evs[i] matches EventV::Tick { shutdown: true, .. },
    ensures
        action_at(e, evs, i) == ActionV::Stop,
        action_at(e, evs, j) == ActionV::Stop,
        !is_send(action_at(e, evs, j)),
    decreases j - i,
{
    if i < j {
        assert(engine_at(e, evs, i + 1).state == EngineState::Stopped);
        lemma_stopped_absorbing(e, evs, i + 1, j);
    }
}

/// The events of one renewal round: the tick that finds the session due,
/// the handshake response, the subscribe acknowledgment, and the next tick.
pub open spec fn renewal_events(
    hs_reply: Seq<ElemV>,
    ack_reply: Seq<ElemV>,
    now1: int,
    now2: int,
    now3: int,
    now4: int,
) -> Seq<EventV> {
    seq![
        EventV::Tick { shutdown: false, now: now1 },
        EventV::Reply { frame: hs_reply, now: now2 },
        EventV::Reply { frame: ack_reply, now: now3 },
        EventV::Tick { shutdown: false, now: now4 },
    ]
}

/// After the renewal threshold elapses, exactly one re-handshake and
/// re-subscribe pair occurs before the next poll: a polling engine whose
/// session is due sends a handshake on the tick, a subscribe on the
/// successful response — under the renewed session identifier — returns to
/// polling on the acknowledgment, and polls again on the next tick. No
/// other frame intervenes.
pub proof fn lemma_renewal_pair(
    e: EngineV,
    hs_reply: Seq<ElemV>,
    ack_reply: Seq<ElemV>,
    now1: int,
    now2: int,
    now3: int,
    now4: int,
)
    requires
        e.state == EngineState::Polling,
        e.session is Some,
        renew_due(e.session->Some_0.established_at, e.renewal_threshold, now1),
        spec_handshake_result(hs_reply) is Some,
        !renew_due(now2, e.renewal_threshold, now4),
    ensures
        ({
            let evs = renewal_events(hs_reply, ack_reply, now1, now2, now3, now4);
            let cid = spec_handshake_result(hs_reply)->Some_0;
            &&& action_at(e, evs, 0) == ActionV::Send(OutFrameV::Handshake {
                id: e.next_request_id,
            })
            &&& action_at(e, evs, 1) == ActionV::Send(OutFrameV::Subscribe {
                id: e.next_request_id + 1,
                client_id: cid,
                subscription: spec_subscription_channel(e.subject_id),
                access_token: e.credential,
                timestamp: now2,
            })
            &&& action_at(e, evs, 2) == ActionV::Idle
            &&& engine_at(e, evs, 3).session == Some(SessionV {
                session_id: cid,
                established_at: now2,
            })
            &&& action_at(e, evs, 3) == ActionV::Send(OutFrameV::Connect {
                id: e.next_request_id + 2,
                client_id: cid,
            })
        }),
{
    let evs = renewal_events(hs_reply, ack_reply, now1, now2, now3, now4);
    assert(engine_at(e, evs, 1) == spec_step(e, evs[0]).engine);
    assert(engine_at(e, evs, 2) == spec_step(engine_at(e, evs, 1), evs[1]).engine);
    assert(engine_at(e, evs, 3) == spec_step(engine_at(e, evs, 2), evs[2]).engine);
    assert(engine_at(e, evs, 1) == spec_handshake_step(e).engine);
}

} // verus!
