//! The session protocol engine.
//!
//! A pure state machine that drives the handshake, subscribe, connect cycle
//! against the broker. The engine owns the session identity and the
//! request-sequence counter; it never touches a socket or a clock. The
//! surrounding program runs the loop: it asks the engine what to do next
//! ([`Engine::step`]), performs the returned [`Action`] (send a frame over
//! the transport, deliver an alert, stop), and feeds the outcome back as
//! the next [`Event`].

use vstd::prelude::*;

use crate::codec::{OutFrame, OutFrameV};
use crate::decode::{decode, handshake_result, parse_response, response_of, subscribe_acked,
    Alert, ElemV, ResponseFrame, spec_decode, spec_handshake_result, spec_subscribe_acked};

verus! {

/// How long a session may serve before the engine proactively renews it,
/// in seconds.
pub const RENEWAL_THRESHOLD_SECS: u64 = 3600;

/// Where the engine stands in the protocol cycle.
#[derive(Clone, Copy, PartialEq, Eq, Structural)]
pub enum EngineState {
    /// No session; a handshake goes out on the next cycle.
    Unestablished,
    /// A handshake frame is out; its response is awaited.
    Handshaking,
    /// A subscribe frame is out; its acknowledgment is awaited.
    Subscribing,
    /// A session is established and subscribed; a connect poll goes out on
    /// the next cycle.
    Polling,
    /// A connect frame is out; its response is awaited.
    Connecting,
    /// Shutdown was observed; the engine sends nothing further.
    Stopped,
}

/// An established session: the identifier the broker granted and the time
/// it was granted, in seconds. Replaced whole on renewal, never mutated.
pub struct Session {
    pub session_id: String,
    pub established_at: u64,
}

/// Mathematical image of a [`Session`].
#[verifier::ext_equal]
pub ghost struct SessionV {
    pub session_id: Seq<char>,
    pub established_at: int,
}

impl View for Session {
    type V = SessionV;

    open spec fn view(&self) -> SessionV {
        SessionV { session_id: self.session_id@, established_at: self.established_at as int }
    }
}

/// What the driving loop reports to the engine.
pub enum Event {
    /// Top of a loop iteration: the non-blocking shutdown check and the
    /// current time, taken before any network operation.
    Tick { shutdown: bool, now: u64 },
    /// The transport completed an exchange and this frame came back.
    Reply { frame: ResponseFrame, now: u64 },
    /// The exchange failed or its response was malformed.
    Failed,
}

/// Mathematical image of an [`Event`].
#[verifier::ext_equal]
pub ghost enum EventV {
    Tick { shutdown: bool, now: int },
    Reply { frame: Seq<ElemV>, now: int },
    Failed,
}

impl View for Event {
    type V = EventV;

    open spec fn view(&self) -> EventV {
        match self {
            Event::Tick { shutdown, now } => {
                EventV::Tick { shutdown: *shutdown, now: *now as int }
            },
            Event::Reply { frame, now } => EventV::Reply { frame: frame@, now: *now as int },
            Event::Failed => EventV::Failed,
        }
    }
}

/// What the driving loop must do next.
pub enum Action {
    /// Send this frame over the transport and report the outcome as a
    /// [`Event::Reply`] or [`Event::Failed`].
    Send(OutFrame),
    /// Hand this alert to the notification sink, then tick again.
    Deliver(Alert),
    /// Nothing to perform; tick again.
    Idle,
    /// Close the transport and end the loop.
    Stop,
}

/// Mathematical image of an [`Action`].
#[verifier::ext_equal]
pub ghost enum ActionV {
    Send(OutFrameV),
    Deliver(Seq<char>),
    Idle,
    Stop,
}

impl View for Action {
    type V = ActionV;

    open spec fn view(&self) -> ActionV {
        match self {
            Action::Send(f) => ActionV::Send(f@),
            Action::Deliver(a) => ActionV::Deliver(a@),
            Action::Idle => ActionV::Idle,
            Action::Stop => ActionV::Stop,
        }
    }
}

/// The session protocol engine. All protocol state lives in this one
/// value: at any instant it holds at most one session, and its request
/// counter grows by exactly one for every frame it emits.
pub struct Engine {
    pub state: EngineState,
    pub next_request_id: u64,
    pub session: Option<Session>,
    pub subject_id: String,
    pub credential: String,
    pub renewal_threshold: u64,
    pub sub_acked: bool,
}

/// Mathematical image of an [`Engine`].
#[verifier::ext_equal]
pub ghost struct EngineV {
    pub state: EngineState,
    pub next_request_id: int,
    pub session: Option<SessionV>,
    pub subject_id: Seq<char>,
    pub credential: Seq<char>,
    pub renewal_threshold: int,
    pub sub_acked: bool,
}

impl View for Engine {
    type V = EngineV;

    open spec fn view(&self) -> EngineV {
        EngineV {
            state: self.state,
            next_request_id: self.next_request_id as int,
            session: match self.session {
                Some(s) => Some(s@),
                None => None,
            },
            subject_id: self.subject_id@,
            credential: self.credential@,
            renewal_threshold: self.renewal_threshold as int,
            sub_acked: self.sub_acked,
        }
    }
}

/// One step of the state machine together with what it asks of the loop.
#[verifier::ext_equal]
pub ghost struct StepV {
    pub engine: EngineV,
    pub action: ActionV,
}

/// The engine as it starts: no session, the request counter at one.
pub open spec fn spec_init(
    subject_id: Seq<char>,
    credential: Seq<char>,
    renewal_threshold: int,
) -> EngineV {
    EngineV {
        state: EngineState::Unestablished,
        next_request_id: 1,
        session: None,
        subject_id: subject_id,
        credential: credential,
        renewal_threshold: renewal_threshold,
        sub_acked: false,
    }
}

/// Whether a session established at `established_at` is due for renewal at
/// `now`, given the threshold.
pub open spec fn renew_due(established_at: int, threshold: int, now: int) -> bool {
    now - established_at > threshold
}

/// The channel a subject's notifications arrive on.
pub open spec fn spec_subscription_channel(subject_id: Seq<char>) -> Seq<char> {
    "/user/"@ + subject_id
}

/// Emitting a handshake: the counter advances, the state turns to
/// [`EngineState::Handshaking`], and the frame carries the old counter.
pub open spec fn spec_handshake_step(e: EngineV) -> StepV {
    StepV {
        engine: (EngineV {
            state: EngineState::Handshaking,
            next_request_id: e.next_request_id + 1,
            ..e
        }),
        action: ActionV::Send(OutFrameV::Handshake { id: e.next_request_id }),
    }
}

/// The transition function of the engine: from a state and an event to the
/// next state and the action the loop must perform. Total: every event is
/// answered in every state.
pub open spec fn spec_step(e: EngineV, ev: EventV) -> StepV {
    match ev {
        EventV::Tick { shutdown, now } => {
            if e.state == EngineState::Stopped {
                StepV { engine: e, action: ActionV::Stop }
            } else if shutdown {
                StepV {
                    engine: (EngineV { state: EngineState::Stopped, ..e }),
                    action: ActionV::Stop,
                }
            } else if e.state == EngineState::Unestablished {
                spec_handshake_step(e)
            } else if e.state == EngineState::Polling {
                match e.session {
                    Some(s) => {
                        if renew_due(s.established_at, e.renewal_threshold, now) {
                            spec_handshake_step(e)
                        } else {
                            StepV {
                                engine: (EngineV {
                                    state: EngineState::Connecting,
                                    next_request_id: e.next_request_id + 1,
                                    ..e
                                }),
                                action: ActionV::Send(OutFrameV::Connect {
                                    id: e.next_request_id,
                                    client_id: s.session_id,
                                }),
                            }
                        }
                    },
                    None => spec_handshake_step(e),
                }
            } else {
                StepV { engine: e, action: ActionV::Idle }
            }
        },
        EventV::Reply { frame, now } => {
            if e.state == EngineState::Stopped {
                StepV { engine: e, action: ActionV::Stop }
            } else if e.state == EngineState::Handshaking {
                match spec_handshake_result(frame) {
                    Some(cid) => StepV {
                        engine: (EngineV {
                            state: EngineState::Subscribing,
                            next_request_id: e.next_request_id + 1,
                            session: Some(SessionV { session_id: cid, established_at: now }),
                            sub_acked: false,
                            ..e
                        }),
                        action: ActionV::Send(OutFrameV::Subscribe {
                            id: e.next_request_id,
                            client_id: cid,
                            subscription: spec_subscription_channel(e.subject_id),
                            access_token: e.credential,
                            timestamp: now,
                        }),
                    },
                    None => StepV {
                        engine: (EngineV {
                            state: EngineState::Unestablished,
                            session: None,
                            ..e
                        }),
                        action: ActionV::Idle,
                    },
                }
            } else if e.state == EngineState::Subscribing {
                StepV {
                    engine: (EngineV {
                        state: EngineState::Polling,
                        sub_acked: spec_subscribe_acked(frame),
                        ..e
                    }),
                    action: ActionV::Idle,
                }
            } else if e.state == EngineState::Connecting {
                StepV {
                    engine: (EngineV { state: EngineState::Polling, ..e }),
                    action: match spec_decode(frame) {
                        Some(body) => ActionV::Deliver(body),
                        None => ActionV::Idle,
                    },
                }
            } else {
                StepV { engine: e, action: ActionV::Idle }
            }
        },
        EventV::Failed => {
            if e.state == EngineState::Stopped {
                StepV { engine: e, action: ActionV::Stop }
            } else if e.state == EngineState::Handshaking {
                StepV {
                    engine: (EngineV { state: EngineState::Unestablished, session: None, ..e }),
                    action: ActionV::Idle,
                }
            } else if e.state == EngineState::Subscribing || e.state == EngineState::Connecting {
                StepV {
                    engine: (EngineV { state: EngineState::Polling, ..e }),
                    action: ActionV::Idle,
                }
            } else {
                StepV { engine: e, action: ActionV::Idle }
            }
        },
    }
}

/// Turns one wire response into the event it means to the engine: a reply
/// holding the extracted frame for well-formed text, a failure report for
/// malformed text.
pub fn response_event(text: &str, now: u64) -> (ev: Event)
    ensures
        response_of(text@) matches Some(f) ==> ev@ == (EventV::Reply {
            frame: f,
            now: now as int,
        }),
        response_of(text@) is None ==> ev@ == EventV::Failed,
{
    match parse_response(text) {
        Some(frame) => Event::Reply { frame, now },
        None => Event::Failed,
    }
}

impl Engine {
    /// A fresh engine for `subject_id`, authorized by `credential`,
    /// renewing its session once `renewal_threshold` seconds elapse.
    pub fn new(subject_id: String, credential: String, renewal_threshold: u64) -> (r: Engine)
        ensures
            r@ == spec_init(subject_id@, credential@, renewal_threshold as int),
    {
        Engine {
            state: EngineState::Unestablished,
            next_request_id: 1,
            session: None,
            subject_id,
            credential,
            renewal_threshold,
            sub_acked: false,
        }
    }

    fn emit_handshake(&mut self) -> (r: Action)
        requires
            old(self).next_request_id < u64::MAX,
        ensures
            final(self)@ == spec_handshake_step(old(self)@).engine,
            r@ == spec_handshake_step(old(self)@).action,
    {
        let a = Action::Send(OutFrame::Handshake { id: self.next_request_id });
        self.state = EngineState::Handshaking;
        self.next_request_id = self.next_request_id + 1;
        a
    }

    /// Advances the machine by one event and says what to do next. The
    /// whole behaviour is [`spec_step`]: in particular a frame goes out
    /// only on a handshake-due tick, a successful handshake reply, or a
    /// poll-due tick, and each frame carries the counter's value at the
    /// moment it was emitted, advancing it by one.
    pub fn step(&mut self, ev: Event) -> (r: Action)
        requires
            old(self).next_request_id < u64::MAX,
        ensures
            final(self)@ == spec_step(old(self)@, ev@).engine,
            r@ == spec_step(old(self)@, ev@).action,
    {
        match ev {
            Event::Tick { shutdown, now } => {
                if self.state == EngineState::Stopped {
                    Action::Stop
                } else if shutdown {
                    self.state = EngineState::Stopped;
                    Action::Stop
                } else if self.state == EngineState::Unestablished {
                    self.emit_handshake()
                } else if self.state == EngineState::Polling {
                    let connect_to: Option<String> = match &self.session {
                        Some(s) => {
                            if now > s.established_at
                                && now - s.established_at > self.renewal_threshold {
                                None
                            } else {
                                Some(s.session_id.clone())
                            }
                        },
                        None => None,
                    };
                    match connect_to {
                        Some(client_id) => {
                            let a = Action::Send(OutFrame::Connect {
                                id: self.next_request_id,
                                client_id,
                            });
                            self.state = EngineState::Connecting;
                            self.next_request_id = self.next_request_id + 1;
                            a
                        },
                        None => self.emit_handshake(),
                    }
                } else {
                    Action::Idle
                }
            },
            Event::Reply { frame, now } => {
                if self.state == EngineState::Stopped {
                    Action::Stop
                } else if self.state == EngineState::Handshaking {
                    match handshake_result(&frame) {
                        Some(cid) => {
                            let mut subscription = String::from_str("/user/");
                            subscription.append(self.subject_id.as_str());
                            let a = Action::Send(OutFrame::Subscribe {
                                id: self.next_request_id,
                                client_id: cid.clone(),
                                subscription,
                                access_token: self.credential.clone(),
                                timestamp: now,
                            });
                            self.session = Some(Session {
                                session_id: cid,
                                established_at: now,
                            });
                            self.state = EngineState::Subscribing;
                            self.sub_acked = false;
                            self.next_request_id = self.next_request_id + 1;
                            a
                        },
                        None => {
                            self.state = EngineState::Unestablished;
                            self.session = None;
                            Action::Idle
                        },
                    }
                } else if self.state == EngineState::Subscribing {
                    self.sub_acked = subscribe_acked(&frame);
                    self.state = EngineState::Polling;
                    Action::Idle
                } else if self.state == EngineState::Connecting {
                    self.state = EngineState::Polling;
                    match decode(&frame) {
                        Some(alert) => Action::Deliver(alert),
                        None => Action::Idle,
                    }
                } else {
                    Action::Idle
                }
            },
            Event::Failed => {
                if self.state == EngineState::Stopped {
                    Action::Stop
                } else if self.state == EngineState::Handshaking {
                    self.state = EngineState::Unestablished;
                    self.session = None;
                    Action::Idle
                } else if self.state == EngineState::Subscribing
                    || self.state == EngineState::Connecting {
                    self.state = EngineState::Polling;
                    Action::Idle
                } else {
                    Action::Idle
                }
            },
        }
    }
}

} // verus!
