//! Core logic of a terminal chat client: the push-notification session
//! engine (handshake / subscribe / connect cycle against a Bayeux-style
//! broker), the frame codec, the notification decoder, and the small pure
//! pieces of list navigation, input editing and message shaping that the
//! surrounding program uses.

pub mod codec;
pub mod config;
pub mod decode;
pub mod engine;
pub mod input;
pub mod laws;
pub mod lists;
pub mod messages;

pub use codec::{encode_frame, u64_to_dec, ConnectionKind, OutFrame};
pub use config::Config;
pub use decode::{decode, handshake_result, parse_response, subscribe_acked, Alert, ResponseElem,
    ResponseFrame};
pub use engine::{response_event, Action, Engine, EngineState, Event, Session,
    RENEWAL_THRESHOLD_SECS};
pub use input::{key_action, DispMode, InputAction, InputLine, Key, Modes};
pub use lists::{DirectMessage, GroupInfo, Lists, MsgInfo};
pub use messages::{clean_str, contains_user, image_urls, unescape_message_text, Attachment};
