use vstd::prelude::*;
use vstd::string::*;
use crate::frame::{
    decode_header, decode_spec, encode_frame, header_bytes, ProtocolError, MSG_CONNECT, MSG_ERROR, MSG_NOT_FOUND,
    MSG_SUCCESS,
};
use crate::value::{
    decode_msgpack, encode_msgpack, field, get_field, msgpack_decoding, msgpack_encoding, str_value,
    unique_keys, Json,
};

verus! {

/// Why a request did not produce a value.
#[derive(Debug, PartialEq)]
pub enum ClientError {
    /// The socket could not be opened, written or read, or the session is closed.
    Connection,
    /// The peer broke the framing rules.
    Protocol(ProtocolError),
    /// The server reported an application error with this message.
    Remote(String),
    /// The server reported that the target does not exist.
    NotFound,
    /// A payload could not be encoded or decoded.
    Serialization,
}

/// Where the single connection stands.
#[derive(Clone, Copy, Debug, PartialEq, Eq, Structural)]
pub enum ConnState {
    Disconnected,
    Connecting,
    Connected,
    Closed,
}

/// The frame that carries `v` under message type `t`, when `v` encodes to a payload
/// whose length fits the header's length field.
pub open spec fn request_frame(t: u8, v: Json) -> Option<Seq<u8>> {
    match msgpack_encoding(v) {
        Some(b) => if b.len() <= u32::MAX {
            Some(header_bytes(t, b.len() as u32) + b)
        } else {
            None
        },
        None => None,
    }
}

/// The message that an error reply carries: its string field `error`, else "Unknown error".
pub open spec fn error_text(data: Json) -> Seq<char> {
    match field(data, "error"@) {
        Some(Json::Str(s)) => s@,
        _ => "Unknown error"@,
    }
}

/// Encodes `v` and frames it under message type `t`, ready to be written to the stream.
pub fn build_frame(t: u8, v: &Json) -> (r: Result<Vec<u8>, ClientError>)
    ensures
        match r {
            Ok(f) => request_frame(t, *v) == Some(f@),
            Err(e) => request_frame(t, *v) is None && e == ClientError::Serialization,
        },
{
    match encode_msgpack(v) {
        Some(payload) => {
            if payload.len() > 0xFFFF_FFFFusize {
                Err(ClientError::Serialization)
            } else {
                Ok(encode_frame(t, &payload))
            }
        },
        None => Err(ClientError::Serialization),
    }
}

/// The message of an error reply.
pub fn error_message(data: &Json) -> (r: String)
    ensures
        r@ == error_text(*data),
{
    match get_field(data, "error") {
        Some(Json::Str(s)) => s.clone(),
        _ => String::from_str("Unknown error"),
    }
}

/// What a reply of type `t` whose payload decoded to `data` means to the caller.
pub fn reply_outcome(t: u8, data: Json) -> (r: Result<Json, ClientError>)
    ensures
        t == MSG_SUCCESS ==> r == Ok::<Json, ClientError>(data),
        t == MSG_ERROR ==> (r matches Err(ClientError::Remote(m)) && m@ == error_text(data)),
        t == MSG_NOT_FOUND ==> r == Err::<Json, ClientError>(ClientError::NotFound),
        t != MSG_SUCCESS && t != MSG_ERROR && t != MSG_NOT_FOUND ==> r == Err::<Json, ClientError>(
            ClientError::Protocol(ProtocolError::UnknownResponseType(t)),
        ),
{
    if t == MSG_SUCCESS {
        Ok(data)
    } else if t == MSG_ERROR {
        Err(ClientError::Remote(error_message(&data)))
    } else if t == MSG_NOT_FOUND {
        Err(ClientError::NotFound)
    } else {
        Err(ClientError::Protocol(ProtocolError::UnknownResponseType(t)))
    }
}

/// What a reply frame of type `t` with `payload` means to the caller.
pub open spec fn reply_matches(t: u8, payload: Seq<u8>, r: Result<Json, ClientError>) -> bool {
    if t != MSG_SUCCESS && t != MSG_ERROR {
        r == reply_outcome_spec(t)
    } else {
        match msgpack_decoding(payload) {
            None => r == Err::<Json, ClientError>(ClientError::Serialization),
            Some(data) => if t == MSG_SUCCESS {
                r == Ok::<Json, ClientError>(data)
            } else {
                r is Err && r->Err_0 is Remote && r->Err_0->Remote_0@ == error_text(data)
            },
        }
    }
}

/// Interprets a reply frame of type `t` with `payload`. An unknown type is refused
/// before the payload is looked at, and a not-found reply needs no payload.
pub fn interpret_reply(t: u8, payload: &[u8]) -> (r: Result<Json, ClientError>)
    ensures
        reply_matches(t, payload@, r),
{
    if t != MSG_SUCCESS && t != MSG_ERROR {
        if t == MSG_NOT_FOUND {
            return Err(ClientError::NotFound);
        }
        return Err(ClientError::Protocol(ProtocolError::UnknownResponseType(t)));
    }
    match decode_msgpack(payload) {
        Some(data) => reply_outcome(t, data),
        None => Err(ClientError::Serialization),
    }
}

/// The outcome of a reply whose type needs no payload.
pub open spec fn reply_outcome_spec(t: u8) -> Result<Json, ClientError> {
    if t == MSG_NOT_FOUND {
        Err(ClientError::NotFound)
    } else {
        Err(ClientError::Protocol(ProtocolError::UnknownResponseType(t)))
    }
}

/// Interprets a reply as read from the stream: its twelve header bytes, then the
/// payload bytes that could be read. Fewer than the header announces is `Truncated`.
pub fn reply_from_frame(header: &[u8], payload: &[u8]) -> (r: Result<Json, ClientError>)
    ensures
        match decode_spec(header@) {
            Err(e) => r == Err::<Json, ClientError>(ClientError::Protocol(e)),
            Ok(h) => if payload@.len() != h.payload_length {
                r == Err::<Json, ClientError>(ClientError::Protocol(ProtocolError::Truncated))
            } else {
                reply_matches(h.message_type, payload@, r)
            },
        },
{
    match decode_header(header) {
        Err(e) => Err(ClientError::Protocol(e)),
        Ok(h) => {
            if payload.len() != h.payload_length as usize {
                Err(ClientError::Protocol(ProtocolError::Truncated))
            } else {
                interpret_reply(h.message_type, payload)
            }
        },
    }
}

/// The handshake payload: `{username, password}`.
pub fn connect_request(username: &str, password: &str) -> (r: Json)
    ensures
        r matches Json::Object(f) && f@.len() == 2 && f@[0].0@ == "username"@ && f@[1].0@
            == "password"@ && (f@[0].1 matches Json::Str(u) && u@ == username@) && (
        f@[1].1 matches Json::Str(p) && p@ == password@),
        r is Object && unique_keys(r->Object_0@),
{
    proof {
        reveal_strlit("username");
        reveal_strlit("password");
        assert("username"@[0] != "password"@[0]);
    }
    let mut f: Vec<(String, Json)> = Vec::new();
    f.push((String::from_str("username"), str_value(username)));
    f.push((String::from_str("password"), str_value(password)));
    Json::Object(f)
}

/// The connection's lifecycle: `Disconnected -> Connecting -> Connected -> Closed`.
pub struct Connection {
    pub state: ConnState,
}

impl Connection {
    pub fn new() -> (r: Connection)
        ensures
            r.state == ConnState::Disconnected,
    {
        Connection { state: ConnState::Disconnected }
    }

    /// The stream is being opened; returns the message type of the handshake to send.
    pub fn begin_connect(&mut self) -> (t: u8)
        requires
            old(self).state == ConnState::Disconnected,
        ensures
            final(self).state == ConnState::Connecting,
            t == MSG_CONNECT,
    {
        self.state = ConnState::Connecting;
        MSG_CONNECT
    }

    /// Records how the handshake went: a success makes the session usable; any
    /// failure closes it, to be reported and not retried.
    pub fn finish_connect(&mut self, reply: Result<Json, ClientError>) -> (r: Result<(), ClientError>)
        requires
            old(self).state == ConnState::Connecting,
        ensures
            reply is Ok ==> final(self).state == ConnState::Connected && r is Ok,
            reply is Err ==> final(self).state == ConnState::Closed && r == Err::<(), ClientError>(
                reply->Err_0,
            ),
    {
        match reply {
            Ok(_) => {
                self.state = ConnState::Connected;
                Ok(())
            },
            Err(e) => {
                self.state = ConnState::Closed;
                Err(e)
            },
        }
    }

    /// Whether a request may be sent now: only on a connected session.
    pub fn check_open(&self) -> (r: Result<(), ClientError>)
        ensures
            self.state == ConnState::Connected ==> r is Ok,
            self.state != ConnState::Connected ==> r == Err::<(), ClientError>(ClientError::Connection),
    {
        if self.state == ConnState::Connected {
            Ok(())
        } else {
            Err(ClientError::Connection)
        }
    }

    /// Records the outcome of one exchange: a socket failure closes the session,
    /// anything else leaves it as it was.
    pub fn after_exchange(&mut self, outcome: &Result<Json, ClientError>)
        ensures
            (outcome matches Err(ClientError::Connection)) ==> final(self).state == ConnState::Closed,
            !(outcome matches Err(ClientError::Connection)) ==> final(self).state == old(self).state,
    {
        if let Err(ClientError::Connection) = outcome {
            self.state = ConnState::Closed;
        }
    }

    /// Releases the connection; later requests fail with `Connection`.
    pub fn close(&mut self)
        ensures
            final(self).state == ConnState::Closed,
    {
        self.state = ConnState::Closed;
    }
}

} // verus!
