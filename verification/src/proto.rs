//! Control-feed message model and the trusted encoders for the control RPC
//! wire format, plus hex decoding of the signed agent key.

use vstd::prelude::*;

use crate::addr::NetAddr;
use crate::udp_proto::{be4, be8};

verus! {

/// The server's reply to an initial ping: the agent's public address as the
/// server saw it, and the server's self-reported address, with timing and
/// identity metadata.
#[derive(Clone, Copy, PartialEq, Eq, Debug)]
pub struct Pong {
    pub request_now: u64,
    pub server_now: u64,
    pub server_id: u64,
    pub data_center_id: u32,
    pub client_addr: NetAddr,
    pub tunnel_addr: NetAddr,
    pub session_expire_at: Option<u64>,
}

/// Identity of a registered agent session.
#[derive(Clone, Copy, PartialEq, Eq, Structural, Debug)]
pub struct AgentSessionId {
    pub session_id: u64,
    pub account_id: u64,
    pub agent_id: u64,
}

/// A successful registration: the session identity and its expiry.
#[derive(Clone, Copy, PartialEq, Eq, Structural, Debug)]
pub struct AgentRegistered {
    pub id: AgentSessionId,
    pub expires_at: u64,
}

/// The payload of a control response.
#[derive(Clone, Copy, PartialEq, Eq, Debug)]
pub enum ResponseContent {
    Pong(Pong),
    InvalidSignature,
    Unauthorized,
    RequestQueued,
    TryAgainLater,
    AgentRegistered(AgentRegistered),
    AgentPortMapping,
    UdpChannelDetails,
}

/// One message of the control feed, reduced to the values the session setup
/// reads: a response to a numbered request, or an unrelated new-client feed
/// entry.
#[derive(Clone, Copy, PartialEq, Eq, Debug)]
pub enum FeedMessage {
    Response { request_id: u64, content: ResponseContent },
    NewClient,
}

/// The wire tag of a ping request in the control RPC framing.
pub const PING_REQUEST_TAG: u32 = 6;

/// The control-RPC encoding of a ping carrying `request_id` and the
/// timestamp `now_milli`: the big-endian request id, the ping request tag,
/// the timestamp, and one zero byte each for the absent current-ping and
/// session-id fields.
pub open spec fn ping_bytes(request_id: u64, now_milli: u64) -> Seq<u8> {
    be8(request_id) + be4(PING_REQUEST_TAG) + be8(now_milli) + seq![0u8, 0u8]
}

/// The control-RPC encoding of a raw-bytes registration request: the
/// big-endian request id followed by the decoded signed key verbatim.
pub open spec fn register_bytes(request_id: u64, key: Seq<u8>) -> Seq<u8> {
    be8(request_id) + key
}

/// Relies on playit_agent_proto's `ControlRpcMessage<ControlRequest>` with
/// `message_encoding::MessageEncoding::write_to`: serialising a `Ping` is
/// infallible into a growable buffer and writes the big-endian request id,
/// the ping request tag, the big-endian timestamp, and one zero byte for
/// each of the two absent optional fields.
#[verifier::external_body]
pub fn encode_ping(request_id: u64, now_milli: u64) -> (r: Vec<u8>)
    ensures
        r@ == ping_bytes(request_id, now_milli),
{
    let msg = playit_agent_proto::rpc::ControlRpcMessage {
        request_id,
        content: playit_agent_proto::control_messages::ControlRequest::Ping(
            playit_agent_proto::control_messages::Ping {
                now: now_milli,
                current_ping: None,
                session_id: None,
            },
        ),
    };
    let mut buffer = Vec::new();
    let _ = message_encoding::MessageEncoding::write_to(&msg, &mut buffer);
    buffer
}

/// Relies on playit_agent_proto's `ControlRpcMessage<RawSlice>` with
/// `message_encoding::MessageEncoding::write_to`: serialising a raw-bytes
/// request is infallible into a growable buffer and writes the big-endian
/// request id followed by the bytes verbatim.
#[verifier::external_body]
pub fn encode_register(request_id: u64, key: &Vec<u8>) -> (r: Vec<u8>)
    ensures
        r@ == register_bytes(request_id, key@),
{
    let msg = playit_agent_proto::rpc::ControlRpcMessage {
        request_id,
        content: playit_agent_proto::raw_slice::RawSlice(key.as_slice()),
    };
    let mut buffer = Vec::new();
    let _ = message_encoding::MessageEncoding::write_to(&msg, &mut buffer);
    buffer
}

/// The numeric value of a hex digit, or `-1` for any other character.
pub open spec fn hex_digit_val(c: char) -> int {
    let v = c as u32;
    if 48 <= v && v <= 57 {
        v - 48
    } else if 97 <= v && v <= 102 {
        v - 87
    } else if 65 <= v && v <= 70 {
        v - 55
    } else {
        -1
    }
}

/// A valid hex string: even length, hex digits only (either case).
pub open spec fn valid_hex(s: Seq<char>) -> bool {
    s.len() % 2 == 0 && forall|i: int| 0 <= i < s.len() ==> hex_digit_val(s[i]) >= 0
}

/// The bytes a valid hex string denotes, one per digit pair.
pub open spec fn hex_bytes(s: Seq<char>) -> Seq<u8> {
    Seq::new((s.len() / 2) as nat, |i: int| (hex_digit_val(s[2 * i]) * 16 + hex_digit_val(s[2 * i + 1])) as u8)
}

/// Relies on hex::decode: it succeeds exactly on even-length strings of hex
/// digits (upper or lower case), yielding the pairwise digit values.
#[verifier::external_body]
pub fn hex_decode(s: &String) -> (r: Option<Vec<u8>>)
    ensures
        r is Some <==> valid_hex(s@),
        r is Some ==> r.unwrap()@ == hex_bytes(s@),
{
    match hex::decode(s.as_str()) {
        Ok(v) => Some(v),
        Err(_) => None,
    }
}

} // verus!
