//! Core of a tunnel-agent control plane: discovery of a reachable tunnel
//! server by a ping/pong probe, authenticated registration of a signed agent
//! key bound to that endpoint, and the steady-state keyed UDP data channel
//! with address-migration bookkeeping and timed keepalive/re-authentication.
//!
//! - [`addr`]: plain-value model of UDP endpoints.
//! - [`udp_proto`]: the flow-footer codec at the tail of tunnelled datagrams,
//!   with a proved encode/parse round trip.
//! - [`proto`]: the control-feed message model and the trusted encoders for
//!   the control RPC wire format.
//! - [`setup`]: the endpoint prober and the registration authenticator, as
//!   verified state machines whose transport actions a driving loop performs.
//! - [`udp_channel`]: the session channel: details, bounded address history,
//!   liveness timestamps, and receive classification.

pub mod addr;
pub mod proto;
pub mod setup;
pub mod udp_channel;
pub mod udp_proto;

use vstd::prelude::*;

verus! {

} // verus!
