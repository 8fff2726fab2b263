//! Session setup: the endpoint prober that finds a responsive tunnel server
//! and the authenticator that registers a signed agent key with it. Both are
//! explicit finite state machines: each step consumes the outcome of the
//! previous transport action and decides the next one, so every decision is
//! verified while the transport work (bind, send, timed receive, sleep) is
//! driven by the caller.

use vstd::prelude::*;

use crate::addr::NetAddr;
use crate::proto::{
    encode_ping, encode_register, hex_bytes, hex_decode, ping_bytes, register_bytes,
    valid_hex, AgentRegistered, FeedMessage, Pong, ResponseContent,
};

verus! {

/// Outcome taxonomy of a setup pass.
#[derive(Clone, PartialEq, Eq, Debug)]
pub enum SetupError {
    /// Transport-level failure (bind, send, receive).
    IoError,
    /// Every candidate, or every registration round, was exhausted.
    FailedToConnect,
    /// The auth service failed the request, with its serialised detail.
    ApiFail(String),
    /// The auth service answered with a structured error.
    ApiError(String),
    /// The auth service could not be reached.
    RequestError(String),
    /// The auth service returned a key that is not valid hex.
    FailedToDecodeSignedAgentRegisterHex,
    /// The auth service gave no answer at all.
    NoResponseFromAuthenticate,
    /// The tunnel server rejected the key's signature.
    RegisterInvalidSignature,
    /// The tunnel server refused the registration.
    RegisterUnauthorized,
}

/// Platform tag sent as metadata in the registration request.
#[derive(Clone, Copy, PartialEq, Eq, Structural, Debug)]
pub enum Platform {
    Windows,
    Linux,
    Freebsd,
    Macos,
    Android,
    Ios,
    Unknown,
}

/// The platform this agent reports. The tag is purely informational and must
/// never influence control flow; this portable build reports `Unknown`.
pub fn get_platform() -> (r: Platform)
    ensures
        r == Platform::Unknown,
{
    Platform::Unknown
}

/// The hex-encoded signed registration blob handed out by the auth service.
#[derive(Clone, PartialEq, Eq, Debug)]
pub struct SignedAgentKey {
    pub key: String,
}

/// Configuration of the external auth service endpoint.
#[derive(Clone, PartialEq, Eq, Debug)]
pub struct AuthApi {
    pub api_url: String,
    pub secret_key: String,
}

/// A configured client handle for the auth API.
#[derive(Clone, PartialEq, Eq, Debug)]
pub struct PlayitApi {
    pub api_url: String,
    pub secret_key: Option<String>,
}

impl AuthApi {
    /// An API client handle carrying this endpoint and its secret.
    pub fn api_client(&self) -> (r: PlayitApi)
        ensures
            r.api_url@ == self.api_url@,
            r.secret_key matches Some(k) && k@ == self.secret_key@,
    {
        PlayitApi {
            api_url: self.api_url.clone(),
            secret_key: Some(self.secret_key.clone()),
        }
    }
}

/// The external auth service: turns a pong into a signed agent key. The
/// session setup never relies on how an implementation behaves; whatever key
/// comes back is then validated by the registration state machine.
pub trait AuthenticationProvider {
    /// Requests a signed registration blob for the probed endpoint.
    fn authenticate(&self, pong: &Pong) -> Result<SignedAgentKey, SetupError>;
}

/// Agent software version metadata.
#[derive(Clone, PartialEq, Eq, Debug)]
pub struct AgentVersion {
    pub platform: Platform,
    pub version: String,
}

/// Agent build metadata for the registration request.
#[derive(Clone, PartialEq, Eq, Debug)]
pub struct PlayitAgentVersion {
    pub version: AgentVersion,
    pub official: bool,
    pub details_website: Option<String>,
}

/// The registration request for the auth service: build metadata plus the
/// addresses the probed server reported.
#[derive(Clone, PartialEq, Eq, Debug)]
pub struct ReqProtoRegister {
    pub agent_version: PlayitAgentVersion,
    pub client_addr: NetAddr,
    pub tunnel_addr: NetAddr,
}

/// Builds the registration request from the pong: the agent's public address
/// and the server's self-reported address, plus version metadata. The
/// platform tag is supplied by the caller (discovered at the build edge;
/// `get_platform` is the portable fallback) and is metadata only.
pub fn make_register_request(pong: &Pong, agent_version: String, platform: Platform) -> (r:
    ReqProtoRegister)
    ensures
        r.agent_version.version.platform == platform,
        r.agent_version.version.version@ == agent_version@,
        r.agent_version.official == true,
        r.agent_version.details_website is None,
        r.client_addr == pong.client_addr,
        r.tunnel_addr == pong.tunnel_addr,
{
    ReqProtoRegister {
        agent_version: PlayitAgentVersion {
            version: AgentVersion { platform, version: agent_version },
            official: true,
            details_website: None,
        },
        client_addr: pong.client_addr,
        tunnel_addr: pong.tunnel_addr,
    }
}

/// How many ping attempts a candidate gets: IPv6 paths either answer at once
/// or are considered down; IPv4 is retried more aggressively.
pub open spec fn attempts_for(a: NetAddr) -> u32 {
    if a is V6 {
        1u32
    } else {
        3u32
    }
}

/// How many 500 ms receive windows each attempt gets.
pub open spec fn waits_for(a: NetAddr) -> u32 {
    if a is V6 {
        3u32
    } else {
        5u32
    }
}

/// Where the prober stands: what transport action it awaits the outcome of.
#[derive(Clone, Copy, PartialEq, Eq, Structural, Debug)]
pub enum ProbePhase {
    /// Not started.
    Idle,
    /// A socket bind for the current candidate is in flight.
    AwaitBind,
    /// A ping send to the current candidate is in flight.
    AwaitSend,
    /// A timed receive is in flight.
    AwaitRecv,
    /// Connected or given up.
    Finished,
}

/// The next transport action the prober asks its driver to perform.
#[derive(Clone, PartialEq, Eq, Debug)]
pub enum ProbeAction {
    /// Bind a fresh ephemeral socket in the candidate's address family.
    Bind { ipv6: bool },
    /// Send `data` to `addr`.
    Send { addr: NetAddr, data: Vec<u8> },
    /// Await one datagram, for at most `wait_ms` milliseconds.
    Recv { wait_ms: u64 },
    /// A candidate answered with a pong: setup succeeded.
    Connected { control_addr: NetAddr, pong: Pong },
    /// Every candidate is exhausted.
    GiveUp,
}

/// The outcome of the transport action the prober last asked for.
#[derive(Clone, Copy, PartialEq, Eq, Debug)]
pub enum ProbeEvent {
    /// Nothing yet: start probing.
    Start,
    /// The bind succeeded.
    BindOk,
    /// The bind failed.
    BindFailed,
    /// The send went out.
    SendOk,
    /// The send failed.
    SendFailed,
    /// A datagram arrived from `peer`; `msg` is its parse as a control feed
    /// message, `None` when unparseable.
    Received { peer: NetAddr, msg: Option<FeedMessage> },
    /// The receive window elapsed without a datagram.
    Timeout,
    /// The receive failed.
    RecvError,
}

/// The pong carried by a control-feed reply to the initial ping (request id
/// 1) from the candidate itself, if the event is one.
pub open spec fn pong_reply_for(ev: ProbeEvent, cur: NetAddr) -> Option<Pong> {
    match ev {
        ProbeEvent::Received { peer, msg } => {
            if peer == cur {
                match msg {
                    Some(FeedMessage::Response { request_id, content }) => {
                        if request_id == 1 {
                            match content {
                                ResponseContent::Pong(p) => Some(p),
                                _ => None,
                            }
                        } else {
                            None
                        }
                    }
                    _ => None,
                }
            } else {
                None
            }
        }
        _ => None,
    }
}

/// Probes an ordered candidate list for the first tunnel server that answers
/// the initial ping, yielding the connected control endpoint.
pub struct SetupFindSuitableChannel {
    options: Vec<NetAddr>,
    idx: usize,
    attempt: u32,
    wait: u32,
    phase: ProbePhase,
}

/// The probed endpoint: the candidate that answered, with its pong. The
/// caller keeps the bound socket this arrived on.
#[derive(Clone, Copy, PartialEq, Eq, Debug)]
pub struct ConnectedControl {
    pub control_addr: NetAddr,
    pub pong: Pong,
}

impl SetupFindSuitableChannel {
    /// The candidate list.
    pub closed spec fn options_spec(&self) -> Seq<NetAddr> {
        self.options@
    }

    /// Index of the candidate currently being probed.
    pub closed spec fn idx_spec(&self) -> int {
        self.idx as int
    }

    /// Ping attempts already begun on the current candidate (0-based).
    pub closed spec fn attempt_spec(&self) -> u32 {
        self.attempt
    }

    /// Receive windows already consumed in the current attempt.
    pub closed spec fn wait_spec(&self) -> u32 {
        self.wait
    }

    /// The prober's phase.
    pub closed spec fn phase_spec(&self) -> ProbePhase {
        self.phase
    }

    /// The candidate currently being probed: the list entry at the current
    /// index.
    pub open spec fn cur(&self) -> NetAddr {
        self.options_spec()[self.idx_spec()]
    }

    /// Invariant: the index stays within the list while probing, and the
    /// counters stay below their per-candidate budgets.
    pub open spec fn wf(&self) -> bool {
        &&& self.idx_spec() <= self.options_spec().len()
        &&& self.phase_spec() is Idle ==> self.idx_spec() == 0
        &&& (self.phase_spec() is Idle || self.phase_spec() is AwaitBind) ==> self.attempt_spec()
            == 0
        &&& (self.phase_spec() is AwaitBind || self.phase_spec() is AwaitSend || self.phase_spec()
            is AwaitRecv) ==> self.idx_spec() < self.options_spec().len()
        &&& (self.phase_spec() is AwaitSend || self.phase_spec() is AwaitRecv)
            ==> self.attempt_spec() < attempts_for(self.cur())
        &&& self.phase_spec() is AwaitRecv ==> self.wait_spec() < waits_for(self.cur())
    }

    /// A fresh prober over `options`, not yet started.
    pub fn new(options: Vec<NetAddr>) -> (r: Self)
        ensures
            r.wf(),
            r.options_spec() == options@,
            r.idx_spec() == 0,
            r.attempt_spec() == 0,
            r.wait_spec() == 0,
            r.phase_spec() is Idle,
    {
        SetupFindSuitableChannel { options, idx: 0, attempt: 0, wait: 0, phase: ProbePhase::Idle }
    }

    /// The prober's phase, for the driving loop.
    pub fn phase(&self) -> (r: ProbePhase)
        ensures
            r == self.phase_spec(),
    {
        self.phase
    }

    /// Moves to the next candidate: bind a fresh socket for it, or give up
    /// when the list is exhausted.
    fn advance_candidate(&mut self) -> (r: ProbeAction)
        requires
            old(self).wf(),
            old(self).idx_spec() < old(self).options_spec().len(),
        ensures
            final(self).wf(),
            final(self).options_spec() == old(self).options_spec(),
            final(self).idx_spec() == old(self).idx_spec() + 1,
            final(self).attempt_spec() == 0,
            final(self).wait_spec() == 0,
            old(self).idx_spec() + 1 < old(self).options_spec().len() ==> {
                &&& final(self).phase_spec() is AwaitBind
                &&& r == (ProbeAction::Bind {
                    ipv6: old(self).options_spec()[old(self).idx_spec() + 1] is V6,
                })
            },
            old(self).idx_spec() + 1 == old(self).options_spec().len() ==> {
                &&& final(self).phase_spec() is Finished
                &&& r == ProbeAction::GiveUp
            },
    {
        let n: usize = self.options.len();
        self.idx = self.idx + 1;
        self.attempt = 0;
        self.wait = 0;
        if self.idx < n {
            self.phase = ProbePhase::AwaitBind;
            ProbeAction::Bind { ipv6: self.options[self.idx].is_ipv6() }
        } else {
            self.phase = ProbePhase::Finished;
            ProbeAction::GiveUp
        }
    }

    /// Issues a ping for the current attempt.
    fn issue_ping(&mut self, now_milli: u64) -> (r: ProbeAction)
        requires
            old(self).wf(),
            old(self).idx_spec() < old(self).options_spec().len(),
            old(self).attempt_spec() < attempts_for(old(self).cur()),
        ensures
            final(self).wf(),
            final(self).options_spec() == old(self).options_spec(),
            final(self).idx_spec() == old(self).idx_spec(),
            final(self).attempt_spec() == old(self).attempt_spec(),
            final(self).wait_spec() == 0,
            final(self).phase_spec() is AwaitSend,
            r matches ProbeAction::Send { addr, data } && addr == old(self).cur() && data@
                == ping_bytes(1, now_milli),
    {
        self.wait = 0;
        self.phase = ProbePhase::AwaitSend;
        let data = encode_ping(1, now_milli);
        ProbeAction::Send { addr: self.options[self.idx], data }
    }

    /// Consumes the outcome of the last requested action and decides the next
    /// one. The driving loop performs each returned action and feeds its
    /// outcome back in, with `now_milli` the current time in milliseconds.
    pub fn step(&mut self, event: ProbeEvent, now_milli: u64) -> (r: ProbeAction)
        requires
            old(self).wf(),
            !(old(self).phase_spec() is Finished),
            old(self).phase_spec() is Idle ==> event is Start,
            old(self).phase_spec() is AwaitBind ==> event is BindOk || event is BindFailed,
            old(self).phase_spec() is AwaitSend ==> event is SendOk || event is SendFailed,
            old(self).phase_spec() is AwaitRecv ==> event is Received || event is Timeout
                || event is RecvError,
        ensures
            final(self).wf(),
            final(self).options_spec() == old(self).options_spec(),
            // starting: bind for the first candidate, or give up on an empty list
            old(self).phase_spec() is Idle ==> {
                if old(self).options_spec().len() == 0 {
                    &&& final(self).phase_spec() is Finished
                    &&& r == ProbeAction::GiveUp
                } else {
                    &&& final(self).phase_spec() is AwaitBind
                    &&& final(self).idx_spec() == old(self).idx_spec()
                    &&& r == (ProbeAction::Bind {
                        ipv6: old(self).options_spec()[old(self).idx_spec()] is V6,
                    })
                }
            },
            // a bound socket starts the first attempt on this candidate
            old(self).phase_spec() is AwaitBind && event is BindOk ==> {
                &&& final(self).phase_spec() is AwaitSend
                &&& final(self).idx_spec() == old(self).idx_spec()
                &&& final(self).attempt_spec() == old(self).attempt_spec()
                &&& r matches ProbeAction::Send { addr, data } && addr == old(self).cur() && data@
                    == ping_bytes(1, now_milli)
            },
            // a failed bind abandons the candidate
            old(self).phase_spec() is AwaitBind && event is BindFailed ==> Self::advanced(
                old(self),
                final(self),
                r,
            ),
            // a sent ping opens the first receive window
            old(self).phase_spec() is AwaitSend && event is SendOk ==> {
                &&& final(self).phase_spec() is AwaitRecv
                &&& final(self).idx_spec() == old(self).idx_spec()
                &&& final(self).attempt_spec() == old(self).attempt_spec()
                &&& final(self).wait_spec() == 0
                &&& r == (ProbeAction::Recv { wait_ms: 500 })
            },
            // a failed send abandons the candidate (not just the attempt)
            old(self).phase_spec() is AwaitSend && event is SendFailed ==> Self::advanced(
                old(self),
                final(self),
                r,
            ),
            // an accepted pong finishes the probe
            old(self).phase_spec() is AwaitRecv && pong_reply_for(event, old(self).cur())
                is Some ==> {
                &&& final(self).phase_spec() is Finished
                &&& r == (ProbeAction::Connected {
                    control_addr: old(self).cur(),
                    pong: pong_reply_for(event, old(self).cur())->Some_0,
                })
            },
            // anything else consumes the current 500 ms window: further
            // windows, then further attempts, then the next candidate
            old(self).phase_spec() is AwaitRecv && pong_reply_for(event, old(self).cur())
                is None ==> {
                if old(self).wait_spec() + 1 < waits_for(old(self).cur()) {
                    &&& final(self).phase_spec() is AwaitRecv
                    &&& final(self).idx_spec() == old(self).idx_spec()
                    &&& final(self).attempt_spec() == old(self).attempt_spec()
                    &&& final(self).wait_spec() == old(self).wait_spec() + 1
                    &&& r == (ProbeAction::Recv { wait_ms: 500 })
                } else if old(self).attempt_spec() + 1 < attempts_for(old(self).cur()) {
                    &&& final(self).phase_spec() is AwaitSend
                    &&& final(self).idx_spec() == old(self).idx_spec()
                    &&& final(self).attempt_spec() == old(self).attempt_spec() + 1
                    &&& r matches ProbeAction::Send { addr, data } && addr == old(self).cur()
                        && data@ == ping_bytes(1, now_milli)
                } else {
                    Self::advanced(old(self), final(self), r)
                }
            },
    {
        match self.phase {
            ProbePhase::Idle => {
                if self.options.len() == 0 {
                    self.phase = ProbePhase::Finished;
                    ProbeAction::GiveUp
                } else {
                    self.phase = ProbePhase::AwaitBind;
                    ProbeAction::Bind { ipv6: self.options[self.idx].is_ipv6() }
                }
            }
            ProbePhase::AwaitBind => {
                match event {
                    ProbeEvent::BindOk => self.issue_ping(now_milli),
                    _ => self.advance_candidate(),
                }
            }
            ProbePhase::AwaitSend => {
                match event {
                    ProbeEvent::SendOk => {
                        self.wait = 0;
                        self.phase = ProbePhase::AwaitRecv;
                        ProbeAction::Recv { wait_ms: 500 }
                    }
                    _ => self.advance_candidate(),
                }
            }
            ProbePhase::AwaitRecv => {
                let cur_addr = self.options[self.idx];
                if let ProbeEvent::Received { peer, msg } = event {
                    if peer == cur_addr {
                        if let Some(FeedMessage::Response { request_id, content }) = msg {
                            if request_id == 1 {
                                if let ResponseContent::Pong(p) = content {
                                    self.phase = ProbePhase::Finished;
                                    return ProbeAction::Connected {
                                        control_addr: cur_addr,
                                        pong: p,
                                    };
                                }
                            }
                        }
                    }
                }
                let waits: u32 = if cur_addr.is_ipv6() {
                    3
                } else {
                    5
                };
                if self.wait + 1 < waits {
                    self.wait = self.wait + 1;
                    ProbeAction::Recv { wait_ms: 500 }
                } else {
                    let attempts: u32 = if cur_addr.is_ipv6() {
                        1
                    } else {
                        3
                    };
                    if self.attempt + 1 < attempts {
                        self.attempt = self.attempt + 1;
                        self.issue_ping(now_milli)
                    } else {
                        self.advance_candidate()
                    }
                }
            }
            ProbePhase::Finished => ProbeAction::GiveUp,
        }
    }

    /// The prober moved past the current candidate: on to the next one, or
    /// given up with the list exhausted.
    pub open spec fn advanced(pre: &Self, post: &Self, r: ProbeAction) -> bool {
        &&& post.options_spec() == pre.options_spec()
        &&& post.idx_spec() == pre.idx_spec() + 1
        &&& post.attempt_spec() == 0
        &&& post.wait_spec() == 0
        &&& if pre.idx_spec() + 1 < pre.options_spec().len() {
            &&& post.phase_spec() is AwaitBind
            &&& r == (ProbeAction::Bind {
                ipv6: pre.options_spec()[pre.idx_spec() + 1] is V6,
            })
        } else {
            &&& post.phase_spec() is Finished
            &&& r == ProbeAction::GiveUp
        }
    }
}

/// Where the authenticator stands: what action it awaits the outcome of.
#[derive(Clone, Copy, PartialEq, Eq, Structural, Debug)]
pub enum AuthPhase {
    /// Not started.
    Idle,
    /// A registration send is in flight.
    AwaitSend,
    /// A timed receive is in flight.
    AwaitRecv,
    /// The registration was queued; a 1 s pause is in flight.
    Sleeping,
    /// Registered, or failed for good.
    Finished,
}

/// The next action the authenticator asks its driver to perform.
#[derive(Clone, PartialEq, Eq, Debug)]
pub enum AuthAction {
    /// Send `data` to `addr` over the probed socket.
    Send { addr: NetAddr, data: Vec<u8> },
    /// Await one datagram, for at most `wait_ms` milliseconds.
    Recv { wait_ms: u64 },
    /// Pause for `ms` milliseconds before the next round.
    Sleep { ms: u64 },
    /// The tunnel server accepted the registration.
    Registered { registered: AgentRegistered },
    /// The registration failed for good.
    Failed { error: SetupError },
}

/// The outcome of the action the authenticator last asked for.
#[derive(Clone, Copy, PartialEq, Eq, Debug)]
pub enum AuthEvent {
    /// Nothing yet: start registering.
    Start,
    /// The send went out.
    SendOk,
    /// The send failed.
    SendFailed,
    /// A datagram arrived from `peer`; `msg` is its parse as a control feed
    /// message, `None` when unparseable.
    Received { peer: NetAddr, msg: Option<FeedMessage> },
    /// The receive window elapsed without a datagram.
    Timeout,
    /// The receive failed.
    RecvError,
    /// The queued-registration pause elapsed.
    Slept,
}

/// The content of a control-feed reply to the registration request (request
/// id 10) from the control address itself, if the event is one.
pub open spec fn register_reply_for(ev: AuthEvent, cur: NetAddr) -> Option<ResponseContent> {
    match ev {
        AuthEvent::Received { peer, msg } => {
            if peer == cur {
                match msg {
                    Some(FeedMessage::Response { request_id, content }) => {
                        if request_id == 10 {
                            Some(content)
                        } else {
                            None
                        }
                    }
                    _ => None,
                }
            } else {
                None
            }
        }
        _ => None,
    }
}

/// Registers the decoded signed key with the probed tunnel server: up to 5
/// rounds of one send and up to 5 timed receives, a queued answer pausing 1 s
/// before the next round.
pub struct Authenticator {
    control_addr: NetAddr,
    key_bytes: Vec<u8>,
    round: u32,
    wait: u32,
    phase: AuthPhase,
}

impl ConnectedControl {
    /// Decodes the signed agent key and yields the registration state
    /// machine for this control endpoint; a key that is not valid hex is
    /// rejected here.
    pub fn authenticate(&self, key: &SignedAgentKey) -> (r: Result<Authenticator, SetupError>)
        ensures
            !valid_hex(key.key@) ==> r == Err::<Authenticator, SetupError>(
                SetupError::FailedToDecodeSignedAgentRegisterHex,
            ),
            valid_hex(key.key@) ==> (r matches Ok(a) && a.wf() && a.control_addr_spec()
                == self.control_addr && a.key_bytes_spec() == hex_bytes(key.key@) && a.round_spec()
                == 0 && a.phase_spec() is Idle),
    {
        match hex_decode(&key.key) {
            Some(bytes) => Ok(
                Authenticator {
                    control_addr: self.control_addr,
                    key_bytes: bytes,
                    round: 0,
                    wait: 0,
                    phase: AuthPhase::Idle,
                },
            ),
            None => Err(SetupError::FailedToDecodeSignedAgentRegisterHex),
        }
    }
}

impl Authenticator {
    /// The control address being registered with.
    pub closed spec fn control_addr_spec(&self) -> NetAddr {
        self.control_addr
    }

    /// The decoded signed key.
    pub closed spec fn key_bytes_spec(&self) -> Seq<u8> {
        self.key_bytes@
    }

    /// Registration rounds already begun (0-based).
    pub closed spec fn round_spec(&self) -> u32 {
        self.round
    }

    /// Receive windows already consumed in the current round.
    pub closed spec fn wait_spec(&self) -> u32 {
        self.wait
    }

    /// The authenticator's phase.
    pub closed spec fn phase_spec(&self) -> AuthPhase {
        self.phase
    }

    /// Invariant: the counters stay below their budgets.
    pub open spec fn wf(&self) -> bool {
        &&& self.phase_spec() is Idle ==> self.round_spec() == 0
        &&& (self.phase_spec() is AwaitSend || self.phase_spec() is AwaitRecv || self.phase_spec()
            is Sleeping) ==> self.round_spec() < 5
        &&& self.phase_spec() is AwaitRecv ==> self.wait_spec() < 5
    }

    /// The authenticator's phase, for the driving loop.
    pub fn phase(&self) -> (r: AuthPhase)
        ensures
            r == self.phase_spec(),
    {
        self.phase
    }

    /// The current round gave no terminal answer: move to the next one, or
    /// fail for good after the fifth.
    pub open spec fn round_ended(pre: &Self, post: &Self, r: AuthAction) -> bool {
        &&& post.control_addr_spec() == pre.control_addr_spec()
        &&& post.key_bytes_spec() == pre.key_bytes_spec()
        &&& post.round_spec() == pre.round_spec() + 1
        &&& post.wait_spec() == 0
        &&& if pre.round_spec() + 1 < 5 {
            &&& post.phase_spec() is AwaitSend
            &&& r matches AuthAction::Send { addr, data } && addr == pre.control_addr_spec()
                && data@ == register_bytes(10, pre.key_bytes_spec())
        } else {
            &&& post.phase_spec() is Finished
            &&& r == (AuthAction::Failed { error: SetupError::FailedToConnect })
        }
    }

    /// Begins the next round, or gives up when the rounds are exhausted.
    fn next_round(&mut self) -> (r: AuthAction)
        requires
            old(self).wf(),
            old(self).round_spec() < 5,
        ensures
            final(self).wf(),
            Self::round_ended(old(self), final(self), r),
    {
        self.round = self.round + 1;
        self.wait = 0;
        if self.round < 5 {
            self.phase = AuthPhase::AwaitSend;
            let data = encode_register(10, &self.key_bytes);
            AuthAction::Send { addr: self.control_addr, data }
        } else {
            self.phase = AuthPhase::Finished;
            AuthAction::Failed { error: SetupError::FailedToConnect }
        }
    }

    /// Consumes the outcome of the last requested action and decides the next
    /// one. A terminal server answer (registered, invalid signature,
    /// unauthorized) ends the machine; a queued answer pauses and retries; a
    /// failed send is a transport error; anything else consumes receive
    /// windows, then rounds.
    pub fn step(&mut self, event: AuthEvent) -> (r: AuthAction)
        requires
            old(self).wf(),
            !(old(self).phase_spec() is Finished),
            old(self).phase_spec() is Idle ==> event is Start,
            old(self).phase_spec() is AwaitSend ==> event is SendOk || event is SendFailed,
            old(self).phase_spec() is AwaitRecv ==> event is Received || event is Timeout
                || event is RecvError,
            old(self).phase_spec() is Sleeping ==> event is Slept,
        ensures
            final(self).wf(),
            final(self).control_addr_spec() == old(self).control_addr_spec(),
            final(self).key_bytes_spec() == old(self).key_bytes_spec(),
            // starting: the first registration send
            old(self).phase_spec() is Idle ==> {
                &&& final(self).phase_spec() is AwaitSend
                &&& final(self).round_spec() == 0
                &&& r matches AuthAction::Send { addr, data } && addr == old(
                    self,
                ).control_addr_spec() && data@ == register_bytes(10, old(self).key_bytes_spec())
            },
            // a sent request opens the first receive window of the round
            old(self).phase_spec() is AwaitSend && event is SendOk ==> {
                &&& final(self).phase_spec() is AwaitRecv
                &&& final(self).round_spec() == old(self).round_spec()
                &&& final(self).wait_spec() == 0
                &&& r == (AuthAction::Recv { wait_ms: 500 })
            },
            // a failed send is a transport error, terminal for this pass
            old(self).phase_spec() is AwaitSend && event is SendFailed ==> {
                &&& final(self).phase_spec() is Finished
                &&& r == (AuthAction::Failed { error: SetupError::IoError })
            },
            old(self).phase_spec() is AwaitRecv ==> (match register_reply_for(
                event,
                old(self).control_addr_spec(),
            ) {
                Some(ResponseContent::RequestQueued) => {
                    &&& final(self).phase_spec() is Sleeping
                    &&& final(self).round_spec() == old(self).round_spec()
                    &&& r == (AuthAction::Sleep { ms: 1000 })
                },
                Some(ResponseContent::AgentRegistered(reg)) => {
                    &&& final(self).phase_spec() is Finished
                    &&& r == (AuthAction::Registered { registered: reg })
                },
                Some(ResponseContent::InvalidSignature) => {
                    &&& final(self).phase_spec() is Finished
                    &&& r == (AuthAction::Failed { error: SetupError::RegisterInvalidSignature })
                },
                Some(ResponseContent::Unauthorized) => {
                    &&& final(self).phase_spec() is Finished
                    &&& r == (AuthAction::Failed { error: SetupError::RegisterUnauthorized })
                },
                _ => {
                    if event is Received {
                        // off-address, unparseable, wrong request id, or
                        // irrelevant content: consume this receive window
                        if old(self).wait_spec() + 1 < 5 {
                            &&& final(self).phase_spec() is AwaitRecv
                            &&& final(self).round_spec() == old(self).round_spec()
                            &&& final(self).wait_spec() == old(self).wait_spec() + 1
                            &&& r == (AuthAction::Recv { wait_ms: 500 })
                        } else {
                            Self::round_ended(old(self), final(self), r)
                        }
                    } else {
                        // a timeout or receive error ends the round
                        Self::round_ended(old(self), final(self), r)
                    }
                },
            }),
            // the queued-registration pause ended: next round
            old(self).phase_spec() is Sleeping && event is Slept ==> Self::round_ended(
                old(self),
                final(self),
                r,
            ),
    {
        match self.phase {
            AuthPhase::Idle => {
                self.phase = AuthPhase::AwaitSend;
                let data = encode_register(10, &self.key_bytes);
                AuthAction::Send { addr: self.control_addr, data }
            }
            AuthPhase::AwaitSend => {
                match event {
                    AuthEvent::SendOk => {
                        self.wait = 0;
                        self.phase = AuthPhase::AwaitRecv;
                        AuthAction::Recv { wait_ms: 500 }
                    }
                    _ => {
                        self.phase = AuthPhase::Finished;
                        AuthAction::Failed { error: SetupError::IoError }
                    }
                }
            }
            AuthPhase::AwaitRecv => {
                if let AuthEvent::Received { peer, msg } = event {
                    if peer == self.control_addr {
                        if let Some(FeedMessage::Response { request_id, content }) = msg {
                            if request_id == 10 {
                                match content {
                                    ResponseContent::RequestQueued => {
                                        self.phase = AuthPhase::Sleeping;
                                        return AuthAction::Sleep { ms: 1000 };
                                    }
                                    ResponseContent::AgentRegistered(reg) => {
                                        self.phase = AuthPhase::Finished;
                                        return AuthAction::Registered { registered: reg };
                                    }
                                    ResponseContent::InvalidSignature => {
                                        self.phase = AuthPhase::Finished;
                                        return AuthAction::Failed {
                                            error: SetupError::RegisterInvalidSignature,
                                        };
                                    }
                                    ResponseContent::Unauthorized => {
                                        self.phase = AuthPhase::Finished;
                                        return AuthAction::Failed {
                                            error: SetupError::RegisterUnauthorized,
                                        };
                                    }
                                    _ => {}
                                }
                            }
                        }
                    }
                    if self.wait + 1 < 5 {
                        self.wait = self.wait + 1;
                        AuthAction::Recv { wait_ms: 500 }
                    } else {
                        self.next_round()
                    }
                } else {
                    self.next_round()
                }
            }
            AuthPhase::Sleeping => self.next_round(),
            AuthPhase::Finished => AuthAction::Failed { error: SetupError::FailedToConnect },
        }
    }
}

} // verus!
