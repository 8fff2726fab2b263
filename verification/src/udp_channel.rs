//! Steady-state UDP session: current session details, bounded migration
//! history, liveness timestamps, and classification of received datagrams.

use vstd::prelude::*;

use crate::addr::NetAddr;
use crate::udp_proto::{
    parse_tail_spec, tail_id, UdpFlow, UDP_CHANNEL_ESTABLISH_ID, UDP_FLOW_LEN_V6,
};
use crate::udp_proto::footer_bytes;

verus! {

/// How many previously-known tunnel addresses the channel remembers.
pub const ADDR_HISTORY_LEN: usize = 5;

/// Errors surfaced by channel operations.
#[derive(Clone, Copy, PartialEq, Eq, Structural, Debug)]
pub enum ChannelError {
    /// The channel was used before session details were installed.
    NotConnected,
    /// A received datagram could not be classified (bad source, bad tail).
    InvalidData,
    /// The receive buffer is too small for a legitimate payload.
    WriteZero,
    /// A transport-level failure reported by the packet capability.
    Io,
}

/// Minimal packet capability: send one datagram, receive one datagram.
/// Implementations bind a datagram socket to an ephemeral local port; the
/// transport gives no ordering, deduplication, or reliability.
pub trait PacketIO {
    /// Transmits one datagram to `target`; nothing is promised of the
    /// outcome.
    fn send_to(&self, buf: &Vec<u8>, target: NetAddr) -> (r: Result<usize, ChannelError>);

    /// Awaits one datagram, filling `buf` with at most its length in bytes
    /// and reporting the byte count and the peer it came from.
    fn recv_from(&self, buf: &mut Vec<u8>) -> (r: Result<(usize, NetAddr), ChannelError>)
        ensures
            final(buf)@.len() == old(buf)@.len(),
            r is Ok ==> r.unwrap().0 <= old(buf)@.len(),
    ;
}

/// Current session parameters: the tunnel server address the agent talks to
/// and the opaque session token that authenticates and confirms the session.
pub struct UdpChannelDetails {
    pub tunnel_addr: NetAddr,
    pub token: Vec<u8>,
}

/// Structural equality of session details: same address, same token bytes.
pub open spec fn details_eq(a: UdpChannelDetails, b: UdpChannelDetails) -> bool {
    a.tunnel_addr == b.tunnel_addr && a.token@ == b.token@
}

impl PartialEq for UdpChannelDetails {
    fn eq(&self, other: &Self) -> (r: bool) {
        self.tunnel_addr == other.tunnel_addr && bytes_eq(&self.token, &other.token)
    }
}

impl vstd::std_specs::cmp::PartialEqSpecImpl for UdpChannelDetails {
    open spec fn obeys_eq_spec() -> bool {
        true
    }

    open spec fn eq_spec(&self, other: &Self) -> bool {
        details_eq(*self, *other)
    }
}

impl UdpChannelDetails {
    /// A structurally equal copy of these details.
    pub fn duplicate(&self) -> (r: Self)
        ensures
            details_eq(r, *self),
    {
        UdpChannelDetails { tunnel_addr: self.tunnel_addr, token: clone_bytes(&self.token) }
    }
}

/// Byte-wise equality of two byte vectors.
pub fn bytes_eq(a: &Vec<u8>, b: &Vec<u8>) -> (r: bool)
    ensures
        r == (a@ == b@),
{
    if a.len() != b.len() {
        proof {
            assert(a@ != b@);
        }
        return false;
    }
    let n: usize = a.len();
    let mut i: usize = 0;
    while i < n
        invariant
            n == a@.len(),
            n == b@.len(),
            i <= n,
            forall|k: int| 0 <= k < i ==> a@[k] == b@[k],
        decreases n - i,
    {
        if a[i] != b[i] {
            return false;
        }
        i += 1;
    }
    proof {
        assert(a@ =~= b@);
    }
    true
}

/// A fresh copy of a byte vector.
fn clone_bytes(a: &Vec<u8>) -> (r: Vec<u8>)
    ensures
        r@ == a@,
{
    let mut out: Vec<u8> = Vec::new();
    let n: usize = a.len();
    let mut i: usize = 0;
    while i < n
        invariant
            n == a@.len(),
            i <= n,
            out@ == a@.subrange(0, i as int),
        decreases n - i,
    {
        out.push(a[i]);
        proof {
            assert(out@ =~= a@.subrange(0, i + 1));
        }
        i += 1;
    }
    proof {
        assert(a@.subrange(0, n as int) =~= a@);
    }
    out
}

/// Classification of one received datagram.
#[derive(Clone, Copy, PartialEq, Eq, Structural, Debug)]
pub enum UdpTunnelRx {
    /// A tunnelled payload: `bytes` of payload followed by the parsed flow
    /// footer.
    ReceivedPacket { bytes: usize, flow: UdpFlow },
    /// The server echoed the session token: the session is confirmed.
    ConfirmedConnection,
    /// The server issued a session-establish frame whose token does not match
    /// ours; the caller should re-run registration.
    InvalidEstablishToken,
}

/// The address history after the old tunnel address `a` is pushed in front of
/// `h`: newest first, the oldest entry evicted beyond the bound.
pub open spec fn push_history(h: Seq<NetAddr>, a: NetAddr) -> Seq<NetAddr> {
    let h2 = seq![a] + h;
    if h2.len() > ADDR_HISTORY_LEN {
        h2.subrange(0, ADDR_HISTORY_LEN as int)
    } else {
        h2
    }
}

/// When a keepalive resend is due: more than 10 seconds since the last
/// confirmation.
pub open spec fn requires_resend_spec(last_confirm: u64, now: u64) -> bool {
    last_confirm + 10 < now
}

/// When the session must be re-authenticated: sends have gone unconfirmed for
/// more than 8 seconds.
pub open spec fn requires_auth_spec(last_confirm: u64, last_send: u64) -> bool {
    last_confirm + 8 < last_send
}

/// The steady-state session manager. Owns the packet capability, the current
/// session details with a bounded history of previous tunnel addresses, and
/// the two liveness timestamps (seconds, `0` meaning "never").
pub struct UdpChannel<I: PacketIO> {
    packet_io: I,
    udp: Option<UdpChannelDetails>,
    addr_history: Vec<NetAddr>,
    last_send: u64,
    last_confirm: u64,
    sent: Ghost<Seq<(Seq<u8>, NetAddr)>>,
}

impl<I: PacketIO> UdpChannel<I> {
    /// Whether session details are installed.
    pub closed spec fn is_setup_spec(&self) -> bool {
        self.udp is Some
    }

    /// The current tunnel server address (meaningful only when set up).
    pub closed spec fn tunnel_addr_spec(&self) -> NetAddr {
        self.udp->Some_0.tunnel_addr
    }

    /// The current session token bytes (meaningful only when set up).
    pub closed spec fn token_spec(&self) -> Seq<u8> {
        self.udp->Some_0.token@
    }

    /// Previously-known tunnel addresses, newest first.
    pub closed spec fn history(&self) -> Seq<NetAddr> {
        self.addr_history@
    }

    /// Time of the last token send, in seconds (`0`: never).
    pub closed spec fn last_send_spec(&self) -> u64 {
        self.last_send
    }

    /// Time of the last confirmation, in seconds (`0`: never).
    pub closed spec fn last_confirm_spec(&self) -> u64 {
        self.last_confirm
    }

    /// Everything handed to the packet capability so far, in order: the
    /// datagram bytes and the address they went to.
    pub closed spec fn sent_log(&self) -> Seq<(Seq<u8>, NetAddr)> {
        self.sent@
    }

    /// How many datagrams have been handed to the packet capability.
    pub open spec fn sends(&self) -> nat {
        self.sent_log().len()
    }

    /// Invariant: bounded history, and no history before the first session
    /// details are installed.
    pub open spec fn wf(&self) -> bool {
        &&& self.history().len() <= ADDR_HISTORY_LEN
        &&& !self.is_setup_spec() ==> self.history().len() == 0
    }

    /// The model state (everything but the packet capability) of `a` and `b`
    /// is the same.
    pub open spec fn state_eq(a: &Self, b: &Self) -> bool {
        &&& a.is_setup_spec() == b.is_setup_spec()
        &&& a.is_setup_spec() ==> {
            &&& a.tunnel_addr_spec() == b.tunnel_addr_spec()
            &&& a.token_spec() == b.token_spec()
        }
        &&& a.history() == b.history()
        &&& a.last_send_spec() == b.last_send_spec()
        &&& a.last_confirm_spec() == b.last_confirm_spec()
        &&& a.sent_log() == b.sent_log()
    }

    /// A fresh channel: no details, empty history, both timestamps `0`.
    pub fn new(packet_io: I) -> (r: Self)
        ensures
            r.wf(),
            !r.is_setup_spec(),
            r.history() == Seq::<NetAddr>::empty(),
            r.last_send_spec() == 0,
            r.last_confirm_spec() == 0,
            r.sent_log() == Seq::<(Seq<u8>, NetAddr)>::empty(),
    {
        UdpChannel {
            packet_io,
            udp: None,
            addr_history: Vec::new(),
            last_send: 0,
            last_confirm: 0,
            sent: Ghost(Seq::empty()),
        }
    }

    /// True iff session details are present.
    pub fn is_setup(&self) -> (r: bool)
        ensures
            r == self.is_setup_spec(),
    {
        self.udp.is_some()
    }

    /// Resets both timestamps to the invalid sentinel `0`, so that the next
    /// liveness checks indicate action. Touches nothing else.
    pub fn invalidate_session(&mut self)
        ensures
            final(self).last_send_spec() == 0,
            final(self).last_confirm_spec() == 0,
            final(self).is_setup_spec() == old(self).is_setup_spec(),
            final(self).is_setup_spec() ==> {
                &&& final(self).tunnel_addr_spec() == old(self).tunnel_addr_spec()
                &&& final(self).token_spec() == old(self).token_spec()
            },
            final(self).history() == old(self).history(),
            final(self).sent_log() == old(self).sent_log(),
            final(self).wf() == old(self).wf(),
    {
        self.last_confirm = 0;
        self.last_send = 0;
    }

    /// True when the last confirmation is more than 10 seconds old: a
    /// keepalive resend is due.
    pub fn requires_resend(&self, now: u64) -> (r: bool)
        ensures
            r == requires_resend_spec(self.last_confirm_spec(), now),
    {
        now > 10 && self.last_confirm < now - 10
    }

    /// True when sends have gone more than 8 seconds without a confirmation:
    /// the session is dead and must be re-established.
    pub fn requires_auth(&self) -> (r: bool)
        ensures
            r == requires_auth_spec(self.last_confirm_spec(), self.last_send_spec()),
    {
        self.last_send > 8 && self.last_confirm < self.last_send - 8
    }

    /// Sends the current token to the current tunnel address; on success the
    /// send timestamp moves to `now`.
    fn send_token_inner(&mut self, now: u64) -> (r: Result<(), ChannelError>)
        requires
            old(self).wf(),
            old(self).is_setup_spec(),
        ensures
            final(self).wf(),
            final(self).is_setup_spec() == old(self).is_setup_spec(),
            final(self).tunnel_addr_spec() == old(self).tunnel_addr_spec(),
            final(self).token_spec() == old(self).token_spec(),
            final(self).history() == old(self).history(),
            final(self).last_confirm_spec() == old(self).last_confirm_spec(),
            final(self).sent_log() == old(self).sent_log().push(
                (old(self).token_spec(), old(self).tunnel_addr_spec()),
            ),
            r is Ok ==> final(self).last_send_spec() == now,
            r is Err ==> final(self).last_send_spec() == old(self).last_send_spec(),
    {
        let res = match &self.udp {
            Some(d) => self.packet_io.send_to(&d.token, d.tunnel_addr),
            None => Err(ChannelError::NotConnected),
        };
        proof {
            self.sent@ = self.sent@.push(
                (self.udp->Some_0.token@, self.udp->Some_0.tunnel_addr),
            );
        }
        match res {
            Ok(_) => {
                self.last_send = now;
                Ok(())
            }
            Err(e) => Err(e),
        }
    }

    /// Installs or replaces the session details. Re-setting structurally
    /// equal details is a no-op; a changed tunnel address pushes the old
    /// address into the history; otherwise the history is untouched. The new
    /// token is sent once, moving the send timestamp (never the confirm one).
    pub fn set_udp_tunnel(&mut self, details: UdpChannelDetails, now: u64) -> (r: Result<
        (),
        ChannelError,
    >)
        requires
            old(self).wf(),
        ensures
            final(self).wf(),
            final(self).last_confirm_spec() == old(self).last_confirm_spec(),
            (old(self).is_setup_spec() && old(self).tunnel_addr_spec() == details.tunnel_addr
                && old(self).token_spec() == details.token@) ==> {
                &&& r == Ok::<(), ChannelError>(())
                &&& Self::state_eq(final(self), old(self))
            },
            !(old(self).is_setup_spec() && old(self).tunnel_addr_spec() == details.tunnel_addr
                && old(self).token_spec() == details.token@) ==> {
                &&& final(self).is_setup_spec()
                &&& final(self).tunnel_addr_spec() == details.tunnel_addr
                &&& final(self).token_spec() == details.token@
                &&& final(self).sent_log() == old(self).sent_log().push(
                    (details.token@, details.tunnel_addr),
                )
                &&& (old(self).is_setup_spec() && old(self).tunnel_addr_spec()
                    != details.tunnel_addr) ==> final(self).history() == push_history(
                    old(self).history(),
                    old(self).tunnel_addr_spec(),
                )
                &&& !(old(self).is_setup_spec() && old(self).tunnel_addr_spec()
                    != details.tunnel_addr) ==> final(self).history() == old(self).history()
                &&& (r is Ok ==> final(self).last_send_spec() == now)
                &&& (r is Err ==> final(self).last_send_spec() == old(self).last_send_spec())
            },
            // an address never seen in the history stays out of it: under
            // pairwise distinct tunnel addresses the current address is
            // therefore never in the history
            !old(self).history().contains(details.tunnel_addr) ==> {
                &&& final(self).tunnel_addr_spec() == details.tunnel_addr
                &&& !final(self).history().contains(details.tunnel_addr)
            },
    {
        let mut same = false;
        let mut push_addr: Option<NetAddr> = None;
        if let Some(current) = &self.udp {
            if *current == details {
                same = true;
            } else if current.tunnel_addr != details.tunnel_addr {
                push_addr = Some(current.tunnel_addr);
            }
        }
        if same {
            return Ok(());
        }
        if let Some(old_addr) = push_addr {
            self.addr_history.insert(0, old_addr);
            proof {
                assert(self.addr_history@ =~= seq![old_addr] + old(self).addr_history@);
            }
            if self.addr_history.len() > ADDR_HISTORY_LEN {
                self.addr_history.pop();
                proof {
                    assert(self.addr_history@ =~= (seq![old_addr]
                        + old(self).addr_history@).subrange(0, ADDR_HISTORY_LEN as int));
                }
            }
            proof {
                if !old(self).addr_history@.contains(details.tunnel_addr) {
                    lemma_history_excludes_new_addr(
                        old(self).addr_history@,
                        old_addr,
                        details.tunnel_addr,
                    );
                }
            }
        }
        self.udp = Some(details);
        self.send_token_inner(now)
    }

    /// Re-sends the current token, if details are installed; returns
    /// `Ok(false)` without any action when they are not.
    pub fn resend_token(&mut self, now: u64) -> (r: Result<bool, ChannelError>)
        requires
            old(self).wf(),
        ensures
            final(self).wf(),
            !old(self).is_setup_spec() ==> {
                &&& r == Ok::<bool, ChannelError>(false)
                &&& Self::state_eq(final(self), old(self))
            },
            old(self).is_setup_spec() ==> {
                &&& final(self).is_setup_spec()
                &&& final(self).tunnel_addr_spec() == old(self).tunnel_addr_spec()
                &&& final(self).token_spec() == old(self).token_spec()
                &&& final(self).history() == old(self).history()
                &&& final(self).last_confirm_spec() == old(self).last_confirm_spec()
                &&& final(self).sent_log() == old(self).sent_log().push(
                    (old(self).token_spec(), old(self).tunnel_addr_spec()),
                )
                &&& (r is Ok ==> r == Ok::<bool, ChannelError>(true)
                    && final(self).last_send_spec() == now)
                &&& (r is Err ==> final(self).last_send_spec() == old(self).last_send_spec())
            },
    {
        if self.udp.is_none() {
            return Ok(false);
        }
        match self.send_token_inner(now) {
            Ok(()) => Ok(true),
            Err(e) => Err(e),
        }
    }

    /// Appends the flow footer to `data` and transmits the datagram to the
    /// current tunnel address. Fails with `NotConnected`, leaving `data`
    /// untouched, when no details are installed. The send timestamp is not
    /// moved by payload sends.
    pub fn send(&mut self, data: &mut Vec<u8>, flow: UdpFlow) -> (r: Result<usize, ChannelError>)
        requires
            old(self).wf(),
        ensures
            final(self).wf(),
            !old(self).is_setup_spec() ==> {
                &&& r == Err::<usize, ChannelError>(ChannelError::NotConnected)
                &&& final(data)@ == old(data)@
                &&& Self::state_eq(final(self), old(self))
            },
            old(self).is_setup_spec() ==> {
                &&& final(data)@ == old(data)@ + footer_bytes(flow)
                &&& final(self).sent_log() == old(self).sent_log().push(
                    (old(data)@ + footer_bytes(flow), old(self).tunnel_addr_spec()),
                )
                &&& final(self).is_setup_spec()
                &&& final(self).tunnel_addr_spec() == old(self).tunnel_addr_spec()
                &&& final(self).token_spec() == old(self).token_spec()
                &&& final(self).history() == old(self).history()
                &&& final(self).last_send_spec() == old(self).last_send_spec()
                &&& final(self).last_confirm_spec() == old(self).last_confirm_spec()
            },
    {
        let addr = match &self.udp {
            Some(d) => d.tunnel_addr,
            None => {
                return Err(ChannelError::NotConnected);
            }
        };
        flow.write_to_vec(data);
        let res = self.packet_io.send_to(data, addr);
        proof {
            self.sent@ = self.sent@.push((data@, addr));
        }
        res
    }

    /// Classifies one received datagram: the first `bytes` bytes of `buffer`,
    /// received from `remote`. Verified for every possible datagram; the only
    /// state it may touch is the confirm timestamp, on a token echo.
    pub fn classify_datagram(
        &mut self,
        buffer: &Vec<u8>,
        bytes: usize,
        remote: NetAddr,
        now: u64,
    ) -> (r: Result<UdpTunnelRx, ChannelError>)
        requires
            old(self).wf(),
            bytes <= buffer@.len(),
        ensures
            final(self).wf(),
            final(self).is_setup_spec() == old(self).is_setup_spec(),
            old(self).is_setup_spec() ==> {
                &&& final(self).tunnel_addr_spec() == old(self).tunnel_addr_spec()
                &&& final(self).token_spec() == old(self).token_spec()
            },
            final(self).history() == old(self).history(),
            final(self).last_send_spec() == old(self).last_send_spec(),
            final(self).sent_log() == old(self).sent_log(),
            !old(self).is_setup_spec() ==> r == Err::<UdpTunnelRx, ChannelError>(
                ChannelError::NotConnected,
            ),
            old(self).is_setup_spec() && !source_accepted(
                old(self).tunnel_addr_spec(),
                old(self).history(),
                remote,
            ) ==> r == Err::<UdpTunnelRx, ChannelError>(ChannelError::InvalidData),
            old(self).is_setup_spec() && source_accepted(
                old(self).tunnel_addr_spec(),
                old(self).history(),
                remote,
            ) ==> r == classify_result(
                old(self).token_spec(),
                buffer@.subrange(0, bytes as int),
                buffer@.len() as int,
            ),
            r == Ok::<UdpTunnelRx, ChannelError>(UdpTunnelRx::ConfirmedConnection) ==> final(self).last_confirm_spec() == now,
            r != Ok::<UdpTunnelRx, ChannelError>(UdpTunnelRx::ConfirmedConnection) ==> final(self).last_confirm_spec() == old(self).last_confirm_spec(),
    {
        let ghost s = buffer@.subrange(0, bytes as int);
        let t_addr = match &self.udp {
            Some(d) => d.tunnel_addr,
            None => {
                return Err(ChannelError::NotConnected);
            }
        };
        let mut addr_ok = remote == t_addr;
        if !addr_ok {
            addr_ok = history_contains(&self.addr_history, remote);
        }
        if !addr_ok {
            return Err(ChannelError::InvalidData);
        }
        let is_confirm = match &self.udp {
            Some(d) => prefix_eq(buffer, bytes, &d.token),
            None => false,
        };
        if is_confirm {
            self.last_confirm = now;
            return Ok(UdpTunnelRx::ConfirmedConnection);
        }
        if buffer.len() - bytes < UDP_FLOW_LEN_V6 {
            return Err(ChannelError::WriteZero);
        }
        match UdpFlow::from_tail(buffer, bytes) {
            Ok(f) => {
                let fl = f.len();
                Ok(UdpTunnelRx::ReceivedPacket { bytes: bytes - fl, flow: f })
            }
            Err(Some(id)) => {
                if id == UDP_CHANNEL_ESTABLISH_ID {
                    Ok(UdpTunnelRx::InvalidEstablishToken)
                } else {
                    Err(ChannelError::InvalidData)
                }
            }
            Err(None) => Err(ChannelError::InvalidData),
        }
    }

    /// Receives one datagram through the packet capability and classifies it.
    /// Whatever arrives, only the confirm timestamp may move, and it moves to
    /// `now` exactly when the datagram was a token echo from an accepted
    /// source.
    pub fn receive_from(&mut self, buffer: &mut Vec<u8>, now: u64) -> (r: Result<
        UdpTunnelRx,
        ChannelError,
    >)
        requires
            old(self).wf(),
        ensures
            final(self).wf(),
            final(buffer)@.len() == old(buffer)@.len(),
            final(self).is_setup_spec() == old(self).is_setup_spec(),
            old(self).is_setup_spec() ==> {
                &&& final(self).tunnel_addr_spec() == old(self).tunnel_addr_spec()
                &&& final(self).token_spec() == old(self).token_spec()
            },
            final(self).history() == old(self).history(),
            final(self).last_send_spec() == old(self).last_send_spec(),
            final(self).sent_log() == old(self).sent_log(),
            !old(self).is_setup_spec() ==> r is Err,
            r == Ok::<UdpTunnelRx, ChannelError>(UdpTunnelRx::ConfirmedConnection) ==> final(self).last_confirm_spec() == now,
            r != Ok::<UdpTunnelRx, ChannelError>(UdpTunnelRx::ConfirmedConnection) ==> final(self).last_confirm_spec() == old(self).last_confirm_spec(),
    {
        let res = self.packet_io.recv_from(buffer);
        match res {
            Ok((bytes, remote)) => self.classify_datagram(buffer, bytes, remote, now),
            Err(e) => Err(e),
        }
    }
}

/// A datagram from `remote` is accepted when it comes from the current
/// tunnel address or from one of the remembered previous addresses.
pub open spec fn source_accepted(tunnel_addr: NetAddr, history: Seq<NetAddr>, remote: NetAddr) -> bool {
    remote == tunnel_addr || history.contains(remote)
}

/// Classification of an accepted datagram `s` (with `buf_len` the receive
/// buffer's full size): a token echo confirms the session; then a too-small
/// buffer is rejected; then the tail is parsed as a flow footer, the
/// establish marker naming a failed server-side establish.
pub open spec fn classify_result(token: Seq<u8>, s: Seq<u8>, buf_len: int) -> Result<
    UdpTunnelRx,
    ChannelError,
> {
    if s == token {
        Ok(UdpTunnelRx::ConfirmedConnection)
    } else if buf_len < s.len() + UDP_FLOW_LEN_V6 {
        Err(ChannelError::WriteZero)
    } else {
        match parse_tail_spec(s) {
            Ok(f) => Ok(
                UdpTunnelRx::ReceivedPacket {
                    bytes: (s.len() - f.spec_len()) as usize,
                    flow: f,
                },
            ),
            Err(Some(id)) => if id == UDP_CHANNEL_ESTABLISH_ID {
                Ok(UdpTunnelRx::InvalidEstablishToken)
            } else {
                Err(ChannelError::InvalidData)
            },
            Err(None) => Err(ChannelError::InvalidData),
        }
    }
}

/// Whether `h` holds `a`.
fn history_contains(h: &Vec<NetAddr>, a: NetAddr) -> (r: bool)
    ensures
        r == h@.contains(a),
{
    let n: usize = h.len();
    let mut i: usize = 0;
    while i < n
        invariant
            i <= n,
            n == h@.len(),
            forall|k: int| 0 <= k < i ==> h@[k] != a,
        decreases n - i,
    {
        if h[i] == a {
            proof {
                assert(h@.contains(a));
            }
            return true;
        }
        i += 1;
    }
    proof {
        if h@.contains(a) {
            let j = choose|j: int| 0 <= j < h@.len() && h@[j] == a;
            assert(h@[j] != a);
        }
    }
    false
}

/// Whether the first `bytes` bytes of `buffer` are exactly `tok`.
fn prefix_eq(buffer: &Vec<u8>, bytes: usize, tok: &Vec<u8>) -> (r: bool)
    requires
        bytes <= buffer@.len(),
    ensures
        r == (buffer@.subrange(0, bytes as int) == tok@),
{
    if bytes != tok.len() {
        proof {
            assert(buffer@.subrange(0, bytes as int).len() == bytes);
        }
        return false;
    }
    let mut i: usize = 0;
    while i < bytes
        invariant
            i <= bytes,
            bytes <= buffer@.len(),
            bytes == tok@.len(),
            forall|k: int| 0 <= k < i ==> buffer@[k] == tok@[k],
        decreases bytes - i,
    {
        if buffer[i] != tok[i] {
            proof {
                assert(buffer@.subrange(0, bytes as int)[i as int] != tok@[i as int]);
            }
            return false;
        }
        i += 1;
    }
    proof {
        assert(buffer@.subrange(0, bytes as int) =~= tok@);
    }
    true
}

/// After a tunnel-address change the history stays within its bound, keeps
/// its newest-first order (the old current address in front, previous entries
/// shifted, the oldest evicted at the bound), and never holds the new current
/// address, provided that address was not already remembered. So a sequence
/// of address changes with pairwise distinct addresses keeps the current
/// address out of the history throughout.
pub proof fn lemma_history_excludes_new_addr(h: Seq<NetAddr>, cur: NetAddr, d: NetAddr)
    requires
        !h.contains(d),
        d != cur,
    ensures
        !push_history(h, cur).contains(d),
        push_history(h, cur).len() <= ADDR_HISTORY_LEN,
        push_history(h, cur)[0] == cur,
        push_history(h, cur).len() == if h.len() < ADDR_HISTORY_LEN {
            h.len() + 1
        } else {
            ADDR_HISTORY_LEN as nat
        },
        forall|i: int|
            1 <= i < push_history(h, cur).len() ==> push_history(h, cur)[i] == h[i - 1],
{
    let ph = push_history(h, cur);
    assert forall|i: int| 1 <= i < ph.len() implies ph[i] == h[i - 1] by {
        assert((seq![cur] + h)[i] == h[i - 1]);
    }
    if ph.contains(d) {
        let j = choose|j: int| 0 <= j < ph.len() && ph[j] == d;
        if j == 0 {
            assert(ph[0] == cur);
        } else {
            assert(h[j - 1] == d);
            assert(h.contains(d));
        }
    }
}

/// After `invalidate_session` both timestamps are the sentinel `0`, so a
/// keepalive resend is demanded at any time past the threshold, and once a
/// token send has gone out past the confirm window, re-authentication is
/// demanded too — until a confirmation writes a fresh timestamp.
pub proof fn lemma_invalidate_forces_action(now: u64, send_time: u64)
    ensures
        now > 10 ==> requires_resend_spec(0, now),
        send_time > 8 ==> requires_auth_spec(0, send_time),
{
}

/// Establish-frame boundary: an accepted datagram that is not the token
/// echo, has at least the four tail bytes, fits the buffer-slack check, and
/// carries the establish marker in its tail 32 bits classifies as
/// `InvalidEstablishToken` — a value, not an error. By the contract of
/// `classify_datagram`, such a classification leaves both liveness
/// timestamps untouched.
pub proof fn lemma_establish_frame_classified(token: Seq<u8>, s: Seq<u8>, buf_len: int)
    requires
        s != token,
        s.len() >= 4,
        buf_len >= s.len() + UDP_FLOW_LEN_V6,
        tail_id(s) == UDP_CHANNEL_ESTABLISH_ID,
    ensures
        classify_result(token, s, buf_len) == Ok::<UdpTunnelRx, ChannelError>(
            UdpTunnelRx::InvalidEstablishToken,
        ),
{
}

/// Once the send timestamp is at least ten seconds past the last
/// confirmation, a demanded re-authentication implies a demanded keepalive
/// resend, at any present time `now` at or after that send (except at the
/// exact boundary instant `now == last_confirm + 10`).
pub proof fn lemma_auth_implies_resend(last_confirm: u64, last_send: u64, now: u64)
    requires
        last_confirm + 10 <= last_send,
        last_send <= now,
        now != last_confirm + 10,
    ensures
        requires_auth_spec(last_confirm, last_send),
        requires_auth_spec(last_confirm, last_send) ==> requires_resend_spec(last_confirm, now),
{
}

} // verus!
