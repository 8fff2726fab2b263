use message_encoding::MessageEncoding;
use playit_agent_proto::control_messages::{ControlRequest, Ping};
use playit_agent_proto::rpc::ControlRpcMessage;

use udp_tunnel_core::addr::NetAddr;
use udp_tunnel_core::proto::{AgentRegistered, AgentSessionId, FeedMessage, Pong, ResponseContent};
use udp_tunnel_core::setup::{
    AuthAction, AuthApi, AuthEvent, AuthPhase, ConnectedControl, Platform, ProbeAction,
    ProbeEvent, ProbePhase, SetupError, SetupFindSuitableChannel, SignedAgentKey, get_platform,
    make_register_request,
};

fn addr(a: u8, b: u8, c: u8, d: u8, port: u16) -> NetAddr {
    NetAddr::V4 { ip: u32::from_be_bytes([a, b, c, d]), port }
}

fn pong_for(tunnel: NetAddr) -> Pong {
    Pong {
        request_now: 12345,
        server_now: 23456,
        server_id: 1,
        data_center_id: 2,
        client_addr: addr(203, 0, 113, 2, 33000),
        tunnel_addr: tunnel,
        session_expire_at: None,
    }
}

fn pong_reply(tunnel: NetAddr) -> Option<FeedMessage> {
    Some(FeedMessage::Response { request_id: 1, content: ResponseContent::Pong(pong_for(tunnel)) })
}

#[test]
fn prober_happy_path_ping_pong() {
    let cand = addr(198, 51, 100, 10, 5525);
    let mut prober = SetupFindSuitableChannel::new(vec![cand]);
    let act = prober.step(ProbeEvent::Start, 777);
    assert_eq!(act, ProbeAction::Bind { ipv6: false });
    let act = prober.step(ProbeEvent::BindOk, 777);
    // the issued ping is a well-formed control RPC with request id 1
    match act {
        ProbeAction::Send { addr: a, data } => {
            assert_eq!(a, cand);
            // exact wire layout: request id, ping tag, timestamp, two
            // zero bytes for the absent optional fields
            assert_eq!(&data[..8], &1u64.to_be_bytes());
            assert_eq!(&data[8..12], &6u32.to_be_bytes());
            assert_eq!(&data[12..20], &777u64.to_be_bytes());
            assert_eq!(&data[20..], &[0, 0]);
            let msg = ControlRpcMessage::<ControlRequest>::read_from(&mut &data[..]).unwrap();
            assert_eq!(msg.request_id, 1);
            assert_eq!(
                msg.content,
                ControlRequest::Ping(Ping { now: 777, current_ping: None, session_id: None })
            );
        }
        other => panic!("expected a send, got {:?}", other),
    }
    let act = prober.step(ProbeEvent::SendOk, 778);
    assert_eq!(act, ProbeAction::Recv { wait_ms: 500 });
    let act = prober.step(ProbeEvent::Received { peer: cand, msg: pong_reply(cand) }, 779);
    assert_eq!(act, ProbeAction::Connected { control_addr: cand, pong: pong_for(cand) });
    assert_eq!(prober.phase(), ProbePhase::Finished);
}

#[test]
fn prober_ignores_other_sources_and_other_replies() {
    let cand = addr(198, 51, 100, 10, 5525);
    let stranger = addr(203, 0, 113, 77, 5525);
    let mut prober = SetupFindSuitableChannel::new(vec![cand]);
    prober.step(ProbeEvent::Start, 1);
    prober.step(ProbeEvent::BindOk, 1);
    prober.step(ProbeEvent::SendOk, 1);
    // a pong from the wrong source only consumes the window
    let act = prober.step(ProbeEvent::Received { peer: stranger, msg: pong_reply(cand) }, 2);
    assert_eq!(act, ProbeAction::Recv { wait_ms: 500 });
    // an unparseable datagram from the candidate likewise
    let act = prober.step(ProbeEvent::Received { peer: cand, msg: None }, 3);
    assert_eq!(act, ProbeAction::Recv { wait_ms: 500 });
    // a response to some other request likewise
    let wrong_id = Some(FeedMessage::Response {
        request_id: 9,
        content: ResponseContent::Pong(pong_for(cand)),
    });
    let act = prober.step(ProbeEvent::Received { peer: cand, msg: wrong_id }, 4);
    assert_eq!(act, ProbeAction::Recv { wait_ms: 500 });
    // then the real pong is accepted
    let act = prober.step(ProbeEvent::Received { peer: cand, msg: pong_reply(cand) }, 5);
    assert_eq!(act, ProbeAction::Connected { control_addr: cand, pong: pong_for(cand) });
}

#[test]
fn prober_moves_to_second_candidate_when_first_is_down() {
    let a = addr(198, 51, 100, 10, 5525);
    let b = addr(198, 51, 100, 11, 5525);
    let mut prober = SetupFindSuitableChannel::new(vec![a, b]);
    assert_eq!(prober.step(ProbeEvent::Start, 0), ProbeAction::Bind { ipv6: false });
    assert_eq!(prober.phase(), ProbePhase::AwaitBind);
    prober.step(ProbeEvent::BindOk, 0);
    // an IPv4 candidate gets 3 attempts of 5 silent windows each
    let mut sends: usize = 1;
    let mut recvs: usize = 0;
    loop {
        prober.step(ProbeEvent::SendOk, 0);
        loop {
            recvs += 1;
            match prober.step(ProbeEvent::Timeout, 0) {
                ProbeAction::Recv { wait_ms: 500 } => {}
                ProbeAction::Send { addr: s, .. } => {
                    assert_eq!(s, a);
                    sends += 1;
                    break;
                }
                ProbeAction::Bind { ipv6: false } => {
                    // candidate `a` exhausted: on to `b`
                    assert_eq!(sends, 3);
                    assert_eq!(recvs, 15);
                    prober.step(ProbeEvent::BindOk, 9);
                    prober.step(ProbeEvent::SendOk, 9);
                    let act =
                        prober.step(ProbeEvent::Received { peer: b, msg: pong_reply(b) }, 10);
                    assert_eq!(
                        act,
                        ProbeAction::Connected { control_addr: b, pong: pong_for(b) }
                    );
                    return;
                }
                other => panic!("unexpected action {:?}", other),
            }
        }
    }
}

#[test]
fn prober_gives_up_when_all_binds_fail() {
    let a = addr(198, 51, 100, 10, 5525);
    let b = addr(198, 51, 100, 11, 5525);
    let mut prober = SetupFindSuitableChannel::new(vec![a, b]);
    prober.step(ProbeEvent::Start, 0);
    assert_eq!(prober.step(ProbeEvent::BindFailed, 0), ProbeAction::Bind { ipv6: false });
    assert_eq!(prober.step(ProbeEvent::BindFailed, 0), ProbeAction::GiveUp);
    assert_eq!(prober.phase(), ProbePhase::Finished);
}

#[test]
fn prober_send_failure_abandons_candidate() {
    let a = addr(198, 51, 100, 10, 5525);
    let mut prober = SetupFindSuitableChannel::new(vec![a]);
    prober.step(ProbeEvent::Start, 0);
    prober.step(ProbeEvent::BindOk, 0);
    assert_eq!(prober.step(ProbeEvent::SendFailed, 0), ProbeAction::GiveUp);
}

#[test]
fn prober_ipv6_single_attempt() {
    let a = NetAddr::V6 { ip: 0x2001_0db8_0000_0000_0000_0000_0000_0001, port: 5525 };
    let mut prober = SetupFindSuitableChannel::new(vec![a]);
    assert_eq!(prober.step(ProbeEvent::Start, 0), ProbeAction::Bind { ipv6: true });
    prober.step(ProbeEvent::BindOk, 0);
    prober.step(ProbeEvent::SendOk, 0);
    // 3 silent windows, one attempt, then the list is exhausted
    assert_eq!(prober.step(ProbeEvent::Timeout, 0), ProbeAction::Recv { wait_ms: 500 });
    assert_eq!(prober.step(ProbeEvent::Timeout, 0), ProbeAction::Recv { wait_ms: 500 });
    assert_eq!(prober.step(ProbeEvent::Timeout, 0), ProbeAction::GiveUp);
}

fn registered() -> AgentRegistered {
    AgentRegistered {
        id: AgentSessionId { session_id: 11, account_id: 22, agent_id: 33 },
        expires_at: 99999,
    }
}

fn reply(content: ResponseContent) -> AuthEvent {
    AuthEvent::Received {
        peer: addr(198, 51, 100, 10, 5525),
        msg: Some(FeedMessage::Response { request_id: 10, content }),
    }
}

fn fresh_auth(key_hex: &str) -> Result<udp_tunnel_core::setup::Authenticator, SetupError> {
    let conn = ConnectedControl {
        control_addr: addr(198, 51, 100, 10, 5525),
        pong: pong_for(addr(198, 51, 100, 10, 5525)),
    };
    conn.authenticate(&SignedAgentKey { key: key_hex.to_string() })
}

#[test]
fn authenticate_rejects_bad_hex() {
    assert_eq!(
        fresh_auth("0g12").err(),
        Some(SetupError::FailedToDecodeSignedAgentRegisterHex)
    );
    assert_eq!(
        fresh_auth("abc").err(),
        Some(SetupError::FailedToDecodeSignedAgentRegisterHex)
    );
}

#[test]
fn queued_registration_then_success() {
    let ctl = addr(198, 51, 100, 10, 5525);
    let mut auth = fresh_auth("00ff10Ab").unwrap();
    let act = auth.step(AuthEvent::Start);
    match act {
        AuthAction::Send { addr: a, data } => {
            assert_eq!(a, ctl);
            // request id 10 in front, then the decoded key verbatim
            assert_eq!(&data[..8], &10u64.to_be_bytes());
            assert_eq!(&data[8..], &[0x00, 0xff, 0x10, 0xab]);
        }
        other => panic!("expected a send, got {:?}", other),
    }
    assert_eq!(auth.step(AuthEvent::SendOk), AuthAction::Recv { wait_ms: 500 });
    // the server queues the registration: pause a second, then a new round
    assert_eq!(
        auth.step(reply(ResponseContent::RequestQueued)),
        AuthAction::Sleep { ms: 1000 }
    );
    assert_eq!(auth.phase(), AuthPhase::Sleeping);
    match auth.step(AuthEvent::Slept) {
        AuthAction::Send { addr: a, .. } => assert_eq!(a, ctl),
        other => panic!("expected a resend, got {:?}", other),
    }
    assert_eq!(auth.step(AuthEvent::SendOk), AuthAction::Recv { wait_ms: 500 });
    assert_eq!(
        auth.step(reply(ResponseContent::AgentRegistered(registered()))),
        AuthAction::Registered { registered: registered() }
    );
    assert_eq!(auth.phase(), AuthPhase::Finished);
}

#[test]
fn registration_terminal_refusals() {
    let mut auth = fresh_auth("00ff").unwrap();
    auth.step(AuthEvent::Start);
    auth.step(AuthEvent::SendOk);
    assert_eq!(
        auth.step(reply(ResponseContent::InvalidSignature)),
        AuthAction::Failed { error: SetupError::RegisterInvalidSignature }
    );

    let mut auth = fresh_auth("00ff").unwrap();
    auth.step(AuthEvent::Start);
    auth.step(AuthEvent::SendOk);
    assert_eq!(
        auth.step(reply(ResponseContent::Unauthorized)),
        AuthAction::Failed { error: SetupError::RegisterUnauthorized }
    );
}

#[test]
fn registration_send_failure_is_io_error() {
    let mut auth = fresh_auth("00ff").unwrap();
    auth.step(AuthEvent::Start);
    assert_eq!(
        auth.step(AuthEvent::SendFailed),
        AuthAction::Failed { error: SetupError::IoError }
    );
}

#[test]
fn registration_gives_up_after_five_silent_rounds() {
    let mut auth = fresh_auth("00ff").unwrap();
    let mut act = auth.step(AuthEvent::Start);
    let mut rounds: usize = 0;
    loop {
        match act {
            AuthAction::Send { .. } => {
                rounds += 1;
                act = auth.step(AuthEvent::SendOk);
            }
            AuthAction::Recv { .. } => {
                act = auth.step(AuthEvent::Timeout);
            }
            AuthAction::Failed { error } => {
                assert_eq!(error, SetupError::FailedToConnect);
                assert_eq!(rounds, 5);
                return;
            }
            other => panic!("unexpected action {:?}", other),
        }
    }
}

#[test]
fn irrelevant_replies_consume_receive_windows() {
    let ctl = addr(198, 51, 100, 10, 5525);
    let stranger = addr(203, 0, 113, 5, 1);
    let mut auth = fresh_auth("00ff").unwrap();
    auth.step(AuthEvent::Start);
    auth.step(AuthEvent::SendOk);
    // off-address, then an unrelated content: both just consume windows
    let ev = AuthEvent::Received {
        peer: stranger,
        msg: Some(FeedMessage::Response { request_id: 10, content: ResponseContent::RequestQueued }),
    };
    assert_eq!(auth.step(ev), AuthAction::Recv { wait_ms: 500 });
    assert_eq!(
        auth.step(reply(ResponseContent::Pong(pong_for(ctl)))),
        AuthAction::Recv { wait_ms: 500 }
    );
}

#[test]
fn api_client_carries_url_and_secret() {
    let api = AuthApi {
        api_url: "https://api.example".to_string(),
        secret_key: "not-a-real-secret".to_string(),
    };
    let client = api.api_client();
    assert_eq!(client.api_url, "https://api.example");
    assert_eq!(client.secret_key.as_deref(), Some("not-a-real-secret"));
}

#[test]
fn register_request_carries_pong_addresses() {
    let tunnel = addr(198, 51, 100, 10, 5525);
    let pong = pong_for(tunnel);
    let req = make_register_request(&pong, "0.9.0".to_string(), Platform::Linux);
    assert_eq!(req.client_addr, pong.client_addr);
    assert_eq!(req.tunnel_addr, tunnel);
    assert_eq!(req.agent_version.version.version, "0.9.0");
    assert_eq!(req.agent_version.version.platform, Platform::Linux);
    assert!(req.agent_version.official);
    // the portable fallback tag when the build edge supplies none
    assert_eq!(get_platform(), Platform::Unknown);
}
