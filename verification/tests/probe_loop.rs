use orchard::probe_loop::{DEFAULT_PORT, DEFAULT_TIMEOUT_SECS, MAX_DATAGRAM, SOCKET_TOKEN};
use orchard::{
    Decoded, Endpoint, EventKey, Fatal, IpAddress, LoopAction, LoopState, OrchardMessage,
    ParseError, ProbeLoop, Reaction, WaitOutcome,
};

fn local() -> Endpoint {
    Endpoint::v4(0, 0, 0, 0, 5005)
}

#[test]
fn defaults() {
    let lp = ProbeLoop::new(local(), true);
    assert_eq!(lp.local, local());
    assert!(lp.active);
    assert_eq!(lp.timeout_secs, 10);
    assert_eq!(lp.peer, Endpoint { addr: IpAddress::V4([130, 209, 247, 84]), port: 5005 });
    assert_eq!(ProbeLoop::default_peer(), lp.peer);
    assert_eq!(DEFAULT_TIMEOUT_SECS, 10);
    assert_eq!(DEFAULT_PORT, 5005);
    assert_eq!(MAX_DATAGRAM, 1500);
    assert_eq!(SOCKET_TOKEN, 0);
}

#[test]
fn active_mode_timer() {
    let lp = ProbeLoop::new(local(), true);
    let action = lp.step(WaitOutcome::TimedOut);
    assert_eq!(
        action,
        LoopAction::SendProbe {
            to: Endpoint::v4(130, 209, 247, 84, 5005),
            probe: OrchardMessage::NatProbe { sender: local() },
        }
    );
    match action {
        LoopAction::SendProbe { probe, .. } => {
            let datagram = probe.encode();
            assert_eq!(
                &datagram[..],
                &[79, 82, 67, 72, 65, 82, 68, 0, 78, 80, 0, 8, 0x13, 0x8d, 0, 4, 0, 0, 0, 0]
            );
        }
        other => panic!("no probe: {:?}", other),
    }
}

#[test]
fn passive_mode_timer() {
    let lp = ProbeLoop::new(local(), false);
    assert_eq!(lp.step(WaitOutcome::TimedOut), LoopAction::Wait);
}

#[test]
fn readable_socket_is_received_from() {
    for active in [true, false] {
        let lp = ProbeLoop::new(local(), active);
        assert_eq!(
            lp.step(WaitOutcome::Ready(EventKey::Socket)),
            LoopAction::Receive { max_len: 1500 }
        );
    }
}

#[test]
fn unknown_key_and_failed_wait_end_the_loop() {
    for active in [true, false] {
        let lp = ProbeLoop::new(local(), active);
        assert_eq!(
            lp.step(WaitOutcome::Ready(EventKey::Unknown(7))),
            LoopAction::Abort(Fatal::UnexpectedKey(7))
        );
        assert_eq!(lp.step(WaitOutcome::Failed), LoopAction::Abort(Fatal::WaitFailed));
    }
}

#[test]
fn keys_of_tokens() {
    assert_eq!(EventKey::from_token(0), EventKey::Socket);
    assert_eq!(EventKey::from_token(1), EventKey::Unknown(1));
    assert_eq!(EventKey::from_token(usize::MAX), EventKey::Unknown(usize::MAX));
}

#[test]
fn datagrams_are_handled_each_alone() {
    let lp = ProbeLoop::new(local(), false);
    let msg = OrchardMessage::NatReply {
        sender: Endpoint::v4(192, 0, 2, 1, 1000),
        receiver: Endpoint::v4(198, 51, 100, 2, 2000),
    };
    let good = msg.encode();
    assert_eq!(lp.react(b"not a message"), Reaction::Rejected(ParseError::BadMagic));
    assert_eq!(
        lp.react(&good),
        Reaction::Accepted(Decoded { message: msg, trailing: 0, length_agrees: true })
    );
    assert_eq!(lp.react(&good[..13]), Reaction::Rejected(ParseError::Truncated));
    assert_eq!(
        lp.react(&good),
        Reaction::Accepted(Decoded { message: msg, trailing: 0, length_agrees: true })
    );
}

#[test]
fn a_full_buffer_is_read() {
    let lp = ProbeLoop::new(local(), true);
    let msg = OrchardMessage::NatProbe { sender: Endpoint::v4(192, 0, 2, 1, 1000) };
    let mut buffer = vec![0u8; MAX_DATAGRAM];
    let wire = msg.encode();
    buffer[..wire.len()].copy_from_slice(&wire);
    assert_eq!(
        lp.react(&buffer),
        Reaction::Accepted(Decoded { message: msg, trailing: 1480, length_agrees: true })
    );
}

#[test]
fn a_wake_up_without_sources_is_a_timeout() {
    assert_eq!(WaitOutcome::of_wake(&[]), vec![WaitOutcome::TimedOut]);
}

#[test]
fn reported_sources_keep_their_order() {
    assert_eq!(WaitOutcome::of_wake(&[0]), vec![WaitOutcome::Ready(EventKey::Socket)]);
    assert_eq!(
        WaitOutcome::of_wake(&[0, 3, 0]),
        vec![
            WaitOutcome::Ready(EventKey::Socket),
            WaitOutcome::Ready(EventKey::Unknown(3)),
            WaitOutcome::Ready(EventKey::Socket),
        ]
    );
}

#[test]
fn one_probe_for_each_timeout_and_none_otherwise() {
    let active = ProbeLoop::new(local(), true);
    let passive = ProbeLoop::new(local(), false);
    let mut sent_active = 0;
    let mut sent_passive = 0;
    for outcome in WaitOutcome::of_wake(&[]) {
        if let LoopAction::SendProbe { .. } = active.step(outcome) {
            sent_active += 1;
        }
        if let LoopAction::SendProbe { .. } = passive.step(outcome) {
            sent_passive += 1;
        }
    }
    assert_eq!(sent_active, 1);
    assert_eq!(sent_passive, 0);
    for outcome in WaitOutcome::of_wake(&[0, 0]) {
        assert_eq!(active.step(outcome), LoopAction::Receive { max_len: 1500 });
    }
}

#[test]
fn states_of_the_actions() {
    let lp = ProbeLoop::new(local(), true);
    assert_eq!(lp.step(WaitOutcome::TimedOut).state(), Some(LoopState::Probing));
    assert_eq!(lp.step(WaitOutcome::Ready(EventKey::Socket)).state(), Some(LoopState::Reacting));
    assert_eq!(lp.step(WaitOutcome::Failed).state(), None);
    assert_eq!(lp.step(WaitOutcome::Ready(EventKey::Unknown(2))).state(), None);
    let passive = ProbeLoop::new(local(), false);
    assert_eq!(passive.step(WaitOutcome::TimedOut).state(), Some(LoopState::Waiting));
    assert_ne!(LoopState::Idle, LoopState::Waiting);
}
