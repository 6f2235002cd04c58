use udp_arith::codec::{decode_response, encode_request, encode_response};
use udp_arith::dispatch::{
    handle_datagram, process_request, worker_step, Action, Decision, Event, Notice,
    INVALID_OPCODE_RESULT,
};

#[test]
fn increment_adds_one() {
    assert_eq!(process_request(0, 102), 103);
    assert_eq!(process_request(0, 0), 1);
    assert_eq!(process_request(0, -1), 0);
    assert_eq!(process_request(0, i64::MIN), i64::MIN + 1);
    assert_eq!(process_request(0, i64::MAX - 1), i64::MAX);
}

#[test]
fn increment_saturates_at_max() {
    assert_eq!(process_request(0, i64::MAX), i64::MAX);
    assert_eq!(process_request(0, 9223372036854775807), 9223372036854775807);
}

#[test]
fn decrement_subtracts_one() {
    assert_eq!(process_request(1, 110), 109);
    assert_eq!(process_request(1, 0), -1);
    assert_eq!(process_request(1, 1), 0);
    assert_eq!(process_request(1, i64::MAX), i64::MAX - 1);
    assert_eq!(process_request(1, i64::MIN + 1), i64::MIN);
}

#[test]
fn decrement_saturates_at_min() {
    assert_eq!(process_request(1, i64::MIN), i64::MIN);
}

#[test]
fn invalid_opcode_gives_fallback() {
    assert_eq!(INVALID_OPCODE_RESULT, 0);
    assert_eq!(process_request(2, 5), 0);
    assert_eq!(process_request(255, i64::MAX), 0);
    assert_eq!(process_request(17, i64::MIN), 0);
    for opcode in 2u8..=255 {
        assert_eq!(process_request(opcode, 41), 0);
    }
}

#[test]
fn same_request_same_result() {
    let first = process_request(0, 102);
    process_request(1, 7);
    process_request(9, -3);
    process_request(0, i64::MAX);
    assert_eq!(process_request(0, 102), first);

    let reply = handle_datagram(&encode_request(1, 110), 1u16);
    handle_datagram(&[1, 2, 3], 2u16);
    handle_datagram(&encode_request(0, -5), 3u16);
    assert_eq!(handle_datagram(&encode_request(1, 110), 1u16), reply);
}

#[test]
fn datagram_is_answered_to_its_sender() {
    assert_eq!(
        handle_datagram(&encode_request(0, 102), "a"),
        Decision {
            action: Action::Send { payload: vec![0, 0, 0, 0, 0, 0, 0, 103], peer: "a" },
            notice: None
        }
    );
    assert_eq!(
        handle_datagram(&encode_request(1, 110), "b"),
        Decision {
            action: Action::Send { payload: vec![0, 0, 0, 0, 0, 0, 0, 109], peer: "b" },
            notice: None
        }
    );
}

#[test]
fn concrete_scenarios_over_the_wire() {
    let cases: [(u8, i64, i64); 4] = [
        (0, 102, 103),
        (1, 110, 109),
        (0, 9223372036854775807, 9223372036854775807),
        (2, 5, 0),
    ];
    for (opcode, operand, expected) in cases {
        let decision = handle_datagram(&encode_request(opcode, operand), 4242u32);
        match decision.action {
            Action::Send { payload, peer } => {
                assert_eq!(peer, 4242);
                assert_eq!(decode_response(&payload), Ok(expected));
            }
            other => panic!("no reply: {:?}", other),
        }
    }
}

#[test]
fn invalid_opcode_is_answered_and_noticed() {
    assert_eq!(
        handle_datagram(&encode_request(2, 5), 9u8),
        Decision {
            action: Action::Send { payload: encode_response(0), peer: 9u8 },
            notice: Some(Notice::InvalidOpcode(2))
        }
    );
}

#[test]
fn malformed_datagram_is_dropped() {
    for len in 0usize..9 {
        let payload = vec![1u8; len];
        assert_eq!(
            handle_datagram(&payload, 1u8),
            Decision { action: Action::Receive, notice: Some(Notice::Malformed) }
        );
    }
}

#[test]
fn worker_serves_after_malformed_datagram() {
    let dropped = worker_step(Event::Received { payload: vec![0, 0, 0], peer: 1u8 });
    assert_eq!(dropped.action, Action::Receive);
    let served = worker_step(Event::Received { payload: encode_request(0, 102), peer: 2u8 });
    assert_eq!(
        served,
        Decision { action: Action::Send { payload: encode_response(103), peer: 2u8 }, notice: None }
    );
}

#[test]
fn oversized_datagram_is_answered_from_its_first_nine_bytes() {
    let mut payload = encode_request(1, 110);
    payload.push(99);
    assert_eq!(
        handle_datagram(&payload, 0u8).action,
        Action::Send { payload: encode_response(109), peer: 0u8 }
    );
}

#[test]
fn worker_receives_again_after_sending() {
    assert_eq!(
        worker_step(Event::<u8>::Sent),
        Decision { action: Action::Receive, notice: None }
    );
}

#[test]
fn passing_failures_are_reported_and_survived() {
    assert_eq!(
        worker_step(Event::<u8>::ReceiveFailed { fatal: false }),
        Decision { action: Action::Receive, notice: Some(Notice::ReceiveFailed) }
    );
    assert_eq!(
        worker_step(Event::<u8>::SendFailed { fatal: false }),
        Decision { action: Action::Receive, notice: Some(Notice::SendFailed) }
    );
}

#[test]
fn unusable_socket_stops_the_worker() {
    assert_eq!(
        worker_step(Event::<u8>::ReceiveFailed { fatal: true }),
        Decision { action: Action::Stop, notice: Some(Notice::ReceiveFailed) }
    );
    assert_eq!(
        worker_step(Event::<u8>::SendFailed { fatal: true }),
        Decision { action: Action::Stop, notice: Some(Notice::SendFailed) }
    );
}

#[test]
fn many_peers_each_get_their_own_answer() {
    for peer in 0u32..8 {
        for k in 0i64..16 {
            let operand = (peer as i64) * 1_000_003 + k * 97 - 500;
            let decision = worker_step(Event::Received {
                payload: encode_request((k % 2) as u8, operand),
                peer,
            });
            let expected = if k % 2 == 0 { operand + 1 } else { operand - 1 };
            assert_eq!(
                decision.action,
                Action::Send { payload: expected.to_be_bytes().to_vec(), peer }
            );
        }
    }
}
