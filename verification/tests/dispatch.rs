use ring_reactor::reactor::Reactor;
use ring_reactor::tag::{encode, OpTag, SubmitOp};

fn recv_slot(op: &SubmitOp) -> u16 {
    match op {
        SubmitOp::Recv { fd: _, slot } => *slot,
        _ => panic!("expected a receive, got {:?}", op),
    }
}

#[test]
fn accept_with_continuation_flag_present() {
    // the armed accept keeps running: no re-arm, exactly one receive
    let mut r = Reactor::with_capacity(4);
    let ops = r.on_completion(encode(OpTag::Accept), 9, true);
    assert_eq!(ops.len(), 1);
    assert!(matches!(ops[0], SubmitOp::Recv { fd: 9, slot: _ }));
    assert!(r.slot_is_allocated(recv_slot(&ops[0])));
}

#[test]
fn accept_with_continuation_flag_absent() {
    // re-arm exactly once, then the receive for the new connection
    let mut r = Reactor::with_capacity(4);
    let ops = r.on_completion(encode(OpTag::Accept), 9, false);
    assert_eq!(ops.len(), 2);
    assert_eq!(ops[0], SubmitOp::Accept);
    assert!(matches!(ops[1], SubmitOp::Recv { fd: 9, slot: _ }));
}

#[test]
fn receive_with_data_sends_response() {
    let mut r = Reactor::with_capacity(4);
    let ops = r.on_completion(encode(OpTag::Accept), 9, true);
    let slot = recv_slot(&ops[0]);
    let ops = r.on_completion(encode(OpTag::Recv { fd: 9, slot }), 18, false);
    assert_eq!(ops, vec![SubmitOp::Send { fd: 9 }]);
    // the buffer slot went back to the pool
    assert!(!r.slot_is_allocated(slot));
}

#[test]
fn zero_length_receive_closes_once() {
    // the peer closed: exactly one close, and the mirrored send after it;
    // the buffer slot is released exactly once
    let mut r = Reactor::with_capacity(4);
    let ops = r.on_completion(encode(OpTag::Accept), 9, true);
    let slot = recv_slot(&ops[0]);
    let ops = r.on_completion(encode(OpTag::Recv { fd: 9, slot }), 0, false);
    assert_eq!(ops, vec![SubmitOp::Close { fd: 9 }, SubmitOp::Send { fd: 9 }]);
    let closes = ops.iter().filter(|op| matches!(op, SubmitOp::Close { .. })).count();
    assert_eq!(closes, 1);
    assert!(!r.slot_is_allocated(slot));
}

#[test]
fn send_completion_rearms_receive() {
    let mut r = Reactor::with_capacity(4);
    let ops = r.on_completion(encode(OpTag::Accept), 9, true);
    let first_slot = recv_slot(&ops[0]);
    r.on_completion(encode(OpTag::Recv { fd: 9, slot: first_slot }), 18, false);
    let ops = r.on_completion(encode(OpTag::Send { fd: 9 }), 81, false);
    assert_eq!(ops.len(), 1);
    assert!(matches!(ops[0], SubmitOp::Recv { fd: 9, slot: _ }));
    assert!(r.slot_is_allocated(recv_slot(&ops[0])));
}

#[test]
fn close_completion_is_terminal() {
    let mut r = Reactor::with_capacity(4);
    let ops = r.on_completion(encode(OpTag::Close), 0, false);
    assert!(ops.is_empty());
}

#[test]
fn failed_receive_still_releases_its_slot() {
    let mut r = Reactor::with_capacity(4);
    let ops = r.on_completion(encode(OpTag::Accept), 9, true);
    let slot = recv_slot(&ops[0]);
    // ECONNRESET, say: connection abandoned, nothing further submitted
    let ops = r.on_completion(encode(OpTag::Recv { fd: 9, slot }), -104, false);
    assert!(ops.is_empty());
    assert!(!r.slot_is_allocated(slot));
}

#[test]
fn failed_accept_and_send_change_nothing() {
    let mut r = Reactor::with_capacity(4);
    assert!(r.on_completion(encode(OpTag::Accept), -11, false).is_empty());
    assert!(r.on_completion(encode(OpTag::Send { fd: 9 }), -32, false).is_empty());
}

#[test]
fn concurrent_connections_use_distinct_slots() {
    let mut r = Reactor::with_capacity(8);
    let mut slots = Vec::new();
    for fd in 100..150u32 {
        let ops = r.on_completion(encode(OpTag::Accept), fd as i32, true);
        let slot = recv_slot(&ops[0]);
        assert!(!slots.contains(&slot), "slot {} owned by two receives", slot);
        slots.push(slot);
    }
    for &slot in &slots {
        assert!(r.slot_is_allocated(slot));
    }
}
