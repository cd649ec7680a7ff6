use ring_reactor::engine::{drain_step, DrainStep, Engine};
use ring_reactor::tag::SubmitOp;

#[test]
fn ring_with_space_takes_the_op() {
    let mut e = Engine::new();
    let op = SubmitOp::Send { fd: 5 };
    assert_eq!(e.submit(op, true), Some(op));
    assert!(e.backlog_is_empty());
}

#[test]
fn overflow_is_absorbed_and_replayed_in_order() {
    // more operations than the ring can take: the overflow is backlogged and
    // comes back out FIFO, none dropped
    let mut e = Engine::new();
    let ops: Vec<SubmitOp> = (0..100u32).map(|fd| SubmitOp::Send { fd }).collect();
    for (i, &op) in ops.iter().enumerate() {
        // the ring has room for the first 10 only
        let to_ring = e.submit(op, i < 10);
        if i < 10 {
            assert_eq!(to_ring, Some(op));
        } else {
            assert_eq!(to_ring, None);
        }
    }
    let mut replayed = Vec::new();
    while let Some(op) = e.next_replay() {
        replayed.push(op);
    }
    assert_eq!(replayed, ops[10..].to_vec());
    assert!(e.backlog_is_empty());
}

#[test]
fn repeated_overflow_keeps_relative_order() {
    let mut e = Engine::new();
    // overflow, partial replay, overflow again
    for fd in 0..5u32 {
        e.submit(SubmitOp::Recv { fd, slot: fd as u16 }, false);
    }
    assert_eq!(e.next_replay(), Some(SubmitOp::Recv { fd: 0, slot: 0 }));
    assert_eq!(e.next_replay(), Some(SubmitOp::Recv { fd: 1, slot: 1 }));
    for fd in 5..8u32 {
        e.submit(SubmitOp::Recv { fd, slot: fd as u16 }, false);
    }
    let mut out = Vec::new();
    while let Some(op) = e.next_replay() {
        out.push(op);
    }
    let expect: Vec<SubmitOp> = (2..8u32).map(|fd| SubmitOp::Recv { fd, slot: fd as u16 }).collect();
    assert_eq!(out, expect);
}

#[test]
fn drain_decisions() {
    assert_eq!(drain_step(true, false, false), DrainStep::Stop);
    assert_eq!(drain_step(false, false, true), DrainStep::Stop);
    assert_eq!(drain_step(true, true, true), DrainStep::Stop);
    assert_eq!(drain_step(false, true, false), DrainStep::WaitForRing);
    assert_eq!(drain_step(false, false, false), DrainStep::Replay);
}
