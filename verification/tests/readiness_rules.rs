use ring_reactor::readiness::{
    read_step, write_step, ReadAccum, ReadOutcome, ReadStep, WriteOutcome, WriteStep, BLOCK,
};
use ring_reactor::response::RESPONSE_LEN;

#[test]
fn write_rules() {
    assert_eq!(write_step(WriteOutcome::Wrote { count: RESPONSE_LEN }, RESPONSE_LEN), WriteStep::AwaitRead);
    assert_eq!(write_step(WriteOutcome::Wrote { count: RESPONSE_LEN - 1 }, RESPONSE_LEN), WriteStep::ShortWrite);
    assert_eq!(write_step(WriteOutcome::Wrote { count: 0 }, RESPONSE_LEN), WriteStep::ShortWrite);
    assert_eq!(write_step(WriteOutcome::WouldBlock, RESPONSE_LEN), WriteStep::KeepWaiting);
    assert_eq!(write_step(WriteOutcome::Interrupted, RESPONSE_LEN), WriteStep::Retry);
    assert_eq!(write_step(WriteOutcome::Failed, RESPONSE_LEN), WriteStep::Fail);
}

#[test]
fn read_rules() {
    assert_eq!(read_step(ReadOutcome::Eof), ReadStep::Closed);
    assert_eq!(read_step(ReadOutcome::Got { count: 7 }), ReadStep::Absorb);
    assert_eq!(read_step(ReadOutcome::WouldBlock), ReadStep::Settled);
    assert_eq!(read_step(ReadOutcome::Interrupted), ReadStep::Retry);
    assert_eq!(read_step(ReadOutcome::Failed), ReadStep::Fail);
}

#[test]
fn accumulator_grows_exactly_when_filled() {
    let mut a = ReadAccum::new();
    assert_eq!(a.capacity(), BLOCK);
    a.absorb(100);
    assert_eq!(a.filled(), 100);
    assert_eq!(a.capacity(), BLOCK);
    // fill to the brim: one more block appears
    a.absorb(BLOCK - 100);
    assert_eq!(a.filled(), BLOCK);
    assert_eq!(a.capacity(), 2 * BLOCK);
    a.absorb(1);
    assert_eq!(a.capacity(), 2 * BLOCK);
}

#[test]
fn epilogue_decisions() {
    let mut a = ReadAccum::new();
    assert_eq!(a.epilogue(false), (false, false));
    assert_eq!(a.epilogue(true), (false, true));
    a.absorb(5);
    assert_eq!(a.epilogue(false), (true, false));
    assert_eq!(a.epilogue(true), (true, true));
}
