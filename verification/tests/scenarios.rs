use ring_reactor::reactor::Reactor;
use ring_reactor::response::response_bytes;
use ring_reactor::tag::{encode, OpTag, SubmitOp};

#[test]
fn response_is_the_exact_literal() {
    let expect = b"HTTP/1.1 200 OK\r\nContent-type: text/html\r\nContent-length: 17\r\n\r\nHave a nice day!\n";
    assert_eq!(response_bytes(), expect.to_vec());
    assert_eq!(response_bytes().len(), 81);
}

#[test]
fn one_connection_two_requests() {
    // a client connects and sends a request: the reply is exactly the canned
    // response, the connection stays open, and a second request on the same
    // connection yields the identical reply
    let mut r = Reactor::with_capacity(4);
    let fd = 33u32;

    // the connection arrives
    let ops = r.on_completion(encode(OpTag::Accept), fd as i32, true);
    let slot = match ops[0] {
        SubmitOp::Recv { fd: f, slot } => {
            assert_eq!(f, fd);
            slot
        }
        ref op => panic!("expected a receive, got {:?}", op),
    };

    // first request: "GET / HTTP/1.1\r\n\r\n", 18 bytes
    let ops = r.on_completion(encode(OpTag::Recv { fd, slot }), 18, false);
    assert_eq!(ops, vec![SubmitOp::Send { fd }]);
    let first_reply = response_bytes();

    // the send completes; no close was ever submitted, so the connection is
    // open and armed for the next request
    let ops = r.on_completion(encode(OpTag::Send { fd }), first_reply.len() as i32, false);
    let slot2 = match ops[0] {
        SubmitOp::Recv { fd: f, slot } => {
            assert_eq!(f, fd);
            slot
        }
        ref op => panic!("expected a receive, got {:?}", op),
    };

    // second request, identical reply
    let ops = r.on_completion(encode(OpTag::Recv { fd, slot: slot2 }), 18, false);
    assert_eq!(ops, vec![SubmitOp::Send { fd }]);
    assert_eq!(response_bytes(), first_reply);
}

#[test]
fn peer_close_tears_the_connection_down() {
    let mut r = Reactor::with_capacity(4);
    let fd = 41u32;
    let ops = r.on_completion(encode(OpTag::Accept), fd as i32, true);
    let slot = match ops[0] {
        SubmitOp::Recv { fd: _, slot } => slot,
        ref op => panic!("expected a receive, got {:?}", op),
    };
    // zero-length read: one close; the send is still issued alongside it
    let ops = r.on_completion(encode(OpTag::Recv { fd, slot }), 0, false);
    assert_eq!(ops, vec![SubmitOp::Close { fd }, SubmitOp::Send { fd }]);
    // the close completion is terminal
    let ops = r.on_completion(encode(OpTag::Close), 0, false);
    assert!(ops.is_empty());
}
