//! The canned response.
//!
//! The responder answers every request, whatever its content, with one fixed
//! byte string:
//!
//! ```text
//! HTTP/1.1 200 OK\r\n
//! Content-type: text/html\r\n
//! Content-length: 17\r\n
//! \r\n
//! Have a nice day!\n
//! ```
//!
//! The specification pins every byte, so a caller sending these bytes to a
//! connection sends exactly this reply, with no extra framing.

use vstd::prelude::*;

verus! {

/// Length in bytes of the canned response.
pub const RESPONSE_LEN: usize = 81;

/// The canned response, byte for byte.
pub open spec fn response_spec() -> Seq<u8> {
    seq![
        72u8, 84u8, 84u8, 80u8, 47u8, 49u8, 46u8, 49u8, 32u8, 50u8, 48u8, 48u8, 32u8,
        79u8, 75u8, 13u8, 10u8, 67u8, 111u8, 110u8, 116u8, 101u8, 110u8, 116u8, 45u8,
        116u8, 121u8, 112u8, 101u8, 58u8, 32u8, 116u8, 101u8, 120u8, 116u8, 47u8,
        104u8, 116u8, 109u8, 108u8, 13u8, 10u8, 67u8, 111u8, 110u8, 116u8, 101u8,
        110u8, 116u8, 45u8, 108u8, 101u8, 110u8, 103u8, 116u8, 104u8, 58u8, 32u8,
        49u8, 55u8, 13u8, 10u8, 13u8, 10u8, 72u8, 97u8, 118u8, 101u8, 32u8, 97u8,
        32u8, 110u8, 105u8, 99u8, 101u8, 32u8, 100u8, 97u8, 121u8, 33u8, 10u8
    ]
}

/// The canned response as a vector of bytes.
#[verifier::rlimit(100)]
pub fn response_bytes() -> (r: Vec<u8>)
    ensures
        r@ == response_spec(),
        r@.len() == RESPONSE_LEN,
{
    let mut v: Vec<u8> = Vec::new();
    v.push(72);
    v.push(84);
    v.push(84);
    v.push(80);
    v.push(47);
    v.push(49);
    v.push(46);
    v.push(49);
    v.push(32);
    v.push(50);
    v.push(48);
    v.push(48);
    v.push(32);
    v.push(79);
    v.push(75);
    v.push(13);
    v.push(10);
    v.push(67);
    v.push(111);
    v.push(110);
    v.push(116);
    v.push(101);
    v.push(110);
    v.push(116);
    v.push(45);
    v.push(116);
    v.push(121);
    v.push(112);
    v.push(101);
    v.push(58);
    v.push(32);
    v.push(116);
    v.push(101);
    v.push(120);
    v.push(116);
    v.push(47);
    v.push(104);
    v.push(116);
    v.push(109);
    v.push(108);
    v.push(13);
    v.push(10);
    v.push(67);
    v.push(111);
    v.push(110);
    v.push(116);
    v.push(101);
    v.push(110);
    v.push(116);
    v.push(45);
    v.push(108);
    v.push(101);
    v.push(110);
    v.push(103);
    v.push(116);
    v.push(104);
    v.push(58);
    v.push(32);
    v.push(49);
    v.push(55);
    v.push(13);
    v.push(10);
    v.push(13);
    v.push(10);
    v.push(72);
    v.push(97);
    v.push(118);
    v.push(101);
    v.push(32);
    v.push(97);
    v.push(32);
    v.push(110);
    v.push(105);
    v.push(99);
    v.push(101);
    v.push(32);
    v.push(100);
    v.push(97);
    v.push(121);
    v.push(33);
    v.push(10);
    proof {
        assert(v@ =~= response_spec());
    }
    v
}

} // verus!
