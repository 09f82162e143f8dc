//! The wire format of the values that parent and child exchange over
//! their socket pair: a boolean in one byte, a 32-bit number in four
//! bytes, most significant first.

use vstd::prelude::*;
use crate::errors::{Errcode, ErrcodeView};
use crate::text::{concat2, concat4, concat6};

verus! {

/// The byte that stands for a boolean.
pub open spec fn boolean_frame(boolean: bool) -> Seq<u8> {
    seq![if boolean { 1u8 } else { 0u8 }]
}

/// The four bytes that stand for a number, most significant first.
pub open spec fn u32_frame(value: u32) -> Seq<u8> {
    seq![
        (value / 0x100_0000) as u8,
        (value / 0x1_0000 % 0x100) as u8,
        (value / 0x100 % 0x100) as u8,
        (value % 0x100) as u8,
    ]
}

/// The number that four bytes stand for.
pub open spec fn u32_of_frame(data: Seq<u8>) -> int {
    data[0] * 0x100_0000 + data[1] * 0x1_0000 + data[2] * 0x100 + data[3]
}

/// Encodes a boolean for sending.
pub fn send_boolean(boolean: bool) -> (data: [u8; 1])
    ensures
        data@ == boolean_frame(boolean),
{
    let data: [u8; 1] = [if boolean { 1 } else { 0 }];
    assert(data@ =~= boolean_frame(boolean));
    data
}

/// Decodes a received boolean: the byte 1 is true, any other byte false.
pub fn recv_boolean(data: &[u8; 1]) -> (boolean: bool)
    ensures
        boolean == (data@[0] == 1),
{
    data[0] == 1
}

/// Encodes a number for sending.
pub fn send_u32(value: u32) -> (data: [u8; 4])
    ensures
        data@ == u32_frame(value),
{
    let data: [u8; 4] = [
        (value / 0x100_0000) as u8,
        (value / 0x1_0000 % 0x100) as u8,
        (value / 0x100 % 0x100) as u8,
        (value % 0x100) as u8,
    ];
    assert(data@ =~= u32_frame(value));
    data
}

/// Decodes a received number.
pub fn recv_u32(data: &[u8; 4]) -> (value: u32)
    ensures
        value == u32_of_frame(data@),
{
    let b0: u32 = data[0] as u32;
    let b1: u32 = data[1] as u32;
    let b2: u32 = data[2] as u32;
    let b3: u32 = data[3] as u32;
    b0 * 0x100_0000 + b1 * 0x1_0000 + b2 * 0x100 + b3
}

/// What is sent is what is received: decoding the frame of a value gives
/// the value back, for booleans and for numbers.
pub proof fn lemma_frames_round_trip(boolean: bool, value: u32)
    ensures
        (boolean_frame(boolean)[0] == 1) == boolean,
        u32_of_frame(u32_frame(value)) == value,
{
}

/// The error for a socket pair that could not be made.
pub fn socketpair_failed(cause: &str) -> (e: Errcode)
    ensures
        e.deep_view() == ErrcodeView::SocketError("Can not generate socket pair: "@ + cause@),
{
    Errcode::SocketError(concat2("Can not generate socket pair: ", cause))
}

/// The error for a value that could not be sent. `value` and `fd` are
/// the value and the descriptor as the caller prints them.
pub fn send_failed(value: &str, fd: &str, cause: &str) -> (e: Errcode)
    ensures
        e.deep_view() == ErrcodeView::SocketError(
            "Can not send "@ + value@ + " to fd "@ + fd@ + ": "@ + cause@,
        ),
{
    Errcode::SocketError(concat6("Can not send ", value, " to fd ", fd, ": ", cause))
}

/// The error for a value that could not be received.
pub fn recv_failed(fd: &str, cause: &str) -> (e: Errcode)
    ensures
        e.deep_view() == ErrcodeView::SocketError(
            "Can not read value from fd "@ + fd@ + ": "@ + cause@,
        ),
{
    Errcode::SocketError(concat4("Can not read value from fd ", fd, ": ", cause))
}

} // verus!
