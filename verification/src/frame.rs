//! Frames: a payload behind its length, which takes four bytes, the most
//! significant first.

use vstd::prelude::*;

verus! {

/// The number of bytes in front of a payload.
pub const HEADER_LEN: usize = 4;

/// One more than the longest length that a header can give.
pub const LENGTH_LIMIT: u64 = 0x1_0000_0000;

/// The header for a payload of `len` bytes; of a length that takes more than
/// four bytes it holds the last four.
pub open spec fn header(len: nat) -> Seq<u8> {
    seq![
        (len / 0x100_0000 % 0x100) as u8,
        (len / 0x1_0000 % 0x100) as u8,
        (len / 0x100 % 0x100) as u8,
        (len % 0x100) as u8,
    ]
}

/// The length that a header gives.
pub open spec fn header_value(header: Seq<u8>) -> nat {
    (header[0] * 0x100_0000 + header[1] * 0x1_0000 + header[2] * 0x100 + header[3]) as nat
}

/// The frame for a payload.
pub open spec fn framed(payload: Seq<u8>) -> Seq<u8> {
    header(payload.len()) + payload
}

/// Puts a payload behind its header.
pub fn frame(payload: &Vec<u8>) -> (bytes: Vec<u8>)
    ensures
        bytes@ == framed(payload@),
{
    let len: u64 = payload.len() as u64;
    let mut bytes: Vec<u8> = Vec::new();
    bytes.push((len / 0x100_0000 % 0x100) as u8);
    bytes.push((len / 0x1_0000 % 0x100) as u8);
    bytes.push((len / 0x100 % 0x100) as u8);
    bytes.push((len % 0x100) as u8);
    assert(bytes@ =~= header(payload@.len()));
    bytes.extend_from_slice(payload.as_slice());
    assert(bytes@ =~= framed(payload@));
    bytes
}

/// Reads the length of a payload from its header.
pub fn payload_len(header: [u8; 4]) -> (len: usize)
    ensures
        len == header_value(header@),
{
    let len: u32 = header[0] as u32 * 0x100_0000 + header[1] as u32 * 0x1_0000 + header[2] as u32
        * 0x100 + header[3] as u32;
    len as usize
}

/// A header gives back the length that it was made for, short of 4 GiB; of a
/// longer one it gives what is left over.
pub proof fn header_gives_its_length(len: nat)
    ensures
        header(len).len() == HEADER_LEN,
        header_value(header(len)) == len % LENGTH_LIMIT as nat,
        len < LENGTH_LIMIT ==> header_value(header(len)) == len,
{
    let q1 = len / 0x100;
    let q2 = q1 / 0x100;
    let q3 = q2 / 0x100;
    let q4 = q3 / 0x100;
    assert(len / 0x1_0000 == q2) by (nonlinear_arith)
        requires
            q2 == len / 0x100 / 0x100,
    ;
    assert(len / 0x100_0000 == q3) by (nonlinear_arith)
        requires
            q3 == len / 0x100 / 0x100 / 0x100,
    ;
    assert(len == 0x100 * q1 + len % 0x100);
    assert(q1 == 0x100 * q2 + q1 % 0x100);
    assert(q2 == 0x100 * q3 + q2 % 0x100);
    assert(q3 == 0x100 * q4 + q3 % 0x100);
    let value = header_value(header(len));
    assert(value == q3 % 0x100 * 0x100_0000 + q2 % 0x100 * 0x1_0000 + q1 % 0x100 * 0x100 + len
        % 0x100);
    assert(len == q4 * LENGTH_LIMIT + value);
    assert(value == len % LENGTH_LIMIT as nat) by (nonlinear_arith)
        requires
            len == q4 * 0x1_0000_0000 + value,
            value < 0x1_0000_0000,
            LENGTH_LIMIT == 0x1_0000_0000,
    ;
}

/// What is framed can be read back, whatever follows it: the header gives the
/// length of the payload, and that many bytes behind it are the payload.
pub proof fn frames_can_be_read_back(payload: Seq<u8>, rest: Seq<u8>)
    requires
        payload.len() < LENGTH_LIMIT,
    ensures
        header_value((framed(payload) + rest).take(HEADER_LEN as int)) == payload.len(),
        (framed(payload) + rest).skip(HEADER_LEN as int).take(payload.len() as int) == payload,
{
    let bytes = framed(payload) + rest;
    header_gives_its_length(payload.len());
    assert(bytes.take(HEADER_LEN as int) =~= header(payload.len()));
    assert(bytes.skip(HEADER_LEN as int).take(payload.len() as int) =~= payload);
}

/// The header of a payload is its length in base 256, the most significant byte
/// first.
pub proof fn headers_are_big_endian(len: nat, bytes: Seq<u8>)
    requires
        bytes.len() == 4,
    ensures
        header(len).len() == 4,
        len < 0x1_0000_0000 ==> header(len)[0] * 0x100_0000 + header(len)[1] * 0x1_0000 + header(
            len,
        )[2] * 0x100 + header(len)[3] == len,
        header_value(bytes) == bytes[0] * 0x100_0000 + bytes[1] * 0x1_0000 + bytes[2] * 0x100
            + bytes[3],
{
    header_gives_its_length(len);
}

/// A frame is four bytes longer than its payload, and the payload stands behind
/// those four, byte for byte.
pub proof fn frames_hold_their_payload(payload: Seq<u8>)
    ensures
        framed(payload).len() == payload.len() + 4,
        forall|i: int| 0 <= i < payload.len() ==> #[trigger] framed(payload)[i + 4] == payload[i],
        forall|i: int|
            0 <= i < 4 ==> #[trigger] framed(payload)[i] == header(payload.len())[i],
{
}

} // verus!
