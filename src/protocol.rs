//! Wire protocol shared by the board-side loader and the host-side pusher.
//!
//! | step | direction     | payload                                   |
//! |------|---------------|-------------------------------------------|
//! | 1    | board -> host | three bytes of value `0x03`               |
//! | 2    | host -> board | image size, little-endian `u32`           |
//! | 3    | board -> host | the bytes `'O'`, `'K'`                    |
//! | 4    | host -> board | `size` raw image bytes, in order          |
use vstd::prelude::*;

verus! {

/// Byte value the board sends to announce it is ready to receive an image.
pub const TRIGGER_BYTE: u8 = 3;

/// Number of trigger bytes that make up one announcement.
pub const TRIGGER_COUNT: usize = 3;

/// Number of bytes used to transmit the image size.
pub const SIZE_FIELD_LEN: usize = 4;

/// Number of bytes in the acknowledgment.
pub const ACK_LEN: usize = 2;

/// First acknowledgment byte.
pub const ACK_FIRST: u8 = 0x4f;

/// Second acknowledgment byte.
pub const ACK_SECOND: u8 = 0x4b;

/// The acknowledgment the board sends after reading the size.
pub open spec fn ack_bytes() -> Seq<u8> {
    seq![ACK_FIRST, ACK_SECOND]
}

/// The four little-endian bytes of `n`, least-significant first.
pub open spec fn size_le_bytes(n: u32) -> Seq<u8> {
    let v = n as int;
    seq![
        (v % 256) as u8,
        (v / 256 % 256) as u8,
        (v / 65536 % 256) as u8,
        (v / 16777216 % 256) as u8,
    ]
}

/// The unsigned value of four bytes read least-significant first.
pub open spec fn le_value(b: Seq<u8>) -> int
    recommends
        b.len() == 4,
{
    b[0] as int + 256 * (b[1] as int) + 65536 * (b[2] as int) + 16777216 * (b[3] as int)
}

/// Number of occurrences of `x` in `s`.
pub open spec fn count_of(s: Seq<u8>, x: u8) -> nat
    decreases s.len(),
{
    if s.len() == 0 {
        0
    } else {
        count_of(s.drop_last(), x) + if s.last() == x {
            1nat
        } else {
            0nat
        }
    }
}

/// Everything the host sends for an image: its size field, then its bytes.
pub open spec fn transfer_wire(image: Seq<u8>) -> Seq<u8>
    recommends
        image.len() < u32::MAX,
{
    size_le_bytes(image.len() as u32) + image
}

/// What the board makes of a byte stream: the size field, then that many
/// image bytes. `None` when the stream ends before the image is complete.
pub open spec fn board_receive(wire: Seq<u8>) -> Option<Seq<u8>> {
    if wire.len() < 4 {
        None
    } else {
        let n = le_value(wire.take(4));
        if wire.len() < 4 + n {
            None
        } else {
            Some(wire.subrange(4, 4 + n))
        }
    }
}

/// Encodes the image size as four bytes, least-significant first.
pub fn encode_size(size: u32) -> (r: [u8; 4])
    ensures
        r@ == size_le_bytes(size),
{
    let r: [u8; 4] = [
        (size % 256) as u8,
        (size / 256 % 256) as u8,
        (size / 65536 % 256) as u8,
        (size / 16777216 % 256) as u8,
    ];
    assert(r@ =~= size_le_bytes(size));
    r
}

/// Decodes an image size from four bytes received least-significant first.
pub fn decode_size(bytes: &[u8; 4]) -> (r: u32)
    ensures
        r as int == le_value(bytes@),
{
    bytes[0] as u32 + 256 * (bytes[1] as u32) + 65536 * (bytes[2] as u32) + 16777216 * (
    bytes[3] as u32)
}

/// Whether a reply is exactly the acknowledgment `O`,`K`.
pub fn is_ack(reply: &[u8]) -> (r: bool)
    ensures
        r == (reply@ == ack_bytes()),
{
    if reply.len() == ACK_LEN && reply[0] == ACK_FIRST && reply[1] == ACK_SECOND {
        assert(reply@ =~= ack_bytes());
        true
    } else {
        false
    }
}

/// Counts the trigger bytes in a chunk read from the serial line.
pub fn count_triggers(chunk: &[u8]) -> (r: usize)
    ensures
        r as nat == count_of(chunk@, TRIGGER_BYTE),
{
    let mut n: usize = 0;
    let mut i: usize = 0;
    while i < chunk.len()
        invariant
            i <= chunk.len(),
            n as nat == count_of(chunk@.take(i as int), TRIGGER_BYTE),
            n <= i,
        decreases chunk.len() - i,
    {
        assert(chunk@.take(i + 1).drop_last() =~= chunk@.take(i as int));
        if chunk[i] == TRIGGER_BYTE {
            n = n + 1;
        }
        i = i + 1;
    }
    assert(chunk@.take(i as int) =~= chunk@);
    n
}

/// Decoding the encoded size gives the size back.
pub proof fn lemma_size_round_trip(n: u32)
    ensures
        le_value(size_le_bytes(n)) == n as int,
{
    let v = n as int;
    let q1 = v / 256;
    let q2 = q1 / 256;
    let q3 = q2 / 256;
    vstd::arithmetic::div_mod::lemma_fundamental_div_mod(v, 256);
    vstd::arithmetic::div_mod::lemma_fundamental_div_mod(q1, 256);
    vstd::arithmetic::div_mod::lemma_fundamental_div_mod(q2, 256);
    vstd::arithmetic::div_mod::lemma_div_denominator(v, 256, 256);
    vstd::arithmetic::div_mod::lemma_div_denominator(v, 65536, 256);
    assert(q3 < 256);
}

/// An image sent by the host arrives on the board whole, in order and
/// unchanged.
pub proof fn lemma_transfer_round_trip(image: Seq<u8>)
    requires
        image.len() < u32::MAX,
    ensures
        board_receive(transfer_wire(image)) == Some(image),
{
    let n = image.len() as u32;
    lemma_size_round_trip(n);
    let w = transfer_wire(image);
    assert(w.take(4) =~= size_le_bytes(n));
    assert(w.subrange(4, 4 + image.len() as int) =~= image);
}

} // verus!
