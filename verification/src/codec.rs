//! Wire codec for the reply-delay field embedded in ranging packets.
//!
//! A received packet of length `len > 12` carries an 8-byte fixed-width
//! unsigned integer, the peer's reply delay, in its bytes `[len - 12, len - 4)`.
//! The field holds the value in the devices' native byte order, which is
//! little-endian: least significant byte first. A value of `0` is a sentinel
//! meaning "no prior reply".

use vstd::prelude::*;
use vstd::bytes::lemma_auto_spec_u64_to_from_le_bytes;
use vstd::bytes::spec_u64_from_le_bytes;
use vstd::bytes::spec_u64_to_le_bytes;
use vstd::bytes::u64_from_le_bytes;
use vstd::bytes::u64_to_le_bytes;

verus! {

/// Number of bytes in an encoded reply-delay field.
pub const REPLY_FIELD_LEN: usize = 8;

/// Distance from the packet end back to the first byte of the field.
pub const REPLY_FIELD_BACK_OFFSET: usize = 12;

/// The 8-byte wire image of a reply delay: its little-endian bytes, the
/// devices' native order.
pub open spec fn reply_delay_bytes(delay: u64) -> Seq<u8> {
    spec_u64_to_le_bytes(delay)
}

/// The reply delay that an 8-byte wire field denotes.
pub open spec fn field_delay(field: Seq<u8>) -> u64
    recommends
        field.len() == 8,
{
    spec_u64_from_le_bytes(field)
}

/// The reply-delay field of a packet of length `len`: bytes `[len - 12, len - 4)`.
pub open spec fn packet_delay_field(packet: Seq<u8>, len: int) -> Seq<u8>
    recommends
        12 < len <= packet.len(),
{
    packet.subrange(len - 12, len - 4)
}

/// The reply delay carried by a packet of length `len`.
pub open spec fn packet_reply_delay(packet: Seq<u8>, len: int) -> u64
    recommends
        12 < len <= packet.len(),
{
    field_delay(packet_delay_field(packet, len))
}

/// Encoding a reply delay and reading the field back returns the original
/// value: the field codec loses nothing, for every representable 64-bit
/// delay, the zero sentinel and the maximum included.
pub proof fn lemma_reply_delay_round_trip(delay: u64)
    ensures
        reply_delay_bytes(delay).len() == 8,
        field_delay(reply_delay_bytes(delay)) == delay,
{
    lemma_auto_spec_u64_to_from_le_bytes();
}

/// Writing a reply delay into the field window of a correctly sized buffer
/// and decoding that buffer returns the original value.
pub proof fn lemma_packet_round_trip(packet: Seq<u8>, len: int, delay: u64)
    requires
        12 < len <= packet.len(),
        packet_delay_field(packet, len) == reply_delay_bytes(delay),
    ensures
        packet_reply_delay(packet, len) == delay,
{
    lemma_reply_delay_round_trip(delay);
}

/// Builds the 8-byte reply-delay field for `delay`.
pub fn encode_reply_delay(delay: u64) -> (field: Vec<u8>)
    ensures
        field@ == reply_delay_bytes(delay),
        field@.len() == 8,
{
    u64_to_le_bytes(delay)
}

/// Reads the reply delay out of the field at `[len - 12, len - 4)` of `packet`.
pub fn decode_reply_delay(packet: &Vec<u8>, len: usize) -> (delay: u64)
    requires
        12 < len <= packet@.len(),
    ensures
        delay == packet_reply_delay(packet@, len as int),
{
    let mut field: Vec<u8> = Vec::new();
    let mut i: usize = 0;
    while i < 8
        invariant
            12 < len <= packet@.len(),
            i <= 8,
            field@.len() == i,
            forall|j: int| 0 <= j < i ==> field@[j] == packet@[len - 12 + j],
        decreases 8 - i,
    {
        field.push(packet[len - 12 + i]);
        i += 1;
    }
    proof {
        assert(field@ =~= packet_delay_field(packet@, len as int));
    }
    u64_from_le_bytes(field.as_slice())
}

/// Writes the reply-delay field of `delay` into `packet` at
/// `[len - 12, len - 4)`, leaving every other byte unchanged.
pub fn write_reply_delay(packet: &mut Vec<u8>, len: usize, delay: u64)
    requires
        12 < len <= old(packet)@.len(),
    ensures
        final(packet)@.len() == old(packet)@.len(),
        packet_delay_field(final(packet)@, len as int) == reply_delay_bytes(delay),
        packet_reply_delay(final(packet)@, len as int) == delay,
        forall|j: int|
            0 <= j < final(packet)@.len() && !(len - 12 <= j < len - 4) ==> final(packet)@[j]
                == old(packet)@[j],
{
    let field = encode_reply_delay(delay);
    let mut i: usize = 0;
    while i < 8
        invariant
            12 < len <= packet@.len(),
            packet@.len() == old(packet)@.len(),
            field@ == reply_delay_bytes(delay),
            field@.len() == 8,
            i <= 8,
            forall|j: int| 0 <= j < i ==> packet@[len - 12 + j] == field@[j],
            forall|j: int|
                0 <= j < packet@.len() && !(len - 12 <= j < len - 12 + i) ==> packet@[j] == old(
                    packet,
                )@[j],
        decreases 8 - i,
    {
        packet.set(len - 12 + i, field[i]);
        i += 1;
    }
    proof {
        assert(packet_delay_field(packet@, len as int) =~= reply_delay_bytes(delay));
        lemma_packet_round_trip(packet@, len as int, delay);
    }
}

} // verus!
