//! Beacon relay frames broadcast beside the ranging radio.
//!
//! Every broadcast frame opens with a fixed header — the mesh advertisement
//! type byte followed by the ten ASCII bytes of the product name — so peers
//! can tell the mesh's frames from unrelated traffic. A periodic keep-alive
//! message carries a running counter.

use vstd::prelude::*;

use vstd::bytes::spec_u32_to_le_bytes;
use vstd::bytes::u32_to_le_bytes;

verus! {

/// The mesh advertisement type byte.
pub const BEACON_AD_TYPE: u8 = 0x2A;

/// Length of a beacon message body.
pub const BEACON_MESSAGE_LEN: usize = 242;

/// Length of a raw advertisement payload.
pub const BEACON_PAYLOAD_LEN: usize = 252;

/// The ten ASCII bytes of the product name, `Harmoneyes`.
pub open spec fn beacon_name() -> Seq<u8> {
    seq![0x48u8, 0x61, 0x72, 0x6d, 0x6f, 0x6e, 0x65, 0x79, 0x65, 0x73]
}

/// The header every received mesh frame carries at bytes `[1, 12)`: the
/// advertisement type byte followed by the product name.
pub open spec fn beacon_header() -> Seq<u8> {
    seq![BEACON_AD_TYPE] + beacon_name()
}

/// Whether received advertisement data is a mesh frame: long enough, and
/// opening (after the leading length byte) with the beacon header.
pub open spec fn is_beacon_frame(data: Seq<u8>) -> bool {
    data.len() > 12 && data.subrange(1, 12) == beacon_header()
}

/// The product-name bytes that open every frame.
pub fn beacon_name_bytes() -> (name: Vec<u8>)
    ensures
        name@ == beacon_name(),
{
    let mut name: Vec<u8> = Vec::new();
    name.push(0x48);
    name.push(0x61);
    name.push(0x72);
    name.push(0x6d);
    name.push(0x6f);
    name.push(0x6e);
    name.push(0x65);
    name.push(0x79);
    name.push(0x65);
    name.push(0x73);
    proof {
        assert(name@ =~= beacon_name());
    }
    name
}

/// Builds the 252-byte raw advertisement payload: the product name, then
/// the 242-byte message body. The radio's advertisement builder prepends
/// the length and type bytes that receivers check as part of the header.
pub fn build_beacon_payload(message: &Vec<u8>) -> (payload: Vec<u8>)
    requires
        message@.len() == BEACON_MESSAGE_LEN,
    ensures
        payload@.len() == BEACON_PAYLOAD_LEN,
        payload@.subrange(0, 10) == beacon_name(),
        payload@.subrange(10, BEACON_PAYLOAD_LEN as int) == message@,
{
    let mut payload = beacon_name_bytes();
    let mut i: usize = 0;
    while i < BEACON_MESSAGE_LEN
        invariant
            message@.len() == BEACON_MESSAGE_LEN,
            i <= BEACON_MESSAGE_LEN,
            payload@.len() == 10 + i,
            forall|j: int| 0 <= j < 10 ==> payload@[j] == beacon_name()[j],
            forall|j: int| 0 <= j < i ==> payload@[10 + j] == message@[j],
        decreases BEACON_MESSAGE_LEN - i,
    {
        payload.push(message[i]);
        i = i + 1;
    }
    proof {
        assert(payload@.subrange(0, 10) =~= beacon_name());
        assert(payload@.subrange(10, BEACON_PAYLOAD_LEN as int) =~= message@);
    }
    payload
}

/// Recognizes a mesh frame and strips its framing, returning the body that
/// follows the header. Anything else is ignored.
pub fn parse_beacon_frame(data: &Vec<u8>) -> (body: Option<Vec<u8>>)
    ensures
        body is Some <==> is_beacon_frame(data@),
        body matches Some(b) ==> b@ == data@.skip(12),
{
    if data.len() <= 12 {
        return None;
    }
    let mut header = beacon_name_bytes();
    header.insert(0, BEACON_AD_TYPE);
    proof {
        assert(header@ =~= beacon_header());
    }
    let mut i: usize = 0;
    while i < 11
        invariant
            data@.len() > 12,
            header@ == beacon_header(),
            header@.len() == 11,
            i <= 11,
            forall|j: int| 0 <= j < i ==> data@[1 + j] == header@[j],
        decreases 11 - i,
    {
        if data[1 + i] != header[i] {
            proof {
                assert(data@.subrange(1, 12)[i as int] == data@[1 + i]);
            }
            return None;
        }
        i = i + 1;
    }
    proof {
        assert(data@.subrange(1, 12) =~= beacon_header());
    }
    let mut body: Vec<u8> = Vec::new();
    let mut k: usize = 12;
    while k < data.len()
        invariant
            12 <= k <= data@.len(),
            body@.len() == k - 12,
            forall|j: int| 0 <= j < body@.len() ==> body@[j] == data@[12 + j],
        decreases data@.len() - k,
    {
        body.push(data[k]);
        k = k + 1;
    }
    proof {
        assert(body@ =~= data@.skip(12));
    }
    Some(body)
}

/// The seven ASCII bytes of the keep-alive tag, `Signal `.
pub open spec fn keep_alive_tag() -> Seq<u8> {
    seq![0x53u8, 0x69, 0x67, 0x6e, 0x61, 0x6c, 0x20]
}

/// The keep-alive message body carrying the running counter `count`: the
/// tag, the counter's four little-endian bytes, and zero padding.
pub open spec fn keep_alive_frame(count: u32) -> Seq<u8> {
    Seq::new(
        BEACON_MESSAGE_LEN as nat,
        |i: int|
            if i < 7 {
                keep_alive_tag()[i]
            } else if i < 11 {
                spec_u32_to_le_bytes(count)[i - 7]
            } else {
                0u8
            },
    )
}

/// Builds the keep-alive message body for the running counter `count`.
pub fn build_keep_alive_frame(count: u32) -> (frame: Vec<u8>)
    ensures
        frame@ == keep_alive_frame(count),
        frame@.len() == BEACON_MESSAGE_LEN,
{
    let mut frame: Vec<u8> = Vec::new();
    frame.push(0x53);
    frame.push(0x69);
    frame.push(0x67);
    frame.push(0x6e);
    frame.push(0x61);
    frame.push(0x6c);
    frame.push(0x20);
    let le = u32_to_le_bytes(count);
    let mut i: usize = 0;
    while i < 4
        invariant
            le@ == spec_u32_to_le_bytes(count),
            le@.len() == 4,
            i <= 4,
            frame@.len() == 7 + i,
            forall|j: int| 0 <= j < 7 ==> frame@[j] == keep_alive_tag()[j],
            forall|j: int| 0 <= j < i ==> frame@[7 + j] == le@[j],
        decreases 4 - i,
    {
        frame.push(le[i]);
        i = i + 1;
    }
    let mut k: usize = 11;
    while k < BEACON_MESSAGE_LEN
        invariant
            le@ == spec_u32_to_le_bytes(count),
            le@.len() == 4,
            11 <= k <= BEACON_MESSAGE_LEN,
            frame@.len() == k,
            forall|j: int| 0 <= j < 7 ==> frame@[j] == keep_alive_tag()[j],
            forall|j: int| 0 <= j < 4 ==> frame@[7 + j] == le@[j],
            forall|j: int| 11 <= j < k ==> frame@[j] == 0u8,
        decreases BEACON_MESSAGE_LEN - k,
    {
        frame.push(0);
        k = k + 1;
    }
    proof {
        assert(frame@ =~= keep_alive_frame(count));
    }
    frame
}

} // verus!
