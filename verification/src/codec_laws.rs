//! What holds of the codec as a whole: decoding undoes encoding, and
//! encoding undoes decoding.

use crate::codes::NEGATIVE_RESPONSE;
use crate::socket_can::MAX_CAN_PAYLOAD;
use crate::frame::{decode, did_bytes, did_of, high_byte, low_byte, split_did, FrameError, FrameView};
use vstd::prelude::*;

verus! {

/// Splitting a 16-bit value into two bytes and joining them gives it back.
pub proof fn lemma_did_join_split(d: u16)
    ensures
        did_of(high_byte(d), low_byte(d)) == d,
{
    assert((((d >> 8) as u8) as u16) << 8 | (((d & 0xFF) as u8) as u16) == d) by (bit_vector);
}

/// Joining two bytes into a 16-bit value and splitting it gives them back.
pub proof fn lemma_did_split_join(hi: u8, lo: u8)
    ensures
        high_byte(did_of(hi, lo)) == hi,
        low_byte(did_of(hi, lo)) == lo,
{
    assert(((((hi as u16) << 8) | (lo as u16)) >> 8) as u8 == hi) by (bit_vector);
    assert(((((hi as u16) << 8) | (lo as u16)) & 0xFF) as u8 == lo) by (bit_vector);
}

/// The bytes after the service identifier are read back as they were
/// written, where the data identifier is present or too few bytes follow to
/// be taken for one.
proof fn lemma_split_did_of_written(did: Option<u16>, payload: Seq<u8>)
    requires
        did is Some || payload.len() < 2,
    ensures
        split_did(did_bytes(did) + payload) == (did, payload),
{
    let rest = did_bytes(did) + payload;
    match did {
        Some(d) => {
            lemma_did_join_split(d);
            assert(rest.skip(2) =~= payload);
        },
        None => {
            assert(rest =~= payload);
        },
    }
}

/// The bytes after the service identifier are written back as they were
/// read.
proof fn lemma_written_of_split_did(rest: Seq<u8>)
    ensures
        did_bytes(split_did(rest).0) + split_did(rest).1 == rest,
{
    if rest.len() >= 2 {
        lemma_did_split_join(rest[0], rest[1]);
        assert(did_bytes(split_did(rest).0) + split_did(rest).1 =~= rest);
    } else {
        assert(did_bytes(split_did(rest).0) + split_did(rest).1 =~= rest);
    }
}

/// A value that fits four bits shares its byte with a kind's selector
/// without loss: the high nibble reads as the selector and the low nibble as
/// the value.
proof fn lemma_nibble_under_selector(n: u8)
    requires
        n < 16,
    ensures
        (n & 0x0F) >> 4 == 0,
        (n & 0x0F) & 0x0F == n,
        (0x20u8 | (n & 0x0F)) >> 4 == 2,
        (0x20u8 | (n & 0x0F)) & 0x0F == n,
        (0x30u8 | (n & 0x0F)) >> 4 == 3,
        (0x30u8 | (n & 0x0F)) & 0x0F == n,
{
    assert(n < 16 ==> (n & 0x0F) >> 4 == 0 && (n & 0x0F) & 0x0F == n) by (bit_vector);
    assert(n < 16 ==> (0x20u8 | (n & 0x0F)) >> 4 == 2 && (0x20u8 | (n & 0x0F)) & 0x0F == n)
        by (bit_vector);
    assert(n < 16 ==> (0x30u8 | (n & 0x0F)) >> 4 == 3 && (0x30u8 | (n & 0x0F)) & 0x0F == n)
        by (bit_vector);
}

/// The two leading bytes of a first frame give back the size that was
/// written into them, where it fits twelve bits.
proof fn lemma_first_frame_size(size: u16)
    requires
        size < 4096,
    ensures
        (0x10u8 | (high_byte(size) & 0x0F)) >> 4 == 1,
        ((((0x10u8 | (high_byte(size) & 0x0F)) & 0x0F) as u16) << 8) | (low_byte(size) as u16)
            == size,
{
    assert(size < 4096 ==> (0x10u8 | (((size >> 8) as u8) & 0x0F)) >> 4 == 1) by (bit_vector);
    assert(size < 4096 ==> ((((0x10u8 | (((size >> 8) as u8) & 0x0F)) & 0x0F) as u16) << 8) | (((
    size & 0xFF) as u8) as u16) == size) by (bit_vector);
}

/// Decoding undoes encoding. Every well-formed frame can be encoded, and its
/// bytes decode to the same frame, provided the decoder can tell whether a
/// data identifier is there.
pub proof fn lemma_decode_encode(f: FrameView)
    requires
        f.wf(),
        f.did_is_recovered(),
    ensures
        f.encode() is Ok,
        decode(f.encode()->Ok_0) == Ok::<FrameView, FrameError>(f),
{
    match f {
        FrameView::Single(s) => {
            let size = s.size;
            lemma_nibble_under_selector(size);
            let data = s.bytes();
            lemma_split_did_of_written(s.did, s.payload);
            assert(data.skip(2) =~= did_bytes(s.did) + s.payload);
            assert(data[0] == size & 0x0F);
            assert(data[1] == s.sid);
        },
        FrameView::First(s) => {
            let size = s.size;
            lemma_first_frame_size(size);
            let data = s.bytes();
            lemma_split_did_of_written(s.did, s.payload);
            assert(data.skip(3) =~= did_bytes(s.did) + s.payload);
            assert(data[0] == 0x10u8 | (high_byte(size) & 0x0F));
            assert(data[1] == low_byte(size));
            assert(data[2] == s.sid);
        },
        FrameView::Consecutive(s) => {
            let n = s.seq_num;
            lemma_nibble_under_selector(n);
            let data = s.bytes();
            assert(data.skip(1) =~= s.payload);
            assert(data[0] == 0x20u8 | (n & 0x0F));
        },
        FrameView::FlowControl(s) => {
            let n = s.flag;
            lemma_nibble_under_selector(n);
            let data = s.encode();
            assert(data.skip(3) =~= s.padding);
            assert(data[0] == 0x30u8 | (n & 0x0F));
        },
        FrameView::NegativeResp(s) => {
            let size = s.size;
            lemma_nibble_under_selector(size);
        },
    }
}

/// Encoding is stable under a round trip. The bytes of a well-formed frame
/// decode to a frame with the very same bytes, also where the decoder takes
/// the first two payload bytes for a data identifier.
pub proof fn lemma_reencode(f: FrameView)
    requires
        f.wf(),
    ensures
        f.encode() is Ok,
        decode(f.encode()->Ok_0) is Ok,
        decode(f.encode()->Ok_0)->Ok_0.encode() == f.encode(),
{
    if f.did_is_recovered() {
        lemma_decode_encode(f);
    } else {
        match f {
            FrameView::Single(s) => {
                let size = s.size;
                lemma_nibble_under_selector(size);
                let data = s.bytes();
                assert(data.skip(2) =~= s.payload);
                assert(data[0] == size & 0x0F);
                assert(data[1] == s.sid);
                lemma_written_of_split_did(s.payload);
                let g = decode(data)->Ok_0->Single_0;
                assert(g.payload.len() <= s.payload.len());
                assert(g.bytes() =~= data);
            },
            FrameView::First(s) => {
                let size = s.size;
                lemma_first_frame_size(size);
                let data = s.bytes();
                assert(data.skip(3) =~= s.payload);
                assert(data[0] == 0x10u8 | (high_byte(size) & 0x0F));
                assert(data[1] == low_byte(size));
                assert(data[2] == s.sid);
                lemma_written_of_split_did(s.payload);
                let g = decode(data)->Ok_0->First_0;
                assert(g.payload.len() <= s.payload.len());
                assert(g.bytes() =~= data);
            },
            _ => {},
        }
    }
}

/// Encoding undoes decoding. Whatever the bytes of one CAN payload (at most
/// eight) decode to is well formed and encodes to the bytes that were read:
/// all of them, or the first four for a negative response, whose further
/// bytes the decoder does not read.
pub proof fn lemma_encode_decode(data: Seq<u8>)
    requires
        data.len() <= MAX_CAN_PAYLOAD,
        decode(data) is Ok,
    ensures
        decode(data)->Ok_0.wf(),
        decode(data)->Ok_0.did_is_recovered(),
        decode(data)->Ok_0 is NegativeResp ==> decode(data)->Ok_0.encode() == Ok::<
            Seq<u8>,
            FrameError,
        >(data.take(4)),
        !(decode(data)->Ok_0 is NegativeResp) ==> decode(data)->Ok_0.encode() == Ok::<
            Seq<u8>,
            FrameError,
        >(data),
{
    let b0 = data[0];
    let f = decode(data)->Ok_0;
    assert(b0 & 0x0F < 16) by (bit_vector);
    assert(b0 >> 4 == 0 ==> (b0 & 0x0F) & 0x0F == b0) by (bit_vector);
    assert(b0 >> 4 == 2 ==> 0x20u8 | ((b0 & 0x0F) & 0x0F) == b0) by (bit_vector);
    assert(b0 >> 4 == 3 ==> 0x30u8 | ((b0 & 0x0F) & 0x0F) == b0) by (bit_vector);
    match f {
        FrameView::Single(s) => {
            lemma_written_of_split_did(data.skip(2));
            assert(s.bytes() =~= data);
        },
        FrameView::First(s) => {
            let b1 = data[1];
            assert((((b0 & 0x0F) as u16) << 8) | (b1 as u16) < 4096) by (bit_vector);
            assert(b0 >> 4 == 1 ==> 0x10u8 | ((((((b0 & 0x0F) as u16) << 8) | (b1 as u16)) >> 8) as u8
                & 0x0F) == b0) by (bit_vector);
            assert((((((b0 & 0x0F) as u16) << 8) | (b1 as u16)) & 0xFF) as u8 == b1)
                by (bit_vector);
            lemma_written_of_split_did(data.skip(3));
            assert(s.bytes() =~= data);
        },
        FrameView::Consecutive(s) => {
            assert(s.bytes() =~= data);
        },
        FrameView::FlowControl(s) => {
            assert(s.encode() =~= data);
        },
        FrameView::NegativeResp(s) => {
            assert(s.encode() =~= data.take(4));
        },
    }
}

/// The first byte alone decides the kind of frame: its high nibble is the
/// kind's selector, and a negative response travels under the selector of
/// the single frame with `0x7F` in place of the service identifier.
pub proof fn lemma_decoded_kind(data: Seq<u8>)
    requires
        decode(data) is Ok,
    ensures
        data.len() > 0,
        data[0] >> 4 == decode(data)->Ok_0.pci_type().nibble(),
        decode(data)->Ok_0 is NegativeResp <==> data[0] >> 4 == 0 && data[1] == NEGATIVE_RESPONSE,
{
}

} // verus!
