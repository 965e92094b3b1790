//! The fixed 18-byte binary layout of an identifier: a 48-bit big-endian
//! timestamp whose top bit is a fixed marker, an 8-byte process tag, and a
//! 32-bit big-endian sequence counter.

use vstd::prelude::*;

verus! {

/// Milliseconds that fit the 47 usable timestamp bits.
pub open spec fn millis_mask() -> u64 {
    0x7FFF_FFFF_FFFF
}

/// Bytes 0 to 5: the low 48 bits of the creation time in milliseconds,
/// big-endian, with the top bit of the first byte forced to 1 as a fixed
/// marker.
pub open spec fn ts_bytes(ms: u64) -> Seq<u8> {
    seq![
        ((ms >> 40) as u8) | 0x80,
        (ms >> 32) as u8,
        (ms >> 24) as u8,
        (ms >> 16) as u8,
        (ms >> 8) as u8,
        ms as u8,
    ]
}

/// Bytes 14 to 17: the sequence counter, big-endian.
pub open spec fn counter_bytes(c: u32) -> Seq<u8> {
    seq![(c >> 24) as u8, (c >> 16) as u8, (c >> 8) as u8, c as u8]
}

/// The full 18-byte record of one identifier.
pub open spec fn record_bytes(ms: u64, tag: Seq<u8>, c: u32) -> Seq<u8> {
    ts_bytes(ms) + tag + counter_bytes(c)
}

/// The milliseconds recovered from the first six bytes of a record: the
/// marker bit is masked off and the 48-bit big-endian value reassembled.
pub open spec fn millis_of_bytes(b: Seq<u8>) -> u64 {
    (((b[0] & 0x7F) as u64) << 40) | ((b[1] as u64) << 32) | ((b[2] as u64) << 24)
        | ((b[3] as u64) << 16) | ((b[4] as u64) << 8) | (b[5] as u64)
}

/// Reassembling six timestamp bytes recovers the low 47 bits of the
/// milliseconds they were built from.
proof fn lemma_ts_bits(ms: u64)
    by (bit_vector)
    ensures
        ((((((ms >> 40) as u8) | 0x80) & 0x7F) as u64) << 40) | ((((ms >> 32) as u8) as u64) << 32)
            | ((((ms >> 24) as u8) as u64) << 24) | ((((ms >> 16) as u8) as u64) << 16)
            | ((((ms >> 8) as u8) as u64) << 8) | ((ms as u8) as u64) == ms & 0x7FFF_FFFF_FFFF,
        (((ms >> 40) as u8) | 0x80) & 0x80 == 0x80,
{
}

/// Parsing the timestamp bytes of a record yields the milliseconds the
/// record was built from, reduced to their low 47 bits.
pub proof fn lemma_millis_roundtrip(ms: u64, tag: Seq<u8>, c: u32)
    requires
        tag.len() == 8,
    ensures
        millis_of_bytes(record_bytes(ms, tag, c)) == ms & millis_mask(),
{
    lemma_ts_bits(ms);
    let r = record_bytes(ms, tag, c);
    assert(r[0] == ((ms >> 40) as u8) | 0x80);
    assert(r[1] == (ms >> 32) as u8);
    assert(r[2] == (ms >> 24) as u8);
    assert(r[3] == (ms >> 16) as u8);
    assert(r[4] == (ms >> 8) as u8);
    assert(r[5] == ms as u8);
}

/// The first byte of every record carries the marker bit.
pub proof fn lemma_marker_bit(ms: u64, tag: Seq<u8>, c: u32)
    ensures
        record_bytes(ms, tag, c)[0] & 0x80 == 0x80,
{
    lemma_ts_bits(ms);
}

/// Distinct counter values give distinct counter bytes.
pub proof fn lemma_counter_bytes_injective(c1: u32, c2: u32)
    requires
        c1 != c2,
    ensures
        counter_bytes(c1) != counter_bytes(c2),
{
    if counter_bytes(c1) == counter_bytes(c2) {
        assert(counter_bytes(c1)[0] == counter_bytes(c2)[0]);
        assert(counter_bytes(c1)[1] == counter_bytes(c2)[1]);
        assert(counter_bytes(c1)[2] == counter_bytes(c2)[2]);
        assert(counter_bytes(c1)[3] == counter_bytes(c2)[3]);
        assert(c1 == c2) by (bit_vector)
            requires
                (c1 >> 24) as u8 == (c2 >> 24) as u8,
                (c1 >> 16) as u8 == (c2 >> 16) as u8,
                (c1 >> 8) as u8 == (c2 >> 8) as u8,
                c1 as u8 == c2 as u8,
        ;
    }
}

/// Records built with distinct counter values differ, whatever their
/// timestamps and however the process tag reads.
pub proof fn lemma_records_distinct(ms1: u64, ms2: u64, tag: Seq<u8>, c1: u32, c2: u32)
    requires
        tag.len() == 8,
        c1 != c2,
    ensures
        record_bytes(ms1, tag, c1) != record_bytes(ms2, tag, c2),
{
    lemma_counter_bytes_injective(c1, c2);
    let r1 = record_bytes(ms1, tag, c1);
    let r2 = record_bytes(ms2, tag, c2);
    if r1 == r2 {
        assert(counter_bytes(c1) =~= counter_bytes(c2)) by {
            assert(forall|i: int| 0 <= i < 4 ==> counter_bytes(c1)[i] == r1[14 + i]
                && counter_bytes(c2)[i] == r2[14 + i]);
        }
    }
}

} // verus!
