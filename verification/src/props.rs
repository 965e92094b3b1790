//! The laws of the identifier scheme, proved over the specifications that
//! the executable functions are verified against: uniqueness of minted
//! identifiers, recovery of the embedded time and site tag, the fixed
//! length, and the marker bit.

use vstd::prelude::*;

use vstd::arithmetic::div_mod::lemma_add_mod_noop;
use vstd::arithmetic::div_mod::lemma_mod_bound;
use vstd::arithmetic::div_mod::lemma_mod_equivalence;
use vstd::arithmetic::div_mod::lemma_mod_self_0;
use vstd::arithmetic::div_mod::lemma_small_mod;

use crate::codec::all_b64_chars;
use crate::codec::decode_chars;
use crate::codec::encode_bytes;
use crate::codec::lemma_decode_encode;
use crate::codec::lemma_encode_injective;
use crate::generator::spec_id;
use crate::generator::wrapping_inc;
use crate::layout::lemma_marker_bit;
use crate::layout::lemma_millis_roundtrip;
use crate::layout::lemma_records_distinct;
use crate::layout::millis_mask;
use crate::layout::record_bytes;
use crate::parse::spec_parse_idc;
use crate::parse::spec_parse_time;
use crate::IdError;
use crate::Timestamp;

verus! {

/// The counter value reached after `k` identifiers have been minted from
/// seed `c0`: incremented by one per identifier, wrapping at 2^32.
pub open spec fn counter_after(c0: u32, k: nat) -> u32 {
    ((c0 + k) % 0x1_0000_0000) as u32
}

/// Minting one identifier advances the counter from its value after `k`
/// identifiers to its value after `k + 1`: the single wrapping increment
/// that `generate_id` promises.
pub proof fn lemma_counter_after_step(c0: u32, k: nat)
    ensures
        counter_after(c0, k + 1) == wrapping_inc(counter_after(c0, k)),
{
    let m: int = 0x1_0000_0000;
    let a: int = c0 + k;
    lemma_mod_bound(a, m);
    lemma_small_mod(1, m as nat);
    lemma_add_mod_noop(a, 1, m);
    if a % m == m - 1 {
        lemma_mod_self_0(m);
    } else {
        lemma_small_mod((a % m + 1) as nat, m as nat);
    }
}

/// Within any run of at most 2^32 identifiers from one seed, two distinct
/// mintings use distinct counter values.
pub proof fn lemma_counter_after_injective(c0: u32, i: nat, j: nat)
    requires
        i < j,
        j - i < 0x1_0000_0000,
    ensures
        counter_after(c0, i) != counter_after(c0, j),
{
    let m: int = 0x1_0000_0000;
    let a: int = c0 + i;
    let b: int = c0 + j;
    lemma_mod_bound(a, m);
    lemma_mod_bound(b, m);
    if counter_after(c0, i) == counter_after(c0, j) {
        assert(a % m == b % m);
        lemma_mod_equivalence(b, a, m);
        lemma_small_mod((b - a) as nat, m as nat);
        assert(false);
    }
}

/// Identifiers minted with distinct counter values differ, whatever their
/// creation times: the counter bytes sit at a fixed place in the record,
/// the encoding is injective, and the site suffix is shared.
pub proof fn lemma_distinct_counters_distinct_ids(
    ms1: u64,
    ms2: u64,
    tag: Seq<u8>,
    c1: u32,
    c2: u32,
    site: Seq<char>,
)
    requires
        tag.len() == 8,
        c1 != c2,
    ensures
        spec_id(ms1, tag, c1, site) != spec_id(ms2, tag, c2, site),
{
    let r1 = record_bytes(ms1, tag, c1);
    let r2 = record_bytes(ms2, tag, c2);
    lemma_records_distinct(ms1, ms2, tag, c1, c2);
    lemma_decode_encode(r1);
    lemma_decode_encode(r2);
    let e1 = encode_bytes(r1);
    let e2 = encode_bytes(r2);
    if spec_id(ms1, tag, c1, site) == spec_id(ms2, tag, c2, site) {
        assert(e1 =~= e2) by {
            assert(forall|i: int| 0 <= i < 24 ==> e1[i] == (e1 + site)[i] && e2[i] == (e2
                + site)[i]);
        }
        lemma_encode_injective(r1, r2);
    }
}

/// Uniqueness: the i-th and the j-th identifier minted by one process
/// from one counter seed differ, for any creation times, as long as fewer
/// than 2^32 mintings separate them. With the counter advanced atomically,
/// this covers concurrent minting within the process as well.
pub proof fn lemma_sequence_ids_distinct(
    ms1: u64,
    ms2: u64,
    tag: Seq<u8>,
    site: Seq<char>,
    c0: u32,
    i: nat,
    j: nat,
)
    requires
        tag.len() == 8,
        i < j,
        j - i < 0x1_0000_0000,
    ensures
        spec_id(ms1, tag, counter_after(c0, i), site) != spec_id(
            ms2,
            tag,
            counter_after(c0, j),
            site,
        ),
{
    lemma_counter_after_injective(c0, i, j);
    lemma_distinct_counters_distinct_ids(
        ms1,
        ms2,
        tag,
        counter_after(c0, i),
        counter_after(c0, j),
        site,
    );
}

/// Round trip: parsing the time out of a minted identifier succeeds and
/// yields the low 47 bits of the milliseconds it was minted at — the full
/// value whenever the clock reading fits the 47 usable timestamp bits.
pub proof fn lemma_parse_time_of_generated(ms: u64, tag: Seq<u8>, c: u32, site: Seq<char>)
    requires
        tag.len() == 8,
        site.len() == 2,
    ensures
        spec_parse_time(spec_id(ms, tag, c, site)) == Ok::<Timestamp, IdError>(
            Timestamp { millis: ms & millis_mask() },
        ),
        ms <= millis_mask() ==> spec_parse_time(spec_id(ms, tag, c, site)) == Ok::<
            Timestamp,
            IdError,
        >(Timestamp { millis: ms }),
{
    let r = record_bytes(ms, tag, c);
    lemma_decode_encode(r);
    let id = spec_id(ms, tag, c, site);
    assert(id.subrange(0, 24) =~= encode_bytes(r));
    lemma_millis_roundtrip(ms, tag, c);
    if ms <= millis_mask() {
        assert(ms & millis_mask() == ms) by (bit_vector)
            requires
                ms <= 0x7FFF_FFFF_FFFFu64,
        ;
    }
}

/// Length: every minted identifier is exactly 26 characters, 24 of text
/// encoding and 2 of site tag.
pub proof fn lemma_id_length(ms: u64, tag: Seq<u8>, c: u32, site: Seq<char>)
    requires
        tag.len() == 8,
        site.len() == 2,
    ensures
        spec_id(ms, tag, c, site).len() == 26,
{
    lemma_decode_encode(record_bytes(ms, tag, c));
}

/// Site tag embedding: every minted identifier ends with the site tag of
/// the process that minted it, and parsing the site out of it yields that
/// tag exactly.
pub proof fn lemma_site_tag_embedded(ms: u64, tag: Seq<u8>, c: u32, site: Seq<char>)
    requires
        tag.len() == 8,
        site.len() == 2,
    ensures
        spec_id(ms, tag, c, site).subrange(24, 26) == site,
        spec_parse_idc(spec_id(ms, tag, c, site)) == site,
{
    lemma_decode_encode(record_bytes(ms, tag, c));
    assert(spec_id(ms, tag, c, site).subrange(24, 26) =~= site);
}

/// Marker bit: the first byte of the binary form recovered from any
/// minted identifier has its high bit set, whatever the creation time.
pub proof fn lemma_marker_bit_of_id(ms: u64, tag: Seq<u8>, c: u32, site: Seq<char>)
    requires
        tag.len() == 8,
    ensures
        all_b64_chars(spec_id(ms, tag, c, site).subrange(0, 24)),
        decode_chars(spec_id(ms, tag, c, site).subrange(0, 24))[0] & 0x80 == 0x80,
{
    let r = record_bytes(ms, tag, c);
    lemma_decode_encode(r);
    assert(spec_id(ms, tag, c, site).subrange(0, 24) =~= encode_bytes(r));
    lemma_marker_bit(ms, tag, c);
}

} // verus!
