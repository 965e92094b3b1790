//! Recovering the embedded creation time and site tag from an identifier
//! string, and validating well-formedness. Parsing needs only the codec
//! and the layout, never the generator's state.

use vstd::prelude::*;

use crate::codec::all_b64_chars;
use crate::codec::b64_decode;
use crate::codec::decode_chars;
use crate::codec::lemma_decode_chars_len;
use crate::layout::millis_of_bytes;
use crate::IdError;
use crate::Timestamp;

verus! {

/// What `parse_time` returns for a given string: an error unless the
/// string is exactly 26 characters whose first 24 are alphabet symbols,
/// and otherwise the milliseconds reassembled from the first six decoded
/// bytes with the marker bit masked off.
pub open spec fn spec_parse_time(id: Seq<char>) -> Result<Timestamp, IdError> {
    if id.len() != 26 {
        Err(IdError::WrongLength)
    } else if !all_b64_chars(id.subrange(0, 24)) {
        Err(IdError::InvalidEncoding)
    } else {
        Ok(Timestamp { millis: millis_of_bytes(decode_chars(id.subrange(0, 24))) })
    }
}

/// What `parse_idc` returns for a given string: the last two characters
/// of a 26-character string, and the empty string for any other length.
pub open spec fn spec_parse_idc(id: Seq<char>) -> Seq<char> {
    if id.len() == 26 {
        id.subrange(24, 26)
    } else {
        Seq::empty()
    }
}

/// The 18 record bytes of a well-formed identifier string: an error
/// unless the string is exactly 26 characters whose first 24 decode.
fn to_bytes(id: &str) -> (r: Result<Vec<u8>, IdError>)
    ensures
        match r {
            Ok(v) => {
                &&& id@.len() == 26
                &&& all_b64_chars(id@.subrange(0, 24))
                &&& v@ == decode_chars(id@.subrange(0, 24))
                &&& v@.len() == 18
            },
            Err(e) => {
                ||| (e == IdError::WrongLength && id@.len() != 26)
                ||| (e == IdError::InvalidEncoding && id@.len() == 26 && !all_b64_chars(
                    id@.subrange(0, 24),
                ))
            },
        },
{
    let n = id.unicode_len();
    if n != 26 {
        return Err(IdError::WrongLength);
    }
    let prefix = id.substring_char(0, 24);
    match b64_decode(prefix) {
        Some(v) => {
            proof {
                lemma_decode_chars_len(prefix@);
            }
            Ok(v)
        },
        None => Err(IdError::InvalidEncoding),
    }
}

/// Recovers the creation time embedded in an identifier: fails with
/// `WrongLength` unless `id` is exactly 26 characters, with
/// `InvalidEncoding` unless the first 24 characters are alphabet symbols,
/// and otherwise reassembles the 48-bit big-endian timestamp with the
/// marker bit masked off.
pub fn parse_time(id: &str) -> (r: Result<Timestamp, IdError>)
    ensures
        r == spec_parse_time(id@),
{
    let bs = match to_bytes(id) {
        Ok(v) => v,
        Err(e) => {
            return Err(e);
        },
    };
    let ms: u64 = (((bs[0] & 0x7F) as u64) << 40) | ((bs[1] as u64) << 32)
        | ((bs[2] as u64) << 24) | ((bs[3] as u64) << 16) | ((bs[4] as u64) << 8)
        | (bs[5] as u64);
    Ok(Timestamp { millis: ms })
}

/// Extracts the site tag of an identifier: the last two characters when
/// `id` is exactly 26 characters, and the empty string otherwise.
pub fn parse_idc(id: &str) -> (r: String)
    ensures
        r@ == spec_parse_idc(id@),
{
    let n = id.unicode_len();
    if n == 26 {
        String::from_str(id.substring_char(24, 26))
    } else {
        String::new()
    }
}

/// Whether a string is a well-formed identifier: exactly the strings on
/// which `parse_time` succeeds.
pub fn is_object_id(id: &str) -> (r: bool)
    ensures
        r == (spec_parse_time(id@) is Ok),
{
    parse_time(id).is_ok()
}

} // verus!
