//! The identifier generator: per-process state (site tag, process tag,
//! sequence counter) made explicit as a value, with the environment reads
//! behind trusted wrappers.

use vstd::prelude::*;

use crate::codec::b64_encode;
use crate::codec::encode_bytes;
use crate::codec::is_b64_char;
use crate::codec::lemma_decode_encode;
use crate::layout::record_bytes;
use crate::IdError;

verus! {

/// The 16-byte digest that md5 assigns to a string; a function of the
/// string alone.
pub uninterp spec fn md5_of(s: Seq<char>) -> Seq<u8>;

/// Whether a character may appear in a site tag: the class `[-_0-9A-Za-z]`,
/// which is exactly the symbol set of the codec's alphabet.
pub open spec fn site_char_ok(c: char) -> bool {
    is_b64_char(c)
}

/// A well-formed site tag: exactly two characters of `[-_0-9A-Za-z]`.
pub open spec fn site_tag_ok(s: Seq<char>) -> bool {
    &&& s.len() == 2
    &&& site_char_ok(s[0])
    &&& site_char_ok(s[1])
}

/// The site tag used when no external setting is supplied.
pub open spec fn default_site_tag() -> Seq<char> {
    seq!['0', '0']
}

/// Whether a supplied (or absent) external site setting is acceptable.
pub open spec fn site_input_ok(site: Option<&str>) -> bool {
    match site {
        Some(s) => site_tag_ok(s@),
        None => true,
    }
}

/// The site tag a generator adopts for a given external setting.
pub open spec fn site_of_input(site: Option<&str>) -> Seq<char> {
    match site {
        Some(s) => s@,
        None => default_site_tag(),
    }
}

/// The counter value after one identifier has been minted: incremented by
/// exactly one, wrapping at 2^32.
pub open spec fn wrapping_inc(c: u32) -> u32 {
    if c == 0xFFFF_FFFF {
        0
    } else {
        (c + 1) as u32
    }
}

/// The text of the identifier minted from the given creation time, process
/// tag, counter value and site tag: the 18-byte record rendered as 24
/// alphabet characters, then the site tag.
pub open spec fn spec_id(ms: u64, tag: Seq<u8>, c: u32, site: Seq<char>) -> Seq<char> {
    encode_bytes(record_bytes(ms, tag, c)) + site
}

/// Relies on std's `SystemTime`: the wall clock read as whole milliseconds
/// since the Unix epoch, zero if the clock reads before the epoch. The
/// value is machine state, so nothing is promised of it.
#[verifier::external_body]
fn now_millis() -> u64 {
    match std::time::SystemTime::now().duration_since(std::time::UNIX_EPOCH) {
        Ok(d) => d.as_millis() as u64,
        Err(_) => 0,
    }
}

/// Relies on hostname::get for the host's network name. The name is
/// machine state, so nothing is promised of the value.
#[verifier::external_body]
fn get_hostname() -> Option<String> {
    match hostname::get() {
        Ok(name) => Some(name.to_string_lossy().into_owned()),
        Err(_) => None,
    }
}

/// Relies on md5::compute: the 16-byte digest of the input, a function of
/// the input alone.
#[verifier::external_body]
fn md5_digest(s: &str) -> (r: Vec<u8>)
    ensures
        r@ == md5_of(s@),
        r@.len() == 16,
{
    md5::compute(s.as_bytes()).0.to_vec()
}

/// Relies on rand's `OsRng` (`try_fill_bytes`): cryptographically secure
/// operating-system randomness. Only the length of the buffer is promised,
/// nothing of the values.
#[verifier::external_body]
fn random_bytes(n: usize) -> (r: Option<Vec<u8>>)
    ensures
        match r {
            Some(v) => v@.len() == n,
            None => true,
        },
{
    let mut buf = vec![0u8; n];
    match rand::RngCore::try_fill_bytes(&mut rand::rngs::OsRng, &mut buf) {
        Ok(()) => Some(buf),
        Err(_) => None,
    }
}

/// The process tag prescribed for this scheme: the first three bytes of
/// the digest of the host's network name, followed by the five random
/// bytes.
fn make_process_tag(digest: &Vec<u8>, rnd: &Vec<u8>) -> (tag: Vec<u8>)
    requires
        digest@.len() == 16,
        rnd@.len() == 5,
    ensures
        tag@ == digest@.subrange(0, 3) + rnd@,
{
    let mut tag: Vec<u8> = Vec::new();
    tag.push(digest[0]);
    tag.push(digest[1]);
    tag.push(digest[2]);
    tag.push(rnd[0]);
    tag.push(rnd[1]);
    tag.push(rnd[2]);
    tag.push(rnd[3]);
    tag.push(rnd[4]);
    proof {
        assert(tag@ =~= digest@.subrange(0, 3) + rnd@);
    }
    tag
}

/// Whether one character may appear in a site tag.
fn check_site_char(c: char) -> (r: bool)
    ensures
        r == site_char_ok(c),
{
    let u = c as u32;
    u == ('-' as u32) || (('0' as u32) <= u && u <= ('9' as u32))
        || (('A' as u32) <= u && u <= ('Z' as u32)) || u == ('_' as u32)
        || (('a' as u32) <= u && u <= ('z' as u32))
}

/// Whether a string is a well-formed site tag.
fn check_site_tag(s: &str) -> (r: bool)
    ensures
        r == site_tag_ok(s@),
{
    let n = s.unicode_len();
    if n != 2 {
        false
    } else {
        check_site_char(s.get_char(0)) && check_site_char(s.get_char(1))
    }
}

/// One process's identifier-minting state: the memoized site tag and
/// process tag, and the sequence counter.
pub struct IdGenerator {
    site: String,
    process_tag: Vec<u8>,
    counter: u32,
}

impl IdGenerator {
    /// The generator's site tag.
    pub closed spec fn site(self) -> Seq<char> {
        self.site@
    }

    /// The generator's 8-byte process tag.
    pub closed spec fn tag(self) -> Seq<u8> {
        self.process_tag@
    }

    /// The generator's sequence counter.
    pub closed spec fn counter(self) -> u32 {
        self.counter
    }

    /// A well-formed generator: an 8-byte process tag and a valid site tag.
    pub open spec fn wf(self) -> bool {
        &&& self.tag().len() == 8
        &&& site_tag_ok(self.site())
    }

    /// Builds a generator for this process. The site tag comes from the
    /// external setting when one is supplied, which must then be two
    /// characters of `[-_0-9A-Za-z]`, and defaults to `"00"` otherwise.
    /// The process tag is the first 3 bytes of the digest of the host's
    /// network name followed by 5 random bytes; the counter is seeded from
    /// 4 random bytes. An invalid supplied site tag, an unreadable host
    /// name or an unreadable random source each fail with their own error.
    pub fn new(site: Option<&str>) -> (r: Result<IdGenerator, IdError>)
        ensures
            match r {
                Ok(g) => {
                    &&& site_input_ok(site)
                    &&& g.wf()
                    &&& g.site() == site_of_input(site)
                    &&& exists|h: Seq<char>| g.tag().subrange(0, 3) == #[trigger] md5_of(h).subrange(0, 3)
                },
                Err(e) => {
                    ||| (e == IdError::InvalidSiteTag && !site_input_ok(site))
                    ||| (e == IdError::HostUnavailable && site_input_ok(site))
                    ||| (e == IdError::RandomUnavailable && site_input_ok(site))
                },
            },
    {
        let site_tag: String = match site {
            Some(s) => {
                if check_site_tag(s) {
                    String::from_str(s)
                } else {
                    return Err(IdError::InvalidSiteTag);
                }
            },
            None => {
                let d = String::from_str("00");
                proof {
                    reveal_strlit("00");
                    assert(d@ =~= default_site_tag());
                }
                d
            },
        };
        let host = match get_hostname() {
            Some(h) => h,
            None => {
                return Err(IdError::HostUnavailable);
            },
        };
        let digest = md5_digest(host.as_str());
        let rnd = match random_bytes(5) {
            Some(v) => v,
            None => {
                return Err(IdError::RandomUnavailable);
            },
        };
        let seed_bytes = match random_bytes(4) {
            Some(v) => v,
            None => {
                return Err(IdError::RandomUnavailable);
            },
        };
        let tag = make_process_tag(&digest, &rnd);
        let seed: u32 = ((seed_bytes[0] as u32) << 24) | ((seed_bytes[1] as u32) << 16)
            | ((seed_bytes[2] as u32) << 8) | (seed_bytes[3] as u32);
        let g = IdGenerator { site: site_tag, process_tag: tag, counter: seed };
        proof {
            assert(g.tag().subrange(0, 3) =~= md5_of(host@).subrange(0, 3));
        }
        Ok(g)
    }

    /// Mints one identifier for the given creation time: the milliseconds,
    /// the process tag and the current counter value are laid out as the
    /// 18-byte record, encoded as 24 alphabet characters, and the site tag
    /// appended, for exactly 26 characters; the counter advances by
    /// exactly one, wrapping.
    pub fn mint_at(&mut self, ms: u64) -> (id: String)
        requires
            old(self).wf(),
        ensures
            final(self).wf(),
            final(self).site() == old(self).site(),
            final(self).tag() == old(self).tag(),
            final(self).counter() == wrapping_inc(old(self).counter()),
            id@.len() == 26,
            id@ == spec_id(ms, old(self).tag(), old(self).counter(), old(self).site()),
    {
        let mut b: Vec<u8> = Vec::new();
        b.push(((ms >> 40) as u8) | 0x80);
        b.push((ms >> 32) as u8);
        b.push((ms >> 24) as u8);
        b.push((ms >> 16) as u8);
        b.push((ms >> 8) as u8);
        b.push(ms as u8);
        b.push(self.process_tag[0]);
        b.push(self.process_tag[1]);
        b.push(self.process_tag[2]);
        b.push(self.process_tag[3]);
        b.push(self.process_tag[4]);
        b.push(self.process_tag[5]);
        b.push(self.process_tag[6]);
        b.push(self.process_tag[7]);
        let c = self.counter;
        self.counter = if c == 0xFFFF_FFFF_u32 { 0 } else { c + 1 };
        b.push((c >> 24) as u8);
        b.push((c >> 16) as u8);
        b.push((c >> 8) as u8);
        b.push(c as u8);
        proof {
            assert(b@ =~= record_bytes(ms, old(self).tag(), c));
            lemma_decode_encode(b@);
        }
        let mut id = b64_encode(&b);
        id.append(self.site.as_str());
        proof {
            assert(id@ == spec_id(ms, old(self).tag(), old(self).counter(), old(self).site()));
        }
        id
    }

    /// Mints one identifier at the current wall-clock time. The clock is
    /// machine state, so the creation time is fixed only up to some
    /// reading; everything else is as `mint_at` states.
    pub fn generate_id(&mut self) -> (id: String)
        requires
            old(self).wf(),
        ensures
            final(self).wf(),
            final(self).site() == old(self).site(),
            final(self).tag() == old(self).tag(),
            final(self).counter() == wrapping_inc(old(self).counter()),
            id@.len() == 26,
            exists|ms: u64|
                id@ == #[trigger] spec_id(ms, old(self).tag(), old(self).counter(), old(self).site()),
    {
        let ms = now_millis();
        self.mint_at(ms)
    }
}

} // verus!
