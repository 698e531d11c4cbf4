//! The time-bounded cache of this machine's public IPv4 address, and the
//! parsing of the plain-text answers the external IP-echo endpoints give.
//!
//! The cache itself is a value with pure transitions: the caller supplies
//! the current time and the outcomes of any lookups, and the transitions
//! decide what to answer and what to remember. The I/O around it — the
//! HTTP requests to the echo endpoints, the query for a local interface
//! address, the clock — stays outside and hands plain values in.

use crate::text::{split_bytes, split_on, trim_bytes, trim_spec};
use vstd::prelude::*;

verus! {

/// Seconds a resolved public address stays valid: 30 minutes.
pub const ADDR_CACHE_SECS: u64 = 1800;

/// An ASCII decimal digit.
pub open spec fn is_digit(b: u8) -> bool {
    48 <= b <= 57
}

/// Every byte of `s` is an ASCII decimal digit.
pub open spec fn all_digits(s: Seq<u8>) -> bool {
    forall|i: int| 0 <= i < s.len() ==> is_digit(#[trigger] s[i])
}

/// The numeric value of an ASCII digit string, most significant first.
pub open spec fn digits_val(s: Seq<u8>) -> int
    decreases s.len(),
{
    if s.len() == 0 {
        0
    } else {
        digits_val(s.drop_last()) * 10 + (s.last() - 48)
    }
}

/// A well-formed dotted-quad component: one to three digits, value at most
/// 255, and no leading zero (a lone "0" is fine).
pub open spec fn valid_octet(s: Seq<u8>) -> bool {
    &&& 1 <= s.len() <= 3
    &&& all_digits(s)
    &&& digits_val(s) <= 255
    &&& (s.len() > 1 ==> s[0] != 48)
}

/// The four octets of a dotted-quad IPv4 text, or nothing when the text is
/// not exactly four well-formed components separated by dots.
pub open spec fn quad_of(s: Seq<u8>) -> Option<Seq<u8>> {
    let parts = split_on(s, 46);
    if parts.len() == 4 && valid_octet(parts[0]) && valid_octet(parts[1]) && valid_octet(parts[2])
        && valid_octet(parts[3]) {
        Some(
            seq![
                digits_val(parts[0]) as u8,
                digits_val(parts[1]) as u8,
                digits_val(parts[2]) as u8,
                digits_val(parts[3]) as u8,
            ],
        )
    } else {
        None
    }
}

proof fn lemma_digits_val_bound(s: Seq<u8>)
    requires
        all_digits(s),
        s.len() <= 3,
    ensures
        0 <= digits_val(s),
        s.len() <= 1 ==> digits_val(s) <= 9,
        s.len() <= 2 ==> digits_val(s) <= 99,
        digits_val(s) <= 999,
    decreases s.len(),
{
    if s.len() > 0 {
        lemma_digits_val_bound(s.drop_last());
    }
}

fn parse_octet(part: &[u8]) -> (r: Option<u8>)
    ensures
        match r {
            Some(v) => valid_octet(part@) && v == digits_val(part@),
            None => !valid_octet(part@),
        },
{
    if part.len() == 0 || part.len() > 3 {
        return None;
    }
    if part.len() > 1 && part[0] == 48 {
        return None;
    }
    let mut val: u32 = 0;
    let mut i: usize = 0;
    while i < part.len()
        invariant
            i <= part@.len() <= 3,
            all_digits(part@.take(i as int)),
            val == digits_val(part@.take(i as int)),
            val <= 999,
        decreases part@.len() - i,
    {
        let b = part[i];
        if b < 48 || b > 57 {
            proof {
                assert(!is_digit(part@[i as int]));
            }
            return None;
        }
        proof {
            assert(part@.take(i + 1).drop_last() =~= part@.take(i as int));
            lemma_digits_val_bound(part@.take(i as int));
        }
        val = val * 10 + (b - 48) as u32;
        i = i + 1;
    }
    proof {
        assert(part@.take(part@.len() as int) =~= part@);
    }
    if val > 255 {
        return None;
    }
    Some(val as u8)
}

/// Parses a dotted-quad IPv4 address from bytes; answers exactly when the
/// text is four well-formed components separated by dots.
pub fn parse_ipv4_bytes(s: &[u8]) -> (r: Option<[u8; 4]>)
    ensures
        match r {
            Some(oct) => quad_of(s@) == Some(oct@),
            None => quad_of(s@) == None::<Seq<u8>>,
        },
{
    let parts = split_bytes(s, 46);
    let ghost dv = parts.deep_view();
    proof {
        assert forall|k: int| 0 <= k < parts@.len() implies dv[k] == #[trigger] parts@[k]@ by {
            assert(dv[k] =~= parts@[k]@);
        }
    }
    if parts.len() != 4 {
        return None;
    }
    let a = parse_octet(parts[0].as_slice());
    let b = parse_octet(parts[1].as_slice());
    let c = parse_octet(parts[2].as_slice());
    let d = parse_octet(parts[3].as_slice());
    match (a, b, c, d) {
        (Some(a), Some(b), Some(c), Some(d)) => {
            let r = [a, b, c, d];
            proof {
                assert(r@ =~= quad_of(s@)->Some_0);
            }
            Some(r)
        },
        _ => None,
    }
}

/// The bytes of an endpoint's answer after cleanup: ASCII whitespace
/// trimmed from both ends and any remaining line feeds dropped.
pub open spec fn cleaned(s: Seq<u8>) -> Seq<u8> {
    trim_spec(s).filter(|b: u8| b != 10)
}

proof fn lemma_filter_byte_push(s: Seq<u8>, x: u8, pred: spec_fn(u8) -> bool)
    ensures
        s.push(x).filter(pred) == if pred(x) {
            s.filter(pred).push(x)
        } else {
            s.filter(pred)
        },
{
    reveal(Seq::filter);
    assert(s.push(x).drop_last() =~= s);
}

/// Cleans an endpoint's answer: trims ASCII whitespace at both ends and
/// drops any remaining line feeds.
pub fn clean_response(s: &[u8]) -> (r: Vec<u8>)
    ensures
        r@ == cleaned(s@),
{
    let t = trim_bytes(s);
    let ghost pred = |b: u8| b != 10;
    let mut out: Vec<u8> = Vec::new();
    let mut i: usize = 0;
    while i < t.len()
        invariant
            i <= t@.len(),
            pred == (|b: u8| b != 10),
            out@ == t@.take(i as int).filter(pred),
        decreases t@.len() - i,
    {
        let b = t[i];
        proof {
            assert(t@.take(i + 1) =~= t@.take(i as int).push(t@[i as int]));
            lemma_filter_byte_push(t@.take(i as int), t@[i as int], pred);
        }
        if b != 10 {
            out.push(b);
        }
        i = i + 1;
    }
    proof {
        assert(t@.take(t@.len() as int) =~= t@);
    }
    out
}

/// Parses the public address out of an endpoint's raw answer text.
pub fn parse_public_ip(text: &[u8]) -> (r: Option<[u8; 4]>)
    ensures
        match r {
            Some(oct) => quad_of(cleaned(text@)) == Some(oct@),
            None => quad_of(cleaned(text@)) == None::<Seq<u8>>,
        },
{
    let c = clean_response(text);
    parse_ipv4_bytes(c.as_slice())
}

/// The time-bounded public-address cache: a resolved address and the
/// absolute second it expires, or nothing.
pub struct AddressCache {
    /// The cached address and its expiry, absent until a resolution
    /// succeeds.
    pub entry: Option<([u8; 4], u64)>,
}

impl AddressCache {
    /// The cache holds a value that is still valid at `now`.
    pub open spec fn fresh_at(self, now: u64) -> bool {
        match self.entry {
            Some(e) => now < e.1,
            None => false,
        }
    }

    /// The cached address while it is valid at `now`, otherwise nothing:
    /// an expired value is treated as absent.
    pub open spec fn spec_cached(self, now: u64) -> Option<[u8; 4]> {
        match self.entry {
            Some(e) => if now < e.1 {
                Some(e.0)
            } else {
                None
            },
            None => None,
        }
    }

    /// An empty cache.
    pub fn new() -> (r: AddressCache)
        ensures
            r.entry == None::<([u8; 4], u64)>,
    {
        AddressCache { entry: None }
    }

    /// The fast path: answers the cached address exactly while it is
    /// valid, without any lookup.
    pub fn cached(&self, now: u64) -> (r: Option<[u8; 4]>)
        ensures
            r == self.spec_cached(now),
    {
        match self.entry {
            Some((v, expires)) => if now < expires {
                Some(v)
            } else {
                None
            },
            None => None,
        }
    }

    /// Records a resolved address at `now`, valid for the cache lifetime.
    pub fn store(&mut self, value: [u8; 4], now: u64)
        requires
            now + ADDR_CACHE_SECS <= u64::MAX,
        ensures
            final(self).entry == Some((value, (now + ADDR_CACHE_SECS) as u64)),
    {
        self.entry = Some((value, now + ADDR_CACHE_SECS));
    }

    /// Runs the refresh decision under the exclusive section and answers
    /// the address for this request.
    pub fn refresh(
        &mut self,
        now: u64,
        fetched: Option<[u8; 4]>,
        local: Option<[u8; 4]>,
        fallback: [u8; 4],
    ) -> (r: [u8; 4])
        requires
            now + ADDR_CACHE_SECS <= u64::MAX,
        ensures
            (*final(self), r) == refresh_spec(*old(self), now, fetched, local, fallback),
    {
        if let Some(v) = self.cached(now) {
            return v;
        }
        if let Some(v) = fetched {
            self.store(v, now);
            return v;
        }
        if let Some(v) = local {
            self.store(v, now);
            return v;
        }
        fallback
    }
}

/// The refresh decision, in full: a still-valid cached value wins and
/// nothing changes (another caller may have refreshed the cache while this
/// one waited for the exclusive section); otherwise the first external
/// answer is cached and returned; otherwise the machine's local address is
/// cached and returned; and when everything failed the caller's fallback
/// is returned without touching the cache.
pub open spec fn refresh_spec(
    s: AddressCache,
    now: u64,
    fetched: Option<[u8; 4]>,
    local: Option<[u8; 4]>,
    fallback: [u8; 4],
) -> (AddressCache, [u8; 4])
    recommends
        now + ADDR_CACHE_SECS <= u64::MAX,
{
    match s.spec_cached(now) {
        Some(v) => (s, v),
        None => match fetched {
            Some(v) => (AddressCache { entry: Some((v, (now + ADDR_CACHE_SECS) as u64)) }, v),
            None => match local {
                Some(v) => (AddressCache { entry: Some((v, (now + ADDR_CACHE_SECS) as u64)) }, v),
                None => (s, fallback),
            },
        },
    }
}

/// Law: for thirty minutes after a successful resolution every call
/// observes the identical cached value, and the refresh decision neither
/// consults any lookup outcome nor changes the cache — so no new external
/// request is needed within the window.
pub proof fn lemma_cache_reuse(
    v: [u8; 4],
    now: u64,
    later: u64,
    fetched: Option<[u8; 4]>,
    local: Option<[u8; 4]>,
    fallback: [u8; 4],
)
    requires
        now + ADDR_CACHE_SECS <= u64::MAX,
        later + ADDR_CACHE_SECS <= u64::MAX,
        now <= later < now + ADDR_CACHE_SECS,
    ensures
        ({
            let s = AddressCache { entry: Some((v, (now + ADDR_CACHE_SECS) as u64)) };
            s.spec_cached(later) == Some(v) && refresh_spec(s, later, fetched, local, fallback)
                == (s, v)
        }),
{
}

/// Law: when every external endpoint fails and no local address is known,
/// a request is still answered — with the caller's fallback — and the
/// cache is left unchanged, ready to heal on a later attempt.
pub proof fn lemma_refresh_exhausted(s: AddressCache, now: u64, fallback: [u8; 4])
    requires
        now + ADDR_CACHE_SECS <= u64::MAX,
        !s.fresh_at(now),
    ensures
        refresh_spec(s, now, None::<[u8; 4]>, None::<[u8; 4]>, fallback) == (s, fallback),
{
}

} // verus!
