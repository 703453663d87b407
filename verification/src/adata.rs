//! Identifiers of entries in the deduplicated pool of complex constant
//! array literals ("adata").  Textually an adata id is `A_` followed by a
//! decimal number; this module proves the textual form round-trips.

use vstd::prelude::*;

verus! {

/// The decimal digits of `n`, most significant first.
pub open spec fn dec_digits(n: nat) -> Seq<u8>
    decreases n,
{
    if n < 10 {
        seq![(0x30 + n) as u8]
    } else {
        dec_digits(n / 10).push((0x30 + n % 10) as u8)
    }
}

pub open spec fn is_dec_digit(b: u8) -> bool {
    0x30 <= b <= 0x39
}

pub open spec fn all_dec_digits(s: Seq<u8>) -> bool {
    forall|k: int| 0 <= k < s.len() ==> is_dec_digit(#[trigger] s[k])
}

/// The number denoted by a digit string (0 for the empty string).
pub open spec fn dec_val(s: Seq<u8>) -> int
    decreases s.len(),
{
    if s.len() == 0 {
        0
    } else {
        dec_val(s.drop_last()) * 10 + s.last() - 0x30
    }
}

pub proof fn lemma_dec_digits_val(n: nat)
    ensures
        dec_digits(n).len() >= 1,
        all_dec_digits(dec_digits(n)),
        dec_val(dec_digits(n)) == n,
    decreases n,
{
    if n < 10 {
        let s = dec_digits(n);
        assert(s.len() == 1);
        assert(s.drop_last() =~= Seq::<u8>::empty());
        assert(dec_val(s.drop_last()) == 0);
        assert(dec_val(s) == s.last() - 0x30);
    } else {
        lemma_dec_digits_val(n / 10);
        let p = dec_digits(n / 10);
        let d = (0x30 + n % 10) as u8;
        assert(p.push(d).drop_last() =~= p);
        assert(p.push(d).last() == d);
        assert(dec_val(p.push(d)) == dec_val(p) * 10 + d - 0x30);
        assert(n / 10 * 10 + n % 10 == n) by {
            vstd::arithmetic::div_mod::lemma_fundamental_div_mod(n as int, 10);
        }
        assert forall|k: int| 0 <= k < p.push(d).len() implies is_dec_digit(
            #[trigger] p.push(d)[k],
        ) by {
            if k < p.len() {
                assert(p.push(d)[k] == p[k]);
            }
        }
    }
}

proof fn lemma_dec_val_nonneg(s: Seq<u8>)
    requires
        all_dec_digits(s),
    ensures
        dec_val(s) >= 0,
    decreases s.len(),
{
    if s.len() > 0 {
        assert(all_dec_digits(s.drop_last())) by {
            assert(forall|k: int|
                0 <= k < s.drop_last().len() ==> #[trigger] s.drop_last()[k] == s[k]);
        }
        lemma_dec_val_nonneg(s.drop_last());
    }
}

/// Every prefix of a digit string denotes at most the whole string's value.
proof fn lemma_dec_val_prefix_le(s: Seq<u8>, j: int)
    requires
        all_dec_digits(s),
        0 <= j <= s.len(),
    ensures
        dec_val(s.take(j)) <= dec_val(s),
    decreases s.len() - j,
{
    if j == s.len() {
        assert(s.take(j) =~= s);
    } else {
        lemma_dec_val_prefix_le(s, j + 1);
        assert(s.take(j + 1).drop_last() =~= s.take(j));
        assert(s.take(j + 1).last() == s[j]);
        assert(dec_val(s.take(j + 1)) == dec_val(s.take(j)) * 10 + s[j] - 0x30);
        assert(all_dec_digits(s.take(j))) by {
            assert(forall|k: int| 0 <= k < j ==> #[trigger] s.take(j)[k] == s[k]);
        }
        lemma_dec_val_nonneg(s.take(j));
    }
}

/// Append the decimal digits of `n` to `out`.
pub fn push_dec_usize(n: usize, out: &mut Vec<u8>)
    ensures
        final(out)@ == old(out)@ + dec_digits(n as nat),
    decreases n,
{
    if n < 10 {
        out.push(0x30 + n as u8);
        proof {
            assert(final(out)@ =~= old(out)@ + dec_digits(n as nat));
        }
    } else {
        push_dec_usize(n / 10, out);
        out.push(0x30 + (n % 10) as u8);
        proof {
            assert((old(out)@ + dec_digits((n / 10) as nat)).push((0x30 + (n % 10) as nat) as u8)
                =~= old(out)@ + dec_digits(n as nat));
        }
    }
}

/// Parse an unsigned decimal number that must fit in 64 bits.
pub fn parse_dec_u64(s: &[u8]) -> (r: Option<u64>)
    ensures
        (r is Some) <==> (s@.len() >= 1 && all_dec_digits(s@) && dec_val(s@)
            < 0x1_0000_0000_0000_0000),
        r matches Some(v) ==> v == dec_val(s@),
{
    let n = s.len();
    if n == 0 {
        return None;
    }
    let mut acc: u64 = 0;
    let mut i: usize = 0;
    proof {
        assert(s@.take(0) =~= Seq::<u8>::empty());
    }
    while i < n
        invariant
            n == s@.len(),
            0 < n,
            i <= n,
            forall|k: int| 0 <= k < i ==> is_dec_digit(#[trigger] s@[k]),
            acc == dec_val(s@.take(i as int)),
        decreases n - i,
    {
        let b = s[i];
        if b < 0x30 || b > 0x39 {
            assert(!all_dec_digits(s@));
            return None;
        }
        let d = b - 0x30;
        let wide: u128 = (acc as u128) * 10 + (d as u128);
        proof {
            assert(s@.take(i + 1).drop_last() =~= s@.take(i as int));
            assert(s@.take(i + 1).last() == s@[i as int]);
            assert(dec_val(s@.take(i + 1)) == dec_val(s@.take(i as int)) * 10 + s@[i as int]
                - 0x30);
        }
        if wide > 0xFFFF_FFFF_FFFF_FFFFu128 {
            proof {
                if all_dec_digits(s@) {
                    lemma_dec_val_prefix_le(s@, i + 1);
                }
            }
            return None;
        }
        acc = wide as u64;
        i += 1;
    }
    proof {
        assert(s@.take(n as int) =~= s@);
    }
    Some(acc)
}

/// The error returned when an adata id's textual form cannot be parsed.
#[derive(Debug, Copy, Clone, PartialEq, Eq, Structural)]
pub struct ParseIdError;

/// The textual form of an adata id: `A_` then the decimal index.
pub open spec fn spec_adata_text(n: nat) -> Seq<u8> {
    seq![0x41u8, 0x5Fu8] + dec_digits(n)
}

/// What parsing an adata id's textual form yields, if anything.  An id is
/// stored as 32 bits, so a value past that range is rejected.
pub open spec fn spec_parse_adata(s: Seq<u8>) -> Option<int> {
    if s.len() >= 3 && s[0] == 0x41u8 && s[1] == 0x5Fu8 && all_dec_digits(s.skip(2)) && dec_val(
        s.skip(2),
    ) <= 0xFFFF_FFFF {
        Some(dec_val(s.skip(2)))
    } else {
        Option::None
    }
}

/// An index into the unit's adata pool, within the 32-bit id range.
/// Conventionally written `A_` followed by the decimal index.
#[derive(Debug, Copy, Clone, PartialEq, Eq, Hash, PartialOrd, Ord, Structural)]
pub struct AdataId {
    id: usize,
}

impl AdataId {
    pub closed spec fn spec_id(&self) -> usize {
        self.id
    }

    pub fn new(id: usize) -> (r: AdataId)
        requires
            id <= 0xFFFF_FFFF,
        ensures
            r.spec_id() == id,
    {
        AdataId { id }
    }

    pub fn id(&self) -> (r: usize)
        ensures
            r == self.spec_id(),
    {
        self.id
    }

    /// The textual form, `A_` then the decimal index.
    pub fn to_text(&self) -> (r: Vec<u8>)
        ensures
            r@ == spec_adata_text(self.spec_id() as nat),
    {
        let mut out: Vec<u8> = Vec::new();
        out.push(0x41);
        out.push(0x5F);
        proof {
            assert(out@ =~= seq![0x41u8, 0x5Fu8]);
        }
        push_dec_usize(self.id, &mut out);
        out
    }

    /// Parse the textual form back into an id.
    pub fn parse(s: &[u8]) -> (r: Result<AdataId, ParseIdError>)
        ensures
            (r is Ok) <==> (spec_parse_adata(s@) is Some),
            r matches Ok(a) ==> Some(a.spec_id() as int) == spec_parse_adata(s@),
    {
        if s.len() < 3 || s[0] != 0x41 || s[1] != 0x5F {
            return Err(ParseIdError);
        }
        let digits = &s[2..s.len()];
        assert(digits@ == s@.skip(2));
        match parse_dec_u64(digits) {
            Some(v) => {
                if v <= 0xFFFF_FFFFu64 {
                    Ok(AdataId { id: v as usize })
                } else {
                    Err(ParseIdError)
                }
            },
            Option::None => Err(ParseIdError),
        }
    }
}

/// Law: formatting a constant-pool id to its textual form and parsing it
/// back yields the same id.
pub proof fn lemma_literal_id_round_trip(n: usize)
    requires
        n <= 0xFFFF_FFFF,
    ensures
        spec_parse_adata(spec_adata_text(n as nat)) == Some(n as int),
{
    lemma_dec_digits_val(n as nat);
    let t = spec_adata_text(n as nat);
    assert(t.skip(2) =~= dec_digits(n as nat));
    assert(t[0] == 0x41u8 && t[1] == 0x5Fu8);
    assert(t.len() >= 3);
}

} // verus!
