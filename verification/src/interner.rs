//! Byte-string interning: mapping byte sequences to stable small numeric
//! handles for cheap equality and hashing.
//!
//! Two independent interning domains exist in this crate: a bytecode-facing
//! one (handles wrapped as [`StringId`]) and an IR-facing one (handles wrapped
//! as [`UnitBytesId`]).  Both are instances of [`Interner`], injected
//! explicitly rather than hidden in a global.

use vstd::prelude::*;

verus! {

/// A handle issued by the IR-domain interner.
#[derive(Copy, Clone, Debug, PartialEq, Eq, Hash, Structural)]
pub struct UnitBytesId(pub usize);

/// A handle issued by the bytecode-domain interner.
#[derive(Copy, Clone, Debug, PartialEq, Eq, Hash, Structural)]
pub struct StringId(pub usize);

/// Compare two byte slices for equality.
pub fn bytes_eq(a: &[u8], b: &[u8]) -> (r: bool)
    ensures
        r == (a@ == b@),
{
    if a.len() != b.len() {
        assert(a@ != b@) by {
            assert(a@.len() != b@.len());
        }
        return false;
    }
    let mut i: usize = 0;
    while i < a.len()
        invariant
            i <= a@.len(),
            a@.len() == b@.len(),
            forall|k: int| 0 <= k < i ==> a@[k] == b@[k],
        decreases a@.len() - i,
    {
        if a[i] != b[i] {
            assert(a@ != b@);
            return false;
        }
        i += 1;
    }
    proof {
        assert(a@ =~= b@);
    }
    true
}

/// One interning domain: a table of distinct byte strings.  A handle is an
/// index into the table; equal handles imply equal bytes, and reverse lookup
/// is total for every handle the domain issued.
pub struct Interner {
    table: Vec<Vec<u8>>,
}

impl View for Interner {
    type V = Seq<Seq<u8>>;

    closed spec fn view(&self) -> Seq<Seq<u8>> {
        self.table@.map_values(|v: Vec<u8>| v@)
    }
}

impl Interner {
    /// No byte string is interned twice, so each has exactly one handle.
    pub open spec fn wf(&self) -> bool {
        forall|i: int, j: int| 0 <= i < j < self@.len() ==> self@[i] != self@[j]
    }

    pub fn new() -> (r: Interner)
        ensures
            r@ =~= Seq::<Seq<u8>>::empty(),
            r.wf(),
    {
        Interner { table: Vec::new() }
    }

    pub fn len(&self) -> (r: usize)
        ensures
            r == self@.len(),
    {
        self.table.len()
    }

    /// Return the existing handle for `s` if it was interned before, else
    /// allocate the next handle.
    pub fn intern_bytes(&mut self, s: &[u8]) -> (id: usize)
        requires
            old(self).wf(),
        ensures
            final(self).wf(),
            id < final(self)@.len(),
            final(self)@[id as int] == s@,
            old(self)@.contains(s@) ==> final(self)@ == old(self)@,
            !old(self)@.contains(s@) ==> final(self)@ == old(self)@.push(s@),
    {
        let n = self.table.len();
        let mut i: usize = 0;
        while i < n
            invariant
                *self == *old(self),
                self.wf(),
                n == self@.len(),
                i <= n,
                forall|k: int| 0 <= k < i ==> self@[k] != s@,
            decreases n - i,
        {
            if bytes_eq(self.table[i].as_slice(), s) {
                assert(self@[i as int] == s@);
                return i;
            }
            i += 1;
        }
        assert(forall|k: int| 0 <= k < self@.len() ==> self@[k] != s@);
        assert(!self@.contains(s@));
        let mut owned: Vec<u8> = Vec::new();
        owned.extend_from_slice(s);
        assert(owned@ == s@);
        let ghost pre = self@;
        self.table.push(owned);
        proof {
            assert(self@ =~= pre.push(s@));
        }
        n
    }

    /// Reverse lookup: total for any handle this domain issued.
    pub fn lookup(&self, id: usize) -> (r: &Vec<u8>)
        requires
            id < self@.len(),
        ensures
            r@ == self@[id as int],
    {
        &self.table[id]
    }

    /// Equal handles come from one table entry, so they denote equal bytes;
    /// and by well-formedness distinct handles denote distinct bytes.
    pub proof fn lemma_handle_eq(&self, i: int, j: int)
        requires
            self.wf(),
            0 <= i < self@.len(),
            0 <= j < self@.len(),
        ensures
            (i == j) <==> (self@[i] == self@[j]),
    {
    }
}

} // verus!
