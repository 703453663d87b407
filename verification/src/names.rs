//! Bytecode-domain name wrappers: thin newtypes over owned byte strings,
//! with the operations the assembler and the unit converter need.
//!
//! Function names are special: they compare and hash under ASCII
//! case-insensitive equality, and when two names are not case-equal their
//! relative order falls back to a byte-wise comparison of the raw
//! (non-folded) text.

use core::cmp::Ordering;
use vstd::prelude::*;

use vstd::slice::slice_to_vec;

verus! {

// ---------------------------------------------------------------------------
// ASCII case folding.
// ---------------------------------------------------------------------------
/// Fold one byte to ASCII lower case.
pub open spec fn spec_fold_byte(b: u8) -> u8 {
    if 0x41 <= b && b <= 0x5A {
        (b + 0x20) as u8
    } else {
        b
    }
}

/// Fold a byte string to ASCII lower case.
pub open spec fn ascii_fold(s: Seq<u8>) -> Seq<u8> {
    s.map_values(|b: u8| spec_fold_byte(b))
}

fn fold_byte(b: u8) -> (r: u8)
    ensures
        r == spec_fold_byte(b),
{
    if 0x41 <= b && b <= 0x5A {
        b + 0x20
    } else {
        b
    }
}

/// Compare two byte strings for ASCII case-insensitive equality.
pub fn eq_ignore_ascii_case(a: &[u8], b: &[u8]) -> (r: bool)
    ensures
        r == (ascii_fold(a@) == ascii_fold(b@)),
{
    if a.len() != b.len() {
        assert(ascii_fold(a@).len() != ascii_fold(b@).len());
        return false;
    }
    let mut i: usize = 0;
    while i < a.len()
        invariant
            i <= a@.len(),
            a@.len() == b@.len(),
            forall|k: int| 0 <= k < i ==> spec_fold_byte(a@[k]) == spec_fold_byte(b@[k]),
        decreases a@.len() - i,
    {
        if fold_byte(a[i]) != fold_byte(b[i]) {
            assert(ascii_fold(a@)[i as int] != ascii_fold(b@)[i as int]);
            return false;
        }
        i += 1;
    }
    proof {
        assert(ascii_fold(a@) =~= ascii_fold(b@));
    }
    true
}

// ---------------------------------------------------------------------------
// Byte-wise lexicographic comparison.
// ---------------------------------------------------------------------------
pub open spec fn spec_lex_cmp(a: Seq<u8>, b: Seq<u8>) -> Ordering
    decreases a.len(),
{
    if a.len() == 0 && b.len() == 0 {
        Ordering::Equal
    } else if a.len() == 0 {
        Ordering::Less
    } else if b.len() == 0 {
        Ordering::Greater
    } else if a[0] < b[0] {
        Ordering::Less
    } else if a[0] > b[0] {
        Ordering::Greater
    } else {
        spec_lex_cmp(a.skip(1), b.skip(1))
    }
}

/// Compare two byte strings lexicographically.
pub fn lex_cmp_bytes(a: &[u8], b: &[u8]) -> (r: Ordering)
    ensures
        r == spec_lex_cmp(a@, b@),
{
    let mut i: usize = 0;
    proof {
        assert(a@.skip(0) =~= a@);
        assert(b@.skip(0) =~= b@);
    }
    while i < a.len() && i < b.len()
        invariant
            i <= a@.len(),
            i <= b@.len(),
            spec_lex_cmp(a@, b@) == spec_lex_cmp(a@.skip(i as int), b@.skip(i as int)),
        decreases a@.len() - i,
    {
        let x = a[i];
        let y = b[i];
        if x < y {
            assert(a@.skip(i as int)[0] == x && b@.skip(i as int)[0] == y);
            return Ordering::Less;
        }
        if x > y {
            assert(a@.skip(i as int)[0] == x && b@.skip(i as int)[0] == y);
            return Ordering::Greater;
        }
        proof {
            assert(a@.skip(i as int)[0] == x && b@.skip(i as int)[0] == y);
            assert(a@.skip(i as int).skip(1) =~= a@.skip(i + 1));
            assert(b@.skip(i as int).skip(1) =~= b@.skip(i + 1));
        }
        i += 1;
    }
    proof {
        assert(a@.skip(i as int).len() == 0 || b@.skip(i as int).len() == 0);
    }
    if a.len() == b.len() {
        Ordering::Equal
    } else if a.len() < b.len() {
        Ordering::Less
    } else {
        Ordering::Greater
    }
}

proof fn lemma_lex_cmp_antisym(a: Seq<u8>, b: Seq<u8>)
    ensures
        spec_lex_cmp(a, b) == Ordering::Less <==> spec_lex_cmp(b, a) == Ordering::Greater,
        spec_lex_cmp(a, b) == Ordering::Equal <==> spec_lex_cmp(b, a) == Ordering::Equal,
    decreases a.len(),
{
    if a.len() != 0 && b.len() != 0 && a[0] == b[0] {
        lemma_lex_cmp_antisym(a.skip(1), b.skip(1));
    }
}

// ---------------------------------------------------------------------------
// Stripping the global namespace prefix.
// ---------------------------------------------------------------------------
/// Drop every leading backslash from an AST name.
pub open spec fn spec_strip_ns(s: Seq<u8>) -> Seq<u8>
    decreases s.len(),
{
    if s.len() > 0 && s[0] == 0x5Cu8 {
        spec_strip_ns(s.skip(1))
    } else {
        s
    }
}

/// Strip the global-namespace prefix (leading backslashes) from a name.
pub fn strip_global_ns(s: &[u8]) -> (r: Vec<u8>)
    ensures
        r@ == spec_strip_ns(s@),
{
    let mut k: usize = 0;
    proof {
        assert(s@.skip(0) =~= s@);
    }
    while k < s.len() && s[k] == 0x5C
        invariant
            k <= s@.len(),
            spec_strip_ns(s@) == spec_strip_ns(s@.skip(k as int)),
        decreases s@.len() - k,
    {
        proof {
            assert(s@.skip(k as int)[0] == 0x5Cu8);
            assert(s@.skip(k as int).skip(1) =~= s@.skip(k + 1));
        }
        k += 1;
    }
    proof {
        assert(spec_strip_ns(s@.skip(k as int)) == s@.skip(k as int));
    }
    let mut out: Vec<u8> = Vec::new();
    let mut i: usize = k;
    while i < s.len()
        invariant
            k <= i <= s@.len(),
            out@ == s@.subrange(k as int, i as int),
        decreases s@.len() - i,
    {
        out.push(s[i]);
        proof {
            assert(out@ =~= s@.subrange(k as int, i + 1));
        }
        i += 1;
    }
    proof {
        assert(out@ =~= s@.skip(k as int));
    }
    out
}

// ---------------------------------------------------------------------------
// Name newtypes.
// ---------------------------------------------------------------------------
/// A class name in the bytecode domain.  A class name arrives here with
/// any XHP mangling already applied: mangling AST names is the front end's
/// work and no constructor of it is offered here.
#[derive(Debug, Clone)]
pub struct ClassName {
    bytes: Vec<u8>,
}

impl View for ClassName {
    type V = Seq<u8>;

    closed spec fn view(&self) -> Seq<u8> {
        self.bytes@
    }
}

impl ClassName {
    pub fn new(bytes: Vec<u8>) -> (r: ClassName)
        ensures
            r@ == bytes@,
    {
        ClassName { bytes }
    }

    pub fn from_bytes(s: &[u8]) -> (r: ClassName)
        ensures
            r@ == s@,
    {
        ClassName { bytes: slice_to_vec(s) }
    }

    pub fn as_bytes(&self) -> (r: &Vec<u8>)
        ensures
            r@ == self@,
    {
        &self.bytes
    }

    pub fn is_empty(&self) -> (r: bool)
        ensures
            r == (self@.len() == 0),
    {
        self.bytes.len() == 0
    }
}

/// A module name in the bytecode domain.
#[derive(Debug, Clone)]
pub struct ModuleName {
    bytes: Vec<u8>,
}

impl View for ModuleName {
    type V = Seq<u8>;

    closed spec fn view(&self) -> Seq<u8> {
        self.bytes@
    }
}

impl ModuleName {
    pub fn new(bytes: Vec<u8>) -> (r: ModuleName)
        ensures
            r@ == bytes@,
    {
        ModuleName { bytes }
    }

    pub fn from_bytes(s: &[u8]) -> (r: ModuleName)
        ensures
            r@ == s@,
    {
        ModuleName { bytes: slice_to_vec(s) }
    }

    pub fn as_bytes(&self) -> (r: &Vec<u8>)
        ensures
            r@ == self@,
    {
        &self.bytes
    }
}

/// A property name in the bytecode domain.
#[derive(Debug, Clone)]
pub struct PropName {
    bytes: Vec<u8>,
}

impl View for PropName {
    type V = Seq<u8>;

    closed spec fn view(&self) -> Seq<u8> {
        self.bytes@
    }
}

impl PropName {
    pub fn new(bytes: Vec<u8>) -> (r: PropName)
        ensures
            r@ == bytes@,
    {
        PropName { bytes }
    }

    pub fn from_bytes(s: &[u8]) -> (r: PropName)
        ensures
            r@ == s@,
    {
        PropName { bytes: slice_to_vec(s) }
    }

    pub fn as_bytes(&self) -> (r: &Vec<u8>)
        ensures
            r@ == self@,
    {
        &self.bytes
    }

    /// Build a property name from an AST name by stripping the global
    /// namespace prefix.
    pub fn from_ast_name(s: &[u8]) -> (r: PropName)
        ensures
            r@ == spec_strip_ns(s@),
    {
        PropName { bytes: strip_global_ns(s) }
    }
}

/// A method name in the bytecode domain.
#[derive(Debug, Clone)]
pub struct MethodName {
    bytes: Vec<u8>,
}

impl View for MethodName {
    type V = Seq<u8>;

    closed spec fn view(&self) -> Seq<u8> {
        self.bytes@
    }
}

impl MethodName {
    pub fn new(bytes: Vec<u8>) -> (r: MethodName)
        ensures
            r@ == bytes@,
    {
        MethodName { bytes }
    }

    pub fn from_bytes(s: &[u8]) -> (r: MethodName)
        ensures
            r@ == s@,
    {
        MethodName { bytes: slice_to_vec(s) }
    }

    pub fn as_bytes(&self) -> (r: &Vec<u8>)
        ensures
            r@ == self@,
    {
        &self.bytes
    }

    pub fn from_ast_name(s: &[u8]) -> (r: MethodName)
        ensures
            r@ == spec_strip_ns(s@),
    {
        MethodName { bytes: strip_global_ns(s) }
    }

    /// Build a method name from an AST name and append a suffix.
    pub fn from_ast_name_and_suffix(s: &[u8], suffix: &[u8]) -> (r: MethodName)
        ensures
            r@ == spec_strip_ns(s@) + suffix@,
    {
        let mut bytes = strip_global_ns(s);
        bytes.extend_from_slice(suffix);
        MethodName { bytes }
    }

    /// A fresh name made of an existing name with a suffix appended.
    pub fn add_suffix(id: &MethodName, suffix: &[u8]) -> (r: MethodName)
        ensures
            r@ == id@ + suffix@,
    {
        let mut bytes = id.bytes.clone();
        proof {
            assert(bytes@ =~= id.bytes@);
        }
        bytes.extend_from_slice(suffix);
        MethodName { bytes }
    }
}

/// A top-level constant name in the bytecode domain.
#[derive(Debug, Clone)]
pub struct ConstName {
    bytes: Vec<u8>,
}

impl View for ConstName {
    type V = Seq<u8>;

    closed spec fn view(&self) -> Seq<u8> {
        self.bytes@
    }
}

impl ConstName {
    pub fn new(bytes: Vec<u8>) -> (r: ConstName)
        ensures
            r@ == bytes@,
    {
        ConstName { bytes }
    }

    pub fn from_bytes(s: &[u8]) -> (r: ConstName)
        ensures
            r@ == s@,
    {
        ConstName { bytes: slice_to_vec(s) }
    }

    pub fn as_bytes(&self) -> (r: &Vec<u8>)
        ensures
            r@ == self@,
    {
        &self.bytes
    }

    pub fn from_ast_name(s: &[u8]) -> (r: ConstName)
        ensures
            r@ == spec_strip_ns(s@),
    {
        ConstName { bytes: strip_global_ns(s) }
    }
}

// ---------------------------------------------------------------------------
// Function names: case-insensitive equality, raw-byte order fallback.
// ---------------------------------------------------------------------------
/// The three-way order on function names: equal when the folded texts match,
/// otherwise the byte-wise order of the raw (non-folded) texts.
pub open spec fn spec_name_cmp(a: Seq<u8>, b: Seq<u8>) -> Ordering {
    if ascii_fold(a) == ascii_fold(b) {
        Ordering::Equal
    } else {
        spec_lex_cmp(a, b)
    }
}

/// Exchanging the arguments of the function-name order swaps Less and
/// Greater and keeps Equal.
pub proof fn lemma_name_cmp_antisym(a: Seq<u8>, b: Seq<u8>)
    ensures
        spec_name_cmp(a, b) == Ordering::Less <==> spec_name_cmp(b, a) == Ordering::Greater,
        spec_name_cmp(a, b) == Ordering::Equal <==> spec_name_cmp(b, a) == Ordering::Equal,
{
    lemma_lex_cmp_antisym(a, b);
}

/// A function name in the bytecode domain.
#[derive(Debug, Clone, Eq)]
pub struct FunctionName {
    bytes: Vec<u8>,
}

impl View for FunctionName {
    type V = Seq<u8>;

    closed spec fn view(&self) -> Seq<u8> {
        self.bytes@
    }
}

impl PartialEq for FunctionName {
    fn eq(&self, other: &FunctionName) -> (r: bool) {
        eq_ignore_ascii_case(self.bytes.as_slice(), other.bytes.as_slice())
    }
}

impl vstd::std_specs::cmp::PartialEqSpecImpl for FunctionName {
    open spec fn obeys_eq_spec() -> bool {
        true
    }

    open spec fn eq_spec(&self, other: &FunctionName) -> bool {
        ascii_fold(self@) == ascii_fold(other@)
    }
}

impl PartialOrd for FunctionName {
    fn partial_cmp(&self, other: &FunctionName) -> (r: Option<Ordering>) {
        Some(self.cmp(other))
    }
}

impl vstd::std_specs::cmp::PartialOrdSpecImpl for FunctionName {
    open spec fn obeys_partial_cmp_spec() -> bool {
        true
    }

    open spec fn partial_cmp_spec(&self, other: &FunctionName) -> Option<Ordering> {
        Some(spec_name_cmp(self@, other@))
    }
}

impl FunctionName {
    /// Construct a function name holding exactly these bytes.
    pub fn intern(s: &[u8]) -> (r: FunctionName)
        ensures
            r@ == s@,
    {
        FunctionName { bytes: slice_to_vec(s) }
    }

    pub fn new(bytes: Vec<u8>) -> (r: FunctionName)
        ensures
            r@ == bytes@,
    {
        FunctionName { bytes }
    }

    pub fn as_bytes(&self) -> (r: &Vec<u8>)
        ensures
            r@ == self@,
    {
        &self.bytes
    }

    pub fn from_ast_name(s: &[u8]) -> (r: FunctionName)
        ensures
            r@ == spec_strip_ns(s@),
    {
        FunctionName { bytes: strip_global_ns(s) }
    }

    pub fn add_suffix(id: &FunctionName, suffix: &[u8]) -> (r: FunctionName)
        ensures
            r@ == id@ + suffix@,
    {
        let mut bytes = id.bytes.clone();
        proof {
            assert(bytes@ =~= id.bytes@);
        }
        bytes.extend_from_slice(suffix);
        FunctionName { bytes }
    }

    /// The three-way comparison: Equal under case-insensitive match, else
    /// byte-wise order of the raw text.
    pub fn cmp(&self, other: &FunctionName) -> (r: Ordering)
        ensures
            r == spec_name_cmp(self@, other@),
    {
        if eq_ignore_ascii_case(self.bytes.as_slice(), other.bytes.as_slice()) {
            Ordering::Equal
        } else {
            lex_cmp_bytes(self.bytes.as_slice(), other.bytes.as_slice())
        }
    }

    /// A hash of the case-folded text, so that case-equal names hash
    /// identically (64-bit FNV-1a over the folded bytes).
    pub fn hash_code(&self) -> (r: u64)
        ensures
            r == spec_fnv_hash(ascii_fold(self@)),
    {
        let n = self.bytes.len();
        let mut h: u64 = 0xcbf2_9ce4_8422_2325;
        let mut i: usize = 0;
        while i < n
            invariant
                n == self@.len(),
                i <= n,
                h == spec_fnv_from(ascii_fold(self@).take(i as int), 0xcbf2_9ce4_8422_2325u64),
            decreases n - i,
        {
            let ghost pre = ascii_fold(self@).take(i as int);
            h = (h ^ (fold_byte(self.bytes[i]) as u64)).wrapping_mul(0x100_0000_01b3);
            proof {
                assert(ascii_fold(self@).take(i + 1) =~= pre.push(ascii_fold(self@)[i as int]));
                lemma_fnv_from_push(pre, ascii_fold(self@)[i as int], 0xcbf2_9ce4_8422_2325u64);
            }
            i += 1;
        }
        proof {
            assert(ascii_fold(self@).take(n as int) =~= ascii_fold(self@));
        }
        h
    }
}

/// 64-bit FNV-1a over a byte string, starting from the standard offset basis.
pub open spec fn spec_fnv_hash(s: Seq<u8>) -> u64 {
    spec_fnv_from(s, 0xcbf2_9ce4_8422_2325u64)
}

pub open spec fn spec_fnv_from(s: Seq<u8>, h: u64) -> u64
    decreases s.len(),
{
    if s.len() == 0 {
        h
    } else {
        spec_fnv_from(s.skip(1), (((h ^ (s[0] as u64)) * 0x100_0000_01b3) % 0x1_0000_0000_0000_0000) as u64)
    }
}

proof fn lemma_fnv_from_push(s: Seq<u8>, b: u8, h: u64)
    ensures
        spec_fnv_from(s.push(b), h) == (((spec_fnv_from(s, h) ^ (b as u64)) * 0x100_0000_01b3)
            % 0x1_0000_0000_0000_0000) as u64,
    decreases s.len(),
{
    if s.len() == 0 {
        assert(s.push(b)[0] == b);
        assert(s.push(b).skip(1) =~= Seq::<u8>::empty());
        let h1 = (((h ^ (b as u64)) * 0x100_0000_01b3) % 0x1_0000_0000_0000_0000) as u64;
        assert(spec_fnv_from(s.push(b), h) == spec_fnv_from(s.push(b).skip(1), h1));
        assert(spec_fnv_from(s.push(b).skip(1), h1) == h1);
        assert(spec_fnv_from(s, h) == h);
    } else {
        assert(s.push(b)[0] == s[0]);
        assert(s.push(b).skip(1) =~= s.skip(1).push(b));
        lemma_fnv_from_push(s.skip(1), b, (((h ^ (s[0] as u64)) * 0x100_0000_01b3)
            % 0x1_0000_0000_0000_0000) as u64);
    }
}

/// Law: function names that are ASCII-case-insensitively equal compare equal
/// and hash identically.
pub proof fn lemma_function_name_eq_hash(a: Seq<u8>, b: Seq<u8>)
    requires
        ascii_fold(a) == ascii_fold(b),
    ensures
        spec_name_cmp(a, b) == Ordering::Equal,
        spec_fnv_hash(ascii_fold(a)) == spec_fnv_hash(ascii_fold(b)),
{
}

// ---------------------------------------------------------------------------
// An order-preserving unique set of function names.
// ---------------------------------------------------------------------------
/// What inserting a name into an ordered name list yields: the list with the
/// name placed before the first strictly greater entry, or the list unchanged
/// if an entry comparing equal (case-insensitively) is met first.
pub open spec fn spec_set_insert(v: Seq<Seq<u8>>, x: Seq<u8>) -> Seq<Seq<u8>>
    decreases v.len(),
{
    if v.len() == 0 {
        seq![x]
    } else if spec_name_cmp(x, v[0]) == Ordering::Equal {
        v
    } else if spec_name_cmp(x, v[0]) == Ordering::Less {
        seq![x] + v
    } else {
        seq![v[0]] + spec_set_insert(v.skip(1), x)
    }
}

/// A uniqueness-checked collection of function names kept in their
/// deterministic total order: ascending by the function-name order, with
/// case-insensitive duplicates collapsed on insertion.
pub struct FunctionNameSet {
    items: Vec<FunctionName>,
}

impl View for FunctionNameSet {
    type V = Seq<Seq<u8>>;

    closed spec fn view(&self) -> Seq<Seq<u8>> {
        self.items@.map_values(|n: FunctionName| n@)
    }
}

impl FunctionNameSet {
    /// Adjacent entries are strictly ascending in the function-name order.
    pub open spec fn wf(&self) -> bool {
        forall|i: int|
            0 <= i && i + 1 < self@.len() ==> #[trigger] spec_name_cmp(self@[i], self@[i + 1])
                == Ordering::Less
    }

    pub fn new() -> (r: FunctionNameSet)
        ensures
            r@ =~= Seq::<Seq<u8>>::empty(),
            r.wf(),
    {
        FunctionNameSet { items: Vec::new() }
    }

    pub fn len(&self) -> (r: usize)
        ensures
            r == self@.len(),
    {
        self.items.len()
    }

    /// The names, in their set order.
    pub fn names(&self) -> (r: &Vec<FunctionName>)
        ensures
            r@.map_values(|n: FunctionName| n@) == self@,
    {
        &self.items
    }

    /// Insert a name, keeping the order and collapsing case-insensitive
    /// duplicates: if a name comparing equal is already present, the set is
    /// unchanged.
    pub fn insert(&mut self, x: FunctionName)
        requires
            old(self).wf(),
        ensures
            final(self).wf(),
            final(self)@ == spec_set_insert(old(self)@, x@),
    {
        let n = self.items.len();
        let mut i: usize = 0;
        proof {
            assert(self@.skip(0) =~= self@);
            assert(self@.take(0) + spec_set_insert(self@, x@) =~= spec_set_insert(self@, x@));
        }
        while i < n
            invariant
                *self == *old(self),
                self.wf(),
                n == self@.len(),
                i <= n,
                spec_set_insert(self@, x@) == self@.take(i as int) + spec_set_insert(
                    self@.skip(i as int),
                    x@,
                ),
                forall|k: int| 0 <= k < i ==> #[trigger] spec_name_cmp(x@, self@[k]) == Ordering::Greater,
            decreases n - i,
        {
            let c = x.cmp(&self.items[i]);
            let ghost pre = self@;
            match c {
                Ordering::Equal => {
                    proof {
                        assert(pre.skip(i as int)[0] == pre[i as int]);
                        assert(spec_set_insert(pre.skip(i as int), x@) == pre.skip(i as int));
                        assert(pre.take(i as int) + pre.skip(i as int) =~= pre);
                    }
                    return ;
                },
                Ordering::Less => {
                    self.items.insert(i, x);
                    proof {
                        assert(pre.skip(i as int)[0] == pre[i as int]);
                        assert(spec_set_insert(pre.skip(i as int), x@) == seq![x@] + pre.skip(
                            i as int,
                        ));
                        assert(self@ =~= pre.take(i as int) + (seq![x@] + pre.skip(i as int)));
                        lemma_set_insert_wf_middle(pre, x@, i as int);
                    }
                    return ;
                },
                Ordering::Greater => {
                    proof {
                        assert(pre.skip(i as int)[0] == pre[i as int]);
                        assert(spec_set_insert(pre.skip(i as int), x@) == seq![pre[i as int]]
                            + spec_set_insert(pre.skip(i as int).skip(1), x@));
                        assert(pre.skip(i as int).skip(1) =~= pre.skip(i + 1));
                        assert(pre.take(i as int) + (seq![pre[i as int]] + spec_set_insert(
                            pre.skip(i + 1),
                            x@,
                        )) =~= pre.take(i + 1) + spec_set_insert(pre.skip(i + 1), x@));
                    }
                    i += 1;
                },
            }
        }
        let ghost pre = self@;
        self.items.push(x);
        proof {
            assert(pre.skip(n as int) =~= Seq::<Seq<u8>>::empty());
            assert(spec_set_insert(pre.skip(n as int), x@) == seq![x@]);
            assert(self@ =~= pre.take(n as int) + seq![x@]);
            assert(pre.take(n as int) =~= pre);
            assert forall|k: int| 0 <= k && k + 1 < self@.len() implies #[trigger] spec_name_cmp(
                self@[k],
                self@[k + 1],
            ) == Ordering::Less by {
                if k + 1 == pre.len() {
                    lemma_name_cmp_antisym(x@, pre[k]);
                } else {
                    assert(spec_name_cmp(pre[k], pre[k + 1]) == Ordering::Less);
                }
            }
        }
    }
}

/// Inserting strictly between a smaller left neighbourhood and the first
/// not-smaller entry keeps the adjacent-ascending order.
proof fn lemma_set_insert_wf_middle(v: Seq<Seq<u8>>, x: Seq<u8>, p: int)
    requires
        0 <= p < v.len(),
        forall|i: int| 0 <= i && i + 1 < v.len() ==> #[trigger] spec_name_cmp(v[i], v[i + 1]) == Ordering::Less,
        forall|k: int| 0 <= k < p ==> #[trigger] spec_name_cmp(x, v[k]) == Ordering::Greater,
        spec_name_cmp(x, v[p]) == Ordering::Less,
    ensures
        forall|i: int|
            0 <= i && i + 1 < (v.take(p) + (seq![x] + v.skip(p))).len() ==> #[trigger] spec_name_cmp(
                (v.take(p) + (seq![x] + v.skip(p)))[i],
                (v.take(p) + (seq![x] + v.skip(p)))[i + 1],
            ) == Ordering::Less,
{
    let w = v.take(p) + (seq![x] + v.skip(p));
    assert(w.len() == v.len() + 1);
    assert forall|i: int| 0 <= i && i + 1 < w.len() implies #[trigger] spec_name_cmp(w[i], w[i + 1])
        == Ordering::Less by {
        if i + 1 < p {
            assert(w[i] == v[i] && w[i + 1] == v[i + 1]);
            assert(spec_name_cmp(v[i], v[i + 1]) == Ordering::Less);
        } else if i + 1 == p {
            assert(w[i] == v[i] && w[i + 1] == x);
            assert(spec_name_cmp(x, v[i]) == Ordering::Greater);
            lemma_name_cmp_antisym(x, v[i]);
        } else if i + 1 == p + 1 {
            assert(w[i] == x && w[i + 1] == v[p]);
        } else {
            let j = i - 1;
            assert(w[i] == v[j] && w[i + 1] == v[j + 1]);
            assert(spec_name_cmp(v[j], v[j + 1]) == Ordering::Less);
        }
    }
}

/// Law: inserting two case-insensitively equal names into an empty set
/// retains one entry, the first.
pub proof fn lemma_set_collapses_case_equal(a: Seq<u8>, b: Seq<u8>)
    requires
        ascii_fold(a) == ascii_fold(b),
    ensures
        spec_set_insert(spec_set_insert(Seq::<Seq<u8>>::empty(), a), b) == seq![a],
{
    let one = spec_set_insert(Seq::<Seq<u8>>::empty(), a);
    assert(one == seq![a]);
    assert(spec_name_cmp(b, a) == Ordering::Equal);
}

} // verus!
