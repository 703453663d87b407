//! Single-word tagged value references used pervasively by IR instructions.
//!
//! A [`ValueId`] packs "result of a prior instruction", "compile-time
//! constant", or "absent" into one signed 32-bit word: non-negative values
//! are instruction indices, the bitwise complement of a non-negative value
//! (that is, `-1 - idx`) is a constant index, and the minimum representable
//! value is the absence sentinel.

use vstd::prelude::*;

use crate::interner::Interner;
use crate::interner::UnitBytesId;

verus! {

/// An index of an instruction within a function body.
#[derive(Copy, Clone, Debug, PartialEq, Eq, Hash, Structural)]
pub struct InstrId(pub u32);

/// An index of a constant within a function's constant pool.
#[derive(Copy, Clone, Debug, PartialEq, Eq, Hash, Structural)]
pub struct ConstantId(pub u32);

/// A tagged reference to an instruction result, a constant, or nothing,
/// packed into a single `i32`.
#[derive(Copy, Clone, Debug, PartialEq, Eq, Hash, Structural)]
pub struct ValueId {
    raw: i32,
}

/// The unpacked form of a [`ValueId`], usable with `match`.
#[derive(Copy, Clone, Debug, PartialEq, Eq, Structural)]
pub enum FullInstrId {
    Instr(InstrId),
    Constant(ConstantId),
    Absent,
}

impl ValueId {
    pub closed spec fn spec_raw(self) -> i32 {
        self.raw
    }

    pub open spec fn spec_is_instr(self) -> bool {
        self.spec_raw() >= 0
    }

    pub open spec fn spec_is_none(self) -> bool {
        self.spec_raw() == i32::MIN
    }

    pub open spec fn spec_is_constant(self) -> bool {
        self.spec_raw() < 0 && self.spec_raw() != i32::MIN
    }

    /// The instruction index stored in an is-instr value.
    pub open spec fn spec_instr_idx(self) -> int {
        self.spec_raw() as int
    }

    /// The constant index stored in an is-constant value: the bitwise
    /// complement of the raw word.
    pub open spec fn spec_constant_idx(self) -> int {
        -1 - self.spec_raw() as int
    }

    pub fn raw(self) -> (r: i32)
        ensures
            r == self.spec_raw(),
    {
        self.raw
    }

    /// Build a reference to the result of instruction `idx`.
    pub fn from_instr(idx: InstrId) -> (r: ValueId)
        requires
            idx.0 != 0xFFFF_FFFFu32,
            idx.0 <= 0x7FFF_FFFFu32,
        ensures
            r.spec_is_instr(),
            r.spec_instr_idx() == idx.0,
    {
        ValueId { raw: idx.0 as i32 }
    }

    /// Build a reference to constant `idx`.  The stored word is the bitwise
    /// complement `-1 - idx`, always negative and distinct from the absence
    /// sentinel.
    pub fn from_constant(idx: ConstantId) -> (r: ValueId)
        requires
            idx.0 != 0xFFFF_FFFFu32,
            idx.0 < 0x7FFF_FFFFu32,
        ensures
            r.spec_is_constant(),
            r.spec_constant_idx() == idx.0,
    {
        ValueId { raw: -1 - (idx.0 as i32) }
    }

    /// The absent reference.
    pub fn none() -> (r: ValueId)
        ensures
            r.spec_is_none(),
    {
        ValueId { raw: i32::MIN }
    }

    /// Unpack an is-instr value; invoking this on anything else is a
    /// programmer error, so the contract rules it out.
    pub fn expect_instr(self, msg: &str) -> (r: InstrId)
        requires
            self.spec_is_instr(),
        ensures
            r.0 == self.spec_instr_idx(),
    {
        let _ = msg;
        InstrId(self.raw as u32)
    }

    /// Decode into the unpacked form.  Decoding is total: every word maps to
    /// exactly one variant.
    pub fn full(self) -> (r: FullInstrId)
        ensures
            self.spec_is_instr() ==> r == FullInstrId::Instr(InstrId(self.spec_instr_idx() as u32)),
            self.spec_is_none() ==> r == FullInstrId::Absent,
            self.spec_is_constant() ==> r == FullInstrId::Constant(
                ConstantId(self.spec_constant_idx() as u32),
            ),
    {
        if self.raw >= 0 {
            FullInstrId::Instr(InstrId(self.raw as u32))
        } else if self.raw == i32::MIN {
            FullInstrId::Absent
        } else {
            FullInstrId::Constant(ConstantId((-1 - self.raw) as u32))
        }
    }

    pub fn constant(self) -> (r: Option<ConstantId>)
        ensures
            self.spec_is_constant() ==> r == Some(ConstantId(self.spec_constant_idx() as u32)),
            !self.spec_is_constant() ==> r is None,
    {
        if self.raw >= 0 || self.raw == i32::MIN {
            None
        } else {
            Some(ConstantId((-1 - self.raw) as u32))
        }
    }

    pub fn instr(self) -> (r: Option<InstrId>)
        ensures
            self.spec_is_instr() ==> r == Some(InstrId(self.spec_instr_idx() as u32)),
            !self.spec_is_instr() ==> r is None,
    {
        if self.raw >= 0 {
            Some(InstrId(self.raw as u32))
        } else {
            None
        }
    }

    pub fn is_constant(self) -> (r: bool)
        ensures
            r == self.spec_is_constant(),
    {
        self.raw < 0 && self.raw != i32::MIN
    }

    pub fn is_instr(self) -> (r: bool)
        ensures
            r == self.spec_is_instr(),
    {
        self.raw >= 0
    }

    pub fn is_none(self) -> (r: bool)
        ensures
            r == self.spec_is_none(),
    {
        self.raw == i32::MIN
    }
}

/// Law: for every valid produced-value index `i`, the value built by
/// `from_instr` decodes as that instruction index; for every valid constant
/// index `c`, the value built by `from_constant` decodes as that constant
/// index; the absent value decodes as absent.  Exactly one of is-instr,
/// is-constant and is-none holds of any `ValueId`.
pub proof fn lemma_value_id_bijection(v: ValueId, i: u32, c: u32)
    requires
        i <= 0x7FFF_FFFFu32,
        c < 0x7FFF_FFFFu32,
    ensures
        v.spec_is_instr() && v.spec_instr_idx() == i ==> v.spec_constant_idx() != c
            && !v.spec_is_constant() && !v.spec_is_none(),
        v.spec_is_constant() && v.spec_constant_idx() == c ==> !v.spec_is_instr()
            && !v.spec_is_none(),
        v.spec_is_instr() || v.spec_is_constant() || v.spec_is_none(),
        !(v.spec_is_instr() && v.spec_is_constant()),
        !(v.spec_is_instr() && v.spec_is_none()),
        !(v.spec_is_constant() && v.spec_is_none()),
{
}

/// A handle naming a global (a per-unit byte string) within the IR domain.
#[derive(Copy, Clone, Debug, PartialEq, Eq, Hash, Structural)]
pub struct GlobalId {
    pub id: UnitBytesId,
}

impl GlobalId {
    pub fn new(id: UnitBytesId) -> (r: GlobalId)
        ensures
            r.id == id,
    {
        GlobalId { id }
    }

    pub fn as_bytes<'a>(self, strings: &'a Interner) -> (r: &'a Vec<u8>)
        requires
            self.id.0 < strings@.len(),
        ensures
            r@ == strings@[self.id.0 as int],
    {
        strings.lookup(self.id.0)
    }
}

} // verus!
