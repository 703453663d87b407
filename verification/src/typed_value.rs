//! Typed constant values in both domains, and their common mathematical
//! denotation.
//!
//! A constant is a scalar, a deferred class reference, or a nested ordered
//! or keyed array.  In the bytecode domain names are handles into the
//! bytecode-domain interner; in the IR domain they are handles into the
//! per-conversion IR interner.  The denotation resolves every handle to its
//! bytes, so a conversion across domains is correct exactly when it
//! preserves the denotation.  Float values are carried as their 64-bit
//! pattern and convert bit-for-bit.

use vstd::prelude::*;

use crate::interner::StringId;
use crate::interner::UnitBytesId;
use crate::utf8::is_utf8;

verus! {

/// A typed constant in the bytecode (persisted) domain.  `Float` holds the
/// value's 64-bit pattern.
pub enum TypedValue {
    Uninit,
    Int(i64),
    Bool(bool),
    Float(u64),
    String(StringId),
    LazyClass(StringId),
    Null,
    Vec(Vec<TypedValue>),
    Keyset(Vec<TypedValue>),
    Dict(Vec<Entry>),
}

/// One key/value pair of a bytecode-domain dict, in insertion order.
pub struct Entry {
    pub key: TypedValue,
    pub value: TypedValue,
}

/// A typed constant in the IR domain.
pub enum IrTypedValue {
    Uninit,
    Int(i64),
    Bool(bool),
    Float(u64),
    String(UnitBytesId),
    LazyClass(UnitBytesId),
    Null,
    Vec(Vec<IrTypedValue>),
    Keyset(Vec<ArrayKey>),
    Dict(Vec<(ArrayKey, IrTypedValue)>),
}

/// The restricted shapes a keyset element or dict key may take.
#[derive(Copy, Clone)]
pub enum ArrayKey {
    Int(i64),
    String(UnitBytesId),
    LazyClass(UnitBytesId),
}

/// The denotation of a typed constant: every name handle resolved to the
/// bytes it stands for, in either domain.
pub enum TvDen {
    Uninit,
    Int(i64),
    Bool(bool),
    Float(u64),
    Str(Seq<u8>),
    LazyCls(Seq<u8>),
    Null,
    Vec(Seq<TvDen>),
    Keyset(Seq<TvDen>),
    Dict(Seq<(TvDen, TvDen)>),
}

/// A bytecode-domain constant shrinks to each of its children, so the
/// recursions below terminate.
pub proof fn lemma_bc_children_smaller(tv: TypedValue)
    ensures
        tv matches TypedValue::Vec(vs) ==> forall|i: int|
            0 <= i < vs@.len() ==> #[trigger] (decreases_to!(tv => vs@[i])),
        tv matches TypedValue::Keyset(vs) ==> forall|i: int|
            0 <= i < vs@.len() ==> #[trigger] (decreases_to!(tv => vs@[i])),
        tv matches TypedValue::Dict(es) ==> forall|i: int|
            0 <= i < es@.len() ==> #[trigger] (decreases_to!(tv => es@[i].key)) && (decreases_to!(
                tv => es@[i].value
            )),
{
    match tv {
        TypedValue::Vec(vs) => {
            assert forall|i: int| 0 <= i < vs@.len() implies #[trigger] (decreases_to!(
                tv => vs@[i]
            )) by {
                assert(decreases_to!(tv => vs));
                assert(decreases_to!(vs => vs@));
                assert(decreases_to!(vs@ => vs@[i]));
            }
        },
        TypedValue::Keyset(vs) => {
            assert forall|i: int| 0 <= i < vs@.len() implies #[trigger] (decreases_to!(
                tv => vs@[i]
            )) by {
                assert(decreases_to!(tv => vs));
                assert(decreases_to!(vs => vs@));
                assert(decreases_to!(vs@ => vs@[i]));
            }
        },
        TypedValue::Dict(es) => {
            assert forall|i: int| 0 <= i < es@.len() implies #[trigger] (decreases_to!(
                tv => es@[i].key
            )) && (decreases_to!(tv => es@[i].value)) by {
                assert(decreases_to!(tv => es));
                assert(decreases_to!(es => es@));
                assert(decreases_to!(es@ => es@[i]));
                assert(decreases_to!(es@[i] => es@[i].key));
                assert(decreases_to!(es@[i] => es@[i].value));
            }
        },
        _ => {},
    }
}

/// An IR-domain constant shrinks to each of its children.
pub proof fn lemma_ir_children_smaller(tv: IrTypedValue)
    ensures
        tv matches IrTypedValue::Vec(vs) ==> forall|i: int|
            0 <= i < vs@.len() ==> #[trigger] (decreases_to!(tv => vs@[i])),
        tv matches IrTypedValue::Dict(es) ==> forall|i: int|
            0 <= i < es@.len() ==> #[trigger] (decreases_to!(tv => es@[i].1)),
{
    match tv {
        IrTypedValue::Vec(vs) => {
            assert forall|i: int| 0 <= i < vs@.len() implies #[trigger] (decreases_to!(
                tv => vs@[i]
            )) by {
                assert(decreases_to!(tv => vs));
                assert(decreases_to!(vs => vs@));
                assert(decreases_to!(vs@ => vs@[i]));
            }
        },
        IrTypedValue::Dict(es) => {
            assert forall|i: int| 0 <= i < es@.len() implies #[trigger] (decreases_to!(
                tv => es@[i].1
            )) by {
                assert(decreases_to!(tv => es));
                assert(decreases_to!(es => es@));
                assert(decreases_to!(es@ => es@[i]));
                assert(decreases_to!(es@[i] => es@[i].1));
            }
        },
        _ => {},
    }
}

#[via_fn]
proof fn den_bc_decreases(tv: TypedValue, g: Seq<Seq<u8>>) {
    lemma_bc_children_smaller(tv);
}

#[via_fn]
proof fn den_ir_decreases(tv: IrTypedValue, t: Seq<Seq<u8>>) {
    lemma_ir_children_smaller(tv);
}

#[via_fn]
proof fn wf_bc_tv_decreases(tv: TypedValue, glen: int) {
    lemma_bc_children_smaller(tv);
}

#[via_fn]
proof fn wf_ir_tv_decreases(tv: IrTypedValue, tlen: int) {
    lemma_ir_children_smaller(tv);
}

/// The denotation of a bytecode-domain constant under the bytecode-domain
/// interner table `g`.
pub open spec fn den_bc(tv: TypedValue, g: Seq<Seq<u8>>) -> TvDen
    decreases tv,
    via den_bc_decreases
{
    match tv {
        TypedValue::Uninit => TvDen::Uninit,
        TypedValue::Int(v) => TvDen::Int(v),
        TypedValue::Bool(v) => TvDen::Bool(v),
        TypedValue::Float(v) => TvDen::Float(v),
        TypedValue::String(id) => TvDen::Str(g[id.0 as int]),
        TypedValue::LazyClass(id) => TvDen::LazyCls(g[id.0 as int]),
        TypedValue::Null => TvDen::Null,
        TypedValue::Vec(vs) => TvDen::Vec(
            Seq::new(
                vs@.len(),
                |i: int| if 0 <= i < vs@.len() { den_bc(vs@[i], g) } else { TvDen::Uninit },
            ),
        ),
        TypedValue::Keyset(vs) => TvDen::Keyset(
            Seq::new(
                vs@.len(),
                |i: int| if 0 <= i < vs@.len() { den_bc(vs@[i], g) } else { TvDen::Uninit },
            ),
        ),
        TypedValue::Dict(es) => TvDen::Dict(
            Seq::new(
                es@.len(),
                |i: int| if 0 <= i < es@.len() {
                    (den_bc(es@[i].key, g), den_bc(es@[i].value, g))
                } else {
                    (TvDen::Uninit, TvDen::Uninit)
                },
            ),
        ),
    }
}

/// The denotation of an IR-domain array key under the IR interner table.
pub open spec fn den_key(k: ArrayKey, t: Seq<Seq<u8>>) -> TvDen {
    match k {
        ArrayKey::Int(v) => TvDen::Int(v),
        ArrayKey::String(id) => TvDen::Str(t[id.0 as int]),
        ArrayKey::LazyClass(id) => TvDen::LazyCls(t[id.0 as int]),
    }
}

/// The denotation of an IR-domain constant under the IR interner table `t`.
pub open spec fn den_ir(tv: IrTypedValue, t: Seq<Seq<u8>>) -> TvDen
    decreases tv,
    via den_ir_decreases
{
    match tv {
        IrTypedValue::Uninit => TvDen::Uninit,
        IrTypedValue::Int(v) => TvDen::Int(v),
        IrTypedValue::Bool(v) => TvDen::Bool(v),
        IrTypedValue::Float(v) => TvDen::Float(v),
        IrTypedValue::String(id) => TvDen::Str(t[id.0 as int]),
        IrTypedValue::LazyClass(id) => TvDen::LazyCls(t[id.0 as int]),
        IrTypedValue::Null => TvDen::Null,
        IrTypedValue::Vec(vs) => TvDen::Vec(
            Seq::new(
                vs@.len(),
                |i: int| if 0 <= i < vs@.len() { den_ir(vs@[i], t) } else { TvDen::Uninit },
            ),
        ),
        IrTypedValue::Keyset(ks) => TvDen::Keyset(
            Seq::new(ks@.len(), |i: int| den_key(ks@[i], t)),
        ),
        IrTypedValue::Dict(es) => TvDen::Dict(
            Seq::new(
                es@.len(),
                |i: int| if 0 <= i < es@.len() {
                    (den_key(es@[i].0, t), den_ir(es@[i].1, t))
                } else {
                    (TvDen::Uninit, TvDen::Uninit)
                },
            ),
        ),
    }
}

/// Every handle of the bytecode-domain constant was issued by an interner of
/// length `glen`.
pub open spec fn wf_bc_tv(tv: TypedValue, glen: int) -> bool
    decreases tv,
    via wf_bc_tv_decreases
{
    match tv {
        TypedValue::String(id) => id.0 < glen,
        TypedValue::LazyClass(id) => id.0 < glen,
        TypedValue::Vec(vs) => forall|i: int| 0 <= i < vs@.len() ==> wf_bc_tv(#[trigger] vs@[i], glen),
        TypedValue::Keyset(vs) => forall|i: int|
            0 <= i < vs@.len() ==> wf_bc_tv(#[trigger] vs@[i], glen),
        TypedValue::Dict(es) => forall|i: int|
            0 <= i < es@.len() ==> wf_bc_tv((#[trigger] es@[i]).key, glen) && wf_bc_tv(
                es@[i].value,
                glen,
            ),
        _ => true,
    }
}

/// Every handle of the IR-domain array key was issued by an interner of
/// length `tlen`.
pub open spec fn wf_key(k: ArrayKey, tlen: int) -> bool {
    match k {
        ArrayKey::Int(_) => true,
        ArrayKey::String(id) => id.0 < tlen,
        ArrayKey::LazyClass(id) => id.0 < tlen,
    }
}

/// Every handle of the IR-domain constant was issued by an interner of
/// length `tlen`.
pub open spec fn wf_ir_tv(tv: IrTypedValue, tlen: int) -> bool
    decreases tv,
    via wf_ir_tv_decreases
{
    match tv {
        IrTypedValue::String(id) => id.0 < tlen,
        IrTypedValue::LazyClass(id) => id.0 < tlen,
        IrTypedValue::Vec(vs) => forall|i: int|
            0 <= i < vs@.len() ==> wf_ir_tv(#[trigger] vs@[i], tlen),
        IrTypedValue::Keyset(ks) => forall|i: int|
            0 <= i < ks@.len() ==> wf_key(#[trigger] ks@[i], tlen),
        IrTypedValue::Dict(es) => forall|i: int|
            0 <= i < es@.len() ==> wf_key((#[trigger] es@[i]).0, tlen) && wf_ir_tv(
                es@[i].1,
                tlen,
            ),
        _ => true,
    }
}


/// One interner table is an extension of the other.
pub open spec fn table_extends(pre: Seq<Seq<u8>>, post: Seq<Seq<u8>>) -> bool {
    pre.len() <= post.len() && (forall|i: int| 0 <= i < pre.len() ==> post[i] == pre[i])
}

/// Well-formedness survives growing the interner.
pub proof fn lemma_wf_bc_tv_mono(tv: TypedValue, l1: int, l2: int)
    requires
        wf_bc_tv(tv, l1),
        l1 <= l2,
    ensures
        wf_bc_tv(tv, l2),
    decreases tv,
{
    lemma_bc_children_smaller(tv);
    match tv {
        TypedValue::Vec(vs) => {
            assert forall|i: int| 0 <= i < vs@.len() implies wf_bc_tv(#[trigger] vs@[i], l2) by {
                lemma_wf_bc_tv_mono(vs@[i], l1, l2);
            }
        },
        TypedValue::Keyset(vs) => {
            assert forall|i: int| 0 <= i < vs@.len() implies wf_bc_tv(#[trigger] vs@[i], l2) by {
                lemma_wf_bc_tv_mono(vs@[i], l1, l2);
            }
        },
        TypedValue::Dict(es) => {
            assert forall|i: int| 0 <= i < es@.len() implies wf_bc_tv((#[trigger] es@[i]).key, l2)
                && wf_bc_tv(es@[i].value, l2) by {
                lemma_wf_bc_tv_mono(es@[i].key, l1, l2);
                lemma_wf_bc_tv_mono(es@[i].value, l1, l2);
            }
        },
        _ => {},
    }
}

/// Well-formedness survives growing the interner.
pub proof fn lemma_wf_ir_tv_mono(tv: IrTypedValue, l1: int, l2: int)
    requires
        wf_ir_tv(tv, l1),
        l1 <= l2,
    ensures
        wf_ir_tv(tv, l2),
    decreases tv,
{
    lemma_ir_children_smaller(tv);
    match tv {
        IrTypedValue::Vec(vs) => {
            assert forall|i: int| 0 <= i < vs@.len() implies wf_ir_tv(#[trigger] vs@[i], l2) by {
                lemma_wf_ir_tv_mono(vs@[i], l1, l2);
            }
        },
        IrTypedValue::Dict(es) => {
            assert forall|i: int| 0 <= i < es@.len() implies wf_key((#[trigger] es@[i]).0, l2)
                && wf_ir_tv(es@[i].1, l2) by {
                lemma_wf_ir_tv_mono(es@[i].1, l1, l2);
            }
        },
        _ => {},
    }
}

/// The denotation of a well-formed constant only reads table entries the
/// constant's handles name, so it survives growing the interner.
pub proof fn lemma_den_bc_extends(tv: TypedValue, g1: Seq<Seq<u8>>, g2: Seq<Seq<u8>>)
    requires
        wf_bc_tv(tv, g1.len() as int),
        table_extends(g1, g2),
    ensures
        den_bc(tv, g2) == den_bc(tv, g1),
    decreases tv,
{
    lemma_bc_children_smaller(tv);
    match tv {
        TypedValue::Vec(vs) => {
            let x1 = den_bc(tv, g1)->Vec_0;
            let x2 = den_bc(tv, g2)->Vec_0;
            assert forall|i: int| 0 <= i < vs@.len() implies x2[i] == x1[i] by {
                assert(x2[i] == den_bc(vs@[i], g2));
                assert(x1[i] == den_bc(vs@[i], g1));
                assert(wf_bc_tv(vs@[i], g1.len() as int));
                lemma_den_bc_extends(vs@[i], g1, g2);
            }
            assert(x2 =~= x1);
        },
        TypedValue::Keyset(vs) => {
            let x1 = den_bc(tv, g1)->Keyset_0;
            let x2 = den_bc(tv, g2)->Keyset_0;
            assert forall|i: int| 0 <= i < vs@.len() implies x2[i] == x1[i] by {
                assert(x2[i] == den_bc(vs@[i], g2));
                assert(x1[i] == den_bc(vs@[i], g1));
                assert(wf_bc_tv(vs@[i], g1.len() as int));
                lemma_den_bc_extends(vs@[i], g1, g2);
            }
            assert(x2 =~= x1);
        },
        TypedValue::Dict(es) => {
            let x1 = den_bc(tv, g1)->Dict_0;
            let x2 = den_bc(tv, g2)->Dict_0;
            assert forall|i: int| 0 <= i < es@.len() implies x2[i] == x1[i] by {
                assert(x2[i] == (den_bc(es@[i].key, g2), den_bc(es@[i].value, g2)));
                assert(x1[i] == (den_bc(es@[i].key, g1), den_bc(es@[i].value, g1)));
                assert(wf_bc_tv(es@[i].key, g1.len() as int));
                assert(wf_bc_tv(es@[i].value, g1.len() as int));
                lemma_den_bc_extends(es@[i].key, g1, g2);
                lemma_den_bc_extends(es@[i].value, g1, g2);
            }
            assert(x2 =~= x1);
        },
        _ => {},
    }
}

/// As above, for the IR domain.
pub proof fn lemma_den_ir_extends(tv: IrTypedValue, t1: Seq<Seq<u8>>, t2: Seq<Seq<u8>>)
    requires
        wf_ir_tv(tv, t1.len() as int),
        table_extends(t1, t2),
    ensures
        den_ir(tv, t2) == den_ir(tv, t1),
    decreases tv,
{
    lemma_ir_children_smaller(tv);
    match tv {
        IrTypedValue::Vec(vs) => {
            let x1 = den_ir(tv, t1)->Vec_0;
            let x2 = den_ir(tv, t2)->Vec_0;
            assert forall|i: int| 0 <= i < vs@.len() implies x2[i] == x1[i] by {
                assert(x2[i] == den_ir(vs@[i], t2));
                assert(x1[i] == den_ir(vs@[i], t1));
                assert(wf_ir_tv(vs@[i], t1.len() as int));
                lemma_den_ir_extends(vs@[i], t1, t2);
            }
            assert(x2 =~= x1);
        },
        IrTypedValue::Keyset(ks) => {
            let x1 = den_ir(tv, t1)->Keyset_0;
            let x2 = den_ir(tv, t2)->Keyset_0;
            assert forall|i: int| 0 <= i < ks@.len() implies x2[i] == x1[i] by {
                assert(x2[i] == den_key(ks@[i], t2));
                assert(x1[i] == den_key(ks@[i], t1));
                assert(wf_key(ks@[i], t1.len() as int));
            }
            assert(x2 =~= x1);
        },
        IrTypedValue::Dict(es) => {
            let x1 = den_ir(tv, t1)->Dict_0;
            let x2 = den_ir(tv, t2)->Dict_0;
            assert forall|i: int| 0 <= i < es@.len() implies x2[i] == x1[i] by {
                assert(x2[i] == (den_key(es@[i].0, t2), den_ir(es@[i].1, t2)));
                assert(x1[i] == (den_key(es@[i].0, t1), den_ir(es@[i].1, t1)));
                assert(wf_key(es@[i].0, t1.len() as int));
                assert(wf_ir_tv(es@[i].1, t1.len() as int));
                lemma_den_ir_extends(es@[i].1, t1, t2);
            }
            assert(x2 =~= x1);
        },
        _ => {},
    }
}


/// A denotation shrinks to each of its children.
pub proof fn lemma_den_children_smaller(d: TvDen)
    ensures
        d matches TvDen::Vec(xs) ==> forall|i: int|
            0 <= i < xs.len() ==> #[trigger] (decreases_to!(d => xs[i])),
        d matches TvDen::Keyset(xs) ==> forall|i: int|
            0 <= i < xs.len() ==> #[trigger] (decreases_to!(d => xs[i])),
        d matches TvDen::Dict(ps) ==> forall|i: int|
            0 <= i < ps.len() ==> #[trigger] (decreases_to!(d => ps[i].0)) && (decreases_to!(
                d => ps[i].1
            )),
{
    match d {
        TvDen::Vec(xs) => {
            assert forall|i: int| 0 <= i < xs.len() implies #[trigger] (decreases_to!(
                d => xs[i]
            )) by {
                assert(decreases_to!(d => xs));
                assert(decreases_to!(xs => xs[i]));
            }
        },
        TvDen::Keyset(xs) => {
            assert forall|i: int| 0 <= i < xs.len() implies #[trigger] (decreases_to!(
                d => xs[i]
            )) by {
                assert(decreases_to!(d => xs));
                assert(decreases_to!(xs => xs[i]));
            }
        },
        TvDen::Dict(ps) => {
            assert forall|i: int| 0 <= i < ps.len() implies #[trigger] (decreases_to!(
                d => ps[i].0
            )) && (decreases_to!(d => ps[i].1)) by {
                assert(decreases_to!(d => ps));
                assert(decreases_to!(ps => ps[i]));
                assert(decreases_to!(ps[i] => ps[i].0));
                assert(decreases_to!(ps[i] => ps[i].1));
            }
        },
        _ => {},
    }
}

#[via_fn]
proof fn den_names_utf8_decreases(d: TvDen) {
    lemma_den_children_smaller(d);
}

/// Does every name that the bytecode domain requires to be text denote
/// valid text?  Plain strings may hold any bytes; deferred class references
/// must be text.
pub open spec fn den_names_utf8(d: TvDen) -> bool
    decreases d,
    via den_names_utf8_decreases
{
    match d {
        TvDen::LazyCls(s) => is_utf8(s),
        TvDen::Vec(xs) => forall|i: int| 0 <= i < xs.len() ==> den_names_utf8(#[trigger] xs[i]),
        TvDen::Keyset(xs) => forall|i: int|
            0 <= i < xs.len() ==> den_names_utf8(#[trigger] xs[i]),
        TvDen::Dict(ps) => forall|i: int|
            0 <= i < ps.len() ==> den_names_utf8((#[trigger] ps[i]).0) && den_names_utf8(
                ps[i].1,
            ),
        _ => true,
    }
}

/// The shapes allowed in key position: integers, strings and deferred class
/// references.
pub open spec fn den_is_key_shape(d: TvDen) -> bool {
    d matches TvDen::Int(_) || d matches TvDen::Str(_) || d matches TvDen::LazyCls(_)
}

#[via_fn]
proof fn den_keys_ok_decreases(d: TvDen) {
    lemma_den_children_smaller(d);
}

/// Does every keyset element and dict key have a shape that is allowed in
/// key position?
pub open spec fn den_keys_ok(d: TvDen) -> bool
    decreases d,
    via den_keys_ok_decreases
{
    match d {
        TvDen::Vec(xs) => forall|i: int| 0 <= i < xs.len() ==> den_keys_ok(#[trigger] xs[i]),
        TvDen::Keyset(xs) => forall|i: int| 0 <= i < xs.len() ==> den_is_key_shape(
            #[trigger] xs[i],
        ),
        TvDen::Dict(ps) => forall|i: int|
            0 <= i < ps.len() ==> den_is_key_shape((#[trigger] ps[i]).0) && den_keys_ok(
                ps[i].1,
            ),
        _ => true,
    }
}

/// An IR-domain constant always denotes a value whose keys are well shaped:
/// the IR key type admits only the allowed shapes.
pub proof fn lemma_den_ir_keys_ok(tv: IrTypedValue, t: Seq<Seq<u8>>)
    ensures
        den_keys_ok(den_ir(tv, t)),
    decreases tv,
{
    lemma_ir_children_smaller(tv);
    match tv {
        IrTypedValue::Vec(vs) => {
            let xs = den_ir(tv, t)->Vec_0;
            assert forall|i: int| 0 <= i < xs.len() implies den_keys_ok(#[trigger] xs[i]) by {
                assert(xs[i] == den_ir(vs@[i], t));
                lemma_den_ir_keys_ok(vs@[i], t);
            }
        },
        IrTypedValue::Keyset(ks) => {
            let xs = den_ir(tv, t)->Keyset_0;
            assert forall|i: int| 0 <= i < xs.len() implies den_is_key_shape(
                #[trigger] xs[i],
            ) by {
                assert(xs[i] == den_key(ks@[i], t));
            }
        },
        IrTypedValue::Dict(es) => {
            let ps = den_ir(tv, t)->Dict_0;
            assert forall|i: int| 0 <= i < ps.len() implies den_is_key_shape((#[trigger] ps[i]).0)
                && den_keys_ok(ps[i].1) by {
                assert(ps[i] == (den_key(es@[i].0, t), den_ir(es@[i].1, t)));
                lemma_den_ir_keys_ok(es@[i].1, t);
            }
        },
        _ => {},
    }
}


/// Table extension is transitive.
pub proof fn lemma_table_extends_trans(t1: Seq<Seq<u8>>, t2: Seq<Seq<u8>>, t3: Seq<Seq<u8>>)
    requires
        table_extends(t1, t2),
        table_extends(t2, t3),
    ensures
        table_extends(t1, t3),
{
    assert forall|i: int| 0 <= i < t1.len() implies t3[i] == t1[i] by {
        assert(t2[i] == t1[i]);
        assert(t3[i] == t2[i]);
    }
}

} // verus!
