//! Domain-crossing conversion of typed constants.
//!
//! IR to bytecode re-interns every name through the bridging cache; a
//! deferred class reference whose bytes are not valid text is a fatal
//! conversion error.  Bytecode to IR re-interns names into the IR interner
//! and narrows keyset elements and dict keys to the restricted key type; a
//! disallowed shape in key position is a fatal conversion error.  Both
//! directions preserve the denotation exactly: element order, key/value
//! pairing, and float bits.

use vstd::prelude::*;

use crate::errors::ConvError;
use crate::interner::Interner;
use crate::interner::UnitBytesId;
use crate::strings::StringCache;
use crate::typed_value::den_bc;
use crate::typed_value::den_ir;
use crate::typed_value::den_key;
use crate::typed_value::den_is_key_shape;
use crate::typed_value::den_keys_ok;
use crate::typed_value::den_names_utf8;
use crate::typed_value::lemma_bc_children_smaller;
use crate::typed_value::lemma_den_bc_extends;
use crate::typed_value::lemma_den_ir_extends;
use crate::typed_value::lemma_ir_children_smaller;
use crate::typed_value::lemma_wf_bc_tv_mono;
use crate::typed_value::lemma_wf_ir_tv_mono;
use crate::typed_value::table_extends;
use crate::typed_value::wf_bc_tv;
use crate::typed_value::wf_ir_tv;
use crate::typed_value::wf_key;
use crate::typed_value::ArrayKey;
use crate::typed_value::Entry;
use crate::typed_value::IrTypedValue;
use crate::typed_value::TvDen;
use crate::typed_value::TypedValue;

verus! {

/// Convert an IR-domain array key to a bytecode-domain constant, through
/// the bridging cache.
pub fn convert_array_key(k: &ArrayKey, strings: &mut StringCache) -> (r: Result<
    TypedValue,
    ConvError,
>)
    requires
        old(strings).wf(),
        wf_key(*k, old(strings).ir_view().len() as int),
    ensures
        final(strings).wf(),
        final(strings).ir_view() == old(strings).ir_view(),
        table_extends(old(strings).globals_view(), final(strings).globals_view()),
        (r is Ok) <==> den_names_utf8(den_key(*k, old(strings).ir_view())),
        r matches Ok(b) ==> wf_bc_tv(b, final(strings).globals_view().len() as int) && den_bc(
            b,
            final(strings).globals_view(),
        ) == den_key(*k, old(strings).ir_view()),
{
    match k {
        ArrayKey::Int(v) => Ok(TypedValue::Int(*v)),
        ArrayKey::String(id) => {
            let sid = strings.intern_bytes_id(*id);
            Ok(TypedValue::String(sid))
        },
        ArrayKey::LazyClass(id) => match strings.intern(*id) {
            Ok(sid) => Ok(TypedValue::LazyClass(sid)),
            Err(e) => Err(e),
        },
    }
}

/// Convert an IR-domain constant to a bytecode-domain constant, through the
/// bridging cache, preserving the denotation.
pub fn convert_typed_value(tv: &IrTypedValue, strings: &mut StringCache) -> (r: Result<
    TypedValue,
    ConvError,
>)
    requires
        old(strings).wf(),
        wf_ir_tv(*tv, old(strings).ir_view().len() as int),
    ensures
        final(strings).wf(),
        final(strings).ir_view() == old(strings).ir_view(),
        table_extends(old(strings).globals_view(), final(strings).globals_view()),
        (r is Ok) <==> den_names_utf8(den_ir(*tv, old(strings).ir_view())),
        r matches Ok(b) ==> wf_bc_tv(b, final(strings).globals_view().len() as int) && den_bc(
            b,
            final(strings).globals_view(),
        ) == den_ir(*tv, old(strings).ir_view()),
    decreases *tv,
{
    proof {
        lemma_ir_children_smaller(*tv);
    }
    match tv {
        IrTypedValue::Uninit => Ok(TypedValue::Uninit),
        IrTypedValue::Int(v) => Ok(TypedValue::Int(*v)),
        IrTypedValue::Bool(v) => Ok(TypedValue::Bool(*v)),
        IrTypedValue::Float(v) => Ok(TypedValue::Float(*v)),
        IrTypedValue::Null => Ok(TypedValue::Null),
        IrTypedValue::String(id) => {
            let sid = strings.intern_bytes_id(*id);
            Ok(TypedValue::String(sid))
        },
        IrTypedValue::LazyClass(id) => match strings.intern(*id) {
            Ok(sid) => Ok(TypedValue::LazyClass(sid)),
            Err(e) => Err(e),
        },
        IrTypedValue::Vec(vs) => {
            proof {
                assert(decreases_to!(*tv => vs@)) by {
                    assert(decreases_to!(*tv => vs));
                    assert(decreases_to!(vs => vs@));
                }
            }
            match convert_tv_list(vs, strings) {
                Ok(out) => {
                    let r = TypedValue::Vec(out);
                    proof {
                        let g = strings.globals_view();
                        let t = old(strings).ir_view();
                        let x2 = den_bc(r, g)->Vec_0;
                        let x1 = den_ir(*tv, t)->Vec_0;
                        assert forall|i: int| 0 <= i < vs@.len() implies x2[i] == x1[i] by {
                            assert(x2[i] == den_bc(r->Vec_0@[i], g));
                            assert(x1[i] == den_ir(vs@[i], t));
                        }
                        assert(x2 =~= x1);
                        let xs = den_ir(*tv, t)->Vec_0;
                        assert forall|i: int| 0 <= i < xs.len() implies den_names_utf8(
                            #[trigger] xs[i],
                        ) by {
                            assert(xs[i] == den_ir(vs@[i], t));
                        }
                    }
                    Ok(r)
                },
                Err(e) => {
                    proof {
                        let t = old(strings).ir_view();
                        let j = choose|j: int|
                            0 <= j < vs@.len() && !den_names_utf8(den_ir(#[trigger] vs@[j], t));
                        let xs = den_ir(*tv, t)->Vec_0;
                        assert(xs[j] == den_ir(vs@[j], t));
                        assert(!den_names_utf8(den_ir(*tv, t)));
                    }
                    Err(e)
                },
            }
        },
        IrTypedValue::Keyset(ks) => {
            match convert_key_list(ks, strings) {
                Ok(out) => {
                    let r = TypedValue::Keyset(out);
                    proof {
                        let g = strings.globals_view();
                        let t = old(strings).ir_view();
                        let x2 = den_bc(r, g)->Keyset_0;
                        let x1 = den_ir(*tv, t)->Keyset_0;
                        assert forall|i: int| 0 <= i < ks@.len() implies x2[i] == x1[i] by {
                            assert(x2[i] == den_bc(r->Keyset_0@[i], g));
                            assert(x1[i] == den_key(ks@[i], t));
                        }
                        assert(x2 =~= x1);
                        let xs = den_ir(*tv, t)->Keyset_0;
                        assert forall|i: int| 0 <= i < xs.len() implies den_names_utf8(
                            #[trigger] xs[i],
                        ) by {
                            assert(xs[i] == den_key(ks@[i], t));
                        }
                    }
                    Ok(r)
                },
                Err(e) => {
                    proof {
                        let t = old(strings).ir_view();
                        let j = choose|j: int|
                            0 <= j < ks@.len() && !den_names_utf8(den_key(#[trigger] ks@[j], t));
                        let xs = den_ir(*tv, t)->Keyset_0;
                        assert(xs[j] == den_key(ks@[j], t));
                        assert(!den_names_utf8(den_ir(*tv, t)));
                    }
                    Err(e)
                },
            }
        },
        IrTypedValue::Dict(es) => {
            proof {
                assert(decreases_to!(*tv => es@)) by {
                    assert(decreases_to!(*tv => es));
                    assert(decreases_to!(es => es@));
                }
            }
            match convert_entry_list(es, strings) {
                Ok(out) => {
                    let r = TypedValue::Dict(out);
                    proof {
                        let g = strings.globals_view();
                        let t = old(strings).ir_view();
                        let x2 = den_bc(r, g)->Dict_0;
                        let x1 = den_ir(*tv, t)->Dict_0;
                        assert forall|i: int| 0 <= i < es@.len() implies x2[i] == x1[i] by {
                            assert(x2[i] == (
                                den_bc(r->Dict_0@[i].key, g),
                                den_bc(r->Dict_0@[i].value, g),
                            ));
                            assert(x1[i] == (den_key(es@[i].0, t), den_ir(es@[i].1, t)));
                        }
                        assert(x2 =~= x1);
                        let ps = den_ir(*tv, t)->Dict_0;
                        assert forall|i: int| 0 <= i < ps.len() implies den_names_utf8(
                            (#[trigger] ps[i]).0,
                        ) && den_names_utf8(ps[i].1) by {
                            assert(ps[i] == (den_key(es@[i].0, t), den_ir(es@[i].1, t)));
                        }
                    }
                    Ok(r)
                },
                Err(e) => {
                    proof {
                        let t = old(strings).ir_view();
                        let j = choose|j: int|
                            0 <= j < es@.len() && !(den_names_utf8(
                                den_key((#[trigger] es@[j]).0, t),
                            ) && den_names_utf8(den_ir(es@[j].1, t)));
                        let ps = den_ir(*tv, t)->Dict_0;
                        assert(ps[j] == (den_key(es@[j].0, t), den_ir(es@[j].1, t)));
                        assert(!den_names_utf8(den_ir(*tv, t)));
                    }
                    Err(e)
                },
            }
        },
    }
}

/// Convert the elements of an IR-domain vec, in order.
fn convert_tv_list(vs: &Vec<IrTypedValue>, strings: &mut StringCache) -> (r: Result<
    Vec<TypedValue>,
    ConvError,
>)
    requires
        old(strings).wf(),
        forall|i: int|
            0 <= i < vs@.len() ==> wf_ir_tv(#[trigger] vs@[i], old(strings).ir_view().len() as int),
    ensures
        final(strings).wf(),
        final(strings).ir_view() == old(strings).ir_view(),
        table_extends(old(strings).globals_view(), final(strings).globals_view()),
        (r is Ok) <==> (forall|i: int|
            0 <= i < vs@.len() ==> den_names_utf8(
                den_ir(#[trigger] vs@[i], old(strings).ir_view()),
            )),
        r matches Ok(out) ==> out@.len() == vs@.len() && (forall|i: int|
            0 <= i < vs@.len() ==> wf_bc_tv(
                #[trigger] out@[i],
                final(strings).globals_view().len() as int,
            ) && den_bc(out@[i], final(strings).globals_view()) == den_ir(
                vs@[i],
                old(strings).ir_view(),
            )),
    decreases vs@,
{
    let ghost t = old(strings).ir_view();
    let mut out: Vec<TypedValue> = Vec::new();
    let n = vs.len();
    let mut j: usize = 0;
    while j < n
        invariant
            strings.wf(),
            strings.ir_view() == t,
            t == old(strings).ir_view(),
            table_extends(old(strings).globals_view(), strings.globals_view()),
            n == vs@.len(),
            j <= n,
            out@.len() == j,
            forall|i: int|
                0 <= i < vs@.len() ==> wf_ir_tv(#[trigger] vs@[i], t.len() as int),
            forall|i: int|
                0 <= i < j ==> wf_bc_tv(#[trigger] out@[i], strings.globals_view().len() as int)
                    && den_bc(out@[i], strings.globals_view()) == den_ir(vs@[i], t),
            forall|i: int| 0 <= i < j ==> den_names_utf8(den_ir(#[trigger] vs@[i], t)),
        decreases n - j,
    {
        proof {
            assert(decreases_to!(vs@ => vs@[j as int]));
        }
        let ghost g1 = strings.globals_view();
        let c = convert_typed_value(&vs[j], strings);
        match c {
            Ok(b) => {
                proof {
                    let g2 = strings.globals_view();
                    assert forall|i: int| 0 <= i < j implies wf_bc_tv(
                        #[trigger] out@[i],
                        g2.len() as int,
                    ) && den_bc(out@[i], g2) == den_ir(vs@[i], t) by {
                        lemma_den_bc_extends(out@[i], g1, g2);
                        lemma_wf_bc_tv_mono(out@[i], g1.len() as int, g2.len() as int);
                    }
                }
                out.push(b);
            },
            Err(e) => {
                return Err(e);
            },
        }
        j += 1;
    }
    Ok(out)
}

/// Convert the elements of an IR-domain keyset, in order.
fn convert_key_list(ks: &Vec<ArrayKey>, strings: &mut StringCache) -> (r: Result<
    Vec<TypedValue>,
    ConvError,
>)
    requires
        old(strings).wf(),
        forall|i: int|
            0 <= i < ks@.len() ==> wf_key(#[trigger] ks@[i], old(strings).ir_view().len() as int),
    ensures
        final(strings).wf(),
        final(strings).ir_view() == old(strings).ir_view(),
        table_extends(old(strings).globals_view(), final(strings).globals_view()),
        (r is Ok) <==> (forall|i: int|
            0 <= i < ks@.len() ==> den_names_utf8(
                den_key(#[trigger] ks@[i], old(strings).ir_view()),
            )),
        r matches Ok(out) ==> out@.len() == ks@.len() && (forall|i: int|
            0 <= i < ks@.len() ==> wf_bc_tv(
                #[trigger] out@[i],
                final(strings).globals_view().len() as int,
            ) && den_bc(out@[i], final(strings).globals_view()) == den_key(
                ks@[i],
                old(strings).ir_view(),
            )),
{
    let ghost t = old(strings).ir_view();
    let mut out: Vec<TypedValue> = Vec::new();
    let n = ks.len();
    let mut j: usize = 0;
    while j < n
        invariant
            strings.wf(),
            strings.ir_view() == t,
            t == old(strings).ir_view(),
            table_extends(old(strings).globals_view(), strings.globals_view()),
            n == ks@.len(),
            j <= n,
            out@.len() == j,
            forall|i: int| 0 <= i < ks@.len() ==> wf_key(#[trigger] ks@[i], t.len() as int),
            forall|i: int|
                0 <= i < j ==> wf_bc_tv(#[trigger] out@[i], strings.globals_view().len() as int)
                    && den_bc(out@[i], strings.globals_view()) == den_key(ks@[i], t),
            forall|i: int| 0 <= i < j ==> den_names_utf8(den_key(#[trigger] ks@[i], t)),
        decreases n - j,
    {
        let ghost g1 = strings.globals_view();
        let c = convert_array_key(&ks[j], strings);
        match c {
            Ok(b) => {
                proof {
                    let g2 = strings.globals_view();
                    assert forall|i: int| 0 <= i < j implies wf_bc_tv(
                        #[trigger] out@[i],
                        g2.len() as int,
                    ) && den_bc(out@[i], g2) == den_key(ks@[i], t) by {
                        lemma_den_bc_extends(out@[i], g1, g2);
                        lemma_wf_bc_tv_mono(out@[i], g1.len() as int, g2.len() as int);
                    }
                }
                out.push(b);
            },
            Err(e) => {
                return Err(e);
            },
        }
        j += 1;
    }
    Ok(out)
}

/// Convert the key/value pairs of an IR-domain dict, in order, keeping the
/// exact pairing.
fn convert_entry_list(es: &Vec<(ArrayKey, IrTypedValue)>, strings: &mut StringCache) -> (r: Result<
    Vec<Entry>,
    ConvError,
>)
    requires
        old(strings).wf(),
        forall|i: int|
            0 <= i < es@.len() ==> wf_key((#[trigger] es@[i]).0, old(strings).ir_view().len() as int)
                && wf_ir_tv(es@[i].1, old(strings).ir_view().len() as int),
    ensures
        final(strings).wf(),
        final(strings).ir_view() == old(strings).ir_view(),
        table_extends(old(strings).globals_view(), final(strings).globals_view()),
        (r is Ok) <==> (forall|i: int|
            0 <= i < es@.len() ==> den_names_utf8(
                den_key((#[trigger] es@[i]).0, old(strings).ir_view()),
            ) && den_names_utf8(den_ir(es@[i].1, old(strings).ir_view()))),
        r matches Ok(out) ==> out@.len() == es@.len() && (forall|i: int|
            0 <= i < es@.len() ==> wf_bc_tv(
                (#[trigger] out@[i]).key,
                final(strings).globals_view().len() as int,
            ) && wf_bc_tv(out@[i].value, final(strings).globals_view().len() as int) && den_bc(
                out@[i].key,
                final(strings).globals_view(),
            ) == den_key(es@[i].0, old(strings).ir_view()) && den_bc(
                out@[i].value,
                final(strings).globals_view(),
            ) == den_ir(es@[i].1, old(strings).ir_view())),
    decreases es@,
{
    let ghost t = old(strings).ir_view();
    let mut out: Vec<Entry> = Vec::new();
    let n = es.len();
    let mut j: usize = 0;
    while j < n
        invariant
            strings.wf(),
            strings.ir_view() == t,
            t == old(strings).ir_view(),
            table_extends(old(strings).globals_view(), strings.globals_view()),
            n == es@.len(),
            j <= n,
            out@.len() == j,
            forall|i: int|
                0 <= i < es@.len() ==> wf_key((#[trigger] es@[i]).0, t.len() as int) && wf_ir_tv(
                    es@[i].1,
                    t.len() as int,
                ),
            forall|i: int|
                0 <= i < j ==> wf_bc_tv(
                    (#[trigger] out@[i]).key,
                    strings.globals_view().len() as int,
                ) && wf_bc_tv(out@[i].value, strings.globals_view().len() as int) && den_bc(
                    out@[i].key,
                    strings.globals_view(),
                ) == den_key(es@[i].0, t) && den_bc(out@[i].value, strings.globals_view())
                    == den_ir(es@[i].1, t),
            forall|i: int|
                0 <= i < j ==> den_names_utf8(den_key((#[trigger] es@[i]).0, t)) && den_names_utf8(
                    den_ir(es@[i].1, t),
                ),
        decreases n - j,
    {
        let ghost g0 = strings.globals_view();
        let ck = convert_array_key(&es[j].0, strings);
        let key = match ck {
            Ok(k) => k,
            Err(e) => {
                proof {
                    let g2 = strings.globals_view();
                    assert forall|i: int| 0 <= i < j implies wf_bc_tv(
                        (#[trigger] out@[i]).key,
                        g2.len() as int,
                    ) && wf_bc_tv(out@[i].value, g2.len() as int) by {
                        lemma_wf_bc_tv_mono(out@[i].key, g0.len() as int, g2.len() as int);
                        lemma_wf_bc_tv_mono(out@[i].value, g0.len() as int, g2.len() as int);
                    }
                }
                return Err(e);
            },
        };
        proof {
            assert(decreases_to!(es@ => es@[j as int]));
            assert(decreases_to!(es@[j as int] => es@[j as int].1));
        }
        let ghost g1 = strings.globals_view();
        let cv = convert_typed_value(&es[j].1, strings);
        match cv {
            Ok(value) => {
                proof {
                    let g2 = strings.globals_view();
                    assert forall|i: int| 0 <= i < j implies wf_bc_tv(
                        (#[trigger] out@[i]).key,
                        g2.len() as int,
                    ) && wf_bc_tv(out@[i].value, g2.len() as int) && den_bc(out@[i].key, g2)
                        == den_key(es@[i].0, t) && den_bc(out@[i].value, g2) == den_ir(
                        es@[i].1,
                        t,
                    ) by {
                        lemma_den_bc_extends(out@[i].key, g0, g2);
                        lemma_den_bc_extends(out@[i].value, g0, g2);
                        lemma_wf_bc_tv_mono(out@[i].key, g0.len() as int, g2.len() as int);
                        lemma_wf_bc_tv_mono(out@[i].value, g0.len() as int, g2.len() as int);
                    }
                    lemma_den_bc_extends(key, g1, strings.globals_view());
                    lemma_wf_bc_tv_mono(
                        key,
                        g1.len() as int,
                        strings.globals_view().len() as int,
                    );
                }
                out.push(Entry { key, value });
            },
            Err(e) => {
                return Err(e);
            },
        }
        j += 1;
    }
    Ok(out)
}


/// Narrow a bytecode-domain constant standing in key position to the
/// restricted IR key type, re-interning its name into the IR interner.
/// Any other shape is a fatal conversion error.
pub fn convert_key_bc_to_ir(tv: &TypedValue, globals: &Interner, ir: &mut Interner) -> (r: Result<
    ArrayKey,
    ConvError,
>)
    requires
        globals.wf(),
        old(ir).wf(),
        wf_bc_tv(*tv, globals@.len() as int),
    ensures
        final(ir).wf(),
        table_extends(old(ir)@, final(ir)@),
        (r is Ok) <==> den_is_key_shape(den_bc(*tv, globals@)),
        r matches Ok(k) ==> wf_key(k, final(ir)@.len() as int) && den_key(k, final(ir)@) == den_bc(
            *tv,
            globals@,
        ),
{
    match tv {
        TypedValue::Int(v) => Ok(ArrayKey::Int(*v)),
        TypedValue::String(id) => {
            let uid = ir.intern_bytes(globals.lookup(id.0).as_slice());
            Ok(ArrayKey::String(UnitBytesId(uid)))
        },
        TypedValue::LazyClass(id) => {
            let uid = ir.intern_bytes(globals.lookup(id.0).as_slice());
            Ok(ArrayKey::LazyClass(UnitBytesId(uid)))
        },
        _ => Err(ConvError::InvalidArrayKey),
    }
}

/// Convert a bytecode-domain constant to an IR-domain constant, re-interning
/// every name into the IR interner and narrowing keyset elements and dict
/// keys, preserving the denotation.
pub fn convert_tv_bc_to_ir(tv: &TypedValue, globals: &Interner, ir: &mut Interner) -> (r: Result<
    IrTypedValue,
    ConvError,
>)
    requires
        globals.wf(),
        old(ir).wf(),
        wf_bc_tv(*tv, globals@.len() as int),
    ensures
        final(ir).wf(),
        table_extends(old(ir)@, final(ir)@),
        (r is Ok) <==> den_keys_ok(den_bc(*tv, globals@)),
        r matches Ok(v) ==> wf_ir_tv(v, final(ir)@.len() as int) && den_ir(v, final(ir)@)
            == den_bc(*tv, globals@),
    decreases *tv,
{
    proof {
        lemma_bc_children_smaller(*tv);
    }
    match tv {
        TypedValue::Uninit => Ok(IrTypedValue::Uninit),
        TypedValue::Int(v) => Ok(IrTypedValue::Int(*v)),
        TypedValue::Bool(v) => Ok(IrTypedValue::Bool(*v)),
        TypedValue::Float(v) => Ok(IrTypedValue::Float(*v)),
        TypedValue::Null => Ok(IrTypedValue::Null),
        TypedValue::String(id) => {
            let uid = ir.intern_bytes(globals.lookup(id.0).as_slice());
            Ok(IrTypedValue::String(UnitBytesId(uid)))
        },
        TypedValue::LazyClass(id) => {
            let uid = ir.intern_bytes(globals.lookup(id.0).as_slice());
            Ok(IrTypedValue::LazyClass(UnitBytesId(uid)))
        },
        TypedValue::Vec(vs) => {
            proof {
                assert(decreases_to!(*tv => vs@)) by {
                    assert(decreases_to!(*tv => vs));
                    assert(decreases_to!(vs => vs@));
                }
            }
            match convert_bc_list(vs, globals, ir) {
                Ok(out) => {
                    let r = IrTypedValue::Vec(out);
                    proof {
                        let t = ir@;
                        let x2 = den_ir(r, t)->Vec_0;
                        let x1 = den_bc(*tv, globals@)->Vec_0;
                        assert forall|i: int| 0 <= i < vs@.len() implies x2[i] == x1[i] by {
                            assert(x2[i] == den_ir(r->Vec_0@[i], t));
                            assert(x1[i] == den_bc(vs@[i], globals@));
                        }
                        assert(x2 =~= x1);
                        let xs = den_bc(*tv, globals@)->Vec_0;
                        assert forall|i: int| 0 <= i < xs.len() implies den_keys_ok(
                            #[trigger] xs[i],
                        ) by {
                            assert(xs[i] == den_bc(vs@[i], globals@));
                        }
                    }
                    Ok(r)
                },
                Err(e) => {
                    proof {
                        let j = choose|j: int|
                            0 <= j < vs@.len() && !den_keys_ok(
                                den_bc(#[trigger] vs@[j], globals@),
                            );
                        let xs = den_bc(*tv, globals@)->Vec_0;
                        assert(xs[j] == den_bc(vs@[j], globals@));
                        assert(!den_keys_ok(den_bc(*tv, globals@)));
                    }
                    Err(e)
                },
            }
        },
        TypedValue::Keyset(vs) => {
            proof {
                assert(decreases_to!(*tv => vs@)) by {
                    assert(decreases_to!(*tv => vs));
                    assert(decreases_to!(vs => vs@));
                }
            }
            match narrow_key_list(vs, globals, ir) {
                Ok(out) => {
                    let r = IrTypedValue::Keyset(out);
                    proof {
                        let t = ir@;
                        let x2 = den_ir(r, t)->Keyset_0;
                        let x1 = den_bc(*tv, globals@)->Keyset_0;
                        assert forall|i: int| 0 <= i < vs@.len() implies x2[i] == x1[i] by {
                            assert(x2[i] == den_key(r->Keyset_0@[i], t));
                            assert(x1[i] == den_bc(vs@[i], globals@));
                        }
                        assert(x2 =~= x1);
                        let xs = den_bc(*tv, globals@)->Keyset_0;
                        assert forall|i: int| 0 <= i < xs.len() implies den_is_key_shape(
                            #[trigger] xs[i],
                        ) by {
                            assert(xs[i] == den_bc(vs@[i], globals@));
                        }
                    }
                    Ok(r)
                },
                Err(e) => {
                    proof {
                        let j = choose|j: int|
                            0 <= j < vs@.len() && !den_is_key_shape(
                                den_bc(#[trigger] vs@[j], globals@),
                            );
                        let xs = den_bc(*tv, globals@)->Keyset_0;
                        assert(xs[j] == den_bc(vs@[j], globals@));
                        assert(!den_keys_ok(den_bc(*tv, globals@)));
                    }
                    Err(e)
                },
            }
        },
        TypedValue::Dict(es) => {
            proof {
                assert(decreases_to!(*tv => es@)) by {
                    assert(decreases_to!(*tv => es));
                    assert(decreases_to!(es => es@));
                }
            }
            match convert_bc_entry_list(es, globals, ir) {
                Ok(out) => {
                    let r = IrTypedValue::Dict(out);
                    proof {
                        let t = ir@;
                        let x2 = den_ir(r, t)->Dict_0;
                        let x1 = den_bc(*tv, globals@)->Dict_0;
                        assert forall|i: int| 0 <= i < es@.len() implies x2[i] == x1[i] by {
                            assert(x2[i] == (
                                den_key(r->Dict_0@[i].0, t),
                                den_ir(r->Dict_0@[i].1, t),
                            ));
                            assert(x1[i] == (
                                den_bc(es@[i].key, globals@),
                                den_bc(es@[i].value, globals@),
                            ));
                        }
                        assert(x2 =~= x1);
                        let ps = den_bc(*tv, globals@)->Dict_0;
                        assert forall|i: int| 0 <= i < ps.len() implies den_is_key_shape(
                            (#[trigger] ps[i]).0,
                        ) && den_keys_ok(ps[i].1) by {
                            assert(ps[i] == (
                                den_bc(es@[i].key, globals@),
                                den_bc(es@[i].value, globals@),
                            ));
                        }
                    }
                    Ok(r)
                },
                Err(e) => {
                    proof {
                        let j = choose|j: int|
                            0 <= j < es@.len() && !(den_is_key_shape(
                                den_bc((#[trigger] es@[j]).key, globals@),
                            ) && den_keys_ok(den_bc(es@[j].value, globals@)));
                        let ps = den_bc(*tv, globals@)->Dict_0;
                        assert(ps[j] == (
                            den_bc(es@[j].key, globals@),
                            den_bc(es@[j].value, globals@),
                        ));
                        assert(!den_keys_ok(den_bc(*tv, globals@)));
                    }
                    Err(e)
                },
            }
        },
    }
}

/// Convert the elements of a bytecode-domain vec, in order.
fn convert_bc_list(vs: &Vec<TypedValue>, globals: &Interner, ir: &mut Interner) -> (r: Result<
    Vec<IrTypedValue>,
    ConvError,
>)
    requires
        globals.wf(),
        old(ir).wf(),
        forall|i: int| 0 <= i < vs@.len() ==> wf_bc_tv(#[trigger] vs@[i], globals@.len() as int),
    ensures
        final(ir).wf(),
        table_extends(old(ir)@, final(ir)@),
        (r is Ok) <==> (forall|i: int|
            0 <= i < vs@.len() ==> den_keys_ok(den_bc(#[trigger] vs@[i], globals@))),
        r matches Ok(out) ==> out@.len() == vs@.len() && (forall|i: int|
            0 <= i < vs@.len() ==> wf_ir_tv(#[trigger] out@[i], final(ir)@.len() as int) && den_ir(
                out@[i],
                final(ir)@,
            ) == den_bc(vs@[i], globals@)),
    decreases vs@,
{
    let mut out: Vec<IrTypedValue> = Vec::new();
    let n = vs.len();
    let mut j: usize = 0;
    while j < n
        invariant
            globals.wf(),
            ir.wf(),
            table_extends(old(ir)@, ir@),
            n == vs@.len(),
            j <= n,
            out@.len() == j,
            forall|i: int|
                0 <= i < vs@.len() ==> wf_bc_tv(#[trigger] vs@[i], globals@.len() as int),
            forall|i: int|
                0 <= i < j ==> wf_ir_tv(#[trigger] out@[i], ir@.len() as int) && den_ir(
                    out@[i],
                    ir@,
                ) == den_bc(vs@[i], globals@),
            forall|i: int| 0 <= i < j ==> den_keys_ok(den_bc(#[trigger] vs@[i], globals@)),
        decreases n - j,
    {
        proof {
            assert(decreases_to!(vs@ => vs@[j as int]));
        }
        let ghost t1 = ir@;
        let c = convert_tv_bc_to_ir(&vs[j], globals, ir);
        match c {
            Ok(b) => {
                proof {
                    let t2 = ir@;
                    assert forall|i: int| 0 <= i < j implies wf_ir_tv(
                        #[trigger] out@[i],
                        t2.len() as int,
                    ) && den_ir(out@[i], t2) == den_bc(vs@[i], globals@) by {
                        lemma_den_ir_extends(out@[i], t1, t2);
                        lemma_wf_ir_tv_mono(out@[i], t1.len() as int, t2.len() as int);
                    }
                }
                out.push(b);
            },
            Err(e) => {
                return Err(e);
            },
        }
        j += 1;
    }
    Ok(out)
}

/// Narrow the elements of a bytecode-domain keyset, in order.
fn narrow_key_list(vs: &Vec<TypedValue>, globals: &Interner, ir: &mut Interner) -> (r: Result<
    Vec<ArrayKey>,
    ConvError,
>)
    requires
        globals.wf(),
        old(ir).wf(),
        forall|i: int| 0 <= i < vs@.len() ==> wf_bc_tv(#[trigger] vs@[i], globals@.len() as int),
    ensures
        final(ir).wf(),
        table_extends(old(ir)@, final(ir)@),
        (r is Ok) <==> (forall|i: int|
            0 <= i < vs@.len() ==> den_is_key_shape(den_bc(#[trigger] vs@[i], globals@))),
        r matches Ok(out) ==> out@.len() == vs@.len() && (forall|i: int|
            0 <= i < vs@.len() ==> wf_key(#[trigger] out@[i], final(ir)@.len() as int) && den_key(
                out@[i],
                final(ir)@,
            ) == den_bc(vs@[i], globals@)),
{
    let mut out: Vec<ArrayKey> = Vec::new();
    let n = vs.len();
    let mut j: usize = 0;
    while j < n
        invariant
            globals.wf(),
            ir.wf(),
            table_extends(old(ir)@, ir@),
            n == vs@.len(),
            j <= n,
            out@.len() == j,
            forall|i: int|
                0 <= i < vs@.len() ==> wf_bc_tv(#[trigger] vs@[i], globals@.len() as int),
            forall|i: int|
                0 <= i < j ==> wf_key(#[trigger] out@[i], ir@.len() as int) && den_key(
                    out@[i],
                    ir@,
                ) == den_bc(vs@[i], globals@),
            forall|i: int| 0 <= i < j ==> den_is_key_shape(den_bc(#[trigger] vs@[i], globals@)),
        decreases n - j,
    {
        let ghost t1 = ir@;
        let c = convert_key_bc_to_ir(&vs[j], globals, ir);
        match c {
            Ok(k) => {
                proof {
                    let t2 = ir@;
                    assert forall|i: int| 0 <= i < j implies wf_key(
                        #[trigger] out@[i],
                        t2.len() as int,
                    ) && den_key(out@[i], t2) == den_bc(vs@[i], globals@) by {
                        assert(den_key(out@[i], t1) == den_bc(vs@[i], globals@));
                    }
                }
                out.push(k);
            },
            Err(e) => {
                return Err(e);
            },
        }
        j += 1;
    }
    Ok(out)
}

/// Convert the entries of a bytecode-domain dict, in order, narrowing each
/// key and keeping the exact pairing.
fn convert_bc_entry_list(es: &Vec<Entry>, globals: &Interner, ir: &mut Interner) -> (r: Result<
    Vec<(ArrayKey, IrTypedValue)>,
    ConvError,
>)
    requires
        globals.wf(),
        old(ir).wf(),
        forall|i: int|
            0 <= i < es@.len() ==> wf_bc_tv((#[trigger] es@[i]).key, globals@.len() as int)
                && wf_bc_tv(es@[i].value, globals@.len() as int),
    ensures
        final(ir).wf(),
        table_extends(old(ir)@, final(ir)@),
        (r is Ok) <==> (forall|i: int|
            0 <= i < es@.len() ==> den_is_key_shape(den_bc((#[trigger] es@[i]).key, globals@))
                && den_keys_ok(den_bc(es@[i].value, globals@))),
        r matches Ok(out) ==> out@.len() == es@.len() && (forall|i: int|
            0 <= i < es@.len() ==> wf_key((#[trigger] out@[i]).0, final(ir)@.len() as int)
                && wf_ir_tv(out@[i].1, final(ir)@.len() as int) && den_key(out@[i].0, final(ir)@)
                == den_bc(es@[i].key, globals@) && den_ir(out@[i].1, final(ir)@) == den_bc(
                es@[i].value,
                globals@,
            )),
    decreases es@,
{
    let mut out: Vec<(ArrayKey, IrTypedValue)> = Vec::new();
    let n = es.len();
    let mut j: usize = 0;
    while j < n
        invariant
            globals.wf(),
            ir.wf(),
            table_extends(old(ir)@, ir@),
            n == es@.len(),
            j <= n,
            out@.len() == j,
            forall|i: int|
                0 <= i < es@.len() ==> wf_bc_tv((#[trigger] es@[i]).key, globals@.len() as int)
                    && wf_bc_tv(es@[i].value, globals@.len() as int),
            forall|i: int|
                0 <= i < j ==> wf_key((#[trigger] out@[i]).0, ir@.len() as int) && wf_ir_tv(
                    out@[i].1,
                    ir@.len() as int,
                ) && den_key(out@[i].0, ir@) == den_bc(es@[i].key, globals@) && den_ir(
                    out@[i].1,
                    ir@,
                ) == den_bc(es@[i].value, globals@),
            forall|i: int|
                0 <= i < j ==> den_is_key_shape(den_bc((#[trigger] es@[i]).key, globals@))
                    && den_keys_ok(den_bc(es@[i].value, globals@)),
        decreases n - j,
    {
        let ghost t0 = ir@;
        let ck = convert_key_bc_to_ir(&es[j].key, globals, ir);
        let key = match ck {
            Ok(k) => k,
            Err(e) => {
                proof {
                    let t2 = ir@;
                    assert forall|i: int| 0 <= i < j implies wf_key(
                        (#[trigger] out@[i]).0,
                        t2.len() as int,
                    ) && wf_ir_tv(out@[i].1, t2.len() as int) by {
                        lemma_wf_ir_tv_mono(out@[i].1, t0.len() as int, t2.len() as int);
                    }
                }
                return Err(e);
            },
        };
        proof {
            assert(decreases_to!(es@ => es@[j as int]));
            assert(decreases_to!(es@[j as int] => es@[j as int].value));
        }
        let ghost t1 = ir@;
        let cv = convert_tv_bc_to_ir(&es[j].value, globals, ir);
        match cv {
            Ok(value) => {
                proof {
                    let t2 = ir@;
                    assert forall|i: int| 0 <= i < j implies wf_key(
                        (#[trigger] out@[i]).0,
                        t2.len() as int,
                    ) && wf_ir_tv(out@[i].1, t2.len() as int) && den_key(out@[i].0, t2) == den_bc(
                        es@[i].key,
                        globals@,
                    ) && den_ir(out@[i].1, t2) == den_bc(es@[i].value, globals@) by {
                        lemma_den_ir_extends(out@[i].1, t0, t2);
                        lemma_wf_ir_tv_mono(out@[i].1, t0.len() as int, t2.len() as int);
                    }
                    assert(den_key(key, t1) == den_bc(es@[j as int].key, globals@));
                }
                out.push((key, value));
            },
            Err(e) => {
                return Err(e);
            },
        }
        j += 1;
    }
    Ok(out)
}


/// Compare two bytecode-domain constants for denotation equality under one
/// well-formed interner: equal handles mean equal bytes and distinct
/// handles mean distinct bytes, so handles compare directly.
pub fn tv_den_eq(a: &TypedValue, b: &TypedValue, globals: &Interner) -> (r: bool)
    requires
        globals.wf(),
        wf_bc_tv(*a, globals@.len() as int),
        wf_bc_tv(*b, globals@.len() as int),
    ensures
        r == (den_bc(*a, globals@) == den_bc(*b, globals@)),
    decreases *a,
{
    proof {
        lemma_bc_children_smaller(*a);
    }
    match a {
        TypedValue::Uninit => matches!(b, TypedValue::Uninit),
        TypedValue::Null => matches!(b, TypedValue::Null),
        TypedValue::Int(x) => match b {
            TypedValue::Int(y) => *x == *y,
            _ => false,
        },
        TypedValue::Bool(x) => match b {
            TypedValue::Bool(y) => *x == *y,
            _ => false,
        },
        TypedValue::Float(x) => match b {
            TypedValue::Float(y) => *x == *y,
            _ => false,
        },
        TypedValue::String(i1) => match b {
            TypedValue::String(i2) => {
                proof {
                    globals.lemma_handle_eq(i1.0 as int, i2.0 as int);
                }
                i1.0 == i2.0
            },
            _ => false,
        },
        TypedValue::LazyClass(i1) => match b {
            TypedValue::LazyClass(i2) => {
                proof {
                    globals.lemma_handle_eq(i1.0 as int, i2.0 as int);
                }
                i1.0 == i2.0
            },
            _ => false,
        },
        TypedValue::Vec(v1) => match b {
            TypedValue::Vec(v2) => {
                proof {
                    assert(decreases_to!(*a => v1@)) by {
                        assert(decreases_to!(*a => v1));
                        assert(decreases_to!(v1 => v1@));
                    }
                }
                let e = tv_list_den_eq(v1, v2, globals);
                proof {
                    let s1 = den_bc(*a, globals@)->Vec_0;
                    let s2 = den_bc(*b, globals@)->Vec_0;
                    assert(s1 =~= v1@.map_values(|tv: TypedValue| den_bc(tv, globals@)));
                    assert(s2 =~= v2@.map_values(|tv: TypedValue| den_bc(tv, globals@)));
                }
                e
            },
            _ => false,
        },
        TypedValue::Keyset(v1) => match b {
            TypedValue::Keyset(v2) => {
                proof {
                    assert(decreases_to!(*a => v1@)) by {
                        assert(decreases_to!(*a => v1));
                        assert(decreases_to!(v1 => v1@));
                    }
                }
                let e = tv_list_den_eq(v1, v2, globals);
                proof {
                    let s1 = den_bc(*a, globals@)->Keyset_0;
                    let s2 = den_bc(*b, globals@)->Keyset_0;
                    assert(s1 =~= v1@.map_values(|tv: TypedValue| den_bc(tv, globals@)));
                    assert(s2 =~= v2@.map_values(|tv: TypedValue| den_bc(tv, globals@)));
                }
                e
            },
            _ => false,
        },
        TypedValue::Dict(e1) => match b {
            TypedValue::Dict(e2) => {
                proof {
                    assert(decreases_to!(*a => e1@)) by {
                        assert(decreases_to!(*a => e1));
                        assert(decreases_to!(e1 => e1@));
                    }
                }
                let e = tv_entries_den_eq(e1, e2, globals);
                proof {
                    let s1 = den_bc(*a, globals@)->Dict_0;
                    let s2 = den_bc(*b, globals@)->Dict_0;
                    assert(s1 =~= e1@.map_values(
                        |x: Entry| (den_bc(x.key, globals@), den_bc(x.value, globals@)),
                    ));
                    assert(s2 =~= e2@.map_values(
                        |x: Entry| (den_bc(x.key, globals@), den_bc(x.value, globals@)),
                    ));
                }
                e
            },
            _ => false,
        },
    }
}

fn tv_list_den_eq(v1: &Vec<TypedValue>, v2: &Vec<TypedValue>, globals: &Interner) -> (r: bool)
    requires
        globals.wf(),
        forall|i: int| 0 <= i < v1@.len() ==> wf_bc_tv(#[trigger] v1@[i], globals@.len() as int),
        forall|i: int| 0 <= i < v2@.len() ==> wf_bc_tv(#[trigger] v2@[i], globals@.len() as int),
    ensures
        r == (v1@.map_values(|tv: TypedValue| den_bc(tv, globals@)) == v2@.map_values(
            |tv: TypedValue| den_bc(tv, globals@),
        )),
    decreases v1@,
{
    let ghost m1 = v1@.map_values(|tv: TypedValue| den_bc(tv, globals@));
    let ghost m2 = v2@.map_values(|tv: TypedValue| den_bc(tv, globals@));
    if v1.len() != v2.len() {
        proof {
            assert(m1.len() != m2.len());
        }
        return false;
    }
    let n = v1.len();
    let mut j: usize = 0;
    while j < n
        invariant
            globals.wf(),
            forall|i: int|
                0 <= i < v1@.len() ==> wf_bc_tv(#[trigger] v1@[i], globals@.len() as int),
            forall|i: int|
                0 <= i < v2@.len() ==> wf_bc_tv(#[trigger] v2@[i], globals@.len() as int),
            n == v1@.len(),
            v1@.len() == v2@.len(),
            j <= n,
            m1 == v1@.map_values(|tv: TypedValue| den_bc(tv, globals@)),
            m2 == v2@.map_values(|tv: TypedValue| den_bc(tv, globals@)),
            forall|i: int| 0 <= i < j ==> #[trigger] m1[i] == m2[i],
        decreases n - j,
    {
        proof {
            assert(decreases_to!(v1@ => v1@[j as int]));
        }
        if !tv_den_eq(&v1[j], &v2[j], globals) {
            proof {
                assert(m1[j as int] != m2[j as int]);
            }
            return false;
        }
        j += 1;
    }
    proof {
        assert(m1 =~= m2);
    }
    true
}

fn tv_entries_den_eq(e1: &Vec<Entry>, e2: &Vec<Entry>, globals: &Interner) -> (r: bool)
    requires
        globals.wf(),
        forall|i: int|
            0 <= i < e1@.len() ==> wf_bc_tv((#[trigger] e1@[i]).key, globals@.len() as int)
                && wf_bc_tv(e1@[i].value, globals@.len() as int),
        forall|i: int|
            0 <= i < e2@.len() ==> wf_bc_tv((#[trigger] e2@[i]).key, globals@.len() as int)
                && wf_bc_tv(e2@[i].value, globals@.len() as int),
    ensures
        r == (e1@.map_values(|x: Entry| (den_bc(x.key, globals@), den_bc(x.value, globals@)))
            == e2@.map_values(|x: Entry| (den_bc(x.key, globals@), den_bc(x.value, globals@)))),
    decreases e1@,
{
    let ghost m1 = e1@.map_values(|x: Entry| (den_bc(x.key, globals@), den_bc(x.value, globals@)));
    let ghost m2 = e2@.map_values(|x: Entry| (den_bc(x.key, globals@), den_bc(x.value, globals@)));
    if e1.len() != e2.len() {
        proof {
            assert(m1.len() != m2.len());
        }
        return false;
    }
    let n = e1.len();
    let mut j: usize = 0;
    while j < n
        invariant
            globals.wf(),
            forall|i: int|
                0 <= i < e1@.len() ==> wf_bc_tv((#[trigger] e1@[i]).key, globals@.len() as int)
                    && wf_bc_tv(e1@[i].value, globals@.len() as int),
            forall|i: int|
                0 <= i < e2@.len() ==> wf_bc_tv((#[trigger] e2@[i]).key, globals@.len() as int)
                    && wf_bc_tv(e2@[i].value, globals@.len() as int),
            n == e1@.len(),
            e1@.len() == e2@.len(),
            j <= n,
            m1 == e1@.map_values(
                |x: Entry| (den_bc(x.key, globals@), den_bc(x.value, globals@)),
            ),
            m2 == e2@.map_values(
                |x: Entry| (den_bc(x.key, globals@), den_bc(x.value, globals@)),
            ),
            forall|i: int| 0 <= i < j ==> #[trigger] m1[i] == m2[i],
        decreases n - j,
    {
        proof {
            assert(decreases_to!(e1@ => e1@[j as int]));
            assert(decreases_to!(e1@[j as int] => e1@[j as int].key));
            assert(decreases_to!(e1@[j as int] => e1@[j as int].value));
        }
        let keys_eq = tv_den_eq(&e1[j].key, &e2[j].key, globals);
        let vals_eq = tv_den_eq(&e1[j].value, &e2[j].value, globals);
        if !(keys_eq && vals_eq) {
            proof {
                assert(m1[j as int] != m2[j as int]);
            }
            return false;
        }
        j += 1;
    }
    proof {
        assert(m1 =~= m2);
    }
    true
}


/// Law: a domain-crossing constant conversion and its inverse compose to
/// the identity on denotations, so nested dict, vec and keyset structures
/// keep their element order and key/value pairing exactly.
pub proof fn lemma_constant_round_trip(
    a: TypedValue,
    g: Seq<Seq<u8>>,
    b: IrTypedValue,
    t: Seq<Seq<u8>>,
    c: TypedValue,
    g2: Seq<Seq<u8>>,
)
    requires
        den_ir(b, t) == den_bc(a, g),
        den_bc(c, g2) == den_ir(b, t),
    ensures
        den_bc(c, g2) == den_bc(a, g),
        den_bc(a, g) matches TvDen::Dict(ps) ==> den_bc(c, g2) == TvDen::Dict(ps),
        den_bc(a, g) matches TvDen::Vec(xs) ==> den_bc(c, g2) == TvDen::Vec(xs),
        den_bc(a, g) matches TvDen::Keyset(xs) ==> den_bc(c, g2) == TvDen::Keyset(xs),
{
}

} // verus!
