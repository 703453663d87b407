//! Whole-unit conversion from the persisted representation to the IR.
//!
//! A one-shot lookup table from adata index to converted constant is built
//! first; then every class container (signature, properties, class-level
//! constants) is converted before any body, because bodies may reference
//! sibling class metadata; then free functions; then methods last, each
//! appended to its owning class, now that all class containers exist.  The
//! terminal fatal record, if present, is copied structurally unchanged.

use vstd::prelude::*;
use vstd::pervasive::unreached;

use crate::interner::Interner;
use crate::interner::UnitBytesId;
use crate::ir_unit::attr_den_ir;
use crate::ir_unit::const_den_ir;
use crate::ir_unit::lemma_attr_den_ir_extends;
use crate::ir_unit::wf_attr_ir;
use crate::ir_unit::wf_const_ir;
use crate::ir_unit::IrAttribute;
use crate::ir_unit::IrConstant;
use crate::tv_convert::convert_tv_bc_to_ir;
use crate::typed_value::den_ir;
use crate::typed_value::den_key;
use crate::typed_value::lemma_den_ir_extends;
use crate::typed_value::lemma_wf_ir_tv_mono;
use crate::typed_value::table_extends;
use crate::typed_value::wf_ir_tv;
use crate::typed_value::ArrayKey;
use crate::typed_value::IrTypedValue;
use crate::typed_value::TvDen;
use crate::unit::attr_den_bc;
use crate::unit::const_den_bc;
use crate::unit::param_den;
use crate::unit::wf_attr_bc;
use crate::unit::wf_const_bc;
use crate::unit::Attribute;
use crate::unit::Constant;
use crate::unit::Fatal;
use crate::unit::Param;

verus! {

/// Copy a parameter list; parameters hold plain values in both domains.
pub fn clone_params(ps: &Vec<Param>) -> (r: Vec<Param>)
    ensures
        r@.map_values(|p: Param| param_den(p)) == ps@.map_values(|p: Param| param_den(p)),
{
    let mut out: Vec<Param> = Vec::new();
    let mut j: usize = 0;
    while j < ps.len()
        invariant
            j <= ps@.len(),
            out@.len() == j,
            forall|i: int| 0 <= i < j ==> param_den(#[trigger] out@[i]) == param_den(ps@[i]),
        decreases ps@.len() - j,
    {
        let p = &ps[j];
        let mut name: Vec<u8> = Vec::new();
        name.extend_from_slice(p.name.as_slice());
        proof {
            assert(name@ =~= ps@[j as int].name@);
        }
        out.push(Param { name, is_variadic: p.is_variadic, is_inout: p.is_inout });
        j += 1;
    }
    proof {
        assert(out@.map_values(|p: Param| param_den(p)) =~= ps@.map_values(
            |p: Param| param_den(p),
        ));
    }
    out
}

/// Copy a fatal record structurally unchanged.
pub fn clone_fatal(f: &Fatal) -> (r: Fatal)
    ensures
        r.op == f.op,
        r.loc == f.loc,
        r.message@ == f.message@,
{
    let mut message: Vec<u8> = Vec::new();
    message.extend_from_slice(f.message.as_slice());
    Fatal { op: f.op, loc: f.loc, message }
}

/// Deep-copy an IR constant value; the copy denotes the same value under
/// every table and keeps well-formedness.
pub fn clone_ir_tv(tv: &IrTypedValue) -> (r: IrTypedValue)
    ensures
        forall|t: Seq<Seq<u8>>| #[trigger] den_ir(r, t) == den_ir(*tv, t),
        forall|l: int| wf_ir_tv(*tv, l) ==> #[trigger] wf_ir_tv(r, l),
    decreases *tv,
{
    proof {
        crate::typed_value::lemma_ir_children_smaller(*tv);
    }
    match tv {
        IrTypedValue::Uninit => IrTypedValue::Uninit,
        IrTypedValue::Int(v) => IrTypedValue::Int(*v),
        IrTypedValue::Bool(v) => IrTypedValue::Bool(*v),
        IrTypedValue::Float(v) => IrTypedValue::Float(*v),
        IrTypedValue::Null => IrTypedValue::Null,
        IrTypedValue::String(id) => IrTypedValue::String(*id),
        IrTypedValue::LazyClass(id) => IrTypedValue::LazyClass(*id),
        IrTypedValue::Vec(vs) => {
            proof {
                assert(decreases_to!(*tv => vs@)) by {
                    assert(decreases_to!(*tv => vs));
                    assert(decreases_to!(vs => vs@));
                }
            }
            let out = clone_ir_list(vs);
            let r = IrTypedValue::Vec(out);
            proof {
                assert forall|t: Seq<Seq<u8>>| #[trigger] den_ir(r, t) == den_ir(*tv, t) by {
                    let x2 = den_ir(r, t)->Vec_0;
                    let x1 = den_ir(*tv, t)->Vec_0;
                    assert forall|i: int| 0 <= i < vs@.len() implies x2[i] == x1[i] by {
                        assert(x2[i] == den_ir(r->Vec_0@[i], t));
                        assert(x1[i] == den_ir(vs@[i], t));
                    }
                    assert(x2 =~= x1);
                }
                assert forall|l: int| wf_ir_tv(*tv, l) implies #[trigger] wf_ir_tv(r, l) by {
                    assert forall|i: int| 0 <= i < r->Vec_0@.len() implies wf_ir_tv(
                        #[trigger] r->Vec_0@[i],
                        l,
                    ) by {
                        assert(wf_ir_tv(vs@[i], l));
                    }
                }
            }
            r
        },
        IrTypedValue::Keyset(ks) => {
            let mut out: Vec<ArrayKey> = Vec::new();
            let mut j: usize = 0;
            while j < ks.len()
                invariant
                    j <= ks@.len(),
                    out@.len() == j,
                    forall|i: int| 0 <= i < j ==> #[trigger] out@[i] == ks@[i],
                decreases ks@.len() - j,
            {
                out.push(ks[j]);
                j += 1;
            }
            proof {
                assert(out@ =~= ks@);
            }
            IrTypedValue::Keyset(out)
        },
        IrTypedValue::Dict(es) => {
            proof {
                assert(decreases_to!(*tv => es@)) by {
                    assert(decreases_to!(*tv => es));
                    assert(decreases_to!(es => es@));
                }
            }
            let out = clone_ir_entries(es);
            let r = IrTypedValue::Dict(out);
            proof {
                assert forall|t: Seq<Seq<u8>>| #[trigger] den_ir(r, t) == den_ir(*tv, t) by {
                    let x2 = den_ir(r, t)->Dict_0;
                    let x1 = den_ir(*tv, t)->Dict_0;
                    assert forall|i: int| 0 <= i < es@.len() implies x2[i] == x1[i] by {
                        assert(x2[i] == (
                            den_key(r->Dict_0@[i].0, t),
                            den_ir(r->Dict_0@[i].1, t),
                        ));
                        assert(x1[i] == (den_key(es@[i].0, t), den_ir(es@[i].1, t)));
                    }
                    assert(x2 =~= x1);
                }
                assert forall|l: int| wf_ir_tv(*tv, l) implies #[trigger] wf_ir_tv(r, l) by {
                    assert forall|i: int| 0 <= i < r->Dict_0@.len() implies crate::typed_value::wf_key(
                        (#[trigger] r->Dict_0@[i]).0,
                        l,
                    ) && wf_ir_tv(r->Dict_0@[i].1, l) by {
                        assert(crate::typed_value::wf_key(es@[i].0, l));
                        assert(wf_ir_tv(es@[i].1, l));
                    }
                }
            }
            r
        },
    }
}

fn clone_ir_list(vs: &Vec<IrTypedValue>) -> (r: Vec<IrTypedValue>)
    ensures
        r@.len() == vs@.len(),
        forall|i: int, t: Seq<Seq<u8>>|
            0 <= i < vs@.len() ==> #[trigger] den_ir(r@[i], t) == den_ir(vs@[i], t),
        forall|i: int, l: int|
            0 <= i < vs@.len() && wf_ir_tv(vs@[i], l) ==> #[trigger] wf_ir_tv(r@[i], l),
    decreases vs@,
{
    let mut out: Vec<IrTypedValue> = Vec::new();
    let mut j: usize = 0;
    while j < vs.len()
        invariant
            j <= vs@.len(),
            out@.len() == j,
            forall|i: int, t: Seq<Seq<u8>>|
                0 <= i < j ==> #[trigger] den_ir(out@[i], t) == den_ir(vs@[i], t),
            forall|i: int, l: int|
                0 <= i < j && wf_ir_tv(vs@[i], l) ==> #[trigger] wf_ir_tv(out@[i], l),
        decreases vs@.len() - j,
    {
        proof {
            assert(decreases_to!(vs@ => vs@[j as int]));
        }
        let b = clone_ir_tv(&vs[j]);
        out.push(b);
        j += 1;
    }
    out
}

fn clone_ir_entries(es: &Vec<(ArrayKey, IrTypedValue)>) -> (r: Vec<(ArrayKey, IrTypedValue)>)
    ensures
        r@.len() == es@.len(),
        forall|i: int| 0 <= i < es@.len() ==> (#[trigger] r@[i]).0 == es@[i].0,
        forall|i: int, t: Seq<Seq<u8>>|
            0 <= i < es@.len() ==> #[trigger] den_ir(r@[i].1, t) == den_ir(es@[i].1, t),
        forall|i: int, l: int|
            0 <= i < es@.len() && wf_ir_tv(es@[i].1, l) ==> #[trigger] wf_ir_tv(r@[i].1, l),
    decreases es@,
{
    let mut out: Vec<(ArrayKey, IrTypedValue)> = Vec::new();
    let mut j: usize = 0;
    while j < es.len()
        invariant
            j <= es@.len(),
            out@.len() == j,
            forall|i: int| 0 <= i < j ==> (#[trigger] out@[i]).0 == es@[i].0,
            forall|i: int, t: Seq<Seq<u8>>|
                0 <= i < j ==> #[trigger] den_ir(out@[i].1, t) == den_ir(es@[i].1, t),
            forall|i: int, l: int|
                0 <= i < j && wf_ir_tv(es@[i].1, l) ==> #[trigger] wf_ir_tv(out@[i].1, l),
        decreases es@.len() - j,
    {
        proof {
            assert(decreases_to!(es@ => es@[j as int]));
            assert(decreases_to!(es@[j as int] => es@[j as int].1));
        }
        let k = es[j].0;
        let v = clone_ir_tv(&es[j].1);
        out.push((k, v));
        j += 1;
    }
    out
}


/// Convert one attribute: its class name is re-interned into the IR domain
/// and its arguments converted elementwise.
fn convert_attr_bc(a: &Attribute, globals: &Interner, ir: &mut Interner) -> (r: IrAttribute)
    requires
        globals.wf(),
        old(ir).wf(),
        wf_attr_bc(*a, globals@),
    ensures
        final(ir).wf(),
        table_extends(old(ir)@, final(ir)@),
        wf_attr_ir(r, final(ir)@.len() as int),
        attr_den_ir(r, final(ir)@) == attr_den_bc(*a, globals@),
{
    let name = UnitBytesId(ir.intern_bytes(a.name.as_bytes().as_slice()));
    let ghost t0 = ir@;
    proof {
        if old(ir)@.contains(a.name@) {
        } else {
            assert(forall|i: int| 0 <= i < old(ir)@.len() ==> ir@[i] == old(ir)@[i]);
        }
        assert(table_extends(old(ir)@, t0));
    }
    let mut args: Vec<IrTypedValue> = Vec::new();
    let n = a.arguments.len();
    let mut j: usize = 0;
    while j < n
        invariant
            globals.wf(),
            ir.wf(),
            table_extends(t0, ir@),
            name.0 < t0.len(),
            t0[name.0 as int] == a.name@,
            n == a.arguments@.len(),
            j <= n,
            args@.len() == j,
            forall|i: int|
                0 <= i < a.arguments@.len() ==> crate::unit::wf_tv_full(
                    #[trigger] a.arguments@[i],
                    globals@,
                ),
            forall|i: int|
                0 <= i < j ==> wf_ir_tv(#[trigger] args@[i], ir@.len() as int) && den_ir(
                    args@[i],
                    ir@,
                ) == crate::typed_value::den_bc(a.arguments@[i], globals@),
        decreases n - j,
    {
        let ghost t1 = ir@;
        let c = convert_tv_bc_to_ir(&a.arguments[j], globals, ir);
        match c {
            Ok(b) => {
                proof {
                    let t2 = ir@;
                    assert forall|i: int| 0 <= i < j implies wf_ir_tv(
                        #[trigger] args@[i],
                        t2.len() as int,
                    ) && den_ir(args@[i], t2) == crate::typed_value::den_bc(
                        a.arguments@[i],
                        globals@,
                    ) by {
                        lemma_den_ir_extends(args@[i], t1, t2);
                        lemma_wf_ir_tv_mono(args@[i], t1.len() as int, t2.len() as int);
                    }
                    crate::typed_value::lemma_table_extends_trans(t0, t1, t2);
                }
                args.push(b);
            },
            Err(_) => {
                return unreached();
            },
        }
        j += 1;
    }
    let r = IrAttribute { name, arguments: args };
    proof {
        assert(ir@[name.0 as int] == a.name@);
        assert(r.arguments@.map_values(|tv: IrTypedValue| den_ir(tv, ir@))
            =~= a.arguments@.map_values(
            |tv: crate::typed_value::TypedValue| crate::typed_value::den_bc(tv, globals@),
        ));
    }
    r
}

/// Convert an attribute list, in order.
fn convert_attrs_bc(attrs: &Vec<Attribute>, globals: &Interner, ir: &mut Interner) -> (r: Vec<
    IrAttribute,
>)
    requires
        globals.wf(),
        old(ir).wf(),
        crate::unit::wf_attrs_bc(attrs@, globals@),
    ensures
        final(ir).wf(),
        table_extends(old(ir)@, final(ir)@),
        r@.len() == attrs@.len(),
        forall|i: int|
            0 <= i < attrs@.len() ==> wf_attr_ir(#[trigger] r@[i], final(ir)@.len() as int)
                && attr_den_ir(r@[i], final(ir)@) == attr_den_bc(attrs@[i], globals@),
{
    let mut out: Vec<IrAttribute> = Vec::new();
    let n = attrs.len();
    let mut j: usize = 0;
    while j < n
        invariant
            globals.wf(),
            ir.wf(),
            table_extends(old(ir)@, ir@),
            n == attrs@.len(),
            j <= n,
            out@.len() == j,
            crate::unit::wf_attrs_bc(attrs@, globals@),
            forall|i: int|
                0 <= i < j ==> wf_attr_ir(#[trigger] out@[i], ir@.len() as int) && attr_den_ir(
                    out@[i],
                    ir@,
                ) == attr_den_bc(attrs@[i], globals@),
        decreases n - j,
    {
        let ghost t1 = ir@;
        let b = convert_attr_bc(&attrs[j], globals, ir);
        proof {
            let t2 = ir@;
            assert forall|i: int| 0 <= i < j implies wf_attr_ir(
                #[trigger] out@[i],
                t2.len() as int,
            ) && attr_den_ir(out@[i], t2) == attr_den_bc(attrs@[i], globals@) by {
                lemma_attr_den_ir_extends(out@[i], t1, t2);
            }
            crate::typed_value::lemma_table_extends_trans(old(ir)@, t1, t2);
        }
        out.push(b);
        j += 1;
    }
    out
}

/// Convert one named constant.
fn convert_const_bc(c: &Constant, globals: &Interner, ir: &mut Interner) -> (r: IrConstant)
    requires
        globals.wf(),
        old(ir).wf(),
        wf_const_bc(*c, globals@),
    ensures
        final(ir).wf(),
        table_extends(old(ir)@, final(ir)@),
        wf_const_ir(r, final(ir)@.len() as int),
        const_den_ir(r, final(ir)@) == const_den_bc(*c, globals@),
{
    let name = UnitBytesId(ir.intern_bytes(c.name.as_bytes().as_slice()));
    let ghost t0 = ir@;
    proof {
        if old(ir)@.contains(c.name@) {
        } else {
            assert(forall|i: int| 0 <= i < old(ir)@.len() ==> ir@[i] == old(ir)@[i]);
        }
        assert(table_extends(old(ir)@, t0));
    }
    let value = match &c.value {
        Some(tv) => {
            match convert_tv_bc_to_ir(tv, globals, ir) {
                Ok(b) => Some(b),
                Err(_) => {
                    return unreached();
                },
            }
        },
        Option::None => Option::None,
    };
    proof {
        crate::typed_value::lemma_table_extends_trans(old(ir)@, t0, ir@);
        assert(ir@[name.0 as int] == c.name@);
    }
    IrConstant { name, value, attrs: c.attrs }
}

/// Convert a constant list, in order.
fn convert_consts_bc(cs: &Vec<Constant>, globals: &Interner, ir: &mut Interner) -> (r: Vec<
    IrConstant,
>)
    requires
        globals.wf(),
        old(ir).wf(),
        crate::unit::wf_consts_bc(cs@, globals@),
    ensures
        final(ir).wf(),
        table_extends(old(ir)@, final(ir)@),
        r@.len() == cs@.len(),
        forall|i: int|
            0 <= i < cs@.len() ==> wf_const_ir(#[trigger] r@[i], final(ir)@.len() as int)
                && const_den_ir(r@[i], final(ir)@) == const_den_bc(cs@[i], globals@),
{
    let mut out: Vec<IrConstant> = Vec::new();
    let n = cs.len();
    let mut j: usize = 0;
    while j < n
        invariant
            globals.wf(),
            ir.wf(),
            table_extends(old(ir)@, ir@),
            n == cs@.len(),
            j <= n,
            out@.len() == j,
            crate::unit::wf_consts_bc(cs@, globals@),
            forall|i: int|
                0 <= i < j ==> wf_const_ir(#[trigger] out@[i], ir@.len() as int) && const_den_ir(
                    out@[i],
                    ir@,
                ) == const_den_bc(cs@[i], globals@),
        decreases n - j,
    {
        let ghost t1 = ir@;
        let b = convert_const_bc(&cs[j], globals, ir);
        proof {
            let t2 = ir@;
            assert forall|i: int| 0 <= i < j implies wf_const_ir(
                #[trigger] out@[i],
                t2.len() as int,
            ) && const_den_ir(out@[i], t2) == const_den_bc(cs@[i], globals@) by {
                crate::ir_unit::lemma_const_den_ir_extends(out@[i], t1, t2);
            }
            crate::typed_value::lemma_table_extends_trans(old(ir)@, t1, t2);
        }
        out.push(b);
        j += 1;
    }
    proof {
        assert(out@.map_values(|x: IrConstant| const_den_ir(x, ir@)) =~= cs@.map_values(
            |c: Constant| const_den_bc(c, globals@),
        ));
    }
    out
}


/// Convert one type alias definition.
fn convert_typedef_bc(
    d: &crate::unit::Typedef,
    globals: &Interner,
    ir: &mut Interner,
) -> (r: crate::ir_unit::IrTypedef)
    requires
        globals.wf(),
        old(ir).wf(),
        crate::unit::wf_typedef_bc(*d, globals@),
    ensures
        final(ir).wf(),
        table_extends(old(ir)@, final(ir)@),
        crate::ir_unit::wf_typedef_ir(r, final(ir)@.len() as int),
        crate::ir_unit::typedef_den_ir(r, final(ir)@) == crate::unit::typedef_den_bc(
            *d,
            globals@,
        ),
{
    let name = UnitBytesId(ir.intern_bytes(d.name.as_bytes().as_slice()));
    let ghost t0 = ir@;
    proof {
        if old(ir)@.contains(d.name@) {
        } else {
            assert(forall|i: int| 0 <= i < old(ir)@.len() ==> ir@[i] == old(ir)@[i]);
        }
        assert(table_extends(old(ir)@, t0));
    }
    let attributes = convert_attrs_bc(&d.attributes, globals, ir);
    let ghost t1 = ir@;
    let type_structure = match convert_tv_bc_to_ir(&d.type_structure, globals, ir) {
        Ok(b) => b,
        Err(_) => {
            return unreached();
        },
    };
    let r = crate::ir_unit::IrTypedef { name, attributes, type_structure, case_type: d.case_type };
    proof {
        let t2 = ir@;
        crate::typed_value::lemma_table_extends_trans(old(ir)@, t0, t1);
        crate::typed_value::lemma_table_extends_trans(old(ir)@, t1, t2);
        assert(t2[name.0 as int] == d.name@);
        assert forall|i: int| 0 <= i < r.attributes@.len() implies wf_attr_ir(
            #[trigger] r.attributes@[i],
            t2.len() as int,
        ) && attr_den_ir(r.attributes@[i], t2) == attr_den_bc(d.attributes@[i], globals@) by {
            lemma_attr_den_ir_extends(r.attributes@[i], t1, t2);
        }
        assert(r.attributes@.map_values(|x: IrAttribute| attr_den_ir(x, t2))
            =~= d.attributes@.map_values(|a: Attribute| attr_den_bc(a, globals@)));
    }
    r
}

/// Convert one module declaration.
fn convert_module_bc(
    m: &crate::unit::Module,
    globals: &Interner,
    ir: &mut Interner,
) -> (r: crate::ir_unit::IrModule)
    requires
        globals.wf(),
        old(ir).wf(),
        crate::unit::wf_module_bc(*m, globals@),
    ensures
        final(ir).wf(),
        table_extends(old(ir)@, final(ir)@),
        crate::ir_unit::wf_module_ir(r, final(ir)@.len() as int),
        crate::ir_unit::module_den_ir(r, final(ir)@) == crate::unit::module_den_bc(*m, globals@),
{
    let name = UnitBytesId(ir.intern_bytes(m.name.as_bytes().as_slice()));
    let ghost t0 = ir@;
    proof {
        if old(ir)@.contains(m.name@) {
        } else {
            assert(forall|i: int| 0 <= i < old(ir)@.len() ==> ir@[i] == old(ir)@[i]);
        }
        assert(table_extends(old(ir)@, t0));
    }
    let attributes = convert_attrs_bc(&m.attributes, globals, ir);
    let doc_comment = match &m.doc_comment {
        Some(d) => {
            let mut copy: Vec<u8> = Vec::new();
            copy.extend_from_slice(d.as_slice());
            proof {
                assert(copy@ =~= m.doc_comment.unwrap()@);
            }
            Some(copy)
        },
        Option::None => Option::None,
    };
    let src_loc = crate::unit::SrcLoc {
        line_begin: m.span.line_begin,
        col_begin: 0,
        line_end: m.span.line_end,
        col_end: 0,
    };
    let r = crate::ir_unit::IrModule { attributes, name, src_loc, doc_comment };
    proof {
        let t2 = ir@;
        crate::typed_value::lemma_table_extends_trans(old(ir)@, t0, t2);
        assert(t2[name.0 as int] == m.name@);
        assert(r.attributes@.map_values(|x: IrAttribute| attr_den_ir(x, t2))
            =~= m.attributes@.map_values(|a: Attribute| attr_den_bc(a, globals@)));
    }
    r
}

/// Copy the symbol-reference table; both domains share its type.
pub fn clone_symbol_refs(s: &crate::unit::SymbolRefs) -> (r: crate::unit::SymbolRefs)
    ensures
        crate::unit::sym_refs_den(r) == crate::unit::sym_refs_den(*s),
        crate::unit::wf_sym_refs(*s) ==> crate::unit::wf_sym_refs(r),
{
    let mut classes: Vec<crate::names::ClassName> = Vec::new();
    let mut j: usize = 0;
    while j < s.classes.len()
        invariant
            j <= s.classes@.len(),
            classes@.len() == j,
            forall|i: int| 0 <= i < j ==> (#[trigger] classes@[i])@ == s.classes@[i]@,
        decreases s.classes@.len() - j,
    {
        classes.push(crate::names::ClassName::from_bytes(s.classes[j].as_bytes().as_slice()));
        j += 1;
    }
    let mut constants: Vec<crate::names::ConstName> = Vec::new();
    let mut k: usize = 0;
    while k < s.constants.len()
        invariant
            k <= s.constants@.len(),
            constants@.len() == k,
            forall|i: int| 0 <= i < k ==> (#[trigger] constants@[i])@ == s.constants@[i]@,
        decreases s.constants@.len() - k,
    {
        constants.push(crate::names::ConstName::from_bytes(s.constants[k].as_bytes().as_slice()));
        k += 1;
    }
    let mut functions: Vec<crate::names::FunctionName> = Vec::new();
    let mut l: usize = 0;
    while l < s.functions.len()
        invariant
            l <= s.functions@.len(),
            functions@.len() == l,
            forall|i: int| 0 <= i < l ==> (#[trigger] functions@[i])@ == s.functions@[i]@,
        decreases s.functions@.len() - l,
    {
        functions.push(
            crate::names::FunctionName::intern(s.functions[l].as_bytes().as_slice()),
        );
        l += 1;
    }
    let mut includes: Vec<Vec<u8>> = Vec::new();
    let mut m: usize = 0;
    while m < s.includes.len()
        invariant
            m <= s.includes@.len(),
            includes@.len() == m,
            forall|i: int| 0 <= i < m ==> (#[trigger] includes@[i])@ == s.includes@[i]@,
        decreases s.includes@.len() - m,
    {
        let mut copy: Vec<u8> = Vec::new();
        copy.extend_from_slice(s.includes[m].as_slice());
        proof {
            assert(copy@ =~= s.includes@[m as int]@);
        }
        includes.push(copy);
        m += 1;
    }
    let r = crate::unit::SymbolRefs { classes, constants, functions, includes };
    proof {
        assert(r.classes@.map_values(|n: crate::names::ClassName| n@)
            =~= s.classes@.map_values(|n: crate::names::ClassName| n@));
        assert(r.constants@.map_values(|n: crate::names::ConstName| n@)
            =~= s.constants@.map_values(|n: crate::names::ConstName| n@));
        assert(r.functions@.map_values(|n: crate::names::FunctionName| n@)
            =~= s.functions@.map_values(|n: crate::names::FunctionName| n@));
        assert(r.includes@.map_values(|n: Vec<u8>| n@) =~= s.includes@.map_values(
            |n: Vec<u8>| n@,
        ));
    }
    r
}

/// Convert a persisted body: copy the parameters and resolve every pooled
/// constant reference through the one-shot lookup table.
fn convert_body_bc(
    b: &crate::unit::Body,
    lookup: &Vec<IrTypedValue>,
    Ghost(pool): Ghost<Seq<TvDen>>,
    Ghost(t): Ghost<Seq<Seq<u8>>>,
) -> (r: crate::ir_unit::IrBody)
    requires
        crate::unit::wf_body_bc(*b, lookup@.len() as int),
        lookup@.len() == pool.len(),
        forall|i: int|
            0 <= i < lookup@.len() ==> den_ir(#[trigger] lookup@[i], t) == pool[i] && wf_ir_tv(
                lookup@[i],
                t.len() as int,
            ),
    ensures
        crate::ir_unit::wf_body_ir(r, t.len() as int),
        crate::ir_unit::body_den_ir(r, t) == crate::unit::body_den_bc(*b, pool),
{
    let params = clone_params(&b.params);
    let mut constants: Vec<IrTypedValue> = Vec::new();
    let n = b.adata_refs.len();
    let mut j: usize = 0;
    while j < n
        invariant
            crate::unit::wf_body_bc(*b, lookup@.len() as int),
            lookup@.len() == pool.len(),
            forall|i: int|
                0 <= i < lookup@.len() ==> den_ir(#[trigger] lookup@[i], t) == pool[i] && wf_ir_tv(
                    lookup@[i],
                    t.len() as int,
                ),
            n == b.adata_refs@.len(),
            j <= n,
            constants@.len() == j,
            forall|i: int|
                0 <= i < j ==> den_ir(#[trigger] constants@[i], t) == pool[b.adata_refs@[i].spec_id() as int]
                    && wf_ir_tv(constants@[i], t.len() as int),
        decreases n - j,
    {
        let id = b.adata_refs[j];
        let idx = id.id();
        let c = clone_ir_tv(&lookup[idx]);
        constants.push(c);
        j += 1;
    }
    let r = crate::ir_unit::IrBody { params, constants };
    proof {
        assert(r.constants@.map_values(|tv: IrTypedValue| den_ir(tv, t))
            =~= b.adata_refs@.map_values(|id: crate::adata::AdataId| pool[id.spec_id() as int]));
    }
    r
}

/// Convert one free function; its body's pooled references are resolved
/// through the lookup table.
fn convert_function_bc(
    f: &crate::unit::Function,
    globals: &Interner,
    lookup: &Vec<IrTypedValue>,
    Ghost(pool): Ghost<Seq<TvDen>>,
    ir: &mut Interner,
) -> (r: crate::ir_unit::IrFunction)
    requires
        globals.wf(),
        old(ir).wf(),
        crate::unit::wf_function_bc(*f, globals@, lookup@.len() as int),
        lookup@.len() == pool.len(),
        forall|i: int|
            0 <= i < lookup@.len() ==> den_ir(#[trigger] lookup@[i], old(ir)@) == pool[i]
                && wf_ir_tv(lookup@[i], old(ir)@.len() as int),
    ensures
        final(ir).wf(),
        table_extends(old(ir)@, final(ir)@),
        crate::ir_unit::wf_function_ir(r, final(ir)@.len() as int),
        crate::ir_unit::func_den_ir(r, final(ir)@) == crate::unit::func_den_bc(
            *f,
            globals@,
            pool,
        ),
{
    let name = UnitBytesId(ir.intern_bytes(f.name.as_bytes().as_slice()));
    let ghost t0 = ir@;
    proof {
        if old(ir)@.contains(f.name@) {
        } else {
            assert(forall|i: int| 0 <= i < old(ir)@.len() ==> ir@[i] == old(ir)@[i]);
        }
        assert(table_extends(old(ir)@, t0));
    }
    let attributes = convert_attrs_bc(&f.attributes, globals, ir);
    let ghost t2 = ir@;
    proof {
        crate::typed_value::lemma_table_extends_trans(old(ir)@, t0, t2);
        assert forall|i: int| 0 <= i < lookup@.len() implies den_ir(#[trigger] lookup@[i], t2)
            == pool[i] && wf_ir_tv(lookup@[i], t2.len() as int) by {
            lemma_den_ir_extends(lookup@[i], old(ir)@, t2);
            lemma_wf_ir_tv_mono(lookup@[i], old(ir)@.len() as int, t2.len() as int);
        }
    }
    let body = convert_body_bc(&f.body, lookup, Ghost(pool), Ghost(ir@));
    let r = crate::ir_unit::IrFunction { attributes, name, body, flags: f.flags, attrs: f.attrs };
    proof {
        assert(t2[name.0 as int] == f.name@);
        assert(r.attributes@.map_values(|x: IrAttribute| attr_den_ir(x, t2))
            =~= f.attributes@.map_values(|a: Attribute| attr_den_bc(a, globals@)));
    }
    r
}

/// Convert one declared property.
fn convert_property_bc(
    p: &crate::unit::Property,
    globals: &Interner,
    ir: &mut Interner,
) -> (r: crate::ir_unit::IrProperty)
    requires
        globals.wf(),
        old(ir).wf(),
        crate::unit::wf_prop_bc(*p, globals@),
    ensures
        final(ir).wf(),
        table_extends(old(ir)@, final(ir)@),
        crate::ir_unit::wf_prop_ir(r, final(ir)@.len() as int),
        crate::ir_unit::prop_den_ir(r, final(ir)@) == crate::unit::prop_den_bc(*p, globals@),
{
    let name = UnitBytesId(ir.intern_bytes(p.name.as_bytes().as_slice()));
    let ghost t0 = ir@;
    proof {
        if old(ir)@.contains(p.name@) {
        } else {
            assert(forall|i: int| 0 <= i < old(ir)@.len() ==> ir@[i] == old(ir)@[i]);
        }
        assert(table_extends(old(ir)@, t0));
    }
    let initial_value = match &p.initial_value {
        Some(tv) => {
            match convert_tv_bc_to_ir(tv, globals, ir) {
                Ok(b) => Some(b),
                Err(_) => {
                    return unreached();
                },
            }
        },
        Option::None => Option::None,
    };
    proof {
        crate::typed_value::lemma_table_extends_trans(old(ir)@, t0, ir@);
        assert(ir@[name.0 as int] == p.name@);
    }
    crate::ir_unit::IrProperty { name, initial_value, attrs: p.attrs }
}

/// Convert one method; tagged for its owning class by the caller, which
/// appends it to that class.
fn convert_method_bc(
    m: &crate::unit::Method,
    lookup: &Vec<IrTypedValue>,
    Ghost(pool): Ghost<Seq<TvDen>>,
    ir: &mut Interner,
) -> (r: crate::ir_unit::IrMethod)
    requires
        old(ir).wf(),
        crate::unit::wf_method_bc(*m, Seq::<Seq<u8>>::empty(), lookup@.len() as int),
        lookup@.len() == pool.len(),
        forall|i: int|
            0 <= i < lookup@.len() ==> den_ir(#[trigger] lookup@[i], old(ir)@) == pool[i]
                && wf_ir_tv(lookup@[i], old(ir)@.len() as int),
    ensures
        final(ir).wf(),
        table_extends(old(ir)@, final(ir)@),
        crate::ir_unit::wf_method_ir(r, final(ir)@.len() as int),
        crate::ir_unit::meth_den_ir(r, final(ir)@) == crate::unit::meth_den_bc(
            *m,
            Seq::<Seq<u8>>::empty(),
            pool,
        ),
{
    let name = UnitBytesId(ir.intern_bytes(m.name.as_bytes().as_slice()));
    let ghost t0 = ir@;
    proof {
        if old(ir)@.contains(m.name@) {
        } else {
            assert(forall|i: int| 0 <= i < old(ir)@.len() ==> ir@[i] == old(ir)@[i]);
        }
        assert(table_extends(old(ir)@, t0));
        assert forall|i: int| 0 <= i < lookup@.len() implies den_ir(#[trigger] lookup@[i], t0)
            == pool[i] && wf_ir_tv(lookup@[i], t0.len() as int) by {
            lemma_den_ir_extends(lookup@[i], old(ir)@, t0);
            lemma_wf_ir_tv_mono(lookup@[i], old(ir)@.len() as int, t0.len() as int);
        }
    }
    let body = convert_body_bc(&m.body, lookup, Ghost(pool), Ghost(ir@));
    let r = crate::ir_unit::IrMethod { name, body, flags: m.flags, attrs: m.attrs };
    proof {
        assert(ir@[name.0 as int] == m.name@);
    }
    r
}


/// Convert a property list, in order.
fn convert_props_bc(ps: &Vec<crate::unit::Property>, globals: &Interner, ir: &mut Interner) -> (r:
    Vec<crate::ir_unit::IrProperty>)
    requires
        globals.wf(),
        old(ir).wf(),
        forall|i: int| 0 <= i < ps@.len() ==> crate::unit::wf_prop_bc(#[trigger] ps@[i], globals@),
    ensures
        final(ir).wf(),
        table_extends(old(ir)@, final(ir)@),
        r@.len() == ps@.len(),
        forall|i: int|
            0 <= i < ps@.len() ==> crate::ir_unit::wf_prop_ir(
                #[trigger] r@[i],
                final(ir)@.len() as int,
            ) && crate::ir_unit::prop_den_ir(r@[i], final(ir)@) == crate::unit::prop_den_bc(
                ps@[i],
                globals@,
            ),
{
    let mut out: Vec<crate::ir_unit::IrProperty> = Vec::new();
    let n = ps.len();
    let mut j: usize = 0;
    while j < n
        invariant
            globals.wf(),
            ir.wf(),
            table_extends(old(ir)@, ir@),
            n == ps@.len(),
            j <= n,
            out@.len() == j,
            forall|i: int|
                0 <= i < ps@.len() ==> crate::unit::wf_prop_bc(#[trigger] ps@[i], globals@),
            forall|i: int|
                0 <= i < j ==> crate::ir_unit::wf_prop_ir(#[trigger] out@[i], ir@.len() as int)
                    && crate::ir_unit::prop_den_ir(out@[i], ir@) == crate::unit::prop_den_bc(
                    ps@[i],
                    globals@,
                ),
        decreases n - j,
    {
        let ghost t1 = ir@;
        let b = convert_property_bc(&ps[j], globals, ir);
        proof {
            let t2 = ir@;
            assert forall|i: int| 0 <= i < j implies crate::ir_unit::wf_prop_ir(
                #[trigger] out@[i],
                t2.len() as int,
            ) && crate::ir_unit::prop_den_ir(out@[i], t2) == crate::unit::prop_den_bc(
                ps@[i],
                globals@,
            ) by {
                crate::ir_unit::lemma_prop_den_ir_extends(out@[i], t1, t2);
            }
            crate::typed_value::lemma_table_extends_trans(old(ir)@, t1, t2);
        }
        out.push(b);
        j += 1;
    }
    out
}

/// Convert a module list, in order.
fn convert_modules_bc(ms: &Vec<crate::unit::Module>, globals: &Interner, ir: &mut Interner) -> (r:
    Vec<crate::ir_unit::IrModule>)
    requires
        globals.wf(),
        old(ir).wf(),
        forall|i: int|
            0 <= i < ms@.len() ==> crate::unit::wf_module_bc(#[trigger] ms@[i], globals@),
    ensures
        final(ir).wf(),
        table_extends(old(ir)@, final(ir)@),
        r@.len() == ms@.len(),
        forall|i: int|
            0 <= i < ms@.len() ==> crate::ir_unit::wf_module_ir(
                #[trigger] r@[i],
                final(ir)@.len() as int,
            ) && crate::ir_unit::module_den_ir(r@[i], final(ir)@) == crate::unit::module_den_bc(
                ms@[i],
                globals@,
            ),
{
    let mut out: Vec<crate::ir_unit::IrModule> = Vec::new();
    let n = ms.len();
    let mut j: usize = 0;
    while j < n
        invariant
            globals.wf(),
            ir.wf(),
            table_extends(old(ir)@, ir@),
            n == ms@.len(),
            j <= n,
            out@.len() == j,
            forall|i: int|
                0 <= i < ms@.len() ==> crate::unit::wf_module_bc(#[trigger] ms@[i], globals@),
            forall|i: int|
                0 <= i < j ==> crate::ir_unit::wf_module_ir(#[trigger] out@[i], ir@.len() as int)
                    && crate::ir_unit::module_den_ir(out@[i], ir@) == crate::unit::module_den_bc(
                    ms@[i],
                    globals@,
                ),
        decreases n - j,
    {
        let ghost t1 = ir@;
        let b = convert_module_bc(&ms[j], globals, ir);
        proof {
            let t2 = ir@;
            assert forall|i: int| 0 <= i < j implies crate::ir_unit::wf_module_ir(
                #[trigger] out@[i],
                t2.len() as int,
            ) && crate::ir_unit::module_den_ir(out@[i], t2) == crate::unit::module_den_bc(
                ms@[i],
                globals@,
            ) by {
                crate::ir_unit::lemma_module_den_ir_extends(out@[i], t1, t2);
            }
            crate::typed_value::lemma_table_extends_trans(old(ir)@, t1, t2);
        }
        out.push(b);
        j += 1;
    }
    out
}

/// Convert a typedef list, in order.
fn convert_typedefs_bc(ds: &Vec<crate::unit::Typedef>, globals: &Interner, ir: &mut Interner) -> (r:
    Vec<crate::ir_unit::IrTypedef>)
    requires
        globals.wf(),
        old(ir).wf(),
        forall|i: int|
            0 <= i < ds@.len() ==> crate::unit::wf_typedef_bc(#[trigger] ds@[i], globals@),
    ensures
        final(ir).wf(),
        table_extends(old(ir)@, final(ir)@),
        r@.len() == ds@.len(),
        forall|i: int|
            0 <= i < ds@.len() ==> crate::ir_unit::wf_typedef_ir(
                #[trigger] r@[i],
                final(ir)@.len() as int,
            ) && crate::ir_unit::typedef_den_ir(r@[i], final(ir)@) == crate::unit::typedef_den_bc(
                ds@[i],
                globals@,
            ),
{
    let mut out: Vec<crate::ir_unit::IrTypedef> = Vec::new();
    let n = ds.len();
    let mut j: usize = 0;
    while j < n
        invariant
            globals.wf(),
            ir.wf(),
            table_extends(old(ir)@, ir@),
            n == ds@.len(),
            j <= n,
            out@.len() == j,
            forall|i: int|
                0 <= i < ds@.len() ==> crate::unit::wf_typedef_bc(#[trigger] ds@[i], globals@),
            forall|i: int|
                0 <= i < j ==> crate::ir_unit::wf_typedef_ir(#[trigger] out@[i], ir@.len() as int)
                    && crate::ir_unit::typedef_den_ir(out@[i], ir@) == crate::unit::typedef_den_bc(
                    ds@[i],
                    globals@,
                ),
        decreases n - j,
    {
        let ghost t1 = ir@;
        let b = convert_typedef_bc(&ds[j], globals, ir);
        proof {
            let t2 = ir@;
            assert forall|i: int| 0 <= i < j implies crate::ir_unit::wf_typedef_ir(
                #[trigger] out@[i],
                t2.len() as int,
            ) && crate::ir_unit::typedef_den_ir(out@[i], t2) == crate::unit::typedef_den_bc(
                ds@[i],
                globals@,
            ) by {
                crate::ir_unit::lemma_typedef_den_ir_extends(out@[i], t1, t2);
            }
            crate::typed_value::lemma_table_extends_trans(old(ir)@, t1, t2);
        }
        out.push(b);
        j += 1;
    }
    out
}

/// Does the converted class hold exactly the source class's containers
/// (signature, properties, class-level constants), with its method list
/// still empty?
pub open spec fn container_matches(
    rc: crate::ir_unit::IrClass,
    c: crate::unit::Class,
    t: Seq<Seq<u8>>,
    g: Seq<Seq<u8>>,
) -> bool {
    let dr = crate::ir_unit::class_den_ir(rc, t);
    let db = crate::unit::class_den_bc(c, g, Seq::<TvDen>::empty());
    &&& dr.name == db.name
    &&& dr.attributes == db.attributes
    &&& dr.properties == db.properties
    &&& dr.constants == db.constants
    &&& dr.attrs == db.attrs
    &&& rc.methods@.len() == 0
}

/// Convert one class container: signature, properties and class-level
/// constants, but not yet its methods.
fn convert_class_bc(
    c: &crate::unit::Class,
    globals: &Interner,
    ir: &mut Interner,
    Ghost(n_adata): Ghost<int>,
) -> (r: crate::ir_unit::IrClass)
    requires
        globals.wf(),
        old(ir).wf(),
        crate::unit::wf_class_bc(*c, globals@, n_adata),
    ensures
        final(ir).wf(),
        table_extends(old(ir)@, final(ir)@),
        crate::ir_unit::wf_class_ir(r, final(ir)@.len() as int),
        container_matches(r, *c, final(ir)@, globals@),
{
    let name = UnitBytesId(ir.intern_bytes(c.name.as_bytes().as_slice()));
    let ghost t0 = ir@;
    proof {
        if old(ir)@.contains(c.name@) {
        } else {
            assert(forall|i: int| 0 <= i < old(ir)@.len() ==> ir@[i] == old(ir)@[i]);
        }
        assert(table_extends(old(ir)@, t0));
    }
    let attributes = convert_attrs_bc(&c.attributes, globals, ir);
    let ghost t1 = ir@;
    let properties = convert_props_bc(&c.properties, globals, ir);
    let ghost t2 = ir@;
    let constants = convert_consts_bc(&c.constants, globals, ir);
    let ghost t3 = ir@;
    let r = crate::ir_unit::IrClass {
        attributes,
        name,
        properties,
        constants,
        methods: Vec::new(),
        attrs: c.attrs,
    };
    proof {
        crate::typed_value::lemma_table_extends_trans(old(ir)@, t0, t1);
        crate::typed_value::lemma_table_extends_trans(old(ir)@, t1, t2);
        crate::typed_value::lemma_table_extends_trans(old(ir)@, t2, t3);
        crate::typed_value::lemma_table_extends_trans(t1, t2, t3);
        assert(t3[name.0 as int] == c.name@);
        assert forall|i: int| 0 <= i < r.attributes@.len() implies wf_attr_ir(
            #[trigger] r.attributes@[i],
            t3.len() as int,
        ) && attr_den_ir(r.attributes@[i], t3) == attr_den_bc(c.attributes@[i], globals@) by {
            lemma_attr_den_ir_extends(r.attributes@[i], t1, t3);
        }
        assert forall|i: int| 0 <= i < r.properties@.len() implies crate::ir_unit::wf_prop_ir(
            #[trigger] r.properties@[i],
            t3.len() as int,
        ) && crate::ir_unit::prop_den_ir(r.properties@[i], t3) == crate::unit::prop_den_bc(
            c.properties@[i],
            globals@,
        ) by {
            crate::ir_unit::lemma_prop_den_ir_extends(r.properties@[i], t2, t3);
        }
        assert(r.attributes@.map_values(|x: IrAttribute| attr_den_ir(x, t3))
            =~= c.attributes@.map_values(|a: Attribute| attr_den_bc(a, globals@)));
        assert(r.properties@.map_values(|p: crate::ir_unit::IrProperty| crate::ir_unit::prop_den_ir(p, t3))
            =~= c.properties@.map_values(
            |p: crate::unit::Property| crate::unit::prop_den_bc(p, globals@),
        ));
        assert(r.constants@.map_values(|k: IrConstant| const_den_ir(k, t3))
            =~= c.constants@.map_values(|k: Constant| const_den_bc(k, globals@)));
        assert(r.methods@.map_values(
            |m: crate::ir_unit::IrMethod| crate::ir_unit::meth_den_ir(m, t3),
        ) =~= Seq::<crate::unit::MethDen>::empty());
    }
    r
}


/// Convert a persisted unit to an IR unit.
///
/// Most of the unit's outer structure maps one to one; the ordering is
/// forced by structural dependency: class containers before any body, then
/// free functions, then methods, each appended to its owning class.
pub fn bc_to_ir(unit: &crate::unit::Unit, globals: &Interner) -> (r: crate::ir_unit::IrUnit)
    requires
        globals.wf(),
        crate::unit::wf_unit_bc(*unit, globals@),
    ensures
        crate::ir_unit::wf_unit_ir(r),
        crate::ir_unit::unit_den_ir(r) == crate::unit::unit_den_bc(*unit, globals@),
{
    let ghost g = globals@;
    let ghost pool = crate::unit::pool_den_bc(unit.adata@, g);
    let mut strings = Interner::new();

    // The one-shot adata-index to constant lookup table.
    let mut lookup: Vec<IrTypedValue> = Vec::new();
    let na = unit.adata.len();
    let mut j: usize = 0;
    while j < na
        invariant
            globals.wf(),
            g == globals@,
            crate::unit::wf_unit_bc(*unit, g),
            pool == crate::unit::pool_den_bc(unit.adata@, g),
            strings.wf(),
            na == unit.adata@.len(),
            j <= na,
            lookup@.len() == j,
            forall|i: int|
                0 <= i < j ==> den_ir(#[trigger] lookup@[i], strings@) == pool[i] && wf_ir_tv(
                    lookup@[i],
                    strings@.len() as int,
                ),
        decreases na - j,
    {
        let ghost t1 = strings@;
        proof {
            assert(crate::unit::wf_tv_full(unit.adata@[j as int], g));
        }
        let c = convert_tv_bc_to_ir(&unit.adata[j], globals, &mut strings);
        match c {
            Ok(b) => {
                proof {
                    let t2 = strings@;
                    assert forall|i: int| 0 <= i < j implies den_ir(#[trigger] lookup@[i], t2)
                        == pool[i] && wf_ir_tv(lookup@[i], t2.len() as int) by {
                        lemma_den_ir_extends(lookup@[i], t1, t2);
                        lemma_wf_ir_tv_mono(lookup@[i], t1.len() as int, t2.len() as int);
                    }
                    assert(pool[j as int] == crate::typed_value::den_bc(
                        unit.adata@[j as int],
                        g,
                    ));
                }
                lookup.push(b);
            },
            Err(_) => {
                return unreached();
            },
        }
        j += 1;
    }
    let ghost t_a = strings@;

    // The fields with no ordering dependency on classes and functions.
    let constants = convert_consts_bc(&unit.constants, globals, &mut strings);
    let ghost t_b = strings@;
    let file_attributes = convert_attrs_bc(&unit.file_attributes, globals, &mut strings);
    let ghost t_c = strings@;
    let modules = convert_modules_bc(&unit.modules, globals, &mut strings);
    let ghost t_d = strings@;
    let typedefs = convert_typedefs_bc(&unit.typedefs, globals, &mut strings);
    let ghost t_e = strings@;
    let module_use = match &unit.module_use {
        Some(n) => Some(UnitBytesId(strings.intern_bytes(n.as_bytes().as_slice()))),
        Option::None => Option::None,
    };
    let ghost t_f = strings@;
    proof {
        if unit.module_use is Some {
            if t_e.contains(unit.module_use.unwrap()@) {
            } else {
                assert(forall|i: int| 0 <= i < t_e.len() ==> t_f[i] == t_e[i]);
            }
        }
        assert(table_extends(t_e, t_f));
    }
    let symbol_refs = clone_symbol_refs(&unit.symbol_refs);

    // Class containers, before any body.
    let mut ir_classes: Vec<crate::ir_unit::IrClass> = Vec::new();
    let nc = unit.classes.len();
    let mut ci: usize = 0;
    while ci < nc
        invariant
            globals.wf(),
            g == globals@,
            crate::unit::wf_unit_bc(*unit, g),
            strings.wf(),
            table_extends(t_f, strings@),
            nc == unit.classes@.len(),
            ci <= nc,
            ir_classes@.len() == ci,
            forall|i: int|
                0 <= i < ci ==> crate::ir_unit::wf_class_ir(
                    #[trigger] ir_classes@[i],
                    strings@.len() as int,
                ) && container_matches(ir_classes@[i], unit.classes@[i], strings@, g),
        decreases nc - ci,
    {
        let ghost t1 = strings@;
        proof {
            assert(crate::unit::wf_class_bc(unit.classes@[ci as int], g, unit.adata@.len() as int));
        }
        let c = convert_class_bc(
            &unit.classes[ci],
            globals,
            &mut strings,
            Ghost(unit.adata@.len() as int),
        );
        proof {
            let t2 = strings@;
            assert forall|i: int| 0 <= i < ci implies crate::ir_unit::wf_class_ir(
                #[trigger] ir_classes@[i],
                t2.len() as int,
            ) && container_matches(ir_classes@[i], unit.classes@[i], t2, g) by {
                crate::ir_unit::lemma_class_den_ir_extends(ir_classes@[i], t1, t2);
            }
            crate::typed_value::lemma_table_extends_trans(t_f, t1, t2);
        }
        ir_classes.push(c);
        ci += 1;
    }
    let ghost t_cls = strings@;

    // Free functions.
    let mut functions: Vec<crate::ir_unit::IrFunction> = Vec::new();
    let nf = unit.functions.len();
    let mut fi: usize = 0;
    proof {
        crate::typed_value::lemma_table_extends_trans(t_a, t_b, t_c);
        crate::typed_value::lemma_table_extends_trans(t_a, t_c, t_d);
        crate::typed_value::lemma_table_extends_trans(t_a, t_d, t_e);
        crate::typed_value::lemma_table_extends_trans(t_a, t_e, t_f);
        crate::typed_value::lemma_table_extends_trans(t_a, t_f, t_cls);
        assert forall|i: int| 0 <= i < lookup@.len() implies den_ir(#[trigger] lookup@[i], t_cls)
            == pool[i] && wf_ir_tv(lookup@[i], t_cls.len() as int) by {
            lemma_den_ir_extends(lookup@[i], t_a, t_cls);
            lemma_wf_ir_tv_mono(lookup@[i], t_a.len() as int, t_cls.len() as int);
        }
    }
    while fi < nf
        invariant
            globals.wf(),
            g == globals@,
            crate::unit::wf_unit_bc(*unit, g),
            pool == crate::unit::pool_den_bc(unit.adata@, g),
            strings.wf(),
            table_extends(t_cls, strings@),
            na == unit.adata@.len(),
            lookup@.len() == na,
            forall|i: int|
                0 <= i < lookup@.len() ==> den_ir(#[trigger] lookup@[i], strings@) == pool[i]
                    && wf_ir_tv(lookup@[i], strings@.len() as int),
            nc == unit.classes@.len(),
            ir_classes@.len() == nc,
            forall|i: int|
                0 <= i < nc ==> crate::ir_unit::wf_class_ir(
                    #[trigger] ir_classes@[i],
                    strings@.len() as int,
                ) && container_matches(ir_classes@[i], unit.classes@[i], strings@, g),
            nf == unit.functions@.len(),
            fi <= nf,
            functions@.len() == fi,
            forall|i: int|
                0 <= i < fi ==> crate::ir_unit::wf_function_ir(
                    #[trigger] functions@[i],
                    strings@.len() as int,
                ) && crate::ir_unit::func_den_ir(functions@[i], strings@)
                    == crate::unit::func_den_bc(unit.functions@[i], g, pool),
        decreases nf - fi,
    {
        let ghost t1 = strings@;
        proof {
            assert(crate::unit::wf_function_bc(
                unit.functions@[fi as int],
                g,
                unit.adata@.len() as int,
            ));
        }
        let f = convert_function_bc(&unit.functions[fi], globals, &lookup, Ghost(pool), &mut strings);
        proof {
            let t2 = strings@;
            assert forall|i: int| 0 <= i < fi implies crate::ir_unit::wf_function_ir(
                #[trigger] functions@[i],
                t2.len() as int,
            ) && crate::ir_unit::func_den_ir(functions@[i], t2) == crate::unit::func_den_bc(
                unit.functions@[i],
                g,
                pool,
            ) by {
                crate::ir_unit::lemma_func_den_ir_extends(functions@[i], t1, t2);
            }
            assert forall|i: int| 0 <= i < lookup@.len() implies den_ir(#[trigger] lookup@[i], t2)
                == pool[i] && wf_ir_tv(lookup@[i], t2.len() as int) by {
                lemma_den_ir_extends(lookup@[i], t1, t2);
                lemma_wf_ir_tv_mono(lookup@[i], t1.len() as int, t2.len() as int);
            }
            assert forall|i: int| 0 <= i < nc implies crate::ir_unit::wf_class_ir(
                #[trigger] ir_classes@[i],
                t2.len() as int,
            ) && container_matches(ir_classes@[i], unit.classes@[i], t2, g) by {
                crate::ir_unit::lemma_class_den_ir_extends(ir_classes@[i], t1, t2);
            }
            crate::typed_value::lemma_table_extends_trans(t_cls, t1, t2);
        }
        functions.push(f);
        fi += 1;
    }
    let ghost t_fun = strings@;

    // Methods last, appended to their owning classes.
    let mut ci2: usize = 0;
    while ci2 < nc
        invariant
            globals.wf(),
            g == globals@,
            crate::unit::wf_unit_bc(*unit, g),
            pool == crate::unit::pool_den_bc(unit.adata@, g),
            strings.wf(),
            table_extends(t_fun, strings@),
            na == unit.adata@.len(),
            lookup@.len() == na,
            forall|i: int|
                0 <= i < lookup@.len() ==> den_ir(#[trigger] lookup@[i], strings@) == pool[i]
                    && wf_ir_tv(lookup@[i], strings@.len() as int),
            nc == unit.classes@.len(),
            ir_classes@.len() == nc,
            ci2 <= nc,
            forall|i: int|
                ci2 <= i < nc ==> crate::ir_unit::wf_class_ir(
                    #[trigger] ir_classes@[i],
                    strings@.len() as int,
                ) && container_matches(ir_classes@[i], unit.classes@[i], strings@, g),
            forall|i: int|
                0 <= i < ci2 ==> crate::ir_unit::wf_class_ir(
                    #[trigger] ir_classes@[i],
                    strings@.len() as int,
                ) && crate::ir_unit::class_den_ir(ir_classes@[i], strings@)
                    == crate::unit::class_den_bc(unit.classes@[i], g, pool),
            nf == unit.functions@.len(),
            functions@.len() == nf,
            forall|i: int|
                0 <= i < nf ==> crate::ir_unit::wf_function_ir(
                    #[trigger] functions@[i],
                    strings@.len() as int,
                ) && crate::ir_unit::func_den_ir(functions@[i], strings@)
                    == crate::unit::func_den_bc(unit.functions@[i], g, pool),
        decreases nc - ci2,
    {
        let ghost t1 = strings@;
        let src_class = &unit.classes[ci2];
        let nm = src_class.methods.len();
        let mut ms: Vec<crate::ir_unit::IrMethod> = Vec::new();
        let mut mi: usize = 0;
        while mi < nm
            invariant
                globals.wf(),
                g == globals@,
                crate::unit::wf_unit_bc(*unit, g),
                pool == crate::unit::pool_den_bc(unit.adata@, g),
                strings.wf(),
                table_extends(t1, strings@),
                na == unit.adata@.len(),
                lookup@.len() == na,
                forall|i: int|
                    0 <= i < lookup@.len() ==> den_ir(#[trigger] lookup@[i], strings@) == pool[i]
                        && wf_ir_tv(lookup@[i], strings@.len() as int),
                nc == unit.classes@.len(),
                ci2 < nc,
                src_class == &unit.classes[ci2 as int],
                nm == src_class.methods@.len(),
                mi <= nm,
                ms@.len() == mi,
                forall|i: int|
                    0 <= i < mi ==> crate::ir_unit::wf_method_ir(
                        #[trigger] ms@[i],
                        strings@.len() as int,
                    ) && crate::ir_unit::meth_den_ir(ms@[i], strings@)
                        == crate::unit::meth_den_bc(src_class.methods@[i], g, pool),
            decreases nm - mi,
        {
            let ghost t2 = strings@;
            proof {
                assert(crate::unit::wf_class_bc(
                    unit.classes@[ci2 as int],
                    g,
                    unit.adata@.len() as int,
                ));
                assert(crate::unit::wf_method_bc(
                    src_class.methods@[mi as int],
                    g,
                    unit.adata@.len() as int,
                ));
                assert(crate::unit::wf_method_bc(
                    src_class.methods@[mi as int],
                    Seq::<Seq<u8>>::empty(),
                    lookup@.len() as int,
                ));
            }
            let m = convert_method_bc(&src_class.methods[mi], &lookup, Ghost(pool), &mut strings);
            proof {
                let t3 = strings@;
                assert forall|i: int| 0 <= i < mi implies crate::ir_unit::wf_method_ir(
                    #[trigger] ms@[i],
                    t3.len() as int,
                ) && crate::ir_unit::meth_den_ir(ms@[i], t3) == crate::unit::meth_den_bc(
                    src_class.methods@[i],
                    g,
                    pool,
                ) by {
                    crate::ir_unit::lemma_meth_den_ir_extends(ms@[i], t2, t3);
                }
                assert forall|i: int| 0 <= i < lookup@.len() implies den_ir(
                    #[trigger] lookup@[i],
                    t3,
                ) == pool[i] && wf_ir_tv(lookup@[i], t3.len() as int) by {
                    lemma_den_ir_extends(lookup@[i], t2, t3);
                    lemma_wf_ir_tv_mono(lookup@[i], t2.len() as int, t3.len() as int);
                }
                assert(crate::unit::meth_den_bc(src_class.methods@[mi as int], Seq::<Seq<u8>>::empty(), pool)
                    == crate::unit::meth_den_bc(src_class.methods@[mi as int], g, pool));
                crate::typed_value::lemma_table_extends_trans(t1, t2, t3);
            }
            ms.push(m);
            mi += 1;
        }
        let ghost t4 = strings@;
        let ghost pre_classes = ir_classes@;
        let c_ref = vstd::std_specs::vec::vec_index_mut(&mut ir_classes, ci2);
        c_ref.methods = ms;
        proof {
            let t5 = strings@;
            assert(t5 == t4);
            let updated = ir_classes@[ci2 as int];
            assert(ir_classes@ == pre_classes.update(ci2 as int, updated));
            assert forall|i: int|
                ci2 + 1 <= i < nc implies crate::ir_unit::wf_class_ir(
                #[trigger] ir_classes@[i],
                t5.len() as int,
            ) && container_matches(ir_classes@[i], unit.classes@[i], t5, g) by {
                assert(ir_classes@[i] == pre_classes[i]);
                crate::ir_unit::lemma_class_den_ir_extends(pre_classes[i], t1, t5);
            }
            assert forall|i: int|
                0 <= i < ci2 implies crate::ir_unit::wf_class_ir(
                #[trigger] ir_classes@[i],
                t5.len() as int,
            ) && crate::ir_unit::class_den_ir(ir_classes@[i], t5) == crate::unit::class_den_bc(
                unit.classes@[i],
                g,
                pool,
            ) by {
                assert(ir_classes@[i] == pre_classes[i]);
                crate::ir_unit::lemma_class_den_ir_extends(pre_classes[i], t1, t5);
            }
            // The freshly completed class now denotes the source class.
            crate::ir_unit::lemma_class_den_ir_extends(pre_classes[ci2 as int], t1, t5);
            assert(updated.methods@.map_values(
                |m: crate::ir_unit::IrMethod| crate::ir_unit::meth_den_ir(m, t5),
            ) =~= unit.classes@[ci2 as int].methods@.map_values(
                |m: crate::unit::Method| crate::unit::meth_den_bc(m, g, pool),
            ));
            assert(updated.attributes@.map_values(|x: IrAttribute| attr_den_ir(x, t5))
                == pre_classes[ci2 as int].attributes@.map_values(
                |x: IrAttribute| attr_den_ir(x, t5),
            ));
            assert(crate::ir_unit::class_den_ir(updated, t5) == crate::unit::class_den_bc(
                unit.classes@[ci2 as int],
                g,
                pool,
            ));
            assert forall|i: int|
                0 <= i < updated.methods@.len() implies crate::ir_unit::wf_method_ir(
                #[trigger] updated.methods@[i],
                t5.len() as int,
            ) by {}
            assert(crate::ir_unit::wf_class_ir(updated, t5.len() as int));
            assert forall|i: int| 0 <= i < nf implies crate::ir_unit::wf_function_ir(
                #[trigger] functions@[i],
                t5.len() as int,
            ) && crate::ir_unit::func_den_ir(functions@[i], t5) == crate::unit::func_den_bc(
                unit.functions@[i],
                g,
                pool,
            ) by {
                crate::ir_unit::lemma_func_den_ir_extends(functions@[i], t1, t5);
            }
            crate::typed_value::lemma_table_extends_trans(t_fun, t1, t5);
        }
        ci2 += 1;
    }
    let ghost t_end = strings@;

    // The terminal fatal record, copied structurally unchanged.
    let fatal = match &unit.fatal {
        Some(f) => Some(clone_fatal(f)),
        Option::None => Option::None,
    };

    let r = crate::ir_unit::IrUnit {
        strings,
        classes: ir_classes,
        constants,
        fatal,
        file_attributes,
        functions,
        module_use,
        modules,
        symbol_refs,
        typedefs,
    };
    proof {
        crate::typed_value::lemma_table_extends_trans(t_a, t_cls, t_fun);
        crate::typed_value::lemma_table_extends_trans(t_a, t_fun, t_end);
        crate::typed_value::lemma_table_extends_trans(t_b, t_c, t_d);
        crate::typed_value::lemma_table_extends_trans(t_b, t_d, t_e);
        crate::typed_value::lemma_table_extends_trans(t_b, t_e, t_f);
        crate::typed_value::lemma_table_extends_trans(t_b, t_f, t_cls);
        crate::typed_value::lemma_table_extends_trans(t_b, t_cls, t_fun);
        crate::typed_value::lemma_table_extends_trans(t_b, t_fun, t_end);
        crate::typed_value::lemma_table_extends_trans(t_c, t_d, t_e);
        crate::typed_value::lemma_table_extends_trans(t_c, t_e, t_f);
        crate::typed_value::lemma_table_extends_trans(t_c, t_f, t_cls);
        crate::typed_value::lemma_table_extends_trans(t_c, t_cls, t_fun);
        crate::typed_value::lemma_table_extends_trans(t_c, t_fun, t_end);
        crate::typed_value::lemma_table_extends_trans(t_d, t_e, t_f);
        crate::typed_value::lemma_table_extends_trans(t_d, t_f, t_cls);
        crate::typed_value::lemma_table_extends_trans(t_d, t_cls, t_fun);
        crate::typed_value::lemma_table_extends_trans(t_d, t_fun, t_end);
        crate::typed_value::lemma_table_extends_trans(t_e, t_f, t_cls);
        crate::typed_value::lemma_table_extends_trans(t_e, t_cls, t_fun);
        crate::typed_value::lemma_table_extends_trans(t_e, t_fun, t_end);
        crate::typed_value::lemma_table_extends_trans(t_f, t_cls, t_fun);
        crate::typed_value::lemma_table_extends_trans(t_f, t_fun, t_end);

        // Refresh the early fields to the final table.
        assert forall|i: int| 0 <= i < r.constants@.len() implies wf_const_ir(
            #[trigger] r.constants@[i],
            t_end.len() as int,
        ) && const_den_ir(r.constants@[i], t_end) == const_den_bc(
            unit.constants@[i],
            g,
        ) by {
            crate::ir_unit::lemma_const_den_ir_extends(r.constants@[i], t_b, t_end);
        }
        assert forall|i: int| 0 <= i < r.file_attributes@.len() implies wf_attr_ir(
            #[trigger] r.file_attributes@[i],
            t_end.len() as int,
        ) && attr_den_ir(r.file_attributes@[i], t_end) == attr_den_bc(
            unit.file_attributes@[i],
            g,
        ) by {
            lemma_attr_den_ir_extends(r.file_attributes@[i], t_c, t_end);
        }
        assert forall|i: int| 0 <= i < r.modules@.len() implies crate::ir_unit::wf_module_ir(
            #[trigger] r.modules@[i],
            t_end.len() as int,
        ) && crate::ir_unit::module_den_ir(r.modules@[i], t_end) == crate::unit::module_den_bc(
            unit.modules@[i],
            g,
        ) by {
            crate::ir_unit::lemma_module_den_ir_extends(r.modules@[i], t_d, t_end);
        }
        assert forall|i: int| 0 <= i < r.typedefs@.len() implies crate::ir_unit::wf_typedef_ir(
            #[trigger] r.typedefs@[i],
            t_end.len() as int,
        ) && crate::ir_unit::typedef_den_ir(r.typedefs@[i], t_end)
            == crate::unit::typedef_den_bc(unit.typedefs@[i], g) by {
            crate::ir_unit::lemma_typedef_den_ir_extends(r.typedefs@[i], t_e, t_end);
        }
        if unit.module_use is Some {
            assert(t_f[r.module_use.unwrap().0 as int] == unit.module_use.unwrap()@);
            assert(t_end[r.module_use.unwrap().0 as int] == unit.module_use.unwrap()@);
        }

        // Assemble the unit denotation, field by field.
        assert(r.functions@.map_values(
            |f: crate::ir_unit::IrFunction| crate::ir_unit::func_den_ir(f, t_end),
        ) =~= unit.functions@.map_values(
            |f: crate::unit::Function| crate::unit::func_den_bc(f, g, pool),
        ));
        assert(r.classes@.map_values(
            |c: crate::ir_unit::IrClass| crate::ir_unit::class_den_ir(c, t_end),
        ) =~= unit.classes@.map_values(
            |c: crate::unit::Class| crate::unit::class_den_bc(c, g, pool),
        ));
        assert(r.constants@.map_values(|k: IrConstant| const_den_ir(k, t_end))
            =~= unit.constants@.map_values(|k: Constant| const_den_bc(k, g)));
        assert(r.modules@.map_values(
            |m: crate::ir_unit::IrModule| crate::ir_unit::module_den_ir(m, t_end),
        ) =~= unit.modules@.map_values(
            |m: crate::unit::Module| crate::unit::module_den_bc(m, g),
        ));
        assert(r.typedefs@.map_values(
            |d: crate::ir_unit::IrTypedef| crate::ir_unit::typedef_den_ir(d, t_end),
        ) =~= unit.typedefs@.map_values(
            |d: crate::unit::Typedef| crate::unit::typedef_den_bc(d, g),
        ));
        assert(r.file_attributes@.map_values(|x: IrAttribute| attr_den_ir(x, t_end))
            =~= unit.file_attributes@.map_values(|a: Attribute| attr_den_bc(a, g)));
        assert(crate::ir_unit::unit_den_ir(r) == crate::unit::unit_den_bc(*unit, g));
    }
    r
}

} // verus!
