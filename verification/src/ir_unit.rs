//! The IR compilation unit: the arena-scoped representation used by
//! transformation passes.  Names are handles into the unit's own interner;
//! each function carries its own constant pool instead of referencing a
//! shared adata pool.

use vstd::prelude::*;

use crate::interner::Interner;
use crate::interner::UnitBytesId;
use crate::typed_value::den_ir;
use crate::typed_value::lemma_den_ir_extends;
use crate::typed_value::lemma_wf_ir_tv_mono;
use crate::typed_value::table_extends;
use crate::typed_value::wf_ir_tv;
use crate::typed_value::IrTypedValue;
use crate::typed_value::TvDen;
use crate::unit::param_den;
use crate::unit::AttrDen;
use crate::unit::BodyDen;
use crate::unit::ClassDen;
use crate::unit::ConstDen;
use crate::unit::Fatal;
use crate::unit::FuncDen;
use crate::unit::FunctionFlags;
use crate::unit::MethDen;
use crate::unit::ModuleDen;
use crate::unit::Param;
use crate::unit::PropDen;
use crate::unit::SrcLoc;
use crate::unit::SymbolRefs;
use crate::unit::TypedefDen;
use crate::unit::UnitDen;
use crate::unit::fatal_den;
use crate::unit::sym_refs_den;

verus! {

/// An attribute in the IR domain.
pub struct IrAttribute {
    pub name: UnitBytesId,
    pub arguments: Vec<IrTypedValue>,
}

/// A named constant in the IR domain.
pub struct IrConstant {
    pub name: UnitBytesId,
    pub value: Option<IrTypedValue>,
    pub attrs: u32,
}

/// A type alias definition in the IR domain.
pub struct IrTypedef {
    pub name: UnitBytesId,
    pub attributes: Vec<IrAttribute>,
    pub type_structure: IrTypedValue,
    pub case_type: bool,
}

/// A module declaration in the IR domain.
pub struct IrModule {
    pub attributes: Vec<IrAttribute>,
    pub name: UnitBytesId,
    pub src_loc: SrcLoc,
    pub doc_comment: Option<Vec<u8>>,
}

/// A function or method body in the IR domain: its parameters and its own
/// pool of constants, referenced by index from the body's instructions.
pub struct IrBody {
    pub params: Vec<Param>,
    pub constants: Vec<IrTypedValue>,
}

/// A top-level function in the IR domain.
pub struct IrFunction {
    pub attributes: Vec<IrAttribute>,
    pub name: UnitBytesId,
    pub body: IrBody,
    pub flags: FunctionFlags,
    pub attrs: u32,
}

/// A declared property in the IR domain.
pub struct IrProperty {
    pub name: UnitBytesId,
    pub initial_value: Option<IrTypedValue>,
    pub attrs: u32,
}

/// A method in the IR domain, held by its owning class.
pub struct IrMethod {
    pub name: UnitBytesId,
    pub body: IrBody,
    pub flags: FunctionFlags,
    pub attrs: u32,
}

/// A class in the IR domain.
pub struct IrClass {
    pub attributes: Vec<IrAttribute>,
    pub name: UnitBytesId,
    pub properties: Vec<IrProperty>,
    pub constants: Vec<IrConstant>,
    pub methods: Vec<IrMethod>,
    pub attrs: u32,
}

/// The IR compilation unit, owning its interning domain.
pub struct IrUnit {
    pub strings: Interner,
    pub classes: Vec<IrClass>,
    pub constants: Vec<IrConstant>,
    pub fatal: Option<Fatal>,
    pub file_attributes: Vec<IrAttribute>,
    pub functions: Vec<IrFunction>,
    pub module_use: Option<UnitBytesId>,
    pub modules: Vec<IrModule>,
    pub symbol_refs: SymbolRefs,
    pub typedefs: Vec<IrTypedef>,
}

// ---------------------------------------------------------------------------
// Denotations under the IR interner table `t`.
// ---------------------------------------------------------------------------
pub open spec fn attr_den_ir(a: IrAttribute, t: Seq<Seq<u8>>) -> AttrDen {
    AttrDen {
        name: t[a.name.0 as int],
        arguments: a.arguments@.map_values(|tv: IrTypedValue| den_ir(tv, t)),
    }
}

pub open spec fn const_den_ir(c: IrConstant, t: Seq<Seq<u8>>) -> ConstDen {
    ConstDen {
        name: t[c.name.0 as int],
        value: match c.value {
            Some(tv) => Some(den_ir(tv, t)),
            None => None,
        },
        attrs: c.attrs,
    }
}

pub open spec fn typedef_den_ir(d: IrTypedef, t: Seq<Seq<u8>>) -> TypedefDen {
    TypedefDen {
        name: t[d.name.0 as int],
        attributes: d.attributes@.map_values(|a: IrAttribute| attr_den_ir(a, t)),
        type_structure: den_ir(d.type_structure, t),
        case_type: d.case_type,
    }
}

pub open spec fn module_den_ir(m: IrModule, t: Seq<Seq<u8>>) -> ModuleDen {
    ModuleDen {
        attributes: m.attributes@.map_values(|a: IrAttribute| attr_den_ir(a, t)),
        name: t[m.name.0 as int],
        line_begin: m.src_loc.line_begin,
        line_end: m.src_loc.line_end,
        doc_comment: match m.doc_comment {
            Some(d) => Some(d@),
            None => None,
        },
    }
}

pub open spec fn body_den_ir(b: IrBody, t: Seq<Seq<u8>>) -> BodyDen {
    BodyDen {
        params: b.params@.map_values(|p: Param| param_den(p)),
        constants: b.constants@.map_values(|tv: IrTypedValue| den_ir(tv, t)),
    }
}

pub open spec fn func_den_ir(f: IrFunction, t: Seq<Seq<u8>>) -> FuncDen {
    FuncDen {
        attributes: f.attributes@.map_values(|a: IrAttribute| attr_den_ir(a, t)),
        name: t[f.name.0 as int],
        body: body_den_ir(f.body, t),
        flags: f.flags.bits,
        attrs: f.attrs,
    }
}

pub open spec fn prop_den_ir(p: IrProperty, t: Seq<Seq<u8>>) -> PropDen {
    PropDen {
        name: t[p.name.0 as int],
        initial_value: match p.initial_value {
            Some(tv) => Some(den_ir(tv, t)),
            None => None,
        },
        attrs: p.attrs,
    }
}

pub open spec fn meth_den_ir(m: IrMethod, t: Seq<Seq<u8>>) -> MethDen {
    MethDen {
        name: t[m.name.0 as int],
        body: body_den_ir(m.body, t),
        flags: m.flags.bits,
        attrs: m.attrs,
    }
}

pub open spec fn class_den_ir(c: IrClass, t: Seq<Seq<u8>>) -> ClassDen {
    ClassDen {
        attributes: c.attributes@.map_values(|a: IrAttribute| attr_den_ir(a, t)),
        name: t[c.name.0 as int],
        properties: c.properties@.map_values(|p: IrProperty| prop_den_ir(p, t)),
        constants: c.constants@.map_values(|k: IrConstant| const_den_ir(k, t)),
        methods: c.methods@.map_values(|m: IrMethod| meth_den_ir(m, t)),
        attrs: c.attrs,
    }
}

/// The denotation of a whole IR unit under its own interner table.
pub open spec fn unit_den_ir(u: IrUnit) -> UnitDen {
    let t = u.strings@;
    UnitDen {
        functions: u.functions@.map_values(|f: IrFunction| func_den_ir(f, t)),
        classes: u.classes@.map_values(|c: IrClass| class_den_ir(c, t)),
        constants: u.constants@.map_values(|k: IrConstant| const_den_ir(k, t)),
        modules: u.modules@.map_values(|m: IrModule| module_den_ir(m, t)),
        typedefs: u.typedefs@.map_values(|d: IrTypedef| typedef_den_ir(d, t)),
        file_attributes: u.file_attributes@.map_values(|a: IrAttribute| attr_den_ir(a, t)),
        module_use: match u.module_use {
            Some(id) => Some(t[id.0 as int]),
            None => None,
        },
        symbol_refs: sym_refs_den(u.symbol_refs),
        fatal: match u.fatal {
            Some(f) => Some(fatal_den(f)),
            None => None,
        },
    }
}

// ---------------------------------------------------------------------------
// Well-formedness: every handle was issued by the unit's interner.
// ---------------------------------------------------------------------------
pub open spec fn wf_attr_ir(a: IrAttribute, tlen: int) -> bool {
    a.name.0 < tlen && (forall|i: int|
        0 <= i < a.arguments@.len() ==> wf_ir_tv(#[trigger] a.arguments@[i], tlen))
}

pub open spec fn wf_attrs_ir(attrs: Seq<IrAttribute>, tlen: int) -> bool {
    forall|i: int| 0 <= i < attrs.len() ==> wf_attr_ir(#[trigger] attrs[i], tlen)
}

pub open spec fn wf_const_ir(c: IrConstant, tlen: int) -> bool {
    c.name.0 < tlen && (c.value matches Some(tv) ==> wf_ir_tv(tv, tlen))
}

pub open spec fn wf_consts_ir(cs: Seq<IrConstant>, tlen: int) -> bool {
    forall|i: int| 0 <= i < cs.len() ==> wf_const_ir(#[trigger] cs[i], tlen)
}

pub open spec fn wf_typedef_ir(d: IrTypedef, tlen: int) -> bool {
    d.name.0 < tlen && wf_attrs_ir(d.attributes@, tlen) && wf_ir_tv(d.type_structure, tlen)
}

pub open spec fn wf_module_ir(m: IrModule, tlen: int) -> bool {
    m.name.0 < tlen && wf_attrs_ir(m.attributes@, tlen)
}

pub open spec fn wf_body_ir(b: IrBody, tlen: int) -> bool {
    forall|i: int| 0 <= i < b.constants@.len() ==> wf_ir_tv(#[trigger] b.constants@[i], tlen)
}

pub open spec fn wf_function_ir(f: IrFunction, tlen: int) -> bool {
    f.name.0 < tlen && wf_attrs_ir(f.attributes@, tlen) && wf_body_ir(f.body, tlen)
}

pub open spec fn wf_prop_ir(p: IrProperty, tlen: int) -> bool {
    p.name.0 < tlen && (p.initial_value matches Some(tv) ==> wf_ir_tv(tv, tlen))
}

pub open spec fn wf_method_ir(m: IrMethod, tlen: int) -> bool {
    m.name.0 < tlen && wf_body_ir(m.body, tlen)
}

pub open spec fn wf_class_ir(c: IrClass, tlen: int) -> bool {
    &&& c.name.0 < tlen
    &&& wf_attrs_ir(c.attributes@, tlen)
    &&& forall|i: int| 0 <= i < c.properties@.len() ==> wf_prop_ir(#[trigger] c.properties@[i], tlen)
    &&& wf_consts_ir(c.constants@, tlen)
    &&& forall|i: int| 0 <= i < c.methods@.len() ==> wf_method_ir(#[trigger] c.methods@[i], tlen)
}

/// A well-formed IR unit: a well-formed interner and handles it issued.
pub open spec fn wf_unit_ir(u: IrUnit) -> bool {
    let tlen = u.strings@.len() as int;
    &&& u.strings.wf()
    &&& crate::unit::wf_sym_refs(u.symbol_refs)
    &&& forall|i: int| 0 <= i < u.classes@.len() ==> wf_class_ir(#[trigger] u.classes@[i], tlen)
    &&& wf_consts_ir(u.constants@, tlen)
    &&& wf_attrs_ir(u.file_attributes@, tlen)
    &&& forall|i: int|
        0 <= i < u.functions@.len() ==> wf_function_ir(#[trigger] u.functions@[i], tlen)
    &&& (u.module_use matches Some(id) ==> id.0 < tlen)
    &&& forall|i: int| 0 <= i < u.modules@.len() ==> wf_module_ir(#[trigger] u.modules@[i], tlen)
    &&& forall|i: int| 0 <= i < u.typedefs@.len() ==> wf_typedef_ir(#[trigger] u.typedefs@[i], tlen)
}


// ---------------------------------------------------------------------------
// Stability: a well-formed structure's denotation and well-formedness
// survive growing the interner, since its handles keep naming the same
// bytes.
// ---------------------------------------------------------------------------
pub proof fn lemma_attr_den_ir_extends(a: IrAttribute, t1: Seq<Seq<u8>>, t2: Seq<Seq<u8>>)
    requires
        wf_attr_ir(a, t1.len() as int),
        table_extends(t1, t2),
    ensures
        attr_den_ir(a, t2) == attr_den_ir(a, t1),
        wf_attr_ir(a, t2.len() as int),
{
    assert forall|i: int| 0 <= i < a.arguments@.len() implies den_ir(
        #[trigger] a.arguments@[i],
        t2,
    ) == den_ir(a.arguments@[i], t1) && wf_ir_tv(a.arguments@[i], t2.len() as int) by {
        lemma_den_ir_extends(a.arguments@[i], t1, t2);
        lemma_wf_ir_tv_mono(a.arguments@[i], t1.len() as int, t2.len() as int);
    }
    assert(a.arguments@.map_values(|tv: IrTypedValue| den_ir(tv, t2)) =~= a.arguments@.map_values(
        |tv: IrTypedValue| den_ir(tv, t1),
    ));
}

pub proof fn lemma_const_den_ir_extends(c: IrConstant, t1: Seq<Seq<u8>>, t2: Seq<Seq<u8>>)
    requires
        wf_const_ir(c, t1.len() as int),
        table_extends(t1, t2),
    ensures
        const_den_ir(c, t2) == const_den_ir(c, t1),
        wf_const_ir(c, t2.len() as int),
{
    if c.value is Some {
        lemma_den_ir_extends(c.value.unwrap(), t1, t2);
        lemma_wf_ir_tv_mono(c.value.unwrap(), t1.len() as int, t2.len() as int);
    }
}

pub proof fn lemma_typedef_den_ir_extends(d: IrTypedef, t1: Seq<Seq<u8>>, t2: Seq<Seq<u8>>)
    requires
        wf_typedef_ir(d, t1.len() as int),
        table_extends(t1, t2),
    ensures
        typedef_den_ir(d, t2) == typedef_den_ir(d, t1),
        wf_typedef_ir(d, t2.len() as int),
{
    assert forall|i: int| 0 <= i < d.attributes@.len() implies attr_den_ir(
        #[trigger] d.attributes@[i],
        t2,
    ) == attr_den_ir(d.attributes@[i], t1) && wf_attr_ir(d.attributes@[i], t2.len() as int) by {
        lemma_attr_den_ir_extends(d.attributes@[i], t1, t2);
    }
    assert(d.attributes@.map_values(|a: IrAttribute| attr_den_ir(a, t2))
        =~= d.attributes@.map_values(|a: IrAttribute| attr_den_ir(a, t1)));
    lemma_den_ir_extends(d.type_structure, t1, t2);
    lemma_wf_ir_tv_mono(d.type_structure, t1.len() as int, t2.len() as int);
}

pub proof fn lemma_module_den_ir_extends(m: IrModule, t1: Seq<Seq<u8>>, t2: Seq<Seq<u8>>)
    requires
        wf_module_ir(m, t1.len() as int),
        table_extends(t1, t2),
    ensures
        module_den_ir(m, t2) == module_den_ir(m, t1),
        wf_module_ir(m, t2.len() as int),
{
    assert forall|i: int| 0 <= i < m.attributes@.len() implies attr_den_ir(
        #[trigger] m.attributes@[i],
        t2,
    ) == attr_den_ir(m.attributes@[i], t1) && wf_attr_ir(m.attributes@[i], t2.len() as int) by {
        lemma_attr_den_ir_extends(m.attributes@[i], t1, t2);
    }
    assert(m.attributes@.map_values(|a: IrAttribute| attr_den_ir(a, t2))
        =~= m.attributes@.map_values(|a: IrAttribute| attr_den_ir(a, t1)));
}

pub proof fn lemma_body_den_ir_extends(b: IrBody, t1: Seq<Seq<u8>>, t2: Seq<Seq<u8>>)
    requires
        wf_body_ir(b, t1.len() as int),
        table_extends(t1, t2),
    ensures
        body_den_ir(b, t2) == body_den_ir(b, t1),
        wf_body_ir(b, t2.len() as int),
{
    assert forall|i: int| 0 <= i < b.constants@.len() implies den_ir(
        #[trigger] b.constants@[i],
        t2,
    ) == den_ir(b.constants@[i], t1) && wf_ir_tv(b.constants@[i], t2.len() as int) by {
        lemma_den_ir_extends(b.constants@[i], t1, t2);
        lemma_wf_ir_tv_mono(b.constants@[i], t1.len() as int, t2.len() as int);
    }
    assert(b.constants@.map_values(|tv: IrTypedValue| den_ir(tv, t2)) =~= b.constants@.map_values(
        |tv: IrTypedValue| den_ir(tv, t1),
    ));
}

pub proof fn lemma_func_den_ir_extends(f: IrFunction, t1: Seq<Seq<u8>>, t2: Seq<Seq<u8>>)
    requires
        wf_function_ir(f, t1.len() as int),
        table_extends(t1, t2),
    ensures
        func_den_ir(f, t2) == func_den_ir(f, t1),
        wf_function_ir(f, t2.len() as int),
{
    assert forall|i: int| 0 <= i < f.attributes@.len() implies attr_den_ir(
        #[trigger] f.attributes@[i],
        t2,
    ) == attr_den_ir(f.attributes@[i], t1) && wf_attr_ir(f.attributes@[i], t2.len() as int) by {
        lemma_attr_den_ir_extends(f.attributes@[i], t1, t2);
    }
    assert(f.attributes@.map_values(|a: IrAttribute| attr_den_ir(a, t2))
        =~= f.attributes@.map_values(|a: IrAttribute| attr_den_ir(a, t1)));
    lemma_body_den_ir_extends(f.body, t1, t2);
}

pub proof fn lemma_prop_den_ir_extends(p: IrProperty, t1: Seq<Seq<u8>>, t2: Seq<Seq<u8>>)
    requires
        wf_prop_ir(p, t1.len() as int),
        table_extends(t1, t2),
    ensures
        prop_den_ir(p, t2) == prop_den_ir(p, t1),
        wf_prop_ir(p, t2.len() as int),
{
    if p.initial_value is Some {
        lemma_den_ir_extends(p.initial_value.unwrap(), t1, t2);
        lemma_wf_ir_tv_mono(p.initial_value.unwrap(), t1.len() as int, t2.len() as int);
    }
}

pub proof fn lemma_meth_den_ir_extends(m: IrMethod, t1: Seq<Seq<u8>>, t2: Seq<Seq<u8>>)
    requires
        wf_method_ir(m, t1.len() as int),
        table_extends(t1, t2),
    ensures
        meth_den_ir(m, t2) == meth_den_ir(m, t1),
        wf_method_ir(m, t2.len() as int),
{
    lemma_body_den_ir_extends(m.body, t1, t2);
}

pub proof fn lemma_class_den_ir_extends(c: IrClass, t1: Seq<Seq<u8>>, t2: Seq<Seq<u8>>)
    requires
        wf_class_ir(c, t1.len() as int),
        table_extends(t1, t2),
    ensures
        class_den_ir(c, t2) == class_den_ir(c, t1),
        wf_class_ir(c, t2.len() as int),
{
    assert forall|i: int| 0 <= i < c.attributes@.len() implies attr_den_ir(
        #[trigger] c.attributes@[i],
        t2,
    ) == attr_den_ir(c.attributes@[i], t1) && wf_attr_ir(c.attributes@[i], t2.len() as int) by {
        lemma_attr_den_ir_extends(c.attributes@[i], t1, t2);
    }
    assert(c.attributes@.map_values(|a: IrAttribute| attr_den_ir(a, t2))
        =~= c.attributes@.map_values(|a: IrAttribute| attr_den_ir(a, t1)));
    assert forall|i: int| 0 <= i < c.properties@.len() implies prop_den_ir(
        #[trigger] c.properties@[i],
        t2,
    ) == prop_den_ir(c.properties@[i], t1) && wf_prop_ir(c.properties@[i], t2.len() as int) by {
        lemma_prop_den_ir_extends(c.properties@[i], t1, t2);
    }
    assert(c.properties@.map_values(|p: IrProperty| prop_den_ir(p, t2))
        =~= c.properties@.map_values(|p: IrProperty| prop_den_ir(p, t1)));
    assert forall|i: int| 0 <= i < c.constants@.len() implies const_den_ir(
        #[trigger] c.constants@[i],
        t2,
    ) == const_den_ir(c.constants@[i], t1) && wf_const_ir(c.constants@[i], t2.len() as int) by {
        lemma_const_den_ir_extends(c.constants@[i], t1, t2);
    }
    assert(c.constants@.map_values(|k: IrConstant| const_den_ir(k, t2))
        =~= c.constants@.map_values(|k: IrConstant| const_den_ir(k, t1)));
    assert forall|i: int| 0 <= i < c.methods@.len() implies meth_den_ir(
        #[trigger] c.methods@[i],
        t2,
    ) == meth_den_ir(c.methods@[i], t1) && wf_method_ir(c.methods@[i], t2.len() as int) by {
        lemma_meth_den_ir_extends(c.methods@[i], t1, t2);
    }
    assert(c.methods@.map_values(|m: IrMethod| meth_den_ir(m, t2)) =~= c.methods@.map_values(
        |m: IrMethod| meth_den_ir(m, t1),
    ));
}


// ---------------------------------------------------------------------------
// How many pooled-constant ids a unit's bodies can demand.  A pool id is
// stored as 32 bits, so the converters carry this bound as a machine limit.
// ---------------------------------------------------------------------------
/// The pool demand of the first `n` methods: the sum of their bodies'
/// constant counts.
pub open spec fn methods_pool_demand(ms: Seq<IrMethod>, n: int) -> int
    decreases n,
{
    if n <= 0 {
        0
    } else {
        methods_pool_demand(ms, n - 1) + ms[n - 1].body.constants@.len()
    }
}

/// The pool demand of one class: what its methods' bodies demand.
pub open spec fn class_pool_demand(c: IrClass) -> int {
    methods_pool_demand(c.methods@, c.methods@.len() as int)
}

/// The pool demand of the first `n` classes.
pub open spec fn classes_pool_demand(cs: Seq<IrClass>, n: int) -> int
    decreases n,
{
    if n <= 0 {
        0
    } else {
        classes_pool_demand(cs, n - 1) + class_pool_demand(cs[n - 1])
    }
}

/// The pool demand of the first `n` functions.
pub open spec fn funcs_pool_demand(fs: Seq<IrFunction>, n: int) -> int
    decreases n,
{
    if n <= 0 {
        0
    } else {
        funcs_pool_demand(fs, n - 1) + fs[n - 1].body.constants@.len()
    }
}

/// The pool demand of a whole unit: what all its bodies demand together.
pub open spec fn unit_pool_demand(u: IrUnit) -> int {
    classes_pool_demand(u.classes@, u.classes@.len() as int) + funcs_pool_demand(
        u.functions@,
        u.functions@.len() as int,
    )
}

/// Demands grow with the prefix and are never negative.
pub proof fn lemma_methods_pool_demand_mono(ms: Seq<IrMethod>, i: int, j: int)
    requires
        0 <= i <= j,
    ensures
        methods_pool_demand(ms, i) <= methods_pool_demand(ms, j),
    decreases j,
{
    if j > i {
        lemma_methods_pool_demand_mono(ms, i, j - 1);
    }
}

/// Demands grow with the prefix and are never negative.
pub proof fn lemma_classes_pool_demand_mono(cs: Seq<IrClass>, i: int, j: int)
    requires
        0 <= i <= j,
    ensures
        classes_pool_demand(cs, i) <= classes_pool_demand(cs, j),
    decreases j,
{
    if j > i {
        lemma_classes_pool_demand_mono(cs, i, j - 1);
        lemma_methods_pool_demand_mono(cs[j - 1].methods@, 0, cs[j - 1].methods@.len() as int);
    }
}

/// Demands grow with the prefix and are never negative.
pub proof fn lemma_funcs_pool_demand_mono(fs: Seq<IrFunction>, i: int, j: int)
    requires
        0 <= i <= j,
    ensures
        funcs_pool_demand(fs, i) <= funcs_pool_demand(fs, j),
    decreases j,
{
    if j > i {
        lemma_funcs_pool_demand_mono(fs, i, j - 1);
    }
}

} // verus!
