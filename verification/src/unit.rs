//! The persisted compilation unit: the cross-boundary artifact whose field
//! set and ordering must be preserved exactly, together with its spec-level
//! denotation (every interned name resolved to bytes, every pooled constant
//! inlined) against which the converters are verified.

use vstd::prelude::*;

use crate::adata::AdataId;
use crate::names::ClassName;
use crate::names::ConstName;
use crate::names::FunctionName;
use crate::names::MethodName;
use crate::names::ModuleName;
use crate::names::PropName;
use crate::typed_value::den_bc;
use crate::typed_value::den_keys_ok;
use crate::typed_value::den_names_utf8;
use crate::typed_value::lemma_den_bc_extends;
use crate::typed_value::lemma_wf_bc_tv_mono;
use crate::typed_value::table_extends;
use crate::typed_value::wf_bc_tv;
use crate::typed_value::TvDen;
use crate::typed_value::TypedValue;
use crate::utf8::is_utf8;

verus! {

/// The operation kind of a terminal compile-error record.
#[derive(Copy, Clone, Debug, PartialEq, Eq, Structural)]
pub enum FatalOp {
    Parse,
    Runtime,
    RuntimeOmitFrame,
}

/// A source location: begin and end line and column.
#[derive(Copy, Clone, Debug, PartialEq, Eq, Structural)]
pub struct SrcLoc {
    pub line_begin: i32,
    pub col_begin: i32,
    pub line_end: i32,
    pub col_end: i32,
}

/// A line span.
#[derive(Copy, Clone, Debug, PartialEq, Eq, Structural)]
pub struct Span {
    pub line_begin: i32,
    pub line_end: i32,
}

/// A terminal compile-error descriptor, attached to a unit in place of
/// executable bodies.
pub struct Fatal {
    pub op: FatalOp,
    pub loc: SrcLoc,
    pub message: Vec<u8>,
}

/// The symbol-reference table.  Both domains use this one type, so the
/// converter copies it structurally.
pub struct SymbolRefs {
    pub classes: Vec<ClassName>,
    pub constants: Vec<ConstName>,
    pub functions: Vec<FunctionName>,
    pub includes: Vec<Vec<u8>>,
}

/// An attribute: a class name with constant arguments.
pub struct Attribute {
    pub name: ClassName,
    pub arguments: Vec<TypedValue>,
}

/// A named top-level or class-level constant.
pub struct Constant {
    pub name: ConstName,
    pub value: Option<TypedValue>,
    pub attrs: u32,
}

/// A type alias definition.
pub struct Typedef {
    pub name: ClassName,
    pub attributes: Vec<Attribute>,
    pub type_structure: TypedValue,
    pub case_type: bool,
}

/// A module declaration.
pub struct Module {
    pub attributes: Vec<Attribute>,
    pub name: ModuleName,
    pub span: Span,
    pub doc_comment: Option<Vec<u8>>,
}

/// One declared parameter.  Both domains use this one type.
#[derive(Clone)]
pub struct Param {
    pub name: Vec<u8>,
    pub is_variadic: bool,
    pub is_inout: bool,
}

/// A function or method body in the persisted domain: its parameters and
/// the adata-pool ids its instructions reference.
pub struct Body {
    pub params: Vec<Param>,
    pub adata_refs: Vec<AdataId>,
}

/// The packed boolean properties of a function.
#[derive(Copy, Clone, Debug, PartialEq, Eq, Structural)]
pub struct FunctionFlags {
    pub bits: u8,
}

impl FunctionFlags {
    pub open spec fn spec_is_async(self) -> bool {
        self.bits & 1 != 0
    }

    pub open spec fn spec_is_generator(self) -> bool {
        self.bits & 2 != 0
    }

    pub open spec fn spec_is_pair_generator(self) -> bool {
        self.bits & 4 != 0
    }

    pub open spec fn spec_is_memoize_impl(self) -> bool {
        self.bits & 8 != 0
    }

    pub fn empty() -> (r: FunctionFlags)
        ensures
            r.bits == 0,
    {
        FunctionFlags { bits: 0 }
    }
}

/// A top-level function.
pub struct Function {
    pub attributes: Vec<Attribute>,
    pub name: FunctionName,
    pub body: Body,
    pub flags: FunctionFlags,
    pub attrs: u32,
}

impl Function {
    pub fn is_async(&self) -> (r: bool)
        ensures
            r == self.flags.spec_is_async(),
    {
        self.flags.bits & 1 != 0
    }

    pub fn is_generator(&self) -> (r: bool)
        ensures
            r == self.flags.spec_is_generator(),
    {
        self.flags.bits & 2 != 0
    }

    pub fn is_pair_generator(&self) -> (r: bool)
        ensures
            r == self.flags.spec_is_pair_generator(),
    {
        self.flags.bits & 4 != 0
    }

    pub fn is_memoize_impl(&self) -> (r: bool)
        ensures
            r == self.flags.spec_is_memoize_impl(),
    {
        self.flags.bits & 8 != 0
    }

    pub fn params(&self) -> (r: &Vec<Param>)
        ensures
            r@ == self.body.params@,
    {
        &self.body.params
    }
}

/// A declared property of a class.
pub struct Property {
    pub name: PropName,
    pub initial_value: Option<TypedValue>,
    pub attrs: u32,
}

/// A method of a class.
pub struct Method {
    pub name: MethodName,
    pub body: Body,
    pub flags: FunctionFlags,
    pub attrs: u32,
}

/// A class: its signature, properties, class-level constants and methods.
pub struct Class {
    pub attributes: Vec<Attribute>,
    pub name: ClassName,
    pub properties: Vec<Property>,
    pub constants: Vec<Constant>,
    pub methods: Vec<Method>,
    pub attrs: u32,
}

/// The persisted compilation unit.
pub struct Unit {
    pub adata: Vec<TypedValue>,
    pub functions: Vec<Function>,
    pub classes: Vec<Class>,
    pub modules: Vec<Module>,
    pub typedefs: Vec<Typedef>,
    pub file_attributes: Vec<Attribute>,
    pub module_use: Option<ModuleName>,
    pub symbol_refs: SymbolRefs,
    pub constants: Vec<Constant>,
    pub fatal: Option<Fatal>,
    pub missing_symbols: Vec<Vec<u8>>,
    pub error_symbols: Vec<Vec<u8>>,
    pub valid_utf8: bool,
    pub invalid_utf8_offset: usize,
}

// ---------------------------------------------------------------------------
// Denotations: the unit with every name resolved and every pooled constant
// inlined.  Two units converting to the same denotation are semantically
// equivalent, whatever their interners and adata pools look like.
// ---------------------------------------------------------------------------
pub struct ParamDen {
    pub name: Seq<u8>,
    pub is_variadic: bool,
    pub is_inout: bool,
}

pub struct AttrDen {
    pub name: Seq<u8>,
    pub arguments: Seq<TvDen>,
}

pub struct ConstDen {
    pub name: Seq<u8>,
    pub value: Option<TvDen>,
    pub attrs: u32,
}

pub struct TypedefDen {
    pub name: Seq<u8>,
    pub attributes: Seq<AttrDen>,
    pub type_structure: TvDen,
    pub case_type: bool,
}

pub struct ModuleDen {
    pub attributes: Seq<AttrDen>,
    pub name: Seq<u8>,
    pub line_begin: i32,
    pub line_end: i32,
    pub doc_comment: Option<Seq<u8>>,
}

pub struct FatalDen {
    pub op: FatalOp,
    pub loc: SrcLoc,
    pub message: Seq<u8>,
}

pub struct SymRefsDen {
    pub classes: Seq<Seq<u8>>,
    pub constants: Seq<Seq<u8>>,
    pub functions: Seq<Seq<u8>>,
    pub includes: Seq<Seq<u8>>,
}

pub struct BodyDen {
    pub params: Seq<ParamDen>,
    pub constants: Seq<TvDen>,
}

pub struct FuncDen {
    pub attributes: Seq<AttrDen>,
    pub name: Seq<u8>,
    pub body: BodyDen,
    pub flags: u8,
    pub attrs: u32,
}

pub struct PropDen {
    pub name: Seq<u8>,
    pub initial_value: Option<TvDen>,
    pub attrs: u32,
}

pub struct MethDen {
    pub name: Seq<u8>,
    pub body: BodyDen,
    pub flags: u8,
    pub attrs: u32,
}

pub struct ClassDen {
    pub attributes: Seq<AttrDen>,
    pub name: Seq<u8>,
    pub properties: Seq<PropDen>,
    pub constants: Seq<ConstDen>,
    pub methods: Seq<MethDen>,
    pub attrs: u32,
}

pub struct UnitDen {
    pub functions: Seq<FuncDen>,
    pub classes: Seq<ClassDen>,
    pub constants: Seq<ConstDen>,
    pub modules: Seq<ModuleDen>,
    pub typedefs: Seq<TypedefDen>,
    pub file_attributes: Seq<AttrDen>,
    pub module_use: Option<Seq<u8>>,
    pub symbol_refs: SymRefsDen,
    pub fatal: Option<FatalDen>,
}

/// The denotations of the unit's adata pool entries, in pool order.
pub open spec fn pool_den_bc(adata: Seq<TypedValue>, g: Seq<Seq<u8>>) -> Seq<TvDen> {
    adata.map_values(|tv: TypedValue| den_bc(tv, g))
}

pub open spec fn param_den(p: Param) -> ParamDen {
    ParamDen { name: p.name@, is_variadic: p.is_variadic, is_inout: p.is_inout }
}

pub open spec fn attr_den_bc(a: Attribute, g: Seq<Seq<u8>>) -> AttrDen {
    AttrDen {
        name: a.name@,
        arguments: a.arguments@.map_values(|tv: TypedValue| den_bc(tv, g)),
    }
}

pub open spec fn const_den_bc(c: Constant, g: Seq<Seq<u8>>) -> ConstDen {
    ConstDen {
        name: c.name@,
        value: match c.value {
            Some(tv) => Some(den_bc(tv, g)),
            None => None,
        },
        attrs: c.attrs,
    }
}

pub open spec fn typedef_den_bc(t: Typedef, g: Seq<Seq<u8>>) -> TypedefDen {
    TypedefDen {
        name: t.name@,
        attributes: t.attributes@.map_values(|a: Attribute| attr_den_bc(a, g)),
        type_structure: den_bc(t.type_structure, g),
        case_type: t.case_type,
    }
}

pub open spec fn module_den_bc(m: Module, g: Seq<Seq<u8>>) -> ModuleDen {
    ModuleDen {
        attributes: m.attributes@.map_values(|a: Attribute| attr_den_bc(a, g)),
        name: m.name@,
        line_begin: m.span.line_begin,
        line_end: m.span.line_end,
        doc_comment: match m.doc_comment {
            Some(d) => Some(d@),
            None => None,
        },
    }
}

pub open spec fn fatal_den(f: Fatal) -> FatalDen {
    FatalDen { op: f.op, loc: f.loc, message: f.message@ }
}

pub open spec fn sym_refs_den(s: SymbolRefs) -> SymRefsDen {
    SymRefsDen {
        classes: s.classes@.map_values(|n: ClassName| n@),
        constants: s.constants@.map_values(|n: ConstName| n@),
        functions: s.functions@.map_values(|n: FunctionName| n@),
        includes: s.includes@.map_values(|n: Vec<u8>| n@),
    }
}

/// The denotation of a persisted body: each referenced pool id replaced by
/// the denoted constant it names.
pub open spec fn body_den_bc(b: Body, pool: Seq<TvDen>) -> BodyDen {
    BodyDen {
        params: b.params@.map_values(|p: Param| param_den(p)),
        constants: b.adata_refs@.map_values(|id: AdataId| pool[id.spec_id() as int]),
    }
}

pub open spec fn func_den_bc(f: Function, g: Seq<Seq<u8>>, pool: Seq<TvDen>) -> FuncDen {
    FuncDen {
        attributes: f.attributes@.map_values(|a: Attribute| attr_den_bc(a, g)),
        name: f.name@,
        body: body_den_bc(f.body, pool),
        flags: f.flags.bits,
        attrs: f.attrs,
    }
}

pub open spec fn prop_den_bc(p: Property, g: Seq<Seq<u8>>) -> PropDen {
    PropDen {
        name: p.name@,
        initial_value: match p.initial_value {
            Some(tv) => Some(den_bc(tv, g)),
            None => None,
        },
        attrs: p.attrs,
    }
}

pub open spec fn meth_den_bc(m: Method, g: Seq<Seq<u8>>, pool: Seq<TvDen>) -> MethDen {
    MethDen {
        name: m.name@,
        body: body_den_bc(m.body, pool),
        flags: m.flags.bits,
        attrs: m.attrs,
    }
}

pub open spec fn class_den_bc(c: Class, g: Seq<Seq<u8>>, pool: Seq<TvDen>) -> ClassDen {
    ClassDen {
        attributes: c.attributes@.map_values(|a: Attribute| attr_den_bc(a, g)),
        name: c.name@,
        properties: c.properties@.map_values(|p: Property| prop_den_bc(p, g)),
        constants: c.constants@.map_values(|k: Constant| const_den_bc(k, g)),
        methods: c.methods@.map_values(|m: Method| meth_den_bc(m, g, pool)),
        attrs: c.attrs,
    }
}

/// The denotation of a whole persisted unit under interner table `g`.
pub open spec fn unit_den_bc(u: Unit, g: Seq<Seq<u8>>) -> UnitDen {
    let pool = pool_den_bc(u.adata@, g);
    UnitDen {
        functions: u.functions@.map_values(|f: Function| func_den_bc(f, g, pool)),
        classes: u.classes@.map_values(|c: Class| class_den_bc(c, g, pool)),
        constants: u.constants@.map_values(|k: Constant| const_den_bc(k, g)),
        modules: u.modules@.map_values(|m: Module| module_den_bc(m, g)),
        typedefs: u.typedefs@.map_values(|t: Typedef| typedef_den_bc(t, g)),
        file_attributes: u.file_attributes@.map_values(|a: Attribute| attr_den_bc(a, g)),
        module_use: match u.module_use {
            Some(n) => Some(n@),
            None => None,
        },
        symbol_refs: sym_refs_den(u.symbol_refs),
        fatal: match u.fatal {
            Some(f) => Some(fatal_den(f)),
            None => None,
        },
    }
}

// ---------------------------------------------------------------------------
// Well-formedness of a persisted unit.
// ---------------------------------------------------------------------------
/// A constant value that may cross domains: well-formed handles, well-shaped
/// keys, and text where text is required.
pub open spec fn wf_tv_full(tv: TypedValue, g: Seq<Seq<u8>>) -> bool {
    wf_bc_tv(tv, g.len() as int) && den_keys_ok(den_bc(tv, g)) && den_names_utf8(den_bc(tv, g))
}

pub open spec fn wf_attr_bc(a: Attribute, g: Seq<Seq<u8>>) -> bool {
    is_utf8(a.name@) && (forall|i: int|
        0 <= i < a.arguments@.len() ==> wf_tv_full(#[trigger] a.arguments@[i], g))
}

pub open spec fn wf_attrs_bc(attrs: Seq<Attribute>, g: Seq<Seq<u8>>) -> bool {
    forall|i: int| 0 <= i < attrs.len() ==> wf_attr_bc(#[trigger] attrs[i], g)
}

pub open spec fn wf_const_bc(c: Constant, g: Seq<Seq<u8>>) -> bool {
    is_utf8(c.name@) && (c.value matches Some(tv) ==> wf_tv_full(tv, g))
}

pub open spec fn wf_consts_bc(cs: Seq<Constant>, g: Seq<Seq<u8>>) -> bool {
    forall|i: int| 0 <= i < cs.len() ==> wf_const_bc(#[trigger] cs[i], g)
}

pub open spec fn wf_typedef_bc(t: Typedef, g: Seq<Seq<u8>>) -> bool {
    is_utf8(t.name@) && wf_attrs_bc(t.attributes@, g) && wf_tv_full(t.type_structure, g)
}

pub open spec fn wf_module_bc(m: Module, g: Seq<Seq<u8>>) -> bool {
    is_utf8(m.name@) && wf_attrs_bc(m.attributes@, g)
}

pub open spec fn wf_body_bc(b: Body, n_adata: int) -> bool {
    forall|i: int| 0 <= i < b.adata_refs@.len() ==> (#[trigger] b.adata_refs@[i]).spec_id() < n_adata
}

pub open spec fn wf_function_bc(f: Function, g: Seq<Seq<u8>>, n_adata: int) -> bool {
    is_utf8(f.name@) && wf_attrs_bc(f.attributes@, g) && wf_body_bc(f.body, n_adata)
}

pub open spec fn wf_prop_bc(p: Property, g: Seq<Seq<u8>>) -> bool {
    is_utf8(p.name@) && (p.initial_value matches Some(tv) ==> wf_tv_full(tv, g))
}

pub open spec fn wf_method_bc(m: Method, g: Seq<Seq<u8>>, n_adata: int) -> bool {
    wf_body_bc(m.body, n_adata)
}

pub open spec fn wf_class_bc(c: Class, g: Seq<Seq<u8>>, n_adata: int) -> bool {
    &&& is_utf8(c.name@)
    &&& wf_attrs_bc(c.attributes@, g)
    &&& forall|i: int| 0 <= i < c.properties@.len() ==> wf_prop_bc(#[trigger] c.properties@[i], g)
    &&& wf_consts_bc(c.constants@, g)
    &&& forall|i: int|
        0 <= i < c.methods@.len() ==> wf_method_bc(#[trigger] c.methods@[i], g, n_adata)
}

pub open spec fn wf_sym_refs(s: SymbolRefs) -> bool {
    &&& forall|i: int| 0 <= i < s.classes@.len() ==> is_utf8((#[trigger] s.classes@[i])@)
    &&& forall|i: int| 0 <= i < s.constants@.len() ==> is_utf8((#[trigger] s.constants@[i])@)
    &&& forall|i: int| 0 <= i < s.functions@.len() ==> is_utf8((#[trigger] s.functions@[i])@)
}

/// A well-formed persisted unit: every handle was issued by `g`, every
/// pooled-constant reference is in range, keys are well shaped and names
/// denote text wherever the domains require it.
pub open spec fn wf_unit_bc(u: Unit, g: Seq<Seq<u8>>) -> bool {
    let n_adata = u.adata@.len() as int;
    &&& forall|i: int| 0 <= i < u.adata@.len() ==> wf_tv_full(#[trigger] u.adata@[i], g)
    &&& forall|i: int|
        0 <= i < u.functions@.len() ==> wf_function_bc(#[trigger] u.functions@[i], g, n_adata)
    &&& forall|i: int|
        0 <= i < u.classes@.len() ==> wf_class_bc(#[trigger] u.classes@[i], g, n_adata)
    &&& forall|i: int| 0 <= i < u.modules@.len() ==> wf_module_bc(#[trigger] u.modules@[i], g)
    &&& forall|i: int| 0 <= i < u.typedefs@.len() ==> wf_typedef_bc(#[trigger] u.typedefs@[i], g)
    &&& wf_attrs_bc(u.file_attributes@, g)
    &&& (u.module_use matches Some(n) ==> is_utf8(n@))
    &&& wf_sym_refs(u.symbol_refs)
    &&& wf_consts_bc(u.constants@, g)
}


// ---------------------------------------------------------------------------
// Which denoted units can cross into the bytecode domain: every name that
// the destination requires to be text must denote text.
// ---------------------------------------------------------------------------
pub open spec fn attr_den_names_utf8(a: AttrDen) -> bool {
    is_utf8(a.name) && (forall|i: int|
        0 <= i < a.arguments.len() ==> den_names_utf8(#[trigger] a.arguments[i]))
}

pub open spec fn const_den_names_utf8(c: ConstDen) -> bool {
    is_utf8(c.name) && (c.value matches Some(d) ==> den_names_utf8(d))
}

pub open spec fn typedef_den_names_utf8(d: TypedefDen) -> bool {
    is_utf8(d.name) && den_names_utf8(d.type_structure) && (forall|i: int|
        0 <= i < d.attributes.len() ==> attr_den_names_utf8(#[trigger] d.attributes[i]))
}

pub open spec fn module_den_names_utf8(m: ModuleDen) -> bool {
    is_utf8(m.name) && (forall|i: int|
        0 <= i < m.attributes.len() ==> attr_den_names_utf8(#[trigger] m.attributes[i]))
}

pub open spec fn body_den_names_utf8(b: BodyDen) -> bool {
    forall|i: int| 0 <= i < b.constants.len() ==> den_names_utf8(#[trigger] b.constants[i])
}

pub open spec fn func_den_names_utf8(f: FuncDen) -> bool {
    &&& is_utf8(f.name)
    &&& body_den_names_utf8(f.body)
    &&& forall|i: int|
        0 <= i < f.attributes.len() ==> attr_den_names_utf8(#[trigger] f.attributes[i])
}

pub open spec fn prop_den_names_utf8(p: PropDen) -> bool {
    is_utf8(p.name) && (p.initial_value matches Some(d) ==> den_names_utf8(d))
}

pub open spec fn meth_den_names_utf8(m: MethDen) -> bool {
    body_den_names_utf8(m.body)
}

pub open spec fn class_den_names_utf8(c: ClassDen) -> bool {
    &&& is_utf8(c.name)
    &&& forall|i: int|
        0 <= i < c.attributes.len() ==> attr_den_names_utf8(#[trigger] c.attributes[i])
    &&& forall|i: int|
        0 <= i < c.properties.len() ==> prop_den_names_utf8(#[trigger] c.properties[i])
    &&& forall|i: int|
        0 <= i < c.constants.len() ==> const_den_names_utf8(#[trigger] c.constants[i])
    &&& forall|i: int| 0 <= i < c.methods.len() ==> meth_den_names_utf8(#[trigger] c.methods[i])
}

/// Every name of the denoted unit that the bytecode domain requires to be
/// text denotes valid text.  This is exactly when the IR-to-bytecode
/// conversion succeeds.
pub open spec fn unit_den_names_utf8(u: UnitDen) -> bool {
    &&& forall|i: int| 0 <= i < u.functions.len() ==> func_den_names_utf8(#[trigger] u.functions[i])
    &&& forall|i: int| 0 <= i < u.classes.len() ==> class_den_names_utf8(#[trigger] u.classes[i])
    &&& forall|i: int| 0 <= i < u.constants.len() ==> const_den_names_utf8(#[trigger] u.constants[i])
    &&& forall|i: int| 0 <= i < u.modules.len() ==> module_den_names_utf8(#[trigger] u.modules[i])
    &&& forall|i: int| 0 <= i < u.typedefs.len() ==> typedef_den_names_utf8(#[trigger] u.typedefs[i])
    &&& forall|i: int|
        0 <= i < u.file_attributes.len() ==> attr_den_names_utf8(#[trigger] u.file_attributes[i])
    &&& (u.module_use matches Some(n) ==> is_utf8(n))
}

// ---------------------------------------------------------------------------
// Stability: a persisted structure's denotation and well-formedness survive
// growing the bytecode interner.  Names are owned bytes, so only the typed
// constants inside depend on the table.
// ---------------------------------------------------------------------------
pub proof fn lemma_wf_tv_full_extends(tv: TypedValue, g1: Seq<Seq<u8>>, g2: Seq<Seq<u8>>)
    requires
        wf_tv_full(tv, g1),
        table_extends(g1, g2),
    ensures
        wf_tv_full(tv, g2),
        den_bc(tv, g2) == den_bc(tv, g1),
{
    lemma_den_bc_extends(tv, g1, g2);
    lemma_wf_bc_tv_mono(tv, g1.len() as int, g2.len() as int);
}

pub proof fn lemma_attr_den_bc_extends(a: Attribute, g1: Seq<Seq<u8>>, g2: Seq<Seq<u8>>)
    requires
        wf_attr_bc(a, g1),
        table_extends(g1, g2),
    ensures
        attr_den_bc(a, g2) == attr_den_bc(a, g1),
        wf_attr_bc(a, g2),
{
    assert forall|i: int| 0 <= i < a.arguments@.len() implies den_bc(
        #[trigger] a.arguments@[i],
        g2,
    ) == den_bc(a.arguments@[i], g1) && wf_tv_full(a.arguments@[i], g2) by {
        lemma_wf_tv_full_extends(a.arguments@[i], g1, g2);
    }
    assert(a.arguments@.map_values(|tv: TypedValue| den_bc(tv, g2)) =~= a.arguments@.map_values(
        |tv: TypedValue| den_bc(tv, g1),
    ));
}

pub proof fn lemma_const_den_bc_extends(c: Constant, g1: Seq<Seq<u8>>, g2: Seq<Seq<u8>>)
    requires
        wf_const_bc(c, g1),
        table_extends(g1, g2),
    ensures
        const_den_bc(c, g2) == const_den_bc(c, g1),
        wf_const_bc(c, g2),
{
    if c.value is Some {
        lemma_wf_tv_full_extends(c.value.unwrap(), g1, g2);
    }
}

pub proof fn lemma_typedef_den_bc_extends(d: Typedef, g1: Seq<Seq<u8>>, g2: Seq<Seq<u8>>)
    requires
        wf_typedef_bc(d, g1),
        table_extends(g1, g2),
    ensures
        typedef_den_bc(d, g2) == typedef_den_bc(d, g1),
        wf_typedef_bc(d, g2),
{
    assert forall|i: int| 0 <= i < d.attributes@.len() implies attr_den_bc(
        #[trigger] d.attributes@[i],
        g2,
    ) == attr_den_bc(d.attributes@[i], g1) && wf_attr_bc(d.attributes@[i], g2) by {
        lemma_attr_den_bc_extends(d.attributes@[i], g1, g2);
    }
    assert(d.attributes@.map_values(|a: Attribute| attr_den_bc(a, g2))
        =~= d.attributes@.map_values(|a: Attribute| attr_den_bc(a, g1)));
    lemma_wf_tv_full_extends(d.type_structure, g1, g2);
}

pub proof fn lemma_module_den_bc_extends(m: Module, g1: Seq<Seq<u8>>, g2: Seq<Seq<u8>>)
    requires
        wf_module_bc(m, g1),
        table_extends(g1, g2),
    ensures
        module_den_bc(m, g2) == module_den_bc(m, g1),
        wf_module_bc(m, g2),
{
    assert forall|i: int| 0 <= i < m.attributes@.len() implies attr_den_bc(
        #[trigger] m.attributes@[i],
        g2,
    ) == attr_den_bc(m.attributes@[i], g1) && wf_attr_bc(m.attributes@[i], g2) by {
        lemma_attr_den_bc_extends(m.attributes@[i], g1, g2);
    }
    assert(m.attributes@.map_values(|a: Attribute| attr_den_bc(a, g2))
        =~= m.attributes@.map_values(|a: Attribute| attr_den_bc(a, g1)));
}

pub proof fn lemma_prop_den_bc_extends(p: Property, g1: Seq<Seq<u8>>, g2: Seq<Seq<u8>>)
    requires
        wf_prop_bc(p, g1),
        table_extends(g1, g2),
    ensures
        prop_den_bc(p, g2) == prop_den_bc(p, g1),
        wf_prop_bc(p, g2),
{
    if p.initial_value is Some {
        lemma_wf_tv_full_extends(p.initial_value.unwrap(), g1, g2);
    }
}

/// A body's denotation depends only on the pool entries its references
/// name, so it survives growing the pool.
pub proof fn lemma_body_den_pool_extends(b: Body, p1: Seq<TvDen>, p2: Seq<TvDen>)
    requires
        wf_body_bc(b, p1.len() as int),
        p1.len() <= p2.len(),
        forall|i: int| 0 <= i < p1.len() ==> p2[i] == p1[i],
    ensures
        body_den_bc(b, p2) == body_den_bc(b, p1),
        wf_body_bc(b, p2.len() as int),
{
    assert(b.adata_refs@.map_values(|id: crate::adata::AdataId| p2[id.spec_id() as int])
        =~= b.adata_refs@.map_values(|id: crate::adata::AdataId| p1[id.spec_id() as int]));
}

pub proof fn lemma_func_den_bc_extends(
    f: Function,
    g1: Seq<Seq<u8>>,
    g2: Seq<Seq<u8>>,
    p1: Seq<TvDen>,
    p2: Seq<TvDen>,
)
    requires
        wf_function_bc(f, g1, p1.len() as int),
        table_extends(g1, g2),
        p1.len() <= p2.len(),
        forall|i: int| 0 <= i < p1.len() ==> p2[i] == p1[i],
    ensures
        func_den_bc(f, g2, p2) == func_den_bc(f, g1, p1),
        wf_function_bc(f, g2, p2.len() as int),
{
    assert forall|i: int| 0 <= i < f.attributes@.len() implies attr_den_bc(
        #[trigger] f.attributes@[i],
        g2,
    ) == attr_den_bc(f.attributes@[i], g1) && wf_attr_bc(f.attributes@[i], g2) by {
        lemma_attr_den_bc_extends(f.attributes@[i], g1, g2);
    }
    assert(f.attributes@.map_values(|a: Attribute| attr_den_bc(a, g2))
        =~= f.attributes@.map_values(|a: Attribute| attr_den_bc(a, g1)));
    lemma_body_den_pool_extends(f.body, p1, p2);
}

pub proof fn lemma_meth_den_bc_extends(
    m: Method,
    g1: Seq<Seq<u8>>,
    g2: Seq<Seq<u8>>,
    p1: Seq<TvDen>,
    p2: Seq<TvDen>,
)
    requires
        wf_method_bc(m, g1, p1.len() as int),
        table_extends(g1, g2),
        p1.len() <= p2.len(),
        forall|i: int| 0 <= i < p1.len() ==> p2[i] == p1[i],
    ensures
        meth_den_bc(m, g2, p2) == meth_den_bc(m, g1, p1),
        wf_method_bc(m, g2, p2.len() as int),
{
    lemma_body_den_pool_extends(m.body, p1, p2);
}

pub proof fn lemma_class_den_bc_extends(
    c: Class,
    g1: Seq<Seq<u8>>,
    g2: Seq<Seq<u8>>,
    p1: Seq<TvDen>,
    p2: Seq<TvDen>,
)
    requires
        wf_class_bc(c, g1, p1.len() as int),
        table_extends(g1, g2),
        p1.len() <= p2.len(),
        forall|i: int| 0 <= i < p1.len() ==> p2[i] == p1[i],
    ensures
        class_den_bc(c, g2, p2) == class_den_bc(c, g1, p1),
        wf_class_bc(c, g2, p2.len() as int),
{
    assert forall|i: int| 0 <= i < c.attributes@.len() implies attr_den_bc(
        #[trigger] c.attributes@[i],
        g2,
    ) == attr_den_bc(c.attributes@[i], g1) && wf_attr_bc(c.attributes@[i], g2) by {
        lemma_attr_den_bc_extends(c.attributes@[i], g1, g2);
    }
    assert(c.attributes@.map_values(|a: Attribute| attr_den_bc(a, g2))
        =~= c.attributes@.map_values(|a: Attribute| attr_den_bc(a, g1)));
    assert forall|i: int| 0 <= i < c.properties@.len() implies prop_den_bc(
        #[trigger] c.properties@[i],
        g2,
    ) == prop_den_bc(c.properties@[i], g1) && wf_prop_bc(c.properties@[i], g2) by {
        lemma_prop_den_bc_extends(c.properties@[i], g1, g2);
    }
    assert(c.properties@.map_values(|p: Property| prop_den_bc(p, g2))
        =~= c.properties@.map_values(|p: Property| prop_den_bc(p, g1)));
    assert forall|i: int| 0 <= i < c.constants@.len() implies const_den_bc(
        #[trigger] c.constants@[i],
        g2,
    ) == const_den_bc(c.constants@[i], g1) && wf_const_bc(c.constants@[i], g2) by {
        lemma_const_den_bc_extends(c.constants@[i], g1, g2);
    }
    assert(c.constants@.map_values(|k: Constant| const_den_bc(k, g2))
        =~= c.constants@.map_values(|k: Constant| const_den_bc(k, g1)));
    assert forall|i: int| 0 <= i < c.methods@.len() implies meth_den_bc(
        #[trigger] c.methods@[i],
        g2,
        p2,
    ) == meth_den_bc(c.methods@[i], g1, p1) && wf_method_bc(c.methods@[i], g2, p2.len() as int) by {
        lemma_meth_den_bc_extends(c.methods@[i], g1, g2, p1, p2);
    }
    assert(c.methods@.map_values(|m: Method| meth_den_bc(m, g2, p2)) =~= c.methods@.map_values(
        |m: Method| meth_den_bc(m, g1, p1),
    ));
}


// ---------------------------------------------------------------------------
// A well-formed persisted unit denotes a unit whose required names are all
// text, so converting it to the IR and back is owed to succeed.
// ---------------------------------------------------------------------------
proof fn lemma_attr_names_utf8(a: Attribute, g: Seq<Seq<u8>>)
    requires
        wf_attr_bc(a, g),
    ensures
        attr_den_names_utf8(attr_den_bc(a, g)),
{
    let d = attr_den_bc(a, g);
    assert forall|i: int| 0 <= i < d.arguments.len() implies den_names_utf8(
        #[trigger] d.arguments[i],
    ) by {
        assert(d.arguments[i] == den_bc(a.arguments@[i], g));
        assert(wf_tv_full(a.arguments@[i], g));
    }
}

proof fn lemma_const_names_utf8(c: Constant, g: Seq<Seq<u8>>)
    requires
        wf_const_bc(c, g),
    ensures
        const_den_names_utf8(const_den_bc(c, g)),
{
}

proof fn lemma_typedef_names_utf8(d: Typedef, g: Seq<Seq<u8>>)
    requires
        wf_typedef_bc(d, g),
    ensures
        typedef_den_names_utf8(typedef_den_bc(d, g)),
{
    let dd = typedef_den_bc(d, g);
    assert forall|i: int| 0 <= i < dd.attributes.len() implies attr_den_names_utf8(
        #[trigger] dd.attributes[i],
    ) by {
        assert(dd.attributes[i] == attr_den_bc(d.attributes@[i], g));
        lemma_attr_names_utf8(d.attributes@[i], g);
    }
}

proof fn lemma_module_names_utf8(m: Module, g: Seq<Seq<u8>>)
    requires
        wf_module_bc(m, g),
    ensures
        module_den_names_utf8(module_den_bc(m, g)),
{
    let md = module_den_bc(m, g);
    assert forall|i: int| 0 <= i < md.attributes.len() implies attr_den_names_utf8(
        #[trigger] md.attributes[i],
    ) by {
        assert(md.attributes[i] == attr_den_bc(m.attributes@[i], g));
        lemma_attr_names_utf8(m.attributes@[i], g);
    }
}

proof fn lemma_body_names_utf8(b: Body, pool: Seq<TvDen>)
    requires
        wf_body_bc(b, pool.len() as int),
        forall|k: int| 0 <= k < pool.len() ==> den_names_utf8(#[trigger] pool[k]),
    ensures
        body_den_names_utf8(body_den_bc(b, pool)),
{
    let bd = body_den_bc(b, pool);
    assert forall|i: int| 0 <= i < bd.constants.len() implies den_names_utf8(
        #[trigger] bd.constants[i],
    ) by {
        assert(bd.constants[i] == pool[b.adata_refs@[i].spec_id() as int]);
    }
}

proof fn lemma_func_names_utf8(f: Function, g: Seq<Seq<u8>>, pool: Seq<TvDen>)
    requires
        wf_function_bc(f, g, pool.len() as int),
        forall|k: int| 0 <= k < pool.len() ==> den_names_utf8(#[trigger] pool[k]),
    ensures
        func_den_names_utf8(func_den_bc(f, g, pool)),
{
    let fd = func_den_bc(f, g, pool);
    assert forall|i: int| 0 <= i < fd.attributes.len() implies attr_den_names_utf8(
        #[trigger] fd.attributes[i],
    ) by {
        assert(fd.attributes[i] == attr_den_bc(f.attributes@[i], g));
        lemma_attr_names_utf8(f.attributes@[i], g);
    }
    lemma_body_names_utf8(f.body, pool);
}

proof fn lemma_class_names_utf8(c: Class, g: Seq<Seq<u8>>, pool: Seq<TvDen>)
    requires
        wf_class_bc(c, g, pool.len() as int),
        forall|k: int| 0 <= k < pool.len() ==> den_names_utf8(#[trigger] pool[k]),
    ensures
        class_den_names_utf8(class_den_bc(c, g, pool)),
{
    let cd = class_den_bc(c, g, pool);
    assert forall|i: int| 0 <= i < cd.attributes.len() implies attr_den_names_utf8(
        #[trigger] cd.attributes[i],
    ) by {
        assert(cd.attributes[i] == attr_den_bc(c.attributes@[i], g));
        lemma_attr_names_utf8(c.attributes@[i], g);
    }
    assert forall|i: int| 0 <= i < cd.properties.len() implies prop_den_names_utf8(
        #[trigger] cd.properties[i],
    ) by {
        assert(cd.properties[i] == prop_den_bc(c.properties@[i], g));
        assert(wf_prop_bc(c.properties@[i], g));
    }
    assert forall|i: int| 0 <= i < cd.constants.len() implies const_den_names_utf8(
        #[trigger] cd.constants[i],
    ) by {
        assert(cd.constants[i] == const_den_bc(c.constants@[i], g));
        lemma_const_names_utf8(c.constants@[i], g);
    }
    assert forall|i: int| 0 <= i < cd.methods.len() implies meth_den_names_utf8(
        #[trigger] cd.methods[i],
    ) by {
        assert(cd.methods[i] == meth_den_bc(c.methods@[i], g, pool));
        assert(wf_method_bc(c.methods@[i], g, pool.len() as int));
        lemma_body_names_utf8(c.methods@[i].body, pool);
    }
}

/// Law: a well-formed persisted unit denotes a unit all of whose required
/// names are text; together with the converters' contracts this makes the
/// persisted-to-IR-to-persisted round trip total on well-formed units.
pub proof fn lemma_wf_unit_names_utf8(u: Unit, g: Seq<Seq<u8>>)
    requires
        wf_unit_bc(u, g),
    ensures
        unit_den_names_utf8(unit_den_bc(u, g)),
{
    let ud = unit_den_bc(u, g);
    let pool = pool_den_bc(u.adata@, g);
    assert forall|k: int| 0 <= k < pool.len() implies den_names_utf8(#[trigger] pool[k]) by {
        assert(pool[k] == den_bc(u.adata@[k], g));
        assert(wf_tv_full(u.adata@[k], g));
    }
    assert forall|i: int| 0 <= i < ud.functions.len() implies func_den_names_utf8(
        #[trigger] ud.functions[i],
    ) by {
        assert(ud.functions[i] == func_den_bc(u.functions@[i], g, pool));
        lemma_func_names_utf8(u.functions@[i], g, pool);
    }
    assert forall|i: int| 0 <= i < ud.classes.len() implies class_den_names_utf8(
        #[trigger] ud.classes[i],
    ) by {
        assert(ud.classes[i] == class_den_bc(u.classes@[i], g, pool));
        lemma_class_names_utf8(u.classes@[i], g, pool);
    }
    assert forall|i: int| 0 <= i < ud.constants.len() implies const_den_names_utf8(
        #[trigger] ud.constants[i],
    ) by {
        assert(ud.constants[i] == const_den_bc(u.constants@[i], g));
        lemma_const_names_utf8(u.constants@[i], g);
    }
    assert forall|i: int| 0 <= i < ud.modules.len() implies module_den_names_utf8(
        #[trigger] ud.modules[i],
    ) by {
        assert(ud.modules[i] == module_den_bc(u.modules@[i], g));
        lemma_module_names_utf8(u.modules@[i], g);
    }
    assert forall|i: int| 0 <= i < ud.typedefs.len() implies typedef_den_names_utf8(
        #[trigger] ud.typedefs[i],
    ) by {
        assert(ud.typedefs[i] == typedef_den_bc(u.typedefs@[i], g));
        lemma_typedef_names_utf8(u.typedefs@[i], g);
    }
    assert forall|i: int| 0 <= i < ud.file_attributes.len() implies attr_den_names_utf8(
        #[trigger] ud.file_attributes[i],
    ) by {
        assert(ud.file_attributes[i] == attr_den_bc(u.file_attributes@[i], g));
        lemma_attr_names_utf8(u.file_attributes@[i], g);
    }
}


/// No two pool entries denote the same constant: the pool deduplicates.
pub open spec fn pool_distinct(pool: Seq<TypedValue>, g: Seq<Seq<u8>>) -> bool {
    forall|i: int, j: int|
        0 <= i < j < pool.len() ==> den_bc(#[trigger] pool[i], g) != den_bc(#[trigger] pool[j], g)
}

/// Pool deduplication survives growing the interner: the entries keep their
/// denotations.
pub proof fn lemma_pool_distinct_extends(pool: Seq<TypedValue>, g1: Seq<Seq<u8>>, g2: Seq<Seq<u8>>)
    requires
        pool_distinct(pool, g1),
        forall|i: int| 0 <= i < pool.len() ==> wf_tv_full(#[trigger] pool[i], g1),
        table_extends(g1, g2),
    ensures
        pool_distinct(pool, g2),
{
    assert forall|i: int, j: int| 0 <= i < j < pool.len() implies den_bc(#[trigger] pool[i], g2)
        != den_bc(#[trigger] pool[j], g2) by {
        lemma_wf_tv_full_extends(pool[i], g1, g2);
        lemma_wf_tv_full_extends(pool[j], g1, g2);
    }
}

} // verus!
