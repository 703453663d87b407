//! Whole-unit conversion from the IR to the persisted representation.
//!
//! A fresh string bridging cache is scoped to the conversion; a staged
//! builder accumulates classes and functions and a deduplicating pool of
//! complex constants; classes convert before functions; the builder then
//! finalizes into a unit, whose remaining top-level fields convert
//! independently.  Any name whose bytes are not valid text where the
//! persisted representation requires text aborts the whole conversion: no
//! partial unit is ever returned.

use vstd::prelude::*;

use crate::adata::AdataId;
use crate::errors::ConvError;
use crate::interner::Interner;
use crate::strings::StringCache;
use crate::tv_convert::convert_typed_value;
use crate::tv_convert::tv_den_eq;
use crate::typed_value::den_bc;
use crate::typed_value::den_ir;
use crate::typed_value::den_names_utf8;
use crate::typed_value::lemma_den_ir_keys_ok;
use crate::typed_value::table_extends;
use crate::typed_value::wf_bc_tv;
use crate::typed_value::TypedValue;
use crate::unit::body_den_bc;
use crate::unit::lemma_wf_tv_full_extends;
use crate::unit::lemma_pool_distinct_extends;
use crate::unit::pool_den_bc;
use crate::unit::pool_distinct;
use crate::unit::wf_body_bc;
use crate::unit::wf_tv_full;
use crate::typed_value::lemma_table_extends_trans;
use crate::ir_unit::attr_den_ir;
use crate::ir_unit::const_den_ir;
use crate::ir_unit::module_den_ir;
use crate::ir_unit::prop_den_ir;
use crate::ir_unit::typedef_den_ir;
use crate::ir_unit::wf_attr_ir;
use crate::ir_unit::IrAttribute;
use crate::ir_unit::IrConstant;
use crate::ir_unit::IrModule;
use crate::ir_unit::IrProperty;
use crate::ir_unit::IrTypedef;
use crate::unit::attr_den_bc;
use crate::unit::attr_den_names_utf8;
use crate::unit::const_den_bc;
use crate::unit::const_den_names_utf8;
use crate::unit::lemma_attr_den_bc_extends;
use crate::unit::module_den_bc;
use crate::unit::module_den_names_utf8;
use crate::unit::prop_den_bc;
use crate::unit::prop_den_names_utf8;
use crate::unit::typedef_den_bc;
use crate::unit::typedef_den_names_utf8;
use crate::unit::wf_attr_bc;
use crate::unit::wf_const_bc;
use crate::unit::wf_module_bc;
use crate::unit::wf_prop_bc;
use crate::unit::wf_typedef_bc;
use crate::unit::Attribute;
use crate::unit::Body;
use crate::unit::Constant;
use crate::unit::Module;
use crate::unit::Property;
use crate::unit::Span;
use crate::unit::Typedef;

verus! {

/// The deduplicating pool of complex constants accumulated by the builder.
pub struct AdataCache {
    adata: Vec<TypedValue>,
}

impl View for AdataCache {
    type V = Seq<TypedValue>;

    closed spec fn view(&self) -> Seq<TypedValue> {
        self.adata@
    }
}

impl AdataCache {
    pub fn new() -> (r: AdataCache)
        ensures
            r@ =~= Seq::<TypedValue>::empty(),
    {
        AdataCache { adata: Vec::new() }
    }

    /// Intern a constant: return the id of the first entry with the same
    /// denotation, appending only when none exists.  A pool id is stored as
    /// 32 bits, so the pool must not already be past that range.
    pub fn intern(&mut self, tv: TypedValue, globals: &Interner) -> (r: AdataId)
        requires
            globals.wf(),
            wf_bc_tv(tv, globals@.len() as int),
            forall|i: int|
                0 <= i < old(self)@.len() ==> wf_bc_tv(
                    #[trigger] old(self)@[i],
                    globals@.len() as int,
                ),
            old(self)@.len() <= 0xFFFF_FFFF,
            pool_distinct(old(self)@, globals@),
        ensures
            pool_distinct(final(self)@, globals@),
            r.spec_id() < final(self)@.len(),
            den_bc(final(self)@[r.spec_id() as int], globals@) == den_bc(tv, globals@),
            (exists|i: int|
                0 <= i < old(self)@.len() && den_bc(#[trigger] old(self)@[i], globals@) == den_bc(
                    tv,
                    globals@,
                )) ==> final(self)@ == old(self)@,
            !(exists|i: int|
                0 <= i < old(self)@.len() && den_bc(#[trigger] old(self)@[i], globals@) == den_bc(
                    tv,
                    globals@,
                )) ==> final(self)@ == old(self)@.push(tv) && r.spec_id() == old(self)@.len(),
            forall|j: int|
                0 <= j < r.spec_id() ==> den_bc(#[trigger] final(self)@[j], globals@) != den_bc(
                    tv,
                    globals@,
                ),
    {
        let n = self.adata.len();
        let mut i: usize = 0;
        while i < n
            invariant
                *self == *old(self),
                globals.wf(),
                wf_bc_tv(tv, globals@.len() as int),
                forall|k: int|
                    0 <= k < self@.len() ==> wf_bc_tv(#[trigger] self@[k], globals@.len() as int),
                n == self@.len(),
                n <= 0xFFFF_FFFF,
                i <= n,
                pool_distinct(self@, globals@),
                forall|k: int|
                    0 <= k < i ==> den_bc(#[trigger] self@[k], globals@) != den_bc(tv, globals@),
            decreases n - i,
        {
            if tv_den_eq(&self.adata[i], &tv, globals) {
                return AdataId::new(i);
            }
            i += 1;
        }
        let ghost pre = self@;
        self.adata.push(tv);
        proof {
            assert(self@ =~= pre.push(tv));
        }
        AdataId::new(n)
    }

    /// Finalize the pool into the unit's adata table.
    pub fn finish(self) -> (r: Vec<TypedValue>)
        ensures
            r@ == self@,
    {
        self.adata
    }
}

/// Convert an IR body: copy the parameters and intern each of the body's
/// own constants into the shared deduplicating pool.
pub fn convert_body_ir(b: &crate::ir_unit::IrBody, sc: &mut StringCache, cache: &mut AdataCache)
    -> (r: Result<Body, ConvError>)
    requires
        old(sc).wf(),
        crate::ir_unit::wf_body_ir(*b, old(sc).ir_view().len() as int),
        forall|i: int|
            0 <= i < old(cache)@.len() ==> wf_tv_full(
                #[trigger] old(cache)@[i],
                old(sc).globals_view(),
            ),
        old(cache)@.len() + b.constants@.len() <= 0x1_0000_0000,
        pool_distinct(old(cache)@, old(sc).globals_view()),
    ensures
        pool_distinct(final(cache)@, final(sc).globals_view()),
        final(sc).wf(),
        final(sc).ir_view() == old(sc).ir_view(),
        table_extends(old(sc).globals_view(), final(sc).globals_view()),
        old(cache)@.len() <= final(cache)@.len(),
        final(cache)@.len() <= old(cache)@.len() + b.constants@.len(),
        forall|i: int| 0 <= i < old(cache)@.len() ==> final(cache)@[i] == old(cache)@[i],
        forall|i: int|
            0 <= i < final(cache)@.len() ==> wf_tv_full(
                #[trigger] final(cache)@[i],
                final(sc).globals_view(),
            ),
        (r is Ok) <==> crate::unit::body_den_names_utf8(
            crate::ir_unit::body_den_ir(*b, old(sc).ir_view()),
        ),
        r matches Ok(x) ==> wf_body_bc(x, final(cache)@.len() as int) && body_den_bc(
            x,
            pool_den_bc(final(cache)@, final(sc).globals_view()),
        ) == crate::ir_unit::body_den_ir(*b, old(sc).ir_view()),
    decreases b.constants@,
{
    let ghost t = old(sc).ir_view();
    let params = crate::bc_to_ir::clone_params(&b.params);
    let mut adata_refs: Vec<AdataId> = Vec::new();
    let n = b.constants.len();
    let mut j: usize = 0;
    while j < n
        invariant
            sc.wf(),
            sc.ir_view() == t,
            t == old(sc).ir_view(),
            table_extends(old(sc).globals_view(), sc.globals_view()),
            crate::ir_unit::wf_body_ir(*b, t.len() as int),
            old(cache)@.len() <= cache@.len(),
            cache@.len() <= old(cache)@.len() + j,
            old(cache)@.len() + n <= 0x1_0000_0000,
            forall|i: int| 0 <= i < old(cache)@.len() ==> cache@[i] == old(cache)@[i],
            pool_distinct(cache@, sc.globals_view()),
            forall|i: int|
                0 <= i < cache@.len() ==> wf_tv_full(#[trigger] cache@[i], sc.globals_view()),
            n == b.constants@.len(),
            j <= n,
            adata_refs@.len() == j,
            forall|i: int|
                0 <= i < j ==> (#[trigger] adata_refs@[i]).spec_id() < cache@.len() && den_bc(
                    cache@[adata_refs@[i].spec_id() as int],
                    sc.globals_view(),
                ) == den_ir(b.constants@[i], t),
            forall|i: int| 0 <= i < j ==> den_names_utf8(den_ir(#[trigger] b.constants@[i], t)),
        decreases n - j,
    {
        let ghost g1 = sc.globals_view();
        let ghost pool1 = cache@;
        let c = convert_typed_value(&b.constants[j], sc);
        let tv = match c {
            Ok(tv) => tv,
            Err(e) => {
                proof {
                    let bd = crate::ir_unit::body_den_ir(*b, t);
                    assert(bd.constants[j as int] == den_ir(b.constants@[j as int], t));
                    assert forall|i: int| 0 <= i < cache@.len() implies wf_tv_full(
                        #[trigger] cache@[i],
                        sc.globals_view(),
                    ) by {
                        lemma_wf_tv_full_extends(cache@[i], g1, sc.globals_view());
                    }
                    lemma_pool_distinct_extends(cache@, g1, sc.globals_view());
                }
                return Err(e);
            },
        };
        let ghost g2 = sc.globals_view();
        proof {
            assert forall|i: int| 0 <= i < cache@.len() implies wf_tv_full(
                #[trigger] cache@[i],
                g2,
            ) by {
                lemma_wf_tv_full_extends(cache@[i], g1, g2);
            }
            lemma_pool_distinct_extends(cache@, g1, g2);
            lemma_den_ir_keys_ok(b.constants@[j as int], t);
            assert(crate::typed_value::den_keys_ok(den_bc(tv, g2)));
            assert(wf_tv_full(tv, g2));
        }
        let globals_ref = sc.globals_ref();
        let id = cache.intern(tv, globals_ref);
        proof {
            let pool2 = cache@;
            assert forall|i: int| 0 <= i < j implies (#[trigger] adata_refs@[i]).spec_id()
                < pool2.len() && den_bc(pool2[adata_refs@[i].spec_id() as int], g2) == den_ir(
                b.constants@[i],
                t,
            ) by {
                assert(pool2[adata_refs@[i].spec_id() as int] == pool1[adata_refs@[i].spec_id() as int]);
                lemma_wf_tv_full_extends(pool1[adata_refs@[i].spec_id() as int], g1, g2);
            }
            if pool2.len() > pool1.len() {
                assert(wf_tv_full(pool2.last(), g2));
            }
        }
        adata_refs.push(id);
        j += 1;
    }
    let r = Body { params, adata_refs };
    proof {
        let g = sc.globals_view();
        let pool = pool_den_bc(cache@, g);
        assert(r.adata_refs@.map_values(|id: AdataId| pool[id.spec_id() as int])
            =~= b.constants@.map_values(|tv: crate::typed_value::IrTypedValue| den_ir(tv, t)));
        let bd = crate::ir_unit::body_den_ir(*b, t);
        assert forall|i: int| 0 <= i < bd.constants.len() implies den_names_utf8(
            #[trigger] bd.constants[i],
        ) by {
            assert(bd.constants[i] == den_ir(b.constants@[i], t));
        }
    }
    Ok(r)
}


/// Convert one attribute to the persisted domain; attribute names are class
/// names and must be valid text.
pub fn convert_attribute(a: &IrAttribute, sc: &mut StringCache) -> (r: Result<
    Attribute,
    ConvError,
>)
    requires
        old(sc).wf(),
        wf_attr_ir(*a, old(sc).ir_view().len() as int),
    ensures
        final(sc).wf(),
        final(sc).ir_view() == old(sc).ir_view(),
        table_extends(old(sc).globals_view(), final(sc).globals_view()),
        (r is Ok) <==> attr_den_names_utf8(attr_den_ir(*a, old(sc).ir_view())),
        r matches Ok(x) ==> wf_attr_bc(x, final(sc).globals_view()) && attr_den_bc(
            x,
            final(sc).globals_view(),
        ) == attr_den_ir(*a, old(sc).ir_view()),
{
    let ghost t = old(sc).ir_view();
    let name = match sc.lookup_class_name(a.name) {
        Ok(n) => n,
        Err(e) => {
            return Err(e);
        },
    };
    let mut args: Vec<TypedValue> = Vec::new();
    let n = a.arguments.len();
    let mut j: usize = 0;
    while j < n
        invariant
            sc.wf(),
            sc.ir_view() == t,
            t == old(sc).ir_view(),
            table_extends(old(sc).globals_view(), sc.globals_view()),
            wf_attr_ir(*a, t.len() as int),
            name@ == t[a.name.0 as int],
            crate::utf8::is_utf8(name@),
            n == a.arguments@.len(),
            j <= n,
            args@.len() == j,
            forall|i: int|
                0 <= i < j ==> wf_tv_full(#[trigger] args@[i], sc.globals_view()) && den_bc(
                    args@[i],
                    sc.globals_view(),
                ) == den_ir(a.arguments@[i], t),
            forall|i: int| 0 <= i < j ==> den_names_utf8(den_ir(#[trigger] a.arguments@[i], t)),
        decreases n - j,
    {
        let ghost g1 = sc.globals_view();
        let c = convert_typed_value(&a.arguments[j], sc);
        match c {
            Ok(b) => {
                proof {
                    let g2 = sc.globals_view();
                    assert forall|i: int| 0 <= i < j implies wf_tv_full(
                        #[trigger] args@[i],
                        g2,
                    ) && den_bc(args@[i], g2) == den_ir(a.arguments@[i], t) by {
                        lemma_wf_tv_full_extends(args@[i], g1, g2);
                    }
                    lemma_den_ir_keys_ok(a.arguments@[j as int], t);
                }
                args.push(b);
            },
            Err(e) => {
                proof {
                    let ad = attr_den_ir(*a, t);
                    assert(ad.arguments[j as int] == den_ir(a.arguments@[j as int], t));
                }
                return Err(e);
            },
        }
        j += 1;
    }
    let r = Attribute { name, arguments: args };
    proof {
        let g = sc.globals_view();
        assert(r.arguments@.map_values(|tv: TypedValue| den_bc(tv, g))
            =~= a.arguments@.map_values(
            |tv: crate::typed_value::IrTypedValue| den_ir(tv, t),
        ));
        let ad = attr_den_ir(*a, t);
        assert forall|i: int| 0 <= i < ad.arguments.len() implies den_names_utf8(
            #[trigger] ad.arguments[i],
        ) by {
            assert(ad.arguments[i] == den_ir(a.arguments@[i], t));
        }
    }
    Ok(r)
}

/// Convert an attribute list, in order.
pub fn convert_attributes(attrs: &Vec<IrAttribute>, sc: &mut StringCache) -> (r: Result<
    Vec<Attribute>,
    ConvError,
>)
    requires
        old(sc).wf(),
        crate::ir_unit::wf_attrs_ir(attrs@, old(sc).ir_view().len() as int),
    ensures
        final(sc).wf(),
        final(sc).ir_view() == old(sc).ir_view(),
        table_extends(old(sc).globals_view(), final(sc).globals_view()),
        (r is Ok) <==> (forall|i: int|
            0 <= i < attrs@.len() ==> attr_den_names_utf8(
                attr_den_ir(#[trigger] attrs@[i], old(sc).ir_view()),
            )),
        r matches Ok(out) ==> out@.len() == attrs@.len() && (forall|i: int|
            0 <= i < attrs@.len() ==> wf_attr_bc(#[trigger] out@[i], final(sc).globals_view())
                && attr_den_bc(out@[i], final(sc).globals_view()) == attr_den_ir(
                attrs@[i],
                old(sc).ir_view(),
            )),
{
    let ghost t = old(sc).ir_view();
    let mut out: Vec<Attribute> = Vec::new();
    let n = attrs.len();
    let mut j: usize = 0;
    while j < n
        invariant
            sc.wf(),
            sc.ir_view() == t,
            t == old(sc).ir_view(),
            table_extends(old(sc).globals_view(), sc.globals_view()),
            crate::ir_unit::wf_attrs_ir(attrs@, t.len() as int),
            n == attrs@.len(),
            j <= n,
            out@.len() == j,
            forall|i: int|
                0 <= i < j ==> wf_attr_bc(#[trigger] out@[i], sc.globals_view()) && attr_den_bc(
                    out@[i],
                    sc.globals_view(),
                ) == attr_den_ir(attrs@[i], t),
            forall|i: int| 0 <= i < j ==> attr_den_names_utf8(attr_den_ir(#[trigger] attrs@[i], t)),
        decreases n - j,
    {
        let ghost g1 = sc.globals_view();
        let c = convert_attribute(&attrs[j], sc);
        match c {
            Ok(b) => {
                proof {
                    let g2 = sc.globals_view();
                    assert forall|i: int| 0 <= i < j implies wf_attr_bc(
                        #[trigger] out@[i],
                        g2,
                    ) && attr_den_bc(out@[i], g2) == attr_den_ir(attrs@[i], t) by {
                        lemma_attr_den_bc_extends(out@[i], g1, g2);
                    }
                }
                out.push(b);
            },
            Err(e) => {
                return Err(e);
            },
        }
        j += 1;
    }
    Ok(out)
}

/// Convert one named constant.
pub fn convert_constant_ir(c: &IrConstant, sc: &mut StringCache) -> (r: Result<
    Constant,
    ConvError,
>)
    requires
        old(sc).wf(),
        crate::ir_unit::wf_const_ir(*c, old(sc).ir_view().len() as int),
    ensures
        final(sc).wf(),
        final(sc).ir_view() == old(sc).ir_view(),
        table_extends(old(sc).globals_view(), final(sc).globals_view()),
        (r is Ok) <==> const_den_names_utf8(const_den_ir(*c, old(sc).ir_view())),
        r matches Ok(x) ==> wf_const_bc(x, final(sc).globals_view()) && const_den_bc(
            x,
            final(sc).globals_view(),
        ) == const_den_ir(*c, old(sc).ir_view()),
{
    let ghost t = old(sc).ir_view();
    let name = match sc.lookup_const_name(c.name) {
        Ok(n) => n,
        Err(e) => {
            return Err(e);
        },
    };
    let value = match &c.value {
        Some(tv) => {
            match convert_typed_value(tv, sc) {
                Ok(b) => {
                    proof {
                        lemma_den_ir_keys_ok(c.value.unwrap(), t);
                    }
                    Some(b)
                },
                Err(e) => {
                    return Err(e);
                },
            }
        },
        Option::None => Option::None,
    };
    Ok(Constant { name, value, attrs: c.attrs })
}

/// Convert one type alias definition.
pub fn convert_typedef_ir(d: &IrTypedef, sc: &mut StringCache) -> (r: Result<Typedef, ConvError>)
    requires
        old(sc).wf(),
        crate::ir_unit::wf_typedef_ir(*d, old(sc).ir_view().len() as int),
    ensures
        final(sc).wf(),
        final(sc).ir_view() == old(sc).ir_view(),
        table_extends(old(sc).globals_view(), final(sc).globals_view()),
        (r is Ok) <==> typedef_den_names_utf8(typedef_den_ir(*d, old(sc).ir_view())),
        r matches Ok(x) ==> wf_typedef_bc(x, final(sc).globals_view()) && typedef_den_bc(
            x,
            final(sc).globals_view(),
        ) == typedef_den_ir(*d, old(sc).ir_view()),
{
    let ghost t = old(sc).ir_view();
    let name = match sc.lookup_class_name(d.name) {
        Ok(n) => n,
        Err(e) => {
            return Err(e);
        },
    };
    let attributes = match convert_attributes(&d.attributes, sc) {
        Ok(x) => x,
        Err(e) => {
            proof {
                let dd = typedef_den_ir(*d, t);
                let j = choose|j: int|
                    0 <= j < d.attributes@.len() && !attr_den_names_utf8(
                        attr_den_ir(#[trigger] d.attributes@[j], t),
                    );
                assert(dd.attributes[j] == attr_den_ir(d.attributes@[j], t));
            }
            return Err(e);
        },
    };
    let ghost g1 = sc.globals_view();
    let type_structure = match convert_typed_value(&d.type_structure, sc) {
        Ok(b) => b,
        Err(e) => {
            return Err(e);
        },
    };
    let r = Typedef { name, attributes, type_structure, case_type: d.case_type };
    proof {
        let g2 = sc.globals_view();
        lemma_den_ir_keys_ok(d.type_structure, t);
        assert forall|i: int| 0 <= i < r.attributes@.len() implies wf_attr_bc(
            #[trigger] r.attributes@[i],
            g2,
        ) && attr_den_bc(r.attributes@[i], g2) == attr_den_ir(d.attributes@[i], t) by {
            lemma_attr_den_bc_extends(r.attributes@[i], g1, g2);
        }
        assert(r.attributes@.map_values(|x: Attribute| attr_den_bc(x, g2))
            =~= d.attributes@.map_values(|a: IrAttribute| attr_den_ir(a, t)));
        let dd = typedef_den_ir(*d, t);
        assert forall|i: int| 0 <= i < dd.attributes.len() implies attr_den_names_utf8(
            #[trigger] dd.attributes[i],
        ) by {
            assert(dd.attributes[i] == attr_den_ir(d.attributes@[i], t));
        }
    }
    Ok(r)
}

/// Convert one module declaration.
pub fn convert_module_ir(m: &IrModule, sc: &mut StringCache) -> (r: Result<Module, ConvError>)
    requires
        old(sc).wf(),
        crate::ir_unit::wf_module_ir(*m, old(sc).ir_view().len() as int),
    ensures
        final(sc).wf(),
        final(sc).ir_view() == old(sc).ir_view(),
        table_extends(old(sc).globals_view(), final(sc).globals_view()),
        (r is Ok) <==> module_den_names_utf8(module_den_ir(*m, old(sc).ir_view())),
        r matches Ok(x) ==> wf_module_bc(x, final(sc).globals_view()) && module_den_bc(
            x,
            final(sc).globals_view(),
        ) == module_den_ir(*m, old(sc).ir_view()),
{
    let ghost t = old(sc).ir_view();
    let name = match sc.lookup_module_name(m.name) {
        Ok(n) => n,
        Err(e) => {
            return Err(e);
        },
    };
    let attributes = match convert_attributes(&m.attributes, sc) {
        Ok(x) => x,
        Err(e) => {
            proof {
                let md = module_den_ir(*m, t);
                let j = choose|j: int|
                    0 <= j < m.attributes@.len() && !attr_den_names_utf8(
                        attr_den_ir(#[trigger] m.attributes@[j], t),
                    );
                assert(md.attributes[j] == attr_den_ir(m.attributes@[j], t));
            }
            return Err(e);
        },
    };
    let doc_comment = match &m.doc_comment {
        Some(d) => {
            let mut copy: Vec<u8> = Vec::new();
            copy.extend_from_slice(d.as_slice());
            proof {
                assert(copy@ =~= m.doc_comment.unwrap()@);
            }
            Some(copy)
        },
        Option::None => Option::None,
    };
    let span = Span { line_begin: m.src_loc.line_begin, line_end: m.src_loc.line_end };
    let r = Module { attributes, name, span, doc_comment };
    proof {
        let g2 = sc.globals_view();
        assert(r.attributes@.map_values(|x: Attribute| attr_den_bc(x, g2))
            =~= m.attributes@.map_values(|a: IrAttribute| attr_den_ir(a, t)));
        let md = module_den_ir(*m, t);
        assert forall|i: int| 0 <= i < md.attributes.len() implies attr_den_names_utf8(
            #[trigger] md.attributes[i],
        ) by {
            assert(md.attributes[i] == attr_den_ir(m.attributes@[i], t));
        }
    }
    Ok(r)
}

/// Convert one declared property.
pub fn convert_property_ir(p: &IrProperty, sc: &mut StringCache) -> (r: Result<
    Property,
    ConvError,
>)
    requires
        old(sc).wf(),
        crate::ir_unit::wf_prop_ir(*p, old(sc).ir_view().len() as int),
    ensures
        final(sc).wf(),
        final(sc).ir_view() == old(sc).ir_view(),
        table_extends(old(sc).globals_view(), final(sc).globals_view()),
        (r is Ok) <==> prop_den_names_utf8(prop_den_ir(*p, old(sc).ir_view())),
        r matches Ok(x) ==> wf_prop_bc(x, final(sc).globals_view()) && prop_den_bc(
            x,
            final(sc).globals_view(),
        ) == prop_den_ir(*p, old(sc).ir_view()),
{
    let ghost t = old(sc).ir_view();
    let name = match sc.lookup_prop_name(p.name) {
        Ok(n) => n,
        Err(e) => {
            return Err(e);
        },
    };
    let initial_value = match &p.initial_value {
        Some(tv) => {
            match convert_typed_value(tv, sc) {
                Ok(b) => {
                    proof {
                        lemma_den_ir_keys_ok(p.initial_value.unwrap(), t);
                    }
                    Some(b)
                },
                Err(e) => {
                    return Err(e);
                },
            }
        },
        Option::None => Option::None,
    };
    Ok(Property { name, initial_value, attrs: p.attrs })
}


/// Convert a constant list, in order.
pub fn convert_constants_ir(cs: &Vec<IrConstant>, sc: &mut StringCache) -> (r: Result<
    Vec<Constant>,
    ConvError,
>)
    requires
        old(sc).wf(),
        crate::ir_unit::wf_consts_ir(cs@, old(sc).ir_view().len() as int),
    ensures
        final(sc).wf(),
        final(sc).ir_view() == old(sc).ir_view(),
        table_extends(old(sc).globals_view(), final(sc).globals_view()),
        (r is Ok) <==> (forall|i: int|
            0 <= i < cs@.len() ==> const_den_names_utf8(
                const_den_ir(#[trigger] cs@[i], old(sc).ir_view()),
            )),
        r matches Ok(out) ==> out@.len() == cs@.len() && (forall|i: int|
            0 <= i < cs@.len() ==> wf_const_bc(#[trigger] out@[i], final(sc).globals_view())
                && const_den_bc(out@[i], final(sc).globals_view()) == const_den_ir(
                cs@[i],
                old(sc).ir_view(),
            )),
{
    let ghost t = old(sc).ir_view();
    let mut out: Vec<Constant> = Vec::new();
    let n = cs.len();
    let mut j: usize = 0;
    while j < n
        invariant
            sc.wf(),
            sc.ir_view() == t,
            t == old(sc).ir_view(),
            table_extends(old(sc).globals_view(), sc.globals_view()),
            crate::ir_unit::wf_consts_ir(cs@, t.len() as int),
            n == cs@.len(),
            j <= n,
            out@.len() == j,
            forall|i: int|
                0 <= i < j ==> wf_const_bc(#[trigger] out@[i], sc.globals_view()) && const_den_bc(
                    out@[i],
                    sc.globals_view(),
                ) == const_den_ir(cs@[i], t),
            forall|i: int| 0 <= i < j ==> const_den_names_utf8(const_den_ir(#[trigger] cs@[i], t)),
        decreases n - j,
    {
        let ghost g1 = sc.globals_view();
        let c = convert_constant_ir(&cs[j], sc);
        match c {
            Ok(b) => {
                proof {
                    let g2 = sc.globals_view();
                    assert forall|i: int| 0 <= i < j implies wf_const_bc(
                        #[trigger] out@[i],
                        g2,
                    ) && const_den_bc(out@[i], g2) == const_den_ir(cs@[i], t) by {
                        crate::unit::lemma_const_den_bc_extends(out@[i], g1, g2);
                    }
                }
                out.push(b);
            },
            Err(e) => {
                return Err(e);
            },
        }
        j += 1;
    }
    Ok(out)
}

/// Convert a property list, in order.
pub fn convert_properties_ir(ps: &Vec<IrProperty>, sc: &mut StringCache) -> (r: Result<
    Vec<Property>,
    ConvError,
>)
    requires
        old(sc).wf(),
        forall|i: int|
            0 <= i < ps@.len() ==> crate::ir_unit::wf_prop_ir(
                #[trigger] ps@[i],
                old(sc).ir_view().len() as int,
            ),
    ensures
        final(sc).wf(),
        final(sc).ir_view() == old(sc).ir_view(),
        table_extends(old(sc).globals_view(), final(sc).globals_view()),
        (r is Ok) <==> (forall|i: int|
            0 <= i < ps@.len() ==> prop_den_names_utf8(
                prop_den_ir(#[trigger] ps@[i], old(sc).ir_view()),
            )),
        r matches Ok(out) ==> out@.len() == ps@.len() && (forall|i: int|
            0 <= i < ps@.len() ==> wf_prop_bc(#[trigger] out@[i], final(sc).globals_view())
                && prop_den_bc(out@[i], final(sc).globals_view()) == prop_den_ir(
                ps@[i],
                old(sc).ir_view(),
            )),
{
    let ghost t = old(sc).ir_view();
    let mut out: Vec<Property> = Vec::new();
    let n = ps.len();
    let mut j: usize = 0;
    while j < n
        invariant
            sc.wf(),
            sc.ir_view() == t,
            t == old(sc).ir_view(),
            table_extends(old(sc).globals_view(), sc.globals_view()),
            forall|i: int|
                0 <= i < ps@.len() ==> crate::ir_unit::wf_prop_ir(#[trigger] ps@[i], t.len() as int),
            n == ps@.len(),
            j <= n,
            out@.len() == j,
            forall|i: int|
                0 <= i < j ==> wf_prop_bc(#[trigger] out@[i], sc.globals_view()) && prop_den_bc(
                    out@[i],
                    sc.globals_view(),
                ) == prop_den_ir(ps@[i], t),
            forall|i: int| 0 <= i < j ==> prop_den_names_utf8(prop_den_ir(#[trigger] ps@[i], t)),
        decreases n - j,
    {
        let ghost g1 = sc.globals_view();
        let c = convert_property_ir(&ps[j], sc);
        match c {
            Ok(b) => {
                proof {
                    let g2 = sc.globals_view();
                    assert forall|i: int| 0 <= i < j implies wf_prop_bc(
                        #[trigger] out@[i],
                        g2,
                    ) && prop_den_bc(out@[i], g2) == prop_den_ir(ps@[i], t) by {
                        crate::unit::lemma_prop_den_bc_extends(out@[i], g1, g2);
                    }
                }
                out.push(b);
            },
            Err(e) => {
                return Err(e);
            },
        }
        j += 1;
    }
    Ok(out)
}

/// Convert one method, interning its body's constants into the shared pool.
pub fn convert_method_ir(
    m: &crate::ir_unit::IrMethod,
    sc: &mut StringCache,
    cache: &mut AdataCache,
) -> (r: Result<crate::unit::Method, ConvError>)
    requires
        old(sc).wf(),
        crate::ir_unit::wf_method_ir(*m, old(sc).ir_view().len() as int),
        forall|i: int|
            0 <= i < old(cache)@.len() ==> wf_tv_full(
                #[trigger] old(cache)@[i],
                old(sc).globals_view(),
            ),
        old(cache)@.len() + m.body.constants@.len() <= 0x1_0000_0000,
        pool_distinct(old(cache)@, old(sc).globals_view()),
    ensures
        pool_distinct(final(cache)@, final(sc).globals_view()),
        final(sc).wf(),
        final(sc).ir_view() == old(sc).ir_view(),
        table_extends(old(sc).globals_view(), final(sc).globals_view()),
        old(cache)@.len() <= final(cache)@.len(),
        final(cache)@.len() <= old(cache)@.len() + m.body.constants@.len(),
        forall|i: int| 0 <= i < old(cache)@.len() ==> final(cache)@[i] == old(cache)@[i],
        forall|i: int|
            0 <= i < final(cache)@.len() ==> wf_tv_full(
                #[trigger] final(cache)@[i],
                final(sc).globals_view(),
            ),
        (r is Ok) <==> crate::unit::meth_den_names_utf8(
            crate::ir_unit::meth_den_ir(*m, old(sc).ir_view()),
        ),
        r matches Ok(x) ==> crate::unit::wf_method_bc(
            x,
            final(sc).globals_view(),
            final(cache)@.len() as int,
        ) && crate::unit::meth_den_bc(
            x,
            final(sc).globals_view(),
            pool_den_bc(final(cache)@, final(sc).globals_view()),
        ) == crate::ir_unit::meth_den_ir(*m, old(sc).ir_view()),
{
    let ghost t = old(sc).ir_view();
    let name = sc.lookup_method_name(m.name);
    let body = match convert_body_ir(&m.body, sc, cache) {
        Ok(b) => b,
        Err(e) => {
            return Err(e);
        },
    };
    Ok(crate::unit::Method { name, body, flags: m.flags, attrs: m.attrs })
}

/// Convert one function, interning its body's constants into the shared
/// pool.
pub fn convert_function_ir(
    f: &crate::ir_unit::IrFunction,
    sc: &mut StringCache,
    cache: &mut AdataCache,
) -> (r: Result<crate::unit::Function, ConvError>)
    requires
        old(sc).wf(),
        crate::ir_unit::wf_function_ir(*f, old(sc).ir_view().len() as int),
        forall|i: int|
            0 <= i < old(cache)@.len() ==> wf_tv_full(
                #[trigger] old(cache)@[i],
                old(sc).globals_view(),
            ),
        old(cache)@.len() + f.body.constants@.len() <= 0x1_0000_0000,
        pool_distinct(old(cache)@, old(sc).globals_view()),
    ensures
        pool_distinct(final(cache)@, final(sc).globals_view()),
        final(sc).wf(),
        final(sc).ir_view() == old(sc).ir_view(),
        table_extends(old(sc).globals_view(), final(sc).globals_view()),
        old(cache)@.len() <= final(cache)@.len(),
        final(cache)@.len() <= old(cache)@.len() + f.body.constants@.len(),
        forall|i: int| 0 <= i < old(cache)@.len() ==> final(cache)@[i] == old(cache)@[i],
        forall|i: int|
            0 <= i < final(cache)@.len() ==> wf_tv_full(
                #[trigger] final(cache)@[i],
                final(sc).globals_view(),
            ),
        (r is Ok) <==> crate::unit::func_den_names_utf8(
            crate::ir_unit::func_den_ir(*f, old(sc).ir_view()),
        ),
        r matches Ok(x) ==> crate::unit::wf_function_bc(
            x,
            final(sc).globals_view(),
            final(cache)@.len() as int,
        ) && crate::unit::func_den_bc(
            x,
            final(sc).globals_view(),
            pool_den_bc(final(cache)@, final(sc).globals_view()),
        ) == crate::ir_unit::func_den_ir(*f, old(sc).ir_view()),
{
    let ghost t = old(sc).ir_view();
    let name = match sc.lookup_function_name(f.name) {
        Ok(n) => n,
        Err(e) => {
            return Err(e);
        },
    };
    let ghost g0 = old(sc).globals_view();
    let attributes = match convert_attributes(&f.attributes, sc) {
        Ok(x) => x,
        Err(e) => {
            proof {
                let fd = crate::ir_unit::func_den_ir(*f, t);
                let j = choose|j: int|
                    0 <= j < f.attributes@.len() && !attr_den_names_utf8(
                        attr_den_ir(#[trigger] f.attributes@[j], t),
                    );
                assert(fd.attributes[j] == attr_den_ir(f.attributes@[j], t));
                assert forall|i: int| 0 <= i < cache@.len() implies wf_tv_full(
                    #[trigger] cache@[i],
                    sc.globals_view(),
                ) by {
                    lemma_wf_tv_full_extends(cache@[i], g0, sc.globals_view());
                }
                lemma_pool_distinct_extends(cache@, g0, sc.globals_view());
            }
            return Err(e);
        },
    };
    let ghost g1 = sc.globals_view();
    let ghost pool1 = cache@;
    proof {
        assert forall|i: int| 0 <= i < cache@.len() implies wf_tv_full(
            #[trigger] cache@[i],
            g1,
        ) by {
            lemma_wf_tv_full_extends(cache@[i], g0, g1);
        }
        lemma_pool_distinct_extends(cache@, g0, g1);
    }
    let body = match convert_body_ir(&f.body, sc, cache) {
        Ok(b) => b,
        Err(e) => {
            proof {
                lemma_table_extends_trans(g0, g1, sc.globals_view());
            }
            return Err(e);
        },
    };
    proof {
        lemma_table_extends_trans(g0, g1, sc.globals_view());
    }
    let r = crate::unit::Function { attributes, name, body, flags: f.flags, attrs: f.attrs };
    proof {
        let g2 = sc.globals_view();
        assert forall|i: int| 0 <= i < r.attributes@.len() implies wf_attr_bc(
            #[trigger] r.attributes@[i],
            g2,
        ) && attr_den_bc(r.attributes@[i], g2) == attr_den_ir(f.attributes@[i], t) by {
            lemma_attr_den_bc_extends(r.attributes@[i], g1, g2);
        }
        assert(r.attributes@.map_values(|x: Attribute| attr_den_bc(x, g2))
            =~= f.attributes@.map_values(|a: IrAttribute| attr_den_ir(a, t)));
        let fd = crate::ir_unit::func_den_ir(*f, t);
        assert forall|i: int| 0 <= i < fd.attributes.len() implies attr_den_names_utf8(
            #[trigger] fd.attributes[i],
        ) by {
            assert(fd.attributes[i] == attr_den_ir(f.attributes@[i], t));
        }
    }
    Ok(r)
}

/// Convert one class, with its properties, class-level constants and
/// methods.
pub fn convert_class_ir(
    c: &crate::ir_unit::IrClass,
    sc: &mut StringCache,
    cache: &mut AdataCache,
) -> (r: Result<crate::unit::Class, ConvError>)
    requires
        old(sc).wf(),
        crate::ir_unit::wf_class_ir(*c, old(sc).ir_view().len() as int),
        forall|i: int|
            0 <= i < old(cache)@.len() ==> wf_tv_full(
                #[trigger] old(cache)@[i],
                old(sc).globals_view(),
            ),
        old(cache)@.len() + crate::ir_unit::class_pool_demand(*c) <= 0x1_0000_0000,
        pool_distinct(old(cache)@, old(sc).globals_view()),
    ensures
        pool_distinct(final(cache)@, final(sc).globals_view()),
        final(sc).wf(),
        final(sc).ir_view() == old(sc).ir_view(),
        table_extends(old(sc).globals_view(), final(sc).globals_view()),
        old(cache)@.len() <= final(cache)@.len(),
        final(cache)@.len() <= old(cache)@.len() + crate::ir_unit::class_pool_demand(*c),
        forall|i: int| 0 <= i < old(cache)@.len() ==> final(cache)@[i] == old(cache)@[i],
        forall|i: int|
            0 <= i < final(cache)@.len() ==> wf_tv_full(
                #[trigger] final(cache)@[i],
                final(sc).globals_view(),
            ),
        (r is Ok) <==> crate::unit::class_den_names_utf8(
            crate::ir_unit::class_den_ir(*c, old(sc).ir_view()),
        ),
        r matches Ok(x) ==> crate::unit::wf_class_bc(
            x,
            final(sc).globals_view(),
            final(cache)@.len() as int,
        ) && crate::unit::class_den_bc(
            x,
            final(sc).globals_view(),
            pool_den_bc(final(cache)@, final(sc).globals_view()),
        ) == crate::ir_unit::class_den_ir(*c, old(sc).ir_view()),
{
    let ghost t = old(sc).ir_view();
    let ghost g0 = old(sc).globals_view();
    let ghost cd = crate::ir_unit::class_den_ir(*c, t);
    proof {
        crate::ir_unit::lemma_methods_pool_demand_mono(c.methods@, 0, c.methods@.len() as int);
    }
    let name = match sc.lookup_class_name(c.name) {
        Ok(n) => n,
        Err(e) => {
            return Err(e);
        },
    };
    let attributes = match convert_attributes(&c.attributes, sc) {
        Ok(x) => x,
        Err(e) => {
            proof {
                let j = choose|j: int|
                    0 <= j < c.attributes@.len() && !attr_den_names_utf8(
                        attr_den_ir(#[trigger] c.attributes@[j], t),
                    );
                assert(cd.attributes[j] == attr_den_ir(c.attributes@[j], t));
                assert forall|i: int| 0 <= i < cache@.len() implies wf_tv_full(
                    #[trigger] cache@[i],
                    sc.globals_view(),
                ) by {
                    lemma_wf_tv_full_extends(cache@[i], g0, sc.globals_view());
                }
                lemma_pool_distinct_extends(cache@, g0, sc.globals_view());
            }
            return Err(e);
        },
    };
    let ghost g_attrs = sc.globals_view();
    let properties = match convert_properties_ir(&c.properties, sc) {
        Ok(x) => x,
        Err(e) => {
            proof {
                let j = choose|j: int|
                    0 <= j < c.properties@.len() && !prop_den_names_utf8(
                        prop_den_ir(#[trigger] c.properties@[j], t),
                    );
                assert(cd.properties[j] == prop_den_ir(c.properties@[j], t));
                lemma_table_extends_trans(g0, g_attrs, sc.globals_view());
                assert forall|i: int| 0 <= i < cache@.len() implies wf_tv_full(
                    #[trigger] cache@[i],
                    sc.globals_view(),
                ) by {
                    lemma_wf_tv_full_extends(cache@[i], g0, sc.globals_view());
                }
                lemma_pool_distinct_extends(cache@, g0, sc.globals_view());
            }
            return Err(e);
        },
    };
    let ghost g_props = sc.globals_view();
    proof {
        lemma_table_extends_trans(g0, g_attrs, g_props);
    }
    let constants = match convert_constants_ir(&c.constants, sc) {
        Ok(x) => x,
        Err(e) => {
            proof {
                let j = choose|j: int|
                    0 <= j < c.constants@.len() && !const_den_names_utf8(
                        const_den_ir(#[trigger] c.constants@[j], t),
                    );
                assert(cd.constants[j] == const_den_ir(c.constants@[j], t));
                lemma_table_extends_trans(g0, g_props, sc.globals_view());
                assert forall|i: int| 0 <= i < cache@.len() implies wf_tv_full(
                    #[trigger] cache@[i],
                    sc.globals_view(),
                ) by {
                    lemma_wf_tv_full_extends(cache@[i], g0, sc.globals_view());
                }
                lemma_pool_distinct_extends(cache@, g0, sc.globals_view());
            }
            return Err(e);
        },
    };
    let ghost g_consts = sc.globals_view();
    proof {
        lemma_table_extends_trans(g0, g_props, g_consts);
        assert forall|i: int| 0 <= i < cache@.len() implies wf_tv_full(
            #[trigger] cache@[i],
            g_consts,
        ) by {
            lemma_wf_tv_full_extends(cache@[i], g0, g_consts);
        }
        lemma_pool_distinct_extends(cache@, g0, g_consts);
    }
    let mut methods: Vec<crate::unit::Method> = Vec::new();
    let nm = c.methods.len();
    let mut j: usize = 0;
    while j < nm
        invariant
            sc.wf(),
            sc.ir_view() == t,
            t == old(sc).ir_view(),
            cd == crate::ir_unit::class_den_ir(*c, t),
            g0 == old(sc).globals_view(),
            table_extends(g0, g_consts),
            table_extends(g_consts, sc.globals_view()),
            crate::ir_unit::wf_class_ir(*c, t.len() as int),
            old(cache)@.len() <= cache@.len(),
            cache@.len() <= old(cache)@.len() + crate::ir_unit::methods_pool_demand(
                c.methods@,
                j as int,
            ),
            old(cache)@.len() + crate::ir_unit::class_pool_demand(*c) <= 0x1_0000_0000,
            pool_distinct(cache@, sc.globals_view()),
            forall|i: int| 0 <= i < old(cache)@.len() ==> cache@[i] == old(cache)@[i],
            forall|i: int|
                0 <= i < cache@.len() ==> wf_tv_full(#[trigger] cache@[i], sc.globals_view()),
            nm == c.methods@.len(),
            j <= nm,
            methods@.len() == j,
            forall|i: int|
                0 <= i < j ==> crate::unit::wf_method_bc(
                    #[trigger] methods@[i],
                    sc.globals_view(),
                    cache@.len() as int,
                ) && crate::unit::meth_den_bc(
                    methods@[i],
                    sc.globals_view(),
                    pool_den_bc(cache@, sc.globals_view()),
                ) == crate::ir_unit::meth_den_ir(c.methods@[i], t),
            forall|i: int|
                0 <= i < j ==> crate::unit::meth_den_names_utf8(
                    crate::ir_unit::meth_den_ir(#[trigger] c.methods@[i], t),
                ),
        decreases nm - j,
    {
        let ghost g1 = sc.globals_view();
        let ghost pool1 = cache@;
        proof {
            crate::ir_unit::lemma_methods_pool_demand_mono(c.methods@, j + 1, nm as int);
            assert(crate::ir_unit::methods_pool_demand(c.methods@, j + 1)
                == crate::ir_unit::methods_pool_demand(c.methods@, j as int)
                + c.methods@[j as int].body.constants@.len());
        }
        let m = match convert_method_ir(&c.methods[j], sc, cache) {
            Ok(m) => m,
            Err(e) => {
                proof {
                    assert(cd.methods[j as int] == crate::ir_unit::meth_den_ir(
                        c.methods@[j as int],
                        t,
                    ));
                    lemma_table_extends_trans(g0, g_consts, sc.globals_view());
                }
                return Err(e);
            },
        };
        proof {
            let g2 = sc.globals_view();
            let pool2 = cache@;
            assert forall|i: int| 0 <= i < j implies crate::unit::wf_method_bc(
                #[trigger] methods@[i],
                g2,
                pool2.len() as int,
            ) && crate::unit::meth_den_bc(methods@[i], g2, pool_den_bc(pool2, g2))
                == crate::ir_unit::meth_den_ir(c.methods@[i], t) by {
                assert forall|k: int| 0 <= k < pool1.len() implies #[trigger] pool_den_bc(
                    pool2,
                    g2,
                )[k] == pool_den_bc(pool1, g1)[k] by {
                    assert(pool2[k] == pool1[k]);
                    lemma_wf_tv_full_extends(pool1[k], g1, g2);
                }
                crate::unit::lemma_meth_den_bc_extends(
                    methods@[i],
                    g1,
                    g2,
                    pool_den_bc(pool1, g1),
                    pool_den_bc(pool2, g2),
                );
            }
        }
        methods.push(m);
        j += 1;
    }
    let r = crate::unit::Class { attributes, name, properties, constants, methods, attrs: c.attrs };
    proof {
        lemma_table_extends_trans(g0, g_consts, sc.globals_view());
        let g = sc.globals_view();
        let pool = pool_den_bc(cache@, g);
        assert forall|i: int| 0 <= i < r.attributes@.len() implies wf_attr_bc(
            #[trigger] r.attributes@[i],
            g,
        ) && attr_den_bc(r.attributes@[i], g) == attr_den_ir(c.attributes@[i], t) by {
            lemma_attr_den_bc_extends(r.attributes@[i], g_attrs, g);
        }
        assert forall|i: int| 0 <= i < r.properties@.len() implies wf_prop_bc(
            #[trigger] r.properties@[i],
            g,
        ) && prop_den_bc(r.properties@[i], g) == prop_den_ir(c.properties@[i], t) by {
            crate::unit::lemma_prop_den_bc_extends(r.properties@[i], g_props, g);
        }
        assert forall|i: int| 0 <= i < r.constants@.len() implies wf_const_bc(
            #[trigger] r.constants@[i],
            g,
        ) && const_den_bc(r.constants@[i], g) == const_den_ir(c.constants@[i], t) by {
            crate::unit::lemma_const_den_bc_extends(r.constants@[i], g_consts, g);
        }
        assert(r.attributes@.map_values(|x: Attribute| attr_den_bc(x, g))
            =~= c.attributes@.map_values(|a: IrAttribute| attr_den_ir(a, t)));
        assert(r.properties@.map_values(|p: Property| prop_den_bc(p, g))
            =~= c.properties@.map_values(|p: IrProperty| prop_den_ir(p, t)));
        assert(r.constants@.map_values(|k: Constant| const_den_bc(k, g))
            =~= c.constants@.map_values(|k: IrConstant| const_den_ir(k, t)));
        assert(r.methods@.map_values(|m: crate::unit::Method| crate::unit::meth_den_bc(m, g, pool))
            =~= c.methods@.map_values(
            |m: crate::ir_unit::IrMethod| crate::ir_unit::meth_den_ir(m, t),
        ));
        assert forall|i: int| 0 <= i < cd.attributes.len() implies attr_den_names_utf8(
            #[trigger] cd.attributes[i],
        ) by {
            assert(cd.attributes[i] == attr_den_ir(c.attributes@[i], t));
        }
        assert forall|i: int| 0 <= i < cd.properties.len() implies prop_den_names_utf8(
            #[trigger] cd.properties[i],
        ) by {
            assert(cd.properties[i] == prop_den_ir(c.properties@[i], t));
        }
        assert forall|i: int| 0 <= i < cd.constants.len() implies const_den_names_utf8(
            #[trigger] cd.constants[i],
        ) by {
            assert(cd.constants[i] == const_den_ir(c.constants@[i], t));
        }
        assert forall|i: int| 0 <= i < cd.methods.len() implies crate::unit::meth_den_names_utf8(
            #[trigger] cd.methods[i],
        ) by {
            assert(cd.methods[i] == crate::ir_unit::meth_den_ir(c.methods@[i], t));
        }
    }
    Ok(r)
}


/// Convert a typedef list, in order.
pub fn convert_typedefs_ir(ds: &Vec<IrTypedef>, sc: &mut StringCache) -> (r: Result<
    Vec<Typedef>,
    ConvError,
>)
    requires
        old(sc).wf(),
        forall|i: int|
            0 <= i < ds@.len() ==> crate::ir_unit::wf_typedef_ir(
                #[trigger] ds@[i],
                old(sc).ir_view().len() as int,
            ),
    ensures
        final(sc).wf(),
        final(sc).ir_view() == old(sc).ir_view(),
        table_extends(old(sc).globals_view(), final(sc).globals_view()),
        (r is Ok) <==> (forall|i: int|
            0 <= i < ds@.len() ==> typedef_den_names_utf8(
                typedef_den_ir(#[trigger] ds@[i], old(sc).ir_view()),
            )),
        r matches Ok(out) ==> out@.len() == ds@.len() && (forall|i: int|
            0 <= i < ds@.len() ==> wf_typedef_bc(#[trigger] out@[i], final(sc).globals_view())
                && typedef_den_bc(out@[i], final(sc).globals_view()) == typedef_den_ir(
                ds@[i],
                old(sc).ir_view(),
            )),
{
    let ghost t = old(sc).ir_view();
    let mut out: Vec<Typedef> = Vec::new();
    let n = ds.len();
    let mut j: usize = 0;
    while j < n
        invariant
            sc.wf(),
            sc.ir_view() == t,
            t == old(sc).ir_view(),
            table_extends(old(sc).globals_view(), sc.globals_view()),
            forall|i: int|
                0 <= i < ds@.len() ==> crate::ir_unit::wf_typedef_ir(
                    #[trigger] ds@[i],
                    t.len() as int,
                ),
            n == ds@.len(),
            j <= n,
            out@.len() == j,
            forall|i: int|
                0 <= i < j ==> wf_typedef_bc(#[trigger] out@[i], sc.globals_view())
                    && typedef_den_bc(out@[i], sc.globals_view()) == typedef_den_ir(ds@[i], t),
            forall|i: int|
                0 <= i < j ==> typedef_den_names_utf8(typedef_den_ir(#[trigger] ds@[i], t)),
        decreases n - j,
    {
        let ghost g1 = sc.globals_view();
        let c = convert_typedef_ir(&ds[j], sc);
        match c {
            Ok(b) => {
                proof {
                    let g2 = sc.globals_view();
                    assert forall|i: int| 0 <= i < j implies wf_typedef_bc(
                        #[trigger] out@[i],
                        g2,
                    ) && typedef_den_bc(out@[i], g2) == typedef_den_ir(ds@[i], t) by {
                        crate::unit::lemma_typedef_den_bc_extends(out@[i], g1, g2);
                    }
                }
                out.push(b);
            },
            Err(e) => {
                return Err(e);
            },
        }
        j += 1;
    }
    Ok(out)
}

/// Convert a module list, in order.
pub fn convert_modules_ir(ms: &Vec<IrModule>, sc: &mut StringCache) -> (r: Result<
    Vec<Module>,
    ConvError,
>)
    requires
        old(sc).wf(),
        forall|i: int|
            0 <= i < ms@.len() ==> crate::ir_unit::wf_module_ir(
                #[trigger] ms@[i],
                old(sc).ir_view().len() as int,
            ),
    ensures
        final(sc).wf(),
        final(sc).ir_view() == old(sc).ir_view(),
        table_extends(old(sc).globals_view(), final(sc).globals_view()),
        (r is Ok) <==> (forall|i: int|
            0 <= i < ms@.len() ==> module_den_names_utf8(
                module_den_ir(#[trigger] ms@[i], old(sc).ir_view()),
            )),
        r matches Ok(out) ==> out@.len() == ms@.len() && (forall|i: int|
            0 <= i < ms@.len() ==> wf_module_bc(#[trigger] out@[i], final(sc).globals_view())
                && module_den_bc(out@[i], final(sc).globals_view()) == module_den_ir(
                ms@[i],
                old(sc).ir_view(),
            )),
{
    let ghost t = old(sc).ir_view();
    let mut out: Vec<Module> = Vec::new();
    let n = ms.len();
    let mut j: usize = 0;
    while j < n
        invariant
            sc.wf(),
            sc.ir_view() == t,
            t == old(sc).ir_view(),
            table_extends(old(sc).globals_view(), sc.globals_view()),
            forall|i: int|
                0 <= i < ms@.len() ==> crate::ir_unit::wf_module_ir(
                    #[trigger] ms@[i],
                    t.len() as int,
                ),
            n == ms@.len(),
            j <= n,
            out@.len() == j,
            forall|i: int|
                0 <= i < j ==> wf_module_bc(#[trigger] out@[i], sc.globals_view())
                    && module_den_bc(out@[i], sc.globals_view()) == module_den_ir(ms@[i], t),
            forall|i: int|
                0 <= i < j ==> module_den_names_utf8(module_den_ir(#[trigger] ms@[i], t)),
        decreases n - j,
    {
        let ghost g1 = sc.globals_view();
        let c = convert_module_ir(&ms[j], sc);
        match c {
            Ok(b) => {
                proof {
                    let g2 = sc.globals_view();
                    assert forall|i: int| 0 <= i < j implies wf_module_bc(
                        #[trigger] out@[i],
                        g2,
                    ) && module_den_bc(out@[i], g2) == module_den_ir(ms@[i], t) by {
                        crate::unit::lemma_module_den_bc_extends(out@[i], g1, g2);
                    }
                }
                out.push(b);
            },
            Err(e) => {
                return Err(e);
            },
        }
        j += 1;
    }
    Ok(out)
}

/// The staged builder that accumulates classes and functions and the shared
/// deduplicating constant pool, then finalizes into an immutable unit.
pub struct UnitBuilder {
    pub adata_cache: AdataCache,
    pub functions: Vec<crate::unit::Function>,
    pub classes: Vec<crate::unit::Class>,
}

impl UnitBuilder {
    pub fn new() -> (r: UnitBuilder)
        ensures
            r.adata_cache@ =~= Seq::<TypedValue>::empty(),
            r.functions@ =~= Seq::<crate::unit::Function>::empty(),
            r.classes@ =~= Seq::<crate::unit::Class>::empty(),
    {
        UnitBuilder { adata_cache: AdataCache::new(), classes: Vec::new(), functions: Vec::new() }
    }

    /// Finalize into a unit; the remaining top-level fields start empty and
    /// are filled in by the caller.
    pub fn finish(self) -> (r: crate::unit::Unit)
        ensures
            r.adata@ == self.adata_cache@,
            r.functions@ == self.functions@,
            r.classes@ == self.classes@,
            r.typedefs@.len() == 0,
            r.file_attributes@.len() == 0,
            r.modules@.len() == 0,
            r.module_use is None,
            r.symbol_refs.classes@.len() == 0,
            r.symbol_refs.constants@.len() == 0,
            r.symbol_refs.functions@.len() == 0,
            r.symbol_refs.includes@.len() == 0,
            r.constants@.len() == 0,
            r.fatal is None,
            r.missing_symbols@.len() == 0,
            r.error_symbols@.len() == 0,
            r.valid_utf8 == true,
            r.invalid_utf8_offset == 0,
    {
        crate::unit::Unit {
            adata: self.adata_cache.finish(),
            functions: self.functions,
            classes: self.classes,
            typedefs: Vec::new(),
            file_attributes: Vec::new(),
            modules: Vec::new(),
            module_use: Option::None,
            symbol_refs: crate::unit::SymbolRefs {
                classes: Vec::new(),
                constants: Vec::new(),
                functions: Vec::new(),
                includes: Vec::new(),
            },
            constants: Vec::new(),
            fatal: Option::None,
            missing_symbols: Vec::new(),
            error_symbols: Vec::new(),
            valid_utf8: true,
            invalid_utf8_offset: 0,
        }
    }
}

/// Convert an IR unit to a persisted unit, together with the grown
/// bytecode-domain interner.  Succeeds exactly when every name the
/// persisted representation requires to be text denotes valid text; on
/// failure no partial unit is returned.
pub fn ir_to_bc(ir_unit: crate::ir_unit::IrUnit, globals: Interner) -> (r: Result<
    (crate::unit::Unit, Interner),
    ConvError,
>)
    requires
        globals.wf(),
        crate::ir_unit::wf_unit_ir(ir_unit),
        crate::ir_unit::unit_pool_demand(ir_unit) <= 0x1_0000_0000,
    ensures
        (r is Ok) <==> crate::unit::unit_den_names_utf8(crate::ir_unit::unit_den_ir(ir_unit)),
        r matches Ok(p) ==> p.1.wf() && table_extends(globals@, p.1@) && crate::unit::wf_unit_bc(
            p.0,
            p.1@,
        ) && crate::unit::unit_den_bc(p.0, p.1@) == crate::ir_unit::unit_den_ir(ir_unit)
            && pool_distinct(p.0.adata@, p.1@),
{
    let ghost ud = crate::ir_unit::unit_den_ir(ir_unit);
    let ghost t = ir_unit.strings@;
    let ghost g0 = globals@;
    let crate::ir_unit::IrUnit {
        strings,
        classes,
        constants,
        fatal,
        file_attributes,
        functions,
        module_use,
        modules,
        symbol_refs,
        typedefs,
    } = ir_unit;
    let mut sc = StringCache::new(strings, globals);
    let mut builder = UnitBuilder::new();

    // Classes first, then functions; bodies intern constants into the pool.
    let nc = classes.len();
    let mut ci: usize = 0;
    while ci < nc
        invariant
            sc.wf(),
            sc.ir_view() == t,
            table_extends(g0, sc.globals_view()),
            crate::ir_unit::wf_unit_ir(ir_unit),
            classes == ir_unit.classes,
            t == ir_unit.strings@,
            ud == crate::ir_unit::unit_den_ir(ir_unit),
            nc == classes@.len(),
            ci <= nc,
            builder.classes@.len() == ci,
            builder.functions@.len() == 0,
            builder.adata_cache@.len() <= crate::ir_unit::classes_pool_demand(
                classes@,
                ci as int,
            ),
            crate::ir_unit::unit_pool_demand(ir_unit) <= 0x1_0000_0000,
            pool_distinct(builder.adata_cache@, sc.globals_view()),
            forall|i: int|
                0 <= i < builder.adata_cache@.len() ==> wf_tv_full(
                    #[trigger] builder.adata_cache@[i],
                    sc.globals_view(),
                ),
            forall|i: int|
                0 <= i < ci ==> crate::unit::wf_class_bc(
                    #[trigger] builder.classes@[i],
                    sc.globals_view(),
                    builder.adata_cache@.len() as int,
                ) && crate::unit::class_den_bc(
                    builder.classes@[i],
                    sc.globals_view(),
                    pool_den_bc(builder.adata_cache@, sc.globals_view()),
                ) == crate::ir_unit::class_den_ir(classes@[i], t),
            forall|i: int|
                0 <= i < ci ==> crate::unit::class_den_names_utf8(
                    crate::ir_unit::class_den_ir(#[trigger] classes@[i], t),
                ),
        decreases nc - ci,
    {
        let ghost g1 = sc.globals_view();
        let ghost pool1 = builder.adata_cache@;
        proof {
            crate::ir_unit::lemma_classes_pool_demand_mono(classes@, ci + 1, nc as int);
            crate::ir_unit::lemma_funcs_pool_demand_mono(
                ir_unit.functions@,
                0,
                ir_unit.functions@.len() as int,
            );
            assert(crate::ir_unit::classes_pool_demand(classes@, ci + 1)
                == crate::ir_unit::classes_pool_demand(classes@, ci as int)
                + crate::ir_unit::class_pool_demand(classes@[ci as int]));
        }
        let c = match convert_class_ir(&classes[ci], &mut sc, &mut builder.adata_cache) {
            Ok(c) => c,
            Err(e) => {
                proof {
                    assert(ud.classes[ci as int] == crate::ir_unit::class_den_ir(
                        classes@[ci as int],
                        t,
                    ));
                }
                return Err(e);
            },
        };
        proof {
            let g2 = sc.globals_view();
            let pool2 = builder.adata_cache@;
            assert forall|i: int| 0 <= i < ci implies crate::unit::wf_class_bc(
                #[trigger] builder.classes@[i],
                g2,
                pool2.len() as int,
            ) && crate::unit::class_den_bc(builder.classes@[i], g2, pool_den_bc(pool2, g2))
                == crate::ir_unit::class_den_ir(classes@[i], t) by {
                assert forall|k: int| 0 <= k < pool1.len() implies #[trigger] pool_den_bc(
                    pool2,
                    g2,
                )[k] == pool_den_bc(pool1, g1)[k] by {
                    assert(pool2[k] == pool1[k]);
                    lemma_wf_tv_full_extends(pool1[k], g1, g2);
                }
                crate::unit::lemma_class_den_bc_extends(
                    builder.classes@[i],
                    g1,
                    g2,
                    pool_den_bc(pool1, g1),
                    pool_den_bc(pool2, g2),
                );
            }
        }
        builder.classes.push(c);
        ci += 1;
    }

    let nf = functions.len();
    let mut fi: usize = 0;
    while fi < nf
        invariant
            sc.wf(),
            sc.ir_view() == t,
            table_extends(g0, sc.globals_view()),
            crate::ir_unit::wf_unit_ir(ir_unit),
            classes == ir_unit.classes,
            functions == ir_unit.functions,
            t == ir_unit.strings@,
            ud == crate::ir_unit::unit_den_ir(ir_unit),
            nc == classes@.len(),
            builder.classes@.len() == nc,
            nf == functions@.len(),
            fi <= nf,
            builder.functions@.len() == fi,
            builder.adata_cache@.len() <= crate::ir_unit::classes_pool_demand(classes@, nc as int)
                + crate::ir_unit::funcs_pool_demand(functions@, fi as int),
            crate::ir_unit::unit_pool_demand(ir_unit) <= 0x1_0000_0000,
            pool_distinct(builder.adata_cache@, sc.globals_view()),
            forall|i: int|
                0 <= i < builder.adata_cache@.len() ==> wf_tv_full(
                    #[trigger] builder.adata_cache@[i],
                    sc.globals_view(),
                ),
            forall|i: int|
                0 <= i < nc ==> crate::unit::wf_class_bc(
                    #[trigger] builder.classes@[i],
                    sc.globals_view(),
                    builder.adata_cache@.len() as int,
                ) && crate::unit::class_den_bc(
                    builder.classes@[i],
                    sc.globals_view(),
                    pool_den_bc(builder.adata_cache@, sc.globals_view()),
                ) == crate::ir_unit::class_den_ir(classes@[i], t),
            forall|i: int|
                0 <= i < nc ==> crate::unit::class_den_names_utf8(
                    crate::ir_unit::class_den_ir(#[trigger] classes@[i], t),
                ),
            forall|i: int|
                0 <= i < fi ==> crate::unit::wf_function_bc(
                    #[trigger] builder.functions@[i],
                    sc.globals_view(),
                    builder.adata_cache@.len() as int,
                ) && crate::unit::func_den_bc(
                    builder.functions@[i],
                    sc.globals_view(),
                    pool_den_bc(builder.adata_cache@, sc.globals_view()),
                ) == crate::ir_unit::func_den_ir(functions@[i], t),
            forall|i: int|
                0 <= i < fi ==> crate::unit::func_den_names_utf8(
                    crate::ir_unit::func_den_ir(#[trigger] functions@[i], t),
                ),
        decreases nf - fi,
    {
        let ghost g1 = sc.globals_view();
        let ghost pool1 = builder.adata_cache@;
        proof {
            crate::ir_unit::lemma_funcs_pool_demand_mono(functions@, fi + 1, nf as int);
            assert(crate::ir_unit::funcs_pool_demand(functions@, fi + 1)
                == crate::ir_unit::funcs_pool_demand(functions@, fi as int)
                + functions@[fi as int].body.constants@.len());
        }
        let f = match convert_function_ir(&functions[fi], &mut sc, &mut builder.adata_cache) {
            Ok(f) => f,
            Err(e) => {
                proof {
                    assert(ud.functions[fi as int] == crate::ir_unit::func_den_ir(
                        functions@[fi as int],
                        t,
                    ));
                }
                return Err(e);
            },
        };
        proof {
            let g2 = sc.globals_view();
            let pool2 = builder.adata_cache@;
            assert forall|k: int| 0 <= k < pool1.len() implies #[trigger] pool_den_bc(
                pool2,
                g2,
            )[k] == pool_den_bc(pool1, g1)[k] by {
                assert(pool2[k] == pool1[k]);
                lemma_wf_tv_full_extends(pool1[k], g1, g2);
            }
            assert forall|i: int| 0 <= i < nc implies crate::unit::wf_class_bc(
                #[trigger] builder.classes@[i],
                g2,
                pool2.len() as int,
            ) && crate::unit::class_den_bc(builder.classes@[i], g2, pool_den_bc(pool2, g2))
                == crate::ir_unit::class_den_ir(classes@[i], t) by {
                crate::unit::lemma_class_den_bc_extends(
                    builder.classes@[i],
                    g1,
                    g2,
                    pool_den_bc(pool1, g1),
                    pool_den_bc(pool2, g2),
                );
            }
            assert forall|i: int| 0 <= i < fi implies crate::unit::wf_function_bc(
                #[trigger] builder.functions@[i],
                g2,
                pool2.len() as int,
            ) && crate::unit::func_den_bc(builder.functions@[i], g2, pool_den_bc(pool2, g2))
                == crate::ir_unit::func_den_ir(functions@[i], t) by {
                crate::unit::lemma_func_den_bc_extends(
                    builder.functions@[i],
                    g1,
                    g2,
                    pool_den_bc(pool1, g1),
                    pool_den_bc(pool2, g2),
                );
            }
        }
        builder.functions.push(f);
        fi += 1;
    }
    let ghost g_pool = sc.globals_view();
    let ghost pool_final = builder.adata_cache@;

    let mut unit = builder.finish();

    // The remaining top-level fields have no ordering dependency.
    let fa = match convert_attributes(&file_attributes, &mut sc) {
        Ok(x) => x,
        Err(e) => {
            proof {
                let j = choose|j: int|
                    0 <= j < file_attributes@.len() && !attr_den_names_utf8(
                        attr_den_ir(#[trigger] file_attributes@[j], t),
                    );
                assert(ud.file_attributes[j] == attr_den_ir(file_attributes@[j], t));
            }
            return Err(e);
        },
    };
    unit.file_attributes = fa;
    let ghost g_fa = sc.globals_view();
    let td = match convert_typedefs_ir(&typedefs, &mut sc) {
        Ok(x) => x,
        Err(e) => {
            proof {
                let j = choose|j: int|
                    0 <= j < typedefs@.len() && !typedef_den_names_utf8(
                        typedef_den_ir(#[trigger] typedefs@[j], t),
                    );
                assert(ud.typedefs[j] == typedef_den_ir(typedefs@[j], t));
            }
            return Err(e);
        },
    };
    unit.typedefs = td;
    let ghost g_td = sc.globals_view();
    let cs = match convert_constants_ir(&constants, &mut sc) {
        Ok(x) => x,
        Err(e) => {
            proof {
                let j = choose|j: int|
                    0 <= j < constants@.len() && !const_den_names_utf8(
                        const_den_ir(#[trigger] constants@[j], t),
                    );
                assert(ud.constants[j] == const_den_ir(constants@[j], t));
            }
            return Err(e);
        },
    };
    unit.constants = cs;
    let ghost g_cs = sc.globals_view();
    let mo = match convert_modules_ir(&modules, &mut sc) {
        Ok(x) => x,
        Err(e) => {
            proof {
                let j = choose|j: int|
                    0 <= j < modules@.len() && !module_den_names_utf8(
                        module_den_ir(#[trigger] modules@[j], t),
                    );
                assert(ud.modules[j] == module_den_ir(modules@[j], t));
            }
            return Err(e);
        },
    };
    unit.modules = mo;
    let ghost g_mo = sc.globals_view();
    let mu = match &module_use {
        Some(id) => {
            match sc.lookup_module_name(*id) {
                Ok(n) => Some(n),
                Err(e) => {
                    proof {
                        assert(ud.module_use == Some(t[module_use.unwrap().0 as int]));
                    }
                    return Err(e);
                },
            }
        },
        Option::None => Option::None,
    };
    proof {
        if module_use is Some {
            assert(ud.module_use == Some(t[module_use.unwrap().0 as int]));
        } else {
            assert(ud.module_use is None);
        }
    }
    unit.module_use = mu;
    unit.symbol_refs = crate::bc_to_ir::clone_symbol_refs(&symbol_refs);

    // Translate the fatal operation kind through an explicit exhaustive
    // mapping and copy the record.
    unit.fatal = match &fatal {
        Some(f) => {
            let op = match f.op {
                crate::unit::FatalOp::Parse => crate::unit::FatalOp::Parse,
                crate::unit::FatalOp::Runtime => crate::unit::FatalOp::Runtime,
                crate::unit::FatalOp::RuntimeOmitFrame => crate::unit::FatalOp::RuntimeOmitFrame,
            };
            let mut message: Vec<u8> = Vec::new();
            message.extend_from_slice(f.message.as_slice());
            proof {
                assert(message@ =~= fatal.unwrap().message@);
            }
            Some(crate::unit::Fatal { op, loc: f.loc, message })
        },
        Option::None => Option::None,
    };

    let (_, globals_out) = sc.finish();
    let ghost g_end = globals_out@;
    proof {
        lemma_table_extends_trans(g_pool, g_fa, g_td);
        lemma_table_extends_trans(g_pool, g_td, g_cs);
        lemma_table_extends_trans(g_pool, g_cs, g_mo);
        lemma_table_extends_trans(g_pool, g_mo, g_end);
        lemma_table_extends_trans(g_fa, g_td, g_cs);
        lemma_table_extends_trans(g_fa, g_cs, g_mo);
        lemma_table_extends_trans(g_fa, g_mo, g_end);
        lemma_table_extends_trans(g_td, g_cs, g_mo);
        lemma_table_extends_trans(g_td, g_mo, g_end);
        lemma_table_extends_trans(g_cs, g_mo, g_end);
        lemma_table_extends_trans(g0, g_pool, g_end);

        // The pool entries and their denotations at the final table.
        assert forall|i: int| 0 <= i < unit.adata@.len() implies wf_tv_full(
            #[trigger] unit.adata@[i],
            g_end,
        ) && pool_den_bc(unit.adata@, g_end)[i] == pool_den_bc(pool_final, g_pool)[i] by {
            lemma_wf_tv_full_extends(unit.adata@[i], g_pool, g_end);
        }
        let pool_end = pool_den_bc(unit.adata@, g_end);
        assert(pool_end =~= pool_den_bc(pool_final, g_pool));
        lemma_pool_distinct_extends(unit.adata@, g_pool, g_end);

        // Classes and functions at the final table.
        assert forall|i: int| 0 <= i < unit.classes@.len() implies crate::unit::wf_class_bc(
            #[trigger] unit.classes@[i],
            g_end,
            unit.adata@.len() as int,
        ) && crate::unit::class_den_bc(unit.classes@[i], g_end, pool_end)
            == crate::ir_unit::class_den_ir(classes@[i], t) by {
            crate::unit::lemma_class_den_bc_extends(
                unit.classes@[i],
                g_pool,
                g_end,
                pool_den_bc(pool_final, g_pool),
                pool_end,
            );
        }
        assert forall|i: int| 0 <= i < unit.functions@.len() implies crate::unit::wf_function_bc(
            #[trigger] unit.functions@[i],
            g_end,
            unit.adata@.len() as int,
        ) && crate::unit::func_den_bc(unit.functions@[i], g_end, pool_end)
            == crate::ir_unit::func_den_ir(functions@[i], t) by {
            crate::unit::lemma_func_den_bc_extends(
                unit.functions@[i],
                g_pool,
                g_end,
                pool_den_bc(pool_final, g_pool),
                pool_end,
            );
        }

        // The independent fields at the final table.
        assert forall|i: int| 0 <= i < unit.file_attributes@.len() implies wf_attr_bc(
            #[trigger] unit.file_attributes@[i],
            g_end,
        ) && attr_den_bc(unit.file_attributes@[i], g_end) == attr_den_ir(
            file_attributes@[i],
            t,
        ) by {
            lemma_attr_den_bc_extends(unit.file_attributes@[i], g_fa, g_end);
        }
        assert forall|i: int| 0 <= i < unit.typedefs@.len() implies wf_typedef_bc(
            #[trigger] unit.typedefs@[i],
            g_end,
        ) && typedef_den_bc(unit.typedefs@[i], g_end) == typedef_den_ir(typedefs@[i], t) by {
            crate::unit::lemma_typedef_den_bc_extends(unit.typedefs@[i], g_td, g_end);
        }
        assert forall|i: int| 0 <= i < unit.constants@.len() implies wf_const_bc(
            #[trigger] unit.constants@[i],
            g_end,
        ) && const_den_bc(unit.constants@[i], g_end) == const_den_ir(constants@[i], t) by {
            crate::unit::lemma_const_den_bc_extends(unit.constants@[i], g_cs, g_end);
        }
        assert forall|i: int| 0 <= i < unit.modules@.len() implies wf_module_bc(
            #[trigger] unit.modules@[i],
            g_end,
        ) && module_den_bc(unit.modules@[i], g_end) == module_den_ir(modules@[i], t) by {
            crate::unit::lemma_module_den_bc_extends(unit.modules@[i], g_mo, g_end);
        }

        // Assemble the denotation equality, field by field.
        assert(unit.functions@.map_values(
            |f: crate::unit::Function| crate::unit::func_den_bc(f, g_end, pool_end),
        ) =~= functions@.map_values(
            |f: crate::ir_unit::IrFunction| crate::ir_unit::func_den_ir(f, t),
        ));
        assert(unit.classes@.map_values(
            |c: crate::unit::Class| crate::unit::class_den_bc(c, g_end, pool_end),
        ) =~= classes@.map_values(
            |c: crate::ir_unit::IrClass| crate::ir_unit::class_den_ir(c, t),
        ));
        assert(unit.constants@.map_values(|k: Constant| const_den_bc(k, g_end))
            =~= constants@.map_values(|k: IrConstant| const_den_ir(k, t)));
        assert(unit.modules@.map_values(|m: Module| module_den_bc(m, g_end))
            =~= modules@.map_values(|m: IrModule| module_den_ir(m, t)));
        assert(unit.typedefs@.map_values(|d: Typedef| typedef_den_bc(d, g_end))
            =~= typedefs@.map_values(|d: IrTypedef| typedef_den_ir(d, t)));
        assert(unit.file_attributes@.map_values(|a: Attribute| attr_den_bc(a, g_end))
            =~= file_attributes@.map_values(|a: IrAttribute| attr_den_ir(a, t)));
        assert(crate::unit::unit_den_bc(unit, g_end) == ud);

        // Success is owed exactly when every required name denotes text.
        assert forall|i: int| 0 <= i < ud.functions.len() implies crate::unit::func_den_names_utf8(
            #[trigger] ud.functions[i],
        ) by {
            assert(ud.functions[i] == crate::ir_unit::func_den_ir(functions@[i], t));
        }
        assert forall|i: int| 0 <= i < ud.classes.len() implies crate::unit::class_den_names_utf8(
            #[trigger] ud.classes[i],
        ) by {
            assert(ud.classes[i] == crate::ir_unit::class_den_ir(classes@[i], t));
        }
        assert forall|i: int| 0 <= i < ud.constants.len() implies const_den_names_utf8(
            #[trigger] ud.constants[i],
        ) by {
            assert(ud.constants[i] == const_den_ir(constants@[i], t));
        }
        assert forall|i: int| 0 <= i < ud.modules.len() implies module_den_names_utf8(
            #[trigger] ud.modules[i],
        ) by {
            assert(ud.modules[i] == module_den_ir(modules@[i], t));
        }
        assert forall|i: int| 0 <= i < ud.typedefs.len() implies typedef_den_names_utf8(
            #[trigger] ud.typedefs[i],
        ) by {
            assert(ud.typedefs[i] == typedef_den_ir(typedefs@[i], t));
        }
        assert forall|i: int| 0 <= i < ud.file_attributes.len() implies attr_den_names_utf8(
            #[trigger] ud.file_attributes[i],
        ) by {
            assert(ud.file_attributes[i] == attr_den_ir(file_attributes@[i], t));
        }
    }
    Ok((unit, globals_out))
}

/// Law: converting a well-formed persisted unit to the IR and back yields a
/// unit with the same denotation — the same functions, classes and
/// constants, modulo constant-pool reordering, deduplication and freshly
/// assigned handles, which the denotation quotients away.
pub proof fn lemma_unit_round_trip(
    u: crate::unit::Unit,
    g: Seq<Seq<u8>>,
    v: crate::ir_unit::IrUnit,
    w: crate::unit::Unit,
    g2: Seq<Seq<u8>>,
)
    requires
        crate::ir_unit::unit_den_ir(v) == crate::unit::unit_den_bc(u, g),
        crate::unit::unit_den_bc(w, g2) == crate::ir_unit::unit_den_ir(v),
    ensures
        crate::unit::unit_den_bc(w, g2) == crate::unit::unit_den_bc(u, g),
{
}

} // verus!
