//! The bridging cache used by the IR-to-bytecode conversion: it owns the
//! IR-domain interner it reads and the bytecode-domain interner it fills,
//! and memoizes the handle translation in a concurrent map, first writer
//! wins.

use vstd::prelude::*;

use crate::errors::ConvError;
use crate::interner::Interner;
use crate::interner::StringId;
use crate::interner::UnitBytesId;
use crate::names::ClassName;
use crate::names::ConstName;
use crate::names::FunctionName;
use crate::names::MethodName;
use crate::names::ModuleName;
use crate::names::PropName;
use crate::typed_value::table_extends;
use crate::utf8::check_utf8;
use crate::utf8::is_utf8;

verus! {

#[verifier::external_type_specification]
#[verifier::external_body]
#[verifier::reject_recursive_types(K)]
#[verifier::reject_recursive_types(V)]
#[verifier::reject_recursive_types(S)]
pub struct ExDashMap<K, V, S>(dashmap::DashMap<K, V, S>);

/// The concurrent map the bridging cache memoizes handle translations in.
/// The cache is a hint only: every hit is re-validated against the two
/// interners before it is believed, so nothing is assumed of the map's
/// contents.
pub type DashCache = dashmap::DashMap<usize, usize>;

/// Relies on dashmap::DashMap::new for a fresh memo map; nothing is assumed
/// of it.
#[verifier::external_body]
fn dash_new() -> DashCache {
    dashmap::DashMap::new()
}

/// Relies on dashmap::DashMap::get for a memoized translation; nothing is
/// assumed of the answer, which the caller re-validates.
#[verifier::external_body]
fn dash_get(m: &DashCache, k: usize) -> Option<usize> {
    m.get(&k).map(|v| *v)
}

/// Relies on dashmap::DashMap::insert to memoize a translation; nothing is
/// assumed of the map afterwards.
#[verifier::external_body]
fn dash_insert(m: &DashCache, k: usize, v: usize) {
    let _ = m.insert(k, v);
}

/// The bridging cache of one IR-to-bytecode conversion pass.
pub struct StringCache {
    ir: Interner,
    globals: Interner,
    cache: DashCache,
}

impl StringCache {
    /// The IR-domain interner table.
    pub closed spec fn ir_view(&self) -> Seq<Seq<u8>> {
        self.ir@
    }

    /// The bytecode-domain interner table.
    pub closed spec fn globals_view(&self) -> Seq<Seq<u8>> {
        self.globals@
    }

    /// Both interners are well formed.  Nothing is assumed of the memo map:
    /// its answers are re-validated on every use.
    pub closed spec fn wf(&self) -> bool {
        &&& self.ir.wf()
        &&& self.globals.wf()
    }

    /// Start a conversion pass over the strings of `ir`, filling `globals`.
    pub fn new(ir: Interner, globals: Interner) -> (r: StringCache)
        requires
            ir.wf(),
            globals.wf(),
        ensures
            r.wf(),
            r.ir_view() == ir@,
            r.globals_view() == globals@,
    {
        StringCache { ir, globals, cache: dash_new() }
    }

    /// Borrow the bytecode-domain interner.
    pub fn globals_ref(&self) -> (r: &Interner)
        requires
            self.wf(),
        ensures
            r@ == self.globals_view(),
            r.wf(),
    {
        &self.globals
    }

    /// Hand back the two interners when the pass is over.
    pub fn finish(self) -> (r: (Interner, Interner))
        requires
            self.wf(),
        ensures
            r.0@ == self.ir_view(),
            r.1@ == self.globals_view(),
            r.0.wf(),
            r.1.wf(),
    {
        (self.ir, self.globals)
    }

    /// The bytes an IR-domain handle stands for.
    pub fn lookup_ffi_str(&self, id: UnitBytesId) -> (r: &Vec<u8>)
        requires
            self.wf(),
            id.0 < self.ir_view().len(),
        ensures
            r@ == self.ir_view()[id.0 as int],
    {
        self.ir.lookup(id.0)
    }

    /// Translate an IR-domain handle into a bytecode-domain handle for the
    /// same bytes, memoized.
    pub fn intern_bytes_id(&mut self, id: UnitBytesId) -> (r: StringId)
        requires
            old(self).wf(),
            id.0 < old(self).ir_view().len(),
        ensures
            final(self).wf(),
            final(self).ir_view() == old(self).ir_view(),
            table_extends(old(self).globals_view(), final(self).globals_view()),
            r.0 < final(self).globals_view().len(),
            final(self).globals_view()[r.0 as int] == final(self).ir_view()[id.0 as int],
    {
        let hit = dash_get(&self.cache, id.0);
        match hit {
            Some(g) if g < self.globals.len() && crate::interner::bytes_eq(
                self.globals.lookup(g).as_slice(),
                self.ir.lookup(id.0).as_slice(),
            ) => StringId(g),
            _ => {
                let bytes = self.ir.lookup(id.0);
                let g = self.globals.intern_bytes(bytes.as_slice());
                proof {
                    if old(self).globals_view().contains(old(self).ir_view()[id.0 as int]) {
                        assert(table_extends(old(self).globals_view(), self.globals@));
                    } else {
                        assert(forall|i: int|
                            0 <= i < old(self).globals_view().len()
                                ==> self.globals@[i] == old(self).globals_view()[i]);
                    }
                }
                dash_insert(&self.cache, id.0, g);
                StringId(g)
            },
        }
    }

    /// Translate an IR-domain handle whose bytes must be valid text.  Fails,
    /// and changes nothing a caller can see, when the bytes are not.
    pub fn intern(&mut self, id: UnitBytesId) -> (r: Result<StringId, ConvError>)
        requires
            old(self).wf(),
            id.0 < old(self).ir_view().len(),
        ensures
            final(self).wf(),
            final(self).ir_view() == old(self).ir_view(),
            table_extends(old(self).globals_view(), final(self).globals_view()),
            (r is Ok) <==> is_utf8(old(self).ir_view()[id.0 as int]),
            r matches Ok(g) ==> g.0 < final(self).globals_view().len()
                && final(self).globals_view()[g.0 as int] == final(self).ir_view()[id.0 as int],
    {
        let ok = {
            let bytes = self.ir.lookup(id.0);
            check_utf8(bytes.as_slice())
        };
        if !ok {
            return Err(ConvError::NotUtf8);
        }
        Ok(self.intern_bytes_id(id))
    }

    /// The class name an IR-domain handle stands for; its bytes must be
    /// valid text.
    pub fn lookup_class_name(&self, id: UnitBytesId) -> (r: Result<ClassName, ConvError>)
        requires
            self.wf(),
            id.0 < self.ir_view().len(),
        ensures
            (r is Ok) <==> is_utf8(self.ir_view()[id.0 as int]),
            r matches Ok(n) ==> n@ == self.ir_view()[id.0 as int],
    {
        let bytes = self.ir.lookup(id.0);
        if check_utf8(bytes.as_slice()) {
            Ok(ClassName::from_bytes(bytes.as_slice()))
        } else {
            Err(ConvError::NotUtf8)
        }
    }

    /// The module name an IR-domain handle stands for.
    pub fn lookup_module_name(&self, id: UnitBytesId) -> (r: Result<ModuleName, ConvError>)
        requires
            self.wf(),
            id.0 < self.ir_view().len(),
        ensures
            (r is Ok) <==> is_utf8(self.ir_view()[id.0 as int]),
            r matches Ok(n) ==> n@ == self.ir_view()[id.0 as int],
    {
        let bytes = self.ir.lookup(id.0);
        if check_utf8(bytes.as_slice()) {
            Ok(ModuleName::from_bytes(bytes.as_slice()))
        } else {
            Err(ConvError::NotUtf8)
        }
    }

    /// The constant name an IR-domain handle stands for.
    pub fn lookup_const_name(&self, id: UnitBytesId) -> (r: Result<ConstName, ConvError>)
        requires
            self.wf(),
            id.0 < self.ir_view().len(),
        ensures
            (r is Ok) <==> is_utf8(self.ir_view()[id.0 as int]),
            r matches Ok(n) ==> n@ == self.ir_view()[id.0 as int],
    {
        let bytes = self.ir.lookup(id.0);
        if check_utf8(bytes.as_slice()) {
            Ok(ConstName::from_bytes(bytes.as_slice()))
        } else {
            Err(ConvError::NotUtf8)
        }
    }

    /// The method name an IR-domain handle stands for.  Method names carry
    /// arbitrary bytes, so this lookup is total.
    pub fn lookup_method_name(&self, id: UnitBytesId) -> (r: MethodName)
        requires
            self.wf(),
            id.0 < self.ir_view().len(),
        ensures
            r@ == self.ir_view()[id.0 as int],
    {
        let bytes = self.ir.lookup(id.0);
        MethodName::from_bytes(bytes.as_slice())
    }

    /// The function name an IR-domain handle stands for.
    pub fn lookup_function_name(&self, id: UnitBytesId) -> (r: Result<FunctionName, ConvError>)
        requires
            self.wf(),
            id.0 < self.ir_view().len(),
        ensures
            (r is Ok) <==> is_utf8(self.ir_view()[id.0 as int]),
            r matches Ok(n) ==> n@ == self.ir_view()[id.0 as int],
    {
        let bytes = self.ir.lookup(id.0);
        if check_utf8(bytes.as_slice()) {
            Ok(FunctionName::intern(bytes.as_slice()))
        } else {
            Err(ConvError::NotUtf8)
        }
    }

    /// The property name an IR-domain handle stands for.
    pub fn lookup_prop_name(&self, id: UnitBytesId) -> (r: Result<PropName, ConvError>)
        requires
            self.wf(),
            id.0 < self.ir_view().len(),
        ensures
            (r is Ok) <==> is_utf8(self.ir_view()[id.0 as int]),
            r matches Ok(n) ==> n@ == self.ir_view()[id.0 as int],
    {
        let bytes = self.ir.lookup(id.0);
        if check_utf8(bytes.as_slice()) {
            Ok(PropName::from_bytes(bytes.as_slice()))
        } else {
            Err(ConvError::NotUtf8)
        }
    }
}

} // verus!
