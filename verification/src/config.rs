//! Best-effort reading of runtime configuration into compiler flags.
//!
//! The on-disk configuration is turned into plain key/boolean settings by
//! an external collaborator; this module holds the decision logic: for each
//! flag, take the configured value under its key if one is present, else
//! keep the default.

use vstd::prelude::*;
use vstd::slice::slice_to_vec;

use crate::interner::bytes_eq;

verus! {

/// The settings a configuration holds, as plain key/boolean pairs.  The
/// first entry for a key wins.
pub struct HhvmConfig {
    settings: Vec<(Vec<u8>, bool)>,
}

/// The value the configuration assigns a key, if any: the first matching
/// entry.
pub open spec fn spec_config_get(entries: Seq<(Vec<u8>, bool)>, name: Seq<u8>) -> Option<bool>
    decreases entries.len(),
{
    if entries.len() == 0 {
        Option::None
    } else if entries[0].0@ == name {
        Some(entries[0].1)
    } else {
        spec_config_get(entries.skip(1), name)
    }
}

/// The configured value under a key, or the given default.
pub open spec fn spec_config_or(
    entries: Seq<(Vec<u8>, bool)>,
    name: Seq<u8>,
    default: bool,
) -> bool {
    match spec_config_get(entries, name) {
        Some(b) => b,
        Option::None => default,
    }
}

impl View for HhvmConfig {
    type V = Seq<(Vec<u8>, bool)>;

    closed spec fn view(&self) -> Seq<(Vec<u8>, bool)> {
        self.settings@
    }
}

impl HhvmConfig {
    pub fn new() -> (r: HhvmConfig)
        ensures
            r@ =~= Seq::<(Vec<u8>, bool)>::empty(),
    {
        HhvmConfig { settings: Vec::new() }
    }

    /// Record one setting, as read from the on-disk configuration.
    pub fn set(&mut self, name: &[u8], value: bool)
        ensures
            final(self)@.len() == old(self)@.len() + 1,
            final(self)@.last().0@ == name@,
            final(self)@.last().1 == value,
            forall|i: int| 0 <= i < old(self)@.len() ==> final(self)@[i] == old(self)@[i],
    {
        let owned = slice_to_vec(name);
        self.settings.push((owned, value));
    }

    /// Look a key up; absent keys leave the caller's default in place.
    pub fn get_bool(&self, name: &[u8]) -> (r: Option<bool>)
        ensures
            r == spec_config_get(self@, name@),
    {
        let n = self.settings.len();
        let mut i: usize = 0;
        proof {
            assert(self@.skip(0) =~= self@);
        }
        while i < n
            invariant
                n == self@.len(),
                i <= n,
                spec_config_get(self@, name@) == spec_config_get(self@.skip(i as int), name@),
            decreases n - i,
        {
            proof {
                assert(self@.skip(i as int)[0] == self@[i as int]);
                assert(self@.skip(i as int).skip(1) =~= self@.skip(i + 1));
            }
            if bytes_eq(self.settings[i].0.as_slice(), name) {
                return Some(self.settings[i].1);
            }
            i += 1;
        }
        Option::None
    }
}

/// The flags controlling bytecode emission that this layer reads.
pub struct HhbcFlags {
    pub ltr_assign: bool,
    pub uvs: bool,
    pub log_extern_compiler_perf: bool,
    pub enable_intrinsics_extension: bool,
    pub emit_cls_meth_pointers: bool,
    pub optimize_reified_param_checks: bool,
    pub enable_native_enum_class_labels: bool,
    pub fold_lazy_class_keys: bool,
}

pub open spec fn spec_key_ltr_assign() -> Seq<u8> {
    seq![0x70u8, 0x68u8, 0x70u8, 0x37u8, 0x2Eu8, 0x6Cu8, 0x74u8, 0x72u8, 0x5Fu8, 0x61u8, 0x73u8, 0x73u8, 0x69u8, 0x67u8, 0x6Eu8]
}

pub open spec fn spec_key_uvs() -> Seq<u8> {
    seq![0x70u8, 0x68u8, 0x70u8, 0x37u8, 0x2Eu8, 0x75u8, 0x76u8, 0x73u8]
}

pub open spec fn spec_key_log_extern_compiler_perf() -> Seq<u8> {
    seq![0x45u8, 0x76u8, 0x61u8, 0x6Cu8, 0x2Eu8, 0x4Cu8, 0x6Fu8, 0x67u8, 0x45u8, 0x78u8, 0x74u8, 0x65u8, 0x72u8, 0x6Eu8, 0x43u8, 0x6Fu8, 0x6Du8, 0x70u8, 0x69u8, 0x6Cu8, 0x65u8, 0x72u8, 0x50u8, 0x65u8, 0x72u8, 0x66u8]
}

pub open spec fn spec_key_enable_intrinsics_extension() -> Seq<u8> {
    seq![0x45u8, 0x76u8, 0x61u8, 0x6Cu8, 0x2Eu8, 0x45u8, 0x6Eu8, 0x61u8, 0x62u8, 0x6Cu8, 0x65u8, 0x49u8, 0x6Eu8, 0x74u8, 0x72u8, 0x69u8, 0x6Eu8, 0x73u8, 0x69u8, 0x63u8, 0x73u8, 0x45u8, 0x78u8, 0x74u8, 0x65u8, 0x6Eu8, 0x73u8, 0x69u8, 0x6Fu8, 0x6Eu8]
}

pub open spec fn spec_key_emit_cls_meth_pointers() -> Seq<u8> {
    seq![0x45u8, 0x76u8, 0x61u8, 0x6Cu8, 0x2Eu8, 0x45u8, 0x6Du8, 0x69u8, 0x74u8, 0x43u8, 0x6Cu8, 0x73u8, 0x4Du8, 0x65u8, 0x74u8, 0x68u8, 0x50u8, 0x6Fu8, 0x69u8, 0x6Eu8, 0x74u8, 0x65u8, 0x72u8, 0x73u8]
}

pub open spec fn spec_key_optimize_reified_param_checks() -> Seq<u8> {
    seq![0x48u8, 0x61u8, 0x63u8, 0x6Bu8, 0x2Eu8, 0x4Cu8, 0x61u8, 0x6Eu8, 0x67u8, 0x2Eu8, 0x4Fu8, 0x70u8, 0x74u8, 0x69u8, 0x6Du8, 0x69u8, 0x7Au8, 0x65u8, 0x52u8, 0x65u8, 0x69u8, 0x66u8, 0x69u8, 0x65u8, 0x64u8, 0x50u8, 0x61u8, 0x72u8, 0x61u8, 0x6Du8, 0x43u8, 0x68u8, 0x65u8, 0x63u8, 0x6Bu8, 0x73u8]
}

pub open spec fn spec_key_enable_native_enum_class_labels() -> Seq<u8> {
    seq![0x45u8, 0x76u8, 0x61u8, 0x6Cu8, 0x2Eu8, 0x45u8, 0x6Du8, 0x69u8, 0x74u8, 0x4Eu8, 0x61u8, 0x74u8, 0x69u8, 0x76u8, 0x65u8, 0x45u8, 0x6Eu8, 0x75u8, 0x6Du8, 0x43u8, 0x6Cu8, 0x61u8, 0x73u8, 0x73u8, 0x4Cu8, 0x61u8, 0x62u8, 0x65u8, 0x6Cu8, 0x73u8]
}

pub open spec fn spec_key_fold_lazy_class_keys() -> Seq<u8> {
    seq![0x45u8, 0x76u8, 0x61u8, 0x6Cu8, 0x2Eu8, 0x46u8, 0x6Fu8, 0x6Cu8, 0x64u8, 0x4Cu8, 0x61u8, 0x7Au8, 0x79u8, 0x43u8, 0x6Cu8, 0x61u8, 0x73u8, 0x73u8, 0x4Bu8, 0x65u8, 0x79u8, 0x73u8]
}

/// Read the bytecode-emission flags: each takes the configured value
/// under its key when one is provided, else keeps its default; only
/// `fold_lazy_class_keys` defaults to on.
pub fn hhbc_flags(config: &HhvmConfig) -> (r: HhbcFlags)
    ensures
        r.ltr_assign == spec_config_or(config@, spec_key_ltr_assign(), false),
        r.uvs == spec_config_or(config@, spec_key_uvs(), false),
        r.log_extern_compiler_perf == spec_config_or(config@, spec_key_log_extern_compiler_perf(), false),
        r.enable_intrinsics_extension == spec_config_or(config@, spec_key_enable_intrinsics_extension(), false),
        r.emit_cls_meth_pointers == spec_config_or(config@, spec_key_emit_cls_meth_pointers(), false),
        r.optimize_reified_param_checks == spec_config_or(config@, spec_key_optimize_reified_param_checks(), false),
        r.enable_native_enum_class_labels == spec_config_or(config@, spec_key_enable_native_enum_class_labels(), false),
        r.fold_lazy_class_keys == spec_config_or(config@, spec_key_fold_lazy_class_keys(), true),
{
    let key_ltr_assign: [u8; 15] = [0x70, 0x68, 0x70, 0x37, 0x2E, 0x6C, 0x74, 0x72, 0x5F, 0x61, 0x73, 0x73, 0x69, 0x67, 0x6E];
    let ltr_assign = match config.get_bool(key_ltr_assign.as_slice()) {
        Some(b) => b,
        Option::None => false,
    };
    proof {
        assert(key_ltr_assign@ =~= spec_key_ltr_assign());
    }
    let key_uvs: [u8; 8] = [0x70, 0x68, 0x70, 0x37, 0x2E, 0x75, 0x76, 0x73];
    let uvs = match config.get_bool(key_uvs.as_slice()) {
        Some(b) => b,
        Option::None => false,
    };
    proof {
        assert(key_uvs@ =~= spec_key_uvs());
    }
    let key_log_extern_compiler_perf: [u8; 26] = [0x45, 0x76, 0x61, 0x6C, 0x2E, 0x4C, 0x6F, 0x67, 0x45, 0x78, 0x74, 0x65, 0x72, 0x6E, 0x43, 0x6F, 0x6D, 0x70, 0x69, 0x6C, 0x65, 0x72, 0x50, 0x65, 0x72, 0x66];
    let log_extern_compiler_perf = match config.get_bool(key_log_extern_compiler_perf.as_slice()) {
        Some(b) => b,
        Option::None => false,
    };
    proof {
        assert(key_log_extern_compiler_perf@ =~= spec_key_log_extern_compiler_perf());
    }
    let key_enable_intrinsics_extension: [u8; 30] = [0x45, 0x76, 0x61, 0x6C, 0x2E, 0x45, 0x6E, 0x61, 0x62, 0x6C, 0x65, 0x49, 0x6E, 0x74, 0x72, 0x69, 0x6E, 0x73, 0x69, 0x63, 0x73, 0x45, 0x78, 0x74, 0x65, 0x6E, 0x73, 0x69, 0x6F, 0x6E];
    let enable_intrinsics_extension = match config.get_bool(key_enable_intrinsics_extension.as_slice()) {
        Some(b) => b,
        Option::None => false,
    };
    proof {
        assert(key_enable_intrinsics_extension@ =~= spec_key_enable_intrinsics_extension());
    }
    let key_emit_cls_meth_pointers: [u8; 24] = [0x45, 0x76, 0x61, 0x6C, 0x2E, 0x45, 0x6D, 0x69, 0x74, 0x43, 0x6C, 0x73, 0x4D, 0x65, 0x74, 0x68, 0x50, 0x6F, 0x69, 0x6E, 0x74, 0x65, 0x72, 0x73];
    let emit_cls_meth_pointers = match config.get_bool(key_emit_cls_meth_pointers.as_slice()) {
        Some(b) => b,
        Option::None => false,
    };
    proof {
        assert(key_emit_cls_meth_pointers@ =~= spec_key_emit_cls_meth_pointers());
    }
    let key_optimize_reified_param_checks: [u8; 36] = [0x48, 0x61, 0x63, 0x6B, 0x2E, 0x4C, 0x61, 0x6E, 0x67, 0x2E, 0x4F, 0x70, 0x74, 0x69, 0x6D, 0x69, 0x7A, 0x65, 0x52, 0x65, 0x69, 0x66, 0x69, 0x65, 0x64, 0x50, 0x61, 0x72, 0x61, 0x6D, 0x43, 0x68, 0x65, 0x63, 0x6B, 0x73];
    let optimize_reified_param_checks = match config.get_bool(key_optimize_reified_param_checks.as_slice()) {
        Some(b) => b,
        Option::None => false,
    };
    proof {
        assert(key_optimize_reified_param_checks@ =~= spec_key_optimize_reified_param_checks());
    }
    let key_enable_native_enum_class_labels: [u8; 30] = [0x45, 0x76, 0x61, 0x6C, 0x2E, 0x45, 0x6D, 0x69, 0x74, 0x4E, 0x61, 0x74, 0x69, 0x76, 0x65, 0x45, 0x6E, 0x75, 0x6D, 0x43, 0x6C, 0x61, 0x73, 0x73, 0x4C, 0x61, 0x62, 0x65, 0x6C, 0x73];
    let enable_native_enum_class_labels = match config.get_bool(key_enable_native_enum_class_labels.as_slice()) {
        Some(b) => b,
        Option::None => false,
    };
    proof {
        assert(key_enable_native_enum_class_labels@ =~= spec_key_enable_native_enum_class_labels());
    }
    let key_fold_lazy_class_keys: [u8; 22] = [0x45, 0x76, 0x61, 0x6C, 0x2E, 0x46, 0x6F, 0x6C, 0x64, 0x4C, 0x61, 0x7A, 0x79, 0x43, 0x6C, 0x61, 0x73, 0x73, 0x4B, 0x65, 0x79, 0x73];
    let fold_lazy_class_keys = match config.get_bool(key_fold_lazy_class_keys.as_slice()) {
        Some(b) => b,
        Option::None => true,
    };
    proof {
        assert(key_fold_lazy_class_keys@ =~= spec_key_fold_lazy_class_keys());
    }
    HhbcFlags {
        ltr_assign,
        uvs,
        log_extern_compiler_perf,
        enable_intrinsics_extension,
        emit_cls_meth_pointers,
        optimize_reified_param_checks,
        enable_native_enum_class_labels,
        fold_lazy_class_keys,
    }
}

/// The parser options that this layer reads.
pub struct ParserOptions {
    pub po_abstract_static_props: bool,
    pub po_allow_unstable_features: bool,
    pub po_const_default_func_args: bool,
    pub tco_const_static_props: bool,
    pub po_disable_xhp_element_mangling: bool,
    pub po_disallow_func_ptrs_in_constants: bool,
    pub po_enable_xhp_class_modifier: bool,
    pub po_enable_class_level_where_clauses: bool,
    pub po_disallow_direct_superglobals_refs: bool,
}

pub open spec fn spec_key_po_abstract_static_props() -> Seq<u8> {
    seq![0x48u8, 0x61u8, 0x63u8, 0x6Bu8, 0x2Eu8, 0x4Cu8, 0x61u8, 0x6Eu8, 0x67u8, 0x2Eu8, 0x41u8, 0x62u8, 0x73u8, 0x74u8, 0x72u8, 0x61u8, 0x63u8, 0x74u8, 0x53u8, 0x74u8, 0x61u8, 0x74u8, 0x69u8, 0x63u8, 0x50u8, 0x72u8, 0x6Fu8, 0x70u8, 0x73u8]
}

pub open spec fn spec_key_po_allow_unstable_features() -> Seq<u8> {
    seq![0x48u8, 0x61u8, 0x63u8, 0x6Bu8, 0x2Eu8, 0x4Cu8, 0x61u8, 0x6Eu8, 0x67u8, 0x2Eu8, 0x41u8, 0x6Cu8, 0x6Cu8, 0x6Fu8, 0x77u8, 0x55u8, 0x6Eu8, 0x73u8, 0x74u8, 0x61u8, 0x62u8, 0x6Cu8, 0x65u8, 0x46u8, 0x65u8, 0x61u8, 0x74u8, 0x75u8, 0x72u8, 0x65u8, 0x73u8]
}

pub open spec fn spec_key_po_const_default_func_args() -> Seq<u8> {
    seq![0x48u8, 0x61u8, 0x63u8, 0x6Bu8, 0x2Eu8, 0x4Cu8, 0x61u8, 0x6Eu8, 0x67u8, 0x2Eu8, 0x43u8, 0x6Fu8, 0x6Eu8, 0x73u8, 0x74u8, 0x44u8, 0x65u8, 0x66u8, 0x61u8, 0x75u8, 0x6Cu8, 0x74u8, 0x46u8, 0x75u8, 0x6Eu8, 0x63u8, 0x41u8, 0x72u8, 0x67u8, 0x73u8]
}

pub open spec fn spec_key_tco_const_static_props() -> Seq<u8> {
    seq![0x48u8, 0x61u8, 0x63u8, 0x6Bu8, 0x2Eu8, 0x4Cu8, 0x61u8, 0x6Eu8, 0x67u8, 0x2Eu8, 0x43u8, 0x6Fu8, 0x6Eu8, 0x73u8, 0x74u8, 0x53u8, 0x74u8, 0x61u8, 0x74u8, 0x69u8, 0x63u8, 0x50u8, 0x72u8, 0x6Fu8, 0x70u8, 0x73u8]
}

pub open spec fn spec_key_po_disable_xhp_element_mangling() -> Seq<u8> {
    seq![0x48u8, 0x61u8, 0x63u8, 0x6Bu8, 0x2Eu8, 0x4Cu8, 0x61u8, 0x6Eu8, 0x67u8, 0x2Eu8, 0x44u8, 0x69u8, 0x73u8, 0x61u8, 0x62u8, 0x6Cu8, 0x65u8, 0x58u8, 0x48u8, 0x50u8, 0x45u8, 0x6Cu8, 0x65u8, 0x6Du8, 0x65u8, 0x6Eu8, 0x74u8, 0x4Du8, 0x61u8, 0x6Eu8, 0x67u8, 0x6Cu8, 0x69u8, 0x6Eu8, 0x67u8]
}

pub open spec fn spec_key_po_disallow_func_ptrs_in_constants() -> Seq<u8> {
    seq![0x48u8, 0x61u8, 0x63u8, 0x6Bu8, 0x2Eu8, 0x4Cu8, 0x61u8, 0x6Eu8, 0x67u8, 0x2Eu8, 0x44u8, 0x69u8, 0x73u8, 0x61u8, 0x6Cu8, 0x6Cu8, 0x6Fu8, 0x77u8, 0x46u8, 0x75u8, 0x6Eu8, 0x63u8, 0x50u8, 0x74u8, 0x72u8, 0x73u8, 0x49u8, 0x6Eu8, 0x43u8, 0x6Fu8, 0x6Eu8, 0x73u8, 0x74u8, 0x61u8, 0x6Eu8, 0x74u8, 0x73u8]
}

pub open spec fn spec_key_po_enable_xhp_class_modifier() -> Seq<u8> {
    seq![0x48u8, 0x61u8, 0x63u8, 0x6Bu8, 0x2Eu8, 0x4Cu8, 0x61u8, 0x6Eu8, 0x67u8, 0x2Eu8, 0x45u8, 0x6Eu8, 0x61u8, 0x62u8, 0x6Cu8, 0x65u8, 0x58u8, 0x48u8, 0x50u8, 0x43u8, 0x6Cu8, 0x61u8, 0x73u8, 0x73u8, 0x4Du8, 0x6Fu8, 0x64u8, 0x69u8, 0x66u8, 0x69u8, 0x65u8, 0x72u8]
}

pub open spec fn spec_key_po_enable_class_level_where_clauses() -> Seq<u8> {
    seq![0x48u8, 0x61u8, 0x63u8, 0x6Bu8, 0x2Eu8, 0x4Cu8, 0x61u8, 0x6Eu8, 0x67u8, 0x2Eu8, 0x45u8, 0x6Eu8, 0x61u8, 0x62u8, 0x6Cu8, 0x65u8, 0x43u8, 0x6Cu8, 0x61u8, 0x73u8, 0x73u8, 0x4Cu8, 0x65u8, 0x76u8, 0x65u8, 0x6Cu8, 0x57u8, 0x68u8, 0x65u8, 0x72u8, 0x65u8, 0x43u8, 0x6Cu8, 0x61u8, 0x75u8, 0x73u8, 0x65u8, 0x73u8]
}

pub open spec fn spec_key_po_disallow_direct_superglobals_refs() -> Seq<u8> {
    seq![0x48u8, 0x61u8, 0x63u8, 0x6Bu8, 0x2Eu8, 0x4Cu8, 0x61u8, 0x6Eu8, 0x67u8, 0x2Eu8, 0x44u8, 0x69u8, 0x73u8, 0x61u8, 0x6Cu8, 0x6Cu8, 0x6Fu8, 0x77u8, 0x44u8, 0x69u8, 0x72u8, 0x65u8, 0x63u8, 0x74u8, 0x53u8, 0x75u8, 0x70u8, 0x65u8, 0x72u8, 0x67u8, 0x6Cu8, 0x6Fu8, 0x62u8, 0x61u8, 0x6Cu8, 0x73u8, 0x52u8, 0x65u8, 0x66u8, 0x73u8]
}

/// Read the parser options: each takes the configured value under its
/// key when one is provided, else keeps its default, which is off.
pub fn parser_options(config: &HhvmConfig) -> (r: ParserOptions)
    ensures
        r.po_abstract_static_props == spec_config_or(config@, spec_key_po_abstract_static_props(), false),
        r.po_allow_unstable_features == spec_config_or(config@, spec_key_po_allow_unstable_features(), false),
        r.po_const_default_func_args == spec_config_or(config@, spec_key_po_const_default_func_args(), false),
        r.tco_const_static_props == spec_config_or(config@, spec_key_tco_const_static_props(), false),
        r.po_disable_xhp_element_mangling == spec_config_or(config@, spec_key_po_disable_xhp_element_mangling(), false),
        r.po_disallow_func_ptrs_in_constants == spec_config_or(config@, spec_key_po_disallow_func_ptrs_in_constants(), false),
        r.po_enable_xhp_class_modifier == spec_config_or(config@, spec_key_po_enable_xhp_class_modifier(), false),
        r.po_enable_class_level_where_clauses == spec_config_or(config@, spec_key_po_enable_class_level_where_clauses(), false),
        r.po_disallow_direct_superglobals_refs == spec_config_or(config@, spec_key_po_disallow_direct_superglobals_refs(), false),
{
    let key_po_abstract_static_props: [u8; 29] = [0x48, 0x61, 0x63, 0x6B, 0x2E, 0x4C, 0x61, 0x6E, 0x67, 0x2E, 0x41, 0x62, 0x73, 0x74, 0x72, 0x61, 0x63, 0x74, 0x53, 0x74, 0x61, 0x74, 0x69, 0x63, 0x50, 0x72, 0x6F, 0x70, 0x73];
    let po_abstract_static_props = match config.get_bool(key_po_abstract_static_props.as_slice()) {
        Some(b) => b,
        Option::None => false,
    };
    proof {
        assert(key_po_abstract_static_props@ =~= spec_key_po_abstract_static_props());
    }
    let key_po_allow_unstable_features: [u8; 31] = [0x48, 0x61, 0x63, 0x6B, 0x2E, 0x4C, 0x61, 0x6E, 0x67, 0x2E, 0x41, 0x6C, 0x6C, 0x6F, 0x77, 0x55, 0x6E, 0x73, 0x74, 0x61, 0x62, 0x6C, 0x65, 0x46, 0x65, 0x61, 0x74, 0x75, 0x72, 0x65, 0x73];
    let po_allow_unstable_features = match config.get_bool(key_po_allow_unstable_features.as_slice()) {
        Some(b) => b,
        Option::None => false,
    };
    proof {
        assert(key_po_allow_unstable_features@ =~= spec_key_po_allow_unstable_features());
    }
    let key_po_const_default_func_args: [u8; 30] = [0x48, 0x61, 0x63, 0x6B, 0x2E, 0x4C, 0x61, 0x6E, 0x67, 0x2E, 0x43, 0x6F, 0x6E, 0x73, 0x74, 0x44, 0x65, 0x66, 0x61, 0x75, 0x6C, 0x74, 0x46, 0x75, 0x6E, 0x63, 0x41, 0x72, 0x67, 0x73];
    let po_const_default_func_args = match config.get_bool(key_po_const_default_func_args.as_slice()) {
        Some(b) => b,
        Option::None => false,
    };
    proof {
        assert(key_po_const_default_func_args@ =~= spec_key_po_const_default_func_args());
    }
    let key_tco_const_static_props: [u8; 26] = [0x48, 0x61, 0x63, 0x6B, 0x2E, 0x4C, 0x61, 0x6E, 0x67, 0x2E, 0x43, 0x6F, 0x6E, 0x73, 0x74, 0x53, 0x74, 0x61, 0x74, 0x69, 0x63, 0x50, 0x72, 0x6F, 0x70, 0x73];
    let tco_const_static_props = match config.get_bool(key_tco_const_static_props.as_slice()) {
        Some(b) => b,
        Option::None => false,
    };
    proof {
        assert(key_tco_const_static_props@ =~= spec_key_tco_const_static_props());
    }
    let key_po_disable_xhp_element_mangling: [u8; 35] = [0x48, 0x61, 0x63, 0x6B, 0x2E, 0x4C, 0x61, 0x6E, 0x67, 0x2E, 0x44, 0x69, 0x73, 0x61, 0x62, 0x6C, 0x65, 0x58, 0x48, 0x50, 0x45, 0x6C, 0x65, 0x6D, 0x65, 0x6E, 0x74, 0x4D, 0x61, 0x6E, 0x67, 0x6C, 0x69, 0x6E, 0x67];
    let po_disable_xhp_element_mangling = match config.get_bool(key_po_disable_xhp_element_mangling.as_slice()) {
        Some(b) => b,
        Option::None => false,
    };
    proof {
        assert(key_po_disable_xhp_element_mangling@ =~= spec_key_po_disable_xhp_element_mangling());
    }
    let key_po_disallow_func_ptrs_in_constants: [u8; 37] = [0x48, 0x61, 0x63, 0x6B, 0x2E, 0x4C, 0x61, 0x6E, 0x67, 0x2E, 0x44, 0x69, 0x73, 0x61, 0x6C, 0x6C, 0x6F, 0x77, 0x46, 0x75, 0x6E, 0x63, 0x50, 0x74, 0x72, 0x73, 0x49, 0x6E, 0x43, 0x6F, 0x6E, 0x73, 0x74, 0x61, 0x6E, 0x74, 0x73];
    let po_disallow_func_ptrs_in_constants = match config.get_bool(key_po_disallow_func_ptrs_in_constants.as_slice()) {
        Some(b) => b,
        Option::None => false,
    };
    proof {
        assert(key_po_disallow_func_ptrs_in_constants@ =~= spec_key_po_disallow_func_ptrs_in_constants());
    }
    let key_po_enable_xhp_class_modifier: [u8; 32] = [0x48, 0x61, 0x63, 0x6B, 0x2E, 0x4C, 0x61, 0x6E, 0x67, 0x2E, 0x45, 0x6E, 0x61, 0x62, 0x6C, 0x65, 0x58, 0x48, 0x50, 0x43, 0x6C, 0x61, 0x73, 0x73, 0x4D, 0x6F, 0x64, 0x69, 0x66, 0x69, 0x65, 0x72];
    let po_enable_xhp_class_modifier = match config.get_bool(key_po_enable_xhp_class_modifier.as_slice()) {
        Some(b) => b,
        Option::None => false,
    };
    proof {
        assert(key_po_enable_xhp_class_modifier@ =~= spec_key_po_enable_xhp_class_modifier());
    }
    let key_po_enable_class_level_where_clauses: [u8; 38] = [0x48, 0x61, 0x63, 0x6B, 0x2E, 0x4C, 0x61, 0x6E, 0x67, 0x2E, 0x45, 0x6E, 0x61, 0x62, 0x6C, 0x65, 0x43, 0x6C, 0x61, 0x73, 0x73, 0x4C, 0x65, 0x76, 0x65, 0x6C, 0x57, 0x68, 0x65, 0x72, 0x65, 0x43, 0x6C, 0x61, 0x75, 0x73, 0x65, 0x73];
    let po_enable_class_level_where_clauses = match config.get_bool(key_po_enable_class_level_where_clauses.as_slice()) {
        Some(b) => b,
        Option::None => false,
    };
    proof {
        assert(key_po_enable_class_level_where_clauses@ =~= spec_key_po_enable_class_level_where_clauses());
    }
    let key_po_disallow_direct_superglobals_refs: [u8; 40] = [0x48, 0x61, 0x63, 0x6B, 0x2E, 0x4C, 0x61, 0x6E, 0x67, 0x2E, 0x44, 0x69, 0x73, 0x61, 0x6C, 0x6C, 0x6F, 0x77, 0x44, 0x69, 0x72, 0x65, 0x63, 0x74, 0x53, 0x75, 0x70, 0x65, 0x72, 0x67, 0x6C, 0x6F, 0x62, 0x61, 0x6C, 0x73, 0x52, 0x65, 0x66, 0x73];
    let po_disallow_direct_superglobals_refs = match config.get_bool(key_po_disallow_direct_superglobals_refs.as_slice()) {
        Some(b) => b,
        Option::None => false,
    };
    proof {
        assert(key_po_disallow_direct_superglobals_refs@ =~= spec_key_po_disallow_direct_superglobals_refs());
    }
    ParserOptions {
        po_abstract_static_props,
        po_allow_unstable_features,
        po_const_default_func_args,
        tco_const_static_props,
        po_disable_xhp_element_mangling,
        po_disallow_func_ptrs_in_constants,
        po_enable_xhp_class_modifier,
        po_enable_class_level_where_clauses,
        po_disallow_direct_superglobals_refs,
    }
}

} // verus!
