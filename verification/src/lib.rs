//! Bytecode representation and conversion layer for a bytecode-producing
//! compiler: the persisted instruction format, an intermediate representation
//! (IR) used by transformation passes, the bidirectional converter between
//! them, and a textual assembler that decodes typed instruction operands.

pub mod adata;
pub mod assemble;
pub mod bc_to_ir;
pub mod config;
pub mod errors;
pub mod interner;
pub mod ir_to_bc;
pub mod ir_unit;
pub mod names;
pub mod opcodes;
pub mod strings;
pub mod tv_convert;
pub mod typed_value;
pub mod unit;
pub mod utf8;
pub mod value_id;

pub use interner::Interner;
pub use interner::StringId;
pub use interner::UnitBytesId;
pub use value_id::ConstantId;
pub use value_id::FullInstrId;
pub use value_id::GlobalId;
pub use value_id::InstrId;
pub use value_id::ValueId;
