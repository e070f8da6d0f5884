//! Native type descriptions and call marshalling for a scripting runtime.
//!
//! The library holds the parts of the engine that are decisions on plain
//! values: array and struct layouts, the cast table of primitive types,
//! the encoding of integers into memory handles, the association table that
//! keeps constituent types reachable, and the checks that precede a native
//! call. Everything here is verified.

mod error;
mod text;
mod cast;
mod memory;
mod convert;
mod association;
mod void_info;
mod carr;
mod cstruct;
mod cptr;
mod callable;

pub use association::{AssociationTable, Role};
pub use callable::{
    argument_handles, lemma_missing_argument, lemma_non_handle_argument, lemma_result_too_small,
    result_target, CallArg, CallPlan, CallableData,
};
pub use carr::{lemma_array_offsets, CArr};
pub use cast::{cast, cast_candidates, cast_candidates_spec, cast_spec, CPrimitive};
pub use convert::{
    decimal_i32, decimal_value, digits_value, int_from_value, int_value_spec, is_digit,
    lemma_int_converter_round_trip, read_int_value, truncate_to_int, write_int_value, ScriptValue,
};
pub use cptr::CPtr;
pub use cstruct::{layout_is_sound, lemma_struct_members_fit, member_list_text, CStruct};
pub use error::FfiError;
pub use memory::{
    int_at, int_bits, int_bytes, int_from_bytes, int_of_bits, lemma_int_bytes_round_trip,
    lemma_write_then_read, with_int, MemoryHandle,
};
pub use text::{decimal_text, digit_char};
pub use void_info::CVoidInfo;
