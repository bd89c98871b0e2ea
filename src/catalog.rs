//! The closed catalog of host operations: categories, operations and their
//! operand signatures, decoding of one instruction from a byte cursor, and
//! each operation's stable name.
use vstd::prelude::*;
use crate::codec::{spec_choice, ByteCursor, InsufficientInput};
use crate::operand::{
    decode_i128_operand, decode_i64_operand, decode_u128_operand, decode_u32_operand,
    decode_u64_operand, decode_val_map_operand, decode_val_operand, decode_val_vec_operand,
    lemma_operands_wf, operands_max_len, operand_max_len, operands_wf, spec_operand,
    spec_operands, AddressProto, BytesProto, OperandKind, OperandView, StringProto,
    SymbolProto, ValMapProto, ValVecProto,
};
use crate::value::ValProto;

verus! {

/// Number of categories.
pub const CATEGORY_COUNT: u32 = 11;

/// Index of the address category.
pub const CAT_ADDRESS: u32 = 0;

/// Index of the buf category.
pub const CAT_BUF: u32 = 1;

/// Index of the call category.
pub const CAT_CALL: u32 = 2;

/// Index of the context category.
pub const CAT_CONTEXT: u32 = 3;

/// Index of the crypto category.
pub const CAT_CRYPTO: u32 = 4;

/// Index of the int category.
pub const CAT_INT: u32 = 5;

/// Index of the ledger category.
pub const CAT_LEDGER: u32 = 6;

/// Index of the map category.
pub const CAT_MAP: u32 = 7;

/// Index of the prng category.
pub const CAT_PRNG: u32 = 8;

/// Index of the test category.
pub const CAT_TEST: u32 = 9;

/// Index of the vec category.
pub const CAT_VEC: u32 = 10;

/// Number of operations of category `cat`.
pub open spec fn operation_count(cat: int) -> int {
    if cat == 0 {
        7
    } else if cat == 1 {
        24
    } else if cat == 2 {
        2
    } else if cat == 3 {
        11
    } else if cat == 4 {
        4
    } else if cat == 5 {
        42
    } else if cat == 6 {
        11
    } else if cat == 7 {
        14
    } else if cat == 8 {
        4
    } else if cat == 9 {
        1
    } else {
        19
    }
}

/// The operand kinds of operation `op` of category `cat`, in order.
pub open spec fn signature(cat: int, op: int) -> Seq<OperandKind> {
    if cat == 0 {
        if op == 0 {
            seq![OperandKind::Bytes]
        } else if op == 1 {
            seq![OperandKind::Address]
        } else if op == 2 {
            seq![OperandKind::Address]
        } else if op == 3 {
            seq![OperandKind::ValVec]
        } else if op == 4 {
            seq![OperandKind::Bytes]
        } else if op == 5 {
            seq![OperandKind::Address]
        } else {
            seq![OperandKind::Address, OperandKind::ValVec]
        }
    } else if cat == 1 {
        if op == 0 {
            seq![OperandKind::Bytes, OperandKind::Bytes]
        } else if op == 1 {
            seq![OperandKind::Bytes]
        } else if op == 2 {
            seq![OperandKind::Bytes, OperandKind::U32, OperandKind::U32, OperandKind::U32]
        } else if op == 3 {
            seq![OperandKind::Bytes, OperandKind::U32, OperandKind::U32, OperandKind::U32]
        } else if op == 4 {
            seq![OperandKind::Bytes, OperandKind::U32]
        } else if op == 5 {
            seq![OperandKind::Bytes]
        } else if op == 6 {
            seq![OperandKind::Bytes, OperandKind::U32]
        } else if op == 7 {
            seq![OperandKind::Bytes, OperandKind::U32, OperandKind::U32]
        } else if op == 8 {
            seq![OperandKind::Bytes]
        } else if op == 9 {
            seq![]
        } else if op == 10 {
            seq![OperandKind::U32, OperandKind::U32]
        } else if op == 11 {
            seq![OperandKind::Bytes]
        } else if op == 12 {
            seq![OperandKind::Bytes, OperandKind::U32]
        } else if op == 13 {
            seq![OperandKind::Bytes, OperandKind::U32, OperandKind::U32]
        } else if op == 14 {
            seq![OperandKind::Bytes, OperandKind::U32, OperandKind::U32]
        } else if op == 15 {
            seq![OperandKind::Bytes]
        } else if op == 16 {
            seq![OperandKind::Val]
        } else if op == 17 {
            seq![OperandKind::String, OperandKind::U32, OperandKind::U32, OperandKind::U32]
        } else if op == 18 {
            seq![OperandKind::String]
        } else if op == 19 {
            seq![OperandKind::U32, OperandKind::U32]
        } else if op == 20 {
            seq![OperandKind::Symbol, OperandKind::U32, OperandKind::U32, OperandKind::U32]
        } else if op == 21 {
            seq![OperandKind::Symbol, OperandKind::U32, OperandKind::U32]
        } else if op == 22 {
            seq![OperandKind::Symbol]
        } else {
            seq![OperandKind::U32, OperandKind::U32]
        }
    } else if cat == 2 {
        if op == 0 {
            seq![OperandKind::Address, OperandKind::Symbol, OperandKind::ValVec]
        } else {
            seq![OperandKind::Address, OperandKind::Symbol, OperandKind::ValVec]
        }
    } else if cat == 3 {
        if op == 0 {
            seq![OperandKind::ValVec, OperandKind::Val]
        } else if op == 1 {
            seq![OperandKind::Val]
        } else if op == 2 {
            seq![]
        } else if op == 3 {
            seq![]
        } else if op == 4 {
            seq![]
        } else if op == 5 {
            seq![]
        } else if op == 6 {
            seq![]
        } else if op == 7 {
            seq![]
        } else if op == 8 {
            seq![]
        } else if op == 9 {
            seq![OperandKind::U32, OperandKind::U32, OperandKind::U32, OperandKind::U32]
        } else {
            seq![OperandKind::Val, OperandKind::Val]
        }
    } else if cat == 4 {
        if op == 0 {
            seq![OperandKind::Bytes]
        } else if op == 1 {
            seq![OperandKind::Bytes]
        } else if op == 2 {
            seq![OperandKind::Bytes, OperandKind::Bytes, OperandKind::U32]
        } else {
            seq![OperandKind::Bytes, OperandKind::Bytes, OperandKind::Bytes]
        }
    } else if cat == 5 {
        if op == 0 {
            seq![OperandKind::U64]
        } else if op == 1 {
            seq![OperandKind::Val]
        } else if op == 2 {
            seq![OperandKind::Val, OperandKind::Val]
        } else if op == 3 {
            seq![OperandKind::Val, OperandKind::Val]
        } else if op == 4 {
            seq![OperandKind::Val, OperandKind::Val]
        } else if op == 5 {
            seq![OperandKind::Bytes]
        } else if op == 6 {
            seq![OperandKind::Val]
        } else if op == 7 {
            seq![OperandKind::Val, OperandKind::U32]
        } else if op == 8 {
            seq![OperandKind::Val, OperandKind::U32]
        } else if op == 9 {
            seq![OperandKind::Val, OperandKind::U32]
        } else if op == 10 {
            seq![OperandKind::Val, OperandKind::Val]
        } else if op == 11 {
            seq![OperandKind::I64]
        } else if op == 12 {
            seq![OperandKind::I64, OperandKind::U64]
        } else if op == 13 {
            seq![OperandKind::I64, OperandKind::U64, OperandKind::U64, OperandKind::U64]
        } else if op == 14 {
            seq![OperandKind::U64]
        } else if op == 15 {
            seq![OperandKind::U64, OperandKind::U64]
        } else if op == 16 {
            seq![OperandKind::U64, OperandKind::U64, OperandKind::U64, OperandKind::U64]
        } else if op == 17 {
            seq![OperandKind::I64]
        } else if op == 18 {
            seq![OperandKind::I128]
        } else if op == 19 {
            seq![OperandKind::I128]
        } else if op == 20 {
            seq![OperandKind::Val]
        } else if op == 21 {
            seq![OperandKind::Val]
        } else if op == 22 {
            seq![OperandKind::Val]
        } else if op == 23 {
            seq![OperandKind::Val]
        } else if op == 24 {
            seq![OperandKind::U64]
        } else if op == 25 {
            seq![OperandKind::U128]
        } else if op == 26 {
            seq![OperandKind::U128]
        } else if op == 27 {
            seq![OperandKind::Val]
        } else if op == 28 {
            seq![OperandKind::Val]
        } else if op == 29 {
            seq![OperandKind::Val]
        } else if op == 30 {
            seq![OperandKind::Val]
        } else if op == 31 {
            seq![OperandKind::U64]
        } else if op == 32 {
            seq![OperandKind::Val]
        } else if op == 33 {
            seq![OperandKind::Val, OperandKind::Val]
        } else if op == 34 {
            seq![OperandKind::Val, OperandKind::Val]
        } else if op == 35 {
            seq![OperandKind::Val, OperandKind::Val]
        } else if op == 36 {
            seq![OperandKind::Bytes]
        } else if op == 37 {
            seq![OperandKind::Val]
        } else if op == 38 {
            seq![OperandKind::Val, OperandKind::U32]
        } else if op == 39 {
            seq![OperandKind::Val, OperandKind::U32]
        } else if op == 40 {
            seq![OperandKind::Val, OperandKind::U32]
        } else {
            seq![OperandKind::Val, OperandKind::Val]
        }
    } else if cat == 6 {
        if op == 0 {
            seq![OperandKind::Val, OperandKind::U32]
        } else if op == 1 {
            seq![OperandKind::Bytes]
        } else if op == 2 {
            seq![OperandKind::Address, OperandKind::Bytes, OperandKind::Bytes]
        } else if op == 3 {
            seq![OperandKind::Val]
        } else if op == 4 {
            seq![OperandKind::Bytes]
        } else if op == 5 {
            seq![OperandKind::Val]
        } else if op == 6 {
            seq![OperandKind::Address, OperandKind::Bytes]
        } else if op == 7 {
            seq![OperandKind::Val]
        } else if op == 8 {
            seq![OperandKind::Val, OperandKind::Val, OperandKind::Val]
        } else if op == 9 {
            seq![OperandKind::Bytes]
        } else {
            seq![OperandKind::Bytes]
        }
    } else if cat == 7 {
        if op == 0 {
            seq![OperandKind::ValMap, OperandKind::Val]
        } else if op == 1 {
            seq![OperandKind::ValMap, OperandKind::Val]
        } else if op == 2 {
            seq![OperandKind::ValMap, OperandKind::Val]
        } else if op == 3 {
            seq![OperandKind::ValMap]
        } else if op == 4 {
            seq![OperandKind::ValMap]
        } else if op == 5 {
            seq![OperandKind::ValMap]
        } else if op == 6 {
            seq![OperandKind::ValMap]
        } else if op == 7 {
            seq![]
        } else if op == 8 {
            seq![OperandKind::U32, OperandKind::U32, OperandKind::U32]
        } else if op == 9 {
            seq![OperandKind::ValMap, OperandKind::Val]
        } else if op == 10 {
            seq![OperandKind::ValMap, OperandKind::Val]
        } else if op == 11 {
            seq![OperandKind::ValMap, OperandKind::Val, OperandKind::Val]
        } else if op == 12 {
            seq![OperandKind::ValMap, OperandKind::U32, OperandKind::U32, OperandKind::U32]
        } else {
            seq![OperandKind::ValMap]
        }
    } else if cat == 8 {
        if op == 0 {
            seq![OperandKind::U32]
        } else if op == 1 {
            seq![OperandKind::Bytes]
        } else if op == 2 {
            seq![OperandKind::U64, OperandKind::U64]
        } else {
            seq![OperandKind::ValVec]
        }
    } else if cat == 9 {
        seq![]
    } else if cat == 10 {
        if op == 0 {
            seq![OperandKind::ValVec, OperandKind::ValVec]
        } else if op == 1 {
            seq![OperandKind::ValVec]
        } else if op == 2 {
            seq![OperandKind::ValVec, OperandKind::Val]
        } else if op == 3 {
            seq![OperandKind::ValVec, OperandKind::U32]
        } else if op == 4 {
            seq![OperandKind::ValVec, OperandKind::Val]
        } else if op == 5 {
            seq![OperandKind::ValVec]
        } else if op == 6 {
            seq![OperandKind::ValVec, OperandKind::U32]
        } else if op == 7 {
            seq![OperandKind::ValVec, OperandKind::U32, OperandKind::Val]
        } else if op == 8 {
            seq![OperandKind::ValVec, OperandKind::Val]
        } else if op == 9 {
            seq![OperandKind::ValVec]
        } else if op == 10 {
            seq![OperandKind::Val]
        } else if op == 11 {
            seq![OperandKind::U32, OperandKind::U32]
        } else if op == 12 {
            seq![OperandKind::ValVec]
        } else if op == 13 {
            seq![OperandKind::ValVec]
        } else if op == 14 {
            seq![OperandKind::ValVec, OperandKind::Val]
        } else if op == 15 {
            seq![OperandKind::ValVec, OperandKind::Val]
        } else if op == 16 {
            seq![OperandKind::ValVec, OperandKind::U32, OperandKind::Val]
        } else if op == 17 {
            seq![OperandKind::ValVec, OperandKind::U32, OperandKind::U32]
        } else {
            seq![OperandKind::ValVec, OperandKind::U32, OperandKind::U32]
        }
    } else {
        Seq::empty()
    }
}

/// The stable name of operation `op` of category `cat`.
pub open spec fn operation_name(cat: int, op: int) -> &'static str {
    if cat == 0 {
        if op == 0 {
            "syscalls::address::account_public_key_to_address"
        } else if op == 1 {
            "syscalls::address::address_to_account_public_key"
        } else if op == 2 {
            "syscalls::address::address_to_contract_id"
        } else if op == 3 {
            "syscalls::address::authorize_as_curr_contract"
        } else if op == 4 {
            "syscalls::address::contract_id_to_address"
        } else if op == 5 {
            "syscalls::address::require_auth"
        } else {
            "syscalls::address::require_auth_for_args"
        }
    } else if cat == 1 {
        if op == 0 {
            "syscalls::buf::bytes_append"
        } else if op == 1 {
            "syscalls::buf::bytes_back"
        } else if op == 2 {
            "syscalls::buf::bytes_copy_from_linear_memory"
        } else if op == 3 {
            "syscalls::buf::bytes_copy_to_linear_memory"
        } else if op == 4 {
            "syscalls::buf::bytes_del"
        } else if op == 5 {
            "syscalls::buf::bytes_front"
        } else if op == 6 {
            "syscalls::buf::bytes_get"
        } else if op == 7 {
            "syscalls::buf::bytes_insert"
        } else if op == 8 {
            "syscalls::buf::bytes_len"
        } else if op == 9 {
            "syscalls::buf::bytes_new"
        } else if op == 10 {
            "syscalls::buf::bytes_new_from_linear_memory"
        } else if op == 11 {
            "syscalls::buf::bytes_pop"
        } else if op == 12 {
            "syscalls::buf::bytes_push"
        } else if op == 13 {
            "syscalls::buf::bytes_put"
        } else if op == 14 {
            "syscalls::buf::bytes_slice"
        } else if op == 15 {
            "syscalls::buf::deserialize_from_bytes"
        } else if op == 16 {
            "syscalls::buf::serialize_to_bytes"
        } else if op == 17 {
            "syscalls::buf::string_copy_to_linear_memory"
        } else if op == 18 {
            "syscalls::buf::string_len"
        } else if op == 19 {
            "syscalls::buf::string_new_from_linear_memory"
        } else if op == 20 {
            "syscalls::buf::symbol_copy_to_linear_memory"
        } else if op == 21 {
            "syscalls::buf::symbol_index_in_linear_memory"
        } else if op == 22 {
            "syscalls::buf::symbol_len"
        } else {
            "syscalls::buf::symbol_new_from_linear_memory"
        }
    } else if cat == 2 {
        if op == 0 {
            "syscalls::call::call"
        } else {
            "syscalls::call::try_call"
        }
    } else if cat == 3 {
        if op == 0 {
            "syscalls::context::contract_event"
        } else if op == 1 {
            "syscalls::context::fail_with_error"
        } else if op == 2 {
            "syscalls::context::get_current_call_stack"
        } else if op == 3 {
            "syscalls::context::get_current_contract_address"
        } else if op == 4 {
            "syscalls::context::get_invoking_contract"
        } else if op == 5 {
            "syscalls::context::get_ledger_network_id"
        } else if op == 6 {
            "syscalls::context::get_ledger_sequence"
        } else if op == 7 {
            "syscalls::context::get_ledger_timestamp"
        } else if op == 8 {
            "syscalls::context::get_ledger_version"
        } else if op == 9 {
            "syscalls::context::log_from_linear_memory"
        } else {
            "syscalls::context::obj_cmp"
        }
    } else if cat == 4 {
        if op == 0 {
            "syscalls::crypto::compute_hash_keccak256"
        } else if op == 1 {
            "syscalls::crypto::compute_hash_sha256"
        } else if op == 2 {
            "syscalls::crypto::recover_key_ecdsa_secp256k1"
        } else {
            "syscalls::crypto::verify_sig_ed25519"
        }
    } else if cat == 5 {
        if op == 0 {
            "syscalls::int::duration_obj_from_u64"
        } else if op == 1 {
            "syscalls::int::duration_obj_to_u64"
        } else if op == 2 {
            "syscalls::int::i256_add"
        } else if op == 3 {
            "syscalls::int::i256_div"
        } else if op == 4 {
            "syscalls::int::i256_mul"
        } else if op == 5 {
            "syscalls::int::i256_val_from_be_bytes"
        } else if op == 6 {
            "syscalls::int::i256_val_to_be_bytes"
        } else if op == 7 {
            "syscalls::int::i256_pow"
        } else if op == 8 {
            "syscalls::int::i256_shl"
        } else if op == 9 {
            "syscalls::int::i256_shr"
        } else if op == 10 {
            "syscalls::int::i256_sub"
        } else if op == 11 {
            "syscalls::int::obj_from_i64"
        } else if op == 12 {
            "syscalls::int::obj_from_i128_pieces"
        } else if op == 13 {
            "syscalls::int::obj_from_i256_pieces"
        } else if op == 14 {
            "syscalls::int::obj_from_u64"
        } else if op == 15 {
            "syscalls::int::obj_from_u128_pieces"
        } else if op == 16 {
            "syscalls::int::obj_from_u256_pieces"
        } else if op == 17 {
            "syscalls::int::obj_to_i64"
        } else if op == 18 {
            "syscalls::int::obj_to_i128_hi64"
        } else if op == 19 {
            "syscalls::int::obj_to_i128_lo64"
        } else if op == 20 {
            "syscalls::int::obj_to_i256_hi_hi"
        } else if op == 21 {
            "syscalls::int::obj_to_i256_hi_lo"
        } else if op == 22 {
            "syscalls::int::obj_to_i256_lo_hi"
        } else if op == 23 {
            "syscalls::int::obj_to_i256_lo_lo"
        } else if op == 24 {
            "syscalls::int::obj_to_u64"
        } else if op == 25 {
            "syscalls::int::obj_to_u128_hi64"
        } else if op == 26 {
            "syscalls::int::obj_to_u128_lo64"
        } else if op == 27 {
            "syscalls::int::obj_to_u256_hi_hi"
        } else if op == 28 {
            "syscalls::int::obj_to_u256_hi_lo"
        } else if op == 29 {
            "syscalls::int::obj_to_u256_lo_hi"
        } else if op == 30 {
            "syscalls::int::obj_to_u256_lo_lo"
        } else if op == 31 {
            "syscalls::int::timepoint_obj_from_u64"
        } else if op == 32 {
            "syscalls::int::timepoint_obj_to_u64"
        } else if op == 33 {
            "syscalls::int::u256_add"
        } else if op == 34 {
            "syscalls::int::u256_div"
        } else if op == 35 {
            "syscalls::int::u256_mul"
        } else if op == 36 {
            "syscalls::int::u256_val_from_be_bytes"
        } else if op == 37 {
            "syscalls::int::u256_val_to_be_bytes"
        } else if op == 38 {
            "syscalls::int::u256_pow"
        } else if op == 39 {
            "syscalls::int::u256_shl"
        } else if op == 40 {
            "syscalls::int::u256_shr"
        } else {
            "syscalls::int::u256_sub"
        }
    } else if cat == 6 {
        if op == 0 {
            "syscalls::ledger::bump_contract_data"
        } else if op == 1 {
            "syscalls::ledger::create_asset_contract"
        } else if op == 2 {
            "syscalls::ledger::create_contract"
        } else if op == 3 {
            "syscalls::ledger::del_contract_data"
        } else if op == 4 {
            "syscalls::ledger::get_asset_contract_id"
        } else if op == 5 {
            "syscalls::ledger::get_contract_data"
        } else if op == 6 {
            "syscalls::ledger::get_contract_id"
        } else if op == 7 {
            "syscalls::ledger::has_contract_data"
        } else if op == 8 {
            "syscalls::ledger::put_contract_data"
        } else if op == 9 {
            "syscalls::ledger::update_current_contract_wasm"
        } else {
            "syscalls::ledger::upload_wasm"
        }
    } else if cat == 7 {
        if op == 0 {
            "syscalls::map::map_del"
        } else if op == 1 {
            "syscalls::map::map_get"
        } else if op == 2 {
            "syscalls::map::map_has"
        } else if op == 3 {
            "syscalls::map::map_keys"
        } else if op == 4 {
            "syscalls::map::map_len"
        } else if op == 5 {
            "syscalls::map::map_max_key"
        } else if op == 6 {
            "syscalls::map::map_min_key"
        } else if op == 7 {
            "syscalls::map::map_new"
        } else if op == 8 {
            "syscalls::map::map_new_from_linear_memory"
        } else if op == 9 {
            "syscalls::map::map_next_key"
        } else if op == 10 {
            "syscalls::map::map_prev_key"
        } else if op == 11 {
            "syscalls::map::map_put"
        } else if op == 12 {
            "syscalls::map::map_unpack_to_linear_memory"
        } else {
            "syscalls::map::map_values"
        }
    } else if cat == 8 {
        if op == 0 {
            "syscalls::prng::prng_bytes_new"
        } else if op == 1 {
            "syscalls::prng::prng_reseed"
        } else if op == 2 {
            "syscalls::prng::prng_u64_in_inclusive_range"
        } else {
            "syscalls::prng::prng_vec_shuffle"
        }
    } else if cat == 9 {
        "syscalls::test::dummy0"
    } else if cat == 10 {
        if op == 0 {
            "syscalls::vec::vec_append"
        } else if op == 1 {
            "syscalls::vec::vec_back"
        } else if op == 2 {
            "syscalls::vec::vec_binary_search"
        } else if op == 3 {
            "syscalls::vec::vec_del"
        } else if op == 4 {
            "syscalls::vec::vec_first_index_of"
        } else if op == 5 {
            "syscalls::vec::vec_front"
        } else if op == 6 {
            "syscalls::vec::vec_get"
        } else if op == 7 {
            "syscalls::vec::vec_insert"
        } else if op == 8 {
            "syscalls::vec::vec_last_index_of"
        } else if op == 9 {
            "syscalls::vec::vec_len"
        } else if op == 10 {
            "syscalls::vec::vec_new"
        } else if op == 11 {
            "syscalls::vec::vec_new_from_linear_memory"
        } else if op == 12 {
            "syscalls::vec::vec_pop_back"
        } else if op == 13 {
            "syscalls::vec::vec_pop_front"
        } else if op == 14 {
            "syscalls::vec::vec_push_back"
        } else if op == 15 {
            "syscalls::vec::vec_push_front"
        } else if op == 16 {
            "syscalls::vec::vec_put"
        } else if op == 17 {
            "syscalls::vec::vec_slice"
        } else {
            "syscalls::vec::vec_unpack_to_linear_memory"
        }
    } else {
        ""
    }
}

/// A decoded instruction: a category, an operation of it, and its operands.
#[derive(Clone, Debug)]
pub enum TypedFuzzInstructionPrototype {
    Address(TypedModAddressPrototype),
    Buf(TypedModBufPrototype),
    Call(TypedModCallPrototype),
    Context(TypedModContextPrototype),
    Crypto(TypedModCryptoPrototype),
    Int(TypedModIntPrototype),
    Ledger(TypedModLedgerPrototype),
    Maps(TypedModMapPrototype),
    Prng(TypedModPrngPrototype),
    Test,
    Vec(TypedModVecPrototype),
}

/// The operations of the address category.
#[derive(Clone, Debug)]
pub enum TypedModAddressPrototype {
    AccountPublicKeyToAddress(BytesProto),
    AddressToAccountPublicKey(AddressProto),
    AddressToContractId(AddressProto),
    AuthorizeAsCurrContract(ValVecProto),
    ContractIdToAddress(BytesProto),
    RequireAuth(AddressProto),
    RequireAuthForArgs(AddressProto, ValVecProto),
}

/// The operations of the buf category.
#[derive(Clone, Debug)]
pub enum TypedModBufPrototype {
    BytesAppend(BytesProto, BytesProto),
    BytesBack(BytesProto),
    BytesCopyFromLinearMemory(BytesProto, u32, u32, u32),
    BytesCopyToLinearMemory(BytesProto, u32, u32, u32),
    BytesDel(BytesProto, u32),
    BytesFront(BytesProto),
    BytesGet(BytesProto, u32),
    BytesInsert(BytesProto, u32, u32),
    BytesLen(BytesProto),
    BytesNew,
    BytesNewFromLinearMemory(u32, u32),
    BytesPop(BytesProto),
    BytesPush(BytesProto, u32),
    BytesPut(BytesProto, u32, u32),
    BytesSlice(BytesProto, u32, u32),
    DeserializeFromBytes(BytesProto),
    SerializeToBytes(ValProto),
    StringCopyToLinearMemory(StringProto, u32, u32, u32),
    StringLen(StringProto),
    StringNewFromLinearMemory(u32, u32),
    SymbolCopyToLinearMemory(SymbolProto, u32, u32, u32),
    SymbolIndexInLinearMemory(SymbolProto, u32, u32),
    SymbolLen(SymbolProto),
    SymbolNewFromLinearMemory(u32, u32),
}

/// The operations of the call category.
#[derive(Clone, Debug)]
pub enum TypedModCallPrototype {
    Call(AddressProto, SymbolProto, ValVecProto),
    TryCall(AddressProto, SymbolProto, ValVecProto),
}

/// The operations of the context category.
#[derive(Clone, Debug)]
pub enum TypedModContextPrototype {
    ContractEvent(ValVecProto, ValProto),
    FailWithError(ValProto),
    GetCurrentCallStack,
    GetCurrentContractAddress,
    GetInvokingContract,
    GetLedgerNetworkId,
    GetLedgerSequence,
    GetLedgerTimestamp,
    GetLedgerVersion,
    LogFromLinearMemory(u32, u32, u32, u32),
    ObjCmp(ValProto, ValProto),
}

/// The operations of the crypto category.
#[derive(Clone, Debug)]
pub enum TypedModCryptoPrototype {
    ComputeHashKeccak256(BytesProto),
    ComputeHashSha256(BytesProto),
    RecoverKeyEcdsaSecp256k1(BytesProto, BytesProto, u32),
    VerifySigEd25519(BytesProto, BytesProto, BytesProto),
}

/// The operations of the int category.
#[derive(Clone, Debug)]
pub enum TypedModIntPrototype {
    DurationObjFromU64(u64),
    DurationObjToU64(ValProto),
    I256Add(ValProto, ValProto),
    I256Div(ValProto, ValProto),
    I256Mul(ValProto, ValProto),
    I256ObjFromBeBytes(BytesProto),
    I256ObjToBeBytes(ValProto),
    I256Pow(ValProto, u32),
    I256Shl(ValProto, u32),
    I256Shr(ValProto, u32),
    I256Sub(ValProto, ValProto),
    ObjFromI64(i64),
    ObjFromI128Pieces(i64, u64),
    ObjFromI256Pieces(i64, u64, u64, u64),
    ObjFromU64(u64),
    ObjFromU128Pieces(u64, u64),
    ObjFromU256Pieces(u64, u64, u64, u64),
    ObjToI64(i64),
    ObjToI128Hi64(i128),
    ObjToI128Lo64(i128),
    ObjToI256HiHi(ValProto),
    ObjToI256HiLo(ValProto),
    ObjToI256LoHi(ValProto),
    ObjToI256LoLo(ValProto),
    ObjToU64(u64),
    ObjToU128Hi64(u128),
    ObjToU128Lo64(u128),
    ObjToU256HiHi(ValProto),
    ObjToU256HiLo(ValProto),
    ObjToU256LoHi(ValProto),
    ObjToU256LoLo(ValProto),
    TimepointObjFromU64(u64),
    TimepointObjToU64(ValProto),
    U256Add(ValProto, ValProto),
    U256Div(ValProto, ValProto),
    U256Mul(ValProto, ValProto),
    U256ValFromBeBytes(BytesProto),
    U256ValToBeBytes(ValProto),
    U256Pow(ValProto, u32),
    U256Shl(ValProto, u32),
    U256Shr(ValProto, u32),
    U256Sub(ValProto, ValProto),
}

/// The operations of the ledger category.
#[derive(Clone, Debug)]
pub enum TypedModLedgerPrototype {
    BumpContractData(ValProto, u32),
    CreateAssetContract(BytesProto),
    CreateContract(AddressProto, BytesProto, BytesProto),
    DelContractData(ValProto),
    GetAssetContractId(BytesProto),
    GetContractData(ValProto),
    GetContractId(AddressProto, BytesProto),
    HasContractData(ValProto),
    PutContractData(ValProto, ValProto, ValProto),
    UpdateCurrentContractWasm(BytesProto),
    UploadWasm(BytesProto),
}

/// The operations of the map category.
#[derive(Clone, Debug)]
pub enum TypedModMapPrototype {
    MapDel(ValMapProto, ValProto),
    MapGet(ValMapProto, ValProto),
    MapHas(ValMapProto, ValProto),
    MapKeys(ValMapProto),
    MapLen(ValMapProto),
    MapMaxKey(ValMapProto),
    MapMinKey(ValMapProto),
    MapNew,
    MapNewFromLinearMemory(u32, u32, u32),
    MapNextKey(ValMapProto, ValProto),
    MapPrevKey(ValMapProto, ValProto),
    MapPut(ValMapProto, ValProto, ValProto),
    MapUnpackToLinearMemory(ValMapProto, u32, u32, u32),
    MapValues(ValMapProto),
}

/// The operations of the prng category.
#[derive(Clone, Debug)]
pub enum TypedModPrngPrototype {
    PrngBytesNew(u32),
    PrngReseed(BytesProto),
    PrngU64InInclusiveRange(u64, u64),
    PrngVecShuffle(ValVecProto),
}

/// The operations of the vec category.
#[derive(Clone, Debug)]
pub enum TypedModVecPrototype {
    VecAppend(ValVecProto, ValVecProto),
    VecBack(ValVecProto),
    VecBinarySearch(ValVecProto, ValProto),
    VecDel(ValVecProto, u32),
    VecFirstIndexOf(ValVecProto, ValProto),
    VecFront(ValVecProto),
    VecGet(ValVecProto, u32),
    VecInsert(ValVecProto, u32, ValProto),
    VecLastIndexOf(ValVecProto, ValProto),
    VecLen(ValVecProto),
    VecNew(ValProto),
    VecNewFromLinearMemory(u32, u32),
    VecPopBack(ValVecProto),
    VecPopFront(ValVecProto),
    VecPushBack(ValVecProto, ValProto),
    VecPushFront(ValVecProto, ValProto),
    VecPut(ValVecProto, u32, ValProto),
    VecSlice(ValVecProto, u32, u32),
    VecUnpackToLinearMemory(ValVecProto, u32, u32),
}

/// The mathematical value of a decoded instruction.
pub struct InstructionView {
    pub category: int,
    pub operation: int,
    pub operands: Seq<OperandView>,
}

impl TypedModAddressPrototype {
    /// Index of the operation within its category.
    pub open spec fn operation(&self) -> int {
        match self {
            TypedModAddressPrototype::AccountPublicKeyToAddress(..) => 0,
            TypedModAddressPrototype::AddressToAccountPublicKey(..) => 1,
            TypedModAddressPrototype::AddressToContractId(..) => 2,
            TypedModAddressPrototype::AuthorizeAsCurrContract(..) => 3,
            TypedModAddressPrototype::ContractIdToAddress(..) => 4,
            TypedModAddressPrototype::RequireAuth(..) => 5,
            TypedModAddressPrototype::RequireAuthForArgs(..) => 6,
        }
    }

    /// The operand values, in declared order.
    pub open spec fn operands(&self) -> Seq<OperandView> {
        match self {
            TypedModAddressPrototype::AccountPublicKeyToAddress(x0) => {
                seq![OperandView::Bytes(x0.bytes@)]
            },
            TypedModAddressPrototype::AddressToAccountPublicKey(x0) => {
                seq![OperandView::Address(x0.contract_id@)]
            },
            TypedModAddressPrototype::AddressToContractId(x0) => {
                seq![OperandView::Address(x0.contract_id@)]
            },
            TypedModAddressPrototype::AuthorizeAsCurrContract(x0) => {
                seq![OperandView::ValVec(x0.items_view())]
            },
            TypedModAddressPrototype::ContractIdToAddress(x0) => {
                seq![OperandView::Bytes(x0.bytes@)]
            },
            TypedModAddressPrototype::RequireAuth(x0) => {
                seq![OperandView::Address(x0.contract_id@)]
            },
            TypedModAddressPrototype::RequireAuthForArgs(x0, x1) => {
                seq![OperandView::Address(x0.contract_id@), OperandView::ValVec(x1.items_view())]
            },
        }
    }
}

impl TypedModBufPrototype {
    /// Index of the operation within its category.
    pub open spec fn operation(&self) -> int {
        match self {
            TypedModBufPrototype::BytesAppend(..) => 0,
            TypedModBufPrototype::BytesBack(..) => 1,
            TypedModBufPrototype::BytesCopyFromLinearMemory(..) => 2,
            TypedModBufPrototype::BytesCopyToLinearMemory(..) => 3,
            TypedModBufPrototype::BytesDel(..) => 4,
            TypedModBufPrototype::BytesFront(..) => 5,
            TypedModBufPrototype::BytesGet(..) => 6,
            TypedModBufPrototype::BytesInsert(..) => 7,
            TypedModBufPrototype::BytesLen(..) => 8,
            TypedModBufPrototype::BytesNew => 9,
            TypedModBufPrototype::BytesNewFromLinearMemory(..) => 10,
            TypedModBufPrototype::BytesPop(..) => 11,
            TypedModBufPrototype::BytesPush(..) => 12,
            TypedModBufPrototype::BytesPut(..) => 13,
            TypedModBufPrototype::BytesSlice(..) => 14,
            TypedModBufPrototype::DeserializeFromBytes(..) => 15,
            TypedModBufPrototype::SerializeToBytes(..) => 16,
            TypedModBufPrototype::StringCopyToLinearMemory(..) => 17,
            TypedModBufPrototype::StringLen(..) => 18,
            TypedModBufPrototype::StringNewFromLinearMemory(..) => 19,
            TypedModBufPrototype::SymbolCopyToLinearMemory(..) => 20,
            TypedModBufPrototype::SymbolIndexInLinearMemory(..) => 21,
            TypedModBufPrototype::SymbolLen(..) => 22,
            TypedModBufPrototype::SymbolNewFromLinearMemory(..) => 23,
        }
    }

    /// The operand values, in declared order.
    pub open spec fn operands(&self) -> Seq<OperandView> {
        match self {
            TypedModBufPrototype::BytesAppend(x0, x1) => {
                seq![OperandView::Bytes(x0.bytes@), OperandView::Bytes(x1.bytes@)]
            },
            TypedModBufPrototype::BytesBack(x0) => seq![OperandView::Bytes(x0.bytes@)],
            TypedModBufPrototype::BytesCopyFromLinearMemory(x0, x1, x2, x3) => {
                seq![
                    OperandView::Bytes(x0.bytes@),
                    OperandView::U32(*x1),
                    OperandView::U32(*x2),
                    OperandView::U32(*x3),
                ]
            },
            TypedModBufPrototype::BytesCopyToLinearMemory(x0, x1, x2, x3) => {
                seq![
                    OperandView::Bytes(x0.bytes@),
                    OperandView::U32(*x1),
                    OperandView::U32(*x2),
                    OperandView::U32(*x3),
                ]
            },
            TypedModBufPrototype::BytesDel(x0, x1) => {
                seq![OperandView::Bytes(x0.bytes@), OperandView::U32(*x1)]
            },
            TypedModBufPrototype::BytesFront(x0) => seq![OperandView::Bytes(x0.bytes@)],
            TypedModBufPrototype::BytesGet(x0, x1) => {
                seq![OperandView::Bytes(x0.bytes@), OperandView::U32(*x1)]
            },
            TypedModBufPrototype::BytesInsert(x0, x1, x2) => {
                seq![OperandView::Bytes(x0.bytes@), OperandView::U32(*x1), OperandView::U32(*x2)]
            },
            TypedModBufPrototype::BytesLen(x0) => seq![OperandView::Bytes(x0.bytes@)],
            TypedModBufPrototype::BytesNew => seq![],
            TypedModBufPrototype::BytesNewFromLinearMemory(x0, x1) => {
                seq![OperandView::U32(*x0), OperandView::U32(*x1)]
            },
            TypedModBufPrototype::BytesPop(x0) => seq![OperandView::Bytes(x0.bytes@)],
            TypedModBufPrototype::BytesPush(x0, x1) => {
                seq![OperandView::Bytes(x0.bytes@), OperandView::U32(*x1)]
            },
            TypedModBufPrototype::BytesPut(x0, x1, x2) => {
                seq![OperandView::Bytes(x0.bytes@), OperandView::U32(*x1), OperandView::U32(*x2)]
            },
            TypedModBufPrototype::BytesSlice(x0, x1, x2) => {
                seq![OperandView::Bytes(x0.bytes@), OperandView::U32(*x1), OperandView::U32(*x2)]
            },
            TypedModBufPrototype::DeserializeFromBytes(x0) => seq![OperandView::Bytes(x0.bytes@)],
            TypedModBufPrototype::SerializeToBytes(x0) => seq![OperandView::Val(x0@)],
            TypedModBufPrototype::StringCopyToLinearMemory(x0, x1, x2, x3) => {
                seq![
                    OperandView::String(x0.bytes@),
                    OperandView::U32(*x1),
                    OperandView::U32(*x2),
                    OperandView::U32(*x3),
                ]
            },
            TypedModBufPrototype::StringLen(x0) => seq![OperandView::String(x0.bytes@)],
            TypedModBufPrototype::StringNewFromLinearMemory(x0, x1) => {
                seq![OperandView::U32(*x0), OperandView::U32(*x1)]
            },
            TypedModBufPrototype::SymbolCopyToLinearMemory(x0, x1, x2, x3) => {
                seq![
                    OperandView::Symbol(x0.chars@),
                    OperandView::U32(*x1),
                    OperandView::U32(*x2),
                    OperandView::U32(*x3),
                ]
            },
            TypedModBufPrototype::SymbolIndexInLinearMemory(x0, x1, x2) => {
                seq![OperandView::Symbol(x0.chars@), OperandView::U32(*x1), OperandView::U32(*x2)]
            },
            TypedModBufPrototype::SymbolLen(x0) => seq![OperandView::Symbol(x0.chars@)],
            TypedModBufPrototype::SymbolNewFromLinearMemory(x0, x1) => {
                seq![OperandView::U32(*x0), OperandView::U32(*x1)]
            },
        }
    }
}

impl TypedModCallPrototype {
    /// Index of the operation within its category.
    pub open spec fn operation(&self) -> int {
        match self {
            TypedModCallPrototype::Call(..) => 0,
            TypedModCallPrototype::TryCall(..) => 1,
        }
    }

    /// The operand values, in declared order.
    pub open spec fn operands(&self) -> Seq<OperandView> {
        match self {
            TypedModCallPrototype::Call(x0, x1, x2) => {
                seq![
                    OperandView::Address(x0.contract_id@),
                    OperandView::Symbol(x1.chars@),
                    OperandView::ValVec(x2.items_view()),
                ]
            },
            TypedModCallPrototype::TryCall(x0, x1, x2) => {
                seq![
                    OperandView::Address(x0.contract_id@),
                    OperandView::Symbol(x1.chars@),
                    OperandView::ValVec(x2.items_view()),
                ]
            },
        }
    }
}

impl TypedModContextPrototype {
    /// Index of the operation within its category.
    pub open spec fn operation(&self) -> int {
        match self {
            TypedModContextPrototype::ContractEvent(..) => 0,
            TypedModContextPrototype::FailWithError(..) => 1,
            TypedModContextPrototype::GetCurrentCallStack => 2,
            TypedModContextPrototype::GetCurrentContractAddress => 3,
            TypedModContextPrototype::GetInvokingContract => 4,
            TypedModContextPrototype::GetLedgerNetworkId => 5,
            TypedModContextPrototype::GetLedgerSequence => 6,
            TypedModContextPrototype::GetLedgerTimestamp => 7,
            TypedModContextPrototype::GetLedgerVersion => 8,
            TypedModContextPrototype::LogFromLinearMemory(..) => 9,
            TypedModContextPrototype::ObjCmp(..) => 10,
        }
    }

    /// The operand values, in declared order.
    pub open spec fn operands(&self) -> Seq<OperandView> {
        match self {
            TypedModContextPrototype::ContractEvent(x0, x1) => {
                seq![OperandView::ValVec(x0.items_view()), OperandView::Val(x1@)]
            },
            TypedModContextPrototype::FailWithError(x0) => seq![OperandView::Val(x0@)],
            TypedModContextPrototype::GetCurrentCallStack => seq![],
            TypedModContextPrototype::GetCurrentContractAddress => seq![],
            TypedModContextPrototype::GetInvokingContract => seq![],
            TypedModContextPrototype::GetLedgerNetworkId => seq![],
            TypedModContextPrototype::GetLedgerSequence => seq![],
            TypedModContextPrototype::GetLedgerTimestamp => seq![],
            TypedModContextPrototype::GetLedgerVersion => seq![],
            TypedModContextPrototype::LogFromLinearMemory(x0, x1, x2, x3) => {
                seq![
                    OperandView::U32(*x0),
                    OperandView::U32(*x1),
                    OperandView::U32(*x2),
                    OperandView::U32(*x3),
                ]
            },
            TypedModContextPrototype::ObjCmp(x0, x1) => {
                seq![OperandView::Val(x0@), OperandView::Val(x1@)]
            },
        }
    }
}

impl TypedModCryptoPrototype {
    /// Index of the operation within its category.
    pub open spec fn operation(&self) -> int {
        match self {
            TypedModCryptoPrototype::ComputeHashKeccak256(..) => 0,
            TypedModCryptoPrototype::ComputeHashSha256(..) => 1,
            TypedModCryptoPrototype::RecoverKeyEcdsaSecp256k1(..) => 2,
            TypedModCryptoPrototype::VerifySigEd25519(..) => 3,
        }
    }

    /// The operand values, in declared order.
    pub open spec fn operands(&self) -> Seq<OperandView> {
        match self {
            TypedModCryptoPrototype::ComputeHashKeccak256(x0) => {
                seq![OperandView::Bytes(x0.bytes@)]
            },
            TypedModCryptoPrototype::ComputeHashSha256(x0) => seq![OperandView::Bytes(x0.bytes@)],
            TypedModCryptoPrototype::RecoverKeyEcdsaSecp256k1(x0, x1, x2) => {
                seq![
                    OperandView::Bytes(x0.bytes@),
                    OperandView::Bytes(x1.bytes@),
                    OperandView::U32(*x2),
                ]
            },
            TypedModCryptoPrototype::VerifySigEd25519(x0, x1, x2) => {
                seq![
                    OperandView::Bytes(x0.bytes@),
                    OperandView::Bytes(x1.bytes@),
                    OperandView::Bytes(x2.bytes@),
                ]
            },
        }
    }
}

impl TypedModIntPrototype {
    /// Index of the operation within its category.
    pub open spec fn operation(&self) -> int {
        match self {
            TypedModIntPrototype::DurationObjFromU64(..) => 0,
            TypedModIntPrototype::DurationObjToU64(..) => 1,
            TypedModIntPrototype::I256Add(..) => 2,
            TypedModIntPrototype::I256Div(..) => 3,
            TypedModIntPrototype::I256Mul(..) => 4,
            TypedModIntPrototype::I256ObjFromBeBytes(..) => 5,
            TypedModIntPrototype::I256ObjToBeBytes(..) => 6,
            TypedModIntPrototype::I256Pow(..) => 7,
            TypedModIntPrototype::I256Shl(..) => 8,
            TypedModIntPrototype::I256Shr(..) => 9,
            TypedModIntPrototype::I256Sub(..) => 10,
            TypedModIntPrototype::ObjFromI64(..) => 11,
            TypedModIntPrototype::ObjFromI128Pieces(..) => 12,
            TypedModIntPrototype::ObjFromI256Pieces(..) => 13,
            TypedModIntPrototype::ObjFromU64(..) => 14,
            TypedModIntPrototype::ObjFromU128Pieces(..) => 15,
            TypedModIntPrototype::ObjFromU256Pieces(..) => 16,
            TypedModIntPrototype::ObjToI64(..) => 17,
            TypedModIntPrototype::ObjToI128Hi64(..) => 18,
            TypedModIntPrototype::ObjToI128Lo64(..) => 19,
            TypedModIntPrototype::ObjToI256HiHi(..) => 20,
            TypedModIntPrototype::ObjToI256HiLo(..) => 21,
            TypedModIntPrototype::ObjToI256LoHi(..) => 22,
            TypedModIntPrototype::ObjToI256LoLo(..) => 23,
            TypedModIntPrototype::ObjToU64(..) => 24,
            TypedModIntPrototype::ObjToU128Hi64(..) => 25,
            TypedModIntPrototype::ObjToU128Lo64(..) => 26,
            TypedModIntPrototype::ObjToU256HiHi(..) => 27,
            TypedModIntPrototype::ObjToU256HiLo(..) => 28,
            TypedModIntPrototype::ObjToU256LoHi(..) => 29,
            TypedModIntPrototype::ObjToU256LoLo(..) => 30,
            TypedModIntPrototype::TimepointObjFromU64(..) => 31,
            TypedModIntPrototype::TimepointObjToU64(..) => 32,
            TypedModIntPrototype::U256Add(..) => 33,
            TypedModIntPrototype::U256Div(..) => 34,
            TypedModIntPrototype::U256Mul(..) => 35,
            TypedModIntPrototype::U256ValFromBeBytes(..) => 36,
            TypedModIntPrototype::U256ValToBeBytes(..) => 37,
            TypedModIntPrototype::U256Pow(..) => 38,
            TypedModIntPrototype::U256Shl(..) => 39,
            TypedModIntPrototype::U256Shr(..) => 40,
            TypedModIntPrototype::U256Sub(..) => 41,
        }
    }

    /// The operand values, in declared order.
    pub open spec fn operands(&self) -> Seq<OperandView> {
        match self {
            TypedModIntPrototype::DurationObjFromU64(x0) => seq![OperandView::U64(*x0)],
            TypedModIntPrototype::DurationObjToU64(x0) => seq![OperandView::Val(x0@)],
            TypedModIntPrototype::I256Add(x0, x1) => {
                seq![OperandView::Val(x0@), OperandView::Val(x1@)]
            },
            TypedModIntPrototype::I256Div(x0, x1) => {
                seq![OperandView::Val(x0@), OperandView::Val(x1@)]
            },
            TypedModIntPrototype::I256Mul(x0, x1) => {
                seq![OperandView::Val(x0@), OperandView::Val(x1@)]
            },
            TypedModIntPrototype::I256ObjFromBeBytes(x0) => seq![OperandView::Bytes(x0.bytes@)],
            TypedModIntPrototype::I256ObjToBeBytes(x0) => seq![OperandView::Val(x0@)],
            TypedModIntPrototype::I256Pow(x0, x1) => {
                seq![OperandView::Val(x0@), OperandView::U32(*x1)]
            },
            TypedModIntPrototype::I256Shl(x0, x1) => {
                seq![OperandView::Val(x0@), OperandView::U32(*x1)]
            },
            TypedModIntPrototype::I256Shr(x0, x1) => {
                seq![OperandView::Val(x0@), OperandView::U32(*x1)]
            },
            TypedModIntPrototype::I256Sub(x0, x1) => {
                seq![OperandView::Val(x0@), OperandView::Val(x1@)]
            },
            TypedModIntPrototype::ObjFromI64(x0) => seq![OperandView::I64(*x0)],
            TypedModIntPrototype::ObjFromI128Pieces(x0, x1) => {
                seq![OperandView::I64(*x0), OperandView::U64(*x1)]
            },
            TypedModIntPrototype::ObjFromI256Pieces(x0, x1, x2, x3) => {
                seq![
                    OperandView::I64(*x0),
                    OperandView::U64(*x1),
                    OperandView::U64(*x2),
                    OperandView::U64(*x3),
                ]
            },
            TypedModIntPrototype::ObjFromU64(x0) => seq![OperandView::U64(*x0)],
            TypedModIntPrototype::ObjFromU128Pieces(x0, x1) => {
                seq![OperandView::U64(*x0), OperandView::U64(*x1)]
            },
            TypedModIntPrototype::ObjFromU256Pieces(x0, x1, x2, x3) => {
                seq![
                    OperandView::U64(*x0),
                    OperandView::U64(*x1),
                    OperandView::U64(*x2),
                    OperandView::U64(*x3),
                ]
            },
            TypedModIntPrototype::ObjToI64(x0) => seq![OperandView::I64(*x0)],
            TypedModIntPrototype::ObjToI128Hi64(x0) => seq![OperandView::I128(*x0)],
            TypedModIntPrototype::ObjToI128Lo64(x0) => seq![OperandView::I128(*x0)],
            TypedModIntPrototype::ObjToI256HiHi(x0) => seq![OperandView::Val(x0@)],
            TypedModIntPrototype::ObjToI256HiLo(x0) => seq![OperandView::Val(x0@)],
            TypedModIntPrototype::ObjToI256LoHi(x0) => seq![OperandView::Val(x0@)],
            TypedModIntPrototype::ObjToI256LoLo(x0) => seq![OperandView::Val(x0@)],
            TypedModIntPrototype::ObjToU64(x0) => seq![OperandView::U64(*x0)],
            TypedModIntPrototype::ObjToU128Hi64(x0) => seq![OperandView::U128(*x0)],
            TypedModIntPrototype::ObjToU128Lo64(x0) => seq![OperandView::U128(*x0)],
            TypedModIntPrototype::ObjToU256HiHi(x0) => seq![OperandView::Val(x0@)],
            TypedModIntPrototype::ObjToU256HiLo(x0) => seq![OperandView::Val(x0@)],
            TypedModIntPrototype::ObjToU256LoHi(x0) => seq![OperandView::Val(x0@)],
            TypedModIntPrototype::ObjToU256LoLo(x0) => seq![OperandView::Val(x0@)],
            TypedModIntPrototype::TimepointObjFromU64(x0) => seq![OperandView::U64(*x0)],
            TypedModIntPrototype::TimepointObjToU64(x0) => seq![OperandView::Val(x0@)],
            TypedModIntPrototype::U256Add(x0, x1) => {
                seq![OperandView::Val(x0@), OperandView::Val(x1@)]
            },
            TypedModIntPrototype::U256Div(x0, x1) => {
                seq![OperandView::Val(x0@), OperandView::Val(x1@)]
            },
            TypedModIntPrototype::U256Mul(x0, x1) => {
                seq![OperandView::Val(x0@), OperandView::Val(x1@)]
            },
            TypedModIntPrototype::U256ValFromBeBytes(x0) => seq![OperandView::Bytes(x0.bytes@)],
            TypedModIntPrototype::U256ValToBeBytes(x0) => seq![OperandView::Val(x0@)],
            TypedModIntPrototype::U256Pow(x0, x1) => {
                seq![OperandView::Val(x0@), OperandView::U32(*x1)]
            },
            TypedModIntPrototype::U256Shl(x0, x1) => {
                seq![OperandView::Val(x0@), OperandView::U32(*x1)]
            },
            TypedModIntPrototype::U256Shr(x0, x1) => {
                seq![OperandView::Val(x0@), OperandView::U32(*x1)]
            },
            TypedModIntPrototype::U256Sub(x0, x1) => {
                seq![OperandView::Val(x0@), OperandView::Val(x1@)]
            },
        }
    }
}

impl TypedModLedgerPrototype {
    /// Index of the operation within its category.
    pub open spec fn operation(&self) -> int {
        match self {
            TypedModLedgerPrototype::BumpContractData(..) => 0,
            TypedModLedgerPrototype::CreateAssetContract(..) => 1,
            TypedModLedgerPrototype::CreateContract(..) => 2,
            TypedModLedgerPrototype::DelContractData(..) => 3,
            TypedModLedgerPrototype::GetAssetContractId(..) => 4,
            TypedModLedgerPrototype::GetContractData(..) => 5,
            TypedModLedgerPrototype::GetContractId(..) => 6,
            TypedModLedgerPrototype::HasContractData(..) => 7,
            TypedModLedgerPrototype::PutContractData(..) => 8,
            TypedModLedgerPrototype::UpdateCurrentContractWasm(..) => 9,
            TypedModLedgerPrototype::UploadWasm(..) => 10,
        }
    }

    /// The operand values, in declared order.
    pub open spec fn operands(&self) -> Seq<OperandView> {
        match self {
            TypedModLedgerPrototype::BumpContractData(x0, x1) => {
                seq![OperandView::Val(x0@), OperandView::U32(*x1)]
            },
            TypedModLedgerPrototype::CreateAssetContract(x0) => seq![OperandView::Bytes(x0.bytes@)],
            TypedModLedgerPrototype::CreateContract(x0, x1, x2) => {
                seq![
                    OperandView::Address(x0.contract_id@),
                    OperandView::Bytes(x1.bytes@),
                    OperandView::Bytes(x2.bytes@),
                ]
            },
            TypedModLedgerPrototype::DelContractData(x0) => seq![OperandView::Val(x0@)],
            TypedModLedgerPrototype::GetAssetContractId(x0) => seq![OperandView::Bytes(x0.bytes@)],
            TypedModLedgerPrototype::GetContractData(x0) => seq![OperandView::Val(x0@)],
            TypedModLedgerPrototype::GetContractId(x0, x1) => {
                seq![OperandView::Address(x0.contract_id@), OperandView::Bytes(x1.bytes@)]
            },
            TypedModLedgerPrototype::HasContractData(x0) => seq![OperandView::Val(x0@)],
            TypedModLedgerPrototype::PutContractData(x0, x1, x2) => {
                seq![OperandView::Val(x0@), OperandView::Val(x1@), OperandView::Val(x2@)]
            },
            TypedModLedgerPrototype::UpdateCurrentContractWasm(x0) => {
                seq![OperandView::Bytes(x0.bytes@)]
            },
            TypedModLedgerPrototype::UploadWasm(x0) => seq![OperandView::Bytes(x0.bytes@)],
        }
    }
}

impl TypedModMapPrototype {
    /// Index of the operation within its category.
    pub open spec fn operation(&self) -> int {
        match self {
            TypedModMapPrototype::MapDel(..) => 0,
            TypedModMapPrototype::MapGet(..) => 1,
            TypedModMapPrototype::MapHas(..) => 2,
            TypedModMapPrototype::MapKeys(..) => 3,
            TypedModMapPrototype::MapLen(..) => 4,
            TypedModMapPrototype::MapMaxKey(..) => 5,
            TypedModMapPrototype::MapMinKey(..) => 6,
            TypedModMapPrototype::MapNew => 7,
            TypedModMapPrototype::MapNewFromLinearMemory(..) => 8,
            TypedModMapPrototype::MapNextKey(..) => 9,
            TypedModMapPrototype::MapPrevKey(..) => 10,
            TypedModMapPrototype::MapPut(..) => 11,
            TypedModMapPrototype::MapUnpackToLinearMemory(..) => 12,
            TypedModMapPrototype::MapValues(..) => 13,
        }
    }

    /// The operand values, in declared order.
    pub open spec fn operands(&self) -> Seq<OperandView> {
        match self {
            TypedModMapPrototype::MapDel(x0, x1) => {
                seq![OperandView::ValMap(x0.entries_view()), OperandView::Val(x1@)]
            },
            TypedModMapPrototype::MapGet(x0, x1) => {
                seq![OperandView::ValMap(x0.entries_view()), OperandView::Val(x1@)]
            },
            TypedModMapPrototype::MapHas(x0, x1) => {
                seq![OperandView::ValMap(x0.entries_view()), OperandView::Val(x1@)]
            },
            TypedModMapPrototype::MapKeys(x0) => seq![OperandView::ValMap(x0.entries_view())],
            TypedModMapPrototype::MapLen(x0) => seq![OperandView::ValMap(x0.entries_view())],
            TypedModMapPrototype::MapMaxKey(x0) => seq![OperandView::ValMap(x0.entries_view())],
            TypedModMapPrototype::MapMinKey(x0) => seq![OperandView::ValMap(x0.entries_view())],
            TypedModMapPrototype::MapNew => seq![],
            TypedModMapPrototype::MapNewFromLinearMemory(x0, x1, x2) => {
                seq![OperandView::U32(*x0), OperandView::U32(*x1), OperandView::U32(*x2)]
            },
            TypedModMapPrototype::MapNextKey(x0, x1) => {
                seq![OperandView::ValMap(x0.entries_view()), OperandView::Val(x1@)]
            },
            TypedModMapPrototype::MapPrevKey(x0, x1) => {
                seq![OperandView::ValMap(x0.entries_view()), OperandView::Val(x1@)]
            },
            TypedModMapPrototype::MapPut(x0, x1, x2) => {
                seq![
                    OperandView::ValMap(x0.entries_view()),
                    OperandView::Val(x1@),
                    OperandView::Val(x2@),
                ]
            },
            TypedModMapPrototype::MapUnpackToLinearMemory(x0, x1, x2, x3) => {
                seq![
                    OperandView::ValMap(x0.entries_view()),
                    OperandView::U32(*x1),
                    OperandView::U32(*x2),
                    OperandView::U32(*x3),
                ]
            },
            TypedModMapPrototype::MapValues(x0) => seq![OperandView::ValMap(x0.entries_view())],
        }
    }
}

impl TypedModPrngPrototype {
    /// Index of the operation within its category.
    pub open spec fn operation(&self) -> int {
        match self {
            TypedModPrngPrototype::PrngBytesNew(..) => 0,
            TypedModPrngPrototype::PrngReseed(..) => 1,
            TypedModPrngPrototype::PrngU64InInclusiveRange(..) => 2,
            TypedModPrngPrototype::PrngVecShuffle(..) => 3,
        }
    }

    /// The operand values, in declared order.
    pub open spec fn operands(&self) -> Seq<OperandView> {
        match self {
            TypedModPrngPrototype::PrngBytesNew(x0) => seq![OperandView::U32(*x0)],
            TypedModPrngPrototype::PrngReseed(x0) => seq![OperandView::Bytes(x0.bytes@)],
            TypedModPrngPrototype::PrngU64InInclusiveRange(x0, x1) => {
                seq![OperandView::U64(*x0), OperandView::U64(*x1)]
            },
            TypedModPrngPrototype::PrngVecShuffle(x0) => seq![OperandView::ValVec(x0.items_view())],
        }
    }
}

impl TypedModVecPrototype {
    /// Index of the operation within its category.
    pub open spec fn operation(&self) -> int {
        match self {
            TypedModVecPrototype::VecAppend(..) => 0,
            TypedModVecPrototype::VecBack(..) => 1,
            TypedModVecPrototype::VecBinarySearch(..) => 2,
            TypedModVecPrototype::VecDel(..) => 3,
            TypedModVecPrototype::VecFirstIndexOf(..) => 4,
            TypedModVecPrototype::VecFront(..) => 5,
            TypedModVecPrototype::VecGet(..) => 6,
            TypedModVecPrototype::VecInsert(..) => 7,
            TypedModVecPrototype::VecLastIndexOf(..) => 8,
            TypedModVecPrototype::VecLen(..) => 9,
            TypedModVecPrototype::VecNew(..) => 10,
            TypedModVecPrototype::VecNewFromLinearMemory(..) => 11,
            TypedModVecPrototype::VecPopBack(..) => 12,
            TypedModVecPrototype::VecPopFront(..) => 13,
            TypedModVecPrototype::VecPushBack(..) => 14,
            TypedModVecPrototype::VecPushFront(..) => 15,
            TypedModVecPrototype::VecPut(..) => 16,
            TypedModVecPrototype::VecSlice(..) => 17,
            TypedModVecPrototype::VecUnpackToLinearMemory(..) => 18,
        }
    }

    /// The operand values, in declared order.
    pub open spec fn operands(&self) -> Seq<OperandView> {
        match self {
            TypedModVecPrototype::VecAppend(x0, x1) => {
                seq![OperandView::ValVec(x0.items_view()), OperandView::ValVec(x1.items_view())]
            },
            TypedModVecPrototype::VecBack(x0) => seq![OperandView::ValVec(x0.items_view())],
            TypedModVecPrototype::VecBinarySearch(x0, x1) => {
                seq![OperandView::ValVec(x0.items_view()), OperandView::Val(x1@)]
            },
            TypedModVecPrototype::VecDel(x0, x1) => {
                seq![OperandView::ValVec(x0.items_view()), OperandView::U32(*x1)]
            },
            TypedModVecPrototype::VecFirstIndexOf(x0, x1) => {
                seq![OperandView::ValVec(x0.items_view()), OperandView::Val(x1@)]
            },
            TypedModVecPrototype::VecFront(x0) => seq![OperandView::ValVec(x0.items_view())],
            TypedModVecPrototype::VecGet(x0, x1) => {
                seq![OperandView::ValVec(x0.items_view()), OperandView::U32(*x1)]
            },
            TypedModVecPrototype::VecInsert(x0, x1, x2) => {
                seq![
                    OperandView::ValVec(x0.items_view()),
                    OperandView::U32(*x1),
                    OperandView::Val(x2@),
                ]
            },
            TypedModVecPrototype::VecLastIndexOf(x0, x1) => {
                seq![OperandView::ValVec(x0.items_view()), OperandView::Val(x1@)]
            },
            TypedModVecPrototype::VecLen(x0) => seq![OperandView::ValVec(x0.items_view())],
            TypedModVecPrototype::VecNew(x0) => seq![OperandView::Val(x0@)],
            TypedModVecPrototype::VecNewFromLinearMemory(x0, x1) => {
                seq![OperandView::U32(*x0), OperandView::U32(*x1)]
            },
            TypedModVecPrototype::VecPopBack(x0) => seq![OperandView::ValVec(x0.items_view())],
            TypedModVecPrototype::VecPopFront(x0) => seq![OperandView::ValVec(x0.items_view())],
            TypedModVecPrototype::VecPushBack(x0, x1) => {
                seq![OperandView::ValVec(x0.items_view()), OperandView::Val(x1@)]
            },
            TypedModVecPrototype::VecPushFront(x0, x1) => {
                seq![OperandView::ValVec(x0.items_view()), OperandView::Val(x1@)]
            },
            TypedModVecPrototype::VecPut(x0, x1, x2) => {
                seq![
                    OperandView::ValVec(x0.items_view()),
                    OperandView::U32(*x1),
                    OperandView::Val(x2@),
                ]
            },
            TypedModVecPrototype::VecSlice(x0, x1, x2) => {
                seq![
                    OperandView::ValVec(x0.items_view()),
                    OperandView::U32(*x1),
                    OperandView::U32(*x2),
                ]
            },
            TypedModVecPrototype::VecUnpackToLinearMemory(x0, x1, x2) => {
                seq![
                    OperandView::ValVec(x0.items_view()),
                    OperandView::U32(*x1),
                    OperandView::U32(*x2),
                ]
            },
        }
    }
}

impl View for TypedFuzzInstructionPrototype {
    type V = InstructionView;

    open spec fn view(&self) -> InstructionView {
        match self {
            TypedFuzzInstructionPrototype::Address(v) => InstructionView {
                category: 0,
                operation: v.operation(),
                operands: v.operands(),
            },
            TypedFuzzInstructionPrototype::Buf(v) => InstructionView {
                category: 1,
                operation: v.operation(),
                operands: v.operands(),
            },
            TypedFuzzInstructionPrototype::Call(v) => InstructionView {
                category: 2,
                operation: v.operation(),
                operands: v.operands(),
            },
            TypedFuzzInstructionPrototype::Context(v) => InstructionView {
                category: 3,
                operation: v.operation(),
                operands: v.operands(),
            },
            TypedFuzzInstructionPrototype::Crypto(v) => InstructionView {
                category: 4,
                operation: v.operation(),
                operands: v.operands(),
            },
            TypedFuzzInstructionPrototype::Int(v) => InstructionView {
                category: 5,
                operation: v.operation(),
                operands: v.operands(),
            },
            TypedFuzzInstructionPrototype::Ledger(v) => InstructionView {
                category: 6,
                operation: v.operation(),
                operands: v.operands(),
            },
            TypedFuzzInstructionPrototype::Maps(v) => InstructionView {
                category: 7,
                operation: v.operation(),
                operands: v.operands(),
            },
            TypedFuzzInstructionPrototype::Prng(v) => InstructionView {
                category: 8,
                operation: v.operation(),
                operands: v.operands(),
            },
            TypedFuzzInstructionPrototype::Test => InstructionView {
                category: 9,
                operation: 0,
                operands: seq![],
            },
            TypedFuzzInstructionPrototype::Vec(v) => InstructionView {
                category: 10,
                operation: v.operation(),
                operands: v.operands(),
            },
        }
    }
}

/// Decoding of the operation part of an instruction of category `cat`: the
/// choice of an operation (none for a category of one operation), then its
/// operands in declared order.
pub open spec fn spec_operation(cat: int, s: Seq<u8>) -> Option<
    ((int, Seq<OperandView>), Seq<u8>),
> {
    if operation_count(cat) == 1 {
        match spec_operands(signature(cat, 0), s) {
            Some((ops, r)) => Some(((0, ops), r)),
            None => None,
        }
    } else {
        match spec_choice(s, operation_count(cat) as u32) {
            Some((op, r)) => match spec_operands(signature(cat, op as int), r) {
                Some((ops, r2)) => Some(((op as int, ops), r2)),
                None => None,
            },
            None => None,
        }
    }
}

/// Decoding of one instruction: the choice of a category, then of an
/// operation within it, then the operands. The result holds the instruction
/// and the bytes that follow it.
pub open spec fn spec_decode(s: Seq<u8>) -> Option<(InstructionView, Seq<u8>)> {
    match spec_choice(s, CATEGORY_COUNT) {
        Some((cat, r)) => match spec_operation(cat as int, r) {
            Some(((op, ops), r2)) => Some(
                (InstructionView { category: cat as int, operation: op, operands: ops }, r2),
            ),
            None => None,
        },
        None => None,
    }
}


pub(crate) proof fn lemma_operands_1(k0: OperandKind, s: Seq<u8>)
    ensures
        spec_operands(seq![k0], s) == match spec_operand(k0, s) {
                Some((x0, r0)) => Some((seq![x0], r0)),
                None => None,
            },
{
    reveal_with_fuel(spec_operands, 2);
    assert(seq![k0].drop_last() =~= Seq::<OperandKind>::empty());
}

pub(crate) proof fn lemma_operands_2(k0: OperandKind, k1: OperandKind, s: Seq<u8>)
    ensures
        spec_operands(seq![k0, k1], s) == match spec_operand(k0, s) {
                Some((x0, r0)) => match spec_operand(k1, r0) {
                    Some((x1, r1)) => Some((seq![x0, x1], r1)),
                    None => None,
                },
                None => None,
            },
{
    assert(seq![k0, k1].drop_last() =~= seq![k0]);
    lemma_operands_1(k0, s);
}

pub(crate) proof fn lemma_operands_3(
    k0: OperandKind,
    k1: OperandKind,
    k2: OperandKind,
    s: Seq<u8>,
)
    ensures
        spec_operands(seq![k0, k1, k2], s) == match spec_operand(k0, s) {
                Some((x0, r0)) => match spec_operand(k1, r0) {
                    Some((x1, r1)) => match spec_operand(k2, r1) {
                        Some((x2, r2)) => Some((seq![x0, x1, x2], r2)),
                        None => None,
                    },
                    None => None,
                },
                None => None,
            },
{
    assert(seq![k0, k1, k2].drop_last() =~= seq![k0, k1]);
    lemma_operands_2(k0, k1, s);
}

pub(crate) proof fn lemma_operands_4(
    k0: OperandKind,
    k1: OperandKind,
    k2: OperandKind,
    k3: OperandKind,
    s: Seq<u8>,
)
    ensures
        spec_operands(seq![k0, k1, k2, k3], s) == match spec_operand(k0, s) {
                Some((x0, r0)) => match spec_operand(k1, r0) {
                    Some((x1, r1)) => match spec_operand(k2, r1) {
                        Some((x2, r2)) => match spec_operand(k3, r2) {
                            Some((x3, r3)) => Some((seq![x0, x1, x2, x3], r3)),
                            None => None,
                        },
                        None => None,
                    },
                    None => None,
                },
                None => None,
            },
{
    assert(seq![k0, k1, k2, k3].drop_last() =~= seq![k0, k1, k2]);
    lemma_operands_3(k0, k1, k2, s);
}

impl TypedModAddressPrototype {
    /// Decodes an operation of the address category and its operands.
    pub fn decode(c: &mut ByteCursor) -> (r: Result<TypedModAddressPrototype, InsufficientInput>)
        requires
            old(c).wf(),
        ensures
            final(c).wf(),
            r is Ok <==> spec_operation(CAT_ADDRESS as int, old(c)@) is Some,
            r matches Ok(v) ==> spec_operation(CAT_ADDRESS as int, old(c)@) == Some(
                ((v.operation(), v.operands()), final(c)@),
            ),
    {
        let op = c.take_choice(7)?;
        if op == 0 {
            proof {
                lemma_operands_1(OperandKind::Bytes, c@);
            }
            let x0 = BytesProto::decode(c)?;
            Ok(TypedModAddressPrototype::AccountPublicKeyToAddress(x0))
        } else if op == 1 {
            proof {
                lemma_operands_1(OperandKind::Address, c@);
            }
            let x0 = AddressProto::decode(c)?;
            Ok(TypedModAddressPrototype::AddressToAccountPublicKey(x0))
        } else if op == 2 {
            proof {
                lemma_operands_1(OperandKind::Address, c@);
            }
            let x0 = AddressProto::decode(c)?;
            Ok(TypedModAddressPrototype::AddressToContractId(x0))
        } else if op == 3 {
            proof {
                lemma_operands_1(OperandKind::ValVec, c@);
            }
            let x0 = decode_val_vec_operand(c)?;
            Ok(TypedModAddressPrototype::AuthorizeAsCurrContract(x0))
        } else if op == 4 {
            proof {
                lemma_operands_1(OperandKind::Bytes, c@);
            }
            let x0 = BytesProto::decode(c)?;
            Ok(TypedModAddressPrototype::ContractIdToAddress(x0))
        } else if op == 5 {
            proof {
                lemma_operands_1(OperandKind::Address, c@);
            }
            let x0 = AddressProto::decode(c)?;
            Ok(TypedModAddressPrototype::RequireAuth(x0))
        } else {
            proof {
                lemma_operands_2(OperandKind::Address, OperandKind::ValVec, c@);
            }
            let x0 = AddressProto::decode(c)?;
            let x1 = decode_val_vec_operand(c)?;
            Ok(TypedModAddressPrototype::RequireAuthForArgs(x0, x1))
        }
    }
}

impl TypedModBufPrototype {
    /// Decodes an operation of the buf category and its operands.
    pub fn decode(c: &mut ByteCursor) -> (r: Result<TypedModBufPrototype, InsufficientInput>)
        requires
            old(c).wf(),
        ensures
            final(c).wf(),
            r is Ok <==> spec_operation(CAT_BUF as int, old(c)@) is Some,
            r matches Ok(v) ==> spec_operation(CAT_BUF as int, old(c)@) == Some(
                ((v.operation(), v.operands()), final(c)@),
            ),
    {
        let op = c.take_choice(24)?;
        if op == 0 {
            proof {
                lemma_operands_2(OperandKind::Bytes, OperandKind::Bytes, c@);
            }
            let x0 = BytesProto::decode(c)?;
            let x1 = BytesProto::decode(c)?;
            Ok(TypedModBufPrototype::BytesAppend(x0, x1))
        } else if op == 1 {
            proof {
                lemma_operands_1(OperandKind::Bytes, c@);
            }
            let x0 = BytesProto::decode(c)?;
            Ok(TypedModBufPrototype::BytesBack(x0))
        } else if op == 2 {
            proof {
                lemma_operands_4(
                    OperandKind::Bytes,
                    OperandKind::U32,
                    OperandKind::U32,
                    OperandKind::U32,
                    c@,
                );
            }
            let x0 = BytesProto::decode(c)?;
            let x1 = decode_u32_operand(c)?;
            let x2 = decode_u32_operand(c)?;
            let x3 = decode_u32_operand(c)?;
            Ok(TypedModBufPrototype::BytesCopyFromLinearMemory(x0, x1, x2, x3))
        } else if op == 3 {
            proof {
                lemma_operands_4(
                    OperandKind::Bytes,
                    OperandKind::U32,
                    OperandKind::U32,
                    OperandKind::U32,
                    c@,
                );
            }
            let x0 = BytesProto::decode(c)?;
            let x1 = decode_u32_operand(c)?;
            let x2 = decode_u32_operand(c)?;
            let x3 = decode_u32_operand(c)?;
            Ok(TypedModBufPrototype::BytesCopyToLinearMemory(x0, x1, x2, x3))
        } else if op == 4 {
            proof {
                lemma_operands_2(OperandKind::Bytes, OperandKind::U32, c@);
            }
            let x0 = BytesProto::decode(c)?;
            let x1 = decode_u32_operand(c)?;
            Ok(TypedModBufPrototype::BytesDel(x0, x1))
        } else if op == 5 {
            proof {
                lemma_operands_1(OperandKind::Bytes, c@);
            }
            let x0 = BytesProto::decode(c)?;
            Ok(TypedModBufPrototype::BytesFront(x0))
        } else if op == 6 {
            proof {
                lemma_operands_2(OperandKind::Bytes, OperandKind::U32, c@);
            }
            let x0 = BytesProto::decode(c)?;
            let x1 = decode_u32_operand(c)?;
            Ok(TypedModBufPrototype::BytesGet(x0, x1))
        } else if op == 7 {
            proof {
                lemma_operands_3(OperandKind::Bytes, OperandKind::U32, OperandKind::U32, c@);
            }
            let x0 = BytesProto::decode(c)?;
            let x1 = decode_u32_operand(c)?;
            let x2 = decode_u32_operand(c)?;
            Ok(TypedModBufPrototype::BytesInsert(x0, x1, x2))
        } else if op == 8 {
            proof {
                lemma_operands_1(OperandKind::Bytes, c@);
            }
            let x0 = BytesProto::decode(c)?;
            Ok(TypedModBufPrototype::BytesLen(x0))
        } else if op == 9 {
            Ok(TypedModBufPrototype::BytesNew)
        } else if op == 10 {
            proof {
                lemma_operands_2(OperandKind::U32, OperandKind::U32, c@);
            }
            let x0 = decode_u32_operand(c)?;
            let x1 = decode_u32_operand(c)?;
            Ok(TypedModBufPrototype::BytesNewFromLinearMemory(x0, x1))
        } else if op == 11 {
            proof {
                lemma_operands_1(OperandKind::Bytes, c@);
            }
            let x0 = BytesProto::decode(c)?;
            Ok(TypedModBufPrototype::BytesPop(x0))
        } else if op == 12 {
            proof {
                lemma_operands_2(OperandKind::Bytes, OperandKind::U32, c@);
            }
            let x0 = BytesProto::decode(c)?;
            let x1 = decode_u32_operand(c)?;
            Ok(TypedModBufPrototype::BytesPush(x0, x1))
        } else if op == 13 {
            proof {
                lemma_operands_3(OperandKind::Bytes, OperandKind::U32, OperandKind::U32, c@);
            }
            let x0 = BytesProto::decode(c)?;
            let x1 = decode_u32_operand(c)?;
            let x2 = decode_u32_operand(c)?;
            Ok(TypedModBufPrototype::BytesPut(x0, x1, x2))
        } else if op == 14 {
            proof {
                lemma_operands_3(OperandKind::Bytes, OperandKind::U32, OperandKind::U32, c@);
            }
            let x0 = BytesProto::decode(c)?;
            let x1 = decode_u32_operand(c)?;
            let x2 = decode_u32_operand(c)?;
            Ok(TypedModBufPrototype::BytesSlice(x0, x1, x2))
        } else if op == 15 {
            proof {
                lemma_operands_1(OperandKind::Bytes, c@);
            }
            let x0 = BytesProto::decode(c)?;
            Ok(TypedModBufPrototype::DeserializeFromBytes(x0))
        } else if op == 16 {
            proof {
                lemma_operands_1(OperandKind::Val, c@);
            }
            let x0 = decode_val_operand(c)?;
            Ok(TypedModBufPrototype::SerializeToBytes(x0))
        } else if op == 17 {
            proof {
                lemma_operands_4(
                    OperandKind::String,
                    OperandKind::U32,
                    OperandKind::U32,
                    OperandKind::U32,
                    c@,
                );
            }
            let x0 = StringProto::decode(c)?;
            let x1 = decode_u32_operand(c)?;
            let x2 = decode_u32_operand(c)?;
            let x3 = decode_u32_operand(c)?;
            Ok(TypedModBufPrototype::StringCopyToLinearMemory(x0, x1, x2, x3))
        } else if op == 18 {
            proof {
                lemma_operands_1(OperandKind::String, c@);
            }
            let x0 = StringProto::decode(c)?;
            Ok(TypedModBufPrototype::StringLen(x0))
        } else if op == 19 {
            proof {
                lemma_operands_2(OperandKind::U32, OperandKind::U32, c@);
            }
            let x0 = decode_u32_operand(c)?;
            let x1 = decode_u32_operand(c)?;
            Ok(TypedModBufPrototype::StringNewFromLinearMemory(x0, x1))
        } else if op == 20 {
            proof {
                lemma_operands_4(
                    OperandKind::Symbol,
                    OperandKind::U32,
                    OperandKind::U32,
                    OperandKind::U32,
                    c@,
                );
            }
            let x0 = SymbolProto::decode(c)?;
            let x1 = decode_u32_operand(c)?;
            let x2 = decode_u32_operand(c)?;
            let x3 = decode_u32_operand(c)?;
            Ok(TypedModBufPrototype::SymbolCopyToLinearMemory(x0, x1, x2, x3))
        } else if op == 21 {
            proof {
                lemma_operands_3(OperandKind::Symbol, OperandKind::U32, OperandKind::U32, c@);
            }
            let x0 = SymbolProto::decode(c)?;
            let x1 = decode_u32_operand(c)?;
            let x2 = decode_u32_operand(c)?;
            Ok(TypedModBufPrototype::SymbolIndexInLinearMemory(x0, x1, x2))
        } else if op == 22 {
            proof {
                lemma_operands_1(OperandKind::Symbol, c@);
            }
            let x0 = SymbolProto::decode(c)?;
            Ok(TypedModBufPrototype::SymbolLen(x0))
        } else {
            proof {
                lemma_operands_2(OperandKind::U32, OperandKind::U32, c@);
            }
            let x0 = decode_u32_operand(c)?;
            let x1 = decode_u32_operand(c)?;
            Ok(TypedModBufPrototype::SymbolNewFromLinearMemory(x0, x1))
        }
    }
}

impl TypedModCallPrototype {
    /// Decodes an operation of the call category and its operands.
    pub fn decode(c: &mut ByteCursor) -> (r: Result<TypedModCallPrototype, InsufficientInput>)
        requires
            old(c).wf(),
        ensures
            final(c).wf(),
            r is Ok <==> spec_operation(CAT_CALL as int, old(c)@) is Some,
            r matches Ok(v) ==> spec_operation(CAT_CALL as int, old(c)@) == Some(
                ((v.operation(), v.operands()), final(c)@),
            ),
    {
        let op = c.take_choice(2)?;
        if op == 0 {
            proof {
                lemma_operands_3(
                    OperandKind::Address,
                    OperandKind::Symbol,
                    OperandKind::ValVec,
                    c@,
                );
            }
            let x0 = AddressProto::decode(c)?;
            let x1 = SymbolProto::decode(c)?;
            let x2 = decode_val_vec_operand(c)?;
            Ok(TypedModCallPrototype::Call(x0, x1, x2))
        } else {
            proof {
                lemma_operands_3(
                    OperandKind::Address,
                    OperandKind::Symbol,
                    OperandKind::ValVec,
                    c@,
                );
            }
            let x0 = AddressProto::decode(c)?;
            let x1 = SymbolProto::decode(c)?;
            let x2 = decode_val_vec_operand(c)?;
            Ok(TypedModCallPrototype::TryCall(x0, x1, x2))
        }
    }
}

impl TypedModContextPrototype {
    /// Decodes an operation of the context category and its operands.
    pub fn decode(c: &mut ByteCursor) -> (r: Result<TypedModContextPrototype, InsufficientInput>)
        requires
            old(c).wf(),
        ensures
            final(c).wf(),
            r is Ok <==> spec_operation(CAT_CONTEXT as int, old(c)@) is Some,
            r matches Ok(v) ==> spec_operation(CAT_CONTEXT as int, old(c)@) == Some(
                ((v.operation(), v.operands()), final(c)@),
            ),
    {
        let op = c.take_choice(11)?;
        if op == 0 {
            proof {
                lemma_operands_2(OperandKind::ValVec, OperandKind::Val, c@);
            }
            let x0 = decode_val_vec_operand(c)?;
            let x1 = decode_val_operand(c)?;
            Ok(TypedModContextPrototype::ContractEvent(x0, x1))
        } else if op == 1 {
            proof {
                lemma_operands_1(OperandKind::Val, c@);
            }
            let x0 = decode_val_operand(c)?;
            Ok(TypedModContextPrototype::FailWithError(x0))
        } else if op == 2 {
            Ok(TypedModContextPrototype::GetCurrentCallStack)
        } else if op == 3 {
            Ok(TypedModContextPrototype::GetCurrentContractAddress)
        } else if op == 4 {
            Ok(TypedModContextPrototype::GetInvokingContract)
        } else if op == 5 {
            Ok(TypedModContextPrototype::GetLedgerNetworkId)
        } else if op == 6 {
            Ok(TypedModContextPrototype::GetLedgerSequence)
        } else if op == 7 {
            Ok(TypedModContextPrototype::GetLedgerTimestamp)
        } else if op == 8 {
            Ok(TypedModContextPrototype::GetLedgerVersion)
        } else if op == 9 {
            proof {
                lemma_operands_4(
                    OperandKind::U32,
                    OperandKind::U32,
                    OperandKind::U32,
                    OperandKind::U32,
                    c@,
                );
            }
            let x0 = decode_u32_operand(c)?;
            let x1 = decode_u32_operand(c)?;
            let x2 = decode_u32_operand(c)?;
            let x3 = decode_u32_operand(c)?;
            Ok(TypedModContextPrototype::LogFromLinearMemory(x0, x1, x2, x3))
        } else {
            proof {
                lemma_operands_2(OperandKind::Val, OperandKind::Val, c@);
            }
            let x0 = decode_val_operand(c)?;
            let x1 = decode_val_operand(c)?;
            Ok(TypedModContextPrototype::ObjCmp(x0, x1))
        }
    }
}

impl TypedModCryptoPrototype {
    /// Decodes an operation of the crypto category and its operands.
    pub fn decode(c: &mut ByteCursor) -> (r: Result<TypedModCryptoPrototype, InsufficientInput>)
        requires
            old(c).wf(),
        ensures
            final(c).wf(),
            r is Ok <==> spec_operation(CAT_CRYPTO as int, old(c)@) is Some,
            r matches Ok(v) ==> spec_operation(CAT_CRYPTO as int, old(c)@) == Some(
                ((v.operation(), v.operands()), final(c)@),
            ),
    {
        let op = c.take_choice(4)?;
        if op == 0 {
            proof {
                lemma_operands_1(OperandKind::Bytes, c@);
            }
            let x0 = BytesProto::decode(c)?;
            Ok(TypedModCryptoPrototype::ComputeHashKeccak256(x0))
        } else if op == 1 {
            proof {
                lemma_operands_1(OperandKind::Bytes, c@);
            }
            let x0 = BytesProto::decode(c)?;
            Ok(TypedModCryptoPrototype::ComputeHashSha256(x0))
        } else if op == 2 {
            proof {
                lemma_operands_3(OperandKind::Bytes, OperandKind::Bytes, OperandKind::U32, c@);
            }
            let x0 = BytesProto::decode(c)?;
            let x1 = BytesProto::decode(c)?;
            let x2 = decode_u32_operand(c)?;
            Ok(TypedModCryptoPrototype::RecoverKeyEcdsaSecp256k1(x0, x1, x2))
        } else {
            proof {
                lemma_operands_3(OperandKind::Bytes, OperandKind::Bytes, OperandKind::Bytes, c@);
            }
            let x0 = BytesProto::decode(c)?;
            let x1 = BytesProto::decode(c)?;
            let x2 = BytesProto::decode(c)?;
            Ok(TypedModCryptoPrototype::VerifySigEd25519(x0, x1, x2))
        }
    }
}

impl TypedModIntPrototype {
    /// Decodes an operation of the int category and its operands.
    pub fn decode(c: &mut ByteCursor) -> (r: Result<TypedModIntPrototype, InsufficientInput>)
        requires
            old(c).wf(),
        ensures
            final(c).wf(),
            r is Ok <==> spec_operation(CAT_INT as int, old(c)@) is Some,
            r matches Ok(v) ==> spec_operation(CAT_INT as int, old(c)@) == Some(
                ((v.operation(), v.operands()), final(c)@),
            ),
    {
        let op = c.take_choice(42)?;
        if op == 0 {
            proof {
                lemma_operands_1(OperandKind::U64, c@);
            }
            let x0 = decode_u64_operand(c)?;
            Ok(TypedModIntPrototype::DurationObjFromU64(x0))
        } else if op == 1 {
            proof {
                lemma_operands_1(OperandKind::Val, c@);
            }
            let x0 = decode_val_operand(c)?;
            Ok(TypedModIntPrototype::DurationObjToU64(x0))
        } else if op == 2 {
            proof {
                lemma_operands_2(OperandKind::Val, OperandKind::Val, c@);
            }
            let x0 = decode_val_operand(c)?;
            let x1 = decode_val_operand(c)?;
            Ok(TypedModIntPrototype::I256Add(x0, x1))
        } else if op == 3 {
            proof {
                lemma_operands_2(OperandKind::Val, OperandKind::Val, c@);
            }
            let x0 = decode_val_operand(c)?;
            let x1 = decode_val_operand(c)?;
            Ok(TypedModIntPrototype::I256Div(x0, x1))
        } else if op == 4 {
            proof {
                lemma_operands_2(OperandKind::Val, OperandKind::Val, c@);
            }
            let x0 = decode_val_operand(c)?;
            let x1 = decode_val_operand(c)?;
            Ok(TypedModIntPrototype::I256Mul(x0, x1))
        } else if op == 5 {
            proof {
                lemma_operands_1(OperandKind::Bytes, c@);
            }
            let x0 = BytesProto::decode(c)?;
            Ok(TypedModIntPrototype::I256ObjFromBeBytes(x0))
        } else if op == 6 {
            proof {
                lemma_operands_1(OperandKind::Val, c@);
            }
            let x0 = decode_val_operand(c)?;
            Ok(TypedModIntPrototype::I256ObjToBeBytes(x0))
        } else if op == 7 {
            proof {
                lemma_operands_2(OperandKind::Val, OperandKind::U32, c@);
            }
            let x0 = decode_val_operand(c)?;
            let x1 = decode_u32_operand(c)?;
            Ok(TypedModIntPrototype::I256Pow(x0, x1))
        } else if op == 8 {
            proof {
                lemma_operands_2(OperandKind::Val, OperandKind::U32, c@);
            }
            let x0 = decode_val_operand(c)?;
            let x1 = decode_u32_operand(c)?;
            Ok(TypedModIntPrototype::I256Shl(x0, x1))
        } else if op == 9 {
            proof {
                lemma_operands_2(OperandKind::Val, OperandKind::U32, c@);
            }
            let x0 = decode_val_operand(c)?;
            let x1 = decode_u32_operand(c)?;
            Ok(TypedModIntPrototype::I256Shr(x0, x1))
        } else if op == 10 {
            proof {
                lemma_operands_2(OperandKind::Val, OperandKind::Val, c@);
            }
            let x0 = decode_val_operand(c)?;
            let x1 = decode_val_operand(c)?;
            Ok(TypedModIntPrototype::I256Sub(x0, x1))
        } else if op == 11 {
            proof {
                lemma_operands_1(OperandKind::I64, c@);
            }
            let x0 = decode_i64_operand(c)?;
            Ok(TypedModIntPrototype::ObjFromI64(x0))
        } else if op == 12 {
            proof {
                lemma_operands_2(OperandKind::I64, OperandKind::U64, c@);
            }
            let x0 = decode_i64_operand(c)?;
            let x1 = decode_u64_operand(c)?;
            Ok(TypedModIntPrototype::ObjFromI128Pieces(x0, x1))
        } else if op == 13 {
            proof {
                lemma_operands_4(
                    OperandKind::I64,
                    OperandKind::U64,
                    OperandKind::U64,
                    OperandKind::U64,
                    c@,
                );
            }
            let x0 = decode_i64_operand(c)?;
            let x1 = decode_u64_operand(c)?;
            let x2 = decode_u64_operand(c)?;
            let x3 = decode_u64_operand(c)?;
            Ok(TypedModIntPrototype::ObjFromI256Pieces(x0, x1, x2, x3))
        } else if op == 14 {
            proof {
                lemma_operands_1(OperandKind::U64, c@);
            }
            let x0 = decode_u64_operand(c)?;
            Ok(TypedModIntPrototype::ObjFromU64(x0))
        } else if op == 15 {
            proof {
                lemma_operands_2(OperandKind::U64, OperandKind::U64, c@);
            }
            let x0 = decode_u64_operand(c)?;
            let x1 = decode_u64_operand(c)?;
            Ok(TypedModIntPrototype::ObjFromU128Pieces(x0, x1))
        } else if op == 16 {
            proof {
                lemma_operands_4(
                    OperandKind::U64,
                    OperandKind::U64,
                    OperandKind::U64,
                    OperandKind::U64,
                    c@,
                );
            }
            let x0 = decode_u64_operand(c)?;
            let x1 = decode_u64_operand(c)?;
            let x2 = decode_u64_operand(c)?;
            let x3 = decode_u64_operand(c)?;
            Ok(TypedModIntPrototype::ObjFromU256Pieces(x0, x1, x2, x3))
        } else if op == 17 {
            proof {
                lemma_operands_1(OperandKind::I64, c@);
            }
            let x0 = decode_i64_operand(c)?;
            Ok(TypedModIntPrototype::ObjToI64(x0))
        } else if op == 18 {
            proof {
                lemma_operands_1(OperandKind::I128, c@);
            }
            let x0 = decode_i128_operand(c)?;
            Ok(TypedModIntPrototype::ObjToI128Hi64(x0))
        } else if op == 19 {
            proof {
                lemma_operands_1(OperandKind::I128, c@);
            }
            let x0 = decode_i128_operand(c)?;
            Ok(TypedModIntPrototype::ObjToI128Lo64(x0))
        } else if op == 20 {
            proof {
                lemma_operands_1(OperandKind::Val, c@);
            }
            let x0 = decode_val_operand(c)?;
            Ok(TypedModIntPrototype::ObjToI256HiHi(x0))
        } else if op == 21 {
            proof {
                lemma_operands_1(OperandKind::Val, c@);
            }
            let x0 = decode_val_operand(c)?;
            Ok(TypedModIntPrototype::ObjToI256HiLo(x0))
        } else if op == 22 {
            proof {
                lemma_operands_1(OperandKind::Val, c@);
            }
            let x0 = decode_val_operand(c)?;
            Ok(TypedModIntPrototype::ObjToI256LoHi(x0))
        } else if op == 23 {
            proof {
                lemma_operands_1(OperandKind::Val, c@);
            }
            let x0 = decode_val_operand(c)?;
            Ok(TypedModIntPrototype::ObjToI256LoLo(x0))
        } else if op == 24 {
            proof {
                lemma_operands_1(OperandKind::U64, c@);
            }
            let x0 = decode_u64_operand(c)?;
            Ok(TypedModIntPrototype::ObjToU64(x0))
        } else if op == 25 {
            proof {
                lemma_operands_1(OperandKind::U128, c@);
            }
            let x0 = decode_u128_operand(c)?;
            Ok(TypedModIntPrototype::ObjToU128Hi64(x0))
        } else if op == 26 {
            proof {
                lemma_operands_1(OperandKind::U128, c@);
            }
            let x0 = decode_u128_operand(c)?;
            Ok(TypedModIntPrototype::ObjToU128Lo64(x0))
        } else if op == 27 {
            proof {
                lemma_operands_1(OperandKind::Val, c@);
            }
            let x0 = decode_val_operand(c)?;
            Ok(TypedModIntPrototype::ObjToU256HiHi(x0))
        } else if op == 28 {
            proof {
                lemma_operands_1(OperandKind::Val, c@);
            }
            let x0 = decode_val_operand(c)?;
            Ok(TypedModIntPrototype::ObjToU256HiLo(x0))
        } else if op == 29 {
            proof {
                lemma_operands_1(OperandKind::Val, c@);
            }
            let x0 = decode_val_operand(c)?;
            Ok(TypedModIntPrototype::ObjToU256LoHi(x0))
        } else if op == 30 {
            proof {
                lemma_operands_1(OperandKind::Val, c@);
            }
            let x0 = decode_val_operand(c)?;
            Ok(TypedModIntPrototype::ObjToU256LoLo(x0))
        } else if op == 31 {
            proof {
                lemma_operands_1(OperandKind::U64, c@);
            }
            let x0 = decode_u64_operand(c)?;
            Ok(TypedModIntPrototype::TimepointObjFromU64(x0))
        } else if op == 32 {
            proof {
                lemma_operands_1(OperandKind::Val, c@);
            }
            let x0 = decode_val_operand(c)?;
            Ok(TypedModIntPrototype::TimepointObjToU64(x0))
        } else if op == 33 {
            proof {
                lemma_operands_2(OperandKind::Val, OperandKind::Val, c@);
            }
            let x0 = decode_val_operand(c)?;
            let x1 = decode_val_operand(c)?;
            Ok(TypedModIntPrototype::U256Add(x0, x1))
        } else if op == 34 {
            proof {
                lemma_operands_2(OperandKind::Val, OperandKind::Val, c@);
            }
            let x0 = decode_val_operand(c)?;
            let x1 = decode_val_operand(c)?;
            Ok(TypedModIntPrototype::U256Div(x0, x1))
        } else if op == 35 {
            proof {
                lemma_operands_2(OperandKind::Val, OperandKind::Val, c@);
            }
            let x0 = decode_val_operand(c)?;
            let x1 = decode_val_operand(c)?;
            Ok(TypedModIntPrototype::U256Mul(x0, x1))
        } else if op == 36 {
            proof {
                lemma_operands_1(OperandKind::Bytes, c@);
            }
            let x0 = BytesProto::decode(c)?;
            Ok(TypedModIntPrototype::U256ValFromBeBytes(x0))
        } else if op == 37 {
            proof {
                lemma_operands_1(OperandKind::Val, c@);
            }
            let x0 = decode_val_operand(c)?;
            Ok(TypedModIntPrototype::U256ValToBeBytes(x0))
        } else if op == 38 {
            proof {
                lemma_operands_2(OperandKind::Val, OperandKind::U32, c@);
            }
            let x0 = decode_val_operand(c)?;
            let x1 = decode_u32_operand(c)?;
            Ok(TypedModIntPrototype::U256Pow(x0, x1))
        } else if op == 39 {
            proof {
                lemma_operands_2(OperandKind::Val, OperandKind::U32, c@);
            }
            let x0 = decode_val_operand(c)?;
            let x1 = decode_u32_operand(c)?;
            Ok(TypedModIntPrototype::U256Shl(x0, x1))
        } else if op == 40 {
            proof {
                lemma_operands_2(OperandKind::Val, OperandKind::U32, c@);
            }
            let x0 = decode_val_operand(c)?;
            let x1 = decode_u32_operand(c)?;
            Ok(TypedModIntPrototype::U256Shr(x0, x1))
        } else {
            proof {
                lemma_operands_2(OperandKind::Val, OperandKind::Val, c@);
            }
            let x0 = decode_val_operand(c)?;
            let x1 = decode_val_operand(c)?;
            Ok(TypedModIntPrototype::U256Sub(x0, x1))
        }
    }
}

impl TypedModLedgerPrototype {
    /// Decodes an operation of the ledger category and its operands.
    pub fn decode(c: &mut ByteCursor) -> (r: Result<TypedModLedgerPrototype, InsufficientInput>)
        requires
            old(c).wf(),
        ensures
            final(c).wf(),
            r is Ok <==> spec_operation(CAT_LEDGER as int, old(c)@) is Some,
            r matches Ok(v) ==> spec_operation(CAT_LEDGER as int, old(c)@) == Some(
                ((v.operation(), v.operands()), final(c)@),
            ),
    {
        let op = c.take_choice(11)?;
        if op == 0 {
            proof {
                lemma_operands_2(OperandKind::Val, OperandKind::U32, c@);
            }
            let x0 = decode_val_operand(c)?;
            let x1 = decode_u32_operand(c)?;
            Ok(TypedModLedgerPrototype::BumpContractData(x0, x1))
        } else if op == 1 {
            proof {
                lemma_operands_1(OperandKind::Bytes, c@);
            }
            let x0 = BytesProto::decode(c)?;
            Ok(TypedModLedgerPrototype::CreateAssetContract(x0))
        } else if op == 2 {
            proof {
                lemma_operands_3(OperandKind::Address, OperandKind::Bytes, OperandKind::Bytes, c@);
            }
            let x0 = AddressProto::decode(c)?;
            let x1 = BytesProto::decode(c)?;
            let x2 = BytesProto::decode(c)?;
            Ok(TypedModLedgerPrototype::CreateContract(x0, x1, x2))
        } else if op == 3 {
            proof {
                lemma_operands_1(OperandKind::Val, c@);
            }
            let x0 = decode_val_operand(c)?;
            Ok(TypedModLedgerPrototype::DelContractData(x0))
        } else if op == 4 {
            proof {
                lemma_operands_1(OperandKind::Bytes, c@);
            }
            let x0 = BytesProto::decode(c)?;
            Ok(TypedModLedgerPrototype::GetAssetContractId(x0))
        } else if op == 5 {
            proof {
                lemma_operands_1(OperandKind::Val, c@);
            }
            let x0 = decode_val_operand(c)?;
            Ok(TypedModLedgerPrototype::GetContractData(x0))
        } else if op == 6 {
            proof {
                lemma_operands_2(OperandKind::Address, OperandKind::Bytes, c@);
            }
            let x0 = AddressProto::decode(c)?;
            let x1 = BytesProto::decode(c)?;
            Ok(TypedModLedgerPrototype::GetContractId(x0, x1))
        } else if op == 7 {
            proof {
                lemma_operands_1(OperandKind::Val, c@);
            }
            let x0 = decode_val_operand(c)?;
            Ok(TypedModLedgerPrototype::HasContractData(x0))
        } else if op == 8 {
            proof {
                lemma_operands_3(OperandKind::Val, OperandKind::Val, OperandKind::Val, c@);
            }
            let x0 = decode_val_operand(c)?;
            let x1 = decode_val_operand(c)?;
            let x2 = decode_val_operand(c)?;
            Ok(TypedModLedgerPrototype::PutContractData(x0, x1, x2))
        } else if op == 9 {
            proof {
                lemma_operands_1(OperandKind::Bytes, c@);
            }
            let x0 = BytesProto::decode(c)?;
            Ok(TypedModLedgerPrototype::UpdateCurrentContractWasm(x0))
        } else {
            proof {
                lemma_operands_1(OperandKind::Bytes, c@);
            }
            let x0 = BytesProto::decode(c)?;
            Ok(TypedModLedgerPrototype::UploadWasm(x0))
        }
    }
}

impl TypedModMapPrototype {
    /// Decodes an operation of the map category and its operands.
    pub fn decode(c: &mut ByteCursor) -> (r: Result<TypedModMapPrototype, InsufficientInput>)
        requires
            old(c).wf(),
        ensures
            final(c).wf(),
            r is Ok <==> spec_operation(CAT_MAP as int, old(c)@) is Some,
            r matches Ok(v) ==> spec_operation(CAT_MAP as int, old(c)@) == Some(
                ((v.operation(), v.operands()), final(c)@),
            ),
    {
        let op = c.take_choice(14)?;
        if op == 0 {
            proof {
                lemma_operands_2(OperandKind::ValMap, OperandKind::Val, c@);
            }
            let x0 = decode_val_map_operand(c)?;
            let x1 = decode_val_operand(c)?;
            Ok(TypedModMapPrototype::MapDel(x0, x1))
        } else if op == 1 {
            proof {
                lemma_operands_2(OperandKind::ValMap, OperandKind::Val, c@);
            }
            let x0 = decode_val_map_operand(c)?;
            let x1 = decode_val_operand(c)?;
            Ok(TypedModMapPrototype::MapGet(x0, x1))
        } else if op == 2 {
            proof {
                lemma_operands_2(OperandKind::ValMap, OperandKind::Val, c@);
            }
            let x0 = decode_val_map_operand(c)?;
            let x1 = decode_val_operand(c)?;
            Ok(TypedModMapPrototype::MapHas(x0, x1))
        } else if op == 3 {
            proof {
                lemma_operands_1(OperandKind::ValMap, c@);
            }
            let x0 = decode_val_map_operand(c)?;
            Ok(TypedModMapPrototype::MapKeys(x0))
        } else if op == 4 {
            proof {
                lemma_operands_1(OperandKind::ValMap, c@);
            }
            let x0 = decode_val_map_operand(c)?;
            Ok(TypedModMapPrototype::MapLen(x0))
        } else if op == 5 {
            proof {
                lemma_operands_1(OperandKind::ValMap, c@);
            }
            let x0 = decode_val_map_operand(c)?;
            Ok(TypedModMapPrototype::MapMaxKey(x0))
        } else if op == 6 {
            proof {
                lemma_operands_1(OperandKind::ValMap, c@);
            }
            let x0 = decode_val_map_operand(c)?;
            Ok(TypedModMapPrototype::MapMinKey(x0))
        } else if op == 7 {
            Ok(TypedModMapPrototype::MapNew)
        } else if op == 8 {
            proof {
                lemma_operands_3(OperandKind::U32, OperandKind::U32, OperandKind::U32, c@);
            }
            let x0 = decode_u32_operand(c)?;
            let x1 = decode_u32_operand(c)?;
            let x2 = decode_u32_operand(c)?;
            Ok(TypedModMapPrototype::MapNewFromLinearMemory(x0, x1, x2))
        } else if op == 9 {
            proof {
                lemma_operands_2(OperandKind::ValMap, OperandKind::Val, c@);
            }
            let x0 = decode_val_map_operand(c)?;
            let x1 = decode_val_operand(c)?;
            Ok(TypedModMapPrototype::MapNextKey(x0, x1))
        } else if op == 10 {
            proof {
                lemma_operands_2(OperandKind::ValMap, OperandKind::Val, c@);
            }
            let x0 = decode_val_map_operand(c)?;
            let x1 = decode_val_operand(c)?;
            Ok(TypedModMapPrototype::MapPrevKey(x0, x1))
        } else if op == 11 {
            proof {
                lemma_operands_3(OperandKind::ValMap, OperandKind::Val, OperandKind::Val, c@);
            }
            let x0 = decode_val_map_operand(c)?;
            let x1 = decode_val_operand(c)?;
            let x2 = decode_val_operand(c)?;
            Ok(TypedModMapPrototype::MapPut(x0, x1, x2))
        } else if op == 12 {
            proof {
                lemma_operands_4(
                    OperandKind::ValMap,
                    OperandKind::U32,
                    OperandKind::U32,
                    OperandKind::U32,
                    c@,
                );
            }
            let x0 = decode_val_map_operand(c)?;
            let x1 = decode_u32_operand(c)?;
            let x2 = decode_u32_operand(c)?;
            let x3 = decode_u32_operand(c)?;
            Ok(TypedModMapPrototype::MapUnpackToLinearMemory(x0, x1, x2, x3))
        } else {
            proof {
                lemma_operands_1(OperandKind::ValMap, c@);
            }
            let x0 = decode_val_map_operand(c)?;
            Ok(TypedModMapPrototype::MapValues(x0))
        }
    }
}

impl TypedModPrngPrototype {
    /// Decodes an operation of the prng category and its operands.
    pub fn decode(c: &mut ByteCursor) -> (r: Result<TypedModPrngPrototype, InsufficientInput>)
        requires
            old(c).wf(),
        ensures
            final(c).wf(),
            r is Ok <==> spec_operation(CAT_PRNG as int, old(c)@) is Some,
            r matches Ok(v) ==> spec_operation(CAT_PRNG as int, old(c)@) == Some(
                ((v.operation(), v.operands()), final(c)@),
            ),
    {
        let op = c.take_choice(4)?;
        if op == 0 {
            proof {
                lemma_operands_1(OperandKind::U32, c@);
            }
            let x0 = decode_u32_operand(c)?;
            Ok(TypedModPrngPrototype::PrngBytesNew(x0))
        } else if op == 1 {
            proof {
                lemma_operands_1(OperandKind::Bytes, c@);
            }
            let x0 = BytesProto::decode(c)?;
            Ok(TypedModPrngPrototype::PrngReseed(x0))
        } else if op == 2 {
            proof {
                lemma_operands_2(OperandKind::U64, OperandKind::U64, c@);
            }
            let x0 = decode_u64_operand(c)?;
            let x1 = decode_u64_operand(c)?;
            Ok(TypedModPrngPrototype::PrngU64InInclusiveRange(x0, x1))
        } else {
            proof {
                lemma_operands_1(OperandKind::ValVec, c@);
            }
            let x0 = decode_val_vec_operand(c)?;
            Ok(TypedModPrngPrototype::PrngVecShuffle(x0))
        }
    }
}

impl TypedModVecPrototype {
    /// Decodes an operation of the vec category and its operands.
    pub fn decode(c: &mut ByteCursor) -> (r: Result<TypedModVecPrototype, InsufficientInput>)
        requires
            old(c).wf(),
        ensures
            final(c).wf(),
            r is Ok <==> spec_operation(CAT_VEC as int, old(c)@) is Some,
            r matches Ok(v) ==> spec_operation(CAT_VEC as int, old(c)@) == Some(
                ((v.operation(), v.operands()), final(c)@),
            ),
    {
        let op = c.take_choice(19)?;
        if op == 0 {
            proof {
                lemma_operands_2(OperandKind::ValVec, OperandKind::ValVec, c@);
            }
            let x0 = decode_val_vec_operand(c)?;
            let x1 = decode_val_vec_operand(c)?;
            Ok(TypedModVecPrototype::VecAppend(x0, x1))
        } else if op == 1 {
            proof {
                lemma_operands_1(OperandKind::ValVec, c@);
            }
            let x0 = decode_val_vec_operand(c)?;
            Ok(TypedModVecPrototype::VecBack(x0))
        } else if op == 2 {
            proof {
                lemma_operands_2(OperandKind::ValVec, OperandKind::Val, c@);
            }
            let x0 = decode_val_vec_operand(c)?;
            let x1 = decode_val_operand(c)?;
            Ok(TypedModVecPrototype::VecBinarySearch(x0, x1))
        } else if op == 3 {
            proof {
                lemma_operands_2(OperandKind::ValVec, OperandKind::U32, c@);
            }
            let x0 = decode_val_vec_operand(c)?;
            let x1 = decode_u32_operand(c)?;
            Ok(TypedModVecPrototype::VecDel(x0, x1))
        } else if op == 4 {
            proof {
                lemma_operands_2(OperandKind::ValVec, OperandKind::Val, c@);
            }
            let x0 = decode_val_vec_operand(c)?;
            let x1 = decode_val_operand(c)?;
            Ok(TypedModVecPrototype::VecFirstIndexOf(x0, x1))
        } else if op == 5 {
            proof {
                lemma_operands_1(OperandKind::ValVec, c@);
            }
            let x0 = decode_val_vec_operand(c)?;
            Ok(TypedModVecPrototype::VecFront(x0))
        } else if op == 6 {
            proof {
                lemma_operands_2(OperandKind::ValVec, OperandKind::U32, c@);
            }
            let x0 = decode_val_vec_operand(c)?;
            let x1 = decode_u32_operand(c)?;
            Ok(TypedModVecPrototype::VecGet(x0, x1))
        } else if op == 7 {
            proof {
                lemma_operands_3(OperandKind::ValVec, OperandKind::U32, OperandKind::Val, c@);
            }
            let x0 = decode_val_vec_operand(c)?;
            let x1 = decode_u32_operand(c)?;
            let x2 = decode_val_operand(c)?;
            Ok(TypedModVecPrototype::VecInsert(x0, x1, x2))
        } else if op == 8 {
            proof {
                lemma_operands_2(OperandKind::ValVec, OperandKind::Val, c@);
            }
            let x0 = decode_val_vec_operand(c)?;
            let x1 = decode_val_operand(c)?;
            Ok(TypedModVecPrototype::VecLastIndexOf(x0, x1))
        } else if op == 9 {
            proof {
                lemma_operands_1(OperandKind::ValVec, c@);
            }
            let x0 = decode_val_vec_operand(c)?;
            Ok(TypedModVecPrototype::VecLen(x0))
        } else if op == 10 {
            proof {
                lemma_operands_1(OperandKind::Val, c@);
            }
            let x0 = decode_val_operand(c)?;
            Ok(TypedModVecPrototype::VecNew(x0))
        } else if op == 11 {
            proof {
                lemma_operands_2(OperandKind::U32, OperandKind::U32, c@);
            }
            let x0 = decode_u32_operand(c)?;
            let x1 = decode_u32_operand(c)?;
            Ok(TypedModVecPrototype::VecNewFromLinearMemory(x0, x1))
        } else if op == 12 {
            proof {
                lemma_operands_1(OperandKind::ValVec, c@);
            }
            let x0 = decode_val_vec_operand(c)?;
            Ok(TypedModVecPrototype::VecPopBack(x0))
        } else if op == 13 {
            proof {
                lemma_operands_1(OperandKind::ValVec, c@);
            }
            let x0 = decode_val_vec_operand(c)?;
            Ok(TypedModVecPrototype::VecPopFront(x0))
        } else if op == 14 {
            proof {
                lemma_operands_2(OperandKind::ValVec, OperandKind::Val, c@);
            }
            let x0 = decode_val_vec_operand(c)?;
            let x1 = decode_val_operand(c)?;
            Ok(TypedModVecPrototype::VecPushBack(x0, x1))
        } else if op == 15 {
            proof {
                lemma_operands_2(OperandKind::ValVec, OperandKind::Val, c@);
            }
            let x0 = decode_val_vec_operand(c)?;
            let x1 = decode_val_operand(c)?;
            Ok(TypedModVecPrototype::VecPushFront(x0, x1))
        } else if op == 16 {
            proof {
                lemma_operands_3(OperandKind::ValVec, OperandKind::U32, OperandKind::Val, c@);
            }
            let x0 = decode_val_vec_operand(c)?;
            let x1 = decode_u32_operand(c)?;
            let x2 = decode_val_operand(c)?;
            Ok(TypedModVecPrototype::VecPut(x0, x1, x2))
        } else if op == 17 {
            proof {
                lemma_operands_3(OperandKind::ValVec, OperandKind::U32, OperandKind::U32, c@);
            }
            let x0 = decode_val_vec_operand(c)?;
            let x1 = decode_u32_operand(c)?;
            let x2 = decode_u32_operand(c)?;
            Ok(TypedModVecPrototype::VecSlice(x0, x1, x2))
        } else {
            proof {
                lemma_operands_3(OperandKind::ValVec, OperandKind::U32, OperandKind::U32, c@);
            }
            let x0 = decode_val_vec_operand(c)?;
            let x1 = decode_u32_operand(c)?;
            let x2 = decode_u32_operand(c)?;
            Ok(TypedModVecPrototype::VecUnpackToLinearMemory(x0, x1, x2))
        }
    }
}

impl TypedFuzzInstructionPrototype {
    /// Decodes one instruction from the cursor: a category, an operation of
    /// it, then the operation's operands.
    pub fn decode_from(c: &mut ByteCursor) -> (r: Result<
        TypedFuzzInstructionPrototype,
        InsufficientInput,
    >)
        requires
            old(c).wf(),
        ensures
            final(c).wf(),
            r is Ok <==> spec_decode(old(c)@) is Some,
            r matches Ok(v) ==> spec_decode(old(c)@) == Some((v@, final(c)@)) && operands_wf(
                v@.operands,
            ),
    {
        proof {
            if spec_decode(c@) is Some {
                lemma_decode_wf(c@);
            }
        }
        let cat = c.take_choice(CATEGORY_COUNT)?;
        if cat == CAT_ADDRESS {
            Ok(TypedFuzzInstructionPrototype::Address(TypedModAddressPrototype::decode(c)?))
        } else if cat == CAT_BUF {
            Ok(TypedFuzzInstructionPrototype::Buf(TypedModBufPrototype::decode(c)?))
        } else if cat == CAT_CALL {
            Ok(TypedFuzzInstructionPrototype::Call(TypedModCallPrototype::decode(c)?))
        } else if cat == CAT_CONTEXT {
            Ok(TypedFuzzInstructionPrototype::Context(TypedModContextPrototype::decode(c)?))
        } else if cat == CAT_CRYPTO {
            Ok(TypedFuzzInstructionPrototype::Crypto(TypedModCryptoPrototype::decode(c)?))
        } else if cat == CAT_INT {
            Ok(TypedFuzzInstructionPrototype::Int(TypedModIntPrototype::decode(c)?))
        } else if cat == CAT_LEDGER {
            Ok(TypedFuzzInstructionPrototype::Ledger(TypedModLedgerPrototype::decode(c)?))
        } else if cat == CAT_MAP {
            Ok(TypedFuzzInstructionPrototype::Maps(TypedModMapPrototype::decode(c)?))
        } else if cat == CAT_PRNG {
            Ok(TypedFuzzInstructionPrototype::Prng(TypedModPrngPrototype::decode(c)?))
        } else if cat == CAT_TEST {
            Ok(TypedFuzzInstructionPrototype::Test)
        } else {
            Ok(TypedFuzzInstructionPrototype::Vec(TypedModVecPrototype::decode(c)?))
        }
    }

    /// Decodes one instruction from the start of `data`; the bytes after it
    /// are ignored.
    pub fn decode(data: &[u8]) -> (r: Result<
        TypedFuzzInstructionPrototype,
        InsufficientInput,
    >)
        ensures
            r is Ok <==> spec_decode(data@) is Some,
            r matches Ok(v) ==> spec_decode(data@) matches Some((w, _)) && w == v@ && operands_wf(
                v@.operands,
            ),
    {
        let mut c = ByteCursor::new(data);
        TypedFuzzInstructionPrototype::decode_from(&mut c)
    }
}

/// The stable name of the instruction's operation.
pub fn get_syscall_name_only(input: &TypedFuzzInstructionPrototype) -> (r: &'static str)
    ensures
        r@ == operation_name(input@.category, input@.operation)@,
{
    match input {
        TypedFuzzInstructionPrototype::Address(v) => match v {
            TypedModAddressPrototype::AccountPublicKeyToAddress(..) => {
                "syscalls::address::account_public_key_to_address"
            },
            TypedModAddressPrototype::AddressToAccountPublicKey(..) => {
                "syscalls::address::address_to_account_public_key"
            },
            TypedModAddressPrototype::AddressToContractId(..) => {
                "syscalls::address::address_to_contract_id"
            },
            TypedModAddressPrototype::AuthorizeAsCurrContract(..) => {
                "syscalls::address::authorize_as_curr_contract"
            },
            TypedModAddressPrototype::ContractIdToAddress(..) => {
                "syscalls::address::contract_id_to_address"
            },
            TypedModAddressPrototype::RequireAuth(..) => "syscalls::address::require_auth",
            TypedModAddressPrototype::RequireAuthForArgs(..) => {
                "syscalls::address::require_auth_for_args"
            },
        },
        TypedFuzzInstructionPrototype::Buf(v) => match v {
            TypedModBufPrototype::BytesAppend(..) => "syscalls::buf::bytes_append",
            TypedModBufPrototype::BytesBack(..) => "syscalls::buf::bytes_back",
            TypedModBufPrototype::BytesCopyFromLinearMemory(..) => {
                "syscalls::buf::bytes_copy_from_linear_memory"
            },
            TypedModBufPrototype::BytesCopyToLinearMemory(..) => {
                "syscalls::buf::bytes_copy_to_linear_memory"
            },
            TypedModBufPrototype::BytesDel(..) => "syscalls::buf::bytes_del",
            TypedModBufPrototype::BytesFront(..) => "syscalls::buf::bytes_front",
            TypedModBufPrototype::BytesGet(..) => "syscalls::buf::bytes_get",
            TypedModBufPrototype::BytesInsert(..) => "syscalls::buf::bytes_insert",
            TypedModBufPrototype::BytesLen(..) => "syscalls::buf::bytes_len",
            TypedModBufPrototype::BytesNew => "syscalls::buf::bytes_new",
            TypedModBufPrototype::BytesNewFromLinearMemory(..) => {
                "syscalls::buf::bytes_new_from_linear_memory"
            },
            TypedModBufPrototype::BytesPop(..) => "syscalls::buf::bytes_pop",
            TypedModBufPrototype::BytesPush(..) => "syscalls::buf::bytes_push",
            TypedModBufPrototype::BytesPut(..) => "syscalls::buf::bytes_put",
            TypedModBufPrototype::BytesSlice(..) => "syscalls::buf::bytes_slice",
            TypedModBufPrototype::DeserializeFromBytes(..) => {
                "syscalls::buf::deserialize_from_bytes"
            },
            TypedModBufPrototype::SerializeToBytes(..) => "syscalls::buf::serialize_to_bytes",
            TypedModBufPrototype::StringCopyToLinearMemory(..) => {
                "syscalls::buf::string_copy_to_linear_memory"
            },
            TypedModBufPrototype::StringLen(..) => "syscalls::buf::string_len",
            TypedModBufPrototype::StringNewFromLinearMemory(..) => {
                "syscalls::buf::string_new_from_linear_memory"
            },
            TypedModBufPrototype::SymbolCopyToLinearMemory(..) => {
                "syscalls::buf::symbol_copy_to_linear_memory"
            },
            TypedModBufPrototype::SymbolIndexInLinearMemory(..) => {
                "syscalls::buf::symbol_index_in_linear_memory"
            },
            TypedModBufPrototype::SymbolLen(..) => "syscalls::buf::symbol_len",
            TypedModBufPrototype::SymbolNewFromLinearMemory(..) => {
                "syscalls::buf::symbol_new_from_linear_memory"
            },
        },
        TypedFuzzInstructionPrototype::Call(v) => match v {
            TypedModCallPrototype::Call(..) => "syscalls::call::call",
            TypedModCallPrototype::TryCall(..) => "syscalls::call::try_call",
        },
        TypedFuzzInstructionPrototype::Context(v) => match v {
            TypedModContextPrototype::ContractEvent(..) => "syscalls::context::contract_event",
            TypedModContextPrototype::FailWithError(..) => "syscalls::context::fail_with_error",
            TypedModContextPrototype::GetCurrentCallStack => {
                "syscalls::context::get_current_call_stack"
            },
            TypedModContextPrototype::GetCurrentContractAddress => {
                "syscalls::context::get_current_contract_address"
            },
            TypedModContextPrototype::GetInvokingContract => {
                "syscalls::context::get_invoking_contract"
            },
            TypedModContextPrototype::GetLedgerNetworkId => {
                "syscalls::context::get_ledger_network_id"
            },
            TypedModContextPrototype::GetLedgerSequence => "syscalls::context::get_ledger_sequence",
            TypedModContextPrototype::GetLedgerTimestamp => {
                "syscalls::context::get_ledger_timestamp"
            },
            TypedModContextPrototype::GetLedgerVersion => "syscalls::context::get_ledger_version",
            TypedModContextPrototype::LogFromLinearMemory(..) => {
                "syscalls::context::log_from_linear_memory"
            },
            TypedModContextPrototype::ObjCmp(..) => "syscalls::context::obj_cmp",
        },
        TypedFuzzInstructionPrototype::Crypto(v) => match v {
            TypedModCryptoPrototype::ComputeHashKeccak256(..) => {
                "syscalls::crypto::compute_hash_keccak256"
            },
            TypedModCryptoPrototype::ComputeHashSha256(..) => {
                "syscalls::crypto::compute_hash_sha256"
            },
            TypedModCryptoPrototype::RecoverKeyEcdsaSecp256k1(..) => {
                "syscalls::crypto::recover_key_ecdsa_secp256k1"
            },
            TypedModCryptoPrototype::VerifySigEd25519(..) => "syscalls::crypto::verify_sig_ed25519",
        },
        TypedFuzzInstructionPrototype::Int(v) => match v {
            TypedModIntPrototype::DurationObjFromU64(..) => "syscalls::int::duration_obj_from_u64",
            TypedModIntPrototype::DurationObjToU64(..) => "syscalls::int::duration_obj_to_u64",
            TypedModIntPrototype::I256Add(..) => "syscalls::int::i256_add",
            TypedModIntPrototype::I256Div(..) => "syscalls::int::i256_div",
            TypedModIntPrototype::I256Mul(..) => "syscalls::int::i256_mul",
            TypedModIntPrototype::I256ObjFromBeBytes(..) => "syscalls::int::i256_val_from_be_bytes",
            TypedModIntPrototype::I256ObjToBeBytes(..) => "syscalls::int::i256_val_to_be_bytes",
            TypedModIntPrototype::I256Pow(..) => "syscalls::int::i256_pow",
            TypedModIntPrototype::I256Shl(..) => "syscalls::int::i256_shl",
            TypedModIntPrototype::I256Shr(..) => "syscalls::int::i256_shr",
            TypedModIntPrototype::I256Sub(..) => "syscalls::int::i256_sub",
            TypedModIntPrototype::ObjFromI64(..) => "syscalls::int::obj_from_i64",
            TypedModIntPrototype::ObjFromI128Pieces(..) => "syscalls::int::obj_from_i128_pieces",
            TypedModIntPrototype::ObjFromI256Pieces(..) => "syscalls::int::obj_from_i256_pieces",
            TypedModIntPrototype::ObjFromU64(..) => "syscalls::int::obj_from_u64",
            TypedModIntPrototype::ObjFromU128Pieces(..) => "syscalls::int::obj_from_u128_pieces",
            TypedModIntPrototype::ObjFromU256Pieces(..) => "syscalls::int::obj_from_u256_pieces",
            TypedModIntPrototype::ObjToI64(..) => "syscalls::int::obj_to_i64",
            TypedModIntPrototype::ObjToI128Hi64(..) => "syscalls::int::obj_to_i128_hi64",
            TypedModIntPrototype::ObjToI128Lo64(..) => "syscalls::int::obj_to_i128_lo64",
            TypedModIntPrototype::ObjToI256HiHi(..) => "syscalls::int::obj_to_i256_hi_hi",
            TypedModIntPrototype::ObjToI256HiLo(..) => "syscalls::int::obj_to_i256_hi_lo",
            TypedModIntPrototype::ObjToI256LoHi(..) => "syscalls::int::obj_to_i256_lo_hi",
            TypedModIntPrototype::ObjToI256LoLo(..) => "syscalls::int::obj_to_i256_lo_lo",
            TypedModIntPrototype::ObjToU64(..) => "syscalls::int::obj_to_u64",
            TypedModIntPrototype::ObjToU128Hi64(..) => "syscalls::int::obj_to_u128_hi64",
            TypedModIntPrototype::ObjToU128Lo64(..) => "syscalls::int::obj_to_u128_lo64",
            TypedModIntPrototype::ObjToU256HiHi(..) => "syscalls::int::obj_to_u256_hi_hi",
            TypedModIntPrototype::ObjToU256HiLo(..) => "syscalls::int::obj_to_u256_hi_lo",
            TypedModIntPrototype::ObjToU256LoHi(..) => "syscalls::int::obj_to_u256_lo_hi",
            TypedModIntPrototype::ObjToU256LoLo(..) => "syscalls::int::obj_to_u256_lo_lo",
            TypedModIntPrototype::TimepointObjFromU64(..) => {
                "syscalls::int::timepoint_obj_from_u64"
            },
            TypedModIntPrototype::TimepointObjToU64(..) => "syscalls::int::timepoint_obj_to_u64",
            TypedModIntPrototype::U256Add(..) => "syscalls::int::u256_add",
            TypedModIntPrototype::U256Div(..) => "syscalls::int::u256_div",
            TypedModIntPrototype::U256Mul(..) => "syscalls::int::u256_mul",
            TypedModIntPrototype::U256ValFromBeBytes(..) => "syscalls::int::u256_val_from_be_bytes",
            TypedModIntPrototype::U256ValToBeBytes(..) => "syscalls::int::u256_val_to_be_bytes",
            TypedModIntPrototype::U256Pow(..) => "syscalls::int::u256_pow",
            TypedModIntPrototype::U256Shl(..) => "syscalls::int::u256_shl",
            TypedModIntPrototype::U256Shr(..) => "syscalls::int::u256_shr",
            TypedModIntPrototype::U256Sub(..) => "syscalls::int::u256_sub",
        },
        TypedFuzzInstructionPrototype::Ledger(v) => match v {
            TypedModLedgerPrototype::BumpContractData(..) => "syscalls::ledger::bump_contract_data",
            TypedModLedgerPrototype::CreateAssetContract(..) => {
                "syscalls::ledger::create_asset_contract"
            },
            TypedModLedgerPrototype::CreateContract(..) => "syscalls::ledger::create_contract",
            TypedModLedgerPrototype::DelContractData(..) => "syscalls::ledger::del_contract_data",
            TypedModLedgerPrototype::GetAssetContractId(..) => {
                "syscalls::ledger::get_asset_contract_id"
            },
            TypedModLedgerPrototype::GetContractData(..) => "syscalls::ledger::get_contract_data",
            TypedModLedgerPrototype::GetContractId(..) => "syscalls::ledger::get_contract_id",
            TypedModLedgerPrototype::HasContractData(..) => "syscalls::ledger::has_contract_data",
            TypedModLedgerPrototype::PutContractData(..) => "syscalls::ledger::put_contract_data",
            TypedModLedgerPrototype::UpdateCurrentContractWasm(..) => {
                "syscalls::ledger::update_current_contract_wasm"
            },
            TypedModLedgerPrototype::UploadWasm(..) => "syscalls::ledger::upload_wasm",
        },
        TypedFuzzInstructionPrototype::Maps(v) => match v {
            TypedModMapPrototype::MapDel(..) => "syscalls::map::map_del",
            TypedModMapPrototype::MapGet(..) => "syscalls::map::map_get",
            TypedModMapPrototype::MapHas(..) => "syscalls::map::map_has",
            TypedModMapPrototype::MapKeys(..) => "syscalls::map::map_keys",
            TypedModMapPrototype::MapLen(..) => "syscalls::map::map_len",
            TypedModMapPrototype::MapMaxKey(..) => "syscalls::map::map_max_key",
            TypedModMapPrototype::MapMinKey(..) => "syscalls::map::map_min_key",
            TypedModMapPrototype::MapNew => "syscalls::map::map_new",
            TypedModMapPrototype::MapNewFromLinearMemory(..) => {
                "syscalls::map::map_new_from_linear_memory"
            },
            TypedModMapPrototype::MapNextKey(..) => "syscalls::map::map_next_key",
            TypedModMapPrototype::MapPrevKey(..) => "syscalls::map::map_prev_key",
            TypedModMapPrototype::MapPut(..) => "syscalls::map::map_put",
            TypedModMapPrototype::MapUnpackToLinearMemory(..) => {
                "syscalls::map::map_unpack_to_linear_memory"
            },
            TypedModMapPrototype::MapValues(..) => "syscalls::map::map_values",
        },
        TypedFuzzInstructionPrototype::Prng(v) => match v {
            TypedModPrngPrototype::PrngBytesNew(..) => "syscalls::prng::prng_bytes_new",
            TypedModPrngPrototype::PrngReseed(..) => "syscalls::prng::prng_reseed",
            TypedModPrngPrototype::PrngU64InInclusiveRange(..) => {
                "syscalls::prng::prng_u64_in_inclusive_range"
            },
            TypedModPrngPrototype::PrngVecShuffle(..) => "syscalls::prng::prng_vec_shuffle",
        },
        TypedFuzzInstructionPrototype::Test => "syscalls::test::dummy0",
        TypedFuzzInstructionPrototype::Vec(v) => match v {
            TypedModVecPrototype::VecAppend(..) => "syscalls::vec::vec_append",
            TypedModVecPrototype::VecBack(..) => "syscalls::vec::vec_back",
            TypedModVecPrototype::VecBinarySearch(..) => "syscalls::vec::vec_binary_search",
            TypedModVecPrototype::VecDel(..) => "syscalls::vec::vec_del",
            TypedModVecPrototype::VecFirstIndexOf(..) => "syscalls::vec::vec_first_index_of",
            TypedModVecPrototype::VecFront(..) => "syscalls::vec::vec_front",
            TypedModVecPrototype::VecGet(..) => "syscalls::vec::vec_get",
            TypedModVecPrototype::VecInsert(..) => "syscalls::vec::vec_insert",
            TypedModVecPrototype::VecLastIndexOf(..) => "syscalls::vec::vec_last_index_of",
            TypedModVecPrototype::VecLen(..) => "syscalls::vec::vec_len",
            TypedModVecPrototype::VecNew(..) => "syscalls::vec::vec_new",
            TypedModVecPrototype::VecNewFromLinearMemory(..) => {
                "syscalls::vec::vec_new_from_linear_memory"
            },
            TypedModVecPrototype::VecPopBack(..) => "syscalls::vec::vec_pop_back",
            TypedModVecPrototype::VecPopFront(..) => "syscalls::vec::vec_pop_front",
            TypedModVecPrototype::VecPushBack(..) => "syscalls::vec::vec_push_back",
            TypedModVecPrototype::VecPushFront(..) => "syscalls::vec::vec_push_front",
            TypedModVecPrototype::VecPut(..) => "syscalls::vec::vec_put",
            TypedModVecPrototype::VecSlice(..) => "syscalls::vec::vec_slice",
            TypedModVecPrototype::VecUnpackToLinearMemory(..) => {
                "syscalls::vec::vec_unpack_to_linear_memory"
            },
        },
    }
}

/// Most bytes that the operands of any one operation take together.
pub const MAX_OPERANDS_LEN: u32 = 3011;

/// Most bytes that one instruction takes: the category choice, the operation
/// choice and the operands.
pub const MAX_INSTRUCTION_LEN: usize = 3019;

proof fn lemma_max_len_1(k0: OperandKind)
    ensures
        operands_max_len(seq![k0]) == operand_max_len(k0),
{
    reveal_with_fuel(operands_max_len, 2);
    assert(seq![k0].drop_last() =~= Seq::<OperandKind>::empty());
}

proof fn lemma_max_len_2(k0: OperandKind, k1: OperandKind)
    ensures
        operands_max_len(seq![k0, k1]) == operand_max_len(k0)
            + operand_max_len(k1),
{
    assert(seq![k0, k1].drop_last() =~= seq![k0]);
    lemma_max_len_1(k0);
}

proof fn lemma_max_len_3(k0: OperandKind, k1: OperandKind, k2: OperandKind)
    ensures
        operands_max_len(seq![k0, k1, k2]) == operand_max_len(k0)
            + operand_max_len(k1)
            + operand_max_len(k2),
{
    assert(seq![k0, k1, k2].drop_last() =~= seq![k0, k1]);
    lemma_max_len_2(k0, k1);
}

proof fn lemma_max_len_4(k0: OperandKind, k1: OperandKind, k2: OperandKind, k3: OperandKind)
    ensures
        operands_max_len(seq![k0, k1, k2, k3]) == operand_max_len(k0)
            + operand_max_len(k1)
            + operand_max_len(k2)
            + operand_max_len(k3),
{
    assert(seq![k0, k1, k2, k3].drop_last() =~= seq![k0, k1, k2]);
    lemma_max_len_3(k0, k1, k2);
}

/// The operands of every operation take at most `MAX_OPERANDS_LEN` bytes.
pub proof fn lemma_signature_bound(cat: int, op: int)
    requires
        0 <= cat < CATEGORY_COUNT,
        0 <= op < operation_count(cat),
    ensures
        operands_max_len(signature(cat, op)) <= MAX_OPERANDS_LEN,
{
    if cat == 0 {
        if op == 0 {
            lemma_max_len_1(OperandKind::Bytes);
        } else if op == 1 {
            lemma_max_len_1(OperandKind::Address);
        } else if op == 2 {
            lemma_max_len_1(OperandKind::Address);
        } else if op == 3 {
            lemma_max_len_1(OperandKind::ValVec);
        } else if op == 4 {
            lemma_max_len_1(OperandKind::Bytes);
        } else if op == 5 {
            lemma_max_len_1(OperandKind::Address);
        } else if op == 6 {
            lemma_max_len_2(OperandKind::Address, OperandKind::ValVec);
        }
    } else if cat == 1 {
        if op == 0 {
            lemma_max_len_2(OperandKind::Bytes, OperandKind::Bytes);
        } else if op == 1 {
            lemma_max_len_1(OperandKind::Bytes);
        } else if op == 2 {
            lemma_max_len_4(
                OperandKind::Bytes,
                OperandKind::U32,
                OperandKind::U32,
                OperandKind::U32,
            );
        } else if op == 3 {
            lemma_max_len_4(
                OperandKind::Bytes,
                OperandKind::U32,
                OperandKind::U32,
                OperandKind::U32,
            );
        } else if op == 4 {
            lemma_max_len_2(OperandKind::Bytes, OperandKind::U32);
        } else if op == 5 {
            lemma_max_len_1(OperandKind::Bytes);
        } else if op == 6 {
            lemma_max_len_2(OperandKind::Bytes, OperandKind::U32);
        } else if op == 7 {
            lemma_max_len_3(OperandKind::Bytes, OperandKind::U32, OperandKind::U32);
        } else if op == 8 {
            lemma_max_len_1(OperandKind::Bytes);
        } else if op == 9 {
        } else if op == 10 {
            lemma_max_len_2(OperandKind::U32, OperandKind::U32);
        } else if op == 11 {
            lemma_max_len_1(OperandKind::Bytes);
        } else if op == 12 {
            lemma_max_len_2(OperandKind::Bytes, OperandKind::U32);
        } else if op == 13 {
            lemma_max_len_3(OperandKind::Bytes, OperandKind::U32, OperandKind::U32);
        } else if op == 14 {
            lemma_max_len_3(OperandKind::Bytes, OperandKind::U32, OperandKind::U32);
        } else if op == 15 {
            lemma_max_len_1(OperandKind::Bytes);
        } else if op == 16 {
            lemma_max_len_1(OperandKind::Val);
        } else if op == 17 {
            lemma_max_len_4(
                OperandKind::String,
                OperandKind::U32,
                OperandKind::U32,
                OperandKind::U32,
            );
        } else if op == 18 {
            lemma_max_len_1(OperandKind::String);
        } else if op == 19 {
            lemma_max_len_2(OperandKind::U32, OperandKind::U32);
        } else if op == 20 {
            lemma_max_len_4(
                OperandKind::Symbol,
                OperandKind::U32,
                OperandKind::U32,
                OperandKind::U32,
            );
        } else if op == 21 {
            lemma_max_len_3(OperandKind::Symbol, OperandKind::U32, OperandKind::U32);
        } else if op == 22 {
            lemma_max_len_1(OperandKind::Symbol);
        } else if op == 23 {
            lemma_max_len_2(OperandKind::U32, OperandKind::U32);
        }
    } else if cat == 2 {
        if op == 0 {
            lemma_max_len_3(OperandKind::Address, OperandKind::Symbol, OperandKind::ValVec);
        } else if op == 1 {
            lemma_max_len_3(OperandKind::Address, OperandKind::Symbol, OperandKind::ValVec);
        }
    } else if cat == 3 {
        if op == 0 {
            lemma_max_len_2(OperandKind::ValVec, OperandKind::Val);
        } else if op == 1 {
            lemma_max_len_1(OperandKind::Val);
        } else if op == 2 {
        } else if op == 3 {
        } else if op == 4 {
        } else if op == 5 {
        } else if op == 6 {
        } else if op == 7 {
        } else if op == 8 {
        } else if op == 9 {
            lemma_max_len_4(OperandKind::U32, OperandKind::U32, OperandKind::U32, OperandKind::U32);
        } else if op == 10 {
            lemma_max_len_2(OperandKind::Val, OperandKind::Val);
        }
    } else if cat == 4 {
        if op == 0 {
            lemma_max_len_1(OperandKind::Bytes);
        } else if op == 1 {
            lemma_max_len_1(OperandKind::Bytes);
        } else if op == 2 {
            lemma_max_len_3(OperandKind::Bytes, OperandKind::Bytes, OperandKind::U32);
        } else if op == 3 {
            lemma_max_len_3(OperandKind::Bytes, OperandKind::Bytes, OperandKind::Bytes);
        }
    } else if cat == 5 {
        if op == 0 {
            lemma_max_len_1(OperandKind::U64);
        } else if op == 1 {
            lemma_max_len_1(OperandKind::Val);
        } else if op == 2 {
            lemma_max_len_2(OperandKind::Val, OperandKind::Val);
        } else if op == 3 {
            lemma_max_len_2(OperandKind::Val, OperandKind::Val);
        } else if op == 4 {
            lemma_max_len_2(OperandKind::Val, OperandKind::Val);
        } else if op == 5 {
            lemma_max_len_1(OperandKind::Bytes);
        } else if op == 6 {
            lemma_max_len_1(OperandKind::Val);
        } else if op == 7 {
            lemma_max_len_2(OperandKind::Val, OperandKind::U32);
        } else if op == 8 {
            lemma_max_len_2(OperandKind::Val, OperandKind::U32);
        } else if op == 9 {
            lemma_max_len_2(OperandKind::Val, OperandKind::U32);
        } else if op == 10 {
            lemma_max_len_2(OperandKind::Val, OperandKind::Val);
        } else if op == 11 {
            lemma_max_len_1(OperandKind::I64);
        } else if op == 12 {
            lemma_max_len_2(OperandKind::I64, OperandKind::U64);
        } else if op == 13 {
            lemma_max_len_4(OperandKind::I64, OperandKind::U64, OperandKind::U64, OperandKind::U64);
        } else if op == 14 {
            lemma_max_len_1(OperandKind::U64);
        } else if op == 15 {
            lemma_max_len_2(OperandKind::U64, OperandKind::U64);
        } else if op == 16 {
            lemma_max_len_4(OperandKind::U64, OperandKind::U64, OperandKind::U64, OperandKind::U64);
        } else if op == 17 {
            lemma_max_len_1(OperandKind::I64);
        } else if op == 18 {
            lemma_max_len_1(OperandKind::I128);
        } else if op == 19 {
            lemma_max_len_1(OperandKind::I128);
        } else if op == 20 {
            lemma_max_len_1(OperandKind::Val);
        } else if op == 21 {
            lemma_max_len_1(OperandKind::Val);
        } else if op == 22 {
            lemma_max_len_1(OperandKind::Val);
        } else if op == 23 {
            lemma_max_len_1(OperandKind::Val);
        } else if op == 24 {
            lemma_max_len_1(OperandKind::U64);
        } else if op == 25 {
            lemma_max_len_1(OperandKind::U128);
        } else if op == 26 {
            lemma_max_len_1(OperandKind::U128);
        } else if op == 27 {
            lemma_max_len_1(OperandKind::Val);
        } else if op == 28 {
            lemma_max_len_1(OperandKind::Val);
        } else if op == 29 {
            lemma_max_len_1(OperandKind::Val);
        } else if op == 30 {
            lemma_max_len_1(OperandKind::Val);
        } else if op == 31 {
            lemma_max_len_1(OperandKind::U64);
        } else if op == 32 {
            lemma_max_len_1(OperandKind::Val);
        } else if op == 33 {
            lemma_max_len_2(OperandKind::Val, OperandKind::Val);
        } else if op == 34 {
            lemma_max_len_2(OperandKind::Val, OperandKind::Val);
        } else if op == 35 {
            lemma_max_len_2(OperandKind::Val, OperandKind::Val);
        } else if op == 36 {
            lemma_max_len_1(OperandKind::Bytes);
        } else if op == 37 {
            lemma_max_len_1(OperandKind::Val);
        } else if op == 38 {
            lemma_max_len_2(OperandKind::Val, OperandKind::U32);
        } else if op == 39 {
            lemma_max_len_2(OperandKind::Val, OperandKind::U32);
        } else if op == 40 {
            lemma_max_len_2(OperandKind::Val, OperandKind::U32);
        } else if op == 41 {
            lemma_max_len_2(OperandKind::Val, OperandKind::Val);
        }
    } else if cat == 6 {
        if op == 0 {
            lemma_max_len_2(OperandKind::Val, OperandKind::U32);
        } else if op == 1 {
            lemma_max_len_1(OperandKind::Bytes);
        } else if op == 2 {
            lemma_max_len_3(OperandKind::Address, OperandKind::Bytes, OperandKind::Bytes);
        } else if op == 3 {
            lemma_max_len_1(OperandKind::Val);
        } else if op == 4 {
            lemma_max_len_1(OperandKind::Bytes);
        } else if op == 5 {
            lemma_max_len_1(OperandKind::Val);
        } else if op == 6 {
            lemma_max_len_2(OperandKind::Address, OperandKind::Bytes);
        } else if op == 7 {
            lemma_max_len_1(OperandKind::Val);
        } else if op == 8 {
            lemma_max_len_3(OperandKind::Val, OperandKind::Val, OperandKind::Val);
        } else if op == 9 {
            lemma_max_len_1(OperandKind::Bytes);
        } else if op == 10 {
            lemma_max_len_1(OperandKind::Bytes);
        }
    } else if cat == 7 {
        if op == 0 {
            lemma_max_len_2(OperandKind::ValMap, OperandKind::Val);
        } else if op == 1 {
            lemma_max_len_2(OperandKind::ValMap, OperandKind::Val);
        } else if op == 2 {
            lemma_max_len_2(OperandKind::ValMap, OperandKind::Val);
        } else if op == 3 {
            lemma_max_len_1(OperandKind::ValMap);
        } else if op == 4 {
            lemma_max_len_1(OperandKind::ValMap);
        } else if op == 5 {
            lemma_max_len_1(OperandKind::ValMap);
        } else if op == 6 {
            lemma_max_len_1(OperandKind::ValMap);
        } else if op == 7 {
        } else if op == 8 {
            lemma_max_len_3(OperandKind::U32, OperandKind::U32, OperandKind::U32);
        } else if op == 9 {
            lemma_max_len_2(OperandKind::ValMap, OperandKind::Val);
        } else if op == 10 {
            lemma_max_len_2(OperandKind::ValMap, OperandKind::Val);
        } else if op == 11 {
            lemma_max_len_3(OperandKind::ValMap, OperandKind::Val, OperandKind::Val);
        } else if op == 12 {
            lemma_max_len_4(
                OperandKind::ValMap,
                OperandKind::U32,
                OperandKind::U32,
                OperandKind::U32,
            );
        } else if op == 13 {
            lemma_max_len_1(OperandKind::ValMap);
        }
    } else if cat == 8 {
        if op == 0 {
            lemma_max_len_1(OperandKind::U32);
        } else if op == 1 {
            lemma_max_len_1(OperandKind::Bytes);
        } else if op == 2 {
            lemma_max_len_2(OperandKind::U64, OperandKind::U64);
        } else if op == 3 {
            lemma_max_len_1(OperandKind::ValVec);
        }
    } else if cat == 10 {
        if op == 0 {
            lemma_max_len_2(OperandKind::ValVec, OperandKind::ValVec);
        } else if op == 1 {
            lemma_max_len_1(OperandKind::ValVec);
        } else if op == 2 {
            lemma_max_len_2(OperandKind::ValVec, OperandKind::Val);
        } else if op == 3 {
            lemma_max_len_2(OperandKind::ValVec, OperandKind::U32);
        } else if op == 4 {
            lemma_max_len_2(OperandKind::ValVec, OperandKind::Val);
        } else if op == 5 {
            lemma_max_len_1(OperandKind::ValVec);
        } else if op == 6 {
            lemma_max_len_2(OperandKind::ValVec, OperandKind::U32);
        } else if op == 7 {
            lemma_max_len_3(OperandKind::ValVec, OperandKind::U32, OperandKind::Val);
        } else if op == 8 {
            lemma_max_len_2(OperandKind::ValVec, OperandKind::Val);
        } else if op == 9 {
            lemma_max_len_1(OperandKind::ValVec);
        } else if op == 10 {
            lemma_max_len_1(OperandKind::Val);
        } else if op == 11 {
            lemma_max_len_2(OperandKind::U32, OperandKind::U32);
        } else if op == 12 {
            lemma_max_len_1(OperandKind::ValVec);
        } else if op == 13 {
            lemma_max_len_1(OperandKind::ValVec);
        } else if op == 14 {
            lemma_max_len_2(OperandKind::ValVec, OperandKind::Val);
        } else if op == 15 {
            lemma_max_len_2(OperandKind::ValVec, OperandKind::Val);
        } else if op == 16 {
            lemma_max_len_3(OperandKind::ValVec, OperandKind::U32, OperandKind::Val);
        } else if op == 17 {
            lemma_max_len_3(OperandKind::ValVec, OperandKind::U32, OperandKind::U32);
        } else if op == 18 {
            lemma_max_len_3(OperandKind::ValVec, OperandKind::U32, OperandKind::U32);
        }
    }
}

/// Number of operations of category `cat`.
pub fn operation_count_of(cat: u32) -> (r: u32)
    requires
        cat < CATEGORY_COUNT,
    ensures
        r == operation_count(cat as int),
{
    if cat == 0 {
        7
    } else if cat == 1 {
        24
    } else if cat == 2 {
        2
    } else if cat == 3 {
        11
    } else if cat == 4 {
        4
    } else if cat == 5 {
        42
    } else if cat == 6 {
        11
    } else if cat == 7 {
        14
    } else if cat == 8 {
        4
    } else if cat == 9 {
        1
    } else {
        19
    }
}

/// Every instruction that decoding produces has operands that a host can
/// represent.
pub proof fn lemma_decode_wf(s: Seq<u8>)
    requires
        spec_decode(s) is Some,
    ensures
        spec_decode(s) matches Some((w, _)) && operands_wf(w.operands),
{
    let (cat, r) = spec_choice(s, CATEGORY_COUNT).unwrap();
    if operation_count(cat as int) == 1 {
        lemma_operands_wf(signature(cat as int, 0), r);
    } else {
        let (op, r2) = spec_choice(r, operation_count(cat as int) as u32).unwrap();
        lemma_operands_wf(signature(cat as int, op as int), r2);
    }
}

} // verus!
